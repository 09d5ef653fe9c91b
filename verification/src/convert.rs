//! What is done with one archive entry in each of the two passes.
//!
//! The first pass records the palettes: every entry whose archive name
//! contains a declared palette symbol is parsed as a texture descriptor
//! and kept.  The second pass converts the textures, and needs every
//! palette to be known by then.  Each function here decides for one entry;
//! reading the archive and writing the images is left to the caller.

use vstd::prelude::*;
use crate::bytes::le_u32;
use crate::error::DecodeError;
use crate::header::{parsed_header, OTRHeader, ResourceType};
use crate::names::name_bytes;
use crate::palette::{CorrelationView, PaletteCorrelation};
use crate::texture::{parsed_texture, ChannelLayout, TextureFormat, TextureType, TextureView};
use crate::transcode::{payload_bits, payload_suffices, transcode, transcoded};

verus! {

/// A raster as the image writer takes it, by mathematical values.
pub struct RasterView {
    pub pixels: Seq<u8>,
    pub width: nat,
    pub height: nat,
    pub layout: ChannelLayout,
}

/// A transcoded texture: what the image writer takes.
#[derive(Clone, Debug, PartialEq, Eq)]
pub struct Raster {
    /// The channels of all pixels, row by row.
    pub pixels: Vec<u8>,
    /// Width in pixels.
    pub width: u32,
    /// Height in pixels.
    pub height: u32,
    /// How the channels of a pixel are arranged.
    pub layout: ChannelLayout,
}

impl View for Raster {
    type V = RasterView;

    open spec fn view(&self) -> RasterView {
        RasterView {
            pixels: self.pixels@,
            width: self.width as nat,
            height: self.height as nat,
            layout: self.layout,
        }
    }
}

/// Header and descriptor of a texture resource blob: the error of the
/// header where the blob is too short for one, else that of the
/// descriptor, else both.
pub open spec fn parsed_resource(bytes: Seq<u8>) -> Result<(OTRHeader, TextureView), DecodeError> {
    if bytes.len() < 64 {
        Err(DecodeError::HeaderTooShort)
    } else {
        match parsed_texture(bytes) {
            Ok(texture) => Ok((parsed_header(bytes), texture)),
            Err(e) => Err(e),
        }
    }
}

/// The raster that the transcoder gives for a texture, with the geometry
/// of the texture.
pub open spec fn as_raster(
    texture: TextureView,
    result: Result<(Seq<u8>, ChannelLayout), DecodeError>,
) -> Result<RasterView, DecodeError> {
    match result {
        Ok((pixels, layout)) => Ok(
            RasterView { pixels, width: texture.width, height: texture.height, layout },
        ),
        Err(e) => Err(e),
    }
}

/// The raster of a texture.  A Palette8 texture takes the palette that
/// the correlation gives for its archive name, and cannot be converted
/// without one; a payload that is too small is found before the palette
/// is missed.
pub open spec fn converted_texture(
    correlation: CorrelationView,
    name: Seq<u8>,
    texture: TextureView,
) -> Result<RasterView, DecodeError> {
    if !texture.type_id.holds_pixels() {
        Err(DecodeError::UnsupportedFormat)
    } else if texture.data.len() * 8 < payload_bits(texture) {
        Err(DecodeError::SizeMismatch)
    } else if texture.type_id == TextureType::Palette8bpp {
        match correlation.resolved(name) {
            Some(found) => as_raster(texture, transcoded(texture, Some(found.1))),
            None => Err(DecodeError::PaletteNotFound),
        }
    } else {
        as_raster(texture, transcoded(texture, None))
    }
}

/// What the second pass makes of a resource blob: an error where it
/// cannot be decoded, nothing where it is no texture or holds no pixels,
/// else its raster.
pub open spec fn converted(correlation: CorrelationView, name: Seq<u8>, bytes: Seq<u8>) -> Result<
    Option<RasterView>,
    DecodeError,
> {
    if bytes.len() < 64 {
        Err(DecodeError::HeaderTooShort)
    } else if parsed_header(bytes).type_id != ResourceType::Texture {
        Ok(None)
    } else {
        match parsed_texture(bytes) {
            Err(e) => Err(e),
            Ok(texture) => if !texture.type_id.holds_pixels() {
                Ok(None)
            } else {
                match converted_texture(correlation, name, texture) {
                    Ok(raster) => Ok(Some(raster)),
                    Err(e) => Err(e),
                }
            },
        }
    }
}

/// A texture resource of format RGBA32 whose payload is large enough
/// converts to a raster of exactly its payload: what was put behind the
/// descriptor prefix comes out unchanged.
pub proof fn rgba32_resource_round_trip(correlation: CorrelationView, name: Seq<u8>, bytes: Seq<u8>)
    requires
        bytes.len() >= 80,
        parsed_header(bytes).type_id == ResourceType::Texture,
        le_u32(bytes, 64) == TextureType::RGBA32bpp.code(),
        (bytes.len() - 80) * 8 >= 32 * (le_u32(bytes, 68) * le_u32(bytes, 72)),
    ensures
        converted(correlation, name, bytes) == Ok::<Option<RasterView>, DecodeError>(
            Some(
                RasterView {
                    pixels: bytes.subrange(80, bytes.len() as int),
                    width: le_u32(bytes, 68) as nat,
                    height: le_u32(bytes, 72) as nat,
                    layout: ChannelLayout::Rgba8,
                },
            ),
        ),
{
}

/// Parses header and texture descriptor of a resource blob.
pub fn parse_resource(data: &[u8]) -> (r: Result<(OTRHeader, TextureFormat), DecodeError>)
    ensures
        match r {
            Ok((header, texture)) => parsed_resource(data@) == Ok::<
                (OTRHeader, TextureView),
                DecodeError,
            >((header, texture@)),
            Err(e) => parsed_resource(data@) == Err::<(OTRHeader, TextureView), DecodeError>(e),
        },
{
    let header = match OTRHeader::parse(data) {
        Ok(header) => header,
        Err(e) => {
            return Err(e);
        },
    };
    match TextureFormat::parse(data) {
        Ok(texture) => Ok((header, texture)),
        Err(e) => Err(e),
    }
}

/// First pass, for an entry whose archive name is that of a palette:
/// parses the entry as a texture descriptor and records it under its
/// name.  An entry that cannot be parsed leaves the correlation as it is.
pub fn index_palette(
    correlation: &mut PaletteCorrelation,
    archive_name: &str,
    data: &[u8],
) -> (r: Result<(), DecodeError>)
    ensures
        final(correlation)@.symbols == old(correlation)@.symbols,
        final(correlation)@.tlut_symbols == old(correlation)@.tlut_symbols,
        old(correlation)@.well_formed() ==> final(correlation)@.well_formed(),
        match parsed_texture(data@) {
            Ok(palette) => r is Ok && final(correlation)@.palettes == old(
                correlation,
            )@.with_palette(name_bytes(archive_name@), palette),
            Err(e) => r == Err::<(), DecodeError>(e) && final(correlation)@.palettes == old(
                correlation,
            )@.palettes,
        },
{
    match TextureFormat::parse(data) {
        Ok(palette) => {
            correlation.add_palette(archive_name.to_owned(), palette);
            Ok(())
        },
        Err(e) => Err(e),
    }
}

/// Transcodes a texture, with the palette that the correlation gives for
/// its archive name where the texture needs one.
pub fn transcode_with_correlation(
    correlation: &PaletteCorrelation,
    archive_name: &str,
    texture: &TextureFormat,
) -> (r: Result<Raster, DecodeError>)
    ensures
        match r {
            Ok(raster) => converted_texture(correlation@, name_bytes(archive_name@), texture@)
                == Ok::<RasterView, DecodeError>(raster@),
            Err(e) => converted_texture(correlation@, name_bytes(archive_name@), texture@)
                == Err::<RasterView, DecodeError>(e),
        },
{
    if !texture.type_id.is_pixel_format() {
        return Err(DecodeError::UnsupportedFormat);
    }
    if !payload_suffices(texture) {
        return Err(DecodeError::SizeMismatch);
    }
    let palette = match texture.type_id {
        TextureType::Palette8bpp => match correlation.resolve_palette(archive_name) {
            Some(palette) => Some(palette),
            None => {
                return Err(DecodeError::PaletteNotFound);
            },
        },
        _ => None,
    };
    match transcode(texture, palette) {
        Ok((pixels, layout)) => Ok(
            Raster { pixels, width: texture.width, height: texture.height, layout },
        ),
        Err(e) => Err(e),
    }
}

/// Second pass, for any entry: decodes a resource blob and, where it is
/// a texture that holds pixels, transcodes it.  Resources of other kinds,
/// palettes and error markers give `None`.
pub fn convert_resource(
    correlation: &PaletteCorrelation,
    archive_name: &str,
    data: &[u8],
) -> (r: Result<Option<Raster>, DecodeError>)
    ensures
        match r {
            Ok(Some(raster)) => converted(correlation@, name_bytes(archive_name@), data@) == Ok::<
                Option<RasterView>,
                DecodeError,
            >(Some(raster@)),
            Ok(None) => converted(correlation@, name_bytes(archive_name@), data@) == Ok::<
                Option<RasterView>,
                DecodeError,
            >(None),
            Err(e) => converted(correlation@, name_bytes(archive_name@), data@) == Err::<
                Option<RasterView>,
                DecodeError,
            >(e),
        },
{
    let header = match OTRHeader::parse(data) {
        Ok(header) => header,
        Err(e) => {
            return Err(e);
        },
    };
    if header.type_id != ResourceType::Texture {
        return Ok(None);
    }
    let texture = match TextureFormat::parse(data) {
        Ok(texture) => texture,
        Err(e) => {
            return Err(e);
        },
    };
    if !texture.type_id.is_pixel_format() {
        return Ok(None);
    }
    match transcode_with_correlation(correlation, archive_name, &texture) {
        Ok(raster) => Ok(Some(raster)),
        Err(e) => Err(e),
    }
}

} // verus!
