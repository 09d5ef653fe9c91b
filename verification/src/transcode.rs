//! The pixel transcoder: from a native pixel encoding to 8-bit channels.
//!
//! Every supported format has one unpacking function.  What each of them
//! writes is stated byte by byte: the byte at position `k` of the output
//! is a function of the payload and `k` alone.

use vstd::prelude::*;
use vstd::slice::*;
use crate::error::DecodeError;
use crate::scale::{scale_3_8, scale_4_8, scale_5_8, scale_to_byte};
use crate::texture::{ChannelLayout, TextureFormat, TextureType, TextureView};

verus! {

/// The alpha byte of a pixel that is opaque or fully transparent.
pub open spec fn alpha_byte(opaque: bool) -> u8 {
    if opaque {
        0xFF
    } else {
        0x00
    }
}

/// The 16-bit colour that two payload bytes hold, the first byte high.
/// Its layout is 5 bits red, 5 bits green, 5 bits blue, 1 bit alpha.
pub open spec fn color_word(high: u8, low: u8) -> int {
    high as int * 256 + low as int
}

/// Red of a 16-bit colour, scaled to 8 bits.
pub open spec fn red_of(word: int) -> u8 {
    scale_to_byte(word / 2048, 31) as u8
}

/// Green of a 16-bit colour, scaled to 8 bits.
pub open spec fn green_of(word: int) -> u8 {
    scale_to_byte(word / 64 % 32, 31) as u8
}

/// Blue of a 16-bit colour, scaled to 8 bits.
pub open spec fn blue_of(word: int) -> u8 {
    scale_to_byte(word / 2 % 32, 31) as u8
}

/// Channel `channel` (red, green, blue, alpha) of a 16-bit colour that
/// stands in a texture: the pixel is opaque where the lowest bit is set.
pub open spec fn rgba16_channel(word: int, channel: int) -> u8 {
    if channel == 0 {
        red_of(word)
    } else if channel == 1 {
        green_of(word)
    } else if channel == 2 {
        blue_of(word)
    } else {
        alpha_byte(word % 2 != 0)
    }
}

/// Channel `channel` of a 16-bit colour that stands in a palette: the
/// pixel is opaque where one of the two lowest bits is set.
pub open spec fn palette_channel(word: int, channel: int) -> u8 {
    if channel == 0 {
        red_of(word)
    } else if channel == 1 {
        green_of(word)
    } else if channel == 2 {
        blue_of(word)
    } else {
        alpha_byte(word % 4 != 0)
    }
}

/// Entry `index` of a palette: the two bytes at `2 * index`.  An entry
/// that does not lie within the palette as a whole is `(1, 1)`.
pub open spec fn palette_entry(palette: Seq<u8>, index: int) -> (u8, u8) {
    if 0 <= index && 2 * index + 1 < palette.len() {
        (palette[2 * index], palette[2 * index + 1])
    } else {
        (1u8, 1u8)
    }
}

/// The 4-bit sample `index` of a payload that packs two samples into each
/// byte, the first into the high half.
pub open spec fn nibble(data: Seq<u8>, index: int) -> int {
    if index % 2 == 0 {
        data[index / 2] as int / 16
    } else {
        data[index / 2] as int % 16
    }
}

/// Byte `k` of the raster of an RGBA16 payload.
pub open spec fn rgba16_byte(data: Seq<u8>, k: int) -> u8 {
    rgba16_channel(color_word(data[2 * (k / 4)], data[2 * (k / 4) + 1]), k % 4)
}

/// Byte `k` of the raster of a Palette8 payload.
pub open spec fn palette8_byte(data: Seq<u8>, palette: Seq<u8>, k: int) -> u8 {
    let entry = palette_entry(palette, data[k / 4] as int);
    palette_channel(color_word(entry.0, entry.1), k % 4)
}

/// Byte `k` of the raster of a Grayscale4 payload: gray and alpha are
/// both the scaled sample.
pub open spec fn grayscale4_byte(data: Seq<u8>, k: int) -> u8 {
    scale_to_byte(nibble(data, k / 2), 15) as u8
}

/// Byte `k` of the raster of a Grayscale8 payload: gray and alpha are
/// both the payload byte.
pub open spec fn grayscale8_byte(data: Seq<u8>, k: int) -> u8 {
    data[k / 2]
}

/// Byte `k` of the raster of a GrayscaleAlpha4 payload: of each sample
/// the high three bits are the intensity, the low bit is alpha.
pub open spec fn grayscale_alpha4_byte(data: Seq<u8>, k: int) -> u8 {
    let sample = nibble(data, k / 2);
    if k % 2 == 0 {
        scale_to_byte(sample / 2, 7) as u8
    } else {
        alpha_byte(sample % 2 != 0)
    }
}

/// Byte `k` of the raster of a GrayscaleAlpha8 payload: of each byte the
/// high half is the intensity, the low half is alpha.
pub open spec fn grayscale_alpha8_byte(data: Seq<u8>, k: int) -> u8 {
    if k % 2 == 0 {
        scale_to_byte(data[k / 2] as int / 16, 15) as u8
    } else {
        scale_to_byte(data[k / 2] as int % 16, 15) as u8
    }
}

/// Number of pixels of a texture.
pub open spec fn pixel_count(texture: TextureView) -> nat {
    texture.width * texture.height
}

/// Bits of payload that the geometry of a texture calls for.
pub open spec fn payload_bits(texture: TextureView) -> nat {
    texture.type_id.pixel_bits() * pixel_count(texture)
}

/// Whether the transcoder unpacks the format.
pub open spec fn is_transcoded(type_id: TextureType) -> bool {
    match type_id {
        TextureType::RGBA32bpp => true,
        TextureType::RGBA16bpp => true,
        TextureType::Palette8bpp => true,
        TextureType::Grayscale4bpp => true,
        TextureType::Grayscale8bpp => true,
        TextureType::GrayscaleAlpha4bpp => true,
        TextureType::GrayscaleAlpha8bpp => true,
        _ => false,
    }
}

/// The raster of a texture whose payload is large enough, given the bytes
/// of its palette (which only Palette8 reads).
pub open spec fn raster(texture: TextureView, palette: Seq<u8>) -> Seq<u8>
    recommends
        is_transcoded(texture.type_id),
        texture.data.len() * 8 >= payload_bits(texture),
{
    let count = pixel_count(texture);
    let data = texture.data;
    match texture.type_id {
        TextureType::RGBA32bpp => data,
        TextureType::RGBA16bpp => Seq::new(4 * count, |k: int| rgba16_byte(data, k)),
        TextureType::Palette8bpp => Seq::new(4 * count, |k: int| palette8_byte(data, palette, k)),
        TextureType::Grayscale4bpp => Seq::new(2 * count, |k: int| grayscale4_byte(data, k)),
        TextureType::Grayscale8bpp => Seq::new(2 * count, |k: int| grayscale8_byte(data, k)),
        TextureType::GrayscaleAlpha4bpp => Seq::new(
            2 * count,
            |k: int| grayscale_alpha4_byte(data, k),
        ),
        TextureType::GrayscaleAlpha8bpp => Seq::new(
            2 * count,
            |k: int| grayscale_alpha8_byte(data, k),
        ),
        _ => Seq::empty(),
    }
}

/// What transcoding a texture gives.  The checks come in this order: a
/// descriptor that holds no pixels is unsupported; a payload that is too
/// small is a size mismatch; a format that is not unpacked is
/// unsupported; a Palette8 texture needs a palette.
pub open spec fn transcoded(texture: TextureView, palette: Option<TextureView>) -> Result<
    (Seq<u8>, ChannelLayout),
    DecodeError,
> {
    if !texture.type_id.holds_pixels() {
        Err(DecodeError::UnsupportedFormat)
    } else if texture.data.len() * 8 < payload_bits(texture) {
        Err(DecodeError::SizeMismatch)
    } else if !is_transcoded(texture.type_id) {
        Err(DecodeError::UnsupportedFormat)
    } else if texture.type_id == TextureType::Palette8bpp {
        match palette {
            None => Err(DecodeError::PaletteRequired),
            Some(p) => Ok((raster(texture, p.data), texture.type_id.layout())),
        }
    } else {
        Ok((raster(texture, Seq::empty()), texture.type_id.layout()))
    }
}

/// An RGBA32 texture is passed through: its raster is its payload, byte
/// for byte, whatever palette is at hand.
pub proof fn rgba32_passes_through(texture: TextureView, palette: Option<TextureView>)
    requires
        texture.type_id == TextureType::RGBA32bpp,
        texture.data.len() * 8 >= payload_bits(texture),
    ensures
        transcoded(texture, palette) == Ok::<(Seq<u8>, ChannelLayout), DecodeError>(
            (texture.data, ChannelLayout::Rgba8),
        ),
{
}

/// A size mismatch is reported exactly where the payload holds fewer bits
/// than format, width and height call for; a payload of exactly that many
/// bits is accepted.
pub proof fn size_mismatch_exact(texture: TextureView, palette: Option<TextureView>)
    ensures
        transcoded(texture, palette) == Err::<(Seq<u8>, ChannelLayout), DecodeError>(
            DecodeError::SizeMismatch,
        ) <==> texture.data.len() * 8 < texture.type_id.pixel_bits() * texture.width
            * texture.height,
        texture.data.len() * 8 == texture.type_id.pixel_bits() * texture.width * texture.height
            ==> transcoded(texture, palette) != Err::<(Seq<u8>, ChannelLayout), DecodeError>(
            DecodeError::SizeMismatch,
        ),
{
    assert(texture.type_id.pixel_bits() * texture.width * texture.height == payload_bits(texture))
        by (nonlinear_arith)
        requires
            payload_bits(texture) == texture.type_id.pixel_bits() * (texture.width
                * texture.height),
    ;
}

/// An index whose entry does not lie within the palette stands for the
/// entry `(1, 1)`.
pub proof fn palette_entry_beyond_end(palette: Seq<u8>, index: int)
    requires
        2 * index + 1 >= palette.len(),
    ensures
        palette_entry(palette, index) == (1u8, 1u8),
{
}

/// A pixel of a Palette8 texture whose index lies beyond the end of the
/// palette gets the colour of the entry `(1, 1)`: green 32, opaque.
pub proof fn palette8_pixel_beyond_end(texture: TextureView, palette: TextureView, pixel: int)
    requires
        texture.type_id == TextureType::Palette8bpp,
        texture.data.len() * 8 >= payload_bits(texture),
        0 <= pixel < pixel_count(texture),
        2 * texture.data[pixel] + 1 >= palette.data.len(),
    ensures
        transcoded(texture, Some(palette)) matches Ok((pixels, layout)) && layout
            == ChannelLayout::Rgba8 && pixels.subrange(4 * pixel, 4 * pixel + 4) == seq![
            0u8,
            32u8,
            0u8,
            255u8,
        ],
{
}

/// The raster of a texture has the layout of its format.  But for
/// RGBA32, whose raster is the whole payload, it holds exactly the pixels
/// of the texture.
pub proof fn raster_length(texture: TextureView, palette: Option<TextureView>)
    ensures
        transcoded(texture, palette) matches Ok((pixels, layout)) ==> {
            &&& layout == texture.type_id.layout()
            &&& texture.type_id == TextureType::RGBA32bpp ==> pixels.len() == texture.data.len()
            &&& texture.type_id != TextureType::RGBA32bpp ==> pixels.len() * 8
                == layout.pixel_bits() * pixel_count(texture)
        },
{
    if transcoded(texture, palette) is Ok {
        let bits = texture.type_id.layout().pixel_bits();
        let count = pixel_count(texture);
        if bits == 32 {
            assert(bits * count == 32 * count) by (nonlinear_arith)
                requires
                    bits == 32,
            ;
        } else {
            assert(bits * count == 16 * count) by (nonlinear_arith)
                requires
                    bits == 16,
            ;
        }
    }
}

/// The view of an optional palette.
pub open spec fn palette_view(palette: Option<&TextureFormat>) -> Option<TextureView> {
    match palette {
        Some(p) => Some(p@),
        None => None,
    }
}

/// Where the three 5-bit colours lie in the two bytes of a 16-bit colour.
proof fn lemma_color_fields(high: u8, low: u8)
    by (bit_vector)
    ensures
        (high as u32 * 256 + low as u32) / 2048 == ((high & 0xF8) >> 3) as u32,
        (high as u32 * 256 + low as u32) / 64 % 32 == (((high & 0x07) << 2) | ((low & 0xC0)
            >> 6)) as u32,
        (high as u32 * 256 + low as u32) / 2 % 32 == ((low & 0x3E) >> 1) as u32,
        (high & 0xF8) >> 3 <= 31,
        ((high & 0x07) << 2) | ((low & 0xC0) >> 6) <= 31,
        (low & 0x3E) >> 1 <= 31,
{
}

/// Splits a 16-bit colour into its scaled red, green and blue.
fn unpack_color(high: u8, low: u8) -> (r: (u8, u8, u8))
    ensures
        r.0 == red_of(color_word(high, low)),
        r.1 == green_of(color_word(high, low)),
        r.2 == blue_of(color_word(high, low)),
{
    let red: u8 = (high & 0xF8) >> 3;
    let green: u8 = ((high & 0x07) << 2) | ((low & 0xC0) >> 6);
    let blue: u8 = (low & 0x3E) >> 1;
    proof {
        lemma_color_fields(high, low);
    }
    (scale_5_8(red), scale_5_8(green), scale_5_8(blue))
}

/// Alpha of a 16-bit colour that stands in a texture.
fn texture_alpha(low: u8) -> (r: u8)
    ensures
        forall|high: u8| r == alpha_byte(#[trigger] color_word(high, low) % 2 != 0),
{
    assert((low & 0x01 != 0) == (low % 2 != 0)) by (bit_vector);
    if (low & 0x01) != 0 {
        0xFF
    } else {
        0x00
    }
}

/// Alpha of a 16-bit colour that stands in a palette.
fn palette_alpha(low: u8) -> (r: u8)
    ensures
        forall|high: u8| r == alpha_byte(#[trigger] color_word(high, low) % 4 != 0),
{
    assert((low & 0x03 != 0) == (low % 4 != 0)) by (bit_vector);
    if (low & 0x03) != 0 {
        0xFF
    } else {
        0x00
    }
}

/// Looks up entry `index` of a palette.
fn lookup_palette(palette: &[u8], index: u8) -> (r: (u8, u8))
    ensures
        r == palette_entry(palette@, index as int),
{
    let at: usize = index as usize * 2;
    if at + 1 < palette.len() {
        (palette[at], palette[at + 1])
    } else {
        (1, 1)
    }
}

/// Reads the 4-bit sample `index` of a payload.
fn read_nibble(data: &[u8], index: u64) -> (r: u8)
    requires
        index / 2 < data@.len(),
    ensures
        r == nibble(data@, index as int),
        r <= 15,
{
    let byte: u8 = data[(index / 2) as usize];
    assert(byte >> 4 == byte / 16 && byte & 0xF == byte % 16) by (bit_vector);
    if index % 2 != 0 {
        byte & 0xF
    } else {
        byte >> 4
    }
}

/// Unpacks `count` pixels of two bytes each, 5-5-5-1, into RGBA.
pub fn unpack_rgba16(data: &[u8], count: u64) -> (out: Vec<u8>)
    requires
        2 * count <= data@.len(),
    ensures
        out@ == Seq::new((4 * count) as nat, |k: int| rgba16_byte(data@, k)),
{
    let mut out: Vec<u8> = Vec::new();
    let mut i: u64 = 0;
    while i < count
        invariant
            i <= count,
            2 * count <= data@.len(),
            out@.len() == 4 * i,
            forall|k: int| 0 <= k < out@.len() ==> out@[k] == rgba16_byte(data@, k),
        decreases count - i,
    {
        assert(data@.len() == data.len());
        let at: usize = (2 * i) as usize;
        let high: u8 = data[at];
        let low: u8 = data[at + 1];
        let color = unpack_color(high, low);
        let alpha = texture_alpha(low);
        out.push(color.0);
        out.push(color.1);
        out.push(color.2);
        out.push(alpha);
        i += 1;
    }
    out
}

/// Unpacks `count` pixels of one palette index each into RGBA.
pub fn unpack_palette8(data: &[u8], palette: &[u8], count: u64) -> (out: Vec<u8>)
    requires
        count <= data@.len(),
    ensures
        out@ == Seq::new((4 * count) as nat, |k: int| palette8_byte(data@, palette@, k)),
{
    let mut out: Vec<u8> = Vec::new();
    let mut i: u64 = 0;
    while i < count
        invariant
            i <= count,
            count <= data@.len(),
            out@.len() == 4 * i,
            forall|k: int| 0 <= k < out@.len() ==> out@[k] == palette8_byte(data@, palette@, k),
        decreases count - i,
    {
        let index: u8 = data[i as usize];
        let entry = lookup_palette(palette, index);
        let color = unpack_color(entry.0, entry.1);
        let alpha = palette_alpha(entry.1);
        out.push(color.0);
        out.push(color.1);
        out.push(color.2);
        out.push(alpha);
        i += 1;
    }
    out
}

/// Unpacks `count` 4-bit gray samples into gray+alpha.
pub fn unpack_grayscale4(data: &[u8], count: u64) -> (out: Vec<u8>)
    requires
        count <= 2 * data@.len(),
    ensures
        out@ == Seq::new((2 * count) as nat, |k: int| grayscale4_byte(data@, k)),
{
    let mut out: Vec<u8> = Vec::new();
    let mut i: u64 = 0;
    while i < count
        invariant
            i <= count,
            count <= 2 * data@.len(),
            out@.len() == 2 * i,
            forall|k: int| 0 <= k < out@.len() ==> out@[k] == grayscale4_byte(data@, k),
        decreases count - i,
    {
        let bits = read_nibble(data, i);
        out.push(scale_4_8(bits));
        out.push(scale_4_8(bits));
        i += 1;
    }
    out
}

/// Unpacks `count` 8-bit gray samples into gray+alpha.
pub fn unpack_grayscale8(data: &[u8], count: u64) -> (out: Vec<u8>)
    requires
        count <= data@.len(),
    ensures
        out@ == Seq::new((2 * count) as nat, |k: int| grayscale8_byte(data@, k)),
{
    let mut out: Vec<u8> = Vec::new();
    let mut i: u64 = 0;
    while i < count
        invariant
            i <= count,
            count <= data@.len(),
            out@.len() == 2 * i,
            forall|k: int| 0 <= k < out@.len() ==> out@[k] == grayscale8_byte(data@, k),
        decreases count - i,
    {
        let bits: u8 = data[i as usize];
        out.push(bits);
        out.push(bits);
        i += 1;
    }
    out
}

/// Unpacks `count` 4-bit samples of 3 bits intensity and 1 bit alpha.
pub fn unpack_grayscale_alpha4(data: &[u8], count: u64) -> (out: Vec<u8>)
    requires
        count <= 2 * data@.len(),
    ensures
        out@ == Seq::new((2 * count) as nat, |k: int| grayscale_alpha4_byte(data@, k)),
{
    let mut out: Vec<u8> = Vec::new();
    let mut i: u64 = 0;
    while i < count
        invariant
            i <= count,
            count <= 2 * data@.len(),
            out@.len() == 2 * i,
            forall|k: int| 0 <= k < out@.len() ==> out@[k] == grayscale_alpha4_byte(data@, k),
        decreases count - i,
    {
        let bits = read_nibble(data, i);
        let intensity: u8 = (bits >> 1) & 0x07;
        assert(intensity == bits / 2 && intensity <= 7 && (bits & 0x01 != 0) == (bits % 2 != 0))
            by (bit_vector)
            requires
                intensity == (bits >> 1) & 0x07,
                bits <= 15,
        ;
        out.push(scale_3_8(intensity));
        out.push(
            if (bits & 0x01) != 0 {
                0xFF
            } else {
                0x00
            },
        );
        i += 1;
    }
    out
}

/// Unpacks `count` bytes of 4 bits intensity and 4 bits alpha.
pub fn unpack_grayscale_alpha8(data: &[u8], count: u64) -> (out: Vec<u8>)
    requires
        count <= data@.len(),
    ensures
        out@ == Seq::new((2 * count) as nat, |k: int| grayscale_alpha8_byte(data@, k)),
{
    let mut out: Vec<u8> = Vec::new();
    let mut i: u64 = 0;
    while i < count
        invariant
            i <= count,
            count <= data@.len(),
            out@.len() == 2 * i,
            forall|k: int| 0 <= k < out@.len() ==> out@[k] == grayscale_alpha8_byte(data@, k),
        decreases count - i,
    {
        let bits: u8 = data[i as usize];
        let intensity: u8 = (bits & 0xF0) >> 4;
        let alpha: u8 = bits & 0x0F;
        assert(intensity == bits / 16 && alpha == bits % 16 && intensity <= 15 && alpha <= 15)
            by (bit_vector)
            requires
                intensity == (bits & 0xF0) >> 4,
                alpha == bits & 0x0F,
        ;
        out.push(scale_4_8(intensity));
        out.push(scale_4_8(alpha));
        i += 1;
    }
    out
}

/// Number of pixels of a texture.
pub fn count_pixels(texture: &TextureFormat) -> (count: u64)
    ensures
        count == pixel_count(texture@),
{
    let width: u64 = texture.width as u64;
    let height: u64 = texture.height as u64;
    assert(width * height <= 0xFFFF_FFFF * 0xFFFF_FFFF) by (nonlinear_arith)
        requires
            width <= 0xFFFF_FFFF,
            height <= 0xFFFF_FFFF,
    ;
    width * height
}

/// Whether the payload of a texture holds as many bits as its format,
/// width and height call for.
pub fn payload_suffices(texture: &TextureFormat) -> (r: bool)
    requires
        texture.type_id.holds_pixels(),
    ensures
        r == (texture@.data.len() * 8 >= payload_bits(texture@)),
{
    let count: u128 = count_pixels(texture) as u128;
    let bits: u128 = texture.type_id.bits_per_pixel() as u128;
    assert(bits * count <= 32 * 0xFFFF_FFFF_FFFF_FFFF) by (nonlinear_arith)
        requires
            bits <= 32,
            count <= 0xFFFF_FFFF_FFFF_FFFF,
    ;
    (texture.data.len() as u128) * 8 >= bits * count
}

/// Transcodes a texture into a raster of 8-bit channels.  A Palette8
/// texture reads its colours from `palette`; no other format looks at it.
/// The payload is checked against the geometry before anything is
/// unpacked, and is never cut or padded.
pub fn transcode(texture: &TextureFormat, palette: Option<&TextureFormat>) -> (r: Result<
    (Vec<u8>, ChannelLayout),
    DecodeError,
>)
    ensures
        match r {
            Ok((pixels, layout)) => transcoded(texture@, palette_view(palette)) == Ok::<
                (Seq<u8>, ChannelLayout),
                DecodeError,
            >((pixels@, layout)),
            Err(e) => transcoded(texture@, palette_view(palette)) == Err::<
                (Seq<u8>, ChannelLayout),
                DecodeError,
            >(e),
        },
{
    if !texture.type_id.is_pixel_format() {
        return Err(DecodeError::UnsupportedFormat);
    }
    let count = count_pixels(texture);
    let data = texture.data.as_slice();
    if !payload_suffices(texture) {
        return Err(DecodeError::SizeMismatch);
    }
    let layout = texture.type_id.to_image_type();
    match texture.type_id {
        TextureType::RGBA32bpp => Ok((slice_to_vec(data), layout)),
        TextureType::RGBA16bpp => Ok((unpack_rgba16(data, count), layout)),
        TextureType::Palette8bpp => match palette {
            None => Err(DecodeError::PaletteRequired),
            Some(p) => Ok((unpack_palette8(data, p.data.as_slice(), count), layout)),
        },
        TextureType::Grayscale4bpp => Ok((unpack_grayscale4(data, count), layout)),
        TextureType::Grayscale8bpp => Ok((unpack_grayscale8(data, count), layout)),
        TextureType::GrayscaleAlpha4bpp => Ok((unpack_grayscale_alpha4(data, count), layout)),
        TextureType::GrayscaleAlpha8bpp => Ok((unpack_grayscale_alpha8(data, count), layout)),
        _ => Err(DecodeError::UnsupportedFormat),
    }
}

} // verus!
