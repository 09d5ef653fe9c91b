//! Texture pixel formats and the texture descriptor.

use vstd::prelude::*;
use vstd::slice::*;
use crate::bytes::{le_u32, read_u32_le};
use crate::error::DecodeError;
use crate::header::OTR_HEADER_SIZE;

verus! {

/// Size in bytes of the descriptor prefix that follows the resource header.
pub const TEXTURE_PREFIX_SIZE: usize = 16;

/// The native pixel encoding of a texture, by its tag in the descriptor.
#[derive(Clone, Copy, Debug, PartialEq, Eq, Structural)]
pub enum TextureType {
    Error,
    RGBA32bpp,
    RGBA16bpp,
    Palette4bpp,
    Palette8bpp,
    Grayscale4bpp,
    Grayscale8bpp,
    GrayscaleAlpha4bpp,
    GrayscaleAlpha8bpp,
    GrayscaleAlpha16bpp,
    GrayscaleAlpha1bpp,
    TLUT,
}

/// The arrangement of the channels in a transcoded raster.
#[derive(Clone, Copy, Debug, PartialEq, Eq, Structural)]
pub enum ChannelLayout {
    /// Four 8-bit channels: red, green, blue, alpha.
    Rgba8,
    /// Two 8-bit channels: luminance, alpha.
    La8,
    /// Two 1-bit channels: luminance, alpha.
    La1,
}

impl TextureType {
    /// The tag that stands for this format in a descriptor.
    pub open spec fn code(self) -> int {
        match self {
            TextureType::Error => 0,
            TextureType::RGBA32bpp => 1,
            TextureType::RGBA16bpp => 2,
            TextureType::Palette4bpp => 3,
            TextureType::Palette8bpp => 4,
            TextureType::Grayscale4bpp => 5,
            TextureType::Grayscale8bpp => 6,
            TextureType::GrayscaleAlpha4bpp => 7,
            TextureType::GrayscaleAlpha8bpp => 8,
            TextureType::GrayscaleAlpha16bpp => 9,
            TextureType::GrayscaleAlpha1bpp => 10,
            TextureType::TLUT => 11,
        }
    }

    /// The format that a tag stands for, if any.
    pub open spec fn of_code(code: int) -> Option<TextureType> {
        if code == 0 {
            Some(TextureType::Error)
        } else if code == 1 {
            Some(TextureType::RGBA32bpp)
        } else if code == 2 {
            Some(TextureType::RGBA16bpp)
        } else if code == 3 {
            Some(TextureType::Palette4bpp)
        } else if code == 4 {
            Some(TextureType::Palette8bpp)
        } else if code == 5 {
            Some(TextureType::Grayscale4bpp)
        } else if code == 6 {
            Some(TextureType::Grayscale8bpp)
        } else if code == 7 {
            Some(TextureType::GrayscaleAlpha4bpp)
        } else if code == 8 {
            Some(TextureType::GrayscaleAlpha8bpp)
        } else if code == 9 {
            Some(TextureType::GrayscaleAlpha16bpp)
        } else if code == 10 {
            Some(TextureType::GrayscaleAlpha1bpp)
        } else if code == 11 {
            Some(TextureType::TLUT)
        } else {
            None
        }
    }

    /// Whether textures of this format hold pixels: every format but the
    /// error marker and the palette itself.
    pub open spec fn holds_pixels(self) -> bool {
        self != TextureType::Error && self != TextureType::TLUT
    }

    /// Bits that one pixel occupies in the payload.
    pub open spec fn pixel_bits(self) -> nat
        recommends
            self.holds_pixels(),
    {
        match self {
            TextureType::RGBA32bpp => 32,
            TextureType::RGBA16bpp => 16,
            TextureType::Palette4bpp => 4,
            TextureType::Palette8bpp => 8,
            TextureType::Grayscale4bpp => 4,
            TextureType::Grayscale8bpp => 8,
            TextureType::GrayscaleAlpha4bpp => 4,
            TextureType::GrayscaleAlpha8bpp => 8,
            TextureType::GrayscaleAlpha16bpp => 16,
            TextureType::GrayscaleAlpha1bpp => 1,
            _ => 0,
        }
    }

    /// The channel layout of the raster that textures of this format become.
    pub open spec fn layout(self) -> ChannelLayout
        recommends
            self.holds_pixels(),
    {
        match self {
            TextureType::RGBA32bpp => ChannelLayout::Rgba8,
            TextureType::RGBA16bpp => ChannelLayout::Rgba8,
            TextureType::Palette4bpp => ChannelLayout::Rgba8,
            TextureType::Palette8bpp => ChannelLayout::Rgba8,
            TextureType::GrayscaleAlpha1bpp => ChannelLayout::La1,
            _ => ChannelLayout::La8,
        }
    }

    /// Decodes a pixel-format tag.  The set of formats is closed: a tag
    /// above 11 is an error.
    pub fn from_u32(value: u32) -> (r: Result<TextureType, DecodeError>)
        ensures
            r == match TextureType::of_code(value as int) {
                Some(t) => Ok::<TextureType, DecodeError>(t),
                None => Err::<TextureType, DecodeError>(DecodeError::UnknownPixelFormat),
            },
            r is Ok <==> value <= 11,
            r matches Ok(t) ==> t.code() == value,
    {
        match value {
            0 => Ok(TextureType::Error),
            1 => Ok(TextureType::RGBA32bpp),
            2 => Ok(TextureType::RGBA16bpp),
            3 => Ok(TextureType::Palette4bpp),
            4 => Ok(TextureType::Palette8bpp),
            5 => Ok(TextureType::Grayscale4bpp),
            6 => Ok(TextureType::Grayscale8bpp),
            7 => Ok(TextureType::GrayscaleAlpha4bpp),
            8 => Ok(TextureType::GrayscaleAlpha8bpp),
            9 => Ok(TextureType::GrayscaleAlpha16bpp),
            10 => Ok(TextureType::GrayscaleAlpha1bpp),
            11 => Ok(TextureType::TLUT),
            _ => Err(DecodeError::UnknownPixelFormat),
        }
    }

    /// Whether textures of this format hold pixels.
    pub fn is_pixel_format(&self) -> (r: bool)
        ensures
            r == self.holds_pixels(),
    {
        match self {
            TextureType::Error => false,
            TextureType::TLUT => false,
            _ => true,
        }
    }

    /// The channel layout for the image writer.
    pub fn to_image_type(&self) -> (r: ChannelLayout)
        requires
            self.holds_pixels(),
        ensures
            r == self.layout(),
    {
        match self {
            TextureType::RGBA32bpp => ChannelLayout::Rgba8,
            TextureType::RGBA16bpp => ChannelLayout::Rgba8,
            TextureType::Palette4bpp => ChannelLayout::Rgba8,
            TextureType::Palette8bpp => ChannelLayout::Rgba8,
            TextureType::GrayscaleAlpha1bpp => ChannelLayout::La1,
            _ => ChannelLayout::La8,
        }
    }

    /// Bits per pixel of the payload.
    pub fn bits_per_pixel(&self) -> (r: u8)
        requires
            self.holds_pixels(),
        ensures
            r == self.pixel_bits(),
    {
        match self {
            TextureType::RGBA32bpp => 32,
            TextureType::RGBA16bpp => 16,
            TextureType::Palette4bpp => 4,
            TextureType::Palette8bpp => 8,
            TextureType::Grayscale4bpp => 4,
            TextureType::Grayscale8bpp => 8,
            TextureType::GrayscaleAlpha4bpp => 4,
            TextureType::GrayscaleAlpha8bpp => 8,
            TextureType::GrayscaleAlpha16bpp => 16,
            TextureType::GrayscaleAlpha1bpp => 1,
            _ => 0,
        }
    }
}

impl ChannelLayout {
    /// Bits that one pixel occupies in a raster of this layout.
    pub open spec fn pixel_bits(self) -> nat {
        match self {
            ChannelLayout::Rgba8 => 32,
            ChannelLayout::La8 => 16,
            ChannelLayout::La1 => 2,
        }
    }

    /// Bits per pixel of a raster of this layout.
    pub fn bits_per_pixel(&self) -> (r: u16)
        ensures
            r == self.pixel_bits(),
    {
        match self {
            ChannelLayout::Rgba8 => 32,
            ChannelLayout::La8 => 16,
            ChannelLayout::La1 => 2,
        }
    }
}

/// What a texture descriptor says, as mathematical values.
pub struct TextureView {
    pub type_id: TextureType,
    pub width: nat,
    pub height: nat,
    pub size: nat,
    pub data: Seq<u8>,
}

/// The descriptor of one texture and its pixel payload.
#[derive(Clone, Debug, PartialEq, Eq)]
pub struct TextureFormat {
    /// The native pixel encoding.
    pub type_id: TextureType,
    /// Width in pixels.
    pub width: u32,
    /// Height in pixels.
    pub height: u32,
    /// The payload size that the author declared.  It is advisory: the
    /// payload is never cut to it.
    pub size: u32,
    /// The pixel payload.
    pub data: Vec<u8>,
}

impl View for TextureFormat {
    type V = TextureView;

    open spec fn view(&self) -> TextureView {
        TextureView {
            type_id: self.type_id,
            width: self.width as nat,
            height: self.height as nat,
            size: self.size as nat,
            data: self.data@,
        }
    }
}

/// The descriptor that a blob holds behind its header: the error for a
/// blob that is too short or names no known format, else the four fields
/// and, as payload, every byte behind the prefix.
pub open spec fn parsed_texture(bytes: Seq<u8>) -> Result<TextureView, DecodeError> {
    if bytes.len() < OTR_HEADER_SIZE + TEXTURE_PREFIX_SIZE {
        Err(DecodeError::DescriptorTooShort)
    } else {
        match TextureType::of_code(le_u32(bytes, 64)) {
            None => Err(DecodeError::UnknownPixelFormat),
            Some(type_id) => Ok(
                TextureView {
                    type_id,
                    width: le_u32(bytes, 68) as nat,
                    height: le_u32(bytes, 72) as nat,
                    size: le_u32(bytes, 76) as nat,
                    data: bytes.subrange(80, bytes.len() as int),
                },
            ),
        }
    }
}

impl TextureFormat {
    /// A descriptor of the given fields and payload.
    pub fn new(
        type_id: TextureType,
        width: u32,
        height: u32,
        size: u32,
        data: Vec<u8>,
    ) -> (r: Self)
        ensures
            r.type_id == type_id,
            r.width == width,
            r.height == height,
            r.size == size,
            r.data == data,
    {
        TextureFormat { type_id, width, height, size, data }
    }

    /// Parses the texture descriptor of a resource blob.  The descriptor
    /// starts behind the 64-byte header, so the blob must hold 80 bytes at
    /// least.  The payload is everything behind the descriptor prefix,
    /// whatever size the prefix declares.
    pub fn parse(data: &[u8]) -> (r: Result<TextureFormat, DecodeError>)
        ensures
            match r {
                Ok(texture) => parsed_texture(data@) == Ok::<TextureView, DecodeError>(texture@),
                Err(e) => parsed_texture(data@) == Err::<TextureView, DecodeError>(e),
            },
            r is Ok <==> data@.len() >= 80 && le_u32(data@, 64) <= 11,
            r == Err::<TextureFormat, DecodeError>(DecodeError::DescriptorTooShort)
                <==> data@.len() < 80,
            r == Err::<TextureFormat, DecodeError>(DecodeError::UnknownPixelFormat)
                <==> data@.len() >= 80 && le_u32(data@, 64) > 11,
    {
        if data.len() < OTR_HEADER_SIZE + TEXTURE_PREFIX_SIZE {
            return Err(DecodeError::DescriptorTooShort);
        }
        let type_id = match TextureType::from_u32(read_u32_le(data, OTR_HEADER_SIZE)) {
            Ok(t) => t,
            Err(e) => {
                return Err(e);
            },
        };
        let width = read_u32_le(data, OTR_HEADER_SIZE + 4);
        let height = read_u32_le(data, OTR_HEADER_SIZE + 8);
        let size = read_u32_le(data, OTR_HEADER_SIZE + 12);
        let texture_data = slice_to_vec(
            slice_subrange(data, OTR_HEADER_SIZE + TEXTURE_PREFIX_SIZE, data.len()),
        );
        Ok(TextureFormat::new(type_id, width, height, size, texture_data))
    }
}

} // verus!
