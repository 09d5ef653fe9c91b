use otr_texture::error::DecodeError;
use otr_texture::texture::{ChannelLayout, TextureFormat, TextureType, TEXTURE_PREFIX_SIZE};

fn texture_blob(format: u32, width: u32, height: u32, size: u32, payload: &[u8]) -> Vec<u8> {
    let mut blob = vec![0u8; 64];
    blob.extend_from_slice(&format.to_le_bytes());
    blob.extend_from_slice(&width.to_le_bytes());
    blob.extend_from_slice(&height.to_le_bytes());
    blob.extend_from_slice(&size.to_le_bytes());
    blob.extend_from_slice(payload);
    blob
}

const ALL_FORMATS: [TextureType; 12] = [
    TextureType::Error,
    TextureType::RGBA32bpp,
    TextureType::RGBA16bpp,
    TextureType::Palette4bpp,
    TextureType::Palette8bpp,
    TextureType::Grayscale4bpp,
    TextureType::Grayscale8bpp,
    TextureType::GrayscaleAlpha4bpp,
    TextureType::GrayscaleAlpha8bpp,
    TextureType::GrayscaleAlpha16bpp,
    TextureType::GrayscaleAlpha1bpp,
    TextureType::TLUT,
];

#[test]
fn prefix_size_is_16() {
    assert_eq!(TEXTURE_PREFIX_SIZE, 16);
}

#[test]
fn format_codes_run_from_0_to_11() {
    for (code, format) in ALL_FORMATS.iter().enumerate() {
        assert_eq!(TextureType::from_u32(code as u32), Ok(*format));
    }
}

#[test]
fn format_code_12_is_unknown() {
    assert_eq!(TextureType::from_u32(12), Err(DecodeError::UnknownPixelFormat));
    assert_eq!(TextureType::from_u32(255), Err(DecodeError::UnknownPixelFormat));
    assert_eq!(TextureType::from_u32(u32::MAX), Err(DecodeError::UnknownPixelFormat));
}

#[test]
fn error_and_palette_hold_no_pixels() {
    for format in ALL_FORMATS {
        let expected = format != TextureType::Error && format != TextureType::TLUT;
        assert_eq!(format.is_pixel_format(), expected);
    }
}

#[test]
fn bits_per_pixel_of_each_format() {
    assert_eq!(TextureType::RGBA32bpp.bits_per_pixel(), 32);
    assert_eq!(TextureType::RGBA16bpp.bits_per_pixel(), 16);
    assert_eq!(TextureType::Palette4bpp.bits_per_pixel(), 4);
    assert_eq!(TextureType::Palette8bpp.bits_per_pixel(), 8);
    assert_eq!(TextureType::Grayscale4bpp.bits_per_pixel(), 4);
    assert_eq!(TextureType::Grayscale8bpp.bits_per_pixel(), 8);
    assert_eq!(TextureType::GrayscaleAlpha4bpp.bits_per_pixel(), 4);
    assert_eq!(TextureType::GrayscaleAlpha8bpp.bits_per_pixel(), 8);
    assert_eq!(TextureType::GrayscaleAlpha16bpp.bits_per_pixel(), 16);
    assert_eq!(TextureType::GrayscaleAlpha1bpp.bits_per_pixel(), 1);
}

#[test]
fn channel_layout_of_each_format() {
    assert_eq!(TextureType::RGBA32bpp.to_image_type(), ChannelLayout::Rgba8);
    assert_eq!(TextureType::RGBA16bpp.to_image_type(), ChannelLayout::Rgba8);
    assert_eq!(TextureType::Palette4bpp.to_image_type(), ChannelLayout::Rgba8);
    assert_eq!(TextureType::Palette8bpp.to_image_type(), ChannelLayout::Rgba8);
    assert_eq!(TextureType::Grayscale4bpp.to_image_type(), ChannelLayout::La8);
    assert_eq!(TextureType::Grayscale8bpp.to_image_type(), ChannelLayout::La8);
    assert_eq!(TextureType::GrayscaleAlpha4bpp.to_image_type(), ChannelLayout::La8);
    assert_eq!(TextureType::GrayscaleAlpha8bpp.to_image_type(), ChannelLayout::La8);
    assert_eq!(TextureType::GrayscaleAlpha16bpp.to_image_type(), ChannelLayout::La8);
    assert_eq!(TextureType::GrayscaleAlpha1bpp.to_image_type(), ChannelLayout::La1);
}

#[test]
fn bits_per_pixel_of_each_layout() {
    assert_eq!(ChannelLayout::Rgba8.bits_per_pixel(), 32);
    assert_eq!(ChannelLayout::La8.bits_per_pixel(), 16);
    assert_eq!(ChannelLayout::La1.bits_per_pixel(), 2);
}

#[test]
fn descriptor_of_79_bytes_is_too_short() {
    let blob = vec![0u8; 79];
    assert_eq!(TextureFormat::parse(&blob), Err(DecodeError::DescriptorTooShort));
}

#[test]
fn descriptor_of_a_bare_header_is_too_short() {
    assert_eq!(TextureFormat::parse(&vec![0u8; 64]), Err(DecodeError::DescriptorTooShort));
    assert_eq!(TextureFormat::parse(&vec![0u8; 24]), Err(DecodeError::DescriptorTooShort));
    assert_eq!(TextureFormat::parse(&[]), Err(DecodeError::DescriptorTooShort));
}

#[test]
fn short_blob_is_reported_before_its_format() {
    let mut blob = texture_blob(99, 1, 1, 0, &[]);
    blob.truncate(79);
    assert_eq!(TextureFormat::parse(&blob), Err(DecodeError::DescriptorTooShort));
}

#[test]
fn zeroed_descriptor_of_80_bytes_parses() {
    let texture = TextureFormat::parse(&vec![0u8; 80]).unwrap();
    assert_eq!(texture, TextureFormat::new(TextureType::Error, 0, 0, 0, vec![]));
}

#[test]
fn descriptor_fields_are_little_endian() {
    let blob = texture_blob(2, 0x0102_0304, 0x0A0B_0C0D, 0x1000_0001, &[9, 8, 7]);
    let texture = TextureFormat::parse(&blob).unwrap();
    assert_eq!(texture.type_id, TextureType::RGBA16bpp);
    assert_eq!(texture.width, 0x0102_0304);
    assert_eq!(texture.height, 0x0A0B_0C0D);
    assert_eq!(texture.size, 0x1000_0001);
    assert_eq!(texture.data, vec![9, 8, 7]);
}

#[test]
fn descriptor_starts_behind_the_header() {
    let mut blob = texture_blob(6, 2, 1, 2, &[0x10, 0xF0]);
    for i in 0..64 {
        blob[i] = 0xEE;
    }
    let texture = TextureFormat::parse(&blob).unwrap();
    assert_eq!(texture, TextureFormat::new(TextureType::Grayscale8bpp, 2, 1, 2, vec![0x10, 0xF0]));
}

#[test]
fn unknown_format_fails_the_descriptor() {
    let blob = texture_blob(12, 1, 1, 4, &[1, 2, 3, 4]);
    assert_eq!(TextureFormat::parse(&blob), Err(DecodeError::UnknownPixelFormat));
    let blob = texture_blob(0x0100_0001, 1, 1, 4, &[1, 2, 3, 4]);
    assert_eq!(TextureFormat::parse(&blob), Err(DecodeError::UnknownPixelFormat));
}

#[test]
fn every_known_format_parses() {
    for (code, format) in ALL_FORMATS.iter().enumerate() {
        let blob = texture_blob(code as u32, 3, 5, 0, &[]);
        let texture = TextureFormat::parse(&blob).unwrap();
        assert_eq!(texture.type_id, *format);
        assert_eq!(texture.width, 3);
        assert_eq!(texture.height, 5);
    }
}

#[test]
fn payload_is_never_cut_to_the_declared_size() {
    let payload: Vec<u8> = (0u8..100).collect();
    for declared in [0u32, 4, 100, 5000, u32::MAX] {
        let blob = texture_blob(1, 5, 5, declared, &payload);
        let texture = TextureFormat::parse(&blob).unwrap();
        assert_eq!(texture.size, declared);
        assert_eq!(texture.data, payload);
    }
}

#[test]
fn new_keeps_its_arguments() {
    let texture = TextureFormat::new(TextureType::TLUT, 16, 16, 512, vec![1, 2]);
    assert_eq!(texture.type_id, TextureType::TLUT);
    assert_eq!(texture.width, 16);
    assert_eq!(texture.height, 16);
    assert_eq!(texture.size, 512);
    assert_eq!(texture.data, vec![1, 2]);
}
