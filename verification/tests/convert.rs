use otr_texture::convert::{
    convert_resource, index_palette, parse_resource, transcode_with_correlation, Raster,
};
use otr_texture::error::DecodeError;
use otr_texture::header::{OTRHeader, ResourceType};
use otr_texture::palette::{build_correlation, MetadataEntry, PaletteCorrelation};
use otr_texture::texture::{ChannelLayout, TextureFormat, TextureType};

const TEXTURE_TAG: u32 = 0x4F54_4558;

fn resource(tag: u32, format: u32, width: u32, height: u32, payload: &[u8]) -> Vec<u8> {
    let mut blob = vec![0u8; 64];
    blob[4..8].copy_from_slice(&tag.to_le_bytes());
    blob.extend_from_slice(&format.to_le_bytes());
    blob.extend_from_slice(&width.to_le_bytes());
    blob.extend_from_slice(&height.to_le_bytes());
    blob.extend_from_slice(&(payload.len() as u32).to_le_bytes());
    blob.extend_from_slice(payload);
    blob
}

fn declaring(symbol: &str, palette: &str) -> PaletteCorrelation {
    build_correlation(&[MetadataEntry::new(symbol.to_string(), Some(palette.to_string()), None)])
}

fn raster(pixels: &[u8], width: u32, height: u32, layout: ChannelLayout) -> Raster {
    Raster { pixels: pixels.to_vec(), width, height, layout }
}

#[test]
fn resource_of_63_bytes_has_no_header() {
    let correlation = build_correlation(&[]);
    assert_eq!(convert_resource(&correlation, "x", &vec![0u8; 63]), Err(DecodeError::HeaderTooShort));
    assert_eq!(parse_resource(&vec![0u8; 63]), Err(DecodeError::HeaderTooShort));
}

#[test]
fn resources_of_other_kinds_are_passed_over() {
    let correlation = build_correlation(&[]);
    for tag in [0u32, 0x4F44_4C54, 0x4666_9697, 0x4F4D_5458, 0x4F56_5458, 0xDEAD_BEEF] {
        let blob = resource(tag, 6, 2, 1, &[0x10, 0xF0]);
        assert_eq!(convert_resource(&correlation, "x", &blob), Ok(None));
        // Even where nothing behind the header could be a descriptor.
        assert_eq!(convert_resource(&correlation, "x", &blob[..64]), Ok(None));
    }
}

#[test]
fn texture_without_descriptor_is_an_error() {
    let correlation = build_correlation(&[]);
    let blob = resource(TEXTURE_TAG, 6, 2, 1, &[]);
    assert_eq!(
        convert_resource(&correlation, "x", &blob[..79]),
        Err(DecodeError::DescriptorTooShort)
    );
    assert_eq!(parse_resource(&blob[..64]), Err(DecodeError::DescriptorTooShort));
}

#[test]
fn texture_of_unknown_format_is_an_error() {
    let correlation = build_correlation(&[]);
    let blob = resource(TEXTURE_TAG, 12, 1, 1, &[0; 4]);
    assert_eq!(convert_resource(&correlation, "x", &blob), Err(DecodeError::UnknownPixelFormat));
    assert_eq!(parse_resource(&blob), Err(DecodeError::UnknownPixelFormat));
}

#[test]
fn palettes_and_error_markers_are_passed_over() {
    let correlation = build_correlation(&[]);
    assert_eq!(convert_resource(&correlation, "x", &resource(TEXTURE_TAG, 11, 16, 1, &[0; 32])), Ok(None));
    assert_eq!(convert_resource(&correlation, "x", &resource(TEXTURE_TAG, 0, 1, 1, &[])), Ok(None));
}

#[test]
fn grayscale8_resource_end_to_end() {
    let correlation = build_correlation(&[]);
    let blob = resource(TEXTURE_TAG, 6, 2, 1, &[0x10, 0xF0]);
    assert_eq!(
        convert_resource(&correlation, "textures/gray", &blob),
        Ok(Some(raster(&[0x10, 0x10, 0xF0, 0xF0], 2, 1, ChannelLayout::La8)))
    );
}

#[test]
fn rgba16_resource_end_to_end() {
    let correlation = build_correlation(&[]);
    let blob = resource(TEXTURE_TAG, 2, 1, 1, &[0xF8, 0x01]);
    assert_eq!(
        convert_resource(&correlation, "textures/red", &blob),
        Ok(Some(raster(&[255, 0, 0, 255], 1, 1, ChannelLayout::Rgba8)))
    );
    let blob = resource(TEXTURE_TAG, 2, 1, 1, &[0xF8, 0x07]);
    assert_eq!(
        convert_resource(&correlation, "textures/red", &blob),
        Ok(Some(raster(&[255, 0, 24, 255], 1, 1, ChannelLayout::Rgba8)))
    );
}

#[test]
fn rgba32_resource_round_trip() {
    let correlation = build_correlation(&[]);
    let pixels: Vec<u8> = (0u8..48).map(|b| b.wrapping_mul(5).wrapping_add(3)).collect();
    let blob = resource(TEXTURE_TAG, 1, 4, 3, &pixels);
    assert_eq!(
        convert_resource(&correlation, "textures/plain", &blob),
        Ok(Some(raster(&pixels, 4, 3, ChannelLayout::Rgba8)))
    );
}

#[test]
fn resource_with_short_payload_is_a_size_mismatch() {
    let correlation = build_correlation(&[]);
    let blob = resource(TEXTURE_TAG, 2, 2, 2, &[0; 7]);
    assert_eq!(convert_resource(&correlation, "x", &blob), Err(DecodeError::SizeMismatch));
    let blob = resource(TEXTURE_TAG, 2, 2, 2, &[0; 8]);
    assert!(convert_resource(&correlation, "x", &blob).is_ok());
}

#[test]
fn unsupported_resource_is_told_apart_from_a_skipped_one() {
    let correlation = build_correlation(&[]);
    for format in [3u32, 9, 10] {
        let blob = resource(TEXTURE_TAG, format, 2, 2, &[0; 16]);
        assert_eq!(convert_resource(&correlation, "x", &blob), Err(DecodeError::UnsupportedFormat));
    }
}

#[test]
fn palette_texture_end_to_end() {
    let mut correlation = declaring("texA", "palA");
    let names = ["dir/palA_data", "dir/texA"];
    let blobs = [
        resource(TEXTURE_TAG, 11, 2, 1, &[0xF8, 0x01, 0x07, 0xC1]),
        resource(TEXTURE_TAG, 4, 3, 1, &[1, 0, 2]),
    ];
    for (name, blob) in names.iter().zip(blobs.iter()) {
        if correlation.is_palette_name(name) {
            assert_eq!(index_palette(&mut correlation, name, blob), Ok(()));
        }
    }
    assert_eq!(correlation.palette_count(), 1);
    assert_eq!(convert_resource(&correlation, names[0], &blobs[0]), Ok(None));
    assert_eq!(
        convert_resource(&correlation, names[1], &blobs[1]),
        Ok(Some(raster(
            &[0, 255, 0, 255, 255, 0, 0, 255, 0, 32, 0, 255],
            3,
            1,
            ChannelLayout::Rgba8
        )))
    );
}

#[test]
fn palette_texture_without_declaration_is_not_found() {
    let mut correlation = declaring("texA", "palA");
    let palette = resource(TEXTURE_TAG, 11, 1, 1, &[0xF8, 0x01]);
    assert_eq!(index_palette(&mut correlation, "dir/palA_data", &palette), Ok(()));
    let blob = resource(TEXTURE_TAG, 4, 1, 1, &[0]);
    assert_eq!(convert_resource(&correlation, "dir/texB", &blob), Err(DecodeError::PaletteNotFound));
    assert!(convert_resource(&correlation, "dir/texA", &blob).is_ok());
}

#[test]
fn palette_texture_whose_palette_is_absent_is_not_found() {
    let correlation = declaring("texA", "palA");
    let blob = resource(TEXTURE_TAG, 4, 1, 1, &[0]);
    assert_eq!(convert_resource(&correlation, "dir/texA", &blob), Err(DecodeError::PaletteNotFound));
}

#[test]
fn size_mismatch_comes_before_the_palette_lookup() {
    let correlation = declaring("texA", "palA");
    let blob = resource(TEXTURE_TAG, 4, 2, 2, &[0, 0, 0]);
    assert_eq!(convert_resource(&correlation, "dir/texA", &blob), Err(DecodeError::SizeMismatch));
}

#[test]
fn other_formats_need_no_palette() {
    let correlation = declaring("texA", "palA");
    let texture = TextureFormat::new(TextureType::Grayscale8bpp, 1, 1, 1, vec![0x42]);
    assert_eq!(
        transcode_with_correlation(&correlation, "dir/texA", &texture),
        Ok(raster(&[0x42, 0x42], 1, 1, ChannelLayout::La8))
    );
}

#[test]
fn palette_that_cannot_be_parsed_is_not_recorded() {
    let mut correlation = declaring("texA", "palA");
    assert_eq!(
        index_palette(&mut correlation, "dir/palA_data", &[0u8; 79]),
        Err(DecodeError::DescriptorTooShort)
    );
    assert_eq!(
        index_palette(&mut correlation, "dir/palA_data", &resource(TEXTURE_TAG, 77, 1, 1, &[])),
        Err(DecodeError::UnknownPixelFormat)
    );
    assert_eq!(correlation.palette_count(), 0);
}

#[test]
fn palette_is_recorded_whatever_its_header_says() {
    let mut correlation = declaring("texA", "palA");
    let palette = resource(0, 11, 1, 1, &[0xF8, 0x01]);
    assert_eq!(index_palette(&mut correlation, "palA", &palette), Ok(()));
    assert_eq!(correlation.resolve_palette_name("texA"), Some(&"palA".to_string()));
}

#[test]
fn header_and_descriptor_of_a_resource() {
    let mut blob = resource(TEXTURE_TAG, 8, 5, 6, &[1, 2, 3]);
    blob[0] = 0xFE;
    blob[1] = 1;
    blob[8] = 2;
    blob[12] = 0x2A;
    let (header, texture) = parse_resource(&blob).unwrap();
    assert_eq!(header, OTRHeader::new(-2, true, ResourceType::Texture, 2, 0x2A));
    assert_eq!(texture, TextureFormat::new(TextureType::GrayscaleAlpha8bpp, 5, 6, 3, vec![1, 2, 3]));
}
