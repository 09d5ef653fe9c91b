use otr_texture::error::DecodeError;
use otr_texture::texture::{ChannelLayout, TextureFormat, TextureType};
use otr_texture::transcode::{
    count_pixels, payload_suffices, transcode, unpack_grayscale4, unpack_grayscale8,
    unpack_grayscale_alpha4, unpack_grayscale_alpha8, unpack_palette8, unpack_rgba16,
};

fn texture_of(format: TextureType, width: u32, height: u32, data: &[u8]) -> TextureFormat {
    TextureFormat::new(format, width, height, data.len() as u32, data.to_vec())
}

fn palette_of(data: &[u8]) -> TextureFormat {
    TextureFormat::new(TextureType::TLUT, (data.len() / 2) as u32, 1, data.len() as u32, data.to_vec())
}

#[test]
fn rgba32_is_passed_through() {
    let data: Vec<u8> = (0u8..16).map(|b| b.wrapping_mul(17)).collect();
    let texture = texture_of(TextureType::RGBA32bpp, 2, 2, &data);
    assert_eq!(transcode(&texture, None), Ok((data, ChannelLayout::Rgba8)));
}

#[test]
fn rgba32_keeps_bytes_behind_the_last_pixel() {
    let data = vec![1, 2, 3, 4, 5, 6, 7, 8, 9];
    let texture = texture_of(TextureType::RGBA32bpp, 2, 1, &data);
    assert_eq!(transcode(&texture, None), Ok((data, ChannelLayout::Rgba8)));
}

#[test]
fn rgba32_ignores_a_palette() {
    let data = vec![10, 20, 30, 40];
    let texture = texture_of(TextureType::RGBA32bpp, 1, 1, &data);
    let palette = palette_of(&[0xFF; 512]);
    assert_eq!(transcode(&texture, Some(&palette)), Ok((data, ChannelLayout::Rgba8)));
}

#[test]
fn grayscale8_writes_each_byte_twice() {
    let texture = texture_of(TextureType::Grayscale8bpp, 2, 1, &[0x10, 0xF0]);
    assert_eq!(
        transcode(&texture, None),
        Ok((vec![0x10, 0x10, 0xF0, 0xF0], ChannelLayout::La8))
    );
}

#[test]
fn rgba16_red_opaque() {
    let texture = texture_of(TextureType::RGBA16bpp, 1, 1, &[0xF8, 0x01]);
    assert_eq!(transcode(&texture, None), Ok((vec![255, 0, 0, 255], ChannelLayout::Rgba8)));
}

#[test]
fn rgba16_low_byte_holds_blue_above_alpha() {
    // 0xF8 0x07 is 11111 00000 00011 1: red 31, green 0, blue 3, opaque.
    let texture = texture_of(TextureType::RGBA16bpp, 1, 1, &[0xF8, 0x07]);
    assert_eq!(transcode(&texture, None), Ok((vec![255, 0, 24, 255], ChannelLayout::Rgba8)));
}

#[test]
fn rgba16_green_straddles_both_bytes() {
    let texture = texture_of(TextureType::RGBA16bpp, 1, 1, &[0x07, 0xC0]);
    assert_eq!(transcode(&texture, None), Ok((vec![0, 255, 0, 0], ChannelLayout::Rgba8)));
}

#[test]
fn rgba16_unpacks_every_pixel() {
    let data = [0x00, 0x3E, 0x12, 0x34, 0xAB, 0xCD, 0xFF, 0xFF, 0x00, 0x00];
    let expected = vec![
        0, 0, 255, 0, 16, 65, 213, 0, 172, 123, 49, 255, 255, 255, 255, 255, 0, 0, 0, 0,
    ];
    let texture = texture_of(TextureType::RGBA16bpp, 5, 1, &data);
    assert_eq!(transcode(&texture, None), Ok((expected.clone(), ChannelLayout::Rgba8)));
    assert_eq!(unpack_rgba16(&data, 5), expected);
}

#[test]
fn rgba16_alpha_is_the_lowest_bit_alone() {
    let texture = texture_of(TextureType::RGBA16bpp, 1, 1, &[0xF8, 0x02]);
    assert_eq!(transcode(&texture, None), Ok((vec![255, 0, 8, 0], ChannelLayout::Rgba8)));
}

#[test]
fn rgba16_leaves_surplus_payload_alone() {
    let texture = texture_of(TextureType::RGBA16bpp, 1, 1, &[0xF8, 0x01, 0xFF, 0xFF, 0xFF]);
    assert_eq!(transcode(&texture, None), Ok((vec![255, 0, 0, 255], ChannelLayout::Rgba8)));
}

#[test]
fn palette8_looks_colours_up() {
    let mut palette = vec![0u8; 512];
    palette[0] = 0xF8;
    palette[1] = 0x01;
    palette[2] = 0x12;
    palette[3] = 0x34;
    palette[510] = 0xAB;
    palette[511] = 0xCE;
    let palette = palette_of(&palette);
    let texture = texture_of(TextureType::Palette8bpp, 2, 2, &[1, 0, 255, 7]);
    assert_eq!(
        transcode(&texture, Some(&palette)),
        Ok((
            vec![16, 65, 213, 0, 255, 0, 0, 255, 172, 123, 57, 255, 0, 0, 0, 0],
            ChannelLayout::Rgba8
        ))
    );
}

#[test]
fn palette8_alpha_reads_the_two_lowest_bits() {
    let palette = palette_of(&[0xF8, 0x02, 0xAB, 0xCC, 0xF8, 0x01, 0xF8, 0x03]);
    let texture = texture_of(TextureType::Palette8bpp, 4, 1, &[0, 1, 2, 3]);
    assert_eq!(
        transcode(&texture, Some(&palette)),
        Ok((
            vec![255, 0, 8, 255, 172, 123, 49, 0, 255, 0, 0, 255, 255, 0, 8, 255],
            ChannelLayout::Rgba8
        ))
    );
}

#[test]
fn palette8_index_beyond_a_short_palette_is_the_default_entry() {
    // The palette holds two entries; the default entry (1, 1) is green 32, opaque.
    let palette = palette_of(&[0xF8, 0x01, 0x07, 0xC1]);
    let texture = texture_of(TextureType::Palette8bpp, 4, 1, &[0, 1, 2, 255]);
    assert_eq!(
        transcode(&texture, Some(&palette)),
        Ok((
            vec![255, 0, 0, 255, 0, 255, 0, 255, 0, 32, 0, 255, 0, 32, 0, 255],
            ChannelLayout::Rgba8
        ))
    );
}

#[test]
fn palette8_with_an_empty_palette_is_all_default() {
    let palette = palette_of(&[]);
    let texture = texture_of(TextureType::Palette8bpp, 2, 1, &[0, 9]);
    assert_eq!(
        transcode(&texture, Some(&palette)),
        Ok((vec![0, 32, 0, 255, 0, 32, 0, 255], ChannelLayout::Rgba8))
    );
}

#[test]
fn palette8_half_an_entry_is_the_default_entry() {
    let palette = palette_of(&[0xF8, 0x01, 0xFF]);
    assert_eq!(unpack_palette8(&[0, 1], &[0xF8, 0x01, 0xFF], 2), vec![255, 0, 0, 255, 0, 32, 0, 255]);
    let texture = texture_of(TextureType::Palette8bpp, 2, 1, &[0, 1]);
    assert_eq!(
        transcode(&texture, Some(&palette)),
        Ok((vec![255, 0, 0, 255, 0, 32, 0, 255], ChannelLayout::Rgba8))
    );
}

#[test]
fn palette8_without_a_palette_is_refused() {
    let texture = texture_of(TextureType::Palette8bpp, 1, 1, &[0]);
    assert_eq!(transcode(&texture, None), Err(DecodeError::PaletteRequired));
}

#[test]
fn grayscale4_takes_the_high_nibble_first() {
    let texture = texture_of(TextureType::Grayscale4bpp, 4, 1, &[0x0F, 0xA5]);
    assert_eq!(
        transcode(&texture, None),
        Ok((vec![0, 0, 255, 255, 170, 170, 85, 85], ChannelLayout::La8))
    );
}

#[test]
fn grayscale4_with_an_odd_number_of_pixels() {
    let texture = texture_of(TextureType::Grayscale4bpp, 3, 1, &[0x37, 0xE0]);
    assert_eq!(
        transcode(&texture, None),
        Ok((vec![51, 51, 119, 119, 238, 238], ChannelLayout::La8))
    );
    assert_eq!(unpack_grayscale4(&[0x9C], 1), vec![153, 153]);
}

#[test]
fn grayscale8_is_not_scaled() {
    let data: Vec<u8> = (0u8..=255).collect();
    let texture = texture_of(TextureType::Grayscale8bpp, 16, 16, &data);
    let (pixels, layout) = transcode(&texture, None).unwrap();
    assert_eq!(layout, ChannelLayout::La8);
    assert_eq!(pixels.len(), 512);
    for (i, b) in data.iter().enumerate() {
        assert_eq!(pixels[2 * i], *b);
        assert_eq!(pixels[2 * i + 1], *b);
    }
    assert_eq!(unpack_grayscale8(&[7, 8], 2), vec![7, 7, 8, 8]);
}

#[test]
fn grayscale_alpha4_splits_three_bits_and_one() {
    let texture = texture_of(TextureType::GrayscaleAlpha4bpp, 4, 1, &[0x0F, 0xA5]);
    assert_eq!(
        transcode(&texture, None),
        Ok((vec![0, 0, 255, 255, 182, 0, 72, 255], ChannelLayout::La8))
    );
    assert_eq!(unpack_grayscale_alpha4(&[0xE1, 0x3C], 3), vec![255, 0, 0, 255, 36, 255]);
}

#[test]
fn grayscale_alpha8_scales_both_nibbles() {
    let texture = texture_of(TextureType::GrayscaleAlpha8bpp, 5, 1, &[0x00, 0xFF, 0x10, 0xA5, 0x7E]);
    assert_eq!(
        transcode(&texture, None),
        Ok((vec![0, 0, 255, 255, 17, 0, 170, 85, 119, 238], ChannelLayout::La8))
    );
    assert_eq!(unpack_grayscale_alpha8(&[0xA5], 1), vec![170, 85]);
}

#[test]
fn formats_that_are_not_unpacked_are_refused() {
    let data = vec![0u8; 64];
    for format in [
        TextureType::Palette4bpp,
        TextureType::GrayscaleAlpha16bpp,
        TextureType::GrayscaleAlpha1bpp,
    ] {
        let texture = texture_of(format, 4, 4, &data);
        assert_eq!(transcode(&texture, None), Err(DecodeError::UnsupportedFormat));
        let palette = palette_of(&[0u8; 512]);
        assert_eq!(transcode(&texture, Some(&palette)), Err(DecodeError::UnsupportedFormat));
    }
}

#[test]
fn descriptors_without_pixels_are_refused() {
    for format in [TextureType::Error, TextureType::TLUT] {
        let texture = texture_of(format, 1, 1, &[0u8; 8]);
        assert_eq!(transcode(&texture, None), Err(DecodeError::UnsupportedFormat));
        let empty = texture_of(format, 1000, 1000, &[]);
        assert_eq!(transcode(&empty, None), Err(DecodeError::UnsupportedFormat));
    }
}

#[test]
fn size_mismatch_one_byte_short() {
    let cases = [
        (TextureType::RGBA32bpp, 3u32, 2u32, 24usize),
        (TextureType::RGBA16bpp, 3, 2, 12),
        (TextureType::Palette8bpp, 3, 2, 6),
        (TextureType::Grayscale4bpp, 3, 2, 3),
        (TextureType::Grayscale8bpp, 3, 2, 6),
        (TextureType::GrayscaleAlpha4bpp, 3, 2, 3),
        (TextureType::GrayscaleAlpha8bpp, 3, 2, 6),
        (TextureType::Palette4bpp, 3, 2, 3),
        (TextureType::GrayscaleAlpha16bpp, 3, 2, 12),
        (TextureType::GrayscaleAlpha1bpp, 4, 2, 1),
    ];
    let palette = palette_of(&[0u8; 512]);
    for (format, width, height, needed) in cases {
        let short = texture_of(format, width, height, &vec![0u8; needed - 1]);
        assert_eq!(transcode(&short, Some(&palette)), Err(DecodeError::SizeMismatch));
        assert!(!payload_suffices(&short));
        let exact = texture_of(format, width, height, &vec![0u8; needed]);
        assert_ne!(transcode(&exact, Some(&palette)), Err(DecodeError::SizeMismatch));
        assert!(payload_suffices(&exact));
    }
}

#[test]
fn size_is_counted_in_bits() {
    // Three 4-bit pixels take 12 bits: one byte is too few, two are enough.
    let short = texture_of(TextureType::Grayscale4bpp, 3, 1, &[0xFF]);
    assert_eq!(transcode(&short, None), Err(DecodeError::SizeMismatch));
    let exact = texture_of(TextureType::Grayscale4bpp, 3, 1, &[0xFF, 0xF0]);
    assert!(transcode(&exact, None).is_ok());
    // Seven 1-bit pixels fit into one byte, nine do not.
    let seven = texture_of(TextureType::GrayscaleAlpha1bpp, 7, 1, &[0]);
    assert_eq!(transcode(&seven, None), Err(DecodeError::UnsupportedFormat));
    let nine = texture_of(TextureType::GrayscaleAlpha1bpp, 9, 1, &[0]);
    assert_eq!(transcode(&nine, None), Err(DecodeError::SizeMismatch));
}

#[test]
fn size_mismatch_comes_before_the_missing_palette() {
    let short = texture_of(TextureType::Palette8bpp, 2, 2, &[0, 1, 2]);
    assert_eq!(transcode(&short, None), Err(DecodeError::SizeMismatch));
    let exact = texture_of(TextureType::Palette8bpp, 2, 2, &[0, 1, 2, 3]);
    assert_eq!(transcode(&exact, None), Err(DecodeError::PaletteRequired));
}

#[test]
fn huge_geometry_is_a_size_mismatch_not_an_overflow() {
    let texture = texture_of(TextureType::RGBA32bpp, u32::MAX, u32::MAX, &[0u8; 64]);
    assert_eq!(count_pixels(&texture), (u32::MAX as u64) * (u32::MAX as u64));
    assert_eq!(transcode(&texture, None), Err(DecodeError::SizeMismatch));
    let texture = texture_of(TextureType::Grayscale8bpp, 0x10000, 0x10000, &[0u8; 8]);
    assert_eq!(transcode(&texture, None), Err(DecodeError::SizeMismatch));
}

#[test]
fn texture_without_pixels_gives_an_empty_raster() {
    let texture = texture_of(TextureType::RGBA16bpp, 0, 7, &[]);
    assert_eq!(transcode(&texture, None), Ok((vec![], ChannelLayout::Rgba8)));
    let texture = texture_of(TextureType::Grayscale4bpp, 5, 0, &[1, 2, 3]);
    assert_eq!(transcode(&texture, None), Ok((vec![], ChannelLayout::La8)));
}

#[test]
fn raster_holds_every_pixel_of_the_texture() {
    let data = vec![0x5Au8; 96];
    for (format, bytes_per_pixel) in [
        (TextureType::RGBA16bpp, 4usize),
        (TextureType::Grayscale4bpp, 2),
        (TextureType::Grayscale8bpp, 2),
        (TextureType::GrayscaleAlpha4bpp, 2),
        (TextureType::GrayscaleAlpha8bpp, 2),
    ] {
        let texture = texture_of(format, 6, 7, &data);
        let (pixels, layout) = transcode(&texture, None).unwrap();
        assert_eq!(pixels.len(), 6 * 7 * bytes_per_pixel);
        assert_eq!(layout.bits_per_pixel() as usize, 8 * bytes_per_pixel);
    }
}
