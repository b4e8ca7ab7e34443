use wordboy::compiler::{compile_bitmap, CompileTimeFormatError};
use wordboy::tiles::{pack_tile, unpack_tile};

#[test]
fn pack_pixel_order_low_run() {
    let pixels: Vec<u8> = (0u8..64).map(|i| i % 16).collect();
    let words = pack_tile(&pixels);
    assert_eq!(words[0], 0x76543210);
    assert_eq!(words[1], 0xFEDCBA98);
}

#[test]
fn pack_pixel_order_high_run() {
    let mut pixels = vec![0u8; 64];
    for k in 0..8 {
        pixels[k] = (8 + k) as u8;
    }
    let words = pack_tile(&pixels);
    assert_eq!(words[0], 0xFEDCBA98);
    assert_eq!(words[1], 0);
}

#[test]
fn pack_unpack_roundtrip() {
    let pixels: Vec<u8> = (0u8..64).map(|i| (i.wrapping_mul(7) ^ i) % 16).collect();
    let words = pack_tile(&pixels);
    assert_eq!(words.len(), 8);
    let back = unpack_tile(&words);
    assert_eq!(back, pixels);
}

#[test]
fn unpack_reads_nibbles_low_first() {
    let words = vec![0x76543210u32, 0, 0, 0, 0, 0, 0, 0xF0000000];
    let pixels = unpack_tile(&words);
    assert_eq!(&pixels[0..8], &[0, 1, 2, 3, 4, 5, 6, 7]);
    assert_eq!(pixels[63], 0xF);
}

#[test]
fn compile_checkerboard_16x16() {
    // A 16x16 pixel-level checkerboard with indices 0 and 1: 2x2 tiles.
    let mut pixels = vec![0u8; 256];
    for y in 0..16 {
        for x in 0..16 {
            pixels[y * 16 + x] = ((x + y) % 2) as u8;
        }
    }
    let blob = compile_bitmap(16, 16, &pixels).unwrap();
    assert_eq!(blob.len(), 32);
    // Every tile row alternates 0,1,... or 1,0,...; rows swap parity each
    // scanline, and all four tiles look the same.
    for t in 0..4 {
        for r in 0..8 {
            let expected = if r % 2 == 0 { 0x10101010u32 } else { 0x01010101u32 };
            assert_eq!(blob[t * 8 + r], expected);
        }
    }
}

#[test]
fn compile_places_pixel_by_tile_linearization() {
    // Sheet 64 pixels wide (8 tiles): pixel (x, y) lands in tile
    // (x/8) + (y/8)*8 at intra-tile offset (x%8) + (y%8)*8.
    let width = 64;
    let height = 16;
    let mut pixels = vec![0u8; width * height];
    let (x, y) = (13, 11);
    pixels[y * width + x] = 9;
    let blob = compile_bitmap(width, height, &pixels).unwrap();
    let tile_index = (x / 8) + (y / 8) * (width / 8);
    let offset = (x % 8) + (y % 8) * 8;
    let word = blob[tile_index * 8 + offset / 8];
    let nibble = (word >> (4 * (offset % 8))) & 0xF;
    assert_eq!(nibble, 9);
    assert_eq!(tile_index, 9);
    assert_eq!(offset, 29);
}

#[test]
fn compile_empty_bitmap() {
    let blob = compile_bitmap(0, 0, &Vec::new()).unwrap();
    assert_eq!(blob.len(), 0);
}

#[test]
fn compile_rejects_unaligned_dimensions() {
    let pixels = vec![0u8; 12 * 8];
    assert_eq!(
        compile_bitmap(12, 8, &pixels),
        Err(CompileTimeFormatError::BadDimensions)
    );
    assert_eq!(
        compile_bitmap(8, 4, &vec![0u8; 32]),
        Err(CompileTimeFormatError::BadDimensions)
    );
}

#[test]
fn compile_rejects_wrong_buffer_length() {
    let pixels = vec![0u8; 63];
    assert_eq!(
        compile_bitmap(8, 8, &pixels),
        Err(CompileTimeFormatError::LengthMismatch)
    );
}

#[test]
fn compile_rejects_wide_pixel() {
    let mut pixels = vec![0u8; 64];
    pixels[17] = 16;
    assert_eq!(
        compile_bitmap(8, 8, &pixels),
        Err(CompileTimeFormatError::PixelOutOfRange)
    );
}
