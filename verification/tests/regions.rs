use wordboy::mmio::{
    backdrop_region, display_control_region, key_input_region, obj_attrs_region,
    obj_palette_bank_region, obj_palette_region, obj_tile4_region, obj_tile_word_region,
};
use wordboy::spritesheet::{quad_tile_indices, tile_16x16, tile_8x8};

#[test]
fn region_index_computes_strided_addresses() {
    let oam = obj_attrs_region();
    assert_eq!(oam.index(0).unwrap(), 0x0700_0000);
    assert_eq!(oam.index(1).unwrap(), 0x0700_0008);
    assert_eq!(oam.index(127).unwrap(), 0x0700_0000 + 127 * 8);
    let e = oam.index(128).unwrap_err();
    assert_eq!(e.index, 128);
    assert_eq!(e.count, 128);
}

#[test]
fn region_index_rejects_count_exactly() {
    let palette = obj_palette_region();
    assert_eq!(palette.index(255).unwrap(), 0x0500_0200 + 255 * 2);
    assert!(palette.index(256).is_err());
}

#[test]
fn fixed_address_map() {
    assert_eq!(display_control_region().base, 0x0400_0000);
    assert_eq!(key_input_region().base, 0x0400_0130);
    assert_eq!(backdrop_region().base, 0x0500_0000);
    assert_eq!(obj_palette_region().base, 0x0500_0200);
    assert_eq!(obj_tile4_region().base, 0x0601_0000);
    assert_eq!(obj_tile_word_region().base, 0x0601_0000);
    assert_eq!(obj_attrs_region().base, 0x0700_0000);
    assert_eq!(obj_tile4_region().count, 1024);
    assert_eq!(obj_attrs_region().count, 128);
    assert_eq!(obj_attrs_region().stride, 8);
}

#[test]
fn palette_banks_are_16_colors_apart() {
    let bank0 = obj_palette_bank_region(0);
    let bank3 = obj_palette_bank_region(3);
    assert_eq!(bank0.base, 0x0500_0200);
    assert_eq!(bank3.base, 0x0500_0200 + 3 * 32);
    assert_eq!(bank3.count, 16);
    assert_eq!(bank3.index(4).unwrap(), bank3.base + 8);
    assert!(bank3.index(16).is_err());
}

#[test]
fn quad_mapping_for_sheet_width_8() {
    assert_eq!(quad_tile_indices(0, 8), [0, 1, 8, 9]);
    assert_eq!(quad_tile_indices(1, 8), [2, 3, 10, 11]);
    assert_eq!(quad_tile_indices(8, 8), [32, 33, 40, 41]);
}

#[test]
fn tile_8x8_copies_one_tile() {
    let blob: Vec<u32> = (0u32..160).collect();
    let t = tile_8x8(&blob, 3);
    assert_eq!(t, (24u32..32).collect::<Vec<u32>>());
}

#[test]
fn tile_16x16_gathers_the_four_quadrants() {
    // Blob for a sheet 8 tiles wide, two tile rows: 16 tiles of 8 words.
    let blob: Vec<u32> = (0u32..128).collect();
    let words = tile_16x16(&blob, 1);
    assert_eq!(words.len(), 32);
    // Sprite 1's quadrants are tiles 2, 3, 10, 11.
    assert_eq!(&words[0..8], &(16u32..24).collect::<Vec<u32>>()[..]);
    assert_eq!(&words[8..16], &(24u32..32).collect::<Vec<u32>>()[..]);
    assert_eq!(&words[16..24], &(80u32..88).collect::<Vec<u32>>()[..]);
    assert_eq!(&words[24..32], &(88u32..96).collect::<Vec<u32>>()[..]);
}

#[test]
fn compiled_sheet_feeds_quad_gather() {
    // A sheet 64x16 pixels (8x2 tiles) where every pixel of tile t holds
    // palette index t: each compiled word of tile t repeats t's nibble.
    let width = 64;
    let height = 16;
    let mut pixels = vec![0u8; width * height];
    for y in 0..height {
        for x in 0..width {
            let t = (x / 8) + (y / 8) * 8;
            pixels[y * width + x] = t as u8;
        }
    }
    let blob = wordboy::compiler::compile_bitmap(width, height, &pixels).unwrap();
    let words = tile_16x16(&blob, 1);
    for j in 0..8 {
        assert_eq!(words[j], 2 * 0x11111111);
        assert_eq!(words[8 + j], 3 * 0x11111111);
        assert_eq!(words[16 + j], 10 * 0x11111111);
        assert_eq!(words[24 + j], 11 * 0x11111111);
    }
}
