use wordboy::video::{Color, DisplayControl, ObjAttr, ObjAttr0, ObjAttr1, ObjAttr2, TileSize};
use wordboy::video::{DISPCNT_ENABLE_OBJ, DISPCNT_LINEAR_OBJ_TILE_DATA};

#[test]
fn default_descriptor_is_all_zero() {
    let a = ObjAttr::new();
    assert_eq!(a.0 .0, 0);
    assert_eq!(a.1 .0, 0);
    assert_eq!(a.2 .0, 0);
    // Decoded: shape 0, size 0, tile 0, palette 0, position (0, 0).
    assert_eq!(a.0 .0 >> 14, 0);
    assert_eq!(a.0 .0 & 0xFF, 0);
    assert_eq!(a.1 .0 >> 14, 0);
    assert_eq!(a.1 .0 & 0x3FF, 0);
    assert_eq!(a.2 .0 & 0x3FF, 0);
    assert_eq!(a.2 .0 >> 12, 0);
}

#[test]
fn builder_fields_land_in_their_bit_ranges() {
    let a = ObjAttr::new()
        .size(TileSize::size_16x16())
        .tile(37)
        .palette(5)
        .x(100)
        .y(60);
    // shape 0 size 1: attr0 top bits 00, attr1 top bits 01.
    assert_eq!(a.0 .0, 60);
    assert_eq!(a.1 .0, (0b01 << 14) | 100);
    assert_eq!(a.2 .0, (5 << 12) | 37);
}

#[test]
fn builder_order_is_irrelevant() {
    let a = ObjAttr::new().tile(37).x(100).size(TileSize::size_16x16()).y(60).palette(5);
    let b = ObjAttr::new().size(TileSize::size_16x16()).tile(37).palette(5).x(100).y(60);
    assert!(a == b);
}

#[test]
fn negative_coordinates_wrap_into_field() {
    let a = ObjAttr::new().x(-8).y(-8);
    // Two's-complement bit patterns, truncated to the field widths.
    assert_eq!(a.1 .0 & 0x3FF, 0x3F8);
    assert_eq!(a.0 .0 & 0xFF, 0xF8);
}

#[test]
fn component_builders_replace_only_their_field() {
    let w = ObjAttr0(0xFFFF).y(0);
    assert_eq!(w.0, 0xFF00);
    let w = ObjAttr0(0).shape(3);
    assert_eq!(w.0, 0xC000);
    let w = ObjAttr1(0xFFFF).x(0);
    assert_eq!(w.0, 0xFC00);
    let w = ObjAttr1(0).size(2);
    assert_eq!(w.0, 0x8000);
    let w = ObjAttr2(0xFFFF).tile(0);
    assert_eq!(w.0, 0xFC00);
    let w = ObjAttr2(0).palette(0xF);
    assert_eq!(w.0, 0xF000);
}

#[test]
fn field_values_are_truncated_to_width() {
    // tile takes 10 bits, palette 4, shape and size 2 each.
    assert_eq!(ObjAttr2::new().tile(0x7FF).0, 0x3FF);
    assert_eq!(ObjAttr2::new().palette(0x13).0, 0x3000);
    assert_eq!(ObjAttr0::new().shape(5).0, 1 << 14);
    assert_eq!(ObjAttr1::new().size(6).0, 2 << 14);
}

#[test]
fn color_packs_five_bit_channels() {
    assert_eq!(Color::rgb(0, 0, 0).0, 0);
    assert_eq!(Color::rgb(31, 0, 0).0, 0x001F);
    assert_eq!(Color::rgb(0, 31, 0).0, 0x03E0);
    assert_eq!(Color::rgb(0, 0, 31).0, 0x7C00);
    assert_eq!(Color::rgb(31, 31, 31).0, 0x7FFF);
    assert_eq!(Color::rgb(9, 20, 16).0, 9 + 20 * 32 + 16 * 1024);
}

#[test]
fn display_control_flags() {
    let d = DisplayControl::new().with(DISPCNT_ENABLE_OBJ).with(DISPCNT_LINEAR_OBJ_TILE_DATA);
    assert_eq!(d.0, (1 << 12) | (1 << 6));
    assert!(d.contains(DISPCNT_ENABLE_OBJ));
    assert!(!d.contains(1 << 7));
}

#[test]
fn tile_sizes_carry_shape_and_size_bits() {
    assert_eq!(TileSize::size_8x8(), TileSize(0, 0));
    assert_eq!(TileSize::size_16x16(), TileSize(0, 1));
    assert_eq!(TileSize::size_64x64(), TileSize(0, 3));
    assert_eq!(TileSize::size_32x8(), TileSize(1, 1));
    assert_eq!(TileSize::size_8x32(), TileSize(2, 1));
}
