//! Hardware sprite-descriptor encoding.
//!
//! A sprite descriptor is three packed 16-bit words: `{shape, y}`,
//! `{size, x}` and `{tile base, palette bank}`. Fields occupy disjoint bit
//! ranges, so the builder methods commute; every unset field is zero, which
//! decodes to a degenerate 8x8 square sprite at (0, 0) using tile 0 and
//! palette bank 0.

use vstd::prelude::*;

verus! {

/// Mask with the inclusive bit range `low..=high` set, as
/// `bitfrob::u16_region_mask` computes it.
pub open spec fn region_mask16(low: u16, high: u16) -> u16
    recommends
        low <= high < 16,
{
    (u16::MAX >> ((15 + low - high) as u16)) << low
}

/// Word `w` with the inclusive bit range `low..=high` replaced by the low bits
/// of `value`, shifted into place; the bits of `value` that do not fit the
/// range are dropped.
pub open spec fn with_field16(low: u16, high: u16, w: u16, value: u16) -> u16
    recommends
        low <= high < 16,
{
    (w & !region_mask16(low, high)) | ((value << low) & region_mask16(low, high))
}

/// Relies on `bitfrob::u16_with_value`: replaces the inclusive bit region
/// `low..=high` of `old_word` with `replacement` shifted up by `low` bits,
/// truncated to the region.
pub assume_specification [ bitfrob::u16_with_value ](
    low: u32,
    high: u32,
    old_word: u16,
    replacement: u16,
) -> (r: u16)
    requires
        low <= high,
        high < 16,
    ensures
        r == with_field16(low as u16, high as u16, old_word, replacement),
;

/// A 15-bit RGB color packed in a 16-bit slot: 5 bits per channel, red in the
/// low bits, then green, then blue.
#[derive(Debug, Clone, Copy, PartialEq, Eq, Structural)]
pub struct Color(pub u16);

impl Color {
    /// Packs three 5-bit channels.
    pub fn rgb(r: u16, g: u16, b: u16) -> (c: Color)
        requires
            r <= 31,
            g <= 31,
            b <= 31,
        ensures
            c.0 == (r | (g << 5) | (b << 10)),
            c.0 == r + g * 32 + b * 1024,
    {
        let c = Color(r | (g << 5) | (b << 10));
        proof {
            lemma_color_pack(r, g, b);
        }
        c
    }
}

/// The packed form of three in-range channels equals the positional sum, so
/// distinct channel triples pack to distinct colors.
proof fn lemma_color_pack(r: u16, g: u16, b: u16)
    by (bit_vector)
    requires
        r <= 31,
        g <= 31,
        b <= 31,
    ensures
        (r | (g << 5) | (b << 10)) == r + g * 32 + b * 1024,
{
}

/// Shape bits of a first descriptor word: bits 14..=15.
pub open spec fn attr0_shape(w: u16) -> u16 {
    w >> 14
}

/// Y coordinate bits of a first descriptor word: bits 0..=7.
pub open spec fn attr0_y(w: u16) -> u16 {
    w & 0x00FF
}

/// Size bits of a second descriptor word: bits 14..=15.
pub open spec fn attr1_size(w: u16) -> u16 {
    w >> 14
}

/// X coordinate bits of a second descriptor word: bits 0..=9.
pub open spec fn attr1_x(w: u16) -> u16 {
    w & 0x03FF
}

/// Tile base bits of a third descriptor word: bits 0..=9.
pub open spec fn attr2_tile(w: u16) -> u16 {
    w & 0x03FF
}

/// Palette bank bits of a third descriptor word: bits 12..=15.
pub open spec fn attr2_palette(w: u16) -> u16 {
    w >> 12
}

/// Writing the bit region 14..=15 keeps the low byte and replaces only the
/// top two bits.
proof fn lemma_field_14_15(w: u16, v: u16)
    by (bit_vector)
    ensures
        with_field16(14, 15, w, v) == ((w & 0x3FFF) | ((v & 0x3) << 14)),
        attr0_shape((w & 0x3FFF) | ((v & 0x3) << 14)) == v & 0x3,
        v <= 0x3 ==> v & 0x3 == v,
        attr0_y((w & 0x3FFF) | ((v & 0x3) << 14)) == attr0_y(w),
        attr1_x((w & 0x3FFF) | ((v & 0x3) << 14)) == attr1_x(w),
{
}

/// Writing the bit region 0..=7 keeps the top byte and replaces only the low
/// byte.
proof fn lemma_field_0_7(w: u16, v: u16)
    by (bit_vector)
    ensures
        with_field16(0, 7, w, v) == ((w & 0xFF00) | (v & 0x00FF)),
        attr0_y((w & 0xFF00) | (v & 0x00FF)) == v & 0x00FF,
        v <= 0xFF ==> v & 0x00FF == v,
        attr0_shape((w & 0xFF00) | (v & 0x00FF)) == attr0_shape(w),
{
}

/// Writing the bit region 0..=9 keeps the top six bits and replaces only the
/// low ten.
proof fn lemma_field_0_9(w: u16, v: u16)
    by (bit_vector)
    ensures
        with_field16(0, 9, w, v) == ((w & 0xFC00) | (v & 0x03FF)),
        attr1_x((w & 0xFC00) | (v & 0x03FF)) == v & 0x03FF,
        v <= 0x3FF ==> v & 0x03FF == v,
        attr2_tile((w & 0xFC00) | (v & 0x03FF)) == v & 0x03FF,
        attr1_size((w & 0xFC00) | (v & 0x03FF)) == attr1_size(w),
        attr2_palette((w & 0xFC00) | (v & 0x03FF)) == attr2_palette(w),
{
}

/// Writing the bit region 12..=15 keeps the low twelve bits and replaces only
/// the top four.
proof fn lemma_field_12_15(w: u16, v: u16)
    by (bit_vector)
    ensures
        with_field16(12, 15, w, v) == ((w & 0x0FFF) | ((v & 0xF) << 12)),
        attr2_palette((w & 0x0FFF) | ((v & 0xF) << 12)) == v & 0xF,
        v <= 0xF ==> v & 0xF == v,
        attr2_tile((w & 0x0FFF) | ((v & 0xF) << 12)) == attr2_tile(w),
{
}

/// First word of a sprite descriptor: shape in bits 14..=15, y in bits 0..=7.
#[derive(Debug, Clone, Copy, PartialEq, Eq, Structural)]
pub struct ObjAttr0(pub u16);

impl ObjAttr0 {
    /// The all-zero word: shape 0 (square), y 0.
    pub fn new() -> (r: Self)
        ensures
            r.0 == 0,
    {
        Self(0)
    }

    /// Replaces the shape field with the low two bits of `shape`.
    pub fn shape(self, shape: u16) -> (r: Self)
        ensures
            r.0 == ((self.0 & 0x3FFF) | ((shape & 0x3) << 14)),
            attr0_shape(r.0) == shape & 0x3,
            shape <= 0x3 ==> attr0_shape(r.0) == shape,
            attr0_y(r.0) == attr0_y(self.0),
    {
        proof {
            lemma_field_14_15(self.0, shape);
        }
        Self(bitfrob::u16_with_value(14, 15, self.0, shape))
    }

    /// Replaces the y field with the low eight bits of `y`; a negative `y`
    /// wraps to its two's-complement bit pattern first.
    pub fn y(self, y: i16) -> (r: Self)
        ensures
            r.0 == ((self.0 & 0xFF00) | ((y as u16) & 0x00FF)),
            attr0_y(r.0) == (y as u16) & 0x00FF,
            0 <= y <= 0xFF ==> attr0_y(r.0) == y,
            attr0_shape(r.0) == attr0_shape(self.0),
    {
        let bits: u16 = y as u16;
        proof {
            lemma_field_0_7(self.0, bits);
        }
        Self(bitfrob::u16_with_value(0, 7, self.0, bits))
    }
}

/// Second word of a sprite descriptor: size in bits 14..=15, x in bits 0..=9.
#[derive(Debug, Clone, Copy, PartialEq, Eq, Structural)]
pub struct ObjAttr1(pub u16);

impl ObjAttr1 {
    /// The all-zero word: size 0 (8x8 within shape), x 0.
    pub fn new() -> (r: Self)
        ensures
            r.0 == 0,
    {
        Self(0)
    }

    /// Replaces the size field with the low two bits of `size`.
    pub fn size(self, size: u16) -> (r: Self)
        ensures
            r.0 == ((self.0 & 0x3FFF) | ((size & 0x3) << 14)),
            attr1_size(r.0) == size & 0x3,
            size <= 0x3 ==> attr1_size(r.0) == size,
            attr1_x(r.0) == attr1_x(self.0),
    {
        proof {
            lemma_field_14_15(self.0, size);
        }
        Self(bitfrob::u16_with_value(14, 15, self.0, size))
    }

    /// Replaces the x field with the low ten bits of `x`; a negative `x`
    /// wraps to its two's-complement bit pattern first.
    pub fn x(self, x: i16) -> (r: Self)
        ensures
            r.0 == ((self.0 & 0xFC00) | ((x as u16) & 0x03FF)),
            attr1_x(r.0) == (x as u16) & 0x03FF,
            0 <= x <= 0x3FF ==> attr1_x(r.0) == x,
            attr1_size(r.0) == attr1_size(self.0),
    {
        let bits: u16 = x as u16;
        proof {
            lemma_field_0_9(self.0, bits);
        }
        Self(bitfrob::u16_with_value(0, 9, self.0, bits))
    }
}

/// Third word of a sprite descriptor: tile base in bits 0..=9, palette bank
/// in bits 12..=15.
#[derive(Debug, Clone, Copy, PartialEq, Eq, Structural)]
pub struct ObjAttr2(pub u16);

impl ObjAttr2 {
    /// The all-zero word: tile base 0, palette bank 0.
    pub fn new() -> (r: Self)
        ensures
            r.0 == 0,
    {
        Self(0)
    }

    /// Replaces the tile base field with the low ten bits of `tile`.
    pub fn tile(self, tile: u16) -> (r: Self)
        ensures
            r.0 == ((self.0 & 0xFC00) | (tile & 0x03FF)),
            attr2_tile(r.0) == tile & 0x03FF,
            tile <= 0x3FF ==> attr2_tile(r.0) == tile,
            attr2_palette(r.0) == attr2_palette(self.0),
    {
        proof {
            lemma_field_0_9(self.0, tile);
        }
        Self(bitfrob::u16_with_value(0, 9, self.0, tile))
    }

    /// Replaces the palette bank field with the low four bits of `bank`.
    pub fn palette(self, bank: u16) -> (r: Self)
        ensures
            r.0 == ((self.0 & 0x0FFF) | ((bank & 0xF) << 12)),
            attr2_palette(r.0) == bank & 0xF,
            bank <= 0xF ==> attr2_palette(r.0) == bank,
            attr2_tile(r.0) == attr2_tile(self.0),
    {
        proof {
            lemma_field_12_15(self.0, bank);
        }
        Self(bitfrob::u16_with_value(12, 15, self.0, bank))
    }
}

/// A hardware sprite size: the shape bits for the first descriptor word and
/// the size bits for the second. Both are two-bit values.
#[derive(Debug, Clone, Copy, PartialEq, Eq, Structural)]
pub struct TileSize(pub u8, pub u8);

impl TileSize {
    /// 8x8 pixels: shape 0, size 0.
    pub fn size_8x8() -> (r: Self)
        ensures
            r == (TileSize(0, 0)),
    {
        Self(0b00, 0b00)
    }

    /// 16x16 pixels: shape 0, size 1.
    pub fn size_16x16() -> (r: Self)
        ensures
            r == (TileSize(0, 1)),
    {
        Self(0b00, 0b01)
    }

    /// 32x32 pixels: shape 0, size 2.
    pub fn size_32x32() -> (r: Self)
        ensures
            r == (TileSize(0, 2)),
    {
        Self(0b00, 0b10)
    }

    /// 64x64 pixels: shape 0, size 3.
    pub fn size_64x64() -> (r: Self)
        ensures
            r == (TileSize(0, 3)),
    {
        Self(0b00, 0b11)
    }

    /// 16x8 pixels: shape 1, size 0.
    pub fn size_16x8() -> (r: Self)
        ensures
            r == (TileSize(1, 0)),
    {
        Self(0b01, 0b00)
    }

    /// 32x8 pixels: shape 1, size 1.
    pub fn size_32x8() -> (r: Self)
        ensures
            r == (TileSize(1, 1)),
    {
        Self(0b01, 0b01)
    }

    /// 32x16 pixels: shape 1, size 2.
    pub fn size_32x16() -> (r: Self)
        ensures
            r == (TileSize(1, 2)),
    {
        Self(0b01, 0b10)
    }

    /// 64x32 pixels: shape 1, size 3.
    pub fn size_64x32() -> (r: Self)
        ensures
            r == (TileSize(1, 3)),
    {
        Self(0b01, 0b11)
    }

    /// 8x16 pixels: shape 2, size 0.
    pub fn size_8x16() -> (r: Self)
        ensures
            r == (TileSize(2, 0)),
    {
        Self(0b10, 0b00)
    }

    /// 8x32 pixels: shape 2, size 1.
    pub fn size_8x32() -> (r: Self)
        ensures
            r == (TileSize(2, 1)),
    {
        Self(0b10, 0b01)
    }

    /// 16x32 pixels: shape 2, size 2.
    pub fn size_16x32() -> (r: Self)
        ensures
            r == (TileSize(2, 2)),
    {
        Self(0b10, 0b10)
    }

    /// 32x64 pixels: shape 2, size 3.
    pub fn size_32x64() -> (r: Self)
        ensures
            r == (TileSize(2, 3)),
    {
        Self(0b10, 0b11)
    }
}

/// A complete sprite descriptor: the three packed 16-bit words.
///
/// The builder methods each touch disjoint bit ranges, so they may be applied
/// in any order; a field never set stays zero.
#[derive(Debug, Clone, Copy, PartialEq, Eq, Structural)]
pub struct ObjAttr(pub ObjAttr0, pub ObjAttr1, pub ObjAttr2);

impl ObjAttr {
    /// The fully-degenerate descriptor: every field zero, meaning a square
    /// 8x8 sprite at (0, 0) showing tile 0 with palette bank 0.
    pub fn new() -> (r: Self)
        ensures
            r.0.0 == 0,
            r.1.0 == 0,
            r.2.0 == 0,
    {
        Self(ObjAttr0::new(), ObjAttr1::new(), ObjAttr2::new())
    }

    /// Sets the sprite size: the shape bits go to the first word, the size
    /// bits to the second.
    pub fn size(self, size: TileSize) -> (r: Self)
        ensures
            r.0.0 == ((self.0.0 & 0x3FFF) | (((size.0 as u16) & 0x3) << 14)),
            r.1.0 == ((self.1.0 & 0x3FFF) | (((size.1 as u16) & 0x3) << 14)),
            r.2 == self.2,
            attr0_shape(r.0.0) == (size.0 as u16) & 0x3,
            attr1_size(r.1.0) == (size.1 as u16) & 0x3,
            size.0 <= 0x3 ==> attr0_shape(r.0.0) == size.0,
            size.1 <= 0x3 ==> attr1_size(r.1.0) == size.1,
            attr0_y(r.0.0) == attr0_y(self.0.0),
            attr1_x(r.1.0) == attr1_x(self.1.0),
    {
        Self(self.0.shape(size.0 as u16), self.1.size(size.1 as u16), self.2)
    }

    /// Sets the tile base field.
    pub fn tile(self, tile: u16) -> (r: Self)
        ensures
            r.0 == self.0,
            r.1 == self.1,
            r.2.0 == ((self.2.0 & 0xFC00) | (tile & 0x03FF)),
            attr2_tile(r.2.0) == tile & 0x03FF,
            tile <= 0x3FF ==> attr2_tile(r.2.0) == tile,
            attr2_palette(r.2.0) == attr2_palette(self.2.0),
    {
        Self(self.0, self.1, self.2.tile(tile))
    }

    /// Sets the palette bank field.
    pub fn palette(self, bank: u16) -> (r: Self)
        ensures
            r.0 == self.0,
            r.1 == self.1,
            r.2.0 == ((self.2.0 & 0x0FFF) | ((bank & 0xF) << 12)),
            attr2_palette(r.2.0) == bank & 0xF,
            bank <= 0xF ==> attr2_palette(r.2.0) == bank,
            attr2_tile(r.2.0) == attr2_tile(self.2.0),
    {
        Self(self.0, self.1, self.2.palette(bank))
    }

    /// Sets the x field from a screen coordinate.
    pub fn x(self, x: i16) -> (r: Self)
        ensures
            r.0 == self.0,
            r.2 == self.2,
            r.1.0 == ((self.1.0 & 0xFC00) | ((x as u16) & 0x03FF)),
            attr1_x(r.1.0) == (x as u16) & 0x03FF,
            0 <= x <= 0x3FF ==> attr1_x(r.1.0) == x,
            attr1_size(r.1.0) == attr1_size(self.1.0),
    {
        Self(self.0, self.1.x(x), self.2)
    }

    /// Sets the y field from a screen coordinate.
    pub fn y(self, y: i16) -> (r: Self)
        ensures
            r.1 == self.1,
            r.2 == self.2,
            r.0.0 == ((self.0.0 & 0xFF00) | ((y as u16) & 0x00FF)),
            attr0_y(r.0.0) == (y as u16) & 0x00FF,
            0 <= y <= 0xFF ==> attr0_y(r.0.0) == y,
            attr0_shape(r.0.0) == attr0_shape(self.0.0),
    {
        Self(self.0.y(y), self.1, self.2)
    }
}

/// A descriptor in which no field was ever set decodes to shape 0, size 0,
/// tile 0, palette bank 0 and position (0, 0).
pub proof fn lemma_default_descriptor_decodes_to_zero(a: ObjAttr)
    requires
        a.0.0 == 0,
        a.1.0 == 0,
        a.2.0 == 0,
    ensures
        attr0_shape(a.0.0) == 0,
        attr0_y(a.0.0) == 0,
        attr1_size(a.1.0) == 0,
        attr1_x(a.1.0) == 0,
        attr2_tile(a.2.0) == 0,
        attr2_palette(a.2.0) == 0,
{
    assert(attr0_shape(0) == 0 && attr0_y(0) == 0 && attr1_size(0) == 0 && attr1_x(0) == 0
        && attr2_tile(0) == 0 && attr2_palette(0) == 0) by (bit_vector);
}

/// Display-control flag: frame select.
pub const DISPCNT_FRAME_SELECT: u16 = 1u16 << 4;

/// Display-control flag: allow access during the horizontal-blank interval.
pub const DISPCNT_HBLANK_INTERVAL_FREE: u16 = 1u16 << 5;

/// Display-control flag: sprite tile data is addressed linearly.
pub const DISPCNT_LINEAR_OBJ_TILE_DATA: u16 = 1u16 << 6;

/// Display-control flag: force the screen blank.
pub const DISPCNT_FORCED_BLANK: u16 = 1u16 << 7;

/// Display-control flag: enable background layer 0.
pub const DISPCNT_ENABLE_BG0: u16 = 1u16 << 8;

/// Display-control flag: enable background layer 1.
pub const DISPCNT_ENABLE_BG1: u16 = 1u16 << 9;

/// Display-control flag: enable background layer 2.
pub const DISPCNT_ENABLE_BG2: u16 = 1u16 << 10;

/// Display-control flag: enable background layer 3.
pub const DISPCNT_ENABLE_BG3: u16 = 1u16 << 11;

/// Display-control flag: enable the sprite layer.
pub const DISPCNT_ENABLE_OBJ: u16 = 1u16 << 12;

/// Display-control flag: enable window 0.
pub const DISPCNT_WINDOW_0_DISPLAY: u16 = 1u16 << 13;

/// Display-control flag: enable window 1.
pub const DISPCNT_WINDOW_1_DISPLAY: u16 = 1u16 << 14;

/// Display-control flag: enable the sprite window.
pub const DISPCNT_OBJ_WINDOW_DISPLAY: u16 = 1u16 << 15;

/// The display-control register value: a 16-bit set of flags.
#[derive(Debug, Clone, Copy, PartialEq, Eq, Structural)]
pub struct DisplayControl(pub u16);

impl DisplayControl {
    /// The value with no flag set.
    pub fn new() -> (r: Self)
        ensures
            r.0 == 0,
    {
        Self(0)
    }

    /// The value with the given flag bits set in addition to those of `self`.
    pub fn with(self, flags: u16) -> (r: Self)
        ensures
            r.0 == (self.0 | flags),
    {
        Self(self.0 | flags)
    }

    /// Whether every one of the given flag bits is set.
    pub fn contains(self, flags: u16) -> (r: bool)
        ensures
            r == (self.0 & flags == flags),
    {
        (self.0 & flags) == flags
    }
}

} // verus!
