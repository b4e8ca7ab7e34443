//! Typed descriptors for the fixed physical address map.
//!
//! Each hardware region is a constant `(base, element size, count, stride)`
//! quadruple. The descriptors carry no memory themselves: they only compute
//! and bounds-check element addresses, so rendering code can be exercised on
//! a host machine against an emulated backing store while the embedded build
//! performs the actual volatile accesses at the computed addresses.

use vstd::prelude::*;

verus! {

/// An index that fell outside a region's declared element count, or a sprite
/// slot request past the table's capacity.
#[derive(Clone, Copy, Debug, PartialEq, Eq, Structural)]
pub struct OutOfRange {
    /// The rejected index.
    pub index: u32,
    /// The number of elements actually available.
    pub count: u32,
}

/// A fixed-count, fixed-stride array of identical hardware registers at a
/// constant physical address.
#[derive(Debug, Clone, Copy, PartialEq, Eq, Structural)]
pub struct RegisterRegion {
    /// Physical address of element 0.
    pub base: u32,
    /// Size in bytes of one element.
    pub elem_size: u32,
    /// Number of addressable elements.
    pub count: u32,
    /// Distance in bytes between consecutive elements.
    pub stride: u32,
    /// Declared size in bytes of the backing hardware region.
    pub region_size: u32,
}

impl RegisterRegion {
    /// The region invariant: elements fit their stride, the strided elements
    /// fit the declared hardware region, and the region fits the 32-bit
    /// physical address space.
    pub open spec fn wf(self) -> bool {
        &&& 1 <= self.elem_size <= self.stride
        &&& self.count * self.stride <= self.region_size
        &&& self.base + self.region_size <= u32::MAX + 1
    }

    /// The physical address of element `i`, or `OutOfRange` when `i` is not
    /// below the declared count.
    pub fn index(&self, i: u32) -> (r: Result<u32, OutOfRange>)
        requires
            self.wf(),
        ensures
            i < self.count ==> r == Ok::<u32, OutOfRange>(
                (self.base + i * self.stride) as u32,
            ),
            i >= self.count ==> r == Err::<u32, OutOfRange>(
                OutOfRange { index: i, count: self.count },
            ),
    {
        if i < self.count {
            proof {
                lemma_strided_offset_in_region(
                    i as int,
                    self.count as int,
                    self.stride as int,
                    self.region_size as int,
                );
                assert(i * self.stride + self.stride <= self.region_size);
                assert(self.base + i * self.stride <= u32::MAX);
            }
            Ok(self.base + i * self.stride)
        } else {
            Err(OutOfRange { index: i, count: self.count })
        }
    }
}

/// Within a region, a strided element offset stays below the region size:
/// `i < count` and `count * stride <= size` give `i * stride + stride <= size`.
proof fn lemma_strided_offset_in_region(i: int, count: int, stride: int, size: int)
    by (nonlinear_arith)
    requires
        0 <= i < count,
        0 <= stride,
        count * stride <= size,
    ensures
        i * stride + stride <= size,
{
}

/// The display-control register: one 16-bit flag word.
pub fn display_control_region() -> (r: RegisterRegion)
    ensures
        r == (RegisterRegion {
            base: 0x0400_0000,
            elem_size: 2,
            count: 1,
            stride: 2,
            region_size: 2,
        }),
        r.wf(),
{
    RegisterRegion { base: 0x0400_0000, elem_size: 2, count: 1, stride: 2, region_size: 2 }
}

/// The key-input register: one read-only 16-bit bitmask.
pub fn key_input_region() -> (r: RegisterRegion)
    ensures
        r == (RegisterRegion {
            base: 0x0400_0130,
            elem_size: 2,
            count: 1,
            stride: 2,
            region_size: 2,
        }),
        r.wf(),
{
    RegisterRegion { base: 0x0400_0130, elem_size: 2, count: 1, stride: 2, region_size: 2 }
}

/// The backdrop color: one 16-bit color.
pub fn backdrop_region() -> (r: RegisterRegion)
    ensures
        r == (RegisterRegion {
            base: 0x0500_0000,
            elem_size: 2,
            count: 1,
            stride: 2,
            region_size: 2,
        }),
        r.wf(),
{
    RegisterRegion { base: 0x0500_0000, elem_size: 2, count: 1, stride: 2, region_size: 2 }
}

/// The sprite palette: 256 16-bit colors, 16 banks of 16.
pub fn obj_palette_region() -> (r: RegisterRegion)
    ensures
        r == (RegisterRegion {
            base: 0x0500_0200,
            elem_size: 2,
            count: 256,
            stride: 2,
            region_size: 512,
        }),
        r.wf(),
{
    RegisterRegion { base: 0x0500_0200, elem_size: 2, count: 256, stride: 2, region_size: 512 }
}

/// One 16-color bank of the sprite palette: 16 16-bit colors.
pub fn obj_palette_bank_region(bank: u32) -> (r: RegisterRegion)
    requires
        bank < 16,
    ensures
        r == (RegisterRegion {
            base: (0x0500_0200 + bank * 32) as u32,
            elem_size: 2,
            count: 16,
            stride: 2,
            region_size: 32,
        }),
        r.wf(),
{
    RegisterRegion {
        base: 0x0500_0200 + bank * 32,
        elem_size: 2,
        count: 16,
        stride: 2,
        region_size: 32,
    }
}

/// Sprite tile memory viewed as 1024 4-bits-per-pixel tiles of 8 32-bit
/// words each.
pub fn obj_tile4_region() -> (r: RegisterRegion)
    ensures
        r == (RegisterRegion {
            base: 0x0601_0000,
            elem_size: 32,
            count: 1024,
            stride: 32,
            region_size: 32768,
        }),
        r.wf(),
{
    RegisterRegion {
        base: 0x0601_0000,
        elem_size: 32,
        count: 1024,
        stride: 32,
        region_size: 32768,
    }
}

/// Sprite tile memory viewed as 8192 packed 32-bit words: the granularity at
/// which a compiled tile blob is uploaded.
pub fn obj_tile_word_region() -> (r: RegisterRegion)
    ensures
        r == (RegisterRegion {
            base: 0x0601_0000,
            elem_size: 4,
            count: 8192,
            stride: 4,
            region_size: 32768,
        }),
        r.wf(),
{
    RegisterRegion { base: 0x0601_0000, elem_size: 4, count: 8192, stride: 4, region_size: 32768 }
}

/// The sprite attribute table: 128 descriptors of three 16-bit words each,
/// on an 8-byte stride.
pub fn obj_attrs_region() -> (r: RegisterRegion)
    ensures
        r == (RegisterRegion {
            base: 0x0700_0000,
            elem_size: 6,
            count: 128,
            stride: 8,
            region_size: 1024,
        }),
        r.wf(),
{
    RegisterRegion { base: 0x0700_0000, elem_size: 6, count: 128, stride: 8, region_size: 1024 }
}

} // verus!
