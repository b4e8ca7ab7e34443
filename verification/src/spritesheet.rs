//! Mapping 16x16 logical sprites onto compiled 8x8 tiles.
//!
//! A 16x16 sprite is four 8x8 quadrant tiles. On the source sheet the two
//! top tiles sit on one tile row and the two bottom tiles on the next, so
//! the quadrants are not contiguous in the compiled blob; the hardware,
//! however, wants them copied into four contiguous tile-memory slots. For a
//! sheet `w` tiles wide (half-width `h = w / 2`), logical sprite `k` starts
//! at quadrant tile `2 * ((k / h) * w + k % h)`.

use vstd::prelude::*;

verus! {

/// Index of the top-left quadrant tile of logical 16x16 sprite `k` on a
/// sheet `sheet_tile_width` 8x8 tiles wide.
pub open spec fn quad_top_left(k: int, sheet_tile_width: int) -> int
    recommends
        sheet_tile_width >= 2,
        sheet_tile_width % 2 == 0,
{
    2 * ((k / (sheet_tile_width / 2)) * sheet_tile_width + k % (sheet_tile_width / 2))
}

/// The four quadrant tile indices of logical 16x16 sprite `index`, in the
/// order the hardware consumes them: top-left, top-right, bottom-left,
/// bottom-right.
pub fn quad_tile_indices(index: usize, sheet_tile_width: usize) -> (r: [usize; 4])
    requires
        sheet_tile_width >= 2,
        sheet_tile_width % 2 == 0,
        quad_top_left(index as int, sheet_tile_width as int) + sheet_tile_width + 1 <= usize::MAX,
    ensures
        ({
            let tl = quad_top_left(index as int, sheet_tile_width as int);
            &&& r@.len() == 4
            &&& r@[0] == tl
            &&& r@[1] == tl + 1
            &&& r@[2] == tl + sheet_tile_width
            &&& r@[3] == tl + sheet_tile_width + 1
        }),
{
    let half = sheet_tile_width / 2;
    let row = index / half;
    let col = index % half;
    let top_left = 2 * (row * sheet_tile_width + col);
    proof {
        assert(top_left == quad_top_left(index as int, sheet_tile_width as int));
    }
    [top_left, top_left + 1, top_left + sheet_tile_width, top_left + sheet_tile_width + 1]
}

/// Copies the 8 words of the 8x8 tile with linear index `index` out of a
/// compiled blob.
pub fn tile_8x8(blob: &Vec<u32>, index: usize) -> (r: Vec<u32>)
    requires
        8 * index + 8 <= blob@.len(),
    ensures
        r@ == blob@.subrange(8 * index, 8 * index + 8),
        r@.len() == 8,
{
    let blob_len = blob.len();
    proof {
        assert(8 * index + 8 <= blob_len);
    }
    let start = 8 * index;
    let mut out: Vec<u32> = Vec::new();
    let mut j: usize = 0;
    while j < 8
        invariant
            j <= 8,
            start == 8 * index,
            start + 8 <= blob@.len(),
            out@.len() == j,
            forall|m: int| 0 <= m < j ==> out@[m] == blob@[8 * index + m],
        decreases 8 - j,
    {
        out.push(blob[start + j]);
        j = j + 1;
    }
    proof {
        assert(out@ =~= blob@.subrange(8 * (index as int), 8 * (index as int) + 8));
    }
    out
}

/// Gathers the four quadrant tiles of logical 16x16 sprite `index` from a
/// compiled blob of a sheet 8 tiles wide, in the contiguous order tile
/// memory wants: top-left, top-right, bottom-left, bottom-right — 32 words.
pub fn tile_16x16(blob: &Vec<u32>, index: usize) -> (r: Vec<u32>)
    requires
        8 * quad_top_left(index as int, 8) + 80 <= blob@.len(),
    ensures
        ({
            let tl = quad_top_left(index as int, 8);
            &&& r@.len() == 32
            &&& r@.subrange(0, 8) == blob@.subrange(8 * tl, 8 * tl + 8)
            &&& r@.subrange(8, 16) == blob@.subrange(8 * (tl + 1), 8 * (tl + 1) + 8)
            &&& r@.subrange(16, 24) == blob@.subrange(8 * (tl + 8), 8 * (tl + 8) + 8)
            &&& r@.subrange(24, 32) == blob@.subrange(8 * (tl + 9), 8 * (tl + 9) + 8)
        }),
{
    let blob_len = blob.len();
    proof {
        let tl = quad_top_left(index as int, 8);
        assert(8 * tl + 80 <= blob_len);
    }
    let quad = quad_tile_indices(index, 8);
    let mut out = tile_8x8(blob, quad[0]);
    let top_right = tile_8x8(blob, quad[1]);
    let bottom_left = tile_8x8(blob, quad[2]);
    let bottom_right = tile_8x8(blob, quad[3]);
    append_words(&mut out, &top_right);
    append_words(&mut out, &bottom_left);
    append_words(&mut out, &bottom_right);
    proof {
        let tl = quad_top_left(index as int, 8);
        assert(out@.subrange(0, 8) =~= blob@.subrange(8 * tl, 8 * tl + 8));
        assert(out@.subrange(8, 16) =~= blob@.subrange(8 * (tl + 1), 8 * (tl + 1) + 8));
        assert(out@.subrange(16, 24) =~= blob@.subrange(8 * (tl + 8), 8 * (tl + 8) + 8));
        assert(out@.subrange(24, 32) =~= blob@.subrange(8 * (tl + 9), 8 * (tl + 9) + 8));
    }
    out
}

/// Appends every word of `src` to `dst` in order.
fn append_words(dst: &mut Vec<u32>, src: &Vec<u32>)
    ensures
        final(dst)@ == old(dst)@ + src@,
{
    let n = src.len();
    let mut j: usize = 0;
    while j < n
        invariant
            j <= n,
            n == src@.len(),
            dst@ == old(dst)@ + src@.subrange(0, j as int),
        decreases n - j,
    {
        proof {
            assert(src@.subrange(0, j as int).push(src@[j as int]) =~= src@.subrange(
                0,
                j as int + 1,
            ));
        }
        dst.push(src[j]);
        j = j + 1;
    }
    proof {
        assert(src@.subrange(0, n as int) =~= src@);
    }
}

} // verus!
