//! Build-time tile compiler.
//!
//! Re-tiles a row-major indexed-color bitmap into hardware tile order and
//! packs it into the binary blob the program image embeds: the bitmap is
//! partitioned into 8x8 tiles, tile `(tx, ty)` gets linear index
//! `ty * (W/8) + tx`, pixels within a tile linearize row-major, and every run
//! of 8 pixels becomes one packed 32-bit word. Malformed input is a fatal
//! build-time error; there is no runtime fallback.

use vstd::arithmetic::div_mod::{
    lemma_fundamental_div_mod,
    lemma_fundamental_div_mod_converse,
};
use vstd::arithmetic::mul::lemma_mul_inequality;
use vstd::prelude::*;

use crate::tiles::{nibble_of, pack8, pixel_ok, pixels_ok, lemma_pack8_nibble};

verus! {

/// A defect in the source bitmap that makes it impossible to compile. Fatal
/// at build time: the device has no way to surface an error at runtime.
#[derive(Clone, Copy, Debug, PartialEq, Eq, Structural)]
pub enum CompileTimeFormatError {
    /// Width or height is not an exact multiple of the 8-pixel tile size.
    BadDimensions,
    /// The pixel buffer does not hold exactly width times height values.
    LengthMismatch,
    /// A pixel's palette index does not fit in 4 bits.
    PixelOutOfRange,
}

/// Index into the source bitmap of pixel `(r, c)` of the tile with linear
/// index `t`, for a bitmap `w` pixels wide.
pub open spec fn tile_pixel_index(w: int, t: int, r: int, c: int) -> int
    recommends
        w > 0,
        w % 8 == 0,
{
    ((t / (w / 8)) * 8 + r) * w + (t % (w / 8)) * 8 + c
}

/// Row `r` of the tile with linear index `t`: 8 source pixels.
pub open spec fn tile_row_pixels(img: Seq<u8>, w: int, t: int, r: int) -> Seq<u8> {
    Seq::new(8, |c: int| img[tile_pixel_index(w, t, r, c)])
}

/// The compiled blob of a valid bitmap: one packed word for each run of 8
/// pixels, in tile order, 8 words per tile.
pub open spec fn compile_spec(img: Seq<u8>, w: int) -> Seq<u32> {
    Seq::new(img.len() / 8, |q: int| pack8(tile_row_pixels(img, w, q / 8, q % 8)))
}

/// Whether a bitmap is acceptable input for the compiler.
pub open spec fn bitmap_ok(img: Seq<u8>, w: int, h: int) -> bool {
    &&& w % 8 == 0
    &&& h % 8 == 0
    &&& img.len() == w * h
    &&& pixels_ok(img)
}

/// Every pixel index a tile addresses lies inside the bitmap.
proof fn lemma_tile_pixel_index_bounds(w: int, h: int, t: int, r: int, c: int)
    requires
        w > 0,
        w % 8 == 0,
        h % 8 == 0,
        0 <= t < (w / 8) * (h / 8),
        0 <= r < 8,
        0 <= c < 8,
    ensures
        tile_pixel_index(w, t, r, 0) + c == tile_pixel_index(w, t, r, c),
        0 <= tile_pixel_index(w, t, r, c),
        tile_pixel_index(w, t, r, c) + (7 - c) < w * h,
{
    let tw = w / 8;
    let th = h / 8;
    let ty = t / tw;
    let tx = t % tw;
    assert(tw > 0);
    assert(w == 8 * tw && h == 8 * th) by {
        lemma_fundamental_div_mod(w, 8);
        lemma_fundamental_div_mod(h, 8);
    }
    assert(0 <= tx < tw && ty * tw + tx == t) by {
        lemma_fundamental_div_mod(t, tw);
    }
    assert(0 <= ty < th) by (nonlinear_arith)
        requires
            0 <= t < tw * th,
            tw > 0,
            ty == t / tw,
    ;
    let row = ty * 8 + r;
    assert(0 <= row < h) by (nonlinear_arith)
        requires
            0 <= ty < th,
            0 <= r < 8,
            h == 8 * th,
            row == ty * 8 + r,
    ;
    assert(row * w + tw * 8 <= h * w) by {
        lemma_mul_inequality(row + 1, h, w);
        assert((row + 1) * w == row * w + w) by (nonlinear_arith);
        assert(tw * 8 == w);
    }
    assert(row * w >= 0) by (nonlinear_arith)
        requires
            row >= 0,
            w > 0,
    ;
    assert(tx * 8 + 8 <= tw * 8) by {
        lemma_mul_inequality(tx + 1, tw, 8);
        assert((tx + 1) * 8 == tx * 8 + 8);
    }
    assert(tx * 8 >= 0) by (nonlinear_arith)
        requires
            tx >= 0,
    ;
    assert(w * h == h * w) by (nonlinear_arith);
}

/// Compiles an indexed-color bitmap, `width * height` palette indices in
/// row-major order, into the hardware tile blob: `width * height / 8` packed
/// words in tile order.
///
/// Rejects a bitmap whose sides are not multiples of 8, whose buffer length
/// does not match its declared size, or with any pixel above 15 — and
/// compiles every other bitmap.
pub fn compile_bitmap(width: usize, height: usize, pixels: &Vec<u8>) -> (r: Result<
    Vec<u32>,
    CompileTimeFormatError,
>)
    ensures
        match r {
            Ok(blob) => {
                &&& bitmap_ok(pixels@, width as int, height as int)
                &&& blob@ == compile_spec(pixels@, width as int)
                &&& blob@.len() == width * height / 8
            },
            Err(e) => match e {
                CompileTimeFormatError::BadDimensions => !(width % 8 == 0 && height % 8 == 0),
                CompileTimeFormatError::LengthMismatch => {
                    &&& width % 8 == 0
                    &&& height % 8 == 0
                    &&& pixels@.len() != width * height
                },
                CompileTimeFormatError::PixelOutOfRange => {
                    &&& width % 8 == 0
                    &&& height % 8 == 0
                    &&& pixels@.len() == width * height
                    &&& !pixels_ok(pixels@)
                },
            },
        },
{
    if width % 8 != 0 || height % 8 != 0 {
        return Err(CompileTimeFormatError::BadDimensions);
    }
    let n = pixels.len();
    let len_matches = match width.checked_mul(height) {
        Some(total) => total == n,
        None => false,
    };
    if !len_matches {
        proof {
            lemma_checked_mul_mismatch(width as int, height as int, n as int);
        }
        return Err(CompileTimeFormatError::LengthMismatch);
    }
    let mut i: usize = 0;
    while i < n
        invariant
            i <= n,
            n == pixels@.len(),
            n == width * height,
            width % 8 == 0,
            height % 8 == 0,
            forall|j: int| 0 <= j < i ==> pixel_ok(#[trigger] pixels@[j]),
        decreases n - i,
    {
        if pixels[i] > 15 {
            proof {
                assert(!pixel_ok(pixels@[i as int]));
                assert(pixels@.len() == width * height);
            }
            return Err(CompileTimeFormatError::PixelOutOfRange);
        }
        i = i + 1;
    }
    let words = n / 8;
    let mut out: Vec<u32> = Vec::new();
    let mut q: usize = 0;
    while q < words
        invariant
            q <= words,
            words == n / 8,
            n == pixels@.len(),
            n == width * height,
            width % 8 == 0,
            height % 8 == 0,
            pixels_ok(pixels@),
            out@.len() == q,
            forall|m: int| 0 <= m < q ==> out@[m] == pack8(
                tile_row_pixels(pixels@, width as int, m / 8, m % 8),
            ),
        decreases words - q,
    {
        proof {
            lemma_compile_step_in_range(width as int, height as int, n as int, q as int);
        }
        let tw = width / 8;
        let t = q / 8;
        let rr = q % 8;
        let ty = t / tw;
        let tx = t % tw;
        proof {
            let wi = width as int;
            let ti = t as int;
            lemma_tile_pixel_index_bounds(wi, height as int, ti, rr as int, 0);
            lemma_tile_pixel_index_bounds(wi, height as int, ti, rr as int, 7);
        }
        let base = (ty * 8 + rr) * width + tx * 8;
        proof {
            assert(base == tile_pixel_index(width as int, t as int, rr as int, 0));
        }
        let w32: u32 = (pixels[base] as u32) | ((pixels[base + 1] as u32) << 4) | ((pixels[base
            + 2] as u32) << 8) | ((pixels[base + 3] as u32) << 12) | ((pixels[base + 4] as u32)
            << 16) | ((pixels[base + 5] as u32) << 20) | ((pixels[base + 6] as u32) << 24) | ((
        pixels[base + 7] as u32) << 28);
        proof {
            let row = tile_row_pixels(pixels@, width as int, t as int, rr as int);
            assert forall|c: int| 0 <= c < 8 implies row[c] == pixels@[base + c] by {
                lemma_tile_pixel_index_bounds(
                    width as int,
                    height as int,
                    t as int,
                    rr as int,
                    c,
                );
            }
            assert(w32 == pack8(row));
            lemma_fundamental_div_mod_converse(q as int, 8, t as int, rr as int);
        }
        out.push(w32);
        q = q + 1;
    }
    proof {
        assert(out@ =~= compile_spec(pixels@, width as int));
    }
    Ok(out)
}

/// When `checked_mul` fails or disagrees with the buffer length, the buffer
/// length differs from `w * h`.
proof fn lemma_checked_mul_mismatch(w: int, h: int, n: int)
    requires
        w >= 0,
        h >= 0,
        n <= usize::MAX,
        w * h > usize::MAX || w * h != n,
    ensures
        n != w * h,
{
}

/// Word index `q` of a valid blob addresses a tile inside the sheet, and the
/// divisions the compiler performs are well defined.
proof fn lemma_compile_step_in_range(w: int, h: int, n: int, q: int)
    requires
        w >= 0,
        h >= 0,
        w % 8 == 0,
        h % 8 == 0,
        n == w * h,
        0 <= q < n / 8,
    ensures
        w / 8 > 0,
        0 <= q / 8 < (w / 8) * (h / 8),
{
    let tw = w / 8;
    let th = h / 8;
    assert(w == 8 * tw && h == 8 * th) by {
        lemma_fundamental_div_mod(w, 8);
        lemma_fundamental_div_mod(h, 8);
    }
    assert(n == 64 * (tw * th)) by (nonlinear_arith)
        requires
            n == w * h,
            w == 8 * tw,
            h == 8 * th,
    ;
    assert(n / 8 == 8 * (tw * th)) by {
        lemma_fundamental_div_mod_converse(n, 8, 8 * (tw * th), 0);
    }
    if tw == 0 {
        assert(tw * th == 0) by (nonlinear_arith)
            requires
                tw == 0,
        ;
        assert(n / 8 == 0);
    }
    assert(q / 8 < tw * th) by (nonlinear_arith)
        requires
            0 <= q < 8 * (tw * th),
    ;
}

/// The pixel-to-blob mapping the compiler realizes: image pixel `(x, y)`
/// lands in the tile with linear index `x/8 + (y/8)*(W/8)`, at intra-tile
/// offset `(x%8) + (y%8)*8` — nibble `x%8` of blob word
/// `tile_index * 8 + y%8`.
pub proof fn lemma_tile_linearization(img: Seq<u8>, w: int, h: int, x: int, y: int)
    requires
        w > 0,
        h > 0,
        bitmap_ok(img, w, h),
        0 <= x < w,
        0 <= y < h,
    ensures
        ({
            let tile_index = x / 8 + (y / 8) * (w / 8);
            let offset = (x % 8) + (y % 8) * 8;
            let word = tile_index * 8 + offset / 8;
            nibble_of(compile_spec(img, w)[word], offset % 8) == img[y * w + x]
        }),
{
    let tw = w / 8;
    let th = h / 8;
    let tile_index = x / 8 + (y / 8) * tw;
    let offset = (x % 8) + (y % 8) * 8;
    assert(w == 8 * tw && h == 8 * th) by {
        lemma_fundamental_div_mod(w, 8);
        lemma_fundamental_div_mod(h, 8);
    }
    assert(x == (x / 8) * 8 + x % 8 && 0 <= x % 8 < 8) by {
        lemma_fundamental_div_mod(x, 8);
    }
    assert(y == (y / 8) * 8 + y % 8 && 0 <= y % 8 < 8) by {
        lemma_fundamental_div_mod(y, 8);
    }
    assert(0 <= x / 8 < tw && 0 <= y / 8 < th) by (nonlinear_arith)
        requires
            0 <= x < w,
            0 <= y < h,
            w == 8 * tw,
            h == 8 * th,
    ;
    assert(offset / 8 == y % 8 && offset % 8 == x % 8) by {
        lemma_fundamental_div_mod_converse(offset, 8, y % 8, x % 8);
    }
    let word = tile_index * 8 + y % 8;
    assert(0 <= tile_index < tw * th) by (nonlinear_arith)
        requires
            0 <= x / 8 < tw,
            0 <= y / 8 < th,
            tile_index == x / 8 + (y / 8) * tw,
    ;
    assert(word / 8 == tile_index && word % 8 == y % 8) by {
        lemma_fundamental_div_mod_converse(word, 8, tile_index, y % 8);
    }
    assert(img.len() == 64 * (tw * th)) by (nonlinear_arith)
        requires
            img.len() == w * h,
            w == 8 * tw,
            h == 8 * th,
    ;
    assert(img.len() / 8 == 8 * (tw * th)) by {
        lemma_fundamental_div_mod_converse(img.len() as int, 8, 8 * (tw * th), 0);
    }
    assert(0 <= word < img.len() / 8) by (nonlinear_arith)
        requires
            word == tile_index * 8 + y % 8,
            0 <= y % 8 < 8,
            0 <= tile_index < tw * th,
            img.len() / 8 == 8 * (tw * th),
    ;
    assert(tile_index / tw == y / 8 && tile_index % tw == x / 8) by {
        lemma_fundamental_div_mod_converse(tile_index, tw, y / 8, x / 8);
    }
    let row = tile_row_pixels(img, w, tile_index, y % 8);
    assert(compile_spec(img, w)[word] == pack8(row));
    assert(tile_pixel_index(w, tile_index, y % 8, x % 8) == y * w + x) by (nonlinear_arith)
        requires
            tile_index / tw == y / 8,
            tile_index % tw == x / 8,
            x == (x / 8) * 8 + x % 8,
            y == (y / 8) * 8 + y % 8,
            tile_pixel_index(w, tile_index, y % 8, x % 8) == ((tile_index / tw) * 8 + y % 8) * w
                + (tile_index % tw) * 8 + x % 8,
            tw == w / 8,
    ;
    assert(0 <= y * w + x < img.len()) by (nonlinear_arith)
        requires
            0 <= x < w,
            0 <= y < h,
            img.len() == w * h,
    ;
    assert(row[x % 8] == img[y * w + x]);
    assert(pixels_ok(row)) by {
        assert forall|c: int| 0 <= c < 8 implies pixel_ok(#[trigger] row[c]) by {
            lemma_tile_pixel_index_bounds(w, h, tile_index, y % 8, c);
        }
    }
    lemma_pack8_nibble(row, x % 8);
}

} // verus!
