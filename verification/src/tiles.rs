//! Binary layout of one 8x8 indexed-color tile at 4 bits per pixel.
//!
//! A tile is 8 32-bit words: word `i` holds pixels `8*i` through `8*i + 7`,
//! with pixel `8*i + k` in bits `4k..4k+4`, so the first pixel of a run is
//! the lowest nibble — the order a little-endian byte view shows.

use vstd::prelude::*;

verus! {

/// Whether `p` fits a 4-bit palette index.
pub open spec fn pixel_ok(p: u8) -> bool {
    p < 16
}

/// Whether every value of `s` fits a 4-bit palette index.
pub open spec fn pixels_ok(s: Seq<u8>) -> bool {
    forall|i: int| 0 <= i < s.len() ==> pixel_ok(#[trigger] s[i])
}

/// One run of 8 pixels packed into a 32-bit word: pixel `k` in bits
/// `4k..4k+4`.
pub open spec fn pack8(p: Seq<u8>) -> u32
    recommends
        p.len() == 8,
{
    (p[0] as u32) | ((p[1] as u32) << 4) | ((p[2] as u32) << 8) | ((p[3] as u32) << 12) | (
    (p[4] as u32) << 16) | ((p[5] as u32) << 20) | ((p[6] as u32) << 24) | ((p[7] as u32) << 28)
}

/// Nibble `j` of word `w`: bits `4j..4j+4`.
pub open spec fn nibble_of(w: u32, j: int) -> u8
    recommends
        0 <= j < 8,
{
    ((w >> ((4 * j) as u32)) & 0xF) as u8
}

/// The packed form of a 64-pixel tile: 8 words, word `i` packing pixels
/// `8i..8i+8`.
pub open spec fn pack_tile_spec(pix: Seq<u8>) -> Seq<u32>
    recommends
        pix.len() == 64,
{
    Seq::new(8, |i: int| pack8(pix.subrange(8 * i, 8 * i + 8)))
}

/// The 64 pixel values stored in 8 packed words: pixel `k` is nibble `k % 8`
/// of word `k / 8`.
pub open spec fn unpack_tile_spec(words: Seq<u32>) -> Seq<u8>
    recommends
        words.len() == 8,
{
    Seq::new(64, |k: int| nibble_of(words[k / 8], k % 8))
}

/// Packing pixels `p0..p7` into one word then reading any nibble back gives
/// the pixel that was put there, provided every pixel fits 4 bits.
proof fn lemma_pack8_word_nibbles(p0: u8, p1: u8, p2: u8, p3: u8, p4: u8, p5: u8, p6: u8, p7: u8)
    by (bit_vector)
    requires
        p0 < 16,
        p1 < 16,
        p2 < 16,
        p3 < 16,
        p4 < 16,
        p5 < 16,
        p6 < 16,
        p7 < 16,
    ensures
        ({
            let w = (p0 as u32) | ((p1 as u32) << 4) | ((p2 as u32) << 8) | ((p3 as u32) << 12) | (
            (p4 as u32) << 16) | ((p5 as u32) << 20) | ((p6 as u32) << 24) | ((p7 as u32) << 28);
            &&& (w >> 0) & 0xF == p0 as u32
            &&& (w >> 4) & 0xF == p1 as u32
            &&& (w >> 8) & 0xF == p2 as u32
            &&& (w >> 12) & 0xF == p3 as u32
            &&& (w >> 16) & 0xF == p4 as u32
            &&& (w >> 20) & 0xF == p5 as u32
            &&& (w >> 24) & 0xF == p6 as u32
            &&& (w >> 28) & 0xF == p7 as u32
        }),
{
}

/// Reading nibble `j` of a packed 8-pixel run gives pixel `j` back.
pub(crate) proof fn lemma_pack8_nibble(p: Seq<u8>, j: int)
    requires
        p.len() == 8,
        pixels_ok(p),
        0 <= j < 8,
    ensures
        nibble_of(pack8(p), j) == p[j],
{
    lemma_pack8_word_nibbles(p[0], p[1], p[2], p[3], p[4], p[5], p[6], p[7]);
}

/// Round trip: unpacking the packed form of any 64 4-bit pixels returns the
/// original pixels.
pub proof fn lemma_pack_unpack_roundtrip(pix: Seq<u8>)
    requires
        pix.len() == 64,
        pixels_ok(pix),
    ensures
        unpack_tile_spec(pack_tile_spec(pix)) == pix,
{
    let packed = pack_tile_spec(pix);
    assert forall|k: int| 0 <= k < 64 implies unpack_tile_spec(packed)[k] == pix[k] by {
        let t = k / 8;
        let j = k % 8;
        let chunk = pix.subrange(8 * t, 8 * t + 8);
        assert(packed[t] == pack8(chunk));
        lemma_pack8_nibble(chunk, j);
        assert(chunk[j] == pix[8 * t + j]);
    }
    assert(unpack_tile_spec(packed) =~= pix);
}

/// Packs 64 pixel values, row-major for an 8x8 tile, into the tile's 8
/// hardware words.
pub fn pack_tile(pixels: &Vec<u8>) -> (r: Vec<u32>)
    requires
        pixels@.len() == 64,
        pixels_ok(pixels@),
    ensures
        r@ == pack_tile_spec(pixels@),
        r@.len() == 8,
{
    let mut out: Vec<u32> = Vec::new();
    let mut i: usize = 0;
    while i < 8
        invariant
            i <= 8,
            pixels@.len() == 64,
            out@.len() == i,
            forall|j: int| 0 <= j < i ==> out@[j] == pack8(pixels@.subrange(8 * j, 8 * j + 8)),
        decreases 8 - i,
    {
        let base = 8 * i;
        let w: u32 = (pixels[base] as u32) | ((pixels[base + 1] as u32) << 4) | ((pixels[base
            + 2] as u32) << 8) | ((pixels[base + 3] as u32) << 12) | ((pixels[base + 4] as u32)
            << 16) | ((pixels[base + 5] as u32) << 20) | ((pixels[base + 6] as u32) << 24) | ((
        pixels[base + 7] as u32) << 28);
        proof {
            let chunk = pixels@.subrange(8 * (i as int), 8 * (i as int) + 8);
            assert(w == pack8(chunk));
        }
        out.push(w);
        i = i + 1;
    }
    proof {
        assert(out@ =~= pack_tile_spec(pixels@));
    }
    out
}

/// The inverse of [`pack_tile`], used to check packed data against its
/// source: reads the 64 pixel values back out of a tile's 8 words.
pub fn unpack_tile(words: &Vec<u32>) -> (r: Vec<u8>)
    requires
        words@.len() == 8,
    ensures
        r@ == unpack_tile_spec(words@),
        r@.len() == 64,
        pixels_ok(r@),
{
    let mut out: Vec<u8> = Vec::new();
    let mut k: usize = 0;
    while k < 64
        invariant
            k <= 64,
            words@.len() == 8,
            out@.len() == k,
            forall|m: int| 0 <= m < k ==> out@[m] == nibble_of(words@[m / 8], m % 8),
            forall|m: int| 0 <= m < k ==> pixel_ok(#[trigger] out@[m]),
        decreases 64 - k,
    {
        let w = words[k / 8];
        let shift: u32 = (4 * (k % 8)) as u32;
        let px: u8 = ((w >> shift) & 0xF) as u8;
        proof {
            lemma_nibble_below_16(w, shift);
            assert(px == nibble_of(words@[k as int / 8], k as int % 8));
        }
        out.push(px);
        k = k + 1;
    }
    proof {
        assert(out@ =~= unpack_tile_spec(words@));
    }
    out
}

/// A masked nibble is below 16.
proof fn lemma_nibble_below_16(w: u32, s: u32)
    by (bit_vector)
    ensures
        (w >> s) & 0xF < 16,
{
}

} // verus!
