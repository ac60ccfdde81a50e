//! Z-curve (Morton) addressing of the tiles of a bounding box.

use crate::math::{is_next_power_of_two, is_power_of_two, max_int, max_u32, next_power_of_two};
use vstd::arithmetic::power2::pow2;
use vstd::prelude::*;

verus! {

/// Bit `i` of `x`, as 0 or 1.
pub open spec fn bit(x: u32, i: u32) -> u32 {
    (x >> i) & 1u32
}

/// The even bits of `wide` are the low 16 bits of `narrow`, in order.
pub open spec fn even_bits_are(wide: u32, narrow: u32) -> bool {
    forall|i: u32| i < 16 ==> #[trigger] bit(narrow, i) == bit(wide, (i << 1u32))
}

/// Every odd bit of `x` is zero.
pub open spec fn odd_bits_clear(x: u32) -> bool {
    forall|i: u32| i < 16 ==> #[trigger] bit(x, ((i << 1u32) | 1u32)) == 0
}

/// The low 16 bits of `x` moved to the even positions.
pub open spec fn expanded(x: u32) -> u32 {
    let a = x & 0x0000_ffffu32;
    let b = (a ^ (a << 8u32)) & 0x00ff_00ffu32;
    let c = (b ^ (b << 4u32)) & 0x0f0f_0f0fu32;
    let d = (c ^ (c << 2u32)) & 0x3333_3333u32;
    (d ^ (d << 1u32)) & 0x5555_5555u32
}

/// The even bits of `x` gathered into the low 16 positions.
pub open spec fn compacted(x: u32) -> u32 {
    let a = x & 0x5555_5555u32;
    let b = (a ^ (a >> 1u32)) & 0x3333_3333u32;
    let c = (b ^ (b >> 2u32)) & 0x0f0f_0f0fu32;
    let d = (c ^ (c >> 4u32)) & 0x00ff_00ffu32;
    (d ^ (d >> 8u32)) & 0x0000_ffffu32
}

/// The Z-curve index of `(x, y)`.
pub open spec fn encoded(x: u32, y: u32) -> u32 {
    expanded(x) | (expanded(y) << 1u32)
}

proof fn lemma_expanded_bits(x: u32)
    ensures
        even_bits_are(expanded(x), x),
        odd_bits_clear(expanded(x)),
{
    let e = expanded(x);
    assert(forall|i: u32| i < 16 ==> (x >> i) & 1u32 == (e >> (i << 1u32)) & 1u32) by (bit_vector)
        requires
            e == expanded(x),
    ;
    assert(forall|i: u32| i < 16 ==> (e >> ((i << 1u32) | 1u32)) & 1u32 == 0) by (bit_vector)
        requires
            e == expanded(x),
    ;
    assert forall|i: u32| i < 16 implies #[trigger] bit(x, i) == bit(e, (i << 1u32)) by {}
    assert forall|i: u32| i < 16 implies #[trigger] bit(e, ((i << 1u32) | 1u32)) == 0 by {}
}

/// Spreads the low 16 bits of `x` over the even bit positions.
pub fn morton_expand(x: u32) -> (r: u32)
    ensures
        r == expanded(x),
        even_bits_are(r, x),
        odd_bits_clear(r),
{
    proof {
        lemma_expanded_bits(x);
    }
    let a: u32 = x & 0x0000_ffff;
    let b: u32 = (a ^ (a << 8)) & 0x00ff_00ff;
    let c: u32 = (b ^ (b << 4)) & 0x0f0f_0f0f;
    let d: u32 = (c ^ (c << 2)) & 0x3333_3333;
    (d ^ (d << 1)) & 0x5555_5555
}

proof fn lemma_compacted_bits(x: u32)
    ensures
        even_bits_are(x, compacted(x)),
        compacted(x) < 0x1_0000,
{
    let c = compacted(x);
    assert(forall|i: u32| i < 16 ==> (c >> i) & 1u32 == (x >> (i << 1u32)) & 1u32) by (bit_vector)
        requires
            c == compacted(x),
    ;
    assert(c < 0x1_0000) by (bit_vector)
        requires
            c == compacted(x),
    ;
    assert forall|i: u32| i < 16 implies #[trigger] bit(c, i) == bit(x, (i << 1u32)) by {}
}

/// Gathers the even bits of `x` into the low 16 positions.
pub fn morton_compact(x: u32) -> (r: u32)
    ensures
        r == compacted(x),
        even_bits_are(x, r),
        r < 0x1_0000,
{
    proof {
        lemma_compacted_bits(x);
    }
    let a: u32 = x & 0x5555_5555;
    let b: u32 = (a ^ (a >> 1)) & 0x3333_3333;
    let c: u32 = (b ^ (b >> 2)) & 0x0f0f_0f0f;
    let d: u32 = (c ^ (c >> 4)) & 0x00ff_00ff;
    (d ^ (d >> 8)) & 0x0000_ffff
}

/// Encodes (x, y) into a Z-curve (Morton) index: the bits of `x` at the even
/// positions, those of `y` at the odd ones. Only the low 16 bits of each count.
pub fn morton_encode_2d(x: u32, y: u32) -> (z: u32)
    ensures
        z == encoded(x, y),
        even_bits_are(z, x),
        even_bits_are(z >> 1u32, y),
{
    proof {
        lemma_encoded_bits(x, y);
    }
    morton_expand(x) | (morton_expand(y) << 1)
}

proof fn lemma_encoded_bits(x: u32, y: u32)
    ensures
        even_bits_are(encoded(x, y), x),
        even_bits_are(encoded(x, y) >> 1u32, y),
{
    let z = encoded(x, y);
    let w = z >> 1u32;
    assert(forall|i: u32| i < 16 ==> (x >> i) & 1u32 == (z >> (i << 1u32)) & 1u32) by (bit_vector)
        requires
            z == encoded(x, y),
    ;
    assert(forall|i: u32| i < 16 ==> (y >> i) & 1u32 == (w >> (i << 1u32)) & 1u32) by (bit_vector)
        requires
            z == encoded(x, y),
            w == z >> 1u32,
    ;
    assert forall|i: u32| i < 16 implies #[trigger] bit(x, i) == bit(z, (i << 1u32)) by {}
    assert forall|i: u32| i < 16 implies #[trigger] bit(y, i) == bit(w, (i << 1u32)) by {}
}

/// Decodes a Z-curve (Morton) index back to (x, y).
pub fn morton_decode_2d(z: u32) -> (p: (u32, u32))
    ensures
        p.0 == compacted(z),
        p.1 == compacted(z >> 1u32),
        even_bits_are(z, p.0),
        even_bits_are(z >> 1u32, p.1),
{
    (morton_compact(z), morton_compact(z >> 1))
}

/// Compacting undoes expanding, on values that fit in 16 bits.
pub proof fn expand_compact_round_trip(x: u32)
    requires
        x < 0x1_0000,
    ensures
        compacted(expanded(x)) == x,
{
    assert(x < 0x1_0000 ==> compacted(expanded(x)) == x) by (bit_vector);
}

/// Decoding undoes encoding, on coordinates that fit in 16 bits.
pub proof fn encode_decode_round_trip(x: u32, y: u32)
    requires
        x < 0x1_0000,
        y < 0x1_0000,
    ensures
        compacted(encoded(x, y)) == x,
        compacted(encoded(x, y) >> 1u32) == y,
{
    assert(x < 0x1_0000 && y < 0x1_0000 ==> compacted(encoded(x, y)) == x && compacted(
        encoded(x, y) >> 1u32,
    ) == y) by (bit_vector);
}

/// Encoding undoes decoding: every index is the index of what it decodes to.
pub proof fn decode_encode_round_trip(z: u32)
    ensures
        encoded(compacted(z), compacted(z >> 1u32)) == z,
{
    assert(encoded(compacted(z), compacted(z >> 1u32)) == z) by (bit_vector);
}

/// Distinct tiles have distinct indices.
pub proof fn no_collisions(x0: u32, y0: u32, x1: u32, y1: u32)
    requires
        x0 < 0x1_0000,
        y0 < 0x1_0000,
        x1 < 0x1_0000,
        y1 < 0x1_0000,
        encoded(x0, y0) == encoded(x1, y1),
    ensures
        x0 == x1,
        y0 == y1,
{
    encode_decode_round_trip(x0, y0);
    encode_decode_round_trip(x1, y1);
}

proof fn lemma_encoded_bound(x: u32, y: u32, k: u64)
    requires
        k <= 16,
        x < (1u64 << k),
        y < (1u64 << k),
    ensures
        encoded(x, y) < (1u64 << (k << 1u64)),
{
    assert(k <= 16 && (x as u64) < (1u64 << k) && (y as u64) < (1u64 << k) ==> (encoded(x, y) as u64)
        < (1u64 << (k << 1u64))) by (bit_vector);
}

/// Every tile of a `width` by `height` box lies below `dim * dim`, where `dim` is the
/// side that `morton_tile_dim` gives the box.
pub proof fn no_index_overflow(width: u32, height: u32, dim: u32, x: u32, y: u32)
    requires
        width <= 0x1_0000,
        height <= 0x1_0000,
        is_next_power_of_two(dim as int, max_int(width as int, height as int)),
        x < width,
        y < height,
    ensures
        encoded(x, y) < dim * dim,
{
    broadcast use vstd::bits::lemma_u64_shl_is_mul;
    vstd::arithmetic::power2::lemma2_to64();
    let k = choose|k: nat| dim == #[trigger] pow2(k);
    assert(is_power_of_two(0x1_0000)) by {
        assert(pow2(16) == 0x1_0000);
    }
    assert(dim <= 0x1_0000);
    if k > 16 {
        vstd::arithmetic::power2::lemma_pow2_strictly_increases(16, k);
    }
    let k64 = k as u64;
    assert(pow2(k) <= 0x1_0000);
    vstd::bits::lemma_u64_shl_is_mul(1u64, k64);
    assert((1u64 << k64) == dim);
    lemma_encoded_bound(x, y, k64);
    let kk = k64 << 1u64;
    assert(kk == 2 * k64) by (bit_vector)
        requires
            k64 <= 16,
            kk == k64 << 1u64,
    ;
    vstd::arithmetic::power2::lemma_pow2_adds(k, k);
    if kk < 32 {
        vstd::arithmetic::power2::lemma_pow2_strictly_increases(kk as nat, 32);
    }
    vstd::bits::lemma_u64_shl_is_mul(1u64, kk);
    assert((1u64 << kk) == dim * dim);
}

/// Returns the side length of the smallest power-of-two square that fits a
/// `width` by `height` tile bounding box. Returns 0 for empty boxes.
pub fn morton_tile_dim(width: u32, height: u32) -> (dim: u32)
    requires
        width == 0 || height == 0 || (width <= 0x8000_0000 && height <= 0x8000_0000),
    ensures
        (width == 0 || height == 0) ==> dim == 0,
        (width != 0 && height != 0) ==> is_next_power_of_two(
            dim as int,
            max_int(width as int, height as int),
        ),
{
    if width == 0 || height == 0 {
        return 0;
    }
    let d: u32 = max_u32(width, height);
    proof {
        vstd::arithmetic::power2::lemma2_to64();
        assert(pow2(31) == 0x8000_0000);
        assert(is_power_of_two(0x8000_0000));
    }
    let p: u64 = next_power_of_two(d as u64);
    p as u32
}

} // verus!
