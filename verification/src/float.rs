//! Comparison of 32-bit and 64-bit floats by their bit patterns.

use vstd::arithmetic::power2::{lemma2_to64, lemma_pow2_adds, lemma_pow2_pos, lemma_pow2_strictly_increases, pow2};
use vstd::prelude::*;

verus! {

/// The pattern of the number 1.
pub const ONE_BITS: u32 = 0x3f80_0000;

/// The pattern of the number 16.
pub const SIXTEEN_BITS: u32 = 0x4180_0000;

/// `bits` is one of the patterns that stand for "not a number".
pub open spec fn is_nan(bits: u32) -> bool {
    (bits & 0x7fff_ffff) > 0x7f80_0000
}

/// The same pattern, or "not a number" on both sides.
pub open spec fn same_number(a: u32, b: u32) -> bool {
    a == b || (is_nan(a) && is_nan(b))
}

/// The place of a number among all numbers: patterns of larger numbers have larger
/// places, and the two zeros share one.
pub open spec fn place(bits: u32) -> int {
    if bits >= 0x8000_0000 {
        -((bits & 0x7fff_ffff) as int)
    } else {
        (bits & 0x7fff_ffff) as int
    }
}

/// The numbers are equal. "Not a number" equals nothing.
pub open spec fn equal(a: u32, b: u32) -> bool {
    !is_nan(a) && !is_nan(b) && place(a) == place(b)
}

/// The first number is larger. "Not a number" is larger than nothing.
pub open spec fn greater(a: u32, b: u32) -> bool {
    !is_nan(a) && !is_nan(b) && place(a) > place(b)
}

fn nan(bits: u32) -> (b: bool)
    ensures
        b == is_nan(bits),
{
    (bits & 0x7fff_ffff) > 0x7f80_0000
}

fn place_of(bits: u32) -> (p: i64)
    ensures
        p == place(bits),
{
    let magnitude: u32 = bits & 0x7fff_ffff;
    if bits >= 0x8000_0000 {
        -(magnitude as i64)
    } else {
        magnitude as i64
    }
}

/// Whether two numbers are equal.
pub fn float_eq(a: u32, b: u32) -> (r: bool)
    ensures
        r == equal(a, b),
{
    !nan(a) && !nan(b) && place_of(a) == place_of(b)
}

/// Whether the first number is the larger one.
pub fn float_gt(a: u32, b: u32) -> (r: bool)
    ensures
        r == greater(a, b),
{
    !nan(a) && !nan(b) && place_of(a) > place_of(b)
}

/// The pattern of a positive number divided by two to the power `n`: the exponent is lowered by
/// `n`, and infinity stays as it is. The quotient has to be large enough for a full fraction.
pub open spec fn lowered(bits: u32, n: u32) -> u32 {
    if bits >= 0x7f80_0000 {
        bits
    } else {
        (bits - n * 0x80_0000) as u32
    }
}

/// Divides a positive number by two to the power `n`.
pub fn divide_by_power(bits: u32, n: u32) -> (r: u32)
    requires
        n < 0xff,
        (n + 1) * 0x80_0000 <= bits <= 0x7f80_0000,
    ensures
        r == lowered(bits, n),
{
    if bits >= 0x7f80_0000 {
        bits
    } else {
        bits - n * 0x80_0000
    }
}

/// The place of a 64-bit number among all numbers.
pub open spec fn place64(bits: u64) -> int {
    if bits >= 0x8000_0000_0000_0000 {
        -((bits & 0x7fff_ffff_ffff_ffff) as int)
    } else {
        (bits & 0x7fff_ffff_ffff_ffff) as int
    }
}

/// The place of a 64-bit number, by which it can be ordered as an integer.
pub fn float64_place(bits: u64) -> (p: i64)
    ensures
        p == place64(bits),
{
    let magnitude: u64 = bits & 0x7fff_ffff_ffff_ffff;
    assert(magnitude <= 0x7fff_ffff_ffff_ffff) by (bit_vector)
        requires
            magnitude == bits & 0x7fff_ffff_ffff_ffff,
    ;
    if bits >= 0x8000_0000_0000_0000 {
        -(magnitude as i64)
    } else {
        magnitude as i64
    }
}

/// The pattern that stands at a place; zero has the positive pattern.
pub fn float64_at(place: i64) -> (bits: u64)
    requires
        place > i64::MIN,
    ensures
        place64(bits) == place,
{
    if place < 0 {
        let magnitude: u64 = (-place) as u64;
        let bits: u64 = magnitude | 0x8000_0000_0000_0000;
        assert(bits >= 0x8000_0000_0000_0000 && (bits & 0x7fff_ffff_ffff_ffff) == magnitude) by (bit_vector)
            requires
                bits == magnitude | 0x8000_0000_0000_0000,
                magnitude <= 0x7fff_ffff_ffff_ffff,
        ;
        bits
    } else {
        let bits: u64 = place as u64;
        assert(bits & 0x7fff_ffff_ffff_ffff == bits) by (bit_vector)
            requires
                bits <= 0x7fff_ffff_ffff_ffff,
        ;
        bits
    }
}

/// The exponent field of a pattern.
pub open spec fn exponent(bits: u32) -> u32 {
    (bits & 0x7fff_ffff) / 0x80_0000
}

/// The significand of a pattern: its fraction, with the leading one that numbers with a positive
/// exponent field have.
pub open spec fn significand(bits: u32) -> int {
    let fraction = ((bits & 0x7fff_ffff) % 0x80_0000) as int;
    if exponent(bits) == 0 {
        fraction
    } else {
        fraction + 0x80_0000
    }
}

/// The power of two by which the significand of a pattern is scaled, in units of the smallest
/// positive number, which is two to the power -149.
pub open spec fn scale(bits: u32) -> int {
    if exponent(bits) == 0 {
        0
    } else {
        exponent(bits) - 1
    }
}

/// The number that a finite pattern stands for, in units of the smallest positive number.
pub open spec fn units(bits: u32) -> int {
    let magnitude = significand(bits) * pow2(scale(bits) as nat);
    if bits >= 0x8000_0000 {
        -magnitude
    } else {
        magnitude
    }
}

/// `bits` stands for a number, and not for infinity or "not a number".
pub open spec fn is_finite(bits: u32) -> bool {
    exponent(bits) < 0xff
}

/// The largest difference, in units, that rounds to no more than two to the power -23, the distance
/// from one to the next larger number. The difference itself may exceed that by half of the
/// distance to its own next larger number.
pub open spec fn tolerance() -> int {
    (pow2(126) + pow2(102)) as int
}

pub open spec fn distance(a: int, b: int) -> int {
    if a >= b {
        a - b
    } else {
        b - a
    }
}

/// The rounded difference of two numbers is at most two to the power -23. Infinity and "not a
/// number" are near to nothing.
pub open spec fn near(a: u32, b: u32) -> bool {
    is_finite(a) && is_finite(b) && distance(units(a), units(b)) <= tolerance()
}

/// Two to the power `n`.
fn power(n: u32) -> (p: u128)
    requires
        n <= 127,
    ensures
        p == pow2(n as nat),
{
    let mut p: u128 = 1;
    let mut i: u32 = 0;
    proof {
        lemma2_to64();
    }
    while i < n
        invariant
            i <= n <= 127,
            p == pow2(i as nat),
        decreases n - i,
    {
        proof {
            vstd::arithmetic::power2::lemma_pow2_unfold((i + 1) as nat);
            lemma_pow2_below(i as nat, 127);
            lemma_pow2_values();
        }
        p = p * 2;
        i = i + 1;
    }
    p
}

proof fn lemma_pow2_below(a: nat, b: nat)
    requires
        a < b,
    ensures
        pow2(a) < pow2(b),
        2 * pow2(a) <= pow2(b),
{
    lemma_pow2_strictly_increases(a, b);
    vstd::arithmetic::power2::lemma_pow2_unfold(a + 1);
    if a + 1 < b {
        lemma_pow2_strictly_increases(a + 1, b);
    }
}

proof fn lemma_pow2_values()
    ensures
        pow2(0) == 1,
        pow2(23) == 0x80_0000,
        pow2(24) == 0x100_0000,
        pow2(25) == 0x200_0000,
        pow2(101) == 0x20_0000_0000_0000_0000_0000_0000,
        pow2(102) == 0x40_0000_0000_0000_0000_0000_0000,
        pow2(103) == 0x80_0000_0000_0000_0000_0000_0000,
        pow2(104) == 0x100_0000_0000_0000_0000_0000_0000,
        pow2(126) == 0x4000_0000_0000_0000_0000_0000_0000_0000,
        pow2(127) == 0x8000_0000_0000_0000_0000_0000_0000_0000,
{
    lemma2_to64();
    vstd::arithmetic::power2::lemma2_to64_rest();
    lemma_pow2_adds(64, 37);
    lemma_pow2_adds(64, 38);
    lemma_pow2_adds(64, 39);
    lemma_pow2_adds(64, 40);
    lemma_pow2_adds(64, 62);
    lemma_pow2_adds(64, 63);
}

/// The significand of a pattern and the power of two that scales it.
fn parts(bits: u32) -> (p: (u128, u32))
    requires
        is_finite(bits),
    ensures
        p.0 == significand(bits),
        p.1 == scale(bits),
        p.0 < 0x100_0000,
        p.1 > 0 ==> p.0 >= 0x80_0000,
        p.1 <= 253,
{
    let magnitude: u32 = bits & 0x7fff_ffff;
    let exponent: u32 = magnitude / 0x80_0000;
    let fraction: u32 = magnitude % 0x80_0000;
    if exponent == 0 {
        (fraction as u128, 0)
    } else {
        (fraction as u128 + 0x80_0000, exponent - 1)
    }
}

proof fn lemma_scaled_bounds(m: int, s: nat)
    requires
        0 <= m < 0x100_0000,
    ensures
        0 <= m * pow2(s),
        s <= 103 ==> m * pow2(s) <= 0xff_ffff * pow2(103),
        (m >= 0x80_0000 && s >= 104) ==> m * pow2(s) > tolerance(),
{
    lemma_pow2_values();
    lemma_pow2_pos(s);
    assert(0 <= m * pow2(s)) by (nonlinear_arith)
        requires
            0 <= m,
            0 < pow2(s),
    ;
    if s <= 103 {
        if s < 103 {
            lemma_pow2_below(s, 103);
        }
        assert(m * pow2(s) <= 0xff_ffff * pow2(103)) by (nonlinear_arith)
            requires
                0 <= m <= 0xff_ffff,
                0 < pow2(s) <= pow2(103),
        ;
    }
    if m >= 0x80_0000 && s >= 104 {
        if s > 104 {
            lemma_pow2_below(104, s);
        }
        assert(m * pow2(s) >= 0x80_0000 * pow2(104)) by (nonlinear_arith)
            requires
                m >= 0x80_0000,
                pow2(s) >= pow2(104),
        ;
    }
}

/// Of two magnitudes whose scales are three or more apart, the larger one is out of reach.
proof fn lemma_far_scales(m1: int, s1: nat, m2: int, s2: nat)
    requires
        0x80_0000 <= m1 < 0x100_0000,
        0 <= m2 < 0x100_0000,
        s1 >= 104,
        s1 >= s2 + 3,
    ensures
        m1 * pow2(s1) - m2 * pow2(s2) > tolerance(),
{
    lemma_pow2_values();
    let low = (s1 - 3) as nat;
    lemma_pow2_adds(low, 3);
    lemma2_to64();
    lemma_pow2_pos(s2);
    if s2 < low {
        lemma_pow2_below(s2, low);
    }
    if low > 101 {
        lemma_pow2_below(101, low);
    }
    let p = pow2(low) as int;
    assert(m1 * pow2(s1) == 8 * m1 * p) by (nonlinear_arith)
        requires
            pow2(s1) == p * 8,
    ;
    assert(m2 * pow2(s2) <= 0xff_ffff * p) by (nonlinear_arith)
        requires
            0 <= m2 <= 0xff_ffff,
            0 < pow2(s2) <= p,
    ;
    assert(8 * m1 * p >= 0x400_0000 * p) by (nonlinear_arith)
        requires
            m1 >= 0x80_0000,
            p > 0,
    ;
}

/// A difference at a scale of at least 101, compared to the tolerance at a scale of 101.
proof fn lemma_rescaled(x: int, base: nat)
    requires
        0 <= x,
        101 <= base,
    ensures
        x * pow2(base) <= tolerance() <==> x * pow2((base - 101) as nat) <= 0x200_0002,
{
    lemma_pow2_values();
    lemma_pow2_adds((base - 101) as nat, 101);
    let q = pow2((base - 101) as nat) as int;
    let u = pow2(101) as int;
    assert(tolerance() == 0x200_0002 * u);
    assert(x * pow2(base) == (x * q) * u) by (nonlinear_arith)
        requires
            pow2(base) == q * u,
    ;
    let y = x * q;
    assert(y * u <= 0x200_0002 * u <==> y <= 0x200_0002) by (nonlinear_arith)
        requires
            u > 0,
    ;
}

/// The difference of two magnitudes, at their common smaller scale.
proof fn lemma_common_scale(m1: int, s1: nat, m2: int, s2: nat, base: nat)
    requires
        base <= s1,
        base <= s2,
    ensures
        distance(m1 * pow2(s1), m2 * pow2(s2)) == distance(
            m1 * pow2((s1 - base) as nat),
            m2 * pow2((s2 - base) as nat),
        ) * pow2(base),
{
    lemma_pow2_adds((s1 - base) as nat, base);
    lemma_pow2_adds((s2 - base) as nat, base);
    lemma_pow2_pos(base);
    let p = pow2(base) as int;
    let a = m1 * pow2((s1 - base) as nat);
    let b = m2 * pow2((s2 - base) as nat);
    assert(m1 * pow2(s1) == a * p) by (nonlinear_arith)
        requires
            pow2(s1) == pow2((s1 - base) as nat) * p,
            a == m1 * pow2((s1 - base) as nat),
    ;
    assert(m2 * pow2(s2) == b * p) by (nonlinear_arith)
        requires
            pow2(s2) == pow2((s2 - base) as nat) * p,
            b == m2 * pow2((s2 - base) as nat),
    ;
    assert(a >= b <==> a * p >= b * p) by (nonlinear_arith)
        requires
            p > 0,
    ;
    assert((a - b) * p == a * p - b * p && (b - a) * p == b * p - a * p) by (nonlinear_arith);
}

/// Whether two magnitudes are within the tolerance of each other.
fn magnitudes_near(m1: u128, s1: u32, m2: u128, s2: u32) -> (b: bool)
    requires
        m1 < 0x100_0000,
        m2 < 0x100_0000,
        s1 > 0 ==> m1 >= 0x80_0000,
        s2 > 0 ==> m2 >= 0x80_0000,
        s1 <= 253,
        s2 <= 253,
    ensures
        b == (distance(m1 * pow2(s1 as nat), m2 * pow2(s2 as nat)) <= tolerance()),
{
    proof {
        lemma_scaled_bounds(m1 as int, s1 as nat);
        lemma_scaled_bounds(m2 as int, s2 as nat);
        lemma_pow2_values();
    }
    if s1 <= 103 && s2 <= 103 {
        let a: u128 = m1 * power(s1);
        let b: u128 = m2 * power(s2);
        let d: u128 = if a >= b {
            a - b
        } else {
            b - a
        };
        return d <= 0x4000_0040_0000_0000_0000_0000_0000_0000;
    }
    if s1 >= s2 + 3 {
        proof {
            lemma_far_scales(m1 as int, s1 as nat, m2 as int, s2 as nat);
        }
        return false;
    }
    if s2 >= s1 + 3 {
        proof {
            lemma_far_scales(m2 as int, s2 as nat, m1 as int, s1 as nat);
        }
        return false;
    }
    let base: u32 = if s1 < s2 {
        s1
    } else {
        s2
    };
    proof {
        lemma_common_scale(m1 as int, s1 as nat, m2 as int, s2 as nat, base as nat);
        lemma2_to64();
    }
    let up1: u128 = power(s1 - base);
    let up2: u128 = power(s2 - base);
    assert(up1 <= 4 && up2 <= 4);
    assert(m1 * up1 <= 0x400_0000) by (nonlinear_arith)
        requires
            m1 < 0x100_0000,
            up1 <= 4,
    ;
    assert(m2 * up2 <= 0x400_0000) by (nonlinear_arith)
        requires
            m2 < 0x100_0000,
            up2 <= 4,
    ;
    let a: u128 = m1 * up1;
    let b: u128 = m2 * up2;
    let x: u128 = if a >= b {
        a - b
    } else {
        b - a
    };
    proof {
        lemma_rescaled(x as int, base as nat);
    }
    if base > 127 {
        proof {
            let q = pow2((base - 101) as nat);
            lemma_pow2_below(26, (base - 101) as nat);
            lemma2_to64();
            assert(x >= 1 ==> x * q > 0x200_0002) by (nonlinear_arith)
                requires
                    q > 0x400_0000,
            ;
            assert(x == 0 ==> x * q == 0) by (nonlinear_arith);
        }
        return x == 0;
    }
    let q: u128 = power(base - 101);
    proof {
        if base - 101 < 26 {
            lemma_pow2_below((base - 101) as nat, 26);
        }
    }
    assert(x * q <= 0x400_0000 * 0x400_0000) by (nonlinear_arith)
        requires
            x <= 0x400_0000,
            q <= 0x400_0000,
    ;
    x * q <= 0x200_0002
}

/// Whether the rounded difference of two numbers is at most two to the power -23.
pub fn float_near(a: u32, b: u32) -> (r: bool)
    ensures
        r == near(a, b),
{
    if (a & 0x7fff_ffff) / 0x80_0000 >= 0xff || (b & 0x7fff_ffff) / 0x80_0000 >= 0xff {
        return false;
    }
    let (m1, s1) = parts(a);
    let (m2, s2) = parts(b);
    if (a >= 0x8000_0000) == (b >= 0x8000_0000) {
        return magnitudes_near(m1, s1, m2, s2);
    }
    // The signs differ, so the magnitudes add up.
    proof {
        lemma_scaled_bounds(m1 as int, s1 as nat);
        lemma_scaled_bounds(m2 as int, s2 as nat);
        lemma_pow2_values();
    }
    if s1 > 103 || s2 > 103 {
        return false;
    }
    let x: u128 = m1 * power(s1);
    let y: u128 = m2 * power(s2);
    x + y <= 0x4000_0040_0000_0000_0000_0000_0000_0000
}

/// A finite number is near to itself, and nearness does not depend on the order.
pub proof fn near_is_reflexive_and_symmetric(a: u32, b: u32)
    ensures
        is_finite(a) ==> near(a, a),
        near(a, b) == near(b, a),
{
    lemma_pow2_values();
}

} // verus!
