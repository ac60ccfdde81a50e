//! Integer helpers shared by the sizing and planning code.

use vstd::arithmetic::power2::{lemma_pow2_adds, lemma_pow2_pos, lemma_pow2_strictly_increases, lemma_pow2_unfold, pow2};
use vstd::prelude::*;

verus! {

/// `n` is one of 1, 2, 4, 8, ...
pub open spec fn is_power_of_two(n: int) -> bool {
    exists|k: nat| n == #[trigger] pow2(k)
}

/// `p` is the smallest power of two that is at least `n`.
pub open spec fn is_next_power_of_two(p: int, n: int) -> bool {
    &&& is_power_of_two(p)
    &&& n <= p
    &&& forall|q: int| #[trigger] is_power_of_two(q) && n <= q ==> p <= q
}

/// The quotient of `a` by `b`, rounded up.
pub open spec fn ceil_div(a: int, b: int) -> int {
    (a + b - 1) / b
}

pub open spec fn max_int(a: int, b: int) -> int {
    if a >= b {
        a
    } else {
        b
    }
}

pub open spec fn min_int(a: int, b: int) -> int {
    if a <= b {
        a
    } else {
        b
    }
}

/// There is at most one smallest power of two above a bound.
pub proof fn next_power_of_two_is_unique(p: int, q: int, n: int)
    requires
        is_next_power_of_two(p, n),
        is_next_power_of_two(q, n),
    ensures
        p == q,
{
}

proof fn lemma_doubling(k: nat, n: int)
    requires
        pow2(k) < n <= pow2(k + 1),
    ensures
        is_next_power_of_two(pow2(k + 1) as int, n),
{
    assert forall|q: int| #[trigger] is_power_of_two(q) && n <= q implies pow2(k + 1) <= q by {
        let j = choose|j: nat| q == #[trigger] pow2(j);
        if j < k + 1 {
            if j < k {
                lemma_pow2_strictly_increases(j, k);
            }
            assert(false);
        }
        if j > k + 1 {
            lemma_pow2_strictly_increases(k + 1, j);
        }
    }
}

/// The smallest power of two that is at least `n`; 1 for 0.
pub fn next_power_of_two(n: u64) -> (p: u64)
    requires
        n <= 0x8000_0000_0000_0000,
    ensures
        is_next_power_of_two(p as int, n as int),
{
    let mut p: u64 = 1;
    let ghost mut k: nat = 0;
    proof {
        vstd::arithmetic::power2::lemma2_to64();
        assert forall|q: int| #[trigger] is_power_of_two(q) implies 1 <= q by {
            let j = choose|j: nat| q == #[trigger] pow2(j);
            lemma_pow2_pos(j);
        }
        assert(1 == pow2(0));
        vstd::arithmetic::power2::lemma2_to64_rest();
    }
    while p < n
        invariant
            n <= 0x8000_0000_0000_0000,
            pow2(63) == 0x8000_0000_0000_0000,
            p == pow2(k),
            k <= 63,
            p < n || is_next_power_of_two(p as int, n as int),
        decreases 63 - k,
    {
        proof {
            if k >= 63 {
                assert(false);
            }
            lemma_pow2_unfold(k + 1);
            lemma_pow2_adds(1, k);
            if k + 1 < 63 {
                lemma_pow2_strictly_increases(k + 1, 63);
            }
            if n <= pow2(k + 1) {
                lemma_doubling(k, n as int);
            }
            k = k + 1;
        }
        p = 2 * p;
    }
    p
}

/// `a / b` rounded up.
pub fn div_ceil(a: u32, b: u32) -> (q: u32)
    requires
        b > 0,
    ensures
        q == ceil_div(a as int, b as int),
        a <= q * b < a + b,
{
    let whole: u32 = a / b;
    let rest: u32 = a % b;
    proof {
        let ai = a as int;
        let bi = b as int;
        vstd::arithmetic::div_mod::lemma_fundamental_div_mod(ai, bi);
        vstd::arithmetic::div_mod::lemma_mod_bound(ai, bi);
        if ai % bi == 0 {
            assert(ai + bi - 1 == bi * (ai / bi) + (bi - 1));
            vstd::arithmetic::div_mod::lemma_fundamental_div_mod_converse(
                ai + bi - 1, bi, ai / bi, bi - 1);
        } else {
            assert(ai + bi - 1 == bi * (ai / bi + 1) + (ai % bi - 1)) by (nonlinear_arith)
                requires
                    ai == bi * (ai / bi) + ai % bi,
            ;
            vstd::arithmetic::div_mod::lemma_fundamental_div_mod_converse(
                ai + bi - 1, bi, ai / bi + 1, ai % bi - 1);
            assert(ai / bi < u32::MAX) by (nonlinear_arith)
                requires
                    bi >= 1, ai == bi * (ai / bi) + ai % bi, ai % bi > 0, ai <= u32::MAX,
            ;
        }
    }
    if rest == 0 {
        whole
    } else {
        whole + 1
    }
}

pub fn max_u32(a: u32, b: u32) -> (m: u32)
    ensures
        m == max_int(a as int, b as int),
        a <= m && b <= m && (m == a || m == b),
{
    if a >= b {
        a
    } else {
        b
    }
}

pub fn min_u32(a: u32, b: u32) -> (m: u32)
    ensures
        m == min_int(a as int, b as int),
        m <= a && m <= b && (m == a || m == b),
{
    if a <= b {
        a
    } else {
        b
    }
}

pub fn max_u64(a: u64, b: u64) -> (m: u64)
    ensures
        m == max_int(a as int, b as int),
        a <= m && b <= m && (m == a || m == b),
{
    if a >= b {
        a
    } else {
        b
    }
}

} // verus!
