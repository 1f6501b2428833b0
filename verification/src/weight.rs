//! The per-sample blend weight `1 / sample_index`, encoded as the bit pattern
//! of the IEEE-754 binary32 quotient.
//!
//! The kernel receives the weight as four bytes of push-constant data, so the
//! host only ever needs the bit pattern.  For `1 <= k < 2^32` the quotient
//! `1/k` lies well inside the normal range of binary32, and its
//! round-to-nearest-even encoding is a simple function of integers:
//! with `e = floor(log2(k))`, the significand is `2^(24+e) / k` rounded to
//! nearest (ties to even) and the unbiased exponent is `-(e+1)`, renormalized
//! when the significand rounds up to `2^24`.  This module defines that
//! function and computes it in verified integer arithmetic.

use vstd::prelude::*;
use vstd::arithmetic::power2::{pow2, lemma_pow2_unfold, lemma_pow2_pos, lemma_pow2_adds, lemma_pow2_strictly_increases, lemma2_to64};
use vstd::arithmetic::div_mod::{lemma_div_denominator, lemma_fundamental_div_mod, lemma_div_is_ordered, lemma_div_multiples_vanish, lemma_mod_bound};
use vstd::arithmetic::mul::lemma_mul_inequality;

verus! {

/// The exponent of the binade that holds `k`: the largest `e` with
/// `pow2(e) <= k`.
pub open spec fn floor_log2(k: nat) -> nat
    recommends
        k >= 1,
    decreases k,
{
    if k <= 1 {
        0
    } else {
        floor_log2(k / 2) + 1
    }
}

/// The IEEE-754 binary32 bit pattern of `1/k`, rounded to nearest with ties
/// to even.  The significand of `1/k` scaled into `[2^23, 2^24]` is
/// `2^(24+e) / k` with remainder `r`; rounding adds one when the remainder
/// exceeds half of `k` (or ties toward an even significand), and a
/// significand of exactly `2^24` renormalizes into the next binade.
pub open spec fn f32_recip_bits(k: u32) -> u32
    recommends
        k >= 1,
{
    let e = floor_log2(k as nat);
    let q = pow2(e + 24) / (k as nat);
    let r = pow2(e + 24) % (k as nat);
    let q1 = if 2 * r > k {
        q + 1
    } else if 2 * r == k && q % 2 == 1 {
        q + 1
    } else {
        q
    };
    if q1 == pow2(24) {
        (((127 - e) * pow2(23)) as u32)
    } else {
        (((126 - e) * pow2(23) + q1 - pow2(23)) as u32)
    }
}

/// `floor_log2` is the unique `e` whose binade contains `k`.
proof fn lemma_floor_log2_unique(k: nat, e: nat)
    requires
        pow2(e) <= k,
        k < pow2(e + 1),
    ensures
        floor_log2(k) == e,
    decreases e,
{
    lemma_pow2_unfold(e + 1);
    if e == 0 {
        assert(pow2(0) == 1) by {
            lemma2_to64();
        };
        assert(k == 1);
    } else {
        lemma_pow2_unfold(e);
        lemma_pow2_pos((e - 1) as nat);
        // pow2(e - 1) <= k / 2 < pow2(e)
        assert(pow2((e - 1) as nat) <= k / 2 && k / 2 < pow2(e)) by {
            assert(k >= 2 * pow2((e - 1) as nat));
            assert(k / 2 >= pow2((e - 1) as nat)) by {
                lemma_div_is_ordered(2 * pow2((e - 1) as nat) as int, k as int, 2);
                lemma_div_multiples_vanish(pow2((e - 1) as nat) as int, 2);
            };
            assert(k <= 2 * pow2(e) - 1);
            assert(k / 2 < pow2(e)) by {
                lemma_div_is_ordered(k as int, 2 * pow2(e) - 1, 2);
                assert((2 * pow2(e) - 1) / 2 == pow2(e) - 1) by {
                    lemma_fundamental_div_mod(2 * pow2(e) - 1, 2);
                };
            };
        };
        lemma_floor_log2_unique(k / 2, (e - 1) as nat);
        assert(k >= 2);
    }
}

/// `pow2(e)` as an executable value.
fn pow2_u64(e: u32) -> (r: u64)
    requires
        e < 64,
    ensures
        r == pow2(e as nat),
        r >= 1,
{
    let mut i: u32 = 0;
    let mut r: u64 = 1;
    proof {
        lemma2_to64();
    }
    while i < e
        invariant
            i <= e,
            e < 64,
            r == pow2(i as nat),
        decreases e - i,
    {
        proof {
            lemma_pow2_unfold((i + 1) as nat);
            lemma_pow2_strictly_increases((i + 1) as nat, 64);
            lemma2_to64();
        }
        r = r * 2;
        i = i + 1;
    }
    proof {
        lemma_pow2_pos(e as nat);
    }
    r
}

/// Computes `f32_recip_bits(k)`: the binary32 bit pattern of `1/k`.
pub fn recip_weight_bits(k: u32) -> (r: u32)
    requires
        k >= 1,
    ensures
        r == f32_recip_bits(k),
{
    // Find e = floor_log2(k) by halving.
    let mut e: u32 = 0;
    let mut m: u32 = k;
    proof {
        lemma2_to64();
    }
    while m >= 2
        invariant
            k >= 1,
            e < 32,
            m == k as nat / pow2(e as nat),
            pow2(e as nat) <= k,
        decreases m,
    {
        proof {
            lemma_pow2_unfold((e + 1) as nat);
            lemma_pow2_pos(e as nat);
            // m >= 2 means k >= 2 * pow2(e)
            lemma_fundamental_div_mod(k as int, pow2(e as nat) as int);
            assert(k >= 2 * pow2(e as nat)) by {
                lemma_mul_inequality(2, m as int, pow2(e as nat) as int);
            };
            // k / pow2(e) / 2 == k / pow2(e + 1)
            lemma_div_denominator(k as int, pow2(e as nat) as int, 2);
            if e >= 31 {
                // k >= 2 * pow2(31) == pow2(32), impossible for a u32.
                lemma_pow2_unfold(32);
                lemma2_to64();
                assert(false);
            }
        }
        m = m / 2;
        e = e + 1;
    }
    proof {
        // m == 1, so pow2(e) <= k < pow2(e + 1).
        lemma_pow2_pos(e as nat);
        assert(m >= 1) by {
            lemma_div_is_ordered(pow2(e as nat) as int, k as int, pow2(e as nat) as int);
            lemma_div_by_multiple(1, pow2(e as nat) as int);
        };
        lemma_fundamental_div_mod(k as int, pow2(e as nat) as int);
        lemma_mod_bound(k as int, pow2(e as nat) as int);
        assert(k < pow2((e + 1) as nat)) by {
            lemma_pow2_unfold((e + 1) as nat);
        };
        lemma_floor_log2_unique(k as nat, e as nat);
    }
    let num: u64 = pow2_u64(24 + e);
    let q: u64 = num / (k as u64);
    let rem: u64 = num % (k as u64);
    proof {
        lemma_fundamental_div_mod(num as int, k as int);
        // q <= pow2(24): num / k <= num / pow2(e) == pow2(24)
        lemma_div_denominator_ordered(num as int, k as int, pow2(e as nat) as int);
        lemma_pow2_adds(24, e as nat);
        lemma_div_multiples_vanish(pow2(24) as int, pow2(e as nat) as int);
        lemma2_to64();
        // q >= pow2(23): k < pow2(e + 1) so pow2(23) * k <= num
        assert(pow2(23) * k <= num) by {
            lemma_pow2_unfold((e + 1) as nat);
            lemma_mul_inequality(k as int, 2 * pow2(e as nat) as int, pow2(23) as int);
            lemma_pow2_adds(23, (e + 1) as nat);
            lemma_pow2_adds(23, 1);
            assert(pow2(23) * (2 * pow2(e as nat)) == pow2(24) * pow2(e as nat))
                by (nonlinear_arith)
                requires pow2(23) * 2 == pow2(24);
        };
        assert(q >= pow2(23)) by {
            lemma_div_is_ordered(pow2(23) * k as int, num as int, k as int);
            lemma_div_by_multiple(pow2(23) as int, k as int);
        };
    }
    let round_up: bool = 2 * rem > k as u64 || (2 * rem == k as u64 && q % 2 == 1);
    let q1: u64 = if round_up {
        q + 1
    } else {
        q
    };
    let mantissa_top: u64 = pow2_u64(24);
    proof {
        lemma2_to64();
    }
    if q1 == mantissa_top {
        (127 - e) * 8388608
    } else {
        (126 - e) * 8388608 + (q1 as u32 - 8388608)
    }
}

/// Dividing by a larger positive denominator gives a smaller quotient.
proof fn lemma_div_denominator_ordered(x: int, larger: int, smaller: int)
    requires
        0 < smaller <= larger,
        0 <= x,
    ensures
        x / larger <= x / smaller,
{
    vstd::arithmetic::div_mod::lemma_div_is_ordered_by_denominator(x, smaller, larger);
}

/// Division by a positive multiple: `(a * k) / k == a`.
proof fn lemma_div_by_multiple(a: int, k: int)
    requires
        0 <= a,
        0 < k,
    ensures
        (a * k) / k == a,
{
    lemma_div_multiples_vanish(a, k);
    assert(k * a == a * k) by (nonlinear_arith);
}

} // verus!
