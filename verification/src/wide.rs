//! Overflow-safe 256-bit intermediate arithmetic: the widening multiply
//! and narrowing divide that the proportional pricing rule is built on.

use vstd::prelude::*;
use vstd::arithmetic::div_mod::{
    lemma_fundamental_div_mod, lemma_fundamental_div_mod_converse_div, lemma_div_is_ordered,
    lemma_div_multiples_vanish,
};
use vstd::arithmetic::mul::{lemma_mul_inequality, lemma_mul_strict_inequality, lemma_mul_upper_bound};
use vstd::arithmetic::power2::{pow2, lemma_pow2_adds, lemma2_to64};

verus! {

/// 2^64 as a mathematical integer.
pub open spec fn base64() -> int {
    0x1_0000_0000_0000_0000int
}

/// 2^128 as a mathematical integer.
pub open spec fn base128() -> int {
    0x1_0000_0000_0000_0000_0000_0000_0000_0000int
}

/// 2^256 as a mathematical integer.
pub open spec fn base256() -> int {
    0x1_0000_0000_0000_0000_0000_0000_0000_0000_0000_0000_0000_0000_0000_0000_0000_0000int
}

proof fn lemma_pow2_256_value()
    ensures
        pow2(256) == base256(),
        pow2(1) == 2,
{
    lemma2_to64();
    lemma_pow2_adds(64, 64);
    lemma_pow2_adds(128, 128);
    assert(pow2(128) == base128()) by (nonlinear_arith)
        requires
            pow2(128) == pow2(64) * pow2(64),
            pow2(64) == 0x1_0000_0000_0000_0000,
    ;
    assert(pow2(256) == base256()) by (nonlinear_arith)
        requires
            pow2(256) == pow2(128) * pow2(128),
            pow2(128) == base128(),
    ;
}

/// The full 256-bit product of two 128-bit integers, returned as its
/// high and low 128-bit halves.
pub fn mul_wide(a: u128, b: u128) -> (r: (u128, u128))
    ensures
        r.0 * base128() + r.1 == a * b,
{
    let t: u128 = 0x1_0000_0000_0000_0000;
    let a1 = a / t;
    let a0 = a % t;
    let b1 = b / t;
    let b0 = b % t;
    proof {
        lemma_fundamental_div_mod(a as int, t as int);
        lemma_fundamental_div_mod(b as int, t as int);
        assert(a1 < t) by (nonlinear_arith)
            requires
                a1 == a / t,
                a < base128(),
                t == 0x1_0000_0000_0000_0000,
        ;
        assert(b1 < t) by (nonlinear_arith)
            requires
                b1 == b / t,
                b < base128(),
                t == 0x1_0000_0000_0000_0000,
        ;
        lemma_mul_upper_bound(a0 as int, t - 1, b0 as int, t - 1);
        lemma_mul_upper_bound(a0 as int, t - 1, b1 as int, t - 1);
        lemma_mul_upper_bound(a1 as int, t - 1, b0 as int, t - 1);
        lemma_mul_upper_bound(a1 as int, t - 1, b1 as int, t - 1);
    }
    let p00 = a0 * b0;
    let p01 = a0 * b1;
    let p10 = a1 * b0;
    let p11 = a1 * b1;
    let mid = p10 + p00 / t;
    proof {
        lemma_fundamental_div_mod(p00 as int, t as int);
        assert(p00 / t < t) by (nonlinear_arith)
            requires
                p00 <= (t - 1) * (t - 1),
                t == 0x1_0000_0000_0000_0000,
        ;
    }
    let mid2 = p01 + mid % t;
    let lo = (mid2 % t) * t + p00 % t;
    let hi = p11 + mid / t + mid2 / t;
    proof {
        lemma_fundamental_div_mod(mid as int, t as int);
        lemma_fundamental_div_mod(mid2 as int, t as int);
        assert(mid / t <= t && mid2 / t <= t) by (nonlinear_arith)
            requires
                mid <= (t - 1) * (t - 1) + t,
                mid2 <= (t - 1) * (t - 1) + t,
                mid / t * t + mid % t == mid,
                mid2 / t * t + mid2 % t == mid2,
                0 <= mid % t < t,
                0 <= mid2 % t < t,
                t == 0x1_0000_0000_0000_0000,
        ;
        assert(a * b == p11 * base128() + (p01 + p10) * base64() + p00) by (nonlinear_arith)
            requires
                a == t * a1 + a0,
                b == t * b1 + b0,
                p00 == a0 * b0,
                p01 == a0 * b1,
                p10 == a1 * b0,
                p11 == a1 * b1,
                t == 0x1_0000_0000_0000_0000,
        ;
        assert(hi * base128() + lo == a * b) by (nonlinear_arith)
            requires
                a * b == p11 * base128() + (p01 + p10) * base64() + p00,
                hi == p11 + mid / t + mid2 / t,
                lo == (mid2 % t) * t + p00 % t,
                mid == p10 + p00 / t,
                mid2 == p01 + mid % t,
                p00 == t * (p00 / t) + p00 % t,
                mid == t * (mid / t) + mid % t,
                mid2 == t * (mid2 / t) + mid2 % t,
                t == 0x1_0000_0000_0000_0000,
        ;
    }
    (hi, lo)
}

/// The quotient of the 256-bit value `hi * 2^128 + lo` by `d`, when it
/// fits in 128 bits; `None` reports that the true quotient is too large.
pub fn div_wide(hi: u128, lo: u128, d: u128) -> (r: Option<u128>)
    requires
        d > 0,
    ensures
        match r {
            Some(q) => q == (hi * base128() + lo) / (d as int),
            None => (hi * base128() + lo) / (d as int) > u128::MAX,
        },
{
    proof {
        lemma_pow2_256_value();
    }
    if hi >= d {
        proof {
            let p = hi * base128() + lo;
            lemma_mul_inequality(d as int, hi as int, base128());
            lemma_div_multiples_vanish(base128(), d as int);
            lemma_div_is_ordered(d * base128(), p, d as int);
            assert(d * base128() == base128() * (d as int)) by (nonlinear_arith);
        }
        return None;
    }
    let top: u128 = 0x8000_0000_0000_0000_0000_0000_0000_0000;
    let mut q: u128 = 0;
    let mut rem: u128 = 0;
    let mut dhi = hi;
    let mut dlo = lo;
    let mut k: usize = 0;
    proof {
        lemma2_to64();
        assert((hi * base128() + lo) * pow2(0) == (0 * d + 0) * base256() + hi * base128() + lo)
            by (nonlinear_arith)
            requires
                pow2(0) == 1,
        ;
    }
    while k < 256
        invariant
            0 < d,
            hi < d,
            k <= 256,
            rem < d,
            top == 0x8000_0000_0000_0000_0000_0000_0000_0000u128,
            (hi * base128() + lo) * pow2(k as nat) == (q * d + rem) * base256() + dhi * base128()
                + dlo,
        decreases 256 - k,
    {
        let ghost q0 = q as int;
        let ghost rem0 = rem as int;
        let ghost v0 = dhi * base128() + dlo;
        let ghost p = hi * base128() + lo;
        let bit: u128 = if dhi >= top {
            dhi = dhi - top;
            1
        } else {
            0
        };
        let mid: u128 = if dlo >= top {
            dlo = dlo - top;
            1
        } else {
            0
        };
        dhi = dhi * 2 + mid;
        dlo = dlo * 2;
        proof {
            assert(dhi * base128() + dlo == 2 * v0 - bit * base256());
        }
        let qbit: u128;
        if rem >= top {
            let rr = (rem - top) * 2 + bit;
            rem = rr + (u128::MAX - d) + 1;
            qbit = 1;
        } else {
            let rr = rem * 2 + bit;
            if rr >= d {
                rem = rr - d;
                qbit = 1;
            } else {
                rem = rr;
                qbit = 0;
            }
        }
        proof {
            lemma_pow2_256_value();
            lemma_pow2_adds(k as nat, 1);
            let a0 = q0 * d + rem0;
            let a1 = 2 * a0 + bit;
            assert((2 * q0 + qbit) * d + rem == a1) by (nonlinear_arith)
                requires
                    a1 == 2 * (q0 * d + rem0) + bit,
                    rem == 2 * rem0 + bit - qbit * d,
            ;
            assert(p * pow2((k + 1) as nat) == 2 * (p * pow2(k as nat))) by (nonlinear_arith)
                requires
                    pow2((k + 1) as nat) == pow2(k as nat) * pow2(1),
                    pow2(1) == 2,
            ;
            assert(p * pow2((k + 1) as nat) == a1 * base256() + dhi * base128() + dlo);
            // the next quotient still fits in 128 bits
            assert(p < d * base128());
            assert(a1 * base256() <= p * pow2((k + 1) as nat));
            vstd::arithmetic::power2::lemma_pow2_pos((k + 1) as nat);
            lemma_mul_strict_inequality(p, d * base128(), pow2((k + 1) as nat) as int);
            if k + 1 < 256 {
                vstd::arithmetic::power2::lemma_pow2_strictly_increases((k + 1) as nat, 256);
            }
            assert((d * base128()) * pow2((k + 1) as nat) <= (d * base128()) * base256()) by {
                lemma_mul_inequality(pow2((k + 1) as nat) as int, base256(), d * base128());
                assert(pow2((k + 1) as nat) * (d * base128()) == (d * base128()) * pow2(
                    (k + 1) as nat,
                )) by (nonlinear_arith);
                assert(base256() * (d * base128()) == (d * base128()) * base256())
                    by (nonlinear_arith);
            }
            if 2 * q0 + qbit > u128::MAX {
                assert(base128() <= 2 * q0 + qbit);
                assert(base128() * d <= (2 * q0 + qbit) * d) by {
                    lemma_mul_inequality(base128(), 2 * q0 + qbit, d as int);
                }
                assert((2 * q0 + qbit) * d <= a1);
                lemma_mul_inequality(base128() * d, a1, base256());
                assert((base128() * d) * base256() == (d * base128()) * base256())
                    by (nonlinear_arith);
                assert((d * base128()) * base256() <= a1 * base256());
                assert(false);
            }
        }
        q = q * 2 + qbit;
        k = k + 1;
    }
    proof {
        lemma_pow2_256_value();
        let p = hi * base128() + lo;
        let a = q * d + rem;
        let v = dhi * base128() + dlo;
        assert(p * base256() == a * base256() + v);
        assert((p - a) * base256() == v) by (nonlinear_arith)
            requires
                p * base256() == a * base256() + v,
        ;
        assert(0 <= v < base256());
        if p > a {
            assert((p - a) * base256() >= 1 * base256()) by (nonlinear_arith)
                requires
                    p - a >= 1,
            ;
            assert(false);
        }
        if p < a {
            assert((p - a) * base256() <= (-1) * base256()) by (nonlinear_arith)
                requires
                    p - a <= -1,
            ;
            assert(false);
        }
        lemma_fundamental_div_mod_converse_div(p, d as int, q as int, rem as int);
    }
    Some(q)
}

} // verus!
