//! Double-width integer arithmetic for the share/asset conversion math.
//!
//! The conversions multiply two 128-bit amounts and divide the 256-bit
//! product by a third amount. The product is held as a (high, low) pair of
//! `u128` limbs and divided bit by bit.

use vstd::prelude::*;
use vstd::arithmetic::div_mod::{
    lemma_fundamental_div_mod, lemma_fundamental_div_mod_converse, lemma_div_is_ordered,
    lemma_div_multiples_vanish,
};
use vstd::arithmetic::mul::lemma_mul_is_commutative;
use vstd::arithmetic::power2::{
    pow2, lemma2_to64, lemma2_to64_rest, lemma_pow2_adds, lemma_pow2_pos, lemma_pow2_unfold,
};

verus! {

/// 2^64, the base of the limbs used when multiplying.
pub const BASE64: u128 = 0x1_0000_0000_0000_0000;

/// 2^127, used to peel the top bit off a `u128` without bit operators.
pub const HALF128: u128 = 0x8000_0000_0000_0000_0000_0000_0000_0000;

/// The value represented by a (high, low) pair of 128-bit limbs.
pub open spec fn wide_value(hi: u128, lo: u128) -> int {
    hi * 0x1_0000_0000_0000_0000_0000_0000_0000_0000 + lo
}

/// Concrete values of the powers of two that the division loop leans on.
proof fn lemma_pow2_constants()
    ensures
        pow2(127) == HALF128,
        pow2(128) == 0x1_0000_0000_0000_0000_0000_0000_0000_0000,
{
    lemma2_to64();
    lemma2_to64_rest();
    lemma_pow2_adds(64, 63);
    lemma_pow2_adds(64, 64);
}

/// Full 256-bit product of two `u128` values, as a (high, low) limb pair.
pub fn wide_mul(a: u128, b: u128) -> (r: (u128, u128))
    ensures
        wide_value(r.0, r.1) == a * b,
{
    let ah: u128 = a / BASE64;
    let al: u128 = a % BASE64;
    let bh: u128 = b / BASE64;
    let bl: u128 = b % BASE64;

    proof {
        lemma_fundamental_div_mod(a as int, BASE64 as int);
        lemma_fundamental_div_mod(b as int, BASE64 as int);
        assert(ah < BASE64 && bh < BASE64) by (nonlinear_arith)
            requires
                ah == a / BASE64,
                bh == b / BASE64,
                a <= u128::MAX,
                b <= u128::MAX,
                BASE64 == 0x1_0000_0000_0000_0000,
        ;
    }

    proof {
        assert(al * bl <= (BASE64 - 1) * (BASE64 - 1) && al * bh <= (BASE64 - 1) * (BASE64 - 1)
            && ah * bl <= (BASE64 - 1) * (BASE64 - 1) && ah * bh <= (BASE64 - 1) * (BASE64 - 1))
            by (nonlinear_arith)
            requires
                al < BASE64,
                bl < BASE64,
                ah < BASE64,
                bh < BASE64,
        ;
    }

    let p0: u128 = al * bl;
    let p1: u128 = al * bh;
    let p2: u128 = ah * bl;
    let p3: u128 = ah * bh;

    let p1h: u128 = p1 / BASE64;
    let p1l: u128 = p1 % BASE64;
    let p2h: u128 = p2 / BASE64;
    let p2l: u128 = p2 % BASE64;

    proof {
        lemma_fundamental_div_mod(p1 as int, BASE64 as int);
        lemma_fundamental_div_mod(p2 as int, BASE64 as int);
        assert(p1h < BASE64 && p2h < BASE64) by (nonlinear_arith)
            requires
                p1h == p1 / BASE64,
                p2h == p2 / BASE64,
                p1 <= (BASE64 - 1) * (BASE64 - 1),
                p2 <= (BASE64 - 1) * (BASE64 - 1),
                BASE64 == 0x1_0000_0000_0000_0000,
        ;
    }

    let mid: u128 = p0 / BASE64 + p1l + p2l;
    let lo: u128 = p0 % BASE64 + (mid % BASE64) * BASE64;
    let hi: u128 = p3 + p1h + p2h + mid / BASE64;

    proof {
        lemma_fundamental_div_mod(p0 as int, BASE64 as int);
        lemma_fundamental_div_mod(mid as int, BASE64 as int);
        // The schoolbook identity over the four partial products.
        assert(a * b == p3 * (BASE64 * BASE64) + p1 * BASE64 + p2 * BASE64 + p0)
            by (nonlinear_arith)
            requires
                a == ah * BASE64 + al,
                b == bh * BASE64 + bl,
                p0 == al * bl,
                p1 == al * bh,
                p2 == ah * bl,
                p3 == ah * bh,
        ;
        let b1 = BASE64 as int;
        let b2 = 0x1_0000_0000_0000_0000_0000_0000_0000_0000int;
        assert(b1 * b1 == b2);
        // Regroup the carries into the two output limbs.
        assert(hi * b2 + lo == p3 * b2 + (p1h * b1 + p1l) * b1 + (p2h * b1 + p2l) * b1 + ((p0
            as int / b1) * b1 + p0 as int % b1)) by (nonlinear_arith)
            requires
                hi == p3 + p1h + p2h + mid as int / b1,
                lo == p0 as int % b1 + (mid as int % b1) * b1,
                mid == p0 as int / b1 + p1l + p2l,
                mid == b1 * (mid as int / b1) + mid as int % b1,
                b2 == b1 * b1,
        ;
        assert(p1 == p1h * b1 + p1l && p2 == p2h * b1 + p2l && p0 == (p0 as int / b1) * b1 + p0
            as int % b1) by (nonlinear_arith)
            requires
                p1 == b1 * p1h + p1l,
                p2 == b1 * p2h + p2l,
                p0 == b1 * (p0 as int / b1) + p0 as int % b1,
        ;
        assert(p3 * b2 + p1 * b1 + p2 * b1 + p0 == a * b) by (nonlinear_arith)
            requires
                a * b == p3 * (b1 * b1) + p1 * b1 + p2 * b1 + p0,
                b2 == b1 * b1,
        ;
    }

    (hi, lo)
}

/// Quotient and remainder of a 256-bit value, given as a (high, low) limb
/// pair, by a nonzero 128-bit divisor. Requiring `hi < d` makes the quotient
/// fit in 128 bits.
pub fn wide_div_rem(hi: u128, lo: u128, d: u128) -> (r: (u128, u128))
    requires
        d > 0,
        hi < d,
    ensures
        r.0 == wide_value(hi, lo) / d as int,
        r.1 == wide_value(hi, lo) % d as int,
{
    let mut quotient: u128 = 0;
    let mut rem: u128 = hi;
    let mut rest: u128 = lo;

    proof {
        lemma_pow2_constants();
        lemma2_to64();
    }

    let mut iter: u64 = 0;
    while iter < 128
        invariant
            iter <= 128,
            d > 0,
            rem < d,
            // The unprocessed bits of `lo` sit in `rest`, shifted to the top.
            rest as int % (pow2(iter as nat) as int) == 0,
            // Processed prefix: the whole value splits into the part already
            // divided and the bits still to come.
            wide_value(hi, lo) == (quotient * d + rem) * pow2((128 - iter) as nat) + rest as int / (pow2(iter as nat) as int),
            quotient < pow2(iter as nat),
        decreases 128 - iter,
    {
        proof {
            lemma_pow2_constants();
            lemma_pow2_unfold((128 - iter) as nat);
            lemma_pow2_unfold((iter + 1) as nat);
            lemma_pow2_adds((127 - iter) as nat, iter as nat);
            lemma_pow2_adds((128 - iter) as nat, iter as nat);
            lemma_pow2_pos((127 - iter) as nat);
            lemma_pow2_pos(iter as nat);
        }
        let ghost p_i = pow2(iter as nat) as int;
        let ghost p_top = pow2((127 - iter) as nat) as int;
        let bit: u128 = if rest >= HALF128 {
            1
        } else {
            0
        };
        let ghost old_rest = rest;
        // The unprocessed bits of `lo`, as a plain value.
        let ghost t = old_rest as int / p_i;
        proof {
            lemma_fundamental_div_mod(old_rest as int, p_i);
            assert(old_rest == t * p_i) by (nonlinear_arith)
                requires
                    old_rest == p_i * t + old_rest as int % p_i,
                    old_rest as int % p_i == 0,
            ;
            // The top bit of `rest` is the top bit of `t`.
            assert((old_rest >= HALF128) <==> (t >= p_top)) by (nonlinear_arith)
                requires
                    old_rest == t * p_i,
                    HALF128 == p_top * p_i,
                    p_i >= 1,
                    t >= 0,
            ;
            // `t` has at most 128 - iter bits.
            assert(t < 2 * p_top) by (nonlinear_arith)
                requires
                    old_rest == t * p_i,
                    old_rest < pow2(128),
                    pow2(128) == (2 * p_top) * p_i,
                    p_i >= 1,
                    t >= 0,
            ;
        }
        rest = (rest - bit * HALF128) * 2;
        let ghost t2 = t - bit * p_top;
        proof {
            assert(rest == t2 * (2 * p_i)) by (nonlinear_arith)
                requires
                    rest == (old_rest - bit * HALF128) * 2,
                    old_rest == t * p_i,
                    HALF128 == p_top * p_i,
                    t2 == t - bit * p_top,
            ;
            assert(0 <= t2 < p_top);
            lemma_fundamental_div_mod_converse(rest as int, 2 * p_i, t2, 0);
            assert(rest as int % (pow2((iter + 1) as nat) as int) == 0);
            assert(rest as int / (pow2((iter + 1) as nat) as int) == t2);
        }

        // Append `bit` to the running remainder: rem' = 2 * rem + bit, reduced mod d.
        let ghost old_rem = rem;
        let ghost old_quotient = quotient;
        proof {
            // The quotient so far stays below 2^127, so appending a bit fits.
            assert(old_quotient < HALF128) by (nonlinear_arith)
                requires
                    old_quotient < pow2(iter as nat),
                    HALF128 == p_top * p_i,
                    p_top >= 1,
                    p_i == pow2(iter as nat),
            ;
        }
        let q_bit: u128;
        if rem >= d - rem {
            // 2 * rem >= d, so the doubled remainder wraps past d exactly once.
            q_bit = 1;
            rem = rem - (d - rem) + bit;
        } else if bit == 1 && d - rem == rem + 1 {
            // 2 * rem + 1 == d.
            q_bit = 1;
            rem = 0;
        } else {
            q_bit = 0;
            rem = rem * 2 + bit;
        }
        quotient = quotient * 2 + q_bit;

        proof {
            assert(2 * old_rem + bit == q_bit * d + rem && rem < d) by (nonlinear_arith)
                requires
                    0 <= bit <= 1,
                    0 <= q_bit <= 1,
                    old_rem < d,
                    (old_rem >= d - old_rem) ==> (q_bit == 1 && rem == old_rem - (d - old_rem)
                        + bit),
                    (!(old_rem >= d - old_rem) && bit == 1 && d - old_rem == old_rem + 1) ==> (
                    q_bit == 1 && rem == 0),
                    (!(old_rem >= d - old_rem) && !(bit == 1 && d - old_rem == old_rem + 1)) ==> (
                    q_bit == 0 && rem == old_rem * 2 + bit),
            ;
            assert((old_quotient * d + old_rem) * (2 * p_top) + bit * p_top + t2 == (quotient * d
                + rem) * p_top + t2) by (nonlinear_arith)
                requires
                    quotient == old_quotient * 2 + q_bit,
                    2 * old_rem + bit == q_bit * d + rem,
            ;
            assert(wide_value(hi, lo) == (quotient * d + rem) * pow2((127 - iter) as nat) + t2);
            assert(quotient < pow2((iter + 1) as nat)) by (nonlinear_arith)
                requires
                    quotient == old_quotient * 2 + q_bit,
                    q_bit <= 1,
                    old_quotient < pow2(iter as nat),
                    pow2((iter + 1) as nat) == 2 * pow2(iter as nat),
            ;
        }
        iter = iter + 1;
    }

    proof {
        assert(pow2(0) == 1 && pow2(128) > 0) by {
            lemma2_to64();
            lemma_pow2_pos(128);
        }
        assert(rest == 0) by {
            lemma_fundamental_div_mod(rest as int, pow2(128) as int);
            assert(rest < pow2(128)) by {
                lemma_pow2_constants();
            }
            assert(rest as int % (pow2(128) as int) == rest) by (nonlinear_arith)
                requires
                    0 <= rest < pow2(128),
                    rest == pow2(128) * (rest as int / (pow2(128) as int)) + rest as int % (
                    pow2(128) as int),
                    0 <= rest as int % (pow2(128) as int) < pow2(128),
            ;
        }
        assert(wide_value(hi, lo) == (quotient * d + rem) * 1 + 0);
        lemma_fundamental_div_mod_converse(
            wide_value(hi, lo),
            d as int,
            quotient as int,
            rem as int,
        );
    }

    (quotient, rem)
}

/// `floor(a * b / d)` over the mathematical integers.
pub open spec fn mul_div_spec(a: u128, b: u128, d: u128) -> int {
    (a * b) / d as int
}

/// `floor(a * b / d)`, or `None` when the quotient does not fit in 128 bits.
pub fn mul_div(a: u128, b: u128, d: u128) -> (r: Option<u128>)
    requires
        d > 0,
    ensures
        match r {
            Some(q) => q == mul_div_spec(a, b, d),
            None => mul_div_spec(a, b, d) > u128::MAX,
        },
{
    let (hi, lo) = wide_mul(a, b);
    if hi >= d {
        proof {
            // hi >= d makes the quotient at least 2^128.
            let p = wide_value(hi, lo);
            let t = 0x1_0000_0000_0000_0000_0000_0000_0000_0000int;
            assert(d * t <= hi * t) by (nonlinear_arith)
                requires
                    d <= hi,
                    t > 0,
            ;
            assert(p / d as int >= (d * t) / d as int) by {
                lemma_div_is_ordered(d * t, p, d as int);
            }
            assert((d * t) / d as int == t) by {
                lemma_mul_is_commutative(d as int, t);
                lemma_div_multiples_vanish(t, d as int);
            }
        }
        None
    } else {
        let (q, _r) = wide_div_rem(hi, lo, d);
        Some(q)
    }
}

/// Rounding down never overstates the product: `floor(a * b / d) * d <= a * b`.
pub proof fn lemma_mul_div_le(a: int, b: int, d: int)
    requires
        a >= 0,
        b >= 0,
        d > 0,
    ensures
        ((a * b) / d) * d <= a * b,
        (a * b) / d >= 0,
{
    lemma_fundamental_div_mod(a * b, d);
    assert(a * b >= 0) by (nonlinear_arith)
        requires
            a >= 0,
            b >= 0,
    ;
    assert((a * b) / d >= 0) by (nonlinear_arith)
        requires
            a * b >= 0,
            d > 0,
    ;
    assert(((a * b) / d) * d <= a * b) by (nonlinear_arith)
        requires
            a * b == d * ((a * b) / d) + (a * b) % d,
            (a * b) % d >= 0,
    ;
}

} // verus!
