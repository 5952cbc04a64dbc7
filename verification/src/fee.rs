//! Fee fractions and the two-tier (self/partner) fee split.

use vstd::prelude::*;
use vstd::arithmetic::div_mod::{
    lemma_fundamental_div_mod, lemma_div_is_ordered, lemma_div_multiples_vanish,
};
use vstd::arithmetic::mul::lemma_mul_is_commutative;
use crate::wide_math::{mul_div, lemma_mul_div_le};

verus! {

/// A fee fraction. It is valid when `0 < numerator < denominator`.
#[derive(Clone, Copy, Debug, PartialEq, Eq, Structural)]
pub struct Fee {
    pub numerator: u64,
    pub denominator: u64,
}

impl Fee {
    /// The validity demanded of every fee the pool stores.
    pub open spec fn valid(self) -> bool {
        0 < self.numerator < self.denominator
    }

    /// `floor(value * numerator / denominator)`.
    pub open spec fn spec_multiply(self, value: u128) -> int {
        (self.numerator * value) / self.denominator as int
    }

    pub fn is_valid(&self) -> (r: bool)
        ensures
            r == self.valid(),
    {
        self.denominator != 0 && self.numerator != 0 && self.numerator < self.denominator
    }

    /// The fee's share of `value`, rounded down.
    pub fn multiply(&self, value: u128) -> (r: u128)
        requires
            self.valid(),
        ensures
            r == self.spec_multiply(value),
            r <= value,
    {
        proof {
            lemma_fee_multiply_le(*self, value);
        }
        match mul_div(self.numerator as u128, value, self.denominator as u128) {
            Some(r) => r,
            None => {
                // Unreachable: a valid fee keeps the product below the divisor times `value`.
                proof {
                    assert(false);
                }
                0
            },
        }
    }
}

/// A valid fee never returns more than its input.
pub proof fn lemma_fee_multiply_le(fee: Fee, value: u128)
    requires
        fee.valid(),
    ensures
        0 <= fee.spec_multiply(value) <= value,
{
    let n = fee.numerator as int;
    let d = fee.denominator as int;
    let v = value as int;
    lemma_mul_div_le(n, v, d);
    assert(n * v <= d * v) by (nonlinear_arith)
        requires
            0 < n < d,
            v >= 0,
    ;
    lemma_div_is_ordered(n * v, d * v, d);
    lemma_div_multiples_vanish(v, d);
}

/// A fee taken from an amount, an optional partner fee then taken from the
/// first fee's own cut.
#[derive(Clone, Copy, Debug, PartialEq, Eq, Structural)]
pub struct SharedFee {
    /// Fee taken from the amount itself.
    pub self_fee: Fee,
    /// Fee taken from `self_fee`'s cut.
    pub partner_fee: Option<Fee>,
}

impl SharedFee {
    pub open spec fn valid(self) -> bool {
        &&& self.self_fee.valid()
        &&& match self.partner_fee {
            Some(f) => f.valid(),
            None => true,
        }
    }

    /// The whole cut taken from `amount` before it is split with the partner.
    pub open spec fn spec_raw_cut(self, amount: u128) -> int {
        self.self_fee.spec_multiply(amount)
    }

    /// The partner's part: a fee on the raw cut, zero when the raw cut is zero.
    pub open spec fn spec_partner_cut(self, amount: u128) -> int {
        if self.spec_raw_cut(amount) == 0 {
            0
        } else {
            match self.partner_fee {
                Some(f) => f.spec_multiply((self.spec_raw_cut(amount)) as u128),
                None => 0,
            }
        }
    }

    /// What stays with the pool's own receiver: the raw cut less the partner's part.
    pub open spec fn spec_self_cut(self, amount: u128) -> int {
        self.spec_raw_cut(amount) - self.spec_partner_cut(amount)
    }

    /// Splits the fee on `amount` into the pool's own cut and the partner's cut.
    pub fn split(&self, amount: u128) -> (r: (u128, u128))
        requires
            self.valid(),
        ensures
            r.0 == self.spec_self_cut(amount),
            r.1 == self.spec_partner_cut(amount),
            r.0 + r.1 == self.spec_raw_cut(amount) <= amount,
    {
        proof {
            lemma_shared_fee_monotone(*self, amount);
        }
        let raw = self.self_fee.multiply(amount);
        if raw == 0 {
            (0, 0)
        } else {
            match self.partner_fee {
                Some(partner) => {
                    let partner_cut = partner.multiply(raw);
                    (raw - partner_cut, partner_cut)
                },
                None => (raw, 0),
            }
        }
    }
}

/// The fee never exceeds the amount it is taken from, and the two cuts
/// together are exactly the raw cut.
pub proof fn lemma_shared_fee_monotone(fee: SharedFee, amount: u128)
    requires
        fee.valid(),
    ensures
        0 <= fee.spec_partner_cut(amount),
        fee.spec_partner_cut(amount) <= fee.spec_raw_cut(amount),
        fee.spec_self_cut(amount) + fee.spec_partner_cut(amount) == fee.spec_raw_cut(amount),
        fee.spec_raw_cut(amount) <= amount,
{
    lemma_fee_multiply_le(fee.self_fee, amount);
    let raw = fee.spec_raw_cut(amount);
    if raw != 0 {
        match fee.partner_fee {
            Some(f) => {
                lemma_fee_multiply_le(f, raw as u128);
            },
            None => {},
        }
    }
}

/// When the partner keeps at most half of the raw cut, the partner's cut
/// never exceeds the pool's own cut.
pub proof fn lemma_partner_cut_at_most_self_cut(fee: SharedFee, amount: u128)
    requires
        fee.valid(),
        match fee.partner_fee {
            Some(f) => 2 * f.numerator <= f.denominator,
            None => true,
        },
    ensures
        fee.spec_partner_cut(amount) <= fee.spec_self_cut(amount),
{
    lemma_shared_fee_monotone(fee, amount);
    let raw = fee.spec_raw_cut(amount);
    if raw != 0 {
        match fee.partner_fee {
            Some(f) => {
                let n = f.numerator as int;
                let d = f.denominator as int;
                let p = fee.spec_partner_cut(amount);
                lemma_mul_div_le(n, raw, d);
                assert(p * d <= n * raw) by {
                    assert(p == (n * raw) / d);
                }
                assert(2 * (n * raw) <= d * raw) by (nonlinear_arith)
                    requires
                        2 * n <= d,
                        raw >= 0,
                ;
                assert(2 * p <= raw) by (nonlinear_arith)
                    requires
                        p * d <= n * raw,
                        2 * (n * raw) <= d * raw,
                        d > 0,
                ;
            },
            None => {},
        }
    }
}

/// The pool's two optional fees.
#[derive(Clone, Copy, Debug, PartialEq, Eq, Structural)]
pub struct FeeRegistry {
    /// Fee taken from the rewards received on the validators.
    pub reward_fee: Option<SharedFee>,
    /// Fee taken from the asset amount on instant withdrawal.
    pub instant_withdraw_fee: Option<SharedFee>,
}

impl FeeRegistry {
    pub open spec fn valid(self) -> bool {
        &&& match self.reward_fee {
            Some(f) => f.valid(),
            None => true,
        }
        &&& match self.instant_withdraw_fee {
            Some(f) => f.valid(),
            None => true,
        }
    }
}

/// The user-facing fee view: only the primary fraction of each fee.
#[derive(Clone, Copy, Debug, PartialEq, Eq, Structural)]
pub struct FeeRegistryLight {
    pub reward_fee: Option<Fee>,
    pub instant_withdraw_fee: Option<Fee>,
}

} // verus!
