//! Share accounts and the pool's fixed account identifiers.
//!
//! Account identifiers are plain `u64` values: the host shell maps its own
//! account names onto them and back.

use vstd::prelude::*;

verus! {

/// One share account: the share balance and the two remainder-asset
/// balances left over by floor rounding during conversion.
#[derive(Clone, Copy, Debug, PartialEq, Eq, Structural)]
pub struct AccountBalance {
    pub token_amount: u128,
    /// Asset remainder from conversions in the default (classic) context.
    pub classic_near_amount: u128,
    /// Asset remainder from conversions in the investment context.
    pub investment_near_amount: u128,
}

impl AccountBalance {
    /// A fresh account with nothing on it.
    pub open spec fn spec_empty() -> AccountBalance {
        AccountBalance { token_amount: 0, classic_near_amount: 0, investment_near_amount: 0 }
    }

    pub fn empty() -> (r: AccountBalance)
        ensures
            r == AccountBalance::spec_empty(),
    {
        AccountBalance { token_amount: 0, classic_near_amount: 0, investment_near_amount: 0 }
    }
}

/// The sum of the share balances in an account sequence: what the total
/// supply must always equal.
pub open spec fn token_sum(s: Seq<(u64, AccountBalance)>) -> int
    decreases s.len(),
{
    if s.len() == 0 {
        0
    } else {
        token_sum(s.drop_last()) + s.last().1.token_amount
    }
}

pub proof fn lemma_token_sum_nonneg(s: Seq<(u64, AccountBalance)>)
    ensures
        token_sum(s) >= 0,
    decreases s.len(),
{
    if s.len() > 0 {
        lemma_token_sum_nonneg(s.drop_last());
    }
}

/// Each account's balance is bounded by the whole sum.
pub proof fn lemma_token_sum_element(s: Seq<(u64, AccountBalance)>, i: int)
    requires
        0 <= i < s.len(),
    ensures
        (s[i]).1.token_amount <= token_sum(s),
    decreases s.len(),
{
    lemma_token_sum_nonneg(s.drop_last());
    if i == s.len() - 1 {
    } else {
        assert((s.drop_last()[i]) == s[i]);
        lemma_token_sum_element(s.drop_last(), i);
    }
}

/// Appending an account adds its balance to the sum.
pub proof fn lemma_token_sum_push(s: Seq<(u64, AccountBalance)>, k: u64, b: AccountBalance)
    ensures
        token_sum(s.push((k, b))) == token_sum(s) + b.token_amount,
{
    assert(s.push((k, b)).drop_last() =~= s);
}

/// Replacing the account at `i` shifts the sum by the balance difference.
pub proof fn lemma_token_sum_update(s: Seq<(u64, AccountBalance)>, i: int, k: u64, b: AccountBalance)
    requires
        0 <= i < s.len(),
    ensures
        token_sum(s.update(i, (k, b))) == token_sum(s) - (s[i]).1.token_amount + b.token_amount,
    decreases s.len(),
{
    let s2 = s.update(i, (k, b));
    if i == s.len() - 1 {
        assert(s2.drop_last() =~= s.drop_last());
    } else {
        assert(s2.drop_last() =~= s.drop_last().update(i, (k, b)));
        assert((s.drop_last()[i]) == s[i]);
        lemma_token_sum_update(s.drop_last(), i, k, b);
        assert(s2.last() == s.last());
    }
}

/// Removing the account at `i` takes its balance out of the sum.
pub proof fn lemma_token_sum_remove(s: Seq<(u64, AccountBalance)>, i: int)
    requires
        0 <= i < s.len(),
    ensures
        token_sum(s.remove(i)) == token_sum(s) - (s[i]).1.token_amount,
    decreases s.len(),
{
    let s2 = s.remove(i);
    if i == s.len() - 1 {
        assert(s2 =~= s.drop_last());
    } else {
        assert(s2.drop_last() =~= s.drop_last().remove(i));
        assert((s.drop_last()[i]) == s[i]);
        lemma_token_sum_remove(s.drop_last(), i);
        assert(s2.last() == s.last());
    }
}

/// The pool's privileged account identifiers.
#[derive(Clone, Copy, Debug, PartialEq, Eq, Structural)]
pub struct AccountRegistry {
    pub owner_id: u64,
    pub manager_id: u64,
    /// Account that receives the pool's own fee cut, as share tokens.
    pub self_fee_receiver_account_id: u64,
    /// Account that receives the partner's fee cut, as share tokens.
    pub partner_fee_receiver_account_id: u64,
}

} // verus!
