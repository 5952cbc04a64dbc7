//! Investor accounts: their direct per-validator stakes and the invariant
//! tying the aggregate to the distribution entries.

use vstd::prelude::*;
use crate::registry::Registry;

verus! {

/// The sum of the staked amounts in a distribution sequence.
pub open spec fn dist_sum(s: Seq<(u64, u128)>) -> int
    decreases s.len(),
{
    if s.len() == 0 {
        0
    } else {
        dist_sum(s.drop_last()) + s.last().1
    }
}

/// Each entry is bounded by the whole sum.
pub proof fn lemma_dist_sum_element(s: Seq<(u64, u128)>, i: int)
    requires
        0 <= i < s.len(),
    ensures
        (s[i]).1 <= dist_sum(s),
        dist_sum(s) >= 0,
    decreases s.len(),
{
    lemma_dist_sum_nonneg(s.drop_last());
    if i == s.len() - 1 {
    } else {
        assert((s.drop_last()[i]) == s[i]);
        lemma_dist_sum_element(s.drop_last(), i);
    }
}

pub proof fn lemma_dist_sum_nonneg(s: Seq<(u64, u128)>)
    ensures
        dist_sum(s) >= 0,
    decreases s.len(),
{
    if s.len() > 0 {
        lemma_dist_sum_nonneg(s.drop_last());
    }
}

/// Appending an entry adds its amount to the sum.
pub proof fn lemma_dist_sum_push(s: Seq<(u64, u128)>, k: u64, v: u128)
    ensures
        dist_sum(s.push((k, v))) == dist_sum(s) + v,
{
    assert(s.push((k, v)).drop_last() =~= s);
}

/// Replacing the entry at `i` shifts the sum by the difference.
pub proof fn lemma_dist_sum_update(s: Seq<(u64, u128)>, i: int, k: u64, v: u128)
    requires
        0 <= i < s.len(),
    ensures
        dist_sum(s.update(i, (k, v))) == dist_sum(s) - (s[i]).1 + v,
    decreases s.len(),
{
    let s2 = s.update(i, (k, v));
    if i == s.len() - 1 {
        assert(s2.drop_last() =~= s.drop_last());
    } else {
        assert(s2.drop_last() =~= s.drop_last().update(i, (k, v)));
        assert((s.drop_last()[i]) == s[i]);
        lemma_dist_sum_update(s.drop_last(), i, k, v);
        assert(s2.last() == s.last());
    }
}

/// Removing the entry at `i` takes its amount out of the sum.
pub proof fn lemma_dist_sum_remove(s: Seq<(u64, u128)>, i: int)
    requires
        0 <= i < s.len(),
    ensures
        dist_sum(s.remove(i)) == dist_sum(s) - (s[i]).1,
    decreases s.len(),
{
    let s2 = s.remove(i);
    if i == s.len() - 1 {
        assert(s2 =~= s.drop_last());
    } else {
        assert(s2.drop_last() =~= s.drop_last().remove(i));
        assert((s.drop_last()[i]) == s[i]);
        lemma_dist_sum_remove(s.drop_last(), i);
        assert(s2.last() == s.last());
    }
}

/// One investor's direct stakes, keyed by validator account id.
pub struct InvestorInvestment {
    /// Amount staked per validator.
    pub distribution_registry: Registry<u128>,
    pub distributions_quantity: u64,
    /// Total amount distributed on validators; always the sum of the entries.
    pub staked_balance: u128,
}

impl InvestorInvestment {
    /// Structural invariant: the counter matches the registry and the
    /// aggregate is the sum of the distribution entries.
    pub open spec fn wf(self) -> bool {
        &&& self.distribution_registry.wf()
        &&& self.distributions_quantity == self.distribution_registry.entries().len()
        &&& self.staked_balance == dist_sum(self.distribution_registry.entries())
    }

    pub fn new() -> (r: InvestorInvestment)
        ensures
            r.wf(),
            r.distribution_registry@ == Map::<u64, u128>::empty(),
            r.distributions_quantity == 0,
            r.staked_balance == 0,
    {
        InvestorInvestment {
            distribution_registry: Registry::new(),
            distributions_quantity: 0,
            staked_balance: 0,
        }
    }

    /// Adds `near_amount` to the stake on `validator_account_id`, creating
    /// the distribution entry when there is none. Returns whether the entry
    /// was created.
    pub fn add_distribution(&mut self, validator_account_id: u64, near_amount: u128) -> (created:
        bool)
        requires
            old(self).wf(),
            old(self).staked_balance + near_amount <= u128::MAX,
            old(self).distributions_quantity < u64::MAX,
        ensures
            final(self).wf(),
            created == !old(self).distribution_registry@.contains_key(validator_account_id),
            final(self).distribution_registry@ == old(self).distribution_registry@.insert(
                validator_account_id,
                (if old(self).distribution_registry@.contains_key(validator_account_id) {
                    (old(self).distribution_registry@[validator_account_id] + near_amount) as u128
                } else {
                    near_amount
                }),
            ),
            final(self).distributions_quantity == old(self).distributions_quantity + (if created {
                1int
            } else {
                0int
            }),
            final(self).staked_balance == old(self).staked_balance + near_amount,
    {
        let prior: Option<&u128> = self.distribution_registry.get(validator_account_id);
        match prior {
            Some(staked) => {
                let staked_value: u128 = *staked;
                proof {
                    let entries = self.distribution_registry.entries();
                    crate::registry::lemma_view_entries(&self.distribution_registry);
                    crate::registry::lemma_assoc_map_domain(entries, validator_account_id);
                    let i = choose|i: int|
                        0 <= i < entries.len() && (#[trigger] entries[i]).0
                            == validator_account_id;
                    crate::registry::lemma_assoc_map_index(entries, i);
                    lemma_dist_sum_element(entries, i);
                }
                let updated: u128 = staked_value + near_amount;
                let ghost old_entries = self.distribution_registry.entries();
                let prev = self.distribution_registry.insert(validator_account_id, updated);
                proof {
                    let i = choose|i: int|
                        0 <= i < old_entries.len() && (#[trigger] old_entries[i]) == (
                        validator_account_id,
                        prev.unwrap(),
                        ) && self.distribution_registry.entries() == old_entries.update(
                            i,
                            (validator_account_id, updated),
                        );
                    lemma_dist_sum_update(old_entries, i, validator_account_id, updated);
                }
                self.staked_balance = self.staked_balance + near_amount;
                false
            },
            None => {
                proof {
                    crate::registry::lemma_assoc_map_domain(
                        self.distribution_registry.entries(),
                        validator_account_id,
                    );
                    lemma_dist_sum_push(
                        self.distribution_registry.entries(),
                        validator_account_id,
                        near_amount,
                    );
                    lemma_dist_sum_nonneg(self.distribution_registry.entries());
                }
                self.distribution_registry.insert(validator_account_id, near_amount);
                self.distributions_quantity = self.distributions_quantity + 1;
                self.staked_balance = self.staked_balance + near_amount;
                true
            },
        }
    }

    /// Takes `near_amount` out of the stake on `validator_account_id`,
    /// removing the distribution entry when it is fully drained. Returns
    /// whether the entry was removed.
    pub fn withdraw_distribution(&mut self, validator_account_id: u64, near_amount: u128) -> (
        removed: bool)
        requires
            old(self).wf(),
            old(self).distribution_registry@.contains_key(validator_account_id),
            near_amount <= old(self).distribution_registry@[validator_account_id],
        ensures
            final(self).wf(),
            removed == (near_amount == old(self).distribution_registry@[validator_account_id]),
            final(self).distribution_registry@ == (if removed {
                old(self).distribution_registry@.remove(validator_account_id)
            } else {
                old(self).distribution_registry@.insert(
                    validator_account_id,
                    (old(self).distribution_registry@[validator_account_id] - near_amount) as u128,
                )
            }),
            final(self).distributions_quantity == old(self).distributions_quantity - (if removed {
                1int
            } else {
                0int
            }),
            final(self).staked_balance == old(self).staked_balance - near_amount,
            near_amount <= old(self).staked_balance,
    {
        proof {
            let entries = self.distribution_registry.entries();
            crate::registry::lemma_view_entries(&self.distribution_registry);
            crate::registry::lemma_assoc_map_domain(entries, validator_account_id);
            let i = choose|i: int|
                0 <= i < entries.len() && (#[trigger] entries[i]).0 == validator_account_id;
            crate::registry::lemma_assoc_map_index(entries, i);
            lemma_dist_sum_element(entries, i);
        }
        let prior: Option<&u128> = self.distribution_registry.get(validator_account_id);
        let staked_value: u128 = *prior.unwrap();
        let ghost old_entries = self.distribution_registry.entries();
        if near_amount < staked_value {
            let updated: u128 = staked_value - near_amount;
            let prev = self.distribution_registry.insert(validator_account_id, updated);
            proof {
                let i = choose|i: int|
                    0 <= i < old_entries.len() && (#[trigger] old_entries[i]) == (
                    validator_account_id,
                    prev.unwrap(),
                    ) && self.distribution_registry.entries() == old_entries.update(
                        i,
                        (validator_account_id, updated),
                    );
                lemma_dist_sum_update(old_entries, i, validator_account_id, updated);
            }
            self.staked_balance = self.staked_balance - near_amount;
            false
        } else {
            let prev = self.distribution_registry.remove(validator_account_id);
            proof {
                let i = choose|i: int|
                    0 <= i < old_entries.len() && (#[trigger] old_entries[i]) == (
                    validator_account_id,
                    prev.unwrap(),
                    ) && self.distribution_registry.entries() == old_entries.remove(i);
                lemma_dist_sum_remove(old_entries, i);
            }
            self.distributions_quantity = self.distributions_quantity - 1;
            self.staked_balance = self.staked_balance - near_amount;
            true
        }
    }
}

} // verus!
