//! Reward accrual counters.

use vstd::prelude::*;

verus! {

/// Rewards reported by validators, pending and cumulative.
#[derive(Clone, Copy, Debug, PartialEq, Eq, Structural)]
pub struct Reward {
    /// Asset received from validators as rewards since the last update,
    /// folded into the staked balance when the pool epoch advances.
    pub previous_epoch_rewards_from_validators_near_amount: u128,
    /// Total asset ever received from validators as rewards.
    pub total_rewards_from_validators_near_amount: u128,
}

} // verus!
