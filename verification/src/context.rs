//! The environment facts a call executes under.
//!
//! The host hands these in with every call; the core treats them as given.

use vstd::prelude::*;
use crate::{MINIMUM_DEPOSIT_AMOUNT, MINIMUM_GAS_AMOUNT};

verus! {

/// What the host environment reports for one call.
#[derive(Clone, Copy, Debug, PartialEq, Eq, Structural)]
pub struct EnvContext {
    /// The calling account.
    pub predecessor_account_id: u64,
    /// Asset attached to the call.
    pub attached_deposit: u128,
    /// The network's current epoch height.
    pub network_epoch_height: u64,
    /// Execution budget attached to the call, in gas units.
    pub prepaid_gas: u64,
    /// Price of one byte of persisted storage.
    pub storage_byte_cost: u128,
}

impl EnvContext {
    /// The execution-budget guard every mutating call checks first.
    pub open spec fn gas_is_enough(self) -> bool {
        self.prepaid_gas >= MINIMUM_GAS_AMOUNT
    }

    /// A nonzero attached payment, demanded of calls that may refund.
    pub open spec fn natural_deposit(self) -> bool {
        self.attached_deposit > 0
    }

    /// The protocol minimum attached payment for deposits.
    pub open spec fn minimum_deposit(self) -> bool {
        self.attached_deposit >= MINIMUM_DEPOSIT_AMOUNT
    }
}

/// `bytes * storage_byte_cost`, the asset price of persisting `bytes`.
pub open spec fn spec_storage_price(storage_byte_cost: u128, bytes: u64) -> int {
    bytes * storage_byte_cost
}

/// The asset a caller must attach to cover `bytes` of new storage.
pub fn calculate_storage_staking_price(storage_byte_cost: u128, bytes: u64) -> (r: u128)
    requires
        spec_storage_price(storage_byte_cost, bytes) <= u128::MAX,
    ensures
        r == spec_storage_price(storage_byte_cost, bytes),
{
    proof {
        assert(bytes * storage_byte_cost >= 0) by (nonlinear_arith);
    }
    (bytes as u128) * storage_byte_cost
}

} // verus!
