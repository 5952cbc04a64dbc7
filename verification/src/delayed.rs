//! Delayed-withdrawal tickets and the fund that settles them.

use vstd::prelude::*;
use crate::registry::Registry;
use crate::EPOCH_QUANTITY_FOR_DELAYED_WITHDRAWAL;

verus! {

/// A user's pending delayed withdrawal. Topping it up restarts the clock.
#[derive(Clone, Copy, Debug, PartialEq, Eq, Structural)]
pub struct DelayedWithdrawal {
    /// Asset amount the user requested to withdraw.
    pub near_amount: u128,
    /// Epoch at which the current waiting period started.
    pub started_epoch_height: u64,
}

impl DelayedWithdrawal {
    /// Epochs still to wait before the withdrawal can be taken.
    pub open spec fn spec_epochs_to_wait(self, current_epoch_height: u64) -> int {
        if EPOCH_QUANTITY_FOR_DELAYED_WITHDRAWAL > current_epoch_height
            - self.started_epoch_height {
            EPOCH_QUANTITY_FOR_DELAYED_WITHDRAWAL - (current_epoch_height
                - self.started_epoch_height)
        } else {
            0
        }
    }

    pub fn get_epoch_quantity_to_take_delayed_withdrawal(&self, current_epoch_height: u64) -> (r:
        u64)
        requires
            self.started_epoch_height <= current_epoch_height,
        ensures
            r == self.spec_epochs_to_wait(current_epoch_height),
    {
        let passed_epoch_height = current_epoch_height - self.started_epoch_height;
        if EPOCH_QUANTITY_FOR_DELAYED_WITHDRAWAL > passed_epoch_height {
            EPOCH_QUANTITY_FOR_DELAYED_WITHDRAWAL - passed_epoch_height
        } else {
            0
        }
    }

    /// Whether the waiting period has fully elapsed.
    pub open spec fn spec_can_take(self, current_epoch_height: u64) -> bool {
        self.spec_epochs_to_wait(current_epoch_height) == 0
    }

    pub fn can_take_delayed_withdrawal(&self, current_epoch_height: u64) -> (r: bool)
        requires
            self.started_epoch_height <= current_epoch_height,
        ensures
            r == self.spec_can_take(current_epoch_height),
    {
        self.get_epoch_quantity_to_take_delayed_withdrawal(current_epoch_height) == 0
    }
}

/// Asset requested from one validator on behalf of investors but not yet
/// unstaked there.
#[derive(Clone, Copy, Debug, PartialEq, Eq, Structural)]
pub struct InvestmentWithdrawal {
    /// Asset amount requested to withdraw.
    pub near_amount: u128,
    /// Account that funded this ticket's storage, refunded when it clears.
    pub account_id: u64,
}

/// The pool-wide delayed-withdrawal bookkeeping.
pub struct DelayedWithdrawnFund {
    /// Tickets keyed by user account id.
    pub delayed_withdrawal_registry: Registry<DelayedWithdrawal>,
    /// Tickets keyed by validator account id.
    pub investment_withdrawal_registry: Registry<InvestmentWithdrawal>,
    /// Default-context asset still to be requested from validators.
    pub needed_to_request_classic_near_amount: u128,
    /// Investment-context asset still to be requested from validators.
    pub needed_to_request_investment_near_amount: u128,
    /// Liquid asset already collected from validators, awaiting payout.
    pub balance: u128,
    /// Storage bytes one delayed-withdrawal ticket occupies.
    pub storage_usage_per_delayed_withdrawal: u64,
    /// Storage bytes one investment-withdrawal ticket occupies.
    pub storage_usage_per_investment_withdrawal: u64,
}

impl DelayedWithdrawnFund {
    pub fn new(
        storage_usage_per_delayed_withdrawal: u64,
        storage_usage_per_investment_withdrawal: u64,
    ) -> (r: DelayedWithdrawnFund)
        ensures
            r.delayed_withdrawal_registry.wf(),
            r.delayed_withdrawal_registry@ == Map::<u64, DelayedWithdrawal>::empty(),
            r.delayed_withdrawal_registry.entries() == Seq::<(u64, DelayedWithdrawal)>::empty(),
            r.investment_withdrawal_registry.wf(),
            r.investment_withdrawal_registry@ == Map::<u64, InvestmentWithdrawal>::empty(),
            r.investment_withdrawal_registry.entries() == Seq::<(
                u64,
                InvestmentWithdrawal,
            )>::empty(),
            r.needed_to_request_classic_near_amount == 0,
            r.needed_to_request_investment_near_amount == 0,
            r.balance == 0,
            r.storage_usage_per_delayed_withdrawal == storage_usage_per_delayed_withdrawal,
            r.storage_usage_per_investment_withdrawal == storage_usage_per_investment_withdrawal,
    {
        DelayedWithdrawnFund {
            delayed_withdrawal_registry: Registry::new(),
            investment_withdrawal_registry: Registry::new(),
            needed_to_request_classic_near_amount: 0,
            needed_to_request_investment_near_amount: 0,
            balance: 0,
            storage_usage_per_delayed_withdrawal,
            storage_usage_per_investment_withdrawal,
        }
    }
}

} // verus!
