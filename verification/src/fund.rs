//! The pool-wide asset buckets.

use vstd::prelude::*;
use crate::delayed::DelayedWithdrawnFund;

verus! {

/// The pool's aggregate asset balances.
pub struct Fund {
    /// Liquid asset available in the pool, to be staked on validators in the
    /// default context.
    pub classic_unstaked_balance: u128,
    /// Asset already staked on validators in the default context.
    pub classic_staked_balance: u128,
    /// Extra liquidity reserved to keep instant withdrawal possible.
    pub classic_liquidity_balance: u128,
    /// Asset already staked on validators in the investment context.
    pub investment_staked_balance: u128,
    /// Asset owed back to users through the delayed-withdrawal path.
    pub delayed_withdrawn_fund: DelayedWithdrawnFund,
    pub is_distributed_on_validators_in_current_epoch: bool,
}

impl Fund {
    /// Asset staked in either context.
    pub open spec fn spec_staked_balance(self) -> int {
        self.classic_staked_balance + self.investment_staked_balance
    }

    /// All asset the pool manages for conversion purposes.
    pub open spec fn spec_common_balance(self) -> int {
        self.classic_unstaked_balance + self.classic_staked_balance
            + self.investment_staked_balance
    }

    pub fn new(
        storage_usage_per_delayed_withdrawal: u64,
        storage_usage_per_investment_withdrawal: u64,
    ) -> (r: Fund)
        ensures
            r.classic_unstaked_balance == 0,
            r.classic_staked_balance == 0,
            r.classic_liquidity_balance == 0,
            r.investment_staked_balance == 0,
            !r.is_distributed_on_validators_in_current_epoch,
            r.delayed_withdrawn_fund.delayed_withdrawal_registry.wf(),
            r.delayed_withdrawn_fund.delayed_withdrawal_registry@ == Map::<
                u64,
                crate::delayed::DelayedWithdrawal,
            >::empty(),
            r.delayed_withdrawn_fund.delayed_withdrawal_registry.entries() == Seq::<(
                u64,
                crate::delayed::DelayedWithdrawal,
            )>::empty(),
            r.delayed_withdrawn_fund.investment_withdrawal_registry.wf(),
            r.delayed_withdrawn_fund.investment_withdrawal_registry@ == Map::<
                u64,
                crate::delayed::InvestmentWithdrawal,
            >::empty(),
            r.delayed_withdrawn_fund.investment_withdrawal_registry.entries() == Seq::<(
                u64,
                crate::delayed::InvestmentWithdrawal,
            )>::empty(),
            r.delayed_withdrawn_fund.needed_to_request_classic_near_amount == 0,
            r.delayed_withdrawn_fund.needed_to_request_investment_near_amount == 0,
            r.delayed_withdrawn_fund.balance == 0,
            r.delayed_withdrawn_fund.storage_usage_per_delayed_withdrawal
                == storage_usage_per_delayed_withdrawal,
            r.delayed_withdrawn_fund.storage_usage_per_investment_withdrawal
                == storage_usage_per_investment_withdrawal,
    {
        Fund {
            classic_unstaked_balance: 0,
            classic_staked_balance: 0,
            classic_liquidity_balance: 0,
            investment_staked_balance: 0,
            delayed_withdrawn_fund: DelayedWithdrawnFund::new(
                storage_usage_per_delayed_withdrawal,
                storage_usage_per_investment_withdrawal,
            ),
            is_distributed_on_validators_in_current_epoch: false,
        }
    }

    pub fn get_staked_balance(&self) -> (r: u128)
        requires
            self.spec_staked_balance() <= u128::MAX,
        ensures
            r == self.spec_staked_balance(),
    {
        self.classic_staked_balance + self.investment_staked_balance
    }

    pub fn get_common_balance(&self) -> (r: u128)
        requires
            self.spec_common_balance() <= u128::MAX,
        ensures
            r == self.spec_common_balance(),
    {
        self.classic_unstaked_balance + self.classic_staked_balance
            + self.investment_staked_balance
    }
}

} // verus!
