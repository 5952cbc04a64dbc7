//! The callback half of every two-phase validator operation.
//!
//! The host shell performs the asynchronous call described by an action
//! value and reports the outcome here; each callback applies exactly one of
//! a commit or a compensating rollback. The preconditions encode the
//! internal-consistency facts the initiating operation established; their
//! violation upstream would be an unrecoverable ledger fault.

use vstd::prelude::*;
use crate::account::AccountBalance;
use crate::action::{
    CallbackResult, DecreaseCallbackOutcome, DepositAction, DepositOnValidatorAction,
    StakeDecreaseAction, StakeIncreaseAction, TakeUnstakedBalanceAction, Transfer, UnstakeAction,
    UpdateValidatorAction,
};
use crate::pool::{
    same_delayed, same_fund_buckets, same_ids_and_fees, same_reward_and_epoch, same_token,
    StakePool,
};
use crate::stake_decreasing_kind::StakeDecreasingType;
use crate::validator::Validator;

verus! {

impl StakePool {
    /// The machine limits the deposit callback must stay within.
    pub open spec fn deposit_callback_fits(self, a: DepositAction) -> bool {
        let prior = self.spec_account_or_empty(a.predecessor_account_id);
        &&& self.fund.spec_common_balance() + a.near_amount <= u128::MAX
        &&& self.fungible_token.total_supply + a.token_amount <= u128::MAX
        &&& prior.token_amount + a.token_amount <= u128::MAX
        &&& prior.classic_near_amount + a.near_remainder <= u128::MAX
    }

    /// Settles a forwarded deposit. On success the asset is booked on the
    /// validator and the staked bucket; on failure it falls back into the
    /// liquid bucket. The depositor's shares are minted either way.
    /// Returns the refund owed to the depositor.
    pub fn deposit_callback(&mut self, a: DepositAction, is_success: bool) -> (refund: u128)
        requires
            old(self).well_formed(),
            old(self).deposit_callback_fits(a),
            is_success ==> old(self).validating.validator_registry@.contains_key(
                a.validator_account_id,
            ) && old(self).validating.validator_registry@[a.validator_account_id].balance.spec_total()
                + a.near_amount <= u128::MAX,
        ensures
            final(self).well_formed(),
            refund == a.refundable_near_amount,
            // Conservation: the deposited asset enters the tracked total
            // whether or not the validator call succeeded.
            final(self).spec_tracked_asset_total() == old(self).spec_tracked_asset_total()
                + a.near_amount,
            ({
                let prior = old(self).spec_account_or_empty(a.predecessor_account_id);
                let credited = AccountBalance {
                    token_amount: (prior.token_amount + a.token_amount) as u128,
                    classic_near_amount: (prior.classic_near_amount + a.near_remainder) as u128,
                    investment_near_amount: prior.investment_near_amount,
                };
                &&& final(self).fungible_token.account_registry@ == old(
                    self,
                ).fungible_token.account_registry@.insert(a.predecessor_account_id, credited)
                &&& final(self).fungible_token.accounts_quantity == old(
                    self,
                ).fungible_token.accounts_quantity + (
                if old(self).fungible_token.account_registry@.contains_key(
                    a.predecessor_account_id,
                ) {
                    0int
                } else {
                    1int
                })
                &&& final(self).fungible_token.total_supply == old(
                    self,
                ).fungible_token.total_supply + a.token_amount
                &&& final(self).fungible_token.storage_usage_per_account == old(
                    self,
                ).fungible_token.storage_usage_per_account
            }),
            is_success ==> {
                let v = old(self).validating.validator_registry@[a.validator_account_id];
                &&& final(self).fund.classic_staked_balance == old(
                    self,
                ).fund.classic_staked_balance + a.near_amount
                &&& final(self).fund.classic_unstaked_balance == old(
                    self,
                ).fund.classic_unstaked_balance
                &&& final(self).validating.validator_registry@ == old(
                    self,
                ).validating.validator_registry@.insert(
                    a.validator_account_id,
                    (Validator {
                        balance: crate::validator::ValidatorBalance {
                            classic_near_amount: (v.balance.classic_near_amount
                                + a.near_amount) as u128,
                            ..v.balance
                        },
                        last_classic_stake_increasing_epoch_height: Some(a.current_epoch_height),
                        ..v
                    }),
                )
            },
            !is_success ==> {
                &&& final(self).fund.classic_unstaked_balance == old(
                    self,
                ).fund.classic_unstaked_balance + a.near_amount
                &&& final(self).fund.classic_staked_balance == old(
                    self,
                ).fund.classic_staked_balance
                &&& final(self).validating.validator_registry@ == old(
                    self,
                ).validating.validator_registry@
            },
            final(self).fund.investment_staked_balance == old(self).fund.investment_staked_balance,
            final(self).fund.classic_liquidity_balance == old(self).fund.classic_liquidity_balance,
            final(self).fund.is_distributed_on_validators_in_current_epoch == old(
                self,
            ).fund.is_distributed_on_validators_in_current_epoch,
            same_delayed(*old(self), *final(self)),
            same_ids_and_fees(*old(self), *final(self)),
            same_reward_and_epoch(*old(self), *final(self)),
            final(self).validating.investor_investment_registry == old(
                self,
            ).validating.investor_investment_registry,
            final(self).validating.validators_quantity == old(self).validating.validators_quantity,
            final(self).validating.preffered_validator == old(self).validating.preffered_validator,
            final(self).validating.quantity_of_validators_updated_in_current_epoch == old(
                self,
            ).validating.quantity_of_validators_updated_in_current_epoch,
            final(self).validating.storage_usage_per_validator == old(
                self,
            ).validating.storage_usage_per_validator,
            final(self).validating.storage_usage_per_investor_investment == old(
                self,
            ).validating.storage_usage_per_investor_investment,
            final(self).validating.storage_usage_per_distribution == old(
                self,
            ).validating.storage_usage_per_distribution,
    {
        if is_success {
            let mut validator = match self.validating.validator_registry.get(
                a.validator_account_id,
            ) {
                Some(validator) => *validator,
                None => {
                    // Unreachable: the initiating deposit saw it registered.
                    proof {
                        assert(false);
                    }
                    Validator::new(crate::validator::StakingContractVersion::Core, false, 0)
                },
            };
            validator.balance.classic_near_amount = validator.balance.classic_near_amount
                + a.near_amount;
            validator.last_classic_stake_increasing_epoch_height = Some(a.current_epoch_height);
            self.validating.validator_registry.insert(a.validator_account_id, validator);

            self.fund.classic_staked_balance = self.fund.classic_staked_balance + a.near_amount;
        } else {
            self.fund.classic_unstaked_balance = self.fund.classic_unstaked_balance
                + a.near_amount;
        }

        let mut account_balance = match self.fungible_token.account_registry.get(
            a.predecessor_account_id,
        ) {
            Some(balance) => *balance,
            None => AccountBalance::empty(),
        };
        account_balance.token_amount = account_balance.token_amount + a.token_amount;
        account_balance.classic_near_amount = account_balance.classic_near_amount
            + a.near_remainder;
        let ghost pre_entries = self.fungible_token.account_registry.entries();
        let prev = self.fungible_token.account_registry.insert(
            a.predecessor_account_id,
            account_balance,
        );
        proof {
            crate::pool_ops::lemma_account_store_sum(
                pre_entries,
                self.fungible_token.account_registry.entries(),
                a.predecessor_account_id,
                account_balance,
                prev,
            );
        }
        let registered_accounts = self.fungible_token.account_registry.len();
        self.fungible_token.accounts_quantity = registered_accounts as u64;
        self.fungible_token.total_supply = self.fungible_token.total_supply + a.token_amount;

        a.refundable_near_amount
    }

    /// The machine limits the investor-deposit callback must stay within.
    pub open spec fn deposit_on_validator_callback_fits(self, a: DepositOnValidatorAction) -> bool {
        let prior = self.spec_account_or_empty(a.predecessor_account_id);
        let investors = self.validating.investor_investment_registry@;
        &&& self.fund.spec_common_balance() + a.near_amount <= u128::MAX
        &&& self.fungible_token.total_supply + a.token_amount <= u128::MAX
        &&& prior.token_amount + a.token_amount <= u128::MAX
        &&& prior.investment_near_amount + a.near_remainder <= u128::MAX
        &&& (investors.contains_key(a.predecessor_account_id)
            ==> investors[a.predecessor_account_id].staked_balance + a.near_amount <= u128::MAX
            && investors[a.predecessor_account_id].distributions_quantity < u64::MAX)
    }

    /// Settles an investor's direct deposit. On success the asset is booked
    /// on the validator's investment balance and the investor's
    /// distribution, and shares are minted; on failure everything attached
    /// is refunded. Returns whether it succeeded and the refund owed.
    pub fn deposit_on_validator_callback(&mut self, a: DepositOnValidatorAction, is_success: bool)
        -> (r: (bool, u128))
        requires
            old(self).well_formed(),
            old(self).deposit_on_validator_callback_fits(a),
            is_success ==> old(self).validating.validator_registry@.contains_key(
                a.validator_account_id,
            ) && old(self).validating.validator_registry@[a.validator_account_id].balance.spec_total()
                + a.near_amount <= u128::MAX && old(
                self,
            ).validating.investor_investment_registry@.contains_key(a.predecessor_account_id),
        ensures
            final(self).well_formed(),
            r.0 == is_success,
            is_success ==> {
                let v = old(self).validating.validator_registry@[a.validator_account_id];
                let prior = old(self).spec_account_or_empty(a.predecessor_account_id);
                let credited = AccountBalance {
                    token_amount: (prior.token_amount + a.token_amount) as u128,
                    classic_near_amount: prior.classic_near_amount,
                    investment_near_amount: (prior.investment_near_amount
                        + a.near_remainder) as u128,
                };
                let old_investor = old(
                    self,
                ).validating.investor_investment_registry@[a.predecessor_account_id];
                &&& r.1 == a.refundable_near_amount
                &&& final(self).validating.validator_registry@ == old(
                    self,
                ).validating.validator_registry@.insert(
                    a.validator_account_id,
                    (Validator {
                        balance: crate::validator::ValidatorBalance {
                            investment_near_amount: (v.balance.investment_near_amount
                                + a.near_amount) as u128,
                            ..v.balance
                        },
                        ..v
                    }),
                )
                &&& final(self).validating.investor_investment_registry@.contains_key(
                    a.predecessor_account_id,
                )
                &&& {
                    let new_investor = final(self).validating.investor_investment_registry@[a.predecessor_account_id];
                    &&& new_investor.staked_balance == old_investor.staked_balance + a.near_amount
                    &&& new_investor.distribution_registry@ == old_investor.distribution_registry@.insert(
                        a.validator_account_id,
                        (if old_investor.distribution_registry@.contains_key(
                            a.validator_account_id,
                        ) {
                            (old_investor.distribution_registry@[a.validator_account_id]
                                + a.near_amount) as u128
                        } else {
                            a.near_amount
                        }),
                    )
                    &&& final(self).validating.investor_investment_registry@ == old(
                        self,
                    ).validating.investor_investment_registry@.insert(
                        a.predecessor_account_id,
                        new_investor,
                    )
                }
                &&& final(self).fungible_token.account_registry@ == old(
                    self,
                ).fungible_token.account_registry@.insert(a.predecessor_account_id, credited)
                &&& final(self).fungible_token.accounts_quantity == old(
                    self,
                ).fungible_token.accounts_quantity + (
                if old(self).fungible_token.account_registry@.contains_key(
                    a.predecessor_account_id,
                ) {
                    0int
                } else {
                    1int
                })
                &&& final(self).fungible_token.total_supply == old(
                    self,
                ).fungible_token.total_supply + a.token_amount
                &&& final(self).fund.investment_staked_balance == old(
                    self,
                ).fund.investment_staked_balance + a.near_amount
                &&& final(self).fund.classic_unstaked_balance == old(
                    self,
                ).fund.classic_unstaked_balance
                &&& final(self).fund.classic_staked_balance == old(
                    self,
                ).fund.classic_staked_balance
                // Conservation: the deposited asset enters the tracked total.
                &&& final(self).spec_tracked_asset_total() == old(
                    self,
                ).spec_tracked_asset_total() + a.near_amount
            },
            !is_success ==> *final(self) == *old(self) && r.1 == a.attached_deposit,
            same_delayed(*old(self), *final(self)),
            same_ids_and_fees(*old(self), *final(self)),
            same_reward_and_epoch(*old(self), *final(self)),
    {
        if !is_success {
            return (false, a.attached_deposit);
        }

        let mut validator = match self.validating.validator_registry.get(a.validator_account_id) {
            Some(validator) => *validator,
            None => {
                // Unreachable: the initiating deposit saw it registered.
                proof {
                    assert(false);
                }
                Validator::new(crate::validator::StakingContractVersion::Core, false, 0)
            },
        };
        validator.balance.investment_near_amount = validator.balance.investment_near_amount
            + a.near_amount;
        self.validating.validator_registry.insert(a.validator_account_id, validator);

        let mut investor_investment = match self.validating.investor_investment_registry.remove(
            a.predecessor_account_id,
        ) {
            Some(investor_investment) => investor_investment,
            None => {
                // Unreachable: the initiating deposit saw the investor registered.
                proof {
                    assert(false);
                }
                crate::investor::InvestorInvestment::new()
            },
        };
        investor_investment.add_distribution(a.validator_account_id, a.near_amount);
        self.validating.investor_investment_registry.insert(
            a.predecessor_account_id,
            investor_investment,
        );
        proof {
            assert(self.validating.investor_investment_registry@ =~= old(
                self,
            ).validating.investor_investment_registry@.insert(
                a.predecessor_account_id,
                self.validating.investor_investment_registry@[a.predecessor_account_id],
            ));
        }

        let mut account_balance = match self.fungible_token.account_registry.get(
            a.predecessor_account_id,
        ) {
            Some(balance) => *balance,
            None => AccountBalance::empty(),
        };
        account_balance.token_amount = account_balance.token_amount + a.token_amount;
        account_balance.investment_near_amount = account_balance.investment_near_amount
            + a.near_remainder;
        let ghost pre_entries = self.fungible_token.account_registry.entries();
        let prev = self.fungible_token.account_registry.insert(
            a.predecessor_account_id,
            account_balance,
        );
        proof {
            crate::pool_ops::lemma_account_store_sum(
                pre_entries,
                self.fungible_token.account_registry.entries(),
                a.predecessor_account_id,
                account_balance,
                prev,
            );
        }
        let registered_accounts = self.fungible_token.account_registry.len();
        self.fungible_token.accounts_quantity = registered_accounts as u64;
        self.fungible_token.total_supply = self.fungible_token.total_supply + a.token_amount;

        self.fund.investment_staked_balance = self.fund.investment_staked_balance + a.near_amount;

        (true, a.refundable_near_amount)
    }

    /// Settles a manager-initiated stake increase: on success the asset
    /// moves from the liquid bucket to the staked bucket and onto the
    /// validator; on failure nothing changes.
    pub fn increase_validator_stake_callback(&mut self, a: StakeIncreaseAction, is_success: bool)
        -> (r: bool)
        requires
            old(self).well_formed(),
            is_success ==> old(self).validating.validator_registry@.contains_key(
                a.validator_account_id,
            ) && a.near_amount <= old(self).fund.classic_unstaked_balance && old(
                self,
            ).validating.validator_registry@[a.validator_account_id].balance.spec_total()
                + a.near_amount <= u128::MAX,
        ensures
            final(self).well_formed(),
            r == is_success,
            is_success ==> {
                let v = old(self).validating.validator_registry@[a.validator_account_id];
                // Conservation: the asset only changes buckets.
                &&& final(self).spec_tracked_asset_total() == old(
                    self,
                ).spec_tracked_asset_total()
                &&& final(self).fund.classic_unstaked_balance == old(
                    self,
                ).fund.classic_unstaked_balance - a.near_amount
                &&& final(self).fund.classic_staked_balance == old(
                    self,
                ).fund.classic_staked_balance + a.near_amount
                &&& final(self).validating.validator_registry@ == old(
                    self,
                ).validating.validator_registry@.insert(
                    a.validator_account_id,
                    (Validator {
                        balance: crate::validator::ValidatorBalance {
                            classic_near_amount: (v.balance.classic_near_amount
                                + a.near_amount) as u128,
                            ..v.balance
                        },
                        last_classic_stake_increasing_epoch_height: Some(a.current_epoch_height),
                        ..v
                    }),
                )
                &&& final(self).fund.investment_staked_balance == old(
                    self,
                ).fund.investment_staked_balance
                &&& final(self).fund.classic_liquidity_balance == old(
                    self,
                ).fund.classic_liquidity_balance
                &&& final(self).fund.is_distributed_on_validators_in_current_epoch == old(
                    self,
                ).fund.is_distributed_on_validators_in_current_epoch
                &&& final(self).validating.investor_investment_registry == old(
                    self,
                ).validating.investor_investment_registry
                &&& final(self).validating.validators_quantity == old(
                    self,
                ).validating.validators_quantity
                &&& final(self).validating.preffered_validator == old(
                    self,
                ).validating.preffered_validator
                &&& final(self).validating.quantity_of_validators_updated_in_current_epoch == old(
                    self,
                ).validating.quantity_of_validators_updated_in_current_epoch
                &&& final(self).validating.storage_usage_per_validator == old(
                    self,
                ).validating.storage_usage_per_validator
                &&& final(self).validating.storage_usage_per_investor_investment == old(
                    self,
                ).validating.storage_usage_per_investor_investment
                &&& final(self).validating.storage_usage_per_distribution == old(
                    self,
                ).validating.storage_usage_per_distribution
                &&& same_token(*old(self), *final(self))
            },
            !is_success ==> *final(self) == *old(self),
            same_delayed(*old(self), *final(self)),
            same_ids_and_fees(*old(self), *final(self)),
            same_reward_and_epoch(*old(self), *final(self)),
    {
        if !is_success {
            return false;
        }
        self.fund.classic_unstaked_balance = self.fund.classic_unstaked_balance - a.near_amount;
        self.fund.classic_staked_balance = self.fund.classic_staked_balance + a.near_amount;

        let mut validator = match self.validating.validator_registry.get(a.validator_account_id) {
            Some(validator) => *validator,
            None => {
                // Unreachable: the initiating operation saw it registered.
                proof {
                    assert(false);
                }
                Validator::new(crate::validator::StakingContractVersion::Core, false, 0)
            },
        };
        validator.balance.classic_near_amount = validator.balance.classic_near_amount
            + a.near_amount;
        validator.last_classic_stake_increasing_epoch_height = Some(a.current_epoch_height);
        self.validating.validator_registry.insert(a.validator_account_id, validator);
        true
    }

    /// Decides the follow-up after reading a validator's unstaked balance:
    /// any asset already unstaked beyond what the pool tracked counts
    /// towards the requested amount, and only the rest is unstaked now.
    /// Nothing changes here.
    pub fn requested_decrease_validator_stake_callback_1(
        &mut self,
        a: StakeDecreaseAction,
        unstaked_balance: Option<u128>,
        network_epoch_height: u64,
    ) -> (r: DecreaseCallbackOutcome)
        requires
            old(self).well_formed(),
            match unstaked_balance {
                Some(b) => old(self).validating.validator_registry@.contains_key(
                    a.validator_account_id,
                ) && b >= old(
                    self,
                ).validating.validator_registry@[a.validator_account_id].balance.requested_to_withdrawal_near_amount
                    && a.near_amount >= b - old(
                    self,
                ).validating.validator_registry@[a.validator_account_id].balance.requested_to_withdrawal_near_amount,
                None => true,
            },
        ensures
            *final(self) == *old(self),
            match unstaked_balance {
                Some(b) => r == DecreaseCallbackOutcome::Unstake(
                    UnstakeAction {
                        validator_account_id: a.validator_account_id,
                        needed_to_unstake_near_amount: (a.near_amount - (b - old(
                            self,
                        ).validating.validator_registry@[a.validator_account_id].balance.requested_to_withdrawal_near_amount)) as u128,
                        near_amount: a.near_amount,
                        stake_decreasing_type: a.stake_decreasing_type,
                        refundable_near_amount: a.refundable_near_amount,
                        staking_contract_version: a.staking_contract_version,
                    },
                ),
                None => r == DecreaseCallbackOutcome::Failed(
                    CallbackResult { is_success: false, network_epoch_height },
                ),
            },
    {
        match unstaked_balance {
            Some(balance) => {
                let tracked_requested = match self.validating.validator_registry.get(
                    a.validator_account_id,
                ) {
                    Some(validator) => validator.balance.requested_to_withdrawal_near_amount,
                    None => {
                        // Unreachable: the initiating operation saw it registered.
                        proof {
                            assert(false);
                        }
                        0
                    },
                };
                let unstaked_remainder = balance - tracked_requested;
                let needed_to_unstake_near_amount = a.near_amount - unstaked_remainder;
                DecreaseCallbackOutcome::Unstake(
                    UnstakeAction {
                        validator_account_id: a.validator_account_id,
                        needed_to_unstake_near_amount,
                        near_amount: a.near_amount,
                        stake_decreasing_type: a.stake_decreasing_type,
                        refundable_near_amount: a.refundable_near_amount,
                        staking_contract_version: a.staking_contract_version,
                    },
                )
            },
            None => DecreaseCallbackOutcome::Failed(
                CallbackResult { is_success: false, network_epoch_height },
            ),
        }
    }

    /// Settles the unstake call of a requested stake decrease. On success
    /// the amount moves from the context's balance into the validator's
    /// collectable bucket, the matching request counter shrinks, and a
    /// fully-drained investment ticket is cleared with its storage deposit
    /// refunded to whoever paid it. On failure nothing changes.
    pub fn requested_decrease_validator_stake_callback_2(
        &mut self,
        a: UnstakeAction,
        is_success: bool,
        network_epoch_height: u64,
    ) -> (r: (CallbackResult, Option<Transfer>))
        requires
            old(self).well_formed(),
            is_success ==> old(self).validating.validator_registry@.contains_key(
                a.validator_account_id,
            ) && {
                let v = old(self).validating.validator_registry@[a.validator_account_id];
                match a.stake_decreasing_type {
                    StakeDecreasingType::Classic => a.near_amount
                        <= v.balance.classic_near_amount && a.near_amount <= old(
                        self,
                    ).fund.delayed_withdrawn_fund.needed_to_request_classic_near_amount,
                    StakeDecreasingType::Investment => a.near_amount
                        <= v.balance.investment_near_amount && a.near_amount <= old(
                        self,
                    ).fund.delayed_withdrawn_fund.needed_to_request_investment_near_amount && old(
                        self,
                    ).fund.delayed_withdrawn_fund.investment_withdrawal_registry@.contains_key(
                        a.validator_account_id,
                    ) && a.near_amount <= old(
                        self,
                    ).fund.delayed_withdrawn_fund.investment_withdrawal_registry@[a.validator_account_id].near_amount,
                }
            },
        ensures
            final(self).well_formed(),
            r.0 == (CallbackResult { is_success, network_epoch_height }),
            is_success ==> {
                let v = old(self).validating.validator_registry@[a.validator_account_id];
                let tickets = old(
                    self,
                ).fund.delayed_withdrawn_fund.investment_withdrawal_registry@;
                // Conservation: the pool's tracked asset is untouched, and
                // the validator's balance only changes buckets.
                &&& final(self).spec_tracked_asset_total() == old(
                    self,
                ).spec_tracked_asset_total()
                &&& final(self).validating.validator_registry@[a.validator_account_id].balance.spec_total()
                    == v.balance.spec_total()
                &&& final(self).validating.validator_registry@ == old(
                    self,
                ).validating.validator_registry@.insert(
                    a.validator_account_id,
                    (Validator {
                        balance: (match a.stake_decreasing_type {
                            StakeDecreasingType::Classic => crate::validator::ValidatorBalance {
                                classic_near_amount: (v.balance.classic_near_amount
                                    - a.near_amount) as u128,
                                requested_to_withdrawal_near_amount: (
                                v.balance.requested_to_withdrawal_near_amount
                                    + a.near_amount) as u128,
                                ..v.balance
                            },
                            StakeDecreasingType::Investment => crate::validator::ValidatorBalance {
                                investment_near_amount: (v.balance.investment_near_amount
                                    - a.near_amount) as u128,
                                requested_to_withdrawal_near_amount: (
                                v.balance.requested_to_withdrawal_near_amount
                                    + a.near_amount) as u128,
                                ..v.balance
                            },
                        }),
                        ..v
                    }),
                )
                &&& (match a.stake_decreasing_type {
                    StakeDecreasingType::Classic => {
                        &&& final(self).fund.delayed_withdrawn_fund.needed_to_request_classic_near_amount
                            == old(
                            self,
                        ).fund.delayed_withdrawn_fund.needed_to_request_classic_near_amount
                            - a.near_amount
                        &&& final(self).fund.delayed_withdrawn_fund.needed_to_request_investment_near_amount
                            == old(
                            self,
                        ).fund.delayed_withdrawn_fund.needed_to_request_investment_near_amount
                        &&& final(self).fund.delayed_withdrawn_fund.investment_withdrawal_registry@
                            == tickets
                        &&& r.1 is None
                    },
                    StakeDecreasingType::Investment => {
                        let ticket = tickets[a.validator_account_id];
                        &&& final(self).fund.delayed_withdrawn_fund.needed_to_request_investment_near_amount
                            == old(
                            self,
                        ).fund.delayed_withdrawn_fund.needed_to_request_investment_near_amount
                            - a.near_amount
                        &&& final(self).fund.delayed_withdrawn_fund.needed_to_request_classic_near_amount
                            == old(
                            self,
                        ).fund.delayed_withdrawn_fund.needed_to_request_classic_near_amount
                        &&& (if a.near_amount < ticket.near_amount {
                            &&& final(self).fund.delayed_withdrawn_fund.investment_withdrawal_registry@
                                == tickets.insert(
                                a.validator_account_id,
                                (crate::delayed::InvestmentWithdrawal {
                                    near_amount: (ticket.near_amount - a.near_amount) as u128,
                                    account_id: ticket.account_id,
                                }),
                            )
                            &&& r.1 is None
                        } else {
                            &&& final(self).fund.delayed_withdrawn_fund.investment_withdrawal_registry@
                                == tickets.remove(a.validator_account_id)
                            &&& r.1 == Some(
                                Transfer {
                                    receiver_account_id: ticket.account_id,
                                    near_amount: a.refundable_near_amount,
                                },
                            )
                        })
                    },
                })
                &&& final(self).fund.delayed_withdrawn_fund.balance == old(
                    self,
                ).fund.delayed_withdrawn_fund.balance
                &&& final(self).fund.delayed_withdrawn_fund.delayed_withdrawal_registry == old(
                    self,
                ).fund.delayed_withdrawn_fund.delayed_withdrawal_registry
                &&& final(self).fund.delayed_withdrawn_fund.storage_usage_per_delayed_withdrawal
                    == old(self).fund.delayed_withdrawn_fund.storage_usage_per_delayed_withdrawal
                &&& final(self).fund.delayed_withdrawn_fund.storage_usage_per_investment_withdrawal
                    == old(self).fund.delayed_withdrawn_fund.storage_usage_per_investment_withdrawal
                &&& same_fund_buckets(*old(self), *final(self))
                &&& same_token(*old(self), *final(self))
                &&& final(self).validating.investor_investment_registry == old(
                    self,
                ).validating.investor_investment_registry
                &&& final(self).validating.validators_quantity == old(
                    self,
                ).validating.validators_quantity
                &&& final(self).validating.preffered_validator == old(
                    self,
                ).validating.preffered_validator
                &&& final(self).validating.quantity_of_validators_updated_in_current_epoch == old(
                    self,
                ).validating.quantity_of_validators_updated_in_current_epoch
                &&& final(self).validating.storage_usage_per_validator == old(
                    self,
                ).validating.storage_usage_per_validator
                &&& final(self).validating.storage_usage_per_investor_investment == old(
                    self,
                ).validating.storage_usage_per_investor_investment
                &&& final(self).validating.storage_usage_per_distribution == old(
                    self,
                ).validating.storage_usage_per_distribution
            },
            !is_success ==> *final(self) == *old(self) && r.1 is None,
            same_ids_and_fees(*old(self), *final(self)),
            same_reward_and_epoch(*old(self), *final(self)),
    {
        if !is_success {
            return (CallbackResult { is_success: false, network_epoch_height }, None);
        }

        let mut validator = match self.validating.validator_registry.get(a.validator_account_id) {
            Some(validator) => *validator,
            None => {
                // Unreachable: the initiating operation saw it registered.
                proof {
                    assert(false);
                }
                Validator::new(crate::validator::StakingContractVersion::Core, false, 0)
            },
        };

        let mut refund: Option<Transfer> = None;

        match a.stake_decreasing_type {
            StakeDecreasingType::Classic => {
                validator.balance.classic_near_amount = validator.balance.classic_near_amount
                    - a.near_amount;
                self.fund.delayed_withdrawn_fund.needed_to_request_classic_near_amount =
                    self.fund.delayed_withdrawn_fund.needed_to_request_classic_near_amount
                    - a.near_amount;
            },
            StakeDecreasingType::Investment => {
                let investment_withdrawal =
                    match self.fund.delayed_withdrawn_fund.investment_withdrawal_registry.get(
                    a.validator_account_id,
                ) {
                    Some(ticket) => *ticket,
                    None => {
                        // Unreachable: the initiating operation saw the ticket.
                        proof {
                            assert(false);
                        }
                        crate::delayed::InvestmentWithdrawal { near_amount: 0, account_id: 0 }
                    },
                };
                if a.near_amount < investment_withdrawal.near_amount {
                    self.fund.delayed_withdrawn_fund.investment_withdrawal_registry.insert(
                        a.validator_account_id,
                        crate::delayed::InvestmentWithdrawal {
                            near_amount: investment_withdrawal.near_amount - a.near_amount,
                            account_id: investment_withdrawal.account_id,
                        },
                    );
                } else {
                    self.fund.delayed_withdrawn_fund.investment_withdrawal_registry.remove(
                        a.validator_account_id,
                    );
                    refund = Some(
                        Transfer {
                            receiver_account_id: investment_withdrawal.account_id,
                            near_amount: a.refundable_near_amount,
                        },
                    );
                }
                validator.balance.investment_near_amount = validator.balance.investment_near_amount
                    - a.near_amount;
                self.fund.delayed_withdrawn_fund.needed_to_request_investment_near_amount =
                    self.fund.delayed_withdrawn_fund.needed_to_request_investment_near_amount
                    - a.near_amount;
            },
        }

        validator.balance.requested_to_withdrawal_near_amount =
            validator.balance.requested_to_withdrawal_near_amount + a.near_amount;
        self.validating.validator_registry.insert(a.validator_account_id, validator);

        (CallbackResult { is_success: true, network_epoch_height }, refund)
    }

    /// Settles the collection of a validator's unstaked balance: on success
    /// the asset becomes the delayed-withdrawal fund's liquid balance.
    pub fn take_unstaked_balance_callback(
        &mut self,
        a: TakeUnstakedBalanceAction,
        is_success: bool,
        network_epoch_height: u64,
    ) -> (r: CallbackResult)
        requires
            old(self).well_formed(),
            is_success ==> old(self).validating.validator_registry@.contains_key(
                a.validator_account_id,
            ) && a.near_amount <= old(
                self,
            ).validating.validator_registry@[a.validator_account_id].balance.requested_to_withdrawal_near_amount
                && old(self).fund.delayed_withdrawn_fund.balance + a.near_amount <= u128::MAX,
        ensures
            final(self).well_formed(),
            r == (CallbackResult { is_success, network_epoch_height }),
            is_success ==> {
                let v = old(self).validating.validator_registry@[a.validator_account_id];
                // Conservation: the collected asset moves from the
                // validator's balance into the pool's settled balance.
                &&& final(self).spec_tracked_asset_total()
                    + final(self).validating.validator_registry@[a.validator_account_id].balance.spec_total()
                    == old(self).spec_tracked_asset_total() + v.balance.spec_total()
                &&& final(self).fund.delayed_withdrawn_fund.balance == old(
                    self,
                ).fund.delayed_withdrawn_fund.balance + a.near_amount
                &&& final(self).validating.validator_registry@ == old(
                    self,
                ).validating.validator_registry@.insert(
                    a.validator_account_id,
                    (Validator {
                        balance: crate::validator::ValidatorBalance {
                            requested_to_withdrawal_near_amount: (
                            v.balance.requested_to_withdrawal_near_amount
                                - a.near_amount) as u128,
                            ..v.balance
                        },
                        ..v
                    }),
                )
                &&& final(self).fund.delayed_withdrawn_fund.delayed_withdrawal_registry == old(
                    self,
                ).fund.delayed_withdrawn_fund.delayed_withdrawal_registry
                &&& final(self).fund.delayed_withdrawn_fund.investment_withdrawal_registry == old(
                    self,
                ).fund.delayed_withdrawn_fund.investment_withdrawal_registry
                &&& final(self).fund.delayed_withdrawn_fund.needed_to_request_classic_near_amount
                    == old(self).fund.delayed_withdrawn_fund.needed_to_request_classic_near_amount
                &&& final(self).fund.delayed_withdrawn_fund.needed_to_request_investment_near_amount
                    == old(
                    self,
                ).fund.delayed_withdrawn_fund.needed_to_request_investment_near_amount
                &&& final(self).fund.delayed_withdrawn_fund.storage_usage_per_delayed_withdrawal
                    == old(self).fund.delayed_withdrawn_fund.storage_usage_per_delayed_withdrawal
                &&& final(self).fund.delayed_withdrawn_fund.storage_usage_per_investment_withdrawal
                    == old(self).fund.delayed_withdrawn_fund.storage_usage_per_investment_withdrawal
                &&& same_fund_buckets(*old(self), *final(self))
                &&& same_token(*old(self), *final(self))
                &&& final(self).validating.investor_investment_registry == old(
                    self,
                ).validating.investor_investment_registry
                &&& final(self).validating.validators_quantity == old(
                    self,
                ).validating.validators_quantity
                &&& final(self).validating.preffered_validator == old(
                    self,
                ).validating.preffered_validator
                &&& final(self).validating.quantity_of_validators_updated_in_current_epoch == old(
                    self,
                ).validating.quantity_of_validators_updated_in_current_epoch
                &&& final(self).validating.storage_usage_per_validator == old(
                    self,
                ).validating.storage_usage_per_validator
                &&& final(self).validating.storage_usage_per_investor_investment == old(
                    self,
                ).validating.storage_usage_per_investor_investment
                &&& final(self).validating.storage_usage_per_distribution == old(
                    self,
                ).validating.storage_usage_per_distribution
            },
            !is_success ==> *final(self) == *old(self),
            same_ids_and_fees(*old(self), *final(self)),
            same_reward_and_epoch(*old(self), *final(self)),
    {
        if !is_success {
            return CallbackResult { is_success: false, network_epoch_height };
        }

        let mut validator = match self.validating.validator_registry.get(a.validator_account_id) {
            Some(validator) => *validator,
            None => {
                // Unreachable: the initiating operation saw it registered.
                proof {
                    assert(false);
                }
                Validator::new(crate::validator::StakingContractVersion::Core, false, 0)
            },
        };

        self.fund.delayed_withdrawn_fund.balance = self.fund.delayed_withdrawn_fund.balance
            + a.near_amount;

        validator.balance.requested_to_withdrawal_near_amount =
            validator.balance.requested_to_withdrawal_near_amount - a.near_amount;
        self.validating.validator_registry.insert(a.validator_account_id, validator);

        CallbackResult { is_success: true, network_epoch_height }
    }

    /// Settles a validator update: the externally reported total balance is
    /// compared with the tracked one and the whole difference is accrued as
    /// reward on the validator's default-context balance.
    pub fn update_validator_callback(
        &mut self,
        a: UpdateValidatorAction,
        new_total_balance: Option<u128>,
        network_epoch_height: u64,
    ) -> (r: CallbackResult)
        requires
            old(self).well_formed(),
            match new_total_balance {
                Some(b) => old(self).validating.validator_registry@.contains_key(
                    a.validator_account_id,
                ) && old(
                    self,
                ).validating.validator_registry@[a.validator_account_id].balance.spec_total() <= b
                    && old(self).validating.quantity_of_validators_updated_in_current_epoch
                    < u64::MAX && old(
                    self,
                ).reward.previous_epoch_rewards_from_validators_near_amount + (b - old(
                    self,
                ).validating.validator_registry@[a.validator_account_id].balance.spec_total())
                    <= u128::MAX,
                None => true,
            },
        ensures
            final(self).well_formed(),
            r == (CallbackResult {
                is_success: new_total_balance is Some,
                network_epoch_height,
            }),
            match new_total_balance {
                Some(b) => {
                    let v = old(self).validating.validator_registry@[a.validator_account_id];
                    let rewards = b - v.balance.spec_total();
                    // Conservation: the pool's tracked asset is untouched;
                    // the whole discrepancy accrues as reward on the
                    // validator's default balance.
                    &&& final(self).spec_tracked_asset_total() == old(
                        self,
                    ).spec_tracked_asset_total()
                    &&& final(self).validating.validator_registry@[a.validator_account_id].balance.spec_total()
                        == v.balance.spec_total() + rewards
                    &&& final(self).validating.validator_registry@ == old(
                        self,
                    ).validating.validator_registry@.insert(
                        a.validator_account_id,
                        (Validator {
                            balance: crate::validator::ValidatorBalance {
                                classic_near_amount: (v.balance.classic_near_amount
                                    + rewards) as u128,
                                ..v.balance
                            },
                            last_update_epoch_height: a.current_epoch_height,
                            ..v
                        }),
                    )
                    &&& final(self).validating.quantity_of_validators_updated_in_current_epoch
                        == old(self).validating.quantity_of_validators_updated_in_current_epoch
                        + 1
                    &&& final(self).reward.previous_epoch_rewards_from_validators_near_amount
                        == old(self).reward.previous_epoch_rewards_from_validators_near_amount
                        + rewards
                    &&& final(self).reward.total_rewards_from_validators_near_amount == old(
                        self,
                    ).reward.total_rewards_from_validators_near_amount
                    &&& final(self).validating.investor_investment_registry == old(
                        self,
                    ).validating.investor_investment_registry
                    &&& final(self).validating.validators_quantity == old(
                        self,
                    ).validating.validators_quantity
                    &&& final(self).validating.preffered_validator == old(
                        self,
                    ).validating.preffered_validator
                    &&& final(self).validating.storage_usage_per_validator == old(
                        self,
                    ).validating.storage_usage_per_validator
                    &&& final(self).validating.storage_usage_per_investor_investment == old(
                        self,
                    ).validating.storage_usage_per_investor_investment
                    &&& final(self).validating.storage_usage_per_distribution == old(
                        self,
                    ).validating.storage_usage_per_distribution
                    &&& same_token(*old(self), *final(self))
                    &&& same_fund_buckets(*old(self), *final(self))
                    &&& same_delayed(*old(self), *final(self))
                    &&& final(self).current_epoch_height == old(self).current_epoch_height
                },
                None => *final(self) == *old(self),
            },
            same_ids_and_fees(*old(self), *final(self)),
    {
        match new_total_balance {
            Some(new_balance) => {
                let mut validator = match self.validating.validator_registry.get(
                    a.validator_account_id,
                ) {
                    Some(validator) => *validator,
                    None => {
                        // Unreachable: the initiating operation saw it registered.
                        proof {
                            assert(false);
                        }
                        Validator::new(crate::validator::StakingContractVersion::Core, false, 0)
                    },
                };

                let staking_rewards_near_amount = new_balance - validator.balance.get_balance();

                validator.last_update_epoch_height = a.current_epoch_height;
                validator.balance.classic_near_amount = validator.balance.classic_near_amount
                    + staking_rewards_near_amount;

                self.validating.validator_registry.insert(a.validator_account_id, validator);
                self.validating.quantity_of_validators_updated_in_current_epoch =
                    self.validating.quantity_of_validators_updated_in_current_epoch + 1;

                self.reward.previous_epoch_rewards_from_validators_near_amount =
                    self.reward.previous_epoch_rewards_from_validators_near_amount
                    + staking_rewards_near_amount;

                CallbackResult { is_success: true, network_epoch_height }
            },
            None => CallbackResult { is_success: false, network_epoch_height },
        }
    }
}

} // verus!
