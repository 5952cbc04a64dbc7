//! Manager operations: validator lifecycle, epoch reconciliation, fees and
//! the preferred-validator pointer.

use vstd::prelude::*;
use crate::account::AccountBalance;
use crate::action::{
    StakeDecreaseAction, StakeIncreaseAction, TakeUnstakedBalanceAction, UpdateValidatorAction,
};
use crate::context::{calculate_storage_staking_price, spec_storage_price, EnvContext};
use crate::errors::PoolError;
use crate::fee::{Fee, SharedFee};
use crate::investor::InvestorInvestment;
use crate::pool::{
    same_delayed, same_fund_buckets, same_ids_and_fees, same_reward_and_epoch, same_token,
    same_validating, StakePool,
};
use crate::stake_decreasing_kind::StakeDecreasingType;
use crate::validator::{StakingContractVersion, Validator};

verus! {

impl StakePool {
    /// Why a manager-initiated stake increase would be refused.
    pub open spec fn increase_validator_stake_error(
        self,
        ctx: EnvContext,
        validator_account_id: u64,
        near_amount: u128,
    ) -> Option<PoolError> {
        if !ctx.gas_is_enough() {
            Some(PoolError::NotEnoughGas)
        } else if !self.epoch_is_synchronized(ctx) {
            Some(PoolError::EpochNotSynchronized)
        } else if !self.authorized_by_manager(ctx) {
            Some(PoolError::UnauthorizedManager)
        } else if near_amount == 0 {
            Some(PoolError::InsufficientAmount)
        } else if near_amount > self.fund.classic_unstaked_balance {
            Some(PoolError::UnstakedBalanceExceeded)
        } else if !self.validating.validator_registry@.contains_key(validator_account_id) {
            Some(PoolError::ValidatorNotRegistered)
        } else if self.validating.validator_registry@[validator_account_id].is_only_for_investment {
            Some(PoolError::ValidatorOnlyForInvestment)
        } else {
            None
        }
    }

    /// Asks for liquid asset to be staked on a validator. Nothing changes
    /// here: the ledger commit waits for `increase_validator_stake_callback`.
    pub fn increase_validator_stake(
        &mut self,
        ctx: EnvContext,
        validator_account_id: u64,
        near_amount: u128,
    ) -> (r: Result<StakeIncreaseAction, PoolError>)
        requires
            old(self).well_formed(),
        ensures
            *final(self) == *old(self),
            (old(self).increase_validator_stake_error(ctx, validator_account_id, near_amount)
                is Some <==> r is Err),
            match r {
                Err(e) => Some(e) == old(self).increase_validator_stake_error(
                    ctx,
                    validator_account_id,
                    near_amount,
                ),
                Ok(a) => a == (StakeIncreaseAction {
                    validator_account_id,
                    near_amount,
                    current_epoch_height: ctx.network_epoch_height,
                    staking_contract_version: old(
                        self,
                    ).validating.validator_registry@[validator_account_id].staking_contract_version,
                }),
            },
    {
        if ctx.prepaid_gas < crate::MINIMUM_GAS_AMOUNT {
            return Err(PoolError::NotEnoughGas);
        }
        if self.current_epoch_height != ctx.network_epoch_height {
            return Err(PoolError::EpochNotSynchronized);
        }
        if ctx.predecessor_account_id != self.account_registry.manager_id {
            return Err(PoolError::UnauthorizedManager);
        }
        if near_amount == 0 {
            return Err(PoolError::InsufficientAmount);
        }
        if near_amount > self.fund.classic_unstaked_balance {
            return Err(PoolError::UnstakedBalanceExceeded);
        }
        let validator = match self.validating.validator_registry.get(validator_account_id) {
            Some(validator) => *validator,
            None => {
                return Err(PoolError::ValidatorNotRegistered);
            },
        };
        if validator.is_only_for_investment {
            return Err(PoolError::ValidatorOnlyForInvestment);
        }
        Ok(
            StakeIncreaseAction {
                validator_account_id,
                near_amount,
                current_epoch_height: ctx.network_epoch_height,
                staking_contract_version: validator.staking_contract_version,
            },
        )
    }

    /// Why a requested stake decrease would be refused.
    pub open spec fn requested_decrease_validator_stake_error(
        self,
        ctx: EnvContext,
        validator_account_id: u64,
        near_amount: u128,
        stake_decreasing_type: StakeDecreasingType,
    ) -> Option<PoolError> {
        let validators = self.validating.validator_registry@;
        let tickets = self.fund.delayed_withdrawn_fund.investment_withdrawal_registry@;
        if !ctx.gas_is_enough() {
            Some(PoolError::NotEnoughGas)
        } else if !self.epoch_is_desynchronized(ctx) {
            Some(PoolError::EpochNotDesynchronized)
        } else if !self.authorized_by_manager(ctx) {
            Some(PoolError::UnauthorizedManager)
        } else if !Self::spec_is_right_epoch(ctx.network_epoch_height) {
            Some(PoolError::WrongEpochForUnstake)
        } else if near_amount == 0 {
            Some(PoolError::InsufficientAmount)
        } else if !validators.contains_key(validator_account_id) {
            Some(PoolError::ValidatorNotRegistered)
        } else {
            match stake_decreasing_type {
                StakeDecreasingType::Classic => {
                    if near_amount
                        > validators[validator_account_id].balance.classic_near_amount {
                        Some(PoolError::ValidatorBalanceExceeded)
                    } else if near_amount
                        > self.fund.delayed_withdrawn_fund.needed_to_request_classic_near_amount {
                        Some(PoolError::RequestedAmountExceeded)
                    } else {
                        None
                    }
                },
                StakeDecreasingType::Investment => {
                    if near_amount
                        > validators[validator_account_id].balance.investment_near_amount {
                        Some(PoolError::ValidatorBalanceExceeded)
                    } else if near_amount
                        > self.fund.delayed_withdrawn_fund.needed_to_request_investment_near_amount {
                        Some(PoolError::RequestedAmountExceeded)
                    } else if !tickets.contains_key(validator_account_id) {
                        Some(PoolError::InvestmentWithdrawalNotRegistered)
                    } else if near_amount > tickets[validator_account_id].near_amount {
                        Some(PoolError::InvestmentWithdrawalExceeded)
                    } else {
                        None
                    }
                },
            }
        }
    }

    /// Asks for part of a validator's stake to be unstaked, to serve the
    /// delayed-withdrawal fund. Nothing changes here: the validator's
    /// unstaked balance is read first, and
    /// `requested_decrease_validator_stake_callback_1` carries on.
    pub fn requested_decrease_validator_stake(
        &mut self,
        ctx: EnvContext,
        validator_account_id: u64,
        near_amount: u128,
        stake_decreasing_type: StakeDecreasingType,
    ) -> (r: Result<StakeDecreaseAction, PoolError>)
        requires
            old(self).well_formed(),
            old(self).storage_prices_fit(ctx),
        ensures
            *final(self) == *old(self),
            (old(self).requested_decrease_validator_stake_error(
                ctx,
                validator_account_id,
                near_amount,
                stake_decreasing_type,
            ) is Some <==> r is Err),
            match r {
                Err(e) => Some(e) == old(self).requested_decrease_validator_stake_error(
                    ctx,
                    validator_account_id,
                    near_amount,
                    stake_decreasing_type,
                ),
                Ok(a) => a == (StakeDecreaseAction {
                    validator_account_id,
                    near_amount,
                    stake_decreasing_type,
                    refundable_near_amount: spec_storage_price(
                        ctx.storage_byte_cost,
                        old(self).fund.delayed_withdrawn_fund.storage_usage_per_investment_withdrawal,
                    ) as u128,
                    staking_contract_version: old(
                        self,
                    ).validating.validator_registry@[validator_account_id].staking_contract_version,
                }),
            },
    {
        if ctx.prepaid_gas < crate::MINIMUM_GAS_AMOUNT {
            return Err(PoolError::NotEnoughGas);
        }
        if !(self.current_epoch_height < ctx.network_epoch_height) {
            return Err(PoolError::EpochNotDesynchronized);
        }
        if ctx.predecessor_account_id != self.account_registry.manager_id {
            return Err(PoolError::UnauthorizedManager);
        }
        if !Self::is_right_epoch(ctx.network_epoch_height) {
            return Err(PoolError::WrongEpochForUnstake);
        }
        if near_amount == 0 {
            return Err(PoolError::InsufficientAmount);
        }
        let validator = match self.validating.validator_registry.get(validator_account_id) {
            Some(validator) => *validator,
            None => {
                return Err(PoolError::ValidatorNotRegistered);
            },
        };
        match stake_decreasing_type {
            StakeDecreasingType::Classic => {
                if near_amount > validator.balance.classic_near_amount {
                    return Err(PoolError::ValidatorBalanceExceeded);
                }
                if near_amount
                    > self.fund.delayed_withdrawn_fund.needed_to_request_classic_near_amount {
                    return Err(PoolError::RequestedAmountExceeded);
                }
            },
            StakeDecreasingType::Investment => {
                if near_amount > validator.balance.investment_near_amount {
                    return Err(PoolError::ValidatorBalanceExceeded);
                }
                if near_amount
                    > self.fund.delayed_withdrawn_fund.needed_to_request_investment_near_amount {
                    return Err(PoolError::RequestedAmountExceeded);
                }
                match self.fund.delayed_withdrawn_fund.investment_withdrawal_registry.get(
                    validator_account_id,
                ) {
                    Some(ticket) => {
                        if near_amount > ticket.near_amount {
                            return Err(PoolError::InvestmentWithdrawalExceeded);
                        }
                    },
                    None => {
                        return Err(PoolError::InvestmentWithdrawalNotRegistered);
                    },
                }
            },
        }
        Ok(
            StakeDecreaseAction {
                validator_account_id,
                near_amount,
                stake_decreasing_type,
                refundable_near_amount: calculate_storage_staking_price(
                    ctx.storage_byte_cost,
                    self.fund.delayed_withdrawn_fund.storage_usage_per_investment_withdrawal,
                ),
                staking_contract_version: validator.staking_contract_version,
            },
        )
    }

    /// Why collecting a validator's unstaked balance would be refused.
    pub open spec fn take_unstaked_balance_error(self, ctx: EnvContext, validator_account_id: u64)
        -> Option<PoolError> {
        let validators = self.validating.validator_registry@;
        if !ctx.gas_is_enough() {
            Some(PoolError::NotEnoughGas)
        } else if !self.epoch_is_desynchronized(ctx) {
            Some(PoolError::EpochNotDesynchronized)
        } else if !self.authorized_by_manager(ctx) {
            Some(PoolError::UnauthorizedManager)
        } else if !Self::spec_is_right_epoch(ctx.network_epoch_height) {
            Some(PoolError::WrongEpochForUnstake)
        } else if !validators.contains_key(validator_account_id) {
            Some(PoolError::ValidatorNotRegistered)
        } else if validators[validator_account_id].balance.requested_to_withdrawal_near_amount
            == 0 {
            Some(PoolError::InsufficientUnstakedBalance)
        } else if validators[validator_account_id].last_update_epoch_height
            >= ctx.network_epoch_height {
            Some(PoolError::ValidatorAlreadyUpdated)
        } else {
            None
        }
    }

    /// Asks for a validator's already-unstaked asset to be withdrawn into
    /// the delayed-withdrawal fund. Nothing changes here: the ledger commit
    /// waits for `take_unstaked_balance_callback`.
    pub fn take_unstaked_balance(&mut self, ctx: EnvContext, validator_account_id: u64) -> (r:
        Result<TakeUnstakedBalanceAction, PoolError>)
        requires
            old(self).well_formed(),
        ensures
            *final(self) == *old(self),
            (old(self).take_unstaked_balance_error(ctx, validator_account_id) is Some <==> r
                is Err),
            match r {
                Err(e) => Some(e) == old(self).take_unstaked_balance_error(
                    ctx,
                    validator_account_id,
                ),
                Ok(a) => a == (TakeUnstakedBalanceAction {
                    validator_account_id,
                    near_amount: old(
                        self,
                    ).validating.validator_registry@[validator_account_id].balance.requested_to_withdrawal_near_amount,
                    staking_contract_version: old(
                        self,
                    ).validating.validator_registry@[validator_account_id].staking_contract_version,
                }),
            },
    {
        if ctx.prepaid_gas < crate::MINIMUM_GAS_AMOUNT {
            return Err(PoolError::NotEnoughGas);
        }
        if !(self.current_epoch_height < ctx.network_epoch_height) {
            return Err(PoolError::EpochNotDesynchronized);
        }
        if ctx.predecessor_account_id != self.account_registry.manager_id {
            return Err(PoolError::UnauthorizedManager);
        }
        if !Self::is_right_epoch(ctx.network_epoch_height) {
            return Err(PoolError::WrongEpochForUnstake);
        }
        let validator = match self.validating.validator_registry.get(validator_account_id) {
            Some(validator) => *validator,
            None => {
                return Err(PoolError::ValidatorNotRegistered);
            },
        };
        if validator.balance.requested_to_withdrawal_near_amount == 0 {
            return Err(PoolError::InsufficientUnstakedBalance);
        }
        if validator.last_update_epoch_height >= ctx.network_epoch_height {
            return Err(PoolError::ValidatorAlreadyUpdated);
        }
        Ok(
            TakeUnstakedBalanceAction {
                validator_account_id,
                near_amount: validator.balance.requested_to_withdrawal_near_amount,
                staking_contract_version: validator.staking_contract_version,
            },
        )
    }

    /// Why a validator update would be refused.
    pub open spec fn update_validator_error(self, ctx: EnvContext, validator_account_id: u64)
        -> Option<PoolError> {
        let validators = self.validating.validator_registry@;
        if !ctx.gas_is_enough() {
            Some(PoolError::NotEnoughGas)
        } else if !self.epoch_is_desynchronized(ctx) {
            Some(PoolError::EpochNotDesynchronized)
        } else if !self.authorized_by_manager(ctx) {
            Some(PoolError::UnauthorizedManager)
        } else if !validators.contains_key(validator_account_id) {
            Some(PoolError::ValidatorNotRegistered)
        } else if validators[validator_account_id].last_update_epoch_height
            >= ctx.network_epoch_height {
            Some(PoolError::ValidatorAlreadyUpdated)
        } else {
            None
        }
    }

    /// Asks for a validator's total balance so its rewards can be accrued.
    /// Nothing changes here: the commit waits for `update_validator_callback`.
    pub fn update_validator(&mut self, ctx: EnvContext, validator_account_id: u64) -> (r: Result<
        UpdateValidatorAction,
        PoolError,
    >)
        requires
            old(self).well_formed(),
        ensures
            *final(self) == *old(self),
            (old(self).update_validator_error(ctx, validator_account_id) is Some <==> r is Err),
            match r {
                Err(e) => Some(e) == old(self).update_validator_error(ctx, validator_account_id),
                Ok(a) => a == (UpdateValidatorAction {
                    validator_account_id,
                    current_epoch_height: ctx.network_epoch_height,
                    staking_contract_version: old(
                        self,
                    ).validating.validator_registry@[validator_account_id].staking_contract_version,
                }),
            },
    {
        if ctx.prepaid_gas < crate::MINIMUM_GAS_AMOUNT {
            return Err(PoolError::NotEnoughGas);
        }
        if !(self.current_epoch_height < ctx.network_epoch_height) {
            return Err(PoolError::EpochNotDesynchronized);
        }
        if ctx.predecessor_account_id != self.account_registry.manager_id {
            return Err(PoolError::UnauthorizedManager);
        }
        let validator = match self.validating.validator_registry.get(validator_account_id) {
            Some(validator) => *validator,
            None => {
                return Err(PoolError::ValidatorNotRegistered);
            },
        };
        if validator.last_update_epoch_height >= ctx.network_epoch_height {
            return Err(PoolError::ValidatorAlreadyUpdated);
        }
        Ok(
            UpdateValidatorAction {
                validator_account_id,
                current_epoch_height: ctx.network_epoch_height,
                staking_contract_version: validator.staking_contract_version,
            },
        )
    }

    /// Share equivalent of the pending rewards, valued after they are folded
    /// into the staked bucket.
    pub open spec fn spec_update_reward_tokens(self) -> u128 {
        Self::spec_convert_near_to_token_at(
            self.fungible_token.total_supply,
            self.fund.spec_common_balance()
                + self.reward.previous_epoch_rewards_from_validators_near_amount,
            self.reward.previous_epoch_rewards_from_validators_near_amount,
        ) as u128
    }

    /// The raw reward-fee cut minted as new shares on update.
    pub open spec fn spec_update_fee_raw(self) -> int {
        match self.fee_registry.reward_fee {
            Some(sf) => sf.spec_raw_cut(self.spec_update_reward_tokens()),
            None => 0,
        }
    }

    /// The partner's part of the reward fee.
    pub open spec fn spec_update_fee_partner(self) -> int {
        match self.fee_registry.reward_fee {
            Some(sf) => sf.spec_partner_cut(self.spec_update_reward_tokens()),
            None => 0,
        }
    }

    /// The share-account map after the reward-fee shares are credited.
    pub open spec fn spec_update_accounts(self) -> Map<u64, AccountBalance> {
        let m0 = self.fungible_token.account_registry@;
        let self_r = self.account_registry.self_fee_receiver_account_id;
        let partner_r = self.account_registry.partner_fee_receiver_account_id;
        let raw = self.spec_update_fee_raw();
        let partner_cut = self.spec_update_fee_partner();
        if raw == 0 {
            m0
        } else {
            let m1 = if partner_cut != 0 {
                m0.insert(
                    partner_r,
                    crate::pool_ops::spec_credit_token(m0[partner_r], partner_cut),
                )
            } else {
                m0
            };
            m1.insert(
                self_r,
                crate::pool_ops::spec_credit_token(m0[self_r], raw - partner_cut),
            )
        }
    }

    /// Why an epoch update would be refused.
    pub open spec fn update_error(self, ctx: EnvContext) -> Option<PoolError> {
        let qty = self.validating.validators_quantity;
        let updated = self.validating.quantity_of_validators_updated_in_current_epoch;
        if !ctx.gas_is_enough() {
            Some(PoolError::NotEnoughGas)
        } else if !self.epoch_is_desynchronized(ctx) {
            Some(PoolError::EpochNotDesynchronized)
        } else if !self.authorized_by_manager(ctx) {
            Some(PoolError::UnauthorizedManager)
        } else if qty > 0 && (updated / qty == 0 || updated % qty != 0) {
            Some(PoolError::SomeValidatorsNotUpdated)
        } else if qty > 0 && Self::spec_is_right_epoch(ctx.network_epoch_height)
            && (self.fund.delayed_withdrawn_fund.needed_to_request_classic_near_amount > 0
            || self.fund.delayed_withdrawn_fund.needed_to_request_investment_near_amount > 0) {
            Some(PoolError::SomeFundsNotUnstaked)
        } else {
            None
        }
    }

    /// The machine limits an epoch update must stay within.
    pub open spec fn update_fits(self, ctx: EnvContext) -> bool {
        let prev = self.reward.previous_epoch_rewards_from_validators_near_amount;
        let raw = self.spec_update_fee_raw();
        &&& self.fund.spec_common_balance() + prev <= u128::MAX
        &&& Self::spec_convert_near_to_token_at(
            self.fungible_token.total_supply,
            self.fund.spec_common_balance() + prev,
            prev,
        ) <= u128::MAX
        &&& self.fungible_token.total_supply + raw <= u128::MAX
        &&& self.spec_account_or_empty(
            self.account_registry.self_fee_receiver_account_id,
        ).token_amount + raw <= u128::MAX
        &&& self.spec_account_or_empty(
            self.account_registry.partner_fee_receiver_account_id,
        ).token_amount + raw <= u128::MAX
        &&& self.reward.total_rewards_from_validators_near_amount + prev <= u128::MAX
    }

    /// Advances the pool epoch to the network epoch once every validator has
    /// been brought up to date. Folds the pending rewards into the staked
    /// bucket, mints the reward fee as shares to the receivers, and reopens
    /// user operations.
    pub fn update(&mut self, ctx: EnvContext) -> (r: Result<(), PoolError>)
        requires
            old(self).well_formed(),
            old(self).update_fits(ctx),
        ensures
            final(self).well_formed(),
            (old(self).update_error(ctx) is Some <==> r is Err),
            match r {
                Err(e) => Some(e) == old(self).update_error(ctx) && *final(self) == *old(self),
                Ok(_) => {
                    let with_validators = old(self).validating.validators_quantity > 0;
                    let prev = old(
                        self,
                    ).reward.previous_epoch_rewards_from_validators_near_amount;
                    let raw = old(self).spec_update_fee_raw();
                    &&& final(self).current_epoch_height == ctx.network_epoch_height
                    &&& !final(self).fund.is_distributed_on_validators_in_current_epoch
                    // Conservation: only the accrued rewards enter the
                    // tracked asset.
                    &&& final(self).spec_tracked_asset_total() == old(
                        self,
                    ).spec_tracked_asset_total() + (if with_validators {
                        prev as int
                    } else {
                        0int
                    })
                    &&& final(self).fund.classic_staked_balance == old(
                        self,
                    ).fund.classic_staked_balance + (if with_validators {
                        prev as int
                    } else {
                        0int
                    })
                    &&& final(self).fund.classic_unstaked_balance == old(
                        self,
                    ).fund.classic_unstaked_balance
                    &&& final(self).fund.investment_staked_balance == old(
                        self,
                    ).fund.investment_staked_balance
                    &&& final(self).fund.classic_liquidity_balance == old(
                        self,
                    ).fund.classic_liquidity_balance
                    &&& same_delayed(*old(self), *final(self))
                    &&& final(self).validating.quantity_of_validators_updated_in_current_epoch
                        == (if with_validators {
                        0int
                    } else {
                        old(self).validating.quantity_of_validators_updated_in_current_epoch as int
                    })
                    &&& final(self).validating.validator_registry == old(
                        self,
                    ).validating.validator_registry
                    &&& final(self).validating.investor_investment_registry == old(
                        self,
                    ).validating.investor_investment_registry
                    &&& final(self).validating.validators_quantity == old(
                        self,
                    ).validating.validators_quantity
                    &&& final(self).validating.preffered_validator == old(
                        self,
                    ).validating.preffered_validator
                    &&& final(self).validating.storage_usage_per_validator == old(
                        self,
                    ).validating.storage_usage_per_validator
                    &&& final(self).validating.storage_usage_per_investor_investment == old(
                        self,
                    ).validating.storage_usage_per_investor_investment
                    &&& final(self).validating.storage_usage_per_distribution == old(
                        self,
                    ).validating.storage_usage_per_distribution
                    &&& final(self).reward.previous_epoch_rewards_from_validators_near_amount == (
                    if with_validators {
                        0int
                    } else {
                        prev as int
                    })
                    &&& final(self).reward.total_rewards_from_validators_near_amount == old(
                        self,
                    ).reward.total_rewards_from_validators_near_amount + (if with_validators {
                        prev as int
                    } else {
                        0int
                    })
                    &&& final(self).fungible_token.total_supply == old(
                        self,
                    ).fungible_token.total_supply + (if with_validators {
                        raw
                    } else {
                        0int
                    })
                    &&& final(self).fungible_token.account_registry@ == (if with_validators {
                        old(self).spec_update_accounts()
                    } else {
                        old(self).fungible_token.account_registry@
                    })
                    &&& final(self).fungible_token.accounts_quantity == old(
                        self,
                    ).fungible_token.accounts_quantity
                    &&& final(self).fungible_token.storage_usage_per_account == old(
                        self,
                    ).fungible_token.storage_usage_per_account
                    &&& same_ids_and_fees(*old(self), *final(self))
                },
            },
    {
        if ctx.prepaid_gas < crate::MINIMUM_GAS_AMOUNT {
            return Err(PoolError::NotEnoughGas);
        }
        if !(self.current_epoch_height < ctx.network_epoch_height) {
            return Err(PoolError::EpochNotDesynchronized);
        }
        if ctx.predecessor_account_id != self.account_registry.manager_id {
            return Err(PoolError::UnauthorizedManager);
        }

        if self.validating.validators_quantity > 0 {
            let qty = self.validating.validators_quantity;
            let updated = self.validating.quantity_of_validators_updated_in_current_epoch;
            if updated / qty == 0 || updated % qty != 0 {
                return Err(PoolError::SomeValidatorsNotUpdated);
            }
            if Self::is_right_epoch(ctx.network_epoch_height)
                && (self.fund.delayed_withdrawn_fund.needed_to_request_classic_near_amount > 0
                || self.fund.delayed_withdrawn_fund.needed_to_request_investment_near_amount
                    > 0) {
                return Err(PoolError::SomeFundsNotUnstaked);
            }

            let previous_rewards =
                self.reward.previous_epoch_rewards_from_validators_near_amount;
            self.fund.classic_staked_balance = self.fund.classic_staked_balance
                + previous_rewards;
            self.validating.quantity_of_validators_updated_in_current_epoch = 0;
            self.reward.total_rewards_from_validators_near_amount =
                self.reward.total_rewards_from_validators_near_amount + previous_rewards;

            let (reward_tokens, _remainder) = self.convert_near_amount_to_token_amount(
                previous_rewards,
            );

            match self.fee_registry.reward_fee {
                Some(reward_fee) => {
                    let (fee_self_cut, fee_partner_cut) = reward_fee.split(reward_tokens);
                    let raw = fee_self_cut + fee_partner_cut;
                    if raw != 0 {
                        self.fungible_token.total_supply = self.fungible_token.total_supply + raw;

                        if fee_partner_cut != 0 {
                            let mut partner_balance =
                                match self.fungible_token.account_registry.get(
                                self.account_registry.partner_fee_receiver_account_id,
                            ) {
                                Some(balance) => *balance,
                                None => {
                                    // Unreachable: the fee receivers are pinned.
                                    proof {
                                        assert(false);
                                    }
                                    AccountBalance::empty()
                                },
                            };
                            partner_balance.token_amount = partner_balance.token_amount
                                + fee_partner_cut;
                            let ghost pre_entries =
                                self.fungible_token.account_registry.entries();
                            let prev = self.fungible_token.account_registry.insert(
                                self.account_registry.partner_fee_receiver_account_id,
                                partner_balance,
                            );
                            proof {
                                crate::pool_ops::lemma_account_store_sum(
                                    pre_entries,
                                    self.fungible_token.account_registry.entries(),
                                    self.account_registry.partner_fee_receiver_account_id,
                                    partner_balance,
                                    prev,
                                );
                            }
                        }

                        let mut self_balance = match self.fungible_token.account_registry.get(
                            self.account_registry.self_fee_receiver_account_id,
                        ) {
                            Some(balance) => *balance,
                            None => {
                                // Unreachable: the fee receivers are pinned.
                                proof {
                                    assert(false);
                                }
                                AccountBalance::empty()
                            },
                        };
                        self_balance.token_amount = self_balance.token_amount + fee_self_cut;
                        let ghost pre_entries = self.fungible_token.account_registry.entries();
                        let prev = self.fungible_token.account_registry.insert(
                            self.account_registry.self_fee_receiver_account_id,
                            self_balance,
                        );
                        proof {
                            crate::pool_ops::lemma_account_store_sum(
                                pre_entries,
                                self.fungible_token.account_registry.entries(),
                                self.account_registry.self_fee_receiver_account_id,
                                self_balance,
                                prev,
                            );
                        }
                    }
                },
                None => {},
            }

            self.reward.previous_epoch_rewards_from_validators_near_amount = 0;
        }

        self.fund.is_distributed_on_validators_in_current_epoch = false;
        self.current_epoch_height = ctx.network_epoch_height;

        Ok(())
    }

    /// Why adding a validator would be refused.
    pub open spec fn add_validator_error(
        self,
        ctx: EnvContext,
        validator_account_id: u64,
        is_only_for_investment: bool,
        is_preferred: bool,
    ) -> Option<PoolError> {
        if !ctx.gas_is_enough() {
            Some(PoolError::NotEnoughGas)
        } else if !ctx.natural_deposit() {
            Some(PoolError::NoAttachedDeposit)
        } else if !self.epoch_is_synchronized(ctx) {
            Some(PoolError::EpochNotSynchronized)
        } else if !self.authorized_by_manager(ctx) {
            Some(PoolError::UnauthorizedManager)
        } else if is_preferred && is_only_for_investment {
            Some(PoolError::PreferredCannotBeInvestment)
        } else if ctx.attached_deposit < spec_storage_price(
            ctx.storage_byte_cost,
            self.validating.storage_usage_per_validator,
        ) {
            Some(PoolError::InsufficientDeposit)
        } else if self.validating.validator_registry@.contains_key(validator_account_id) {
            Some(PoolError::ValidatorAlreadyRegistered)
        } else {
            None
        }
    }

    /// Registers a validator with a prepaid storage deposit, optionally
    /// making it the preferred one. Returns the refundable excess payment.
    pub fn add_validator(
        &mut self,
        ctx: EnvContext,
        validator_account_id: u64,
        staking_contract_version: StakingContractVersion,
        is_only_for_investment: bool,
        is_preferred: bool,
    ) -> (r: Result<u128, PoolError>)
        requires
            old(self).well_formed(),
            old(self).storage_prices_fit(ctx),
        ensures
            final(self).well_formed(),
            (old(self).add_validator_error(
                ctx,
                validator_account_id,
                is_only_for_investment,
                is_preferred,
            ) is Some <==> r is Err),
            match r {
                Err(e) => Some(e) == old(self).add_validator_error(
                    ctx,
                    validator_account_id,
                    is_only_for_investment,
                    is_preferred,
                ) && *final(self) == *old(self),
                Ok(refund) => {
                    &&& refund == ctx.attached_deposit - spec_storage_price(
                        ctx.storage_byte_cost,
                        old(self).validating.storage_usage_per_validator,
                    )
                    &&& final(self).validating.validator_registry@ == old(
                        self,
                    ).validating.validator_registry@.insert(
                        validator_account_id,
                        (Validator {
                            balance: crate::validator::ValidatorBalance {
                                classic_near_amount: 0,
                                investment_near_amount: 0,
                                requested_to_withdrawal_near_amount: 0,
                            },
                            staking_contract_version,
                            is_only_for_investment,
                            last_update_epoch_height: ctx.network_epoch_height,
                            last_classic_stake_increasing_epoch_height: None::<u64>,
                        }),
                    )
                    &&& final(self).validating.validators_quantity == old(
                        self,
                    ).validating.validators_quantity + 1
                    &&& final(self).validating.preffered_validator == (if is_preferred {
                        Some(validator_account_id)
                    } else {
                        old(self).validating.preffered_validator
                    })
                    &&& final(self).validating.investor_investment_registry == old(
                        self,
                    ).validating.investor_investment_registry
                    &&& final(self).validating.quantity_of_validators_updated_in_current_epoch
                        == old(self).validating.quantity_of_validators_updated_in_current_epoch
                    &&& final(self).validating.storage_usage_per_validator == old(
                        self,
                    ).validating.storage_usage_per_validator
                    &&& final(self).validating.storage_usage_per_investor_investment == old(
                        self,
                    ).validating.storage_usage_per_investor_investment
                    &&& final(self).validating.storage_usage_per_distribution == old(
                        self,
                    ).validating.storage_usage_per_distribution
                    &&& same_token(*old(self), *final(self))
                    &&& same_fund_buckets(*old(self), *final(self))
                    &&& same_delayed(*old(self), *final(self))
                    &&& same_ids_and_fees(*old(self), *final(self))
                    &&& same_reward_and_epoch(*old(self), *final(self))
                },
            },
    {
        if ctx.prepaid_gas < crate::MINIMUM_GAS_AMOUNT {
            return Err(PoolError::NotEnoughGas);
        }
        if ctx.attached_deposit == 0 {
            return Err(PoolError::NoAttachedDeposit);
        }
        if self.current_epoch_height != ctx.network_epoch_height {
            return Err(PoolError::EpochNotSynchronized);
        }
        if ctx.predecessor_account_id != self.account_registry.manager_id {
            return Err(PoolError::UnauthorizedManager);
        }
        if is_preferred && is_only_for_investment {
            return Err(PoolError::PreferredCannotBeInvestment);
        }
        let storage_price = calculate_storage_staking_price(
            ctx.storage_byte_cost,
            self.validating.storage_usage_per_validator,
        );
        if ctx.attached_deposit < storage_price {
            return Err(PoolError::InsufficientDeposit);
        }
        if self.validating.validator_registry.contains_key(validator_account_id) {
            return Err(PoolError::ValidatorAlreadyRegistered);
        }

        self.validating.validator_registry.insert(
            validator_account_id,
            Validator::new(
                staking_contract_version,
                is_only_for_investment,
                ctx.network_epoch_height,
            ),
        );
        let registered = self.validating.validator_registry.len();
        self.validating.validators_quantity = registered as u64;

        if is_preferred {
            self.validating.preffered_validator = Some(validator_account_id);
        }

        Ok(ctx.attached_deposit - storage_price)
    }

    /// Why removing a validator would be refused.
    pub open spec fn remove_validator_error(self, ctx: EnvContext, validator_account_id: u64)
        -> Option<PoolError> {
        let validators = self.validating.validator_registry@;
        if !ctx.gas_is_enough() {
            Some(PoolError::NotEnoughGas)
        } else if !self.epoch_is_synchronized(ctx) {
            Some(PoolError::EpochNotSynchronized)
        } else if !self.authorized_by_manager(ctx) {
            Some(PoolError::UnauthorizedManager)
        } else if !validators.contains_key(validator_account_id) {
            Some(PoolError::ValidatorNotRegistered)
        } else if validators[validator_account_id].balance.classic_near_amount > 0
            || validators[validator_account_id].balance.investment_near_amount > 0
            || validators[validator_account_id].balance.requested_to_withdrawal_near_amount > 0 {
            Some(PoolError::ValidatorHasBalance)
        } else {
            None
        }
    }

    /// Removes a drained validator, refunding its storage deposit.
    pub fn remove_validator(&mut self, ctx: EnvContext, validator_account_id: u64) -> (r: Result<
        u128,
        PoolError,
    >)
        requires
            old(self).well_formed(),
            old(self).storage_prices_fit(ctx),
        ensures
            final(self).well_formed(),
            (old(self).remove_validator_error(ctx, validator_account_id) is Some <==> r is Err),
            match r {
                Err(e) => Some(e) == old(self).remove_validator_error(ctx, validator_account_id)
                    && *final(self) == *old(self),
                Ok(refund) => {
                    &&& refund == spec_storage_price(
                        ctx.storage_byte_cost,
                        old(self).validating.storage_usage_per_validator,
                    )
                    &&& final(self).validating.validator_registry@ == old(
                        self,
                    ).validating.validator_registry@.remove(validator_account_id)
                    &&& final(self).validating.validators_quantity == old(
                        self,
                    ).validating.validators_quantity - 1
                    &&& final(self).validating.preffered_validator == (
                    if old(self).validating.preffered_validator == Some(validator_account_id) {
                        None::<u64>
                    } else {
                        old(self).validating.preffered_validator
                    })
                    &&& final(self).validating.investor_investment_registry == old(
                        self,
                    ).validating.investor_investment_registry
                    &&& final(self).validating.quantity_of_validators_updated_in_current_epoch
                        == old(self).validating.quantity_of_validators_updated_in_current_epoch
                    &&& final(self).validating.storage_usage_per_validator == old(
                        self,
                    ).validating.storage_usage_per_validator
                    &&& final(self).validating.storage_usage_per_investor_investment == old(
                        self,
                    ).validating.storage_usage_per_investor_investment
                    &&& final(self).validating.storage_usage_per_distribution == old(
                        self,
                    ).validating.storage_usage_per_distribution
                    &&& same_token(*old(self), *final(self))
                    &&& same_fund_buckets(*old(self), *final(self))
                    &&& same_delayed(*old(self), *final(self))
                    &&& same_ids_and_fees(*old(self), *final(self))
                    &&& same_reward_and_epoch(*old(self), *final(self))
                },
            },
    {
        if ctx.prepaid_gas < crate::MINIMUM_GAS_AMOUNT {
            return Err(PoolError::NotEnoughGas);
        }
        if self.current_epoch_height != ctx.network_epoch_height {
            return Err(PoolError::EpochNotSynchronized);
        }
        if ctx.predecessor_account_id != self.account_registry.manager_id {
            return Err(PoolError::UnauthorizedManager);
        }
        let validator = match self.validating.validator_registry.get(validator_account_id) {
            Some(validator) => *validator,
            None => {
                return Err(PoolError::ValidatorNotRegistered);
            },
        };
        if validator.balance.classic_near_amount > 0 || validator.balance.investment_near_amount
            > 0 || validator.balance.requested_to_withdrawal_near_amount > 0 {
            return Err(PoolError::ValidatorHasBalance);
        }

        self.validating.validator_registry.remove(validator_account_id);
        let registered = self.validating.validator_registry.len();
        self.validating.validators_quantity = registered as u64;

        match self.validating.preffered_validator {
            Some(preffered) => {
                if preffered == validator_account_id {
                    self.validating.preffered_validator = None;
                }
            },
            None => {},
        }

        Ok(
            calculate_storage_staking_price(
                ctx.storage_byte_cost,
                self.validating.storage_usage_per_validator,
            ),
        )
    }

    /// Why flipping a validator's investment-only flag would be refused.
    pub open spec fn change_validator_investment_context_error(
        self,
        ctx: EnvContext,
        validator_account_id: u64,
        is_only_for_investment: bool,
    ) -> Option<PoolError> {
        let validators = self.validating.validator_registry@;
        if !ctx.gas_is_enough() {
            Some(PoolError::NotEnoughGas)
        } else if !self.epoch_is_synchronized(ctx) {
            Some(PoolError::EpochNotSynchronized)
        } else if !self.authorized_by_manager(ctx) {
            Some(PoolError::UnauthorizedManager)
        } else if !validators.contains_key(validator_account_id) {
            Some(PoolError::ValidatorNotRegistered)
        } else if validators[validator_account_id].is_only_for_investment
            == is_only_for_investment {
            Some(PoolError::SameState)
        } else if is_only_for_investment && self.validating.preffered_validator == Some(
            validator_account_id,
        ) {
            Some(PoolError::PreferredCannotBeInvestment)
        } else if is_only_for_investment
            && validators[validator_account_id].balance.classic_near_amount > 0 {
            Some(PoolError::ValidatorHasBalance)
        } else {
            None
        }
    }

    /// Flips whether a validator takes only investment stakes.
    pub fn change_validator_investment_context(
        &mut self,
        ctx: EnvContext,
        validator_account_id: u64,
        is_only_for_investment: bool,
    ) -> (r: Result<(), PoolError>)
        requires
            old(self).well_formed(),
        ensures
            final(self).well_formed(),
            (old(self).change_validator_investment_context_error(
                ctx,
                validator_account_id,
                is_only_for_investment,
            ) is Some <==> r is Err),
            match r {
                Err(e) => Some(e) == old(self).change_validator_investment_context_error(
                    ctx,
                    validator_account_id,
                    is_only_for_investment,
                ) && *final(self) == *old(self),
                Ok(_) => {
                    let v = old(self).validating.validator_registry@[validator_account_id];
                    &&& final(self).validating.validator_registry@ == old(
                        self,
                    ).validating.validator_registry@.insert(
                        validator_account_id,
                        (Validator { is_only_for_investment, ..v }),
                    )
                    &&& final(self).validating.validators_quantity == old(
                        self,
                    ).validating.validators_quantity
                    &&& final(self).validating.preffered_validator == old(
                        self,
                    ).validating.preffered_validator
                    &&& final(self).validating.investor_investment_registry == old(
                        self,
                    ).validating.investor_investment_registry
                    &&& final(self).validating.quantity_of_validators_updated_in_current_epoch
                        == old(self).validating.quantity_of_validators_updated_in_current_epoch
                    &&& final(self).validating.storage_usage_per_validator == old(
                        self,
                    ).validating.storage_usage_per_validator
                    &&& final(self).validating.storage_usage_per_investor_investment == old(
                        self,
                    ).validating.storage_usage_per_investor_investment
                    &&& final(self).validating.storage_usage_per_distribution == old(
                        self,
                    ).validating.storage_usage_per_distribution
                    &&& same_token(*old(self), *final(self))
                    &&& same_fund_buckets(*old(self), *final(self))
                    &&& same_delayed(*old(self), *final(self))
                    &&& same_ids_and_fees(*old(self), *final(self))
                    &&& same_reward_and_epoch(*old(self), *final(self))
                },
            },
    {
        if ctx.prepaid_gas < crate::MINIMUM_GAS_AMOUNT {
            return Err(PoolError::NotEnoughGas);
        }
        if self.current_epoch_height != ctx.network_epoch_height {
            return Err(PoolError::EpochNotSynchronized);
        }
        if ctx.predecessor_account_id != self.account_registry.manager_id {
            return Err(PoolError::UnauthorizedManager);
        }
        let mut validator = match self.validating.validator_registry.get(validator_account_id) {
            Some(validator) => *validator,
            None => {
                return Err(PoolError::ValidatorNotRegistered);
            },
        };
        if validator.is_only_for_investment == is_only_for_investment {
            return Err(PoolError::SameState);
        }
        if is_only_for_investment {
            match self.validating.preffered_validator {
                Some(preffered) => {
                    if preffered == validator_account_id {
                        return Err(PoolError::PreferredCannotBeInvestment);
                    }
                },
                None => {},
            }
            if validator.balance.classic_near_amount > 0 {
                return Err(PoolError::ValidatorHasBalance);
            }
        }

        validator.is_only_for_investment = is_only_for_investment;
        self.validating.validator_registry.insert(validator_account_id, validator);
        Ok(())
    }

    /// Why changing the preferred validator would be refused.
    pub open spec fn change_preffered_validator_error(
        self,
        ctx: EnvContext,
        validator_account_id: Option<u64>,
    ) -> Option<PoolError> {
        if !ctx.gas_is_enough() {
            Some(PoolError::NotEnoughGas)
        } else if !self.epoch_is_synchronized(ctx) {
            Some(PoolError::EpochNotSynchronized)
        } else if !self.authorized_by_manager(ctx) {
            Some(PoolError::UnauthorizedManager)
        } else {
            match validator_account_id {
                Some(v) => {
                    if !self.validating.validator_registry@.contains_key(v) {
                        Some(PoolError::ValidatorNotRegistered)
                    } else if self.validating.preffered_validator == Some(v) {
                        Some(PoolError::SameState)
                    } else if self.validating.validator_registry@[v].is_only_for_investment {
                        Some(PoolError::PreferredCannotBeInvestment)
                    } else {
                        None
                    }
                },
                None => {
                    if self.validating.preffered_validator is None {
                        Some(PoolError::SameState)
                    } else {
                        None
                    }
                },
            }
        }
    }

    /// Points the pool's default-deposit flow at another validator, or at
    /// none.
    pub fn change_preffered_validator(
        &mut self,
        ctx: EnvContext,
        validator_account_id: Option<u64>,
    ) -> (r: Result<(), PoolError>)
        requires
            old(self).well_formed(),
        ensures
            final(self).well_formed(),
            (old(self).change_preffered_validator_error(ctx, validator_account_id) is Some <==> r
                is Err),
            match r {
                Err(e) => Some(e) == old(self).change_preffered_validator_error(
                    ctx,
                    validator_account_id,
                ) && *final(self) == *old(self),
                Ok(_) => {
                    &&& final(self).validating.preffered_validator == validator_account_id
                    &&& final(self).validating.validator_registry == old(
                        self,
                    ).validating.validator_registry
                    &&& final(self).validating.investor_investment_registry == old(
                        self,
                    ).validating.investor_investment_registry
                    &&& final(self).validating.validators_quantity == old(
                        self,
                    ).validating.validators_quantity
                    &&& final(self).validating.quantity_of_validators_updated_in_current_epoch
                        == old(self).validating.quantity_of_validators_updated_in_current_epoch
                    &&& final(self).validating.storage_usage_per_validator == old(
                        self,
                    ).validating.storage_usage_per_validator
                    &&& final(self).validating.storage_usage_per_investor_investment == old(
                        self,
                    ).validating.storage_usage_per_investor_investment
                    &&& final(self).validating.storage_usage_per_distribution == old(
                        self,
                    ).validating.storage_usage_per_distribution
                    &&& same_token(*old(self), *final(self))
                    &&& same_fund_buckets(*old(self), *final(self))
                    &&& same_delayed(*old(self), *final(self))
                    &&& same_ids_and_fees(*old(self), *final(self))
                    &&& same_reward_and_epoch(*old(self), *final(self))
                },
            },
    {
        if ctx.prepaid_gas < crate::MINIMUM_GAS_AMOUNT {
            return Err(PoolError::NotEnoughGas);
        }
        if self.current_epoch_height != ctx.network_epoch_height {
            return Err(PoolError::EpochNotSynchronized);
        }
        if ctx.predecessor_account_id != self.account_registry.manager_id {
            return Err(PoolError::UnauthorizedManager);
        }
        match validator_account_id {
            Some(new_preffered) => {
                let validator = match self.validating.validator_registry.get(new_preffered) {
                    Some(validator) => *validator,
                    None => {
                        return Err(PoolError::ValidatorNotRegistered);
                    },
                };
                match self.validating.preffered_validator {
                    Some(current) => {
                        if current == new_preffered {
                            return Err(PoolError::SameState);
                        }
                    },
                    None => {},
                }
                if validator.is_only_for_investment {
                    return Err(PoolError::PreferredCannotBeInvestment);
                }
                self.validating.preffered_validator = Some(new_preffered);
            },
            None => {
                if self.validating.preffered_validator.is_none() {
                    return Err(PoolError::SameState);
                }
                self.validating.preffered_validator = None;
            },
        }
        Ok(())
    }

    /// Why adding an investor would be refused.
    pub open spec fn add_investor_error(self, ctx: EnvContext, investor_account_id: u64) -> Option<
        PoolError,
    > {
        if !ctx.gas_is_enough() {
            Some(PoolError::NotEnoughGas)
        } else if !ctx.natural_deposit() {
            Some(PoolError::NoAttachedDeposit)
        } else if !self.epoch_is_synchronized(ctx) {
            Some(PoolError::EpochNotSynchronized)
        } else if !self.authorized_by_manager(ctx) {
            Some(PoolError::UnauthorizedManager)
        } else if ctx.attached_deposit < spec_storage_price(
            ctx.storage_byte_cost,
            self.validating.storage_usage_per_investor_investment,
        ) {
            Some(PoolError::InsufficientDeposit)
        } else if self.validating.investor_investment_registry@.contains_key(
            investor_account_id,
        ) {
            Some(PoolError::InvestorAlreadyRegistered)
        } else {
            None
        }
    }

    /// Registers an investor with a prepaid storage deposit. Returns the
    /// refundable excess payment.
    pub fn add_investor(&mut self, ctx: EnvContext, investor_account_id: u64) -> (r: Result<
        u128,
        PoolError,
    >)
        requires
            old(self).well_formed(),
            old(self).storage_prices_fit(ctx),
        ensures
            final(self).well_formed(),
            (old(self).add_investor_error(ctx, investor_account_id) is Some <==> r is Err),
            match r {
                Err(e) => Some(e) == old(self).add_investor_error(ctx, investor_account_id)
                    && *final(self) == *old(self),
                Ok(refund) => {
                    &&& refund == ctx.attached_deposit - spec_storage_price(
                        ctx.storage_byte_cost,
                        old(self).validating.storage_usage_per_investor_investment,
                    )
                    &&& final(self).validating.investor_investment_registry@.contains_key(
                        investor_account_id,
                    )
                    &&& {
                        let added = final(self).validating.investor_investment_registry@[investor_account_id];
                        &&& added.staked_balance == 0
                        &&& added.distributions_quantity == 0
                        &&& added.distribution_registry@ == Map::<u64, u128>::empty()
                        &&& final(self).validating.investor_investment_registry@ == old(
                            self,
                        ).validating.investor_investment_registry@.insert(
                            investor_account_id,
                            added,
                        )
                    }
                    &&& final(self).validating.validator_registry == old(
                        self,
                    ).validating.validator_registry
                    &&& final(self).validating.validators_quantity == old(
                        self,
                    ).validating.validators_quantity
                    &&& final(self).validating.preffered_validator == old(
                        self,
                    ).validating.preffered_validator
                    &&& final(self).validating.quantity_of_validators_updated_in_current_epoch
                        == old(self).validating.quantity_of_validators_updated_in_current_epoch
                    &&& final(self).validating.storage_usage_per_validator == old(
                        self,
                    ).validating.storage_usage_per_validator
                    &&& final(self).validating.storage_usage_per_investor_investment == old(
                        self,
                    ).validating.storage_usage_per_investor_investment
                    &&& final(self).validating.storage_usage_per_distribution == old(
                        self,
                    ).validating.storage_usage_per_distribution
                    &&& same_token(*old(self), *final(self))
                    &&& same_fund_buckets(*old(self), *final(self))
                    &&& same_delayed(*old(self), *final(self))
                    &&& same_ids_and_fees(*old(self), *final(self))
                    &&& same_reward_and_epoch(*old(self), *final(self))
                },
            },
    {
        if ctx.prepaid_gas < crate::MINIMUM_GAS_AMOUNT {
            return Err(PoolError::NotEnoughGas);
        }
        if ctx.attached_deposit == 0 {
            return Err(PoolError::NoAttachedDeposit);
        }
        if self.current_epoch_height != ctx.network_epoch_height {
            return Err(PoolError::EpochNotSynchronized);
        }
        if ctx.predecessor_account_id != self.account_registry.manager_id {
            return Err(PoolError::UnauthorizedManager);
        }
        let storage_price = calculate_storage_staking_price(
            ctx.storage_byte_cost,
            self.validating.storage_usage_per_investor_investment,
        );
        if ctx.attached_deposit < storage_price {
            return Err(PoolError::InsufficientDeposit);
        }
        if self.validating.investor_investment_registry.contains_key(investor_account_id) {
            return Err(PoolError::InvestorAlreadyRegistered);
        }

        self.validating.investor_investment_registry.insert(
            investor_account_id,
            InvestorInvestment::new(),
        );

        Ok(ctx.attached_deposit - storage_price)
    }

    /// Why removing an investor would be refused.
    pub open spec fn remove_investor_error(self, ctx: EnvContext, investor_account_id: u64)
        -> Option<PoolError> {
        let investors = self.validating.investor_investment_registry@;
        if !ctx.gas_is_enough() {
            Some(PoolError::NotEnoughGas)
        } else if !self.epoch_is_synchronized(ctx) {
            Some(PoolError::EpochNotSynchronized)
        } else if !self.authorized_by_manager(ctx) {
            Some(PoolError::UnauthorizedManager)
        } else if !investors.contains_key(investor_account_id) {
            Some(PoolError::InvestorNotRegistered)
        } else if investors[investor_account_id].staked_balance > 0
            || investors[investor_account_id].distributions_quantity > 0 {
            Some(PoolError::InvestorHasBalance)
        } else {
            None
        }
    }

    /// Removes an investor without holdings, refunding the storage deposit.
    pub fn remove_investor(&mut self, ctx: EnvContext, investor_account_id: u64) -> (r: Result<
        u128,
        PoolError,
    >)
        requires
            old(self).well_formed(),
            old(self).storage_prices_fit(ctx),
        ensures
            final(self).well_formed(),
            (old(self).remove_investor_error(ctx, investor_account_id) is Some <==> r is Err),
            match r {
                Err(e) => Some(e) == old(self).remove_investor_error(ctx, investor_account_id)
                    && *final(self) == *old(self),
                Ok(refund) => {
                    &&& refund == spec_storage_price(
                        ctx.storage_byte_cost,
                        old(self).validating.storage_usage_per_investor_investment,
                    )
                    &&& final(self).validating.investor_investment_registry@ == old(
                        self,
                    ).validating.investor_investment_registry@.remove(investor_account_id)
                    &&& final(self).validating.validator_registry == old(
                        self,
                    ).validating.validator_registry
                    &&& final(self).validating.validators_quantity == old(
                        self,
                    ).validating.validators_quantity
                    &&& final(self).validating.preffered_validator == old(
                        self,
                    ).validating.preffered_validator
                    &&& final(self).validating.quantity_of_validators_updated_in_current_epoch
                        == old(self).validating.quantity_of_validators_updated_in_current_epoch
                    &&& final(self).validating.storage_usage_per_validator == old(
                        self,
                    ).validating.storage_usage_per_validator
                    &&& final(self).validating.storage_usage_per_investor_investment == old(
                        self,
                    ).validating.storage_usage_per_investor_investment
                    &&& final(self).validating.storage_usage_per_distribution == old(
                        self,
                    ).validating.storage_usage_per_distribution
                    &&& same_token(*old(self), *final(self))
                    &&& same_fund_buckets(*old(self), *final(self))
                    &&& same_delayed(*old(self), *final(self))
                    &&& same_ids_and_fees(*old(self), *final(self))
                    &&& same_reward_and_epoch(*old(self), *final(self))
                },
            },
    {
        if ctx.prepaid_gas < crate::MINIMUM_GAS_AMOUNT {
            return Err(PoolError::NotEnoughGas);
        }
        if self.current_epoch_height != ctx.network_epoch_height {
            return Err(PoolError::EpochNotSynchronized);
        }
        if ctx.predecessor_account_id != self.account_registry.manager_id {
            return Err(PoolError::UnauthorizedManager);
        }
        let has_balance = match self.validating.investor_investment_registry.get(
            investor_account_id,
        ) {
            Some(investor_investment) => {
                investor_investment.staked_balance > 0
                    || investor_investment.distributions_quantity > 0
            },
            None => {
                return Err(PoolError::InvestorNotRegistered);
            },
        };
        if has_balance {
            return Err(PoolError::InvestorHasBalance);
        }

        self.validating.investor_investment_registry.remove(investor_account_id);

        Ok(
            calculate_storage_staking_price(
                ctx.storage_byte_cost,
                self.validating.storage_usage_per_investor_investment,
            ),
        )
    }

    /// Why changing the manager would be refused.
    pub open spec fn change_manager_error(self, ctx: EnvContext) -> Option<PoolError> {
        if !ctx.gas_is_enough() {
            Some(PoolError::NotEnoughGas)
        } else if !self.epoch_is_synchronized(ctx) {
            Some(PoolError::EpochNotSynchronized)
        } else if !self.authorized_management(ctx) {
            Some(PoolError::UnauthorizedManagement)
        } else {
            None
        }
    }

    /// Hands pool management to another account. Open to the owner and the
    /// current manager.
    pub fn change_manager(&mut self, ctx: EnvContext, manager_id: u64) -> (r: Result<
        (),
        PoolError,
    >)
        requires
            old(self).well_formed(),
        ensures
            final(self).well_formed(),
            (old(self).change_manager_error(ctx) is Some <==> r is Err),
            match r {
                Err(e) => Some(e) == old(self).change_manager_error(ctx) && *final(self) == *old(
                    self,
                ),
                Ok(_) => {
                    &&& final(self).account_registry == (crate::account::AccountRegistry {
                        manager_id,
                        ..old(self).account_registry
                    })
                    &&& final(self).fee_registry == old(self).fee_registry
                    &&& same_token(*old(self), *final(self))
                    &&& same_fund_buckets(*old(self), *final(self))
                    &&& same_delayed(*old(self), *final(self))
                    &&& same_validating(*old(self), *final(self))
                    &&& same_reward_and_epoch(*old(self), *final(self))
                },
            },
    {
        if ctx.prepaid_gas < crate::MINIMUM_GAS_AMOUNT {
            return Err(PoolError::NotEnoughGas);
        }
        if self.current_epoch_height != ctx.network_epoch_height {
            return Err(PoolError::EpochNotSynchronized);
        }
        if ctx.predecessor_account_id != self.account_registry.owner_id
            && ctx.predecessor_account_id != self.account_registry.manager_id {
            return Err(PoolError::UnauthorizedManagement);
        }
        self.account_registry.manager_id = manager_id;
        Ok(())
    }

    /// Why a fee change would be refused: bad authorization, a partner fee
    /// standing alone, or an out-of-range fraction.
    pub open spec fn change_fee_error(
        self,
        ctx: EnvContext,
        fee_self: Option<Fee>,
        fee_partner: Option<Fee>,
    ) -> Option<PoolError> {
        if !ctx.gas_is_enough() {
            Some(PoolError::NotEnoughGas)
        } else if !self.epoch_is_synchronized(ctx) {
            Some(PoolError::EpochNotSynchronized)
        } else if !self.authorized_by_manager(ctx) {
            Some(PoolError::UnauthorizedManager)
        } else if fee_self is None && fee_partner is Some {
            Some(PoolError::InvalidFee)
        } else if match fee_self {
            Some(f) => !f.valid(),
            None => false,
        } {
            Some(PoolError::InvalidFee)
        } else if match fee_partner {
            Some(f) => !f.valid(),
            None => false,
        } {
            Some(PoolError::InvalidFee)
        } else {
            None
        }
    }

    /// The fee a change request resolves to.
    pub open spec fn spec_built_fee(fee_self: Option<Fee>, fee_partner: Option<Fee>) -> Option<
        SharedFee,
    > {
        match fee_self {
            Some(f) => Some(SharedFee { self_fee: f, partner_fee: fee_partner }),
            None => None,
        }
    }

    /// Replaces the reward fee.
    pub fn change_reward_fee(
        &mut self,
        ctx: EnvContext,
        reward_fee_self: Option<Fee>,
        reward_fee_partner: Option<Fee>,
    ) -> (r: Result<(), PoolError>)
        requires
            old(self).well_formed(),
        ensures
            final(self).well_formed(),
            (old(self).change_fee_error(ctx, reward_fee_self, reward_fee_partner) is Some <==> r
                is Err),
            match r {
                Err(e) => Some(e) == old(self).change_fee_error(
                    ctx,
                    reward_fee_self,
                    reward_fee_partner,
                ) && *final(self) == *old(self),
                Ok(_) => {
                    &&& final(self).fee_registry.reward_fee == Self::spec_built_fee(
                        reward_fee_self,
                        reward_fee_partner,
                    )
                    &&& final(self).fee_registry.instant_withdraw_fee == old(
                        self,
                    ).fee_registry.instant_withdraw_fee
                    &&& final(self).account_registry == old(self).account_registry
                    &&& same_token(*old(self), *final(self))
                    &&& same_fund_buckets(*old(self), *final(self))
                    &&& same_delayed(*old(self), *final(self))
                    &&& same_validating(*old(self), *final(self))
                    &&& same_reward_and_epoch(*old(self), *final(self))
                },
            },
    {
        if ctx.prepaid_gas < crate::MINIMUM_GAS_AMOUNT {
            return Err(PoolError::NotEnoughGas);
        }
        if self.current_epoch_height != ctx.network_epoch_height {
            return Err(PoolError::EpochNotSynchronized);
        }
        if ctx.predecessor_account_id != self.account_registry.manager_id {
            return Err(PoolError::UnauthorizedManager);
        }
        if reward_fee_self.is_none() && reward_fee_partner.is_some() {
            return Err(PoolError::InvalidFee);
        }
        let built = match reward_fee_self {
            Some(f) => {
                if !f.is_valid() {
                    return Err(PoolError::InvalidFee);
                }
                if let Some(p) = reward_fee_partner {
                    if !p.is_valid() {
                        return Err(PoolError::InvalidFee);
                    }
                }
                Some(SharedFee { self_fee: f, partner_fee: reward_fee_partner })
            },
            None => None,
        };
        self.fee_registry.reward_fee = built;
        Ok(())
    }

    /// Replaces the instant-withdraw fee.
    pub fn change_instant_withdraw_fee(
        &mut self,
        ctx: EnvContext,
        instant_withdraw_fee_self: Option<Fee>,
        instant_withdraw_fee_partner: Option<Fee>,
    ) -> (r: Result<(), PoolError>)
        requires
            old(self).well_formed(),
        ensures
            final(self).well_formed(),
            (old(self).change_fee_error(ctx, instant_withdraw_fee_self, instant_withdraw_fee_partner)
                is Some <==> r is Err),
            match r {
                Err(e) => Some(e) == old(self).change_fee_error(
                    ctx,
                    instant_withdraw_fee_self,
                    instant_withdraw_fee_partner,
                ) && *final(self) == *old(self),
                Ok(_) => {
                    &&& final(self).fee_registry.instant_withdraw_fee == Self::spec_built_fee(
                        instant_withdraw_fee_self,
                        instant_withdraw_fee_partner,
                    )
                    &&& final(self).fee_registry.reward_fee == old(self).fee_registry.reward_fee
                    &&& final(self).account_registry == old(self).account_registry
                    &&& same_token(*old(self), *final(self))
                    &&& same_fund_buckets(*old(self), *final(self))
                    &&& same_delayed(*old(self), *final(self))
                    &&& same_validating(*old(self), *final(self))
                    &&& same_reward_and_epoch(*old(self), *final(self))
                },
            },
    {
        if ctx.prepaid_gas < crate::MINIMUM_GAS_AMOUNT {
            return Err(PoolError::NotEnoughGas);
        }
        if self.current_epoch_height != ctx.network_epoch_height {
            return Err(PoolError::EpochNotSynchronized);
        }
        if ctx.predecessor_account_id != self.account_registry.manager_id {
            return Err(PoolError::UnauthorizedManager);
        }
        if instant_withdraw_fee_self.is_none() && instant_withdraw_fee_partner.is_some() {
            return Err(PoolError::InvalidFee);
        }
        let built = match instant_withdraw_fee_self {
            Some(f) => {
                if !f.is_valid() {
                    return Err(PoolError::InvalidFee);
                }
                if let Some(p) = instant_withdraw_fee_partner {
                    if !p.is_valid() {
                        return Err(PoolError::InvalidFee);
                    }
                }
                Some(SharedFee { self_fee: f, partner_fee: instant_withdraw_fee_partner })
            },
            None => None,
        };
        self.fee_registry.instant_withdraw_fee = built;
        Ok(())
    }

    /// Why confirming distribution would be refused.
    pub open spec fn confirm_stake_distribution_error(self, ctx: EnvContext) -> Option<PoolError> {
        if !ctx.gas_is_enough() {
            Some(PoolError::NotEnoughGas)
        } else if !self.epoch_is_synchronized(ctx) {
            Some(PoolError::EpochNotSynchronized)
        } else if !self.authorized_by_manager(ctx) {
            Some(PoolError::UnauthorizedManager)
        } else if self.fund.is_distributed_on_validators_in_current_epoch {
            Some(PoolError::AlreadyDistributed)
        } else {
            None
        }
    }

    /// Marks the pool's stake as distributed for this epoch, routing new
    /// deposits straight to the preferred validator.
    pub fn confirm_stake_distribution(&mut self, ctx: EnvContext) -> (r: Result<(), PoolError>)
        requires
            old(self).well_formed(),
        ensures
            final(self).well_formed(),
            (old(self).confirm_stake_distribution_error(ctx) is Some <==> r is Err),
            match r {
                Err(e) => Some(e) == old(self).confirm_stake_distribution_error(ctx) && *final(self)
                    == *old(self),
                Ok(_) => {
                    &&& final(self).fund.is_distributed_on_validators_in_current_epoch
                    &&& final(self).fund.classic_unstaked_balance == old(
                        self,
                    ).fund.classic_unstaked_balance
                    &&& final(self).fund.classic_staked_balance == old(
                        self,
                    ).fund.classic_staked_balance
                    &&& final(self).fund.investment_staked_balance == old(
                        self,
                    ).fund.investment_staked_balance
                    &&& final(self).fund.classic_liquidity_balance == old(
                        self,
                    ).fund.classic_liquidity_balance
                    &&& same_delayed(*old(self), *final(self))
                    &&& same_token(*old(self), *final(self))
                    &&& same_validating(*old(self), *final(self))
                    &&& same_ids_and_fees(*old(self), *final(self))
                    &&& same_reward_and_epoch(*old(self), *final(self))
                },
            },
    {
        if ctx.prepaid_gas < crate::MINIMUM_GAS_AMOUNT {
            return Err(PoolError::NotEnoughGas);
        }
        if self.current_epoch_height != ctx.network_epoch_height {
            return Err(PoolError::EpochNotSynchronized);
        }
        if ctx.predecessor_account_id != self.account_registry.manager_id {
            return Err(PoolError::UnauthorizedManager);
        }
        if self.fund.is_distributed_on_validators_in_current_epoch {
            return Err(PoolError::AlreadyDistributed);
        }
        self.fund.is_distributed_on_validators_in_current_epoch = true;
        Ok(())
    }
}

} // verus!
