//! The read-only query surface.

use vstd::prelude::*;
use crate::context::{calculate_storage_staking_price, spec_storage_price, EnvContext};
use crate::dto::{
    AccountBalanceDto, Aggregated, BaseAccountBalance, DelayedWithdrawalDetails,
    EpochHeightRegistry, Full, FullForAccount, FundDto, InvestmentAccountBalance,
    InvestorInvestmentDto, RequestedToWithdrawalFund, StorageStakingPrice,
    StorageStakingRequestedCoverage, ValidatorDto,
};
use crate::errors::PoolError;
use crate::fee::{FeeRegistry, FeeRegistryLight};
use crate::pool::StakePool;
use crate::validator::Validator;
use crate::MINIMUM_DEPOSIT_AMOUNT;

verus! {

/// The distribution entries an investor holds, walked in validator-registry
/// order.
pub open spec fn spec_distribution_view(
    validators: Seq<(u64, Validator)>,
    dist: Map<u64, u128>,
) -> Seq<(u64, u128)>
    decreases validators.len(),
{
    if validators.len() == 0 {
        Seq::empty()
    } else {
        let prefix = spec_distribution_view(validators.drop_last(), dist);
        let k = validators.last().0;
        if dist.contains_key(k) {
            prefix.push((k, dist[k]))
        } else {
            prefix
        }
    }
}

/// The investment-withdrawal tickets, walked in validator-registry order.
pub open spec fn spec_investment_withdrawal_view(
    validators: Seq<(u64, Validator)>,
    tickets: Map<u64, crate::delayed::InvestmentWithdrawal>,
) -> Seq<(u64, u128)>
    decreases validators.len(),
{
    if validators.len() == 0 {
        Seq::empty()
    } else {
        let prefix = spec_investment_withdrawal_view(validators.drop_last(), tickets);
        let k = validators.last().0;
        if tickets.contains_key(k) {
            prefix.push((k, tickets[k].near_amount))
        } else {
            prefix
        }
    }
}

/// Per-validator storage coverage for investment withdrawals: listed only
/// for validators the investor has a distribution on, with the ticket price
/// where no ticket exists yet.
pub open spec fn spec_coverage_iw_view(
    validators: Seq<(u64, Validator)>,
    dist: Map<u64, u128>,
    tickets: Map<u64, crate::delayed::InvestmentWithdrawal>,
    price: u128,
) -> Seq<(u64, u128)>
    decreases validators.len(),
{
    if validators.len() == 0 {
        Seq::empty()
    } else {
        let prefix = spec_coverage_iw_view(validators.drop_last(), dist, tickets, price);
        let k = validators.last().0;
        if dist.contains_key(k) {
            if tickets.contains_key(k) {
                prefix.push((k, 0))
            } else {
                prefix.push((k, price))
            }
        } else {
            prefix
        }
    }
}

impl StakePool {
    /// The caller's pending delayed withdrawal, while the pool is
    /// synchronized.
    pub fn get_delayed_withdrawal_details(&self, ctx: EnvContext, account_id: u64) -> (r: Result<
        Option<DelayedWithdrawalDetails>,
        PoolError,
    >)
        requires
            self.well_formed(),
        ensures
            (r is Err <==> !self.epoch_is_synchronized(ctx)),
            match r {
                Err(e) => e == PoolError::EpochNotSynchronized,
                Ok(details) => details == self.spec_delayed_details(account_id),
            },
    {
        if self.current_epoch_height != ctx.network_epoch_height {
            return Err(PoolError::EpochNotSynchronized);
        }
        match self.fund.delayed_withdrawn_fund.delayed_withdrawal_registry.get(account_id) {
            Some(ticket) => Ok(
                Some(
                    DelayedWithdrawalDetails {
                        epoch_quantity_to_take_delayed_withdrawal:
                            ticket.get_epoch_quantity_to_take_delayed_withdrawal(
                            self.current_epoch_height,
                        ),
                        near_amount: ticket.near_amount,
                    },
                ),
            ),
            None => Ok(None),
        }
    }

    /// The caller's pending delayed withdrawal, as the view reports it.
    pub open spec fn spec_delayed_details(self, account_id: u64) -> Option<
        DelayedWithdrawalDetails,
    > {
        let tickets = self.fund.delayed_withdrawn_fund.delayed_withdrawal_registry@;
        if tickets.contains_key(account_id) {
            Some(
                DelayedWithdrawalDetails {
                    epoch_quantity_to_take_delayed_withdrawal: tickets[account_id].spec_epochs_to_wait(
                        self.current_epoch_height,
                    ) as u64,
                    near_amount: tickets[account_id].near_amount,
                },
            )
        } else {
            None
        }
    }

    /// The machine limits the balance view must stay within, plus the
    /// ledger-consistency facts it leans on.
    pub open spec fn get_account_balance_fits(self, account_id: u64) -> bool {
        let b = self.spec_account_or_empty(account_id);
        let investors = self.validating.investor_investment_registry@;
        &&& self.spec_convert_token_to_near(b.token_amount) + b.classic_near_amount
            + b.investment_near_amount <= u128::MAX
        &&& (self.fungible_token.account_registry@.contains_key(account_id)
            && investors.contains_key(account_id) ==> {
            let common = self.spec_convert_token_to_near(b.token_amount) + b.classic_near_amount
                + b.investment_near_amount;
            &&& common >= investors[account_id].staked_balance
            &&& self.spec_convert_near_to_token(investors[account_id].staked_balance) + 1
                <= u128::MAX
            &&& self.spec_token_coverage(investors[account_id].staked_balance) <= b.token_amount
        })
    }

    /// Shares needed to fully cover `near_amount`: the conversion rounded
    /// up instead of down.
    pub open spec fn spec_token_coverage(self, near_amount: u128) -> int {
        if self.spec_remainder_of(near_amount) > 0 {
            self.spec_convert_near_to_token(near_amount) + 1
        } else {
            self.spec_convert_near_to_token(near_amount)
        }
    }

    /// An account's balances as the view reports them: the share-backed
    /// part and, for investors, the investment part with its
    /// ceiling-rounded share coverage.
    pub open spec fn spec_account_balance_dto(self, account_id: u64) -> AccountBalanceDto {
        let b = self.spec_account_or_empty(account_id);
        let has_account = self.fungible_token.account_registry@.contains_key(account_id);
        let investors = self.validating.investor_investment_registry@;
        let common = self.spec_convert_token_to_near(b.token_amount) + b.classic_near_amount
            + b.investment_near_amount;
        if has_account {
            if investors.contains_key(account_id) {
                let staked = investors[account_id].staked_balance;
                let coverage = self.spec_token_coverage(staked);
                AccountBalanceDto {
                    base_account_balance: Some(
                        BaseAccountBalance {
                            token_balance: b.token_amount,
                            common_near_balance: common as u128,
                            classic_near_balance: (common - staked) as u128,
                            classic_near_balance_token_coverage: (b.token_amount
                                - coverage) as u128,
                        },
                    ),
                    investment_account_balance: Some(
                        InvestmentAccountBalance {
                            near_balance: staked,
                            near_balance_token_coverage: coverage as u128,
                        },
                    ),
                }
            } else {
                AccountBalanceDto {
                    base_account_balance: Some(
                        BaseAccountBalance {
                            token_balance: b.token_amount,
                            common_near_balance: common as u128,
                            classic_near_balance: common as u128,
                            classic_near_balance_token_coverage: b.token_amount,
                        },
                    ),
                    investment_account_balance: None,
                }
            }
        } else {
            AccountBalanceDto {
                base_account_balance: None,
                investment_account_balance: (if investors.contains_key(account_id) {
                    Some(InvestmentAccountBalance { near_balance: 0, near_balance_token_coverage: 0 })
                } else {
                    None
                }),
            }
        }
    }

    /// An account's balances: the share-backed part and, for investors, the
    /// investment part with its ceiling-rounded share coverage.
    pub fn get_account_balance(&self, account_id: u64) -> (r: AccountBalanceDto)
        requires
            self.well_formed(),
            self.get_account_balance_fits(account_id),
        ensures
            r == self.spec_account_balance_dto(account_id),
    {
        match self.fungible_token.account_registry.get(account_id) {
            Some(balance) => {
                let account_balance = *balance;
                let common_near_balance = self.convert_token_amount_to_near_amount(
                    account_balance.token_amount,
                ) + account_balance.classic_near_amount
                    + account_balance.investment_near_amount;

                match self.validating.investor_investment_registry.get(account_id) {
                    Some(investor_investment) => {
                        let staked = investor_investment.staked_balance;
                        let (mut coverage, remainder) = self.convert_near_amount_to_token_amount(
                            staked,
                        );
                        if remainder > 0 {
                            coverage = coverage + 1;
                        }
                        AccountBalanceDto {
                            base_account_balance: Some(
                                BaseAccountBalance {
                                    token_balance: account_balance.token_amount,
                                    common_near_balance,
                                    classic_near_balance: common_near_balance - staked,
                                    classic_near_balance_token_coverage:
                                        account_balance.token_amount - coverage,
                                },
                            ),
                            investment_account_balance: Some(
                                InvestmentAccountBalance {
                                    near_balance: staked,
                                    near_balance_token_coverage: coverage,
                                },
                            ),
                        }
                    },
                    None => AccountBalanceDto {
                        base_account_balance: Some(
                            BaseAccountBalance {
                                token_balance: account_balance.token_amount,
                                common_near_balance,
                                classic_near_balance: common_near_balance,
                                classic_near_balance_token_coverage:
                                    account_balance.token_amount,
                            },
                        ),
                        investment_account_balance: None,
                    },
                }
            },
            None => {
                match self.validating.investor_investment_registry.get(account_id) {
                    Some(_) => AccountBalanceDto {
                        base_account_balance: None,
                        investment_account_balance: Some(
                            InvestmentAccountBalance {
                                near_balance: 0,
                                near_balance_token_coverage: 0,
                            },
                        ),
                    },
                    None => AccountBalanceDto {
                        base_account_balance: None,
                        investment_account_balance: None,
                    },
                }
            },
        }
    }

    /// The total share supply, while the pool is synchronized.
    pub fn get_total_token_supply(&self, ctx: EnvContext) -> (r: Result<u128, PoolError>)
        ensures
            (r is Err <==> !self.epoch_is_synchronized(ctx)),
            match r {
                Err(e) => e == PoolError::EpochNotSynchronized,
                Ok(supply) => supply == self.fungible_token.total_supply,
            },
    {
        if self.current_epoch_height != ctx.network_epoch_height {
            return Err(PoolError::EpochNotSynchronized);
        }
        Ok(self.fungible_token.total_supply)
    }

    /// The protocol's minimum deposit.
    pub fn get_minimum_deposit_amount(&self) -> (r: u128)
        ensures
            r == MINIMUM_DEPOSIT_AMOUNT,
    {
        MINIMUM_DEPOSIT_AMOUNT
    }

    /// The storage price of each registry entry kind at the given byte cost.
    pub open spec fn spec_storage_price_dto(self, ctx: EnvContext) -> StorageStakingPrice {
        StorageStakingPrice {
            per_delayed_withdrawal_fund_delayed_withdrawal: spec_storage_price(
                ctx.storage_byte_cost,
                self.fund.delayed_withdrawn_fund.storage_usage_per_delayed_withdrawal,
            ) as u128,
            per_delayed_withdrawal_fund_investment_withdrawal: spec_storage_price(
                ctx.storage_byte_cost,
                self.fund.delayed_withdrawn_fund.storage_usage_per_investment_withdrawal,
            ) as u128,
            per_fungible_token_account: spec_storage_price(
                ctx.storage_byte_cost,
                self.fungible_token.storage_usage_per_account,
            ) as u128,
            per_validating_node_validator: spec_storage_price(
                ctx.storage_byte_cost,
                self.validating.storage_usage_per_validator,
            ) as u128,
            per_validating_node_investor: spec_storage_price(
                ctx.storage_byte_cost,
                self.validating.storage_usage_per_investor_investment,
            ) as u128,
            per_validating_node_distribution: spec_storage_price(
                ctx.storage_byte_cost,
                self.validating.storage_usage_per_distribution,
            ) as u128,
        }
    }

    /// The storage price of each registry entry kind at the given byte cost.
    pub fn get_storage_staking_price(&self, ctx: EnvContext) -> (r: StorageStakingPrice)
        requires
            self.storage_prices_fit(ctx),
        ensures
            r == self.spec_storage_price_dto(ctx),
    {
        StorageStakingPrice {
            per_delayed_withdrawal_fund_delayed_withdrawal: calculate_storage_staking_price(
                ctx.storage_byte_cost,
                self.fund.delayed_withdrawn_fund.storage_usage_per_delayed_withdrawal,
            ),
            per_delayed_withdrawal_fund_investment_withdrawal: calculate_storage_staking_price(
                ctx.storage_byte_cost,
                self.fund.delayed_withdrawn_fund.storage_usage_per_investment_withdrawal,
            ),
            per_fungible_token_account: calculate_storage_staking_price(
                ctx.storage_byte_cost,
                self.fungible_token.storage_usage_per_account,
            ),
            per_validating_node_validator: calculate_storage_staking_price(
                ctx.storage_byte_cost,
                self.validating.storage_usage_per_validator,
            ),
            per_validating_node_investor: calculate_storage_staking_price(
                ctx.storage_byte_cost,
                self.validating.storage_usage_per_investor_investment,
            ),
            per_validating_node_distribution: calculate_storage_staking_price(
                ctx.storage_byte_cost,
                self.validating.storage_usage_per_distribution,
            ),
        }
    }

    /// The fund's aggregate balances as the view reports them.
    pub open spec fn spec_fund_dto(self) -> FundDto {
        FundDto {
            classic_unstaked_balance: self.fund.classic_unstaked_balance,
            classic_staked_balance: self.fund.classic_staked_balance,
            investment_staked_balance: self.fund.investment_staked_balance,
            common_staked_balance: self.fund.spec_staked_balance() as u128,
            common_balance: self.fund.spec_common_balance() as u128,
        }
    }

    /// The fund's aggregate balances, while the pool is synchronized.
    pub fn get_fund(&self, ctx: EnvContext) -> (r: Result<FundDto, PoolError>)
        requires
            self.well_formed(),
        ensures
            (r is Err <==> !self.epoch_is_synchronized(ctx)),
            match r {
                Err(e) => e == PoolError::EpochNotSynchronized,
                Ok(f) => f == self.spec_fund_dto(),
            },
    {
        if self.current_epoch_height != ctx.network_epoch_height {
            return Err(PoolError::EpochNotSynchronized);
        }
        Ok(
            FundDto {
                classic_unstaked_balance: self.fund.classic_unstaked_balance,
                classic_staked_balance: self.fund.classic_staked_balance,
                investment_staked_balance: self.fund.investment_staked_balance,
                common_staked_balance: self.fund.get_staked_balance(),
                common_balance: self.fund.get_common_balance(),
            },
        )
    }

    /// The full fee registry; open to the manager while synchronized.
    pub fn get_fee_registry(&self, ctx: EnvContext) -> (r: Result<FeeRegistry, PoolError>)
        ensures
            (r is Err <==> !self.epoch_is_synchronized(ctx) || !self.authorized_by_manager(ctx)),
            match r {
                Err(e) => e == (if !self.epoch_is_synchronized(ctx) {
                    PoolError::EpochNotSynchronized
                } else {
                    PoolError::UnauthorizedManager
                }),
                Ok(f) => f == self.fee_registry,
            },
    {
        if self.current_epoch_height != ctx.network_epoch_height {
            return Err(PoolError::EpochNotSynchronized);
        }
        if ctx.predecessor_account_id != self.account_registry.manager_id {
            return Err(PoolError::UnauthorizedManager);
        }
        Ok(self.fee_registry)
    }

    /// The primary fee fractions, while the pool is synchronized.
    pub fn get_fee_registry_light(&self, ctx: EnvContext) -> (r: Result<
        FeeRegistryLight,
        PoolError,
    >)
        ensures
            (r is Err <==> !self.epoch_is_synchronized(ctx)),
            match r {
                Err(e) => e == PoolError::EpochNotSynchronized,
                Ok(f) => f == self.spec_fee_registry_light(),
            },
    {
        if self.current_epoch_height != ctx.network_epoch_height {
            return Err(PoolError::EpochNotSynchronized);
        }
        Ok(self.fee_registry_light())
    }

    /// The primary fraction of each configured fee.
    pub open spec fn spec_fee_registry_light(self) -> FeeRegistryLight {
        FeeRegistryLight {
            reward_fee: match self.fee_registry.reward_fee {
                Some(f) => Some(f.self_fee),
                None => None,
            },
            instant_withdraw_fee: match self.fee_registry.instant_withdraw_fee {
                Some(f) => Some(f.self_fee),
                None => None,
            },
        }
    }

    fn fee_registry_light(&self) -> (r: FeeRegistryLight)
        ensures
            r == self.spec_fee_registry_light(),
    {
        FeeRegistryLight {
            reward_fee: match self.fee_registry.reward_fee {
                Some(f) => Some(f.self_fee),
                None => None,
            },
            instant_withdraw_fee: match self.fee_registry.instant_withdraw_fee {
                Some(f) => Some(f.self_fee),
                None => None,
            },
        }
    }

    /// The pool epoch beside the network epoch.
    pub fn get_current_epoch_height(&self, ctx: EnvContext) -> (r: EpochHeightRegistry)
        ensures
            r == (EpochHeightRegistry {
                pool_epoch_height: self.current_epoch_height,
                network_epoch_height: ctx.network_epoch_height,
            }),
    {
        EpochHeightRegistry {
            pool_epoch_height: self.current_epoch_height,
            network_epoch_height: ctx.network_epoch_height,
        }
    }

    /// Whether distribution was confirmed for this epoch.
    pub fn is_stake_distributed(&self) -> (r: bool)
        ensures
            r == self.fund.is_distributed_on_validators_in_current_epoch,
    {
        self.fund.is_distributed_on_validators_in_current_epoch
    }

    /// Whether `dto` is the investor view this pool reports for
    /// `account_id`.
    pub open spec fn spec_investor_dto_matches(
        self,
        account_id: u64,
        dto: Option<InvestorInvestmentDto>,
    ) -> bool {
        match dto {
            Some(d) => {
                let investors = self.validating.investor_investment_registry@;
                &&& investors.contains_key(account_id)
                &&& d.staked_balance == investors[account_id].staked_balance
                &&& d.distribution_registry@ == spec_distribution_view(
                    self.validating.validator_registry.entries(),
                    investors[account_id].distribution_registry@,
                )
            },
            None => !self.validating.investor_investment_registry@.contains_key(account_id),
        }
    }

    /// An investor's holdings, while the pool is synchronized.
    pub fn get_investor_investment(&self, ctx: EnvContext, account_id: u64) -> (r: Result<
        Option<InvestorInvestmentDto>,
        PoolError,
    >)
        requires
            self.well_formed(),
        ensures
            (r is Err <==> !self.epoch_is_synchronized(ctx)),
            match r {
                Err(e) => e == PoolError::EpochNotSynchronized,
                Ok(dto) => self.spec_investor_dto_matches(account_id, dto),
            },
    {
        if self.current_epoch_height != ctx.network_epoch_height {
            return Err(PoolError::EpochNotSynchronized);
        }

        let investor_investment = match self.validating.investor_investment_registry.get(
            account_id,
        ) {
            Some(investor_investment) => investor_investment,
            None => {
                return Ok(None);
            },
        };

        let mut distribution_registry: Vec<(u64, u128)> = Vec::new();
        let n = self.validating.validator_registry.len();
        let mut i: usize = 0;
        while i < n
            invariant
                i <= n,
                n == self.validating.validator_registry.entries().len(),
                self.validating.validator_registry.wf(),
                investor_investment.distribution_registry.wf(),
                distribution_registry@ == spec_distribution_view(
                    self.validating.validator_registry.entries().take(i as int),
                    investor_investment.distribution_registry@,
                ),
            decreases n - i,
        {
            let entry = self.validating.validator_registry.entry_at(i);
            let validator_account_id = entry.0;
            match investor_investment.distribution_registry.get(validator_account_id) {
                Some(staked_balance) => {
                    distribution_registry.push((validator_account_id, *staked_balance));
                },
                None => {},
            }
            proof {
                assert(self.validating.validator_registry.entries().take(i + 1).drop_last()
                    =~= self.validating.validator_registry.entries().take(i as int));
            }
            i = i + 1;
        }
        proof {
            assert(self.validating.validator_registry.entries().take(n as int)
                =~= self.validating.validator_registry.entries());
        }

        Ok(
            Some(
                InvestorInvestmentDto {
                    distribution_registry,
                    staked_balance: investor_investment.staked_balance,
                },
            ),
        )
    }

    /// All registered validators.
    pub fn get_validator_registry(&self) -> (r: Vec<ValidatorDto>)
        requires
            self.well_formed(),
        ensures
            r@.len() == self.validating.validator_registry.entries().len(),
            forall|i: int|
                0 <= i < r@.len() ==> #[trigger] r@[i] == Self::spec_validator_dto(
                    self.validating.validator_registry.entries()[i],
                ),
    {
        let mut validator_dto_registry: Vec<ValidatorDto> = Vec::new();
        let n = self.validating.validator_registry.len();
        let mut i: usize = 0;
        while i < n
            invariant
                i <= n,
                n == self.validating.validator_registry.entries().len(),
                validator_dto_registry@.len() == i,
                forall|j: int|
                    0 <= j < i ==> #[trigger] validator_dto_registry@[j]
                        == Self::spec_validator_dto(
                        self.validating.validator_registry.entries()[j],
                    ),
            decreases n - i,
        {
            let entry = self.validating.validator_registry.entry_at(i);
            validator_dto_registry.push(
                ValidatorDto {
                    account_id: entry.0,
                    unstaked_balance: entry.1.balance.requested_to_withdrawal_near_amount,
                    classic_staked_balance: entry.1.balance.classic_near_amount,
                    investment_staked_balance: entry.1.balance.investment_near_amount,
                    is_only_for_investment: entry.1.is_only_for_investment,
                    last_update_epoch_height: entry.1.last_update_epoch_height,
                    last_classic_stake_increasing_epoch_height:
                        entry.1.last_classic_stake_increasing_epoch_height,
                },
            );
            i = i + 1;
        }
        validator_dto_registry
    }

    /// How one validator entry is listed.
    pub open spec fn spec_validator_dto(entry: (u64, Validator)) -> ValidatorDto {
        ValidatorDto {
            account_id: entry.0,
            unstaked_balance: entry.1.balance.requested_to_withdrawal_near_amount,
            classic_staked_balance: entry.1.balance.classic_near_amount,
            investment_staked_balance: entry.1.balance.investment_near_amount,
            is_only_for_investment: entry.1.is_only_for_investment,
            last_update_epoch_height: entry.1.last_update_epoch_height,
            last_classic_stake_increasing_epoch_height:
                entry.1.last_classic_stake_increasing_epoch_height,
        }
    }

    /// The preferred validator, if one is set.
    pub fn get_preffered_validator(&self) -> (r: Option<ValidatorDto>)
        requires
            self.well_formed(),
        ensures
            match self.validating.preffered_validator {
                Some(v) => r == Some(
                    Self::spec_validator_dto((v, self.validating.validator_registry@[v])),
                ),
                None => r is None,
            },
    {
        match self.validating.preffered_validator {
            Some(preffered) => {
                let validator = match self.validating.validator_registry.get(preffered) {
                    Some(validator) => *validator,
                    None => {
                        // Unreachable: the preferred validator is always registered.
                        proof {
                            assert(false);
                        }
                        Validator::new(crate::validator::StakingContractVersion::Core, false, 0)
                    },
                };
                Some(
                    ValidatorDto {
                        account_id: preffered,
                        unstaked_balance: validator.balance.requested_to_withdrawal_near_amount,
                        classic_staked_balance: validator.balance.classic_near_amount,
                        investment_staked_balance: validator.balance.investment_near_amount,
                        is_only_for_investment: validator.is_only_for_investment,
                        last_update_epoch_height: validator.last_update_epoch_height,
                        last_classic_stake_increasing_epoch_height:
                            validator.last_classic_stake_increasing_epoch_height,
                    },
                )
            },
            None => None,
        }
    }

    /// Aggregate pool statistics, while the pool is synchronized.
    pub fn get_aggregated(&self, ctx: EnvContext) -> (r: Result<Aggregated, PoolError>)
        requires
            self.well_formed(),
        ensures
            (r is Err <==> !self.epoch_is_synchronized(ctx)),
            match r {
                Err(e) => e == PoolError::EpochNotSynchronized,
                Ok(a) => a == (Aggregated {
                    unstaked_balance: self.fund.classic_unstaked_balance,
                    staked_balance: self.fund.spec_staked_balance() as u128,
                    token_total_supply: self.fungible_token.total_supply,
                    token_accounts_quantity: self.fungible_token.accounts_quantity,
                    total_rewards_from_validators_near_amount:
                        self.reward.total_rewards_from_validators_near_amount,
                    reward_fee: self.spec_fee_registry_light().reward_fee,
                }),
            },
    {
        if self.current_epoch_height != ctx.network_epoch_height {
            return Err(PoolError::EpochNotSynchronized);
        }
        let light = self.fee_registry_light();
        Ok(
            Aggregated {
                unstaked_balance: self.fund.classic_unstaked_balance,
                staked_balance: self.fund.get_staked_balance(),
                token_total_supply: self.fungible_token.total_supply,
                token_accounts_quantity: self.fungible_token.accounts_quantity,
                total_rewards_from_validators_near_amount:
                    self.reward.total_rewards_from_validators_near_amount,
                reward_fee: light.reward_fee,
            },
        )
    }

    /// What still has to be requested from validators, with the tickets
    /// walked in validator-registry order.
    pub fn get_requested_to_withdrawal_fund(&self) -> (r: RequestedToWithdrawalFund)
        requires
            self.well_formed(),
        ensures
            r.classic_near_amount
                == self.fund.delayed_withdrawn_fund.needed_to_request_classic_near_amount,
            r.investment_near_amount
                == self.fund.delayed_withdrawn_fund.needed_to_request_investment_near_amount,
            r.investment_withdrawal_registry@ == spec_investment_withdrawal_view(
                self.validating.validator_registry.entries(),
                self.fund.delayed_withdrawn_fund.investment_withdrawal_registry@,
            ),
    {
        let mut investment_withdrawal_registry: Vec<(u64, u128)> = Vec::new();
        let n = self.validating.validator_registry.len();
        let mut i: usize = 0;
        while i < n
            invariant
                i <= n,
                n == self.validating.validator_registry.entries().len(),
                self.validating.validator_registry.wf(),
                self.fund.delayed_withdrawn_fund.investment_withdrawal_registry.wf(),
                investment_withdrawal_registry@ == spec_investment_withdrawal_view(
                    self.validating.validator_registry.entries().take(i as int),
                    self.fund.delayed_withdrawn_fund.investment_withdrawal_registry@,
                ),
            decreases n - i,
        {
            let entry = self.validating.validator_registry.entry_at(i);
            let validator_account_id = entry.0;
            match self.fund.delayed_withdrawn_fund.investment_withdrawal_registry.get(
                validator_account_id,
            ) {
                Some(ticket) => {
                    investment_withdrawal_registry.push((validator_account_id, ticket.near_amount));
                },
                None => {},
            }
            proof {
                assert(self.validating.validator_registry.entries().take(i + 1).drop_last()
                    =~= self.validating.validator_registry.entries().take(i as int));
            }
            i = i + 1;
        }
        proof {
            assert(self.validating.validator_registry.entries().take(n as int)
                =~= self.validating.validator_registry.entries());
        }

        RequestedToWithdrawalFund {
            classic_near_amount:
                self.fund.delayed_withdrawn_fund.needed_to_request_classic_near_amount,
            investment_near_amount:
                self.fund.delayed_withdrawn_fund.needed_to_request_investment_near_amount,
            investment_withdrawal_registry,
        }
    }

    /// Whether `coverage` is the storage-payment schedule this pool reports
    /// for `account_id`.
    pub open spec fn spec_coverage_matches(
        self,
        ctx: EnvContext,
        account_id: u64,
        coverage: StorageStakingRequestedCoverage,
    ) -> bool {
        let has_account = self.fungible_token.account_registry@.contains_key(account_id);
        let has_ticket =
            self.fund.delayed_withdrawn_fund.delayed_withdrawal_registry@.contains_key(account_id);
        let account_price = spec_storage_price(
            ctx.storage_byte_cost,
            self.fungible_token.storage_usage_per_account,
        );
        let ticket_price = spec_storage_price(
            ctx.storage_byte_cost,
            self.fund.delayed_withdrawn_fund.storage_usage_per_delayed_withdrawal,
        );
        &&& coverage.per_method_deposit == (if has_account {
            0int
        } else {
            account_price
        })
        &&& coverage.per_method_delayed_withdraw == (if has_ticket {
            0int
        } else {
            ticket_price
        })
        &&& (match self.validating.investor_investment_registry@.contains_key(account_id) {
            true => {
                let dist = self.validating.investor_investment_registry@[account_id].distribution_registry@;
                &&& (match coverage.per_method_deposit_on_validator {
                    Some(entry) => {
                        &&& entry.0 == (if has_account {
                            0int
                        } else {
                            account_price
                        })
                        &&& entry.1@.len() == self.validating.validator_registry.entries().len()
                        &&& forall|i: int|
                            0 <= i < entry.1@.len() ==> #[trigger] entry.1@[i] == (
                            self.validating.validator_registry.entries()[i].0,
                            (if dist.contains_key(
                                self.validating.validator_registry.entries()[i].0,
                            ) {
                                0u128
                            } else {
                                spec_storage_price(
                                    ctx.storage_byte_cost,
                                    self.validating.storage_usage_per_distribution,
                                ) as u128
                            }),
                            )
                    },
                    None => false,
                })
                &&& (match coverage.per_method_delayed_withdraw_from_validator {
                    Some(entry) => {
                        &&& entry.0 == (if has_ticket {
                            0int
                        } else {
                            ticket_price
                        })
                        &&& entry.1@ == spec_coverage_iw_view(
                            self.validating.validator_registry.entries(),
                            dist,
                            self.fund.delayed_withdrawn_fund.investment_withdrawal_registry@,
                            spec_storage_price(
                                ctx.storage_byte_cost,
                                self.fund.delayed_withdrawn_fund.storage_usage_per_investment_withdrawal,
                            ) as u128,
                        )
                    },
                    None => false,
                })
            },
            false => {
                &&& coverage.per_method_deposit_on_validator is None
                &&& coverage.per_method_delayed_withdraw_from_validator is None
            },
        })
    }

    /// The storage payments each operation would request of `account_id`,
    /// while the pool is synchronized.
    pub fn get_storage_staking_requested_coverage(&self, ctx: EnvContext, account_id: u64) -> (r:
        Result<StorageStakingRequestedCoverage, PoolError>)
        requires
            self.well_formed(),
            self.storage_prices_fit(ctx),
        ensures
            (r is Err <==> !self.epoch_is_synchronized(ctx)),
            match r {
                Err(e) => e == PoolError::EpochNotSynchronized,
                Ok(coverage) => self.spec_coverage_matches(ctx, account_id, coverage),
            },
    {
        if self.current_epoch_height != ctx.network_epoch_height {
            return Err(PoolError::EpochNotSynchronized);
        }

        let account_price = calculate_storage_staking_price(
            ctx.storage_byte_cost,
            self.fungible_token.storage_usage_per_account,
        );
        let ticket_price = calculate_storage_staking_price(
            ctx.storage_byte_cost,
            self.fund.delayed_withdrawn_fund.storage_usage_per_delayed_withdrawal,
        );
        let iw_price = calculate_storage_staking_price(
            ctx.storage_byte_cost,
            self.fund.delayed_withdrawn_fund.storage_usage_per_investment_withdrawal,
        );
        let dist_price = calculate_storage_staking_price(
            ctx.storage_byte_cost,
            self.validating.storage_usage_per_distribution,
        );

        let has_account = self.fungible_token.account_registry.contains_key(account_id);
        let has_ticket = self.fund.delayed_withdrawn_fund.delayed_withdrawal_registry.contains_key(
            account_id,
        );

        let per_method_deposit: u128 = if has_account {
            0
        } else {
            account_price
        };
        let per_method_delayed_withdraw: u128 = if has_ticket {
            0
        } else {
            ticket_price
        };

        let (per_method_deposit_on_validator, per_method_delayed_withdraw_from_validator): (
            Option<(u128, Vec<(u64, u128)>)>,
            Option<(u128, Vec<(u64, u128)>)>,
        ) = match self.validating.investor_investment_registry.get(account_id) {
            Some(investor_investment) => {
                let mut dist_coverage: Vec<(u64, u128)> = Vec::new();
                let mut iw_coverage: Vec<(u64, u128)> = Vec::new();
                let n = self.validating.validator_registry.len();
                let mut i: usize = 0;
                while i < n
                    invariant
                        i <= n,
                        n == self.validating.validator_registry.entries().len(),
                        self.validating.validator_registry.wf(),
                        investor_investment.distribution_registry.wf(),
                        self.fund.delayed_withdrawn_fund.investment_withdrawal_registry.wf(),
                        dist_coverage@.len() == i,
                        forall|j: int|
                            0 <= j < i ==> #[trigger] dist_coverage@[j] == (
                            self.validating.validator_registry.entries()[j].0,
                            (if investor_investment.distribution_registry@.contains_key(
                                self.validating.validator_registry.entries()[j].0,
                            ) {
                                0u128
                            } else {
                                dist_price
                            }),
                            ),
                        iw_coverage@ == spec_coverage_iw_view(
                            self.validating.validator_registry.entries().take(i as int),
                            investor_investment.distribution_registry@,
                            self.fund.delayed_withdrawn_fund.investment_withdrawal_registry@,
                            iw_price,
                        ),
                    decreases n - i,
                {
                    let entry = self.validating.validator_registry.entry_at(i);
                    let validator_account_id = entry.0;
                    if investor_investment.distribution_registry.contains_key(
                        validator_account_id,
                    ) {
                        dist_coverage.push((validator_account_id, 0));
                        if self.fund.delayed_withdrawn_fund.investment_withdrawal_registry.contains_key(
                            validator_account_id,
                        ) {
                            iw_coverage.push((validator_account_id, 0));
                        } else {
                            iw_coverage.push((validator_account_id, iw_price));
                        }
                    } else {
                        dist_coverage.push((validator_account_id, dist_price));
                    }
                    proof {
                        assert(self.validating.validator_registry.entries().take(
                            i + 1,
                        ).drop_last() =~= self.validating.validator_registry.entries().take(
                            i as int,
                        ));
                    }
                    i = i + 1;
                }
                proof {
                    assert(self.validating.validator_registry.entries().take(n as int)
                        =~= self.validating.validator_registry.entries());
                }
                (
                    Some((per_method_deposit, dist_coverage)),
                    Some((per_method_delayed_withdraw, iw_coverage)),
                )
            },
            None => (None, None),
        };

        Ok(
            StorageStakingRequestedCoverage {
                per_method_deposit,
                per_method_deposit_on_validator,
                per_method_delayed_withdraw,
                per_method_delayed_withdraw_from_validator,
            },
        )
    }

    /// Whether `full` is the whole-pool view this pool reports.
    pub open spec fn spec_full_matches(self, ctx: EnvContext, full: Full) -> bool {
        &&& full.storage_staking_price == self.spec_storage_price_dto(ctx)
        &&& full.fund == self.spec_fund_dto()
        &&& full.total_token_supply == self.fungible_token.total_supply
        &&& full.requested_to_withdrawal_fund.classic_near_amount
            == self.fund.delayed_withdrawn_fund.needed_to_request_classic_near_amount
        &&& full.requested_to_withdrawal_fund.investment_near_amount
            == self.fund.delayed_withdrawn_fund.needed_to_request_investment_near_amount
        &&& full.requested_to_withdrawal_fund.investment_withdrawal_registry@
            == spec_investment_withdrawal_view(
            self.validating.validator_registry.entries(),
            self.fund.delayed_withdrawn_fund.investment_withdrawal_registry@,
        )
        &&& full.fee_registry_light == self.spec_fee_registry_light()
        &&& full.minimum_deposit_amount == MINIMUM_DEPOSIT_AMOUNT
    }

    /// The whole queryable pool state, while the pool is synchronized.
    pub fn get_full(&self, ctx: EnvContext) -> (r: Result<Full, PoolError>)
        requires
            self.well_formed(),
            self.storage_prices_fit(ctx),
        ensures
            (r is Err <==> !self.epoch_is_synchronized(ctx)),
            match r {
                Err(e) => e == PoolError::EpochNotSynchronized,
                Ok(full) => self.spec_full_matches(ctx, full),
            },
    {
        if self.current_epoch_height != ctx.network_epoch_height {
            return Err(PoolError::EpochNotSynchronized);
        }
        let storage_staking_price = self.get_storage_staking_price(ctx);
        let fund = match self.get_fund(ctx) {
            Ok(fund) => fund,
            Err(e) => {
                return Err(e);
            },
        };
        let requested_to_withdrawal_fund = self.get_requested_to_withdrawal_fund();
        Ok(
            Full {
                storage_staking_price,
                fund,
                total_token_supply: self.fungible_token.total_supply,
                requested_to_withdrawal_fund,
                fee_registry_light: self.fee_registry_light(),
                minimum_deposit_amount: MINIMUM_DEPOSIT_AMOUNT,
            },
        )
    }

    /// The whole queryable pool state focused on one account, while the
    /// pool is synchronized.
    pub fn get_full_for_account(&self, ctx: EnvContext, account_id: u64) -> (r: Result<
        FullForAccount,
        PoolError,
    >)
        requires
            self.well_formed(),
            self.storage_prices_fit(ctx),
            self.get_account_balance_fits(account_id),
        ensures
            (r is Err <==> !self.epoch_is_synchronized(ctx)),
            match r {
                Err(e) => e == PoolError::EpochNotSynchronized,
                Ok(f) => {
                    &&& self.spec_full_matches(ctx, f.full)
                    &&& f.account_balance == self.spec_account_balance_dto(account_id)
                    &&& f.delayed_withdrawal_details == self.spec_delayed_details(account_id)
                    &&& self.spec_investor_dto_matches(account_id, f.investor_investment)
                    &&& self.spec_coverage_matches(
                        ctx,
                        account_id,
                        f.storage_staking_requested_coverage,
                    )
                },
            },
    {
        if self.current_epoch_height != ctx.network_epoch_height {
            return Err(PoolError::EpochNotSynchronized);
        }
        let full = match self.get_full(ctx) {
            Ok(full) => full,
            Err(e) => {
                return Err(e);
            },
        };
        let account_balance = self.get_account_balance(account_id);
        let delayed_withdrawal_details = match self.get_delayed_withdrawal_details(
            ctx,
            account_id,
        ) {
            Ok(details) => details,
            Err(e) => {
                return Err(e);
            },
        };
        let investor_investment = match self.get_investor_investment(ctx, account_id) {
            Ok(investor) => investor,
            Err(e) => {
                return Err(e);
            },
        };
        let storage_staking_requested_coverage = match self.get_storage_staking_requested_coverage(
            ctx,
            account_id,
        ) {
            Ok(coverage) => coverage,
            Err(e) => {
                return Err(e);
            },
        };
        Ok(
            FullForAccount {
                full,
                account_balance,
                delayed_withdrawal_details,
                investor_investment,
                storage_staking_requested_coverage,
            },
        )
    }

    /// The total share supply, unconditionally.
    pub fn ft_total_supply(&self) -> (r: u128)
        ensures
            r == self.fungible_token.total_supply,
    {
        self.fungible_token.total_supply
    }

    /// An account's share balance, zero when it has no entry.
    pub fn ft_balance_of(&self, account_id: u64) -> (r: u128)
        requires
            self.well_formed(),
        ensures
            r == self.spec_account_or_empty(account_id).token_amount,
    {
        match self.fungible_token.account_registry.get(account_id) {
            Some(balance) => balance.token_amount,
            None => 0,
        }
    }
}

} // verus!
