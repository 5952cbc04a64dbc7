//! The pool itself: the aggregate ledger, its invariant, the share/asset
//! conversion and construction.

use vstd::prelude::*;
use vstd::arithmetic::div_mod::{lemma_div_is_ordered, lemma_div_multiples_vanish};
use vstd::arithmetic::mul::lemma_mul_is_commutative;
use crate::account::{token_sum, AccountBalance, AccountRegistry};
use crate::context::{spec_storage_price, EnvContext};
use crate::errors::PoolError;
use crate::fee::{Fee, FeeRegistry, SharedFee};
use crate::fund::Fund;
use crate::fungible_token::FungibleToken;
use crate::registry::Registry;
use crate::reward::Reward;
use crate::wide_math::{mul_div, lemma_mul_div_le};
use crate::validator::Validating;

verus! {

/// The storage-cost quanta measured by the host at initialization: the
/// marginal persisted bytes of one entry in each registry.
#[derive(Clone, Copy, Debug, PartialEq, Eq, Structural)]
pub struct StorageUsageConfig {
    pub per_account: u64,
    pub per_validator: u64,
    pub per_investor_investment: u64,
    pub per_distribution: u64,
    pub per_delayed_withdrawal: u64,
    pub per_investment_withdrawal: u64,
}

/// The privileged ids and the fee registry are untouched.
pub open spec fn same_ids_and_fees(a: StakePool, b: StakePool) -> bool {
    &&& b.account_registry == a.account_registry
    &&& b.fee_registry == a.fee_registry
}

/// The validator and investor registries are untouched.
pub open spec fn same_validating(a: StakePool, b: StakePool) -> bool {
    b.validating == a.validating
}

/// The share ledger is untouched.
pub open spec fn same_token(a: StakePool, b: StakePool) -> bool {
    b.fungible_token == a.fungible_token
}

/// The delayed-withdrawal fund is untouched.
pub open spec fn same_delayed(a: StakePool, b: StakePool) -> bool {
    b.fund.delayed_withdrawn_fund == a.fund.delayed_withdrawn_fund
}

/// The reward counters and the pool epoch are untouched.
pub open spec fn same_reward_and_epoch(a: StakePool, b: StakePool) -> bool {
    &&& b.reward == a.reward
    &&& b.current_epoch_height == a.current_epoch_height
}

/// The fund's four asset buckets and the distribution flag are untouched.
pub open spec fn same_fund_buckets(a: StakePool, b: StakePool) -> bool {
    &&& b.fund.classic_unstaked_balance == a.fund.classic_unstaked_balance
    &&& b.fund.classic_staked_balance == a.fund.classic_staked_balance
    &&& b.fund.classic_liquidity_balance == a.fund.classic_liquidity_balance
    &&& b.fund.investment_staked_balance == a.fund.investment_staked_balance
    &&& b.fund.is_distributed_on_validators_in_current_epoch
        == a.fund.is_distributed_on_validators_in_current_epoch
}

/// The whole pool ledger.
pub struct StakePool {
    pub account_registry: AccountRegistry,
    pub fungible_token: FungibleToken,
    pub fund: Fund,
    pub fee_registry: FeeRegistry,
    pub validating: Validating,
    /// The epoch the ledger was last reconciled to.
    pub current_epoch_height: u64,
    pub reward: Reward,
}

impl StakePool {
    /// The pool's structural invariant. Constructors establish it and every
    /// operation preserves it.
    pub open spec fn well_formed(self) -> bool {
        &&& self.fungible_token.account_registry.wf()
        &&& self.validating.validator_registry.wf()
        &&& self.validating.investor_investment_registry.wf()
        &&& self.fund.delayed_withdrawn_fund.delayed_withdrawal_registry.wf()
        &&& self.fund.delayed_withdrawn_fund.investment_withdrawal_registry.wf()
        &&& self.fungible_token.accounts_quantity
            == self.fungible_token.account_registry.entries().len()
        &&& self.fungible_token.total_supply == token_sum(
            self.fungible_token.account_registry.entries(),
        )
        &&& self.validating.validators_quantity
            == self.validating.validator_registry.entries().len()
        &&& forall|k: u64|
            #[trigger] self.validating.investor_investment_registry@.contains_key(k)
                ==> self.validating.investor_investment_registry@[k].wf()
        &&& self.fee_registry.valid()
        &&& self.account_registry.self_fee_receiver_account_id
            != self.account_registry.partner_fee_receiver_account_id
        &&& self.fungible_token.account_registry@.contains_key(
            self.account_registry.self_fee_receiver_account_id,
        )
        &&& self.fungible_token.account_registry@.contains_key(
            self.account_registry.partner_fee_receiver_account_id,
        )
        &&& match self.validating.preffered_validator {
            Some(v) => self.validating.validator_registry@.contains_key(v)
                && !self.validating.validator_registry@[v].is_only_for_investment,
            None => true,
        }
        &&& forall|k: u64|
            #[trigger] self.validating.validator_registry@.contains_key(k)
                ==> self.validating.validator_registry@[k].balance.spec_total() <= u128::MAX
        &&& forall|k: u64|
            #[trigger] self.fund.delayed_withdrawn_fund.delayed_withdrawal_registry@.contains_key(
                k,
            ) ==> self.fund.delayed_withdrawn_fund.delayed_withdrawal_registry@[k].started_epoch_height
                <= self.current_epoch_height
        &&& forall|k: u64|
            #[trigger] self.fund.delayed_withdrawn_fund.investment_withdrawal_registry@.contains_key(
                k,
            ) ==> self.validating.validator_registry@.contains_key(k) && 0
                < self.fund.delayed_withdrawn_fund.investment_withdrawal_registry@[k].near_amount
                && self.fund.delayed_withdrawn_fund.investment_withdrawal_registry@[k].near_amount
                <= self.validating.validator_registry@[k].balance.investment_near_amount
        &&& self.fund.spec_common_balance() <= u128::MAX
    }

    /// All asset the pool itself accounts for: the three fund buckets plus
    /// the delayed-withdrawal fund's settled balance. Every operation's
    /// contract states how it moves this total: it grows only on deposits
    /// and on reward accrual, and shrinks only on payouts.
    pub open spec fn spec_tracked_asset_total(self) -> int {
        self.fund.classic_unstaked_balance + self.fund.classic_staked_balance
            + self.fund.investment_staked_balance + self.fund.delayed_withdrawn_fund.balance
    }

    /// The tracked total together with one user's delayed-withdrawal claim:
    /// what burning shares into a ticket conserves.
    pub open spec fn spec_obligation_total(self, account_id: u64) -> int {
        self.spec_tracked_asset_total() + (
        if self.fund.delayed_withdrawn_fund.delayed_withdrawal_registry@.contains_key(account_id) {
            self.fund.delayed_withdrawn_fund.delayed_withdrawal_registry@[account_id].near_amount
                as int
        } else {
            0
        })
    }

    /// The pool epoch matches the network epoch: user operations are open.
    pub open spec fn epoch_is_synchronized(self, ctx: EnvContext) -> bool {
        self.current_epoch_height == ctx.network_epoch_height
    }

    /// The pool epoch lags the network epoch: reconciliation is open.
    pub open spec fn epoch_is_desynchronized(self, ctx: EnvContext) -> bool {
        self.current_epoch_height < ctx.network_epoch_height
    }

    /// Whether the network epoch is one of the designated unstake-request
    /// epochs.
    pub open spec fn spec_is_right_epoch(epoch_height: u64) -> bool {
        epoch_height % crate::EPOCH_QUANTITY_FOR_VALIDATOR_UNSTAKE == 0
    }

    pub fn is_right_epoch(epoch_height: u64) -> (r: bool)
        ensures
            r == Self::spec_is_right_epoch(epoch_height),
    {
        epoch_height % crate::EPOCH_QUANTITY_FOR_VALIDATOR_UNSTAKE == 0
    }

    /// The caller is the pool manager.
    pub open spec fn authorized_by_manager(self, ctx: EnvContext) -> bool {
        ctx.predecessor_account_id == self.account_registry.manager_id
    }

    /// The caller is the pool owner or the pool manager.
    pub open spec fn authorized_management(self, ctx: EnvContext) -> bool {
        ctx.predecessor_account_id == self.account_registry.owner_id
            || ctx.predecessor_account_id == self.account_registry.manager_id
    }

    /// The account's share balance, or an empty one when it has no entry.
    pub open spec fn spec_account_or_empty(self, id: u64) -> AccountBalance {
        if self.fungible_token.account_registry@.contains_key(id) {
            self.fungible_token.account_registry@[id]
        } else {
            AccountBalance::spec_empty()
        }
    }

    /// Every storage-cost figure the pool may charge fits in the asset type.
    /// A machine limit: prices are products of measured bytes and the host's
    /// byte cost.
    pub open spec fn storage_prices_fit(self, ctx: EnvContext) -> bool {
        &&& spec_storage_price(ctx.storage_byte_cost, self.fungible_token.storage_usage_per_account)
            <= u128::MAX
        &&& spec_storage_price(ctx.storage_byte_cost, self.validating.storage_usage_per_validator)
            <= u128::MAX
        &&& spec_storage_price(
            ctx.storage_byte_cost,
            self.validating.storage_usage_per_investor_investment,
        ) <= u128::MAX
        &&& spec_storage_price(
            ctx.storage_byte_cost,
            self.validating.storage_usage_per_distribution,
        ) <= u128::MAX
        &&& spec_storage_price(
            ctx.storage_byte_cost,
            self.fund.delayed_withdrawn_fund.storage_usage_per_delayed_withdrawal,
        ) <= u128::MAX
        &&& spec_storage_price(
            ctx.storage_byte_cost,
            self.fund.delayed_withdrawn_fund.storage_usage_per_investment_withdrawal,
        ) <= u128::MAX
    }

    /// Asset to shares at explicit rates: one-to-one while the pool is
    /// empty, else `floor(near * supply / common)`.
    pub open spec fn spec_convert_near_to_token_at(supply: u128, common: int, near_amount: u128)
        -> int {
        if common == 0 || near_amount == 0 || supply == 0 {
            near_amount as int
        } else {
            (near_amount * supply) / common
        }
    }

    /// Asset to shares at the current rate.
    pub open spec fn spec_convert_near_to_token(self, near_amount: u128) -> int {
        Self::spec_convert_near_to_token_at(
            self.fungible_token.total_supply,
            self.fund.spec_common_balance(),
            near_amount,
        )
    }

    /// Shares back to asset at explicit rates: `floor(token * common / supply)`.
    pub open spec fn spec_convert_token_to_near_at(supply: u128, common: u128, token_amount: u128) -> int {
        if supply == 0 || token_amount == 0 {
            token_amount as int
        } else {
            (token_amount * common) / supply as int
        }
    }

    /// Shares back to asset: `floor(token * common_balance / supply)`.
    pub open spec fn spec_convert_token_to_near(self, token_amount: u128) -> int {
        Self::spec_convert_token_to_near_at(
            self.fungible_token.total_supply,
            self.fund.spec_common_balance() as u128,
            token_amount,
        )
    }

    /// Shares back to asset at explicit rates, for checks against a balance
    /// about to change.
    pub fn convert_token_to_near_at(supply: u128, common: u128, token_amount: u128) -> (r: u128)
        requires
            Self::spec_convert_token_to_near_at(supply, common, token_amount) <= u128::MAX,
        ensures
            r == Self::spec_convert_token_to_near_at(supply, common, token_amount),
    {
        if supply == 0 || token_amount == 0 {
            return token_amount;
        }
        match mul_div(token_amount, common, supply) {
            Some(r) => r,
            None => {
                proof {
                    assert(false);
                }
                0
            },
        }
    }

    /// The shares minted for `near_amount`, as an amount.
    pub open spec fn spec_token_of(self, near_amount: u128) -> u128 {
        self.spec_convert_near_to_token(near_amount) as u128
    }

    /// The asset lost to floor rounding when converting `near_amount`,
    /// credited back to the depositor as a non-share balance. On the
    /// one-to-one bootstrap branch nothing is lost, so the remainder is
    /// fixed at zero.
    pub open spec fn spec_remainder_of(self, near_amount: u128) -> u128 {
        if self.fund.spec_common_balance() == 0 || near_amount == 0
            || self.fungible_token.total_supply == 0 {
            0
        } else {
            (near_amount - self.spec_convert_token_to_near(
                self.spec_token_of(near_amount),
            )) as u128
        }
    }

    /// Converting asset to shares and back never returns more than went in.
    /// Outside the one corner where shares are outstanding against a zero
    /// pool balance, the gap is exactly the reported remainder; in that
    /// corner the bootstrap branch fixes the remainder at zero while the
    /// shares convert back to nothing.
    pub proof fn lemma_conversion_round_trip(self, near_amount: u128)
        requires
            self.fund.spec_common_balance() <= u128::MAX,
            self.spec_convert_near_to_token(near_amount) <= u128::MAX,
        ensures
            0 <= self.spec_convert_near_to_token(near_amount),
            0 <= self.spec_convert_token_to_near(self.spec_token_of(near_amount)) <= near_amount,
            self.spec_remainder_of(near_amount) <= near_amount,
            !(self.fungible_token.total_supply > 0 && self.fund.spec_common_balance() == 0
                && near_amount > 0) ==> self.spec_remainder_of(near_amount) == near_amount
                - self.spec_convert_token_to_near(self.spec_token_of(near_amount)),
    {
        let supply = self.fungible_token.total_supply as int;
        let common = self.fund.spec_common_balance();
        let near = near_amount as int;
        if common == 0 || near == 0 || supply == 0 {
            // Bootstrap: shares equal the asset. Converting back gives the
            // asset itself, or nothing when shares are outstanding against a
            // zero pool balance; the remainder is zero either way.
        } else {
            let token = (near * supply) / common;
            lemma_mul_div_le(near, supply, common);
            assert(0 <= token <= u128::MAX);
            if token != 0 {
                let back = (token * common) / supply;
                assert(token * common <= near * supply) by (nonlinear_arith)
                    requires
                        token * common <= (near * supply) / common * common,
                        (near * supply) / common * common <= near * supply,
                ;
                lemma_div_is_ordered(token * common, near * supply, supply);
                lemma_mul_is_commutative(near, supply);
                lemma_div_multiples_vanish(near, supply);
                lemma_mul_div_le(token, common, supply);
            }
        }
    }

    /// Asset to shares, with the rounding remainder.
    pub fn convert_near_amount_to_token_amount(&self, near_amount: u128) -> (r: (u128, u128))
        requires
            self.fund.spec_common_balance() <= u128::MAX,
            self.spec_convert_near_to_token(near_amount) <= u128::MAX,
        ensures
            r.0 == self.spec_token_of(near_amount),
            r.1 == self.spec_remainder_of(near_amount),
            r.1 <= near_amount,
    {
        proof {
            self.lemma_conversion_round_trip(near_amount);
        }
        let common_balance = self.fund.get_common_balance();
        if common_balance == 0 || near_amount == 0 || self.fungible_token.total_supply == 0 {
            return (near_amount, 0);
        }
        let token_amount = match mul_div(
            near_amount,
            self.fungible_token.total_supply,
            common_balance,
        ) {
            Some(t) => t,
            None => {
                proof {
                    assert(false);
                }
                0
            },
        };
        let back = self.convert_token_amount_to_near_amount(token_amount);
        (token_amount, near_amount - back)
    }

    /// Shares back to asset at the current rate.
    pub fn convert_token_amount_to_near_amount(&self, token_amount: u128) -> (r: u128)
        requires
            self.fund.spec_common_balance() <= u128::MAX,
            self.spec_convert_token_to_near(token_amount) <= u128::MAX,
        ensures
            r == self.spec_convert_token_to_near(token_amount),
    {
        if self.fungible_token.total_supply == 0 || token_amount == 0 {
            return token_amount;
        }
        let common_balance = self.fund.get_common_balance();
        match mul_div(token_amount, common_balance, self.fungible_token.total_supply) {
            Some(r) => r,
            None => {
                proof {
                    assert(false);
                }
                0
            },
        }
    }

    /// Why initialization would be refused, or nothing when it goes through.
    pub open spec fn new_error(
        manager_id: Option<u64>,
        self_fee_receiver_account_id: u64,
        partner_fee_receiver_account_id: u64,
        reward_fee_self: Option<Fee>,
        reward_fee_partner: Option<Fee>,
        instant_withdraw_fee_self: Option<Fee>,
        instant_withdraw_fee_partner: Option<Fee>,
    ) -> Option<PoolError> {
        if self_fee_receiver_account_id == partner_fee_receiver_account_id {
            Some(PoolError::FeeReceiversNotDistinct)
        } else if reward_fee_self is None && reward_fee_partner is Some {
            Some(PoolError::InvalidFee)
        } else if match reward_fee_self {
            Some(f) => !f.valid(),
            None => false,
        } {
            Some(PoolError::InvalidFee)
        } else if match reward_fee_partner {
            Some(f) => !f.valid(),
            None => false,
        } {
            Some(PoolError::InvalidFee)
        } else if instant_withdraw_fee_self is None && instant_withdraw_fee_partner is Some {
            Some(PoolError::InvalidFee)
        } else if match instant_withdraw_fee_self {
            Some(f) => !f.valid(),
            None => false,
        } {
            Some(PoolError::InvalidFee)
        } else if match instant_withdraw_fee_partner {
            Some(f) => !f.valid(),
            None => false,
        } {
            Some(PoolError::InvalidFee)
        } else {
            None
        }
    }

    /// Builds an empty pool. The two fee-receiver accounts are pinned into
    /// the share ledger from the start and are never removed.
    pub fn new(
        ctx: EnvContext,
        manager_id: Option<u64>,
        self_fee_receiver_account_id: u64,
        partner_fee_receiver_account_id: u64,
        reward_fee_self: Option<Fee>,
        reward_fee_partner: Option<Fee>,
        instant_withdraw_fee_self: Option<Fee>,
        instant_withdraw_fee_partner: Option<Fee>,
        storage_usage: StorageUsageConfig,
    ) -> (r: Result<StakePool, PoolError>)
        ensures
            (r is Err <==> Self::new_error(
                manager_id,
                self_fee_receiver_account_id,
                partner_fee_receiver_account_id,
                reward_fee_self,
                reward_fee_partner,
                instant_withdraw_fee_self,
                instant_withdraw_fee_partner,
            ) is Some),
            match r {
                Err(e) => Some(e) == Self::new_error(
                    manager_id,
                    self_fee_receiver_account_id,
                    partner_fee_receiver_account_id,
                    reward_fee_self,
                    reward_fee_partner,
                    instant_withdraw_fee_self,
                    instant_withdraw_fee_partner,
                ),
                Ok(pool) => {
                    &&& pool.well_formed()
                    &&& pool.account_registry == (AccountRegistry {
                        owner_id: ctx.predecessor_account_id,
                        manager_id: (match manager_id {
                            Some(m) => m,
                            None => ctx.predecessor_account_id,
                        }),
                        self_fee_receiver_account_id,
                        partner_fee_receiver_account_id,
                    })
                    &&& pool.fee_registry.reward_fee == (match reward_fee_self {
                        Some(f) => Some(
                            SharedFee { self_fee: f, partner_fee: reward_fee_partner },
                        ),
                        None => None::<SharedFee>,
                    })
                    &&& pool.fee_registry.instant_withdraw_fee == (
                    match instant_withdraw_fee_self {
                        Some(f) => Some(
                            SharedFee { self_fee: f, partner_fee: instant_withdraw_fee_partner },
                        ),
                        None => None::<SharedFee>,
                    })
                    &&& pool.fungible_token.total_supply == 0
                    &&& pool.fungible_token.accounts_quantity == 2
                    &&& pool.fungible_token.account_registry@ == Map::<
                        u64,
                        AccountBalance,
                    >::empty().insert(self_fee_receiver_account_id, AccountBalance::spec_empty()).insert(
                        partner_fee_receiver_account_id,
                        AccountBalance::spec_empty(),
                    )
                    &&& pool.fund.classic_unstaked_balance == 0
                    &&& pool.fund.classic_staked_balance == 0
                    &&& pool.fund.investment_staked_balance == 0
                    &&& pool.fund.delayed_withdrawn_fund.balance == 0
                    &&& pool.fund.delayed_withdrawn_fund.needed_to_request_classic_near_amount == 0
                    &&& pool.fund.delayed_withdrawn_fund.needed_to_request_investment_near_amount
                        == 0
                    &&& !pool.fund.is_distributed_on_validators_in_current_epoch
                    &&& pool.fund.classic_liquidity_balance == 0
                    &&& pool.fund.delayed_withdrawn_fund.delayed_withdrawal_registry@ == Map::<
                        u64,
                        crate::delayed::DelayedWithdrawal,
                    >::empty()
                    &&& pool.fund.delayed_withdrawn_fund.investment_withdrawal_registry@ == Map::<
                        u64,
                        crate::delayed::InvestmentWithdrawal,
                    >::empty()
                    &&& pool.validating.validator_registry@ == Map::<
                        u64,
                        crate::validator::Validator,
                    >::empty()
                    &&& pool.validating.investor_investment_registry@ == Map::<
                        u64,
                        crate::investor::InvestorInvestment,
                    >::empty()
                    &&& pool.validating.validators_quantity == 0
                    &&& pool.validating.preffered_validator is None
                    &&& pool.validating.quantity_of_validators_updated_in_current_epoch == 0
                    &&& pool.fungible_token.storage_usage_per_account == storage_usage.per_account
                    &&& pool.validating.storage_usage_per_validator
                        == storage_usage.per_validator
                    &&& pool.validating.storage_usage_per_investor_investment
                        == storage_usage.per_investor_investment
                    &&& pool.validating.storage_usage_per_distribution
                        == storage_usage.per_distribution
                    &&& pool.fund.delayed_withdrawn_fund.storage_usage_per_delayed_withdrawal
                        == storage_usage.per_delayed_withdrawal
                    &&& pool.fund.delayed_withdrawn_fund.storage_usage_per_investment_withdrawal
                        == storage_usage.per_investment_withdrawal
                    &&& pool.current_epoch_height == ctx.network_epoch_height
                    &&& pool.reward == (Reward {
                        previous_epoch_rewards_from_validators_near_amount: 0,
                        total_rewards_from_validators_near_amount: 0,
                    })
                },
            },
    {
        if self_fee_receiver_account_id == partner_fee_receiver_account_id {
            return Err(PoolError::FeeReceiversNotDistinct);
        }
        if reward_fee_self.is_none() && reward_fee_partner.is_some() {
            return Err(PoolError::InvalidFee);
        }
        let reward_fee = match reward_fee_self {
            Some(f) => {
                if !f.is_valid() {
                    return Err(PoolError::InvalidFee);
                }
                if let Some(p) = reward_fee_partner {
                    if !p.is_valid() {
                        return Err(PoolError::InvalidFee);
                    }
                }
                Some(SharedFee { self_fee: f, partner_fee: reward_fee_partner })
            },
            None => None,
        };
        if instant_withdraw_fee_self.is_none() && instant_withdraw_fee_partner.is_some() {
            return Err(PoolError::InvalidFee);
        }
        let instant_withdraw_fee = match instant_withdraw_fee_self {
            Some(f) => {
                if !f.is_valid() {
                    return Err(PoolError::InvalidFee);
                }
                if let Some(p) = instant_withdraw_fee_partner {
                    if !p.is_valid() {
                        return Err(PoolError::InvalidFee);
                    }
                }
                Some(SharedFee { self_fee: f, partner_fee: instant_withdraw_fee_partner })
            },
            None => None,
        };

        let manager = match manager_id {
            Some(m) => m,
            None => ctx.predecessor_account_id,
        };

        let mut stake_pool = StakePool {
            account_registry: AccountRegistry {
                owner_id: ctx.predecessor_account_id,
                manager_id: manager,
                self_fee_receiver_account_id,
                partner_fee_receiver_account_id,
            },
            fee_registry: FeeRegistry { reward_fee, instant_withdraw_fee },
            fungible_token: FungibleToken::new(storage_usage.per_account),
            fund: Fund::new(
                storage_usage.per_delayed_withdrawal,
                storage_usage.per_investment_withdrawal,
            ),
            validating: Validating::new(
                storage_usage.per_validator,
                storage_usage.per_investor_investment,
                storage_usage.per_distribution,
            ),
            current_epoch_height: ctx.network_epoch_height,
            reward: Reward {
                previous_epoch_rewards_from_validators_near_amount: 0,
                total_rewards_from_validators_near_amount: 0,
            },
        };
        let ghost entries0 = stake_pool.fungible_token.account_registry.entries();
        stake_pool.fungible_token.account_registry.insert(
            self_fee_receiver_account_id,
            AccountBalance::empty(),
        );
        let ghost entries1 = stake_pool.fungible_token.account_registry.entries();
        stake_pool.fungible_token.account_registry.insert(
            partner_fee_receiver_account_id,
            AccountBalance::empty(),
        );
        stake_pool.fungible_token.accounts_quantity = 2;
        proof {
            crate::account::lemma_token_sum_push(
                entries0,
                self_fee_receiver_account_id,
                AccountBalance::spec_empty(),
            );
            crate::account::lemma_token_sum_push(
                entries1,
                partner_fee_receiver_account_id,
                AccountBalance::spec_empty(),
            );
        }

        Ok(stake_pool)
    }
}

} // verus!
