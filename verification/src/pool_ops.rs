//! User operations: deposit, the withdrawal paths and share transfer.

use vstd::prelude::*;
use crate::account::AccountBalance;
use crate::action::{DepositAction, DepositOutcome};
use crate::context::{calculate_storage_staking_price, spec_storage_price, EnvContext};
use crate::delayed::DelayedWithdrawal;
use crate::errors::PoolError;
use crate::pool::{
    same_delayed, same_fund_buckets, same_ids_and_fees, same_reward_and_epoch, same_token,
    same_validating, StakePool,
};
use crate::MINIMUM_DEPOSIT_AMOUNT;

verus! {


/// Applies the right token-sum lemma after storing `balance` under `key`.
/// `pre` is the entry sequence before the store, `prev` what the key held.
pub(crate) proof fn lemma_account_store_sum(
    pre: Seq<(u64, AccountBalance)>,
    post: Seq<(u64, AccountBalance)>,
    key: u64,
    balance: AccountBalance,
    prev: Option<AccountBalance>,
)
    requires
        match prev {
            Some(p) => exists|i: int|
                0 <= i < pre.len() && (#[trigger] pre[i]) == (key, p) && post == pre.update(
                    i,
                    (key, balance),
                ),
            None => post == pre.push((key, balance)),
        },
    ensures
        crate::account::token_sum(post) == crate::account::token_sum(pre) - (match prev {
            Some(p) => p.token_amount as int,
            None => 0int,
        }) + balance.token_amount,
{
    match prev {
        Some(p) => {
            let i = choose|i: int|
                0 <= i < pre.len() && (#[trigger] pre[i]) == (key, p) && post == pre.update(
                    i,
                    (key, balance),
                );
            crate::account::lemma_token_sum_update(pre, i, key, balance);
        },
        None => {
            crate::account::lemma_token_sum_push(pre, key, balance);
        },
    }
}

/// Applies the token-sum lemma after removing `key`, which held `prev`.
pub(crate) proof fn lemma_account_remove_sum(
    pre: Seq<(u64, AccountBalance)>,
    post: Seq<(u64, AccountBalance)>,
    key: u64,
    prev: AccountBalance,
)
    requires
        exists|i: int|
            0 <= i < pre.len() && (#[trigger] pre[i]) == (key, prev) && post == pre.remove(i),
    ensures
        crate::account::token_sum(post) == crate::account::token_sum(pre)
            - prev.token_amount,
{
    let i = choose|i: int|
        0 <= i < pre.len() && (#[trigger] pre[i]) == (key, prev) && post == pre.remove(i);
    crate::account::lemma_token_sum_remove(pre, i);
}

/// An account balance with `amount` more share tokens.
pub open spec fn spec_credit_token(b: AccountBalance, amount: int) -> AccountBalance {
    AccountBalance {
        token_amount: (b.token_amount + amount) as u128,
        classic_near_amount: b.classic_near_amount,
        investment_near_amount: b.investment_near_amount,
    }
}

impl StakePool {
    /// Storage cost a depositor must cover: zero when the account exists.
    pub open spec fn spec_deposit_storage_price(self, ctx: EnvContext) -> int {
        if self.fungible_token.account_registry@.contains_key(ctx.predecessor_account_id) {
            0
        } else {
            spec_storage_price(
                ctx.storage_byte_cost,
                self.fungible_token.storage_usage_per_account,
            )
        }
    }

    /// Why a deposit would be refused, or nothing when it goes through.
    pub open spec fn deposit_error(self, ctx: EnvContext, near_amount: u128) -> Option<PoolError> {
        let storage_price = self.spec_deposit_storage_price(ctx);
        if !ctx.gas_is_enough() {
            Some(PoolError::NotEnoughGas)
        } else if !ctx.minimum_deposit() {
            Some(PoolError::DepositBelowMinimum)
        } else if !self.epoch_is_synchronized(ctx) {
            Some(PoolError::EpochNotSynchronized)
        } else if near_amount < MINIMUM_DEPOSIT_AMOUNT - storage_price {
            Some(PoolError::AmountBelowMinimum)
        } else if ctx.attached_deposit < storage_price {
            Some(PoolError::InsufficientDeposit)
        } else if near_amount > ctx.attached_deposit - storage_price {
            Some(PoolError::InsufficientDeposit)
        } else if self.spec_token_of(near_amount) == 0 {
            Some(PoolError::InsufficientAmount)
        } else {
            None
        }
    }

    /// The machine limits a deposit commit must stay within.
    pub open spec fn deposit_fits(self, ctx: EnvContext, near_amount: u128) -> bool {
        &&& self.spec_convert_near_to_token(near_amount) <= u128::MAX
        &&& self.fund.spec_common_balance() + near_amount <= u128::MAX
        &&& self.fungible_token.total_supply + self.spec_token_of(near_amount) <= u128::MAX
        &&& self.spec_account_or_empty(ctx.predecessor_account_id).token_amount
            + self.spec_token_of(near_amount) <= u128::MAX
        &&& self.spec_account_or_empty(ctx.predecessor_account_id).classic_near_amount
            + near_amount <= u128::MAX
    }

    /// Stakes `near_amount` into the pool, minting shares for the caller.
    ///
    /// While the pool has confirmed distribution for this epoch and a
    /// preferred validator is set, the asset is forwarded to that validator
    /// and the ledger commit waits for `deposit_callback`; otherwise the
    /// asset enters the liquid bucket at once.
    pub fn deposit(&mut self, ctx: EnvContext, near_amount: u128) -> (r: Result<
        DepositOutcome,
        PoolError,
    >)
        requires
            old(self).well_formed(),
            old(self).storage_prices_fit(ctx),
            spec_storage_price(
                ctx.storage_byte_cost,
                old(self).fungible_token.storage_usage_per_account,
            ) < MINIMUM_DEPOSIT_AMOUNT,
            old(self).deposit_fits(ctx, near_amount),
        ensures
            final(self).well_formed(),
            (old(self).deposit_error(ctx, near_amount) is Some <==> r is Err),
            match r {
                Err(e) => Some(e) == old(self).deposit_error(ctx, near_amount) && *final(self)
                    == *old(self),
                Ok(outcome) => {
                    let pred = ctx.predecessor_account_id;
                    let token = old(self).spec_token_of(near_amount);
                    let remainder = old(self).spec_remainder_of(near_amount);
                    let price = old(self).spec_deposit_storage_price(ctx);
                    let refund = ctx.attached_deposit - price - near_amount;
                    let prior = old(self).spec_account_or_empty(pred);
                    match outcome {
                        DepositOutcome::Staked { refundable_near_amount } => {
                            &&& !(old(self).fund.is_distributed_on_validators_in_current_epoch
                                && old(self).validating.preffered_validator is Some)
                            &&& refundable_near_amount == refund
                            // Conservation: a deposit grows the tracked asset
                            // by exactly what was staked.
                            &&& final(self).spec_tracked_asset_total() == old(
                                self,
                            ).spec_tracked_asset_total() + near_amount
                            &&& final(self).fund.classic_unstaked_balance == old(
                                self,
                            ).fund.classic_unstaked_balance + near_amount
                            &&& final(self).fund.classic_staked_balance == old(
                                self,
                            ).fund.classic_staked_balance
                            &&& final(self).fund.investment_staked_balance == old(
                                self,
                            ).fund.investment_staked_balance
                            &&& final(self).fund.classic_liquidity_balance == old(
                                self,
                            ).fund.classic_liquidity_balance
                            &&& final(self).fund.is_distributed_on_validators_in_current_epoch
                                == old(self).fund.is_distributed_on_validators_in_current_epoch
                            &&& final(self).fungible_token.total_supply == old(
                                self,
                            ).fungible_token.total_supply + token
                            &&& final(self).fungible_token.account_registry@ == old(
                                self,
                            ).fungible_token.account_registry@.insert(
                                pred,
                                (AccountBalance {
                                    token_amount: (prior.token_amount + token) as u128,
                                    classic_near_amount: (prior.classic_near_amount
                                        + remainder) as u128,
                                    investment_near_amount: prior.investment_near_amount,
                                }),
                            )
                            &&& final(self).fungible_token.accounts_quantity == old(
                                self,
                            ).fungible_token.accounts_quantity + (
                            if old(self).fungible_token.account_registry@.contains_key(pred) {
                                0int
                            } else {
                                1int
                            })
                            &&& final(self).fungible_token.storage_usage_per_account == old(
                                self,
                            ).fungible_token.storage_usage_per_account
                            &&& same_ids_and_fees(*old(self), *final(self))
                            &&& same_validating(*old(self), *final(self))
                            &&& same_delayed(*old(self), *final(self))
                            &&& same_reward_and_epoch(*old(self), *final(self))
                        },
                        DepositOutcome::Forwarded(a) => {
                            &&& old(self).fund.is_distributed_on_validators_in_current_epoch
                            &&& old(self).validating.preffered_validator is Some
                            &&& *final(self) == *old(self)
                            &&& a == (DepositAction {
                                predecessor_account_id: pred,
                                validator_account_id: old(
                                    self,
                                ).validating.preffered_validator.unwrap(),
                                attached_deposit: ctx.attached_deposit,
                                near_amount,
                                refundable_near_amount: refund as u128,
                                token_amount: token,
                                near_remainder: remainder,
                                current_epoch_height: old(self).current_epoch_height,
                                storage_staking_price: price as u128,
                                staking_contract_version: old(
                                    self,
                                ).validating.validator_registry@[old(
                                    self,
                                ).validating.preffered_validator.unwrap()].staking_contract_version,
                            })
                        },
                    }
                },
            },
    {
        if ctx.prepaid_gas < crate::MINIMUM_GAS_AMOUNT {
            return Err(PoolError::NotEnoughGas);
        }
        if ctx.attached_deposit < MINIMUM_DEPOSIT_AMOUNT {
            return Err(PoolError::DepositBelowMinimum);
        }
        if self.current_epoch_height != ctx.network_epoch_height {
            return Err(PoolError::EpochNotSynchronized);
        }

        let already_registered = self.fungible_token.account_registry.contains_key(
            ctx.predecessor_account_id,
        );
        let storage_price: u128 = if already_registered {
            0
        } else {
            calculate_storage_staking_price(
                ctx.storage_byte_cost,
                self.fungible_token.storage_usage_per_account,
            )
        };

        let minimum_near_amount = MINIMUM_DEPOSIT_AMOUNT - storage_price;
        if near_amount < minimum_near_amount {
            return Err(PoolError::AmountBelowMinimum);
        }
        if ctx.attached_deposit < storage_price {
            return Err(PoolError::InsufficientDeposit);
        }
        let available_for_staking = ctx.attached_deposit - storage_price;
        if near_amount > available_for_staking {
            return Err(PoolError::InsufficientDeposit);
        }
        let refundable_near_amount = available_for_staking - near_amount;

        let (token_amount, near_remainder) = self.convert_near_amount_to_token_amount(near_amount);
        if token_amount == 0 {
            return Err(PoolError::InsufficientAmount);
        }

        if self.fund.is_distributed_on_validators_in_current_epoch {
            match self.validating.preffered_validator {
                Some(preffered_validator_account_id) => {
                    let version = match self.validating.validator_registry.get(
                        preffered_validator_account_id,
                    ) {
                        Some(validator) => validator.staking_contract_version,
                        None => {
                            // Unreachable: the preferred validator is always registered.
                            proof {
                                assert(false);
                            }
                            crate::validator::StakingContractVersion::Core
                        },
                    };
                    return Ok(
                        DepositOutcome::Forwarded(
                            DepositAction {
                                predecessor_account_id: ctx.predecessor_account_id,
                                validator_account_id: preffered_validator_account_id,
                                attached_deposit: ctx.attached_deposit,
                                near_amount,
                                refundable_near_amount,
                                token_amount,
                                near_remainder,
                                current_epoch_height: self.current_epoch_height,
                                storage_staking_price: storage_price,
                                staking_contract_version: version,
                            },
                        ),
                    );
                },
                None => {},
            }
        }

        let mut account_balance = match self.fungible_token.account_registry.get(
            ctx.predecessor_account_id,
        ) {
            Some(balance) => *balance,
            None => AccountBalance::empty(),
        };

        self.fund.classic_unstaked_balance = self.fund.classic_unstaked_balance + near_amount;
        self.fungible_token.total_supply = self.fungible_token.total_supply + token_amount;

        account_balance.token_amount = account_balance.token_amount + token_amount;
        account_balance.classic_near_amount = account_balance.classic_near_amount + near_remainder;
        let ghost pre_entries = self.fungible_token.account_registry.entries();
        let prev = self.fungible_token.account_registry.insert(
            ctx.predecessor_account_id,
            account_balance,
        );
        proof {
            lemma_account_store_sum(
                pre_entries,
                self.fungible_token.account_registry.entries(),
                ctx.predecessor_account_id,
                account_balance,
                prev,
            );
        }
        let registered_accounts = self.fungible_token.account_registry.len();
        self.fungible_token.accounts_quantity = registered_accounts as u64;

        Ok(DepositOutcome::Staked { refundable_near_amount })
    }

    /// The raw instant-withdraw fee cut taken from `token_amount`.
    pub open spec fn spec_instant_fee_raw(self, token_amount: u128) -> int {
        match self.fee_registry.instant_withdraw_fee {
            Some(sf) => sf.spec_raw_cut(token_amount),
            None => 0,
        }
    }

    /// The partner's part of the instant-withdraw fee.
    pub open spec fn spec_instant_fee_partner(self, token_amount: u128) -> int {
        match self.fee_registry.instant_withdraw_fee {
            Some(sf) => sf.spec_partner_cut(token_amount),
            None => 0,
        }
    }

    /// The pool's own part of the instant-withdraw fee.
    pub open spec fn spec_instant_fee_self(self, token_amount: u128) -> int {
        self.spec_instant_fee_raw(token_amount) - self.spec_instant_fee_partner(token_amount)
    }

    /// Shares actually burned on instant withdrawal: the requested amount
    /// less the fee, which moves to the receivers instead.
    pub open spec fn spec_instant_token_after(self, token_amount: u128) -> u128 {
        (token_amount - self.spec_instant_fee_raw(token_amount)) as u128
    }

    /// The asset an instant withdrawal pays out of the pool's buckets:
    /// the burned shares at the current rate plus the caller's classic
    /// remainder balance.
    pub open spec fn spec_instant_near(self, ctx: EnvContext, token_amount: u128) -> int {
        self.spec_convert_token_to_near(self.spec_instant_token_after(token_amount))
            + self.spec_account_or_empty(ctx.predecessor_account_id).classic_near_amount
    }

    /// Whether redeeming `token_amount` would leave an investor with less
    /// value than their tracked investment stake. The check values the
    /// reduced share balance at the rate the pool would have after the
    /// given bucket shrinks by `near_delta`.
    pub open spec fn spec_investor_coverage_violated(
        self,
        ctx: EnvContext,
        token_amount: u128,
        near_delta: int,
    ) -> bool {
        let pred = ctx.predecessor_account_id;
        let b = self.spec_account_or_empty(pred);
        self.validating.investor_investment_registry@.contains_key(pred)
            && Self::spec_convert_token_to_near_at(
            self.fungible_token.total_supply,
            (self.fund.spec_common_balance() - near_delta) as u128,
            (b.token_amount - token_amount) as u128,
        ) + b.investment_near_amount
            < self.validating.investor_investment_registry@[pred].staked_balance
    }

    /// The share-account map after fee credits, before the caller's own
    /// entry is stored or removed.
    pub open spec fn spec_instant_accounts_mid(self, ctx: EnvContext, token_amount: u128) -> Map<
        u64,
        AccountBalance,
    > {
        let m0 = self.fungible_token.account_registry@;
        let self_r = self.account_registry.self_fee_receiver_account_id;
        let partner_r = self.account_registry.partner_fee_receiver_account_id;
        let pred = ctx.predecessor_account_id;
        let m1 = if pred == self_r {
            m0
        } else {
            m0.insert(self_r, spec_credit_token(m0[self_r], self.spec_instant_fee_self(token_amount)))
        };
        if pred == partner_r {
            m1
        } else {
            m1.insert(
                partner_r,
                spec_credit_token(m0[partner_r], self.spec_instant_fee_partner(token_amount)),
            )
        }
    }

    /// The caller's balance after an instant withdrawal: shares burned, any
    /// fee cut owed to the caller as a receiver credited back, the classic
    /// remainder spent.
    pub open spec fn spec_instant_final_balance(self, ctx: EnvContext, token_amount: u128)
        -> AccountBalance {
        let pred = ctx.predecessor_account_id;
        let b = self.spec_account_or_empty(pred);
        let self_credit: int = if pred == self.account_registry.self_fee_receiver_account_id {
            self.spec_instant_fee_self(token_amount)
        } else {
            0
        };
        let partner_credit: int = if pred
            == self.account_registry.partner_fee_receiver_account_id {
            self.spec_instant_fee_partner(token_amount)
        } else {
            0
        };
        AccountBalance {
            token_amount: (b.token_amount - token_amount + self_credit + partner_credit) as u128,
            classic_near_amount: 0,
            investment_near_amount: b.investment_near_amount,
        }
    }

    /// Whether the caller's share account disappears: drained and not one of
    /// the pinned fee receivers.
    pub open spec fn spec_instant_removed(self, ctx: EnvContext, token_amount: u128) -> bool {
        let pred = ctx.predecessor_account_id;
        self.spec_instant_final_balance(ctx, token_amount).token_amount == 0 && pred
            != self.account_registry.self_fee_receiver_account_id && pred
            != self.account_registry.partner_fee_receiver_account_id
    }

    /// Why an instant withdrawal would be refused.
    pub open spec fn instant_withdraw_error(self, ctx: EnvContext, token_amount: u128) -> Option<
        PoolError,
    > {
        let pred = ctx.predecessor_account_id;
        if !ctx.gas_is_enough() {
            Some(PoolError::NotEnoughGas)
        } else if !ctx.natural_deposit() {
            Some(PoolError::NoAttachedDeposit)
        } else if !self.epoch_is_synchronized(ctx) {
            Some(PoolError::EpochNotSynchronized)
        } else if token_amount == 0 {
            Some(PoolError::InsufficientAmount)
        } else if !self.fungible_token.account_registry@.contains_key(pred) {
            Some(PoolError::AccountNotRegistered)
        } else if self.fungible_token.account_registry@[pred].token_amount < token_amount {
            Some(PoolError::TokenBalanceExceeded)
        } else if self.spec_investor_coverage_violated(ctx, token_amount, 0) {
            Some(PoolError::InvestmentCoverageViolated)
        } else if self.spec_instant_near(ctx, token_amount) == 0 {
            Some(PoolError::InsufficientAmount)
        } else if self.spec_instant_near(ctx, token_amount)
            > self.fund.classic_unstaked_balance {
            Some(PoolError::UnstakedBalanceExceeded)
        } else {
            None
        }
    }

    /// The machine limits an instant withdrawal must stay within.
    pub open spec fn instant_withdraw_fits(self, ctx: EnvContext, token_amount: u128) -> bool {
        let b = self.spec_account_or_empty(ctx.predecessor_account_id);
        &&& (b.token_amount >= token_amount ==> Self::spec_convert_token_to_near_at(
            self.fungible_token.total_supply,
            self.fund.spec_common_balance() as u128,
            (b.token_amount - token_amount) as u128,
        ) + b.investment_near_amount <= u128::MAX)
        &&& self.spec_convert_token_to_near(self.spec_instant_token_after(token_amount))
            + b.classic_near_amount <= u128::MAX
        &&& self.spec_account_or_empty(
            self.account_registry.self_fee_receiver_account_id,
        ).token_amount + self.spec_instant_fee_raw(token_amount) <= u128::MAX
        &&& self.spec_account_or_empty(
            self.account_registry.partner_fee_receiver_account_id,
        ).token_amount + self.spec_instant_fee_raw(token_amount) <= u128::MAX
        &&& self.spec_instant_near(ctx, token_amount) + spec_storage_price(
            ctx.storage_byte_cost,
            self.fungible_token.storage_usage_per_account,
        ) + ctx.attached_deposit <= u128::MAX
    }

    /// Burns shares for asset paid at once from the liquid bucket, after
    /// the instant-withdraw fee. Returns the payout owed to the caller.
    pub fn instant_withdraw(&mut self, ctx: EnvContext, token_amount: u128) -> (r: Result<
        u128,
        PoolError,
    >)
        requires
            old(self).well_formed(),
            old(self).storage_prices_fit(ctx),
            old(self).instant_withdraw_fits(ctx, token_amount),
        ensures
            final(self).well_formed(),
            (old(self).instant_withdraw_error(ctx, token_amount) is Some <==> r is Err),
            match r {
                Err(e) => Some(e) == old(self).instant_withdraw_error(ctx, token_amount)
                    && *final(self) == *old(self),
                Ok(payout) => {
                    let pred = ctx.predecessor_account_id;
                    let near = old(self).spec_instant_near(ctx, token_amount);
                    let removed = old(self).spec_instant_removed(ctx, token_amount);
                    let released: int = if removed {
                        spec_storage_price(
                            ctx.storage_byte_cost,
                            old(self).fungible_token.storage_usage_per_account,
                        )
                    } else {
                        0
                    };
                    &&& payout == near + released + ctx.attached_deposit
                    // Conservation: the payout leaves the tracked asset.
                    &&& final(self).spec_tracked_asset_total() == old(
                        self,
                    ).spec_tracked_asset_total() - near
                    &&& final(self).fund.classic_unstaked_balance == old(
                        self,
                    ).fund.classic_unstaked_balance - near
                    &&& final(self).fund.classic_staked_balance == old(
                        self,
                    ).fund.classic_staked_balance
                    &&& final(self).fund.investment_staked_balance == old(
                        self,
                    ).fund.investment_staked_balance
                    &&& final(self).fund.classic_liquidity_balance == old(
                        self,
                    ).fund.classic_liquidity_balance
                    &&& final(self).fund.is_distributed_on_validators_in_current_epoch == old(
                        self,
                    ).fund.is_distributed_on_validators_in_current_epoch
                    &&& final(self).fungible_token.total_supply == old(
                        self,
                    ).fungible_token.total_supply - old(self).spec_instant_token_after(
                        token_amount,
                    )
                    &&& final(self).fungible_token.account_registry@ == (if removed {
                        old(self).spec_instant_accounts_mid(ctx, token_amount).remove(pred)
                    } else {
                        old(self).spec_instant_accounts_mid(ctx, token_amount).insert(
                            pred,
                            old(self).spec_instant_final_balance(ctx, token_amount),
                        )
                    })
                    &&& final(self).fungible_token.accounts_quantity == old(
                        self,
                    ).fungible_token.accounts_quantity - (if removed {
                        1int
                    } else {
                        0int
                    })
                    &&& final(self).fungible_token.storage_usage_per_account == old(
                        self,
                    ).fungible_token.storage_usage_per_account
                    &&& same_ids_and_fees(*old(self), *final(self))
                    &&& same_validating(*old(self), *final(self))
                    &&& same_delayed(*old(self), *final(self))
                    &&& same_reward_and_epoch(*old(self), *final(self))
                },
            },
    {
        if ctx.prepaid_gas < crate::MINIMUM_GAS_AMOUNT {
            return Err(PoolError::NotEnoughGas);
        }
        if ctx.attached_deposit == 0 {
            return Err(PoolError::NoAttachedDeposit);
        }
        if self.current_epoch_height != ctx.network_epoch_height {
            return Err(PoolError::EpochNotSynchronized);
        }
        if token_amount == 0 {
            return Err(PoolError::InsufficientAmount);
        }

        let mut account_balance = match self.fungible_token.account_registry.get(
            ctx.predecessor_account_id,
        ) {
            Some(balance) => *balance,
            None => {
                return Err(PoolError::AccountNotRegistered);
            },
        };
        if account_balance.token_amount < token_amount {
            return Err(PoolError::TokenBalanceExceeded);
        }
        proof {
            let entries = self.fungible_token.account_registry.entries();
            crate::registry::lemma_view_entries(&self.fungible_token.account_registry);
            crate::registry::lemma_assoc_map_domain(entries, ctx.predecessor_account_id);
            let i = choose|i: int|
                0 <= i < entries.len() && (#[trigger] entries[i]).0
                    == ctx.predecessor_account_id;
            crate::registry::lemma_assoc_map_index(entries, i);
            // The caller's balance never exceeds the supply: the ledger sums
            // to it.
            crate::account::lemma_token_sum_element(entries, i);
        }

        let coverage_violated = match self.validating.investor_investment_registry.get(
            ctx.predecessor_account_id,
        ) {
            Some(investor_investment) => {
                let reduced_near = StakePool::convert_token_to_near_at(
                    self.fungible_token.total_supply,
                    self.fund.get_common_balance(),
                    account_balance.token_amount - token_amount,
                );
                reduced_near + account_balance.investment_near_amount
                    < investor_investment.staked_balance
            },
            None => false,
        };
        if coverage_violated {
            return Err(PoolError::InvestmentCoverageViolated);
        }

        let (fee_self_cut, fee_partner_cut): (u128, u128) =
            match self.fee_registry.instant_withdraw_fee {
            Some(shared_fee) => shared_fee.split(token_amount),
            None => (0, 0),
        };
        let token_after_fee = token_amount - (fee_self_cut + fee_partner_cut);

        let near_base = self.convert_token_amount_to_near_amount(token_after_fee);
        let near_amount = near_base + account_balance.classic_near_amount;
        if near_amount == 0 {
            return Err(PoolError::InsufficientAmount);
        }
        if near_amount > self.fund.classic_unstaked_balance {
            return Err(PoolError::UnstakedBalanceExceeded);
        }

        account_balance.classic_near_amount = 0;
        self.fund.classic_unstaked_balance = self.fund.classic_unstaked_balance - near_amount;
        account_balance.token_amount = account_balance.token_amount - token_amount;

        if ctx.predecessor_account_id == self.account_registry.self_fee_receiver_account_id {
            account_balance.token_amount = account_balance.token_amount + fee_self_cut;
        } else {
            let mut receiver_balance = match self.fungible_token.account_registry.get(
                self.account_registry.self_fee_receiver_account_id,
            ) {
                Some(balance) => *balance,
                None => {
                    // Unreachable: the fee receivers are pinned in the ledger.
                    proof {
                        assert(false);
                    }
                    AccountBalance::empty()
                },
            };
            receiver_balance.token_amount = receiver_balance.token_amount + fee_self_cut;
            let ghost pre_entries = self.fungible_token.account_registry.entries();
            let prev = self.fungible_token.account_registry.insert(
                self.account_registry.self_fee_receiver_account_id,
                receiver_balance,
            );
            proof {
                lemma_account_store_sum(
                    pre_entries,
                    self.fungible_token.account_registry.entries(),
                    self.account_registry.self_fee_receiver_account_id,
                    receiver_balance,
                    prev,
                );
            }
        }
        if ctx.predecessor_account_id == self.account_registry.partner_fee_receiver_account_id {
            account_balance.token_amount = account_balance.token_amount + fee_partner_cut;
        } else {
            let mut receiver_balance = match self.fungible_token.account_registry.get(
                self.account_registry.partner_fee_receiver_account_id,
            ) {
                Some(balance) => *balance,
                None => {
                    // Unreachable: the fee receivers are pinned in the ledger.
                    proof {
                        assert(false);
                    }
                    AccountBalance::empty()
                },
            };
            receiver_balance.token_amount = receiver_balance.token_amount + fee_partner_cut;
            let ghost pre_entries = self.fungible_token.account_registry.entries();
            let prev = self.fungible_token.account_registry.insert(
                self.account_registry.partner_fee_receiver_account_id,
                receiver_balance,
            );
            proof {
                lemma_account_store_sum(
                    pre_entries,
                    self.fungible_token.account_registry.entries(),
                    self.account_registry.partner_fee_receiver_account_id,
                    receiver_balance,
                    prev,
                );
            }
        }

        let mut payout = near_amount;
        let ghost pre_entries = self.fungible_token.account_registry.entries();
        if account_balance.token_amount > 0 || ctx.predecessor_account_id
            == self.account_registry.self_fee_receiver_account_id || ctx.predecessor_account_id
            == self.account_registry.partner_fee_receiver_account_id {
            let prev = self.fungible_token.account_registry.insert(
                ctx.predecessor_account_id,
                account_balance,
            );
            proof {
                lemma_account_store_sum(
                    pre_entries,
                    self.fungible_token.account_registry.entries(),
                    ctx.predecessor_account_id,
                    account_balance,
                    prev,
                );
            }
        } else {
            let prev = self.fungible_token.account_registry.remove(ctx.predecessor_account_id);
            proof {
                lemma_account_remove_sum(
                    pre_entries,
                    self.fungible_token.account_registry.entries(),
                    ctx.predecessor_account_id,
                    prev.unwrap(),
                );
            }
            let released = calculate_storage_staking_price(
                ctx.storage_byte_cost,
                self.fungible_token.storage_usage_per_account,
            );
            payout = payout + released;
        }
        let registered_accounts = self.fungible_token.account_registry.len();
        self.fungible_token.accounts_quantity = registered_accounts as u64;

        self.fungible_token.total_supply = self.fungible_token.total_supply - token_after_fee;

        payout = payout + ctx.attached_deposit;
        Ok(payout)
    }

    /// The asset a delayed withdrawal moves from the staked bucket into the
    /// caller's ticket.
    pub open spec fn spec_delayed_near(self, ctx: EnvContext, token_amount: u128) -> int {
        self.spec_convert_token_to_near(token_amount) + self.spec_account_or_empty(
            ctx.predecessor_account_id,
        ).classic_near_amount
    }

    /// Storage cost a delayed withdrawal must cover: zero when the caller
    /// already has a ticket.
    pub open spec fn spec_delayed_ticket_price(self, ctx: EnvContext) -> int {
        if self.fund.delayed_withdrawn_fund.delayed_withdrawal_registry@.contains_key(
            ctx.predecessor_account_id,
        ) {
            0
        } else {
            spec_storage_price(
                ctx.storage_byte_cost,
                self.fund.delayed_withdrawn_fund.storage_usage_per_delayed_withdrawal,
            )
        }
    }

    /// The caller's ticket before the withdrawal, or a fresh one.
    pub open spec fn spec_delayed_ticket_or_empty(self, id: u64) -> DelayedWithdrawal {
        if self.fund.delayed_withdrawn_fund.delayed_withdrawal_registry@.contains_key(id) {
            self.fund.delayed_withdrawn_fund.delayed_withdrawal_registry@[id]
        } else {
            DelayedWithdrawal { near_amount: 0, started_epoch_height: self.current_epoch_height }
        }
    }

    /// Why a delayed withdrawal would be refused.
    pub open spec fn delayed_withdraw_error(self, ctx: EnvContext, token_amount: u128) -> Option<
        PoolError,
    > {
        let pred = ctx.predecessor_account_id;
        let near = self.spec_delayed_near(ctx, token_amount);
        if !ctx.gas_is_enough() {
            Some(PoolError::NotEnoughGas)
        } else if !ctx.natural_deposit() {
            Some(PoolError::NoAttachedDeposit)
        } else if !self.epoch_is_synchronized(ctx) {
            Some(PoolError::EpochNotSynchronized)
        } else if token_amount == 0 {
            Some(PoolError::InsufficientAmount)
        } else if !self.fungible_token.account_registry@.contains_key(pred) {
            Some(PoolError::AccountNotRegistered)
        } else if self.fungible_token.account_registry@[pred].token_amount < token_amount {
            Some(PoolError::TokenBalanceExceeded)
        } else if near == 0 {
            Some(PoolError::InsufficientAmount)
        } else if near > self.fund.classic_staked_balance {
            Some(PoolError::StakedBalanceExceeded)
        } else if ctx.attached_deposit < self.spec_delayed_ticket_price(ctx) {
            Some(PoolError::InsufficientDeposit)
        } else if self.spec_investor_coverage_violated(ctx, token_amount, near) {
            Some(PoolError::InvestmentCoverageViolated)
        } else {
            None
        }
    }

    /// The machine limits a delayed withdrawal must stay within.
    pub open spec fn delayed_withdraw_fits(self, ctx: EnvContext, token_amount: u128) -> bool {
        let b = self.spec_account_or_empty(ctx.predecessor_account_id);
        let near = self.spec_delayed_near(ctx, token_amount);
        &&& self.spec_convert_token_to_near(token_amount) + b.classic_near_amount <= u128::MAX
        &&& (b.token_amount >= token_amount && near <= self.fund.classic_staked_balance
            ==> Self::spec_convert_token_to_near_at(
            self.fungible_token.total_supply,
            (self.fund.spec_common_balance() - near) as u128,
            (b.token_amount - token_amount) as u128,
        ) + b.investment_near_amount <= u128::MAX)
        &&& self.spec_delayed_ticket_or_empty(ctx.predecessor_account_id).near_amount + near
            <= u128::MAX
        &&& self.fund.delayed_withdrawn_fund.needed_to_request_classic_near_amount + near
            <= u128::MAX
        &&& ctx.attached_deposit + spec_storage_price(
            ctx.storage_byte_cost,
            self.fungible_token.storage_usage_per_account,
        ) <= u128::MAX
    }

    /// Burns shares against the staked bucket and books the asset into the
    /// caller's delayed-withdrawal ticket, restarting its clock. Returns the
    /// refundable part of the attached payment.
    pub fn delayed_withdraw(&mut self, ctx: EnvContext, token_amount: u128) -> (r: Result<
        u128,
        PoolError,
    >)
        requires
            old(self).well_formed(),
            old(self).storage_prices_fit(ctx),
            old(self).delayed_withdraw_fits(ctx, token_amount),
        ensures
            final(self).well_formed(),
            (old(self).delayed_withdraw_error(ctx, token_amount) is Some <==> r is Err),
            match r {
                Err(e) => Some(e) == old(self).delayed_withdraw_error(ctx, token_amount)
                    && *final(self) == *old(self),
                Ok(refund) => {
                    let pred = ctx.predecessor_account_id;
                    let near = old(self).spec_delayed_near(ctx, token_amount);
                    let prior = old(self).spec_account_or_empty(pred);
                    let new_balance = AccountBalance {
                        token_amount: (prior.token_amount - token_amount) as u128,
                        classic_near_amount: 0,
                        investment_near_amount: prior.investment_near_amount,
                    };
                    let removed = new_balance.token_amount == 0 && pred != old(
                        self,
                    ).account_registry.self_fee_receiver_account_id && pred != old(
                        self,
                    ).account_registry.partner_fee_receiver_account_id;
                    let ticket = old(self).spec_delayed_ticket_or_empty(pred);
                    &&& refund == ctx.attached_deposit - old(self).spec_delayed_ticket_price(ctx)
                        + (if removed {
                        spec_storage_price(
                            ctx.storage_byte_cost,
                            old(self).fungible_token.storage_usage_per_account,
                        )
                    } else {
                        0int
                    })
                    // Conservation: the burned asset moves from the pool's
                    // buckets into the caller's ticket, nothing leaves.
                    &&& final(self).spec_obligation_total(pred) == old(
                        self,
                    ).spec_obligation_total(pred)
                    &&& final(self).fund.classic_staked_balance == old(
                        self,
                    ).fund.classic_staked_balance - near
                    &&& final(self).fund.classic_unstaked_balance == old(
                        self,
                    ).fund.classic_unstaked_balance
                    &&& final(self).fund.investment_staked_balance == old(
                        self,
                    ).fund.investment_staked_balance
                    &&& final(self).fund.classic_liquidity_balance == old(
                        self,
                    ).fund.classic_liquidity_balance
                    &&& final(self).fund.is_distributed_on_validators_in_current_epoch == old(
                        self,
                    ).fund.is_distributed_on_validators_in_current_epoch
                    &&& final(self).fund.delayed_withdrawn_fund.delayed_withdrawal_registry@ == old(
                        self,
                    ).fund.delayed_withdrawn_fund.delayed_withdrawal_registry@.insert(
                        pred,
                        (DelayedWithdrawal {
                            near_amount: (ticket.near_amount + near) as u128,
                            started_epoch_height: old(self).current_epoch_height,
                        }),
                    )
                    &&& final(self).fund.delayed_withdrawn_fund.needed_to_request_classic_near_amount
                        == old(self).fund.delayed_withdrawn_fund.needed_to_request_classic_near_amount
                        + near
                    &&& final(self).fund.delayed_withdrawn_fund.needed_to_request_investment_near_amount
                        == old(self).fund.delayed_withdrawn_fund.needed_to_request_investment_near_amount
                    &&& final(self).fund.delayed_withdrawn_fund.balance == old(
                        self,
                    ).fund.delayed_withdrawn_fund.balance
                    &&& final(self).fund.delayed_withdrawn_fund.investment_withdrawal_registry
                        == old(self).fund.delayed_withdrawn_fund.investment_withdrawal_registry
                    &&& final(self).fund.delayed_withdrawn_fund.storage_usage_per_delayed_withdrawal
                        == old(self).fund.delayed_withdrawn_fund.storage_usage_per_delayed_withdrawal
                    &&& final(self).fund.delayed_withdrawn_fund.storage_usage_per_investment_withdrawal
                        == old(
                        self,
                    ).fund.delayed_withdrawn_fund.storage_usage_per_investment_withdrawal
                    &&& final(self).fungible_token.total_supply == old(
                        self,
                    ).fungible_token.total_supply - token_amount
                    &&& final(self).fungible_token.account_registry@ == (if removed {
                        old(self).fungible_token.account_registry@.remove(pred)
                    } else {
                        old(self).fungible_token.account_registry@.insert(pred, new_balance)
                    })
                    &&& final(self).fungible_token.accounts_quantity == old(
                        self,
                    ).fungible_token.accounts_quantity - (if removed {
                        1int
                    } else {
                        0int
                    })
                    &&& final(self).fungible_token.storage_usage_per_account == old(
                        self,
                    ).fungible_token.storage_usage_per_account
                    &&& same_ids_and_fees(*old(self), *final(self))
                    &&& same_validating(*old(self), *final(self))
                    &&& same_reward_and_epoch(*old(self), *final(self))
                },
            },
    {
        if ctx.prepaid_gas < crate::MINIMUM_GAS_AMOUNT {
            return Err(PoolError::NotEnoughGas);
        }
        if ctx.attached_deposit == 0 {
            return Err(PoolError::NoAttachedDeposit);
        }
        if self.current_epoch_height != ctx.network_epoch_height {
            return Err(PoolError::EpochNotSynchronized);
        }
        if token_amount == 0 {
            return Err(PoolError::InsufficientAmount);
        }

        let mut account_balance = match self.fungible_token.account_registry.get(
            ctx.predecessor_account_id,
        ) {
            Some(balance) => *balance,
            None => {
                return Err(PoolError::AccountNotRegistered);
            },
        };
        if account_balance.token_amount < token_amount {
            return Err(PoolError::TokenBalanceExceeded);
        }
        proof {
            let entries = self.fungible_token.account_registry.entries();
            crate::registry::lemma_view_entries(&self.fungible_token.account_registry);
            crate::registry::lemma_assoc_map_domain(entries, ctx.predecessor_account_id);
            let i = choose|i: int|
                0 <= i < entries.len() && (#[trigger] entries[i]).0
                    == ctx.predecessor_account_id;
            crate::registry::lemma_assoc_map_index(entries, i);
            // The caller's balance never exceeds the supply: the ledger sums
            // to it.
            crate::account::lemma_token_sum_element(entries, i);
        }

        let near_base = self.convert_token_amount_to_near_amount(token_amount);
        let near_amount = near_base + account_balance.classic_near_amount;
        if near_amount == 0 {
            return Err(PoolError::InsufficientAmount);
        }
        if near_amount > self.fund.classic_staked_balance {
            return Err(PoolError::StakedBalanceExceeded);
        }

        let (ticket_price, mut delayed_withdrawal): (u128, DelayedWithdrawal) =
            match self.fund.delayed_withdrawn_fund.delayed_withdrawal_registry.get(
            ctx.predecessor_account_id,
        ) {
            Some(ticket) => (0, *ticket),
            None => (
                calculate_storage_staking_price(
                    ctx.storage_byte_cost,
                    self.fund.delayed_withdrawn_fund.storage_usage_per_delayed_withdrawal,
                ),
                DelayedWithdrawal {
                    near_amount: 0,
                    started_epoch_height: self.current_epoch_height,
                },
            ),
        };
        if ctx.attached_deposit < ticket_price {
            return Err(PoolError::InsufficientDeposit);
        }
        let mut refundable_near_amount = ctx.attached_deposit - ticket_price;

        let coverage_violated = match self.validating.investor_investment_registry.get(
            ctx.predecessor_account_id,
        ) {
            Some(investor_investment) => {
                let reduced_near = StakePool::convert_token_to_near_at(
                    self.fungible_token.total_supply,
                    self.fund.get_common_balance() - near_amount,
                    account_balance.token_amount - token_amount,
                );
                reduced_near + account_balance.investment_near_amount
                    < investor_investment.staked_balance
            },
            None => false,
        };
        if coverage_violated {
            return Err(PoolError::InvestmentCoverageViolated);
        }

        account_balance.classic_near_amount = 0;
        self.fund.classic_staked_balance = self.fund.classic_staked_balance - near_amount;

        delayed_withdrawal.near_amount = delayed_withdrawal.near_amount + near_amount;
        delayed_withdrawal.started_epoch_height = self.current_epoch_height;
        self.fund.delayed_withdrawn_fund.delayed_withdrawal_registry.insert(
            ctx.predecessor_account_id,
            delayed_withdrawal,
        );
        self.fund.delayed_withdrawn_fund.needed_to_request_classic_near_amount =
            self.fund.delayed_withdrawn_fund.needed_to_request_classic_near_amount + near_amount;

        account_balance.token_amount = account_balance.token_amount - token_amount;
        let ghost pre_entries = self.fungible_token.account_registry.entries();
        if account_balance.token_amount > 0 || ctx.predecessor_account_id
            == self.account_registry.self_fee_receiver_account_id || ctx.predecessor_account_id
            == self.account_registry.partner_fee_receiver_account_id {
            let prev = self.fungible_token.account_registry.insert(
                ctx.predecessor_account_id,
                account_balance,
            );
            proof {
                lemma_account_store_sum(
                    pre_entries,
                    self.fungible_token.account_registry.entries(),
                    ctx.predecessor_account_id,
                    account_balance,
                    prev,
                );
            }
        } else {
            let prev = self.fungible_token.account_registry.remove(ctx.predecessor_account_id);
            proof {
                lemma_account_remove_sum(
                    pre_entries,
                    self.fungible_token.account_registry.entries(),
                    ctx.predecessor_account_id,
                    prev.unwrap(),
                );
            }
            let released = calculate_storage_staking_price(
                ctx.storage_byte_cost,
                self.fungible_token.storage_usage_per_account,
            );
            refundable_near_amount = refundable_near_amount + released;
        }
        let registered_accounts = self.fungible_token.account_registry.len();
        self.fungible_token.accounts_quantity = registered_accounts as u64;

        self.fungible_token.total_supply = self.fungible_token.total_supply - token_amount;

        Ok(refundable_near_amount)
    }

    /// Storage cost of the per-validator investment-withdrawal ticket, zero
    /// when it already exists.
    pub open spec fn spec_investment_ticket_price(self, ctx: EnvContext, validator_account_id: u64)
        -> int {
        if self.fund.delayed_withdrawn_fund.investment_withdrawal_registry@.contains_key(
            validator_account_id,
        ) {
            0
        } else {
            spec_storage_price(
                ctx.storage_byte_cost,
                self.fund.delayed_withdrawn_fund.storage_usage_per_investment_withdrawal,
            )
        }
    }

    /// The validator's investment-withdrawal ticket, or a fresh one funded
    /// by the caller.
    pub open spec fn spec_investment_ticket_or_empty(
        self,
        ctx: EnvContext,
        validator_account_id: u64,
    ) -> crate::delayed::InvestmentWithdrawal {
        if self.fund.delayed_withdrawn_fund.investment_withdrawal_registry@.contains_key(
            validator_account_id,
        ) {
            self.fund.delayed_withdrawn_fund.investment_withdrawal_registry@[validator_account_id]
        } else {
            crate::delayed::InvestmentWithdrawal {
                near_amount: 0,
                account_id: ctx.predecessor_account_id,
            }
        }
    }

    /// Why a delayed withdrawal from a specific validator would be refused.
    pub open spec fn delayed_withdraw_from_validator_error(
        self,
        ctx: EnvContext,
        near_amount: u128,
        validator_account_id: u64,
    ) -> Option<PoolError> {
        let pred = ctx.predecessor_account_id;
        let investors = self.validating.investor_investment_registry@;
        let iw_price = self.spec_investment_ticket_price(ctx, validator_account_id);
        let token = self.spec_token_of(near_amount);
        if !ctx.gas_is_enough() {
            Some(PoolError::NotEnoughGas)
        } else if !ctx.natural_deposit() {
            Some(PoolError::NoAttachedDeposit)
        } else if !self.epoch_is_synchronized(ctx) {
            Some(PoolError::EpochNotSynchronized)
        } else if near_amount == 0 {
            Some(PoolError::InsufficientAmount)
        } else if near_amount > self.fund.investment_staked_balance {
            Some(PoolError::StakedBalanceExceeded)
        } else if !self.validating.validator_registry@.contains_key(validator_account_id) {
            Some(PoolError::ValidatorNotRegistered)
        } else if !investors.contains_key(pred) {
            Some(PoolError::InvestorNotRegistered)
        } else if !investors[pred].distribution_registry@.contains_key(validator_account_id) {
            Some(PoolError::DistributionNotFound)
        } else if near_amount > investors[pred].distribution_registry@[validator_account_id] {
            Some(PoolError::DistributionBalanceExceeded)
        } else if ctx.attached_deposit < iw_price {
            Some(PoolError::InsufficientDeposit)
        } else if near_amount > self.validating.validator_registry@[validator_account_id].balance.investment_near_amount
            - self.spec_investment_ticket_or_empty(ctx, validator_account_id).near_amount {
            Some(PoolError::ValidatorBalanceExceeded)
        } else if token == 0 {
            Some(PoolError::InsufficientAmount)
        } else if !self.fungible_token.account_registry@.contains_key(pred) {
            Some(PoolError::AccountNotRegistered)
        } else if self.fungible_token.account_registry@[pred].token_amount < token {
            Some(PoolError::TokenBalanceExceeded)
        } else if ctx.attached_deposit - iw_price < self.spec_delayed_ticket_price(ctx) {
            Some(PoolError::InsufficientDeposit)
        } else {
            None
        }
    }

    /// The machine limits a delayed withdrawal from a validator must stay
    /// within. The ticket bound against the validator's investment balance
    /// reflects that tickets only ever book asset the validator holds.
    pub open spec fn delayed_withdraw_from_validator_fits(
        self,
        ctx: EnvContext,
        near_amount: u128,
        validator_account_id: u64,
    ) -> bool {
        let pred = ctx.predecessor_account_id;
        &&& self.spec_convert_near_to_token(near_amount) <= u128::MAX
        &&& self.spec_investment_ticket_or_empty(ctx, validator_account_id).near_amount
            + near_amount <= u128::MAX
        &&& self.spec_delayed_ticket_or_empty(pred).near_amount + near_amount <= u128::MAX
        &&& self.fund.delayed_withdrawn_fund.needed_to_request_investment_near_amount + near_amount
            <= u128::MAX
        &&& ctx.attached_deposit + spec_storage_price(
            ctx.storage_byte_cost,
            self.validating.storage_usage_per_distribution,
        ) + spec_storage_price(
            ctx.storage_byte_cost,
            self.fungible_token.storage_usage_per_account,
        ) <= u128::MAX
    }

    /// An investor's delayed withdrawal drawn against one validator's
    /// investment balance: burns shares, books the asset into both the
    /// account-level and the per-validator ticket, and shrinks the
    /// investor's distribution. Returns the refundable part of the payment.
    pub fn delayed_withdraw_from_validator(
        &mut self,
        ctx: EnvContext,
        near_amount: u128,
        validator_account_id: u64,
    ) -> (r: Result<u128, PoolError>)
        requires
            old(self).well_formed(),
            old(self).storage_prices_fit(ctx),
            old(self).delayed_withdraw_from_validator_fits(ctx, near_amount, validator_account_id),
        ensures
            final(self).well_formed(),
            (old(self).delayed_withdraw_from_validator_error(ctx, near_amount, validator_account_id)
                is Some <==> r is Err),
            match r {
                Err(e) => Some(e) == old(self).delayed_withdraw_from_validator_error(
                    ctx,
                    near_amount,
                    validator_account_id,
                ) && *final(self) == *old(self),
                Ok(refund) => {
                    let pred = ctx.predecessor_account_id;
                    let token = old(self).spec_token_of(near_amount);
                    let iw_price = old(self).spec_investment_ticket_price(
                        ctx,
                        validator_account_id,
                    );
                    let dw_price = old(self).spec_delayed_ticket_price(ctx);
                    let prior = old(self).spec_account_or_empty(pred);
                    let new_balance = AccountBalance {
                        token_amount: (prior.token_amount - token) as u128,
                        classic_near_amount: prior.classic_near_amount,
                        investment_near_amount: prior.investment_near_amount,
                    };
                    let account_removed = new_balance.token_amount == 0 && pred != old(
                        self,
                    ).account_registry.self_fee_receiver_account_id && pred != old(
                        self,
                    ).account_registry.partner_fee_receiver_account_id;
                    let old_investor = old(self).validating.investor_investment_registry@[pred];
                    let distribution_removed = near_amount
                        == old_investor.distribution_registry@[validator_account_id];
                    let ticket = old(self).spec_delayed_ticket_or_empty(pred);
                    let iw_ticket = old(self).spec_investment_ticket_or_empty(
                        ctx,
                        validator_account_id,
                    );
                    &&& refund == ctx.attached_deposit - iw_price - dw_price + (
                    if distribution_removed {
                        spec_storage_price(
                            ctx.storage_byte_cost,
                            old(self).validating.storage_usage_per_distribution,
                        )
                    } else {
                        0int
                    }) + (if account_removed {
                        spec_storage_price(
                            ctx.storage_byte_cost,
                            old(self).fungible_token.storage_usage_per_account,
                        )
                    } else {
                        0int
                    })
                    // Conservation: the burned asset moves from the pool's
                    // buckets into the caller's ticket, nothing leaves.
                    &&& final(self).spec_obligation_total(pred) == old(
                        self,
                    ).spec_obligation_total(pred)
                    &&& final(self).fund.investment_staked_balance == old(
                        self,
                    ).fund.investment_staked_balance - near_amount
                    &&& final(self).fund.classic_unstaked_balance == old(
                        self,
                    ).fund.classic_unstaked_balance
                    &&& final(self).fund.classic_staked_balance == old(
                        self,
                    ).fund.classic_staked_balance
                    &&& final(self).fund.classic_liquidity_balance == old(
                        self,
                    ).fund.classic_liquidity_balance
                    &&& final(self).fund.is_distributed_on_validators_in_current_epoch == old(
                        self,
                    ).fund.is_distributed_on_validators_in_current_epoch
                    &&& final(self).fund.delayed_withdrawn_fund.delayed_withdrawal_registry@ == old(
                        self,
                    ).fund.delayed_withdrawn_fund.delayed_withdrawal_registry@.insert(
                        pred,
                        (DelayedWithdrawal {
                            near_amount: (ticket.near_amount + near_amount) as u128,
                            started_epoch_height: old(self).current_epoch_height,
                        }),
                    )
                    &&& final(self).fund.delayed_withdrawn_fund.investment_withdrawal_registry@
                        == old(
                        self,
                    ).fund.delayed_withdrawn_fund.investment_withdrawal_registry@.insert(
                        validator_account_id,
                        (crate::delayed::InvestmentWithdrawal {
                            near_amount: (iw_ticket.near_amount + near_amount) as u128,
                            account_id: iw_ticket.account_id,
                        }),
                    )
                    &&& final(self).fund.delayed_withdrawn_fund.needed_to_request_investment_near_amount
                        == old(
                        self,
                    ).fund.delayed_withdrawn_fund.needed_to_request_investment_near_amount
                        + near_amount
                    &&& final(self).fund.delayed_withdrawn_fund.needed_to_request_classic_near_amount
                        == old(self).fund.delayed_withdrawn_fund.needed_to_request_classic_near_amount
                    &&& final(self).fund.delayed_withdrawn_fund.balance == old(
                        self,
                    ).fund.delayed_withdrawn_fund.balance
                    &&& final(self).fund.delayed_withdrawn_fund.storage_usage_per_delayed_withdrawal
                        == old(self).fund.delayed_withdrawn_fund.storage_usage_per_delayed_withdrawal
                    &&& final(self).fund.delayed_withdrawn_fund.storage_usage_per_investment_withdrawal
                        == old(
                        self,
                    ).fund.delayed_withdrawn_fund.storage_usage_per_investment_withdrawal
                    &&& final(self).validating.investor_investment_registry@.contains_key(pred)
                    &&& {
                        let new_investor = final(self).validating.investor_investment_registry@[pred];
                        &&& new_investor.staked_balance == old_investor.staked_balance
                            - near_amount
                        &&& new_investor.distribution_registry@ == (if distribution_removed {
                            old_investor.distribution_registry@.remove(validator_account_id)
                        } else {
                            old_investor.distribution_registry@.insert(
                                validator_account_id,
                                (old_investor.distribution_registry@[validator_account_id]
                                    - near_amount) as u128,
                            )
                        })
                        &&& final(self).validating.investor_investment_registry@ == old(
                            self,
                        ).validating.investor_investment_registry@.insert(pred, new_investor)
                    }
                    &&& final(self).validating.validator_registry == old(
                        self,
                    ).validating.validator_registry
                    &&& final(self).validating.validators_quantity == old(
                        self,
                    ).validating.validators_quantity
                    &&& final(self).validating.preffered_validator == old(
                        self,
                    ).validating.preffered_validator
                    &&& final(self).validating.quantity_of_validators_updated_in_current_epoch
                        == old(self).validating.quantity_of_validators_updated_in_current_epoch
                    &&& final(self).validating.storage_usage_per_validator == old(
                        self,
                    ).validating.storage_usage_per_validator
                    &&& final(self).validating.storage_usage_per_investor_investment == old(
                        self,
                    ).validating.storage_usage_per_investor_investment
                    &&& final(self).validating.storage_usage_per_distribution == old(
                        self,
                    ).validating.storage_usage_per_distribution
                    &&& final(self).fungible_token.total_supply == old(
                        self,
                    ).fungible_token.total_supply - token
                    &&& final(self).fungible_token.account_registry@ == (if account_removed {
                        old(self).fungible_token.account_registry@.remove(pred)
                    } else {
                        old(self).fungible_token.account_registry@.insert(pred, new_balance)
                    })
                    &&& final(self).fungible_token.accounts_quantity == old(
                        self,
                    ).fungible_token.accounts_quantity - (if account_removed {
                        1int
                    } else {
                        0int
                    })
                    &&& final(self).fungible_token.storage_usage_per_account == old(
                        self,
                    ).fungible_token.storage_usage_per_account
                    &&& same_ids_and_fees(*old(self), *final(self))
                    &&& same_reward_and_epoch(*old(self), *final(self))
                },
            },
    {
        if ctx.prepaid_gas < crate::MINIMUM_GAS_AMOUNT {
            return Err(PoolError::NotEnoughGas);
        }
        if ctx.attached_deposit == 0 {
            return Err(PoolError::NoAttachedDeposit);
        }
        if self.current_epoch_height != ctx.network_epoch_height {
            return Err(PoolError::EpochNotSynchronized);
        }
        if near_amount == 0 {
            return Err(PoolError::InsufficientAmount);
        }
        if near_amount > self.fund.investment_staked_balance {
            return Err(PoolError::StakedBalanceExceeded);
        }

        let validator_investment_near = match self.validating.validator_registry.get(
            validator_account_id,
        ) {
            Some(validator) => validator.balance.investment_near_amount,
            None => {
                return Err(PoolError::ValidatorNotRegistered);
            },
        };

        let investor_staked_on_validator: u128 = match self.validating.investor_investment_registry.get(
            ctx.predecessor_account_id,
        ) {
            Some(investor_investment) => {
                match investor_investment.distribution_registry.get(validator_account_id) {
                    Some(staked_balance) => *staked_balance,
                    None => {
                        return Err(PoolError::DistributionNotFound);
                    },
                }
            },
            None => {
                return Err(PoolError::InvestorNotRegistered);
            },
        };
        if near_amount > investor_staked_on_validator {
            return Err(PoolError::DistributionBalanceExceeded);
        }

        let (iw_price, mut investment_withdrawal): (u128, crate::delayed::InvestmentWithdrawal) =
            match self.fund.delayed_withdrawn_fund.investment_withdrawal_registry.get(
            validator_account_id,
        ) {
            Some(ticket) => (0, *ticket),
            None => (
                calculate_storage_staking_price(
                    ctx.storage_byte_cost,
                    self.fund.delayed_withdrawn_fund.storage_usage_per_investment_withdrawal,
                ),
                crate::delayed::InvestmentWithdrawal {
                    near_amount: 0,
                    account_id: ctx.predecessor_account_id,
                },
            ),
        };
        if ctx.attached_deposit < iw_price {
            return Err(PoolError::InsufficientDeposit);
        }
        let mut refundable_near_amount = ctx.attached_deposit - iw_price;

        if near_amount > validator_investment_near - investment_withdrawal.near_amount {
            return Err(PoolError::ValidatorBalanceExceeded);
        }

        let (token_amount, _near_remainder) = self.convert_near_amount_to_token_amount(
            near_amount,
        );
        if token_amount == 0 {
            return Err(PoolError::InsufficientAmount);
        }

        let mut account_balance = match self.fungible_token.account_registry.get(
            ctx.predecessor_account_id,
        ) {
            Some(balance) => *balance,
            None => {
                return Err(PoolError::AccountNotRegistered);
            },
        };
        if account_balance.token_amount < token_amount {
            return Err(PoolError::TokenBalanceExceeded);
        }
        proof {
            let entries = self.fungible_token.account_registry.entries();
            crate::registry::lemma_view_entries(&self.fungible_token.account_registry);
            crate::registry::lemma_assoc_map_domain(entries, ctx.predecessor_account_id);
            let i = choose|i: int|
                0 <= i < entries.len() && (#[trigger] entries[i]).0
                    == ctx.predecessor_account_id;
            crate::registry::lemma_assoc_map_index(entries, i);
            // The caller's balance never exceeds the supply: the ledger sums
            // to it.
            crate::account::lemma_token_sum_element(entries, i);
        }

        let (dw_price, mut delayed_withdrawal): (u128, DelayedWithdrawal) =
            match self.fund.delayed_withdrawn_fund.delayed_withdrawal_registry.get(
            ctx.predecessor_account_id,
        ) {
            Some(ticket) => (0, *ticket),
            None => (
                calculate_storage_staking_price(
                    ctx.storage_byte_cost,
                    self.fund.delayed_withdrawn_fund.storage_usage_per_delayed_withdrawal,
                ),
                DelayedWithdrawal {
                    near_amount: 0,
                    started_epoch_height: self.current_epoch_height,
                },
            ),
        };
        if refundable_near_amount < dw_price {
            return Err(PoolError::InsufficientDeposit);
        }
        refundable_near_amount = refundable_near_amount - dw_price;

        self.fund.investment_staked_balance = self.fund.investment_staked_balance - near_amount;

        delayed_withdrawal.started_epoch_height = self.current_epoch_height;
        delayed_withdrawal.near_amount = delayed_withdrawal.near_amount + near_amount;
        self.fund.delayed_withdrawn_fund.delayed_withdrawal_registry.insert(
            ctx.predecessor_account_id,
            delayed_withdrawal,
        );

        investment_withdrawal.near_amount = investment_withdrawal.near_amount + near_amount;
        self.fund.delayed_withdrawn_fund.investment_withdrawal_registry.insert(
            validator_account_id,
            investment_withdrawal,
        );
        self.fund.delayed_withdrawn_fund.needed_to_request_investment_near_amount =
            self.fund.delayed_withdrawn_fund.needed_to_request_investment_near_amount
            + near_amount;

        let mut investor_investment = match self.validating.investor_investment_registry.remove(
            ctx.predecessor_account_id,
        ) {
            Some(investor_investment) => investor_investment,
            None => {
                // Unreachable: presence was checked above and nothing removed it.
                proof {
                    assert(false);
                }
                crate::investor::InvestorInvestment::new()
            },
        };
        let distribution_removed = investor_investment.withdraw_distribution(
            validator_account_id,
            near_amount,
        );
        if distribution_removed {
            let released = calculate_storage_staking_price(
                ctx.storage_byte_cost,
                self.validating.storage_usage_per_distribution,
            );
            refundable_near_amount = refundable_near_amount + released;
        }
        self.validating.investor_investment_registry.insert(
            ctx.predecessor_account_id,
            investor_investment,
        );
        proof {
            assert(self.validating.investor_investment_registry@ =~= old(
                self,
            ).validating.investor_investment_registry@.insert(
                ctx.predecessor_account_id,
                self.validating.investor_investment_registry@[ctx.predecessor_account_id],
            ));
        }

        account_balance.token_amount = account_balance.token_amount - token_amount;
        let ghost pre_entries = self.fungible_token.account_registry.entries();
        if account_balance.token_amount > 0 || ctx.predecessor_account_id
            == self.account_registry.self_fee_receiver_account_id || ctx.predecessor_account_id
            == self.account_registry.partner_fee_receiver_account_id {
            let prev = self.fungible_token.account_registry.insert(
                ctx.predecessor_account_id,
                account_balance,
            );
            proof {
                lemma_account_store_sum(
                    pre_entries,
                    self.fungible_token.account_registry.entries(),
                    ctx.predecessor_account_id,
                    account_balance,
                    prev,
                );
            }
        } else {
            let prev = self.fungible_token.account_registry.remove(ctx.predecessor_account_id);
            proof {
                lemma_account_remove_sum(
                    pre_entries,
                    self.fungible_token.account_registry.entries(),
                    ctx.predecessor_account_id,
                    prev.unwrap(),
                );
            }
            let released = calculate_storage_staking_price(
                ctx.storage_byte_cost,
                self.fungible_token.storage_usage_per_account,
            );
            refundable_near_amount = refundable_near_amount + released;
        }
        let registered_accounts = self.fungible_token.account_registry.len();
        self.fungible_token.accounts_quantity = registered_accounts as u64;

        self.fungible_token.total_supply = self.fungible_token.total_supply - token_amount;

        Ok(refundable_near_amount)
    }

    /// Why taking a delayed withdrawal would be refused.
    pub open spec fn take_delayed_withdrawal_error(self, ctx: EnvContext) -> Option<PoolError> {
        let pred = ctx.predecessor_account_id;
        let tickets = self.fund.delayed_withdrawn_fund.delayed_withdrawal_registry@;
        if !ctx.gas_is_enough() {
            Some(PoolError::NotEnoughGas)
        } else if !ctx.natural_deposit() {
            Some(PoolError::NoAttachedDeposit)
        } else if !self.epoch_is_synchronized(ctx) {
            Some(PoolError::EpochNotSynchronized)
        } else if !tickets.contains_key(pred) {
            Some(PoolError::DelayedWithdrawalNotRegistered)
        } else if !tickets[pred].spec_can_take(self.current_epoch_height) {
            Some(PoolError::WrongEpochForWithdrawal)
        } else {
            None
        }
    }

    /// What a successful take leans on: the settled balance covers the
    /// matured ticket (true once the unstake pipeline has run for it) and
    /// the payout fits the asset type. Refusals carry no such demand: an
    /// absent or immature ticket is turned away whatever the balance holds.
    pub open spec fn take_delayed_withdrawal_fits(self, ctx: EnvContext) -> bool {
        self.take_delayed_withdrawal_error(ctx) is None ==> {
            let ticket = self.spec_delayed_ticket_or_empty(ctx.predecessor_account_id);
            &&& ticket.near_amount <= self.fund.delayed_withdrawn_fund.balance
            &&& ticket.near_amount + spec_storage_price(
                ctx.storage_byte_cost,
                self.fund.delayed_withdrawn_fund.storage_usage_per_delayed_withdrawal,
            ) + ctx.attached_deposit <= u128::MAX
        }
    }

    /// Pays out a matured delayed-withdrawal ticket: the booked asset plus
    /// the refunded ticket storage cost plus the attached payment.
    pub fn take_delayed_withdrawal(&mut self, ctx: EnvContext) -> (r: Result<u128, PoolError>)
        requires
            old(self).well_formed(),
            old(self).storage_prices_fit(ctx),
            old(self).take_delayed_withdrawal_fits(ctx),
        ensures
            final(self).well_formed(),
            (old(self).take_delayed_withdrawal_error(ctx) is Some <==> r is Err),
            match r {
                Err(e) => Some(e) == old(self).take_delayed_withdrawal_error(ctx) && *final(self)
                    == *old(self),
                Ok(payout) => {
                    let pred = ctx.predecessor_account_id;
                    let ticket = old(self).spec_delayed_ticket_or_empty(pred);
                    &&& payout == ticket.near_amount + spec_storage_price(
                        ctx.storage_byte_cost,
                        old(self).fund.delayed_withdrawn_fund.storage_usage_per_delayed_withdrawal,
                    ) + ctx.attached_deposit
                    // Conservation: the ticket's asset leaves the pool as
                    // the payout.
                    &&& final(self).spec_tracked_asset_total() == old(
                        self,
                    ).spec_tracked_asset_total() - ticket.near_amount
                    &&& final(self).fund.delayed_withdrawn_fund.delayed_withdrawal_registry@ == old(
                        self,
                    ).fund.delayed_withdrawn_fund.delayed_withdrawal_registry@.remove(pred)
                    &&& final(self).fund.delayed_withdrawn_fund.balance == old(
                        self,
                    ).fund.delayed_withdrawn_fund.balance - ticket.near_amount
                    &&& final(self).fund.delayed_withdrawn_fund.needed_to_request_classic_near_amount
                        == old(self).fund.delayed_withdrawn_fund.needed_to_request_classic_near_amount
                    &&& final(self).fund.delayed_withdrawn_fund.needed_to_request_investment_near_amount
                        == old(
                        self,
                    ).fund.delayed_withdrawn_fund.needed_to_request_investment_near_amount
                    &&& final(self).fund.delayed_withdrawn_fund.investment_withdrawal_registry
                        == old(self).fund.delayed_withdrawn_fund.investment_withdrawal_registry
                    &&& final(self).fund.delayed_withdrawn_fund.storage_usage_per_delayed_withdrawal
                        == old(self).fund.delayed_withdrawn_fund.storage_usage_per_delayed_withdrawal
                    &&& final(self).fund.delayed_withdrawn_fund.storage_usage_per_investment_withdrawal
                        == old(
                        self,
                    ).fund.delayed_withdrawn_fund.storage_usage_per_investment_withdrawal
                    &&& same_fund_buckets(*old(self), *final(self))
                    &&& same_token(*old(self), *final(self))
                    &&& same_ids_and_fees(*old(self), *final(self))
                    &&& same_validating(*old(self), *final(self))
                    &&& same_reward_and_epoch(*old(self), *final(self))
                },
            },
    {
        if ctx.prepaid_gas < crate::MINIMUM_GAS_AMOUNT {
            return Err(PoolError::NotEnoughGas);
        }
        if ctx.attached_deposit == 0 {
            return Err(PoolError::NoAttachedDeposit);
        }
        if self.current_epoch_height != ctx.network_epoch_height {
            return Err(PoolError::EpochNotSynchronized);
        }

        let can_take = match self.fund.delayed_withdrawn_fund.delayed_withdrawal_registry.get(
            ctx.predecessor_account_id,
        ) {
            Some(ticket) => ticket.can_take_delayed_withdrawal(self.current_epoch_height),
            None => {
                return Err(PoolError::DelayedWithdrawalNotRegistered);
            },
        };
        if !can_take {
            return Err(PoolError::WrongEpochForWithdrawal);
        }

        let delayed_withdrawal = match self.fund.delayed_withdrawn_fund.delayed_withdrawal_registry.remove(
            ctx.predecessor_account_id,
        ) {
            Some(ticket) => ticket,
            None => {
                // Unreachable: presence was checked just above.
                proof {
                    assert(false);
                }
                DelayedWithdrawal { near_amount: 0, started_epoch_height: 0 }
            },
        };

        self.fund.delayed_withdrawn_fund.balance = self.fund.delayed_withdrawn_fund.balance
            - delayed_withdrawal.near_amount;

        let payout = delayed_withdrawal.near_amount + calculate_storage_staking_price(
            ctx.storage_byte_cost,
            self.fund.delayed_withdrawn_fund.storage_usage_per_delayed_withdrawal,
        ) + ctx.attached_deposit;

        Ok(payout)
    }

    /// Why a share transfer would be refused.
    pub open spec fn ft_transfer_error(
        self,
        ctx: EnvContext,
        receiver_account_id: u64,
        token_amount: u128,
    ) -> Option<PoolError> {
        let pred = ctx.predecessor_account_id;
        let accounts = self.fungible_token.account_registry@;
        if !ctx.gas_is_enough() {
            Some(PoolError::NotEnoughGas)
        } else if !ctx.natural_deposit() {
            Some(PoolError::NoAttachedDeposit)
        } else if token_amount == 0 {
            Some(PoolError::InsufficientAmount)
        } else if !accounts.contains_key(pred) {
            Some(PoolError::AccountNotRegistered)
        } else if !accounts.contains_key(receiver_account_id) {
            Some(PoolError::AccountNotRegistered)
        } else if accounts[pred].token_amount < token_amount {
            Some(PoolError::TokenBalanceExceeded)
        } else if self.spec_investor_coverage_violated(ctx, token_amount, 0) {
            Some(PoolError::InvestmentCoverageViolated)
        } else {
            None
        }
    }

    /// The machine limits a share transfer must stay within.
    pub open spec fn ft_transfer_fits(
        self,
        ctx: EnvContext,
        receiver_account_id: u64,
        token_amount: u128,
    ) -> bool {
        let b = self.spec_account_or_empty(ctx.predecessor_account_id);
        let recv = self.spec_account_or_empty(receiver_account_id);
        &&& (b.token_amount >= token_amount ==> Self::spec_convert_token_to_near_at(
            self.fungible_token.total_supply,
            self.fund.spec_common_balance() as u128,
            (b.token_amount - token_amount) as u128,
        ) + b.investment_near_amount <= u128::MAX)
        &&& recv.token_amount + token_amount <= u128::MAX
        &&& recv.classic_near_amount + b.classic_near_amount <= u128::MAX
        &&& ctx.attached_deposit + spec_storage_price(
            ctx.storage_byte_cost,
            self.fungible_token.storage_usage_per_account,
        ) <= u128::MAX
    }

    /// Moves share tokens to another registered account. The sender's entry
    /// is removed when drained, its classic remainder riding along to the
    /// receiver. Returns the refund owed to the caller.
    pub fn ft_transfer(&mut self, ctx: EnvContext, receiver_account_id: u64, token_amount: u128)
        -> (r: Result<u128, PoolError>)
        requires
            old(self).well_formed(),
            old(self).storage_prices_fit(ctx),
            old(self).ft_transfer_fits(ctx, receiver_account_id, token_amount),
            receiver_account_id != ctx.predecessor_account_id,
        ensures
            final(self).well_formed(),
            (old(self).ft_transfer_error(ctx, receiver_account_id, token_amount) is Some <==> r
                is Err),
            match r {
                Err(e) => Some(e) == old(self).ft_transfer_error(
                    ctx,
                    receiver_account_id,
                    token_amount,
                ) && *final(self) == *old(self),
                Ok(refund) => {
                    let pred = ctx.predecessor_account_id;
                    let sender = old(self).spec_account_or_empty(pred);
                    let receiver = old(self).spec_account_or_empty(receiver_account_id);
                    let sender_after = AccountBalance {
                        token_amount: (sender.token_amount - token_amount) as u128,
                        classic_near_amount: sender.classic_near_amount,
                        investment_near_amount: sender.investment_near_amount,
                    };
                    let removed = sender_after.token_amount == 0 && pred != old(
                        self,
                    ).account_registry.self_fee_receiver_account_id && pred != old(
                        self,
                    ).account_registry.partner_fee_receiver_account_id;
                    let receiver_after = AccountBalance {
                        token_amount: (receiver.token_amount + token_amount) as u128,
                        classic_near_amount: (receiver.classic_near_amount + (if removed {
                            sender.classic_near_amount as int
                        } else {
                            0int
                        })) as u128,
                        investment_near_amount: receiver.investment_near_amount,
                    };
                    &&& refund == ctx.attached_deposit + (if removed {
                        spec_storage_price(
                            ctx.storage_byte_cost,
                            old(self).fungible_token.storage_usage_per_account,
                        )
                    } else {
                        0int
                    })
                    &&& final(self).fungible_token.account_registry@ == (if removed {
                        old(self).fungible_token.account_registry@.remove(pred).insert(
                            receiver_account_id,
                            receiver_after,
                        )
                    } else {
                        old(self).fungible_token.account_registry@.insert(pred, sender_after).insert(
                            receiver_account_id,
                            receiver_after,
                        )
                    })
                    &&& final(self).fungible_token.accounts_quantity == old(
                        self,
                    ).fungible_token.accounts_quantity - (if removed {
                        1int
                    } else {
                        0int
                    })
                    &&& final(self).fungible_token.total_supply == old(
                        self,
                    ).fungible_token.total_supply
                    &&& final(self).fungible_token.storage_usage_per_account == old(
                        self,
                    ).fungible_token.storage_usage_per_account
                    // Conservation: a share transfer moves no asset.
                    &&& final(self).spec_tracked_asset_total() == old(
                        self,
                    ).spec_tracked_asset_total()
                    &&& same_fund_buckets(*old(self), *final(self))
                    &&& same_delayed(*old(self), *final(self))
                    &&& same_ids_and_fees(*old(self), *final(self))
                    &&& same_validating(*old(self), *final(self))
                    &&& same_reward_and_epoch(*old(self), *final(self))
                },
            },
    {
        if ctx.prepaid_gas < crate::MINIMUM_GAS_AMOUNT {
            return Err(PoolError::NotEnoughGas);
        }
        if ctx.attached_deposit == 0 {
            return Err(PoolError::NoAttachedDeposit);
        }
        if token_amount == 0 {
            return Err(PoolError::InsufficientAmount);
        }

        let mut sender_balance = match self.fungible_token.account_registry.get(
            ctx.predecessor_account_id,
        ) {
            Some(balance) => *balance,
            None => {
                return Err(PoolError::AccountNotRegistered);
            },
        };
        let mut receiver_balance = match self.fungible_token.account_registry.get(
            receiver_account_id,
        ) {
            Some(balance) => *balance,
            None => {
                return Err(PoolError::AccountNotRegistered);
            },
        };
        if sender_balance.token_amount < token_amount {
            return Err(PoolError::TokenBalanceExceeded);
        }

        let coverage_violated = match self.validating.investor_investment_registry.get(
            ctx.predecessor_account_id,
        ) {
            Some(investor_investment) => {
                let reduced_near = StakePool::convert_token_to_near_at(
                    self.fungible_token.total_supply,
                    self.fund.get_common_balance(),
                    sender_balance.token_amount - token_amount,
                );
                reduced_near + sender_balance.investment_near_amount
                    < investor_investment.staked_balance
            },
            None => false,
        };
        if coverage_violated {
            return Err(PoolError::InvestmentCoverageViolated);
        }

        let mut refundable_near_amount = ctx.attached_deposit;

        sender_balance.token_amount = sender_balance.token_amount - token_amount;
        receiver_balance.token_amount = receiver_balance.token_amount + token_amount;

        let ghost pre_entries = self.fungible_token.account_registry.entries();
        if sender_balance.token_amount > 0 || ctx.predecessor_account_id
            == self.account_registry.self_fee_receiver_account_id || ctx.predecessor_account_id
            == self.account_registry.partner_fee_receiver_account_id {
            let prev = self.fungible_token.account_registry.insert(
                ctx.predecessor_account_id,
                sender_balance,
            );
            proof {
                lemma_account_store_sum(
                    pre_entries,
                    self.fungible_token.account_registry.entries(),
                    ctx.predecessor_account_id,
                    sender_balance,
                    prev,
                );
            }
        } else {
            let prev = self.fungible_token.account_registry.remove(ctx.predecessor_account_id);
            proof {
                lemma_account_remove_sum(
                    pre_entries,
                    self.fungible_token.account_registry.entries(),
                    ctx.predecessor_account_id,
                    prev.unwrap(),
                );
            }
            receiver_balance.classic_near_amount = receiver_balance.classic_near_amount
                + sender_balance.classic_near_amount;
            refundable_near_amount = refundable_near_amount + calculate_storage_staking_price(
                ctx.storage_byte_cost,
                self.fungible_token.storage_usage_per_account,
            );
        }
        let ghost mid_entries = self.fungible_token.account_registry.entries();
        let prev_receiver = self.fungible_token.account_registry.insert(
            receiver_account_id,
            receiver_balance,
        );
        proof {
            lemma_account_store_sum(
                mid_entries,
                self.fungible_token.account_registry.entries(),
                receiver_account_id,
                receiver_balance,
                prev_receiver,
            );
        }
        let registered_accounts = self.fungible_token.account_registry.len();
        self.fungible_token.accounts_quantity = registered_accounts as u64;

        Ok(refundable_near_amount)
    }

    /// Storage an investor deposit on a validator may have to prepay: a
    /// distribution entry and a share account, each only when absent.
    pub open spec fn spec_deposit_on_validator_storage_price(
        self,
        ctx: EnvContext,
        validator_account_id: u64,
    ) -> int {
        let pred = ctx.predecessor_account_id;
        let investors = self.validating.investor_investment_registry@;
        let dist_part: int = if investors.contains_key(pred)
            && investors[pred].distribution_registry@.contains_key(validator_account_id) {
            0
        } else {
            spec_storage_price(ctx.storage_byte_cost, self.validating.storage_usage_per_distribution)
        };
        let account_part: int = if self.fungible_token.account_registry@.contains_key(pred) {
            0
        } else {
            spec_storage_price(ctx.storage_byte_cost, self.fungible_token.storage_usage_per_account)
        };
        dist_part + account_part
    }

    /// Why an investor deposit on a validator would be refused.
    pub open spec fn deposit_on_validator_error(
        self,
        ctx: EnvContext,
        near_amount: u128,
        validator_account_id: u64,
    ) -> Option<PoolError> {
        let pred = ctx.predecessor_account_id;
        let price = self.spec_deposit_on_validator_storage_price(ctx, validator_account_id);
        if !ctx.gas_is_enough() {
            Some(PoolError::NotEnoughGas)
        } else if !ctx.minimum_deposit() {
            Some(PoolError::DepositBelowMinimum)
        } else if !self.epoch_is_synchronized(ctx) {
            Some(PoolError::EpochNotSynchronized)
        } else if !self.validating.validator_registry@.contains_key(validator_account_id) {
            Some(PoolError::ValidatorNotRegistered)
        } else if !self.validating.investor_investment_registry@.contains_key(pred) {
            Some(PoolError::InvestorNotRegistered)
        } else if near_amount < MINIMUM_DEPOSIT_AMOUNT - price {
            Some(PoolError::AmountBelowMinimum)
        } else if ctx.attached_deposit <= price {
            Some(PoolError::InsufficientDeposit)
        } else if near_amount > ctx.attached_deposit - price {
            Some(PoolError::InsufficientDeposit)
        } else if self.spec_token_of(near_amount) == 0 {
            Some(PoolError::InsufficientAmount)
        } else {
            None
        }
    }

    /// Stakes an investor's asset directly on a chosen validator. Nothing
    /// changes here: the ledger commit waits for
    /// `deposit_on_validator_callback`.
    pub fn deposit_on_validator(
        &mut self,
        ctx: EnvContext,
        near_amount: u128,
        validator_account_id: u64,
    ) -> (r: Result<crate::action::DepositOnValidatorAction, PoolError>)
        requires
            old(self).well_formed(),
            old(self).storage_prices_fit(ctx),
            old(self).spec_convert_near_to_token(near_amount) <= u128::MAX,
            spec_storage_price(
                ctx.storage_byte_cost,
                old(self).validating.storage_usage_per_distribution,
            ) + spec_storage_price(
                ctx.storage_byte_cost,
                old(self).fungible_token.storage_usage_per_account,
            ) < MINIMUM_DEPOSIT_AMOUNT,
        ensures
            *final(self) == *old(self),
            (old(self).deposit_on_validator_error(ctx, near_amount, validator_account_id) is Some
                <==> r is Err),
            match r {
                Err(e) => Some(e) == old(self).deposit_on_validator_error(
                    ctx,
                    near_amount,
                    validator_account_id,
                ),
                Ok(a) => {
                    let price = old(self).spec_deposit_on_validator_storage_price(
                        ctx,
                        validator_account_id,
                    );
                    a == (crate::action::DepositOnValidatorAction {
                        predecessor_account_id: ctx.predecessor_account_id,
                        validator_account_id,
                        near_amount,
                        attached_deposit: ctx.attached_deposit,
                        refundable_near_amount: (ctx.attached_deposit - price
                            - near_amount) as u128,
                        token_amount: old(self).spec_token_of(near_amount),
                        near_remainder: old(self).spec_remainder_of(near_amount),
                        storage_staking_price: price as u128,
                        staking_contract_version: old(
                            self,
                        ).validating.validator_registry@[validator_account_id].staking_contract_version,
                    })
                },
            },
    {
        if ctx.prepaid_gas < crate::MINIMUM_GAS_AMOUNT {
            return Err(PoolError::NotEnoughGas);
        }
        if ctx.attached_deposit < MINIMUM_DEPOSIT_AMOUNT {
            return Err(PoolError::DepositBelowMinimum);
        }
        if self.current_epoch_height != ctx.network_epoch_height {
            return Err(PoolError::EpochNotSynchronized);
        }

        let version = match self.validating.validator_registry.get(validator_account_id) {
            Some(validator) => validator.staking_contract_version,
            None => {
                return Err(PoolError::ValidatorNotRegistered);
            },
        };

        let has_distribution = match self.validating.investor_investment_registry.get(
            ctx.predecessor_account_id,
        ) {
            Some(investor_investment) => {
                investor_investment.distribution_registry.contains_key(validator_account_id)
            },
            None => {
                return Err(PoolError::InvestorNotRegistered);
            },
        };

        let mut storage_price: u128 = 0;
        if !has_distribution {
            storage_price = storage_price + calculate_storage_staking_price(
                ctx.storage_byte_cost,
                self.validating.storage_usage_per_distribution,
            );
        }
        if !self.fungible_token.account_registry.contains_key(ctx.predecessor_account_id) {
            storage_price = storage_price + calculate_storage_staking_price(
                ctx.storage_byte_cost,
                self.fungible_token.storage_usage_per_account,
            );
        }

        let minimum_near_amount = MINIMUM_DEPOSIT_AMOUNT - storage_price;
        if near_amount < minimum_near_amount {
            return Err(PoolError::AmountBelowMinimum);
        }
        if ctx.attached_deposit <= storage_price {
            return Err(PoolError::InsufficientDeposit);
        }
        let available_for_staking = ctx.attached_deposit - storage_price;
        if near_amount > available_for_staking {
            return Err(PoolError::InsufficientDeposit);
        }
        let refundable_near_amount = available_for_staking - near_amount;

        let (token_amount, near_remainder) = self.convert_near_amount_to_token_amount(near_amount);
        if token_amount == 0 {
            return Err(PoolError::InsufficientAmount);
        }

        Ok(
            crate::action::DepositOnValidatorAction {
                predecessor_account_id: ctx.predecessor_account_id,
                validator_account_id,
                near_amount,
                attached_deposit: ctx.attached_deposit,
                refundable_near_amount,
                token_amount,
                near_remainder,
                storage_staking_price: storage_price,
                staking_contract_version: version,
            },
        )
    }
}

} // verus!
