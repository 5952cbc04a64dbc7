//! Read-only view shapes handed to callers of the query surface.

use vstd::prelude::*;
use crate::fee::{Fee, FeeRegistryLight};

verus! {

/// A pending delayed withdrawal, as shown to its owner.
#[derive(Clone, Copy, Debug, PartialEq, Eq, Structural)]
pub struct DelayedWithdrawalDetails {
    pub epoch_quantity_to_take_delayed_withdrawal: u64,
    pub near_amount: u128,
}

/// The two epochs whose comparison gates operations.
#[derive(Clone, Copy, Debug, PartialEq, Eq, Structural)]
pub struct EpochHeightRegistry {
    pub pool_epoch_height: u64,
    pub network_epoch_height: u64,
}

/// The asset-backed part of an account's balance.
#[derive(Clone, Copy, Debug, PartialEq, Eq, Structural)]
pub struct BaseAccountBalance {
    pub token_balance: u128,
    pub common_near_balance: u128,
    pub classic_near_balance: u128,
    pub classic_near_balance_token_coverage: u128,
}

/// The investment-backed part of an account's balance. The token coverage
/// uses ceiling semantics, so the covered shares fully back the stake.
#[derive(Clone, Copy, Debug, PartialEq, Eq, Structural)]
pub struct InvestmentAccountBalance {
    pub near_balance: u128,
    pub near_balance_token_coverage: u128,
}

/// An account's balance, split by context.
#[derive(Clone, Copy, Debug, PartialEq, Eq, Structural)]
pub struct AccountBalanceDto {
    pub base_account_balance: Option<BaseAccountBalance>,
    pub investment_account_balance: Option<InvestmentAccountBalance>,
}

/// The fund's aggregate balances.
#[derive(Clone, Copy, Debug, PartialEq, Eq, Structural)]
pub struct FundDto {
    pub classic_unstaked_balance: u128,
    pub classic_staked_balance: u128,
    pub investment_staked_balance: u128,
    pub common_staked_balance: u128,
    pub common_balance: u128,
}

/// Aggregate pool statistics.
#[derive(Clone, Copy, Debug, PartialEq, Eq, Structural)]
pub struct Aggregated {
    pub unstaked_balance: u128,
    pub staked_balance: u128,
    pub token_total_supply: u128,
    pub token_accounts_quantity: u64,
    pub total_rewards_from_validators_near_amount: u128,
    pub reward_fee: Option<Fee>,
}

/// One validator, as listed to callers.
#[derive(Clone, Copy, Debug, PartialEq, Eq, Structural)]
pub struct ValidatorDto {
    pub account_id: u64,
    pub unstaked_balance: u128,
    pub classic_staked_balance: u128,
    pub investment_staked_balance: u128,
    pub is_only_for_investment: bool,
    pub last_update_epoch_height: u64,
    pub last_classic_stake_increasing_epoch_height: Option<u64>,
}

/// An investor's holdings, flattened for callers.
pub struct InvestorInvestmentDto {
    pub distribution_registry: Vec<(u64, u128)>,
    pub staked_balance: u128,
}

/// What still has to be requested from validators.
pub struct RequestedToWithdrawalFund {
    pub classic_near_amount: u128,
    pub investment_near_amount: u128,
    pub investment_withdrawal_registry: Vec<(u64, u128)>,
}

/// The storage price of each registry entry kind.
#[derive(Clone, Copy, Debug, PartialEq, Eq, Structural)]
pub struct StorageStakingPrice {
    pub per_delayed_withdrawal_fund_delayed_withdrawal: u128,
    pub per_delayed_withdrawal_fund_investment_withdrawal: u128,
    pub per_fungible_token_account: u128,
    pub per_validating_node_validator: u128,
    pub per_validating_node_investor: u128,
    pub per_validating_node_distribution: u128,
}

/// The storage payments each operation would request of one account.
pub struct StorageStakingRequestedCoverage {
    pub per_method_deposit: u128,
    pub per_method_deposit_on_validator: Option<(u128, Vec<(u64, u128)>)>,
    pub per_method_delayed_withdraw: u128,
    pub per_method_delayed_withdraw_from_validator: Option<(u128, Vec<(u64, u128)>)>,
}

/// The whole queryable pool state.
pub struct Full {
    pub storage_staking_price: StorageStakingPrice,
    pub fund: FundDto,
    pub total_token_supply: u128,
    pub requested_to_withdrawal_fund: RequestedToWithdrawalFund,
    pub fee_registry_light: FeeRegistryLight,
    pub minimum_deposit_amount: u128,
}

/// The whole queryable pool state, focused on one account.
pub struct FullForAccount {
    pub full: Full,
    pub account_balance: AccountBalanceDto,
    pub delayed_withdrawal_details: Option<DelayedWithdrawalDetails>,
    pub investor_investment: Option<InvestorInvestmentDto>,
    pub storage_staking_requested_coverage: StorageStakingRequestedCoverage,
}

} // verus!
