//! Pending-action values: what an operation asks the host shell to do.
//!
//! An operation that must call a validator returns one of these instead of
//! mutating the ledger. The shell performs the asynchronous call and feeds
//! its outcome into the paired `*_callback` method, which commits or rolls
//! back.

use vstd::prelude::*;
use crate::stake_decreasing_kind::StakeDecreasingType;
use crate::validator::StakingContractVersion;

verus! {

/// Context for a deposit forwarded to the preferred validator.
#[derive(Clone, Copy, Debug, PartialEq, Eq, Structural)]
pub struct DepositAction {
    pub predecessor_account_id: u64,
    pub validator_account_id: u64,
    pub attached_deposit: u128,
    /// Asset to stake on the validator.
    pub near_amount: u128,
    /// Excess payment to give back to the caller.
    pub refundable_near_amount: u128,
    /// Shares to mint once the call settles.
    pub token_amount: u128,
    /// Rounding remainder to credit as a non-share balance.
    pub near_remainder: u128,
    pub current_epoch_height: u64,
    /// Storage cost withheld for a new share account.
    pub storage_staking_price: u128,
    pub staking_contract_version: StakingContractVersion,
}

/// What a deposit did: either a synchronous credit to the liquid bucket, or
/// a forwarded stake awaiting its callback.
#[derive(Clone, Copy, Debug, PartialEq, Eq, Structural)]
pub enum DepositOutcome {
    /// The asset entered the liquid bucket; refund the excess payment.
    Staked { refundable_near_amount: u128 },
    /// The asset goes to the preferred validator; the ledger commit waits
    /// for `deposit_callback`.
    Forwarded(DepositAction),
}

/// Context for an investor deposit placed directly on a validator.
#[derive(Clone, Copy, Debug, PartialEq, Eq, Structural)]
pub struct DepositOnValidatorAction {
    pub predecessor_account_id: u64,
    pub validator_account_id: u64,
    pub near_amount: u128,
    pub attached_deposit: u128,
    pub refundable_near_amount: u128,
    pub token_amount: u128,
    pub near_remainder: u128,
    pub storage_staking_price: u128,
    pub staking_contract_version: StakingContractVersion,
}

/// Context for a manager-initiated stake increase.
#[derive(Clone, Copy, Debug, PartialEq, Eq, Structural)]
pub struct StakeIncreaseAction {
    pub validator_account_id: u64,
    pub near_amount: u128,
    pub current_epoch_height: u64,
    pub staking_contract_version: StakingContractVersion,
}

/// Context for a requested stake decrease: first the validator's unstaked
/// balance is read, then `requested_decrease_validator_stake_callback_1`
/// decides how much to unstake.
#[derive(Clone, Copy, Debug, PartialEq, Eq, Structural)]
pub struct StakeDecreaseAction {
    pub validator_account_id: u64,
    pub near_amount: u128,
    pub stake_decreasing_type: StakeDecreasingType,
    /// Storage cost of the investment-withdrawal ticket, refunded to its
    /// payer when the ticket clears.
    pub refundable_near_amount: u128,
    pub staking_contract_version: StakingContractVersion,
}

/// The unstake call that follows a successful balance read.
#[derive(Clone, Copy, Debug, PartialEq, Eq, Structural)]
pub struct UnstakeAction {
    pub validator_account_id: u64,
    /// Amount handed to the validator's unstake method.
    pub needed_to_unstake_near_amount: u128,
    pub near_amount: u128,
    pub stake_decreasing_type: StakeDecreasingType,
    pub refundable_near_amount: u128,
    pub staking_contract_version: StakingContractVersion,
}

/// Context for collecting a validator's unstaked balance.
#[derive(Clone, Copy, Debug, PartialEq, Eq, Structural)]
pub struct TakeUnstakedBalanceAction {
    pub validator_account_id: u64,
    pub near_amount: u128,
    pub staking_contract_version: StakingContractVersion,
}

/// Context for reading a validator's total balance to accrue rewards.
#[derive(Clone, Copy, Debug, PartialEq, Eq, Structural)]
pub struct UpdateValidatorAction {
    pub validator_account_id: u64,
    pub current_epoch_height: u64,
    pub staking_contract_version: StakingContractVersion,
}

/// What a callback reports back to the host shell.
#[derive(Clone, Copy, Debug, PartialEq, Eq, Structural)]
pub struct CallbackResult {
    pub is_success: bool,
    pub network_epoch_height: u64,
}

/// What the first decrease callback decided.
#[derive(Clone, Copy, Debug, PartialEq, Eq, Structural)]
pub enum DecreaseCallbackOutcome {
    /// Go on: unstake this amount from the validator.
    Unstake(UnstakeAction),
    /// The balance read failed; nothing changes.
    Failed(CallbackResult),
}

/// A payment the shell must send: the receiver and the amount.
#[derive(Clone, Copy, Debug, PartialEq, Eq, Structural)]
pub struct Transfer {
    pub receiver_account_id: u64,
    pub near_amount: u128,
}

} // verus!
