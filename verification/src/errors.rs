//! The reasons an operation refuses to run. A refused operation leaves the
//! pool untouched.

use vstd::prelude::*;

verus! {

/// Why an operation was rejected.
#[derive(Clone, Copy, Debug, PartialEq, Eq, Structural)]
pub enum PoolError {
    /// The call's prepaid execution budget is below the minimum.
    NotEnoughGas,
    /// The call attached no payment at all.
    NoAttachedDeposit,
    /// The attached payment is below the protocol minimum for deposits.
    DepositBelowMinimum,
    /// The operation needs the pool epoch to match the network epoch.
    EpochNotSynchronized,
    /// The operation needs the pool epoch to lag the network epoch.
    EpochNotDesynchronized,
    /// Only the pool manager may run this operation.
    UnauthorizedManager,
    /// Only the pool owner or manager may run this operation.
    UnauthorizedManagement,
    /// A zero amount, or one that converts to nothing.
    InsufficientAmount,
    /// The requested amount is below the minimum stake.
    AmountBelowMinimum,
    /// The attached payment does not cover storage cost plus the amount.
    InsufficientDeposit,
    /// The calling account holds no share account.
    AccountNotRegistered,
    /// The share balance does not cover the requested amount.
    TokenBalanceExceeded,
    /// An investor tried to redeem shares backing their investment stake.
    InvestmentCoverageViolated,
    /// The liquid bucket does not cover the payout.
    UnstakedBalanceExceeded,
    /// The validator holds no unstaked balance to collect.
    InsufficientUnstakedBalance,
    /// The staked bucket does not cover the amount.
    StakedBalanceExceeded,
    /// No validator is registered under that account.
    ValidatorNotRegistered,
    /// The validator only takes investment stakes.
    ValidatorOnlyForInvestment,
    /// No investor is registered under that account.
    InvestorNotRegistered,
    /// The investor has no stake on that validator.
    DistributionNotFound,
    /// The investor's stake on that validator does not cover the amount.
    DistributionBalanceExceeded,
    /// The validator's tracked balance does not cover the amount.
    ValidatorBalanceExceeded,
    /// The pool-wide unstake-request counter does not cover the amount.
    RequestedAmountExceeded,
    /// No investment-withdrawal ticket exists for that validator.
    InvestmentWithdrawalNotRegistered,
    /// The investment-withdrawal ticket does not cover the amount.
    InvestmentWithdrawalExceeded,
    /// The caller has no delayed-withdrawal ticket.
    DelayedWithdrawalNotRegistered,
    /// The ticket's waiting period has not elapsed.
    WrongEpochForWithdrawal,
    /// The network epoch is not a designated unstake-request epoch.
    WrongEpochForUnstake,
    /// The validator was already brought up to date this epoch.
    ValidatorAlreadyUpdated,
    /// A validator is already registered under that account.
    ValidatorAlreadyRegistered,
    /// The validator still carries a balance.
    ValidatorHasBalance,
    /// An investor is already registered under that account.
    InvestorAlreadyRegistered,
    /// The investor still carries a balance or distributions.
    InvestorHasBalance,
    /// The change would leave the state as it already is.
    SameState,
    /// The preferred validator cannot be investment-only.
    PreferredCannotBeInvestment,
    /// A fee fraction is out of range, or a partner fee stands alone.
    InvalidFee,
    /// Distribution was already confirmed for this epoch.
    AlreadyDistributed,
    /// Not every validator was brought up to date this epoch.
    SomeValidatorsNotUpdated,
    /// Pending unstake requests must be served before the epoch advances.
    SomeFundsNotUnstaked,
    /// The two fee receivers must be distinct accounts.
    FeeReceiversNotDistinct,
}

} // verus!
