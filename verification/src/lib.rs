//! A liquid-staking pool ledger.
//!
//! The pool accepts a base asset ("near amount"), mints a fungible share
//! token against it, distributes the asset across external validators and
//! lets holders redeem shares either instantly (from the liquid bucket,
//! against a fee) or through a delayed-withdrawal path that waits out the
//! validator unbonding period.
//!
//! Everything here is the synchronous fund-accounting core: share/asset
//! conversion, fee splitting, the deposit/withdraw state transitions, the
//! per-validator stake lifecycle and the epoch synchronization gate.
//! Asynchronous validator calls are represented as action values returned
//! to the host shell, which performs the call and feeds the outcome back
//! into the paired `*_callback` method.

use vstd::prelude::*;

pub mod account;
pub mod action;
pub mod context;
pub mod delayed;
pub mod dto;
pub mod errors;
pub mod fee;
pub mod fund;
pub mod fungible_token;
pub mod investor;
pub mod pool;
pub mod pool_admin;
pub mod pool_callbacks;
pub mod pool_views;
pub mod pool_ops;
pub mod registry;
pub mod reward;
pub mod stake_decreasing_kind;
pub mod validator;
pub mod wide_math;

verus! {

/// Quantity of epochs after which a delayed withdrawal can be taken.
pub const EPOCH_QUANTITY_FOR_DELAYED_WITHDRAWAL: u64 = 8;

/// Epochs between the designated unstake-request epochs: requesting a stake
/// decrease and collecting unstaked balance are allowed only when the network
/// epoch height is divisible by this interval.
pub const EPOCH_QUANTITY_FOR_VALIDATOR_UNSTAKE: u64 = 4;

/// Minimum prepaid gas for a mutating call, in gas units.
pub const MINIMUM_GAS_AMOUNT: u64 = 300_000_000_000_000;

/// The minimum asset amount that must accompany a deposit: one whole coin,
/// in its smallest indivisible units.
pub const MINIMUM_DEPOSIT_AMOUNT: u128 = 1_000_000_000_000_000_000_000_000;

} // verus!
