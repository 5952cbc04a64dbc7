use stake_pool::action::{DecreaseCallbackOutcome, DepositOutcome};
use stake_pool::context::EnvContext;
use stake_pool::errors::PoolError;
use stake_pool::fee::Fee;
use stake_pool::pool::{StakePool, StorageUsageConfig};
use stake_pool::account::{AccountBalance, AccountRegistry};
use stake_pool::delayed::DelayedWithdrawnFund;
use stake_pool::fee::FeeRegistry;
use stake_pool::fund::Fund;
use stake_pool::fungible_token::FungibleToken;
use stake_pool::registry::Registry;
use stake_pool::reward::Reward;
use stake_pool::stake_decreasing_kind::StakeDecreasingType;
use stake_pool::validator::{StakingContractVersion, Validating};

const ONE: u128 = 1_000_000_000_000_000_000_000_000;
const TEN: u128 = 10 * ONE;
const GAS: u64 = 300_000_000_000_000;

const OWNER: u64 = 1;
const USER: u64 = 2;
const INVESTOR: u64 = 3;
const SELF_RECEIVER: u64 = 90;
const PARTNER_RECEIVER: u64 = 91;
const VALIDATOR: u64 = 50;

fn ctx(pred: u64, attached: u128, epoch: u64) -> EnvContext {
    EnvContext {
        predecessor_account_id: pred,
        attached_deposit: attached,
        network_epoch_height: epoch,
        prepaid_gas: GAS,
        storage_byte_cost: 1,
    }
}

fn storage() -> StorageUsageConfig {
    StorageUsageConfig {
        per_account: 100,
        per_validator: 200,
        per_investor_investment: 150,
        per_distribution: 50,
        per_delayed_withdrawal: 120,
        per_investment_withdrawal: 80,
    }
}

fn new_pool(epoch: u64) -> StakePool {
    StakePool::new(
        ctx(OWNER, 0, epoch),
        Some(OWNER),
        SELF_RECEIVER,
        PARTNER_RECEIVER,
        None,
        None,
        None,
        None,
        storage(),
    )
    .unwrap()
}

fn new_pool_with_instant_fee(epoch: u64) -> StakePool {
    StakePool::new(
        ctx(OWNER, 0, epoch),
        Some(OWNER),
        SELF_RECEIVER,
        PARTNER_RECEIVER,
        None,
        None,
        Some(Fee { numerator: 1, denominator: 10 }),
        None,
        storage(),
    )
    .unwrap()
}

/// Stakes `amount` onto the validator through the manager flow, so the
/// staked bucket carries it.
fn stake_on_validator(pool: &mut StakePool, epoch: u64, amount: u128) {
    let action = pool
        .increase_validator_stake(ctx(OWNER, 0, epoch), VALIDATOR, amount)
        .unwrap();
    assert!(pool.increase_validator_stake_callback(action, true));
}

#[test]
fn new_pool_pins_fee_receivers() {
    let pool = new_pool(100);
    assert_eq!(pool.fungible_token.accounts_quantity, 2);
    assert_eq!(pool.ft_balance_of(SELF_RECEIVER), 0);
    assert_eq!(pool.ft_balance_of(PARTNER_RECEIVER), 0);
    assert_eq!(pool.ft_total_supply(), 0);
    assert_eq!(pool.current_epoch_height, 100);
}

#[test]
fn new_pool_rejects_equal_receivers_and_lone_partner_fee() {
    let r = StakePool::new(
        ctx(OWNER, 0, 100),
        None,
        SELF_RECEIVER,
        SELF_RECEIVER,
        None,
        None,
        None,
        None,
        storage(),
    );
    assert_eq!(r.err(), Some(PoolError::FeeReceiversNotDistinct));
    let r = StakePool::new(
        ctx(OWNER, 0, 100),
        None,
        SELF_RECEIVER,
        PARTNER_RECEIVER,
        None,
        Some(Fee { numerator: 1, denominator: 2 }),
        None,
        None,
        storage(),
    );
    assert_eq!(r.err(), Some(PoolError::InvalidFee));
}

#[test]
fn deposit_into_empty_pool_mints_one_to_one() {
    // Ten units into a zero-supply pool: ten units of shares, no remainder,
    // the liquid bucket holds exactly the deposit.
    let mut pool = new_pool(100);
    let r = pool.deposit(ctx(USER, TEN + 100, 100), TEN).unwrap();
    assert_eq!(r, DepositOutcome::Staked { refundable_near_amount: 0 });
    assert_eq!(pool.ft_balance_of(USER), TEN);
    assert_eq!(pool.ft_total_supply(), TEN);
    assert_eq!(pool.fund.classic_unstaked_balance, TEN);
    let balance = pool.get_account_balance(USER);
    let base = balance.base_account_balance.unwrap();
    assert_eq!(base.token_balance, TEN);
    assert_eq!(base.common_near_balance, TEN);
    assert_eq!(base.classic_near_balance_token_coverage, TEN);
}

#[test]
fn deposit_epoch_gate() {
    let mut pool = new_pool(100);
    let r = pool.deposit(ctx(USER, TEN + 100, 101), TEN);
    assert_eq!(r.err(), Some(PoolError::EpochNotSynchronized));
}

#[test]
fn deposit_guards() {
    let mut pool = new_pool(100);
    let mut low_gas = ctx(USER, TEN + 100, 100);
    low_gas.prepaid_gas = 1;
    assert_eq!(pool.deposit(low_gas, TEN).err(), Some(PoolError::NotEnoughGas));
    assert_eq!(
        pool.deposit(ctx(USER, ONE / 2, 100), TEN).err(),
        Some(PoolError::DepositBelowMinimum)
    );
    assert_eq!(
        pool.deposit(ctx(USER, ONE, 100), ONE / 2).err(),
        Some(PoolError::AmountBelowMinimum)
    );
    // The attached payment covers the storage price but not the amount.
    assert_eq!(
        pool.deposit(ctx(USER, TEN, 100), TEN).err(),
        Some(PoolError::InsufficientDeposit)
    );
}

#[test]
fn instant_withdraw_all_with_one_tenth_fee() {
    // Burn ten units of shares with a 1/10 self fee and no partner fee: the
    // payout is nine units, the fee receiver is credited one unit of shares.
    let mut pool = new_pool_with_instant_fee(100);
    pool.deposit(ctx(USER, TEN + 100, 100), TEN).unwrap();
    let payout = pool.instant_withdraw(ctx(USER, 1, 100), TEN).unwrap();
    // Nine units, plus the released account storage price, plus the attached
    // payment riding back.
    assert_eq!(payout, 9 * ONE + 100 + 1);
    assert_eq!(pool.ft_balance_of(SELF_RECEIVER), ONE);
    assert_eq!(pool.ft_balance_of(PARTNER_RECEIVER), 0);
    assert_eq!(pool.ft_balance_of(USER), 0);
    assert_eq!(pool.ft_total_supply(), ONE);
    assert_eq!(pool.fund.classic_unstaked_balance, ONE);
    // The drained account is gone; the pinned receivers stay.
    assert_eq!(pool.fungible_token.accounts_quantity, 2);
}

#[test]
fn instant_withdraw_liquidity_constraint() {
    // Once the asset is staked on a validator the liquid bucket is empty and
    // instant withdrawal must fail.
    let mut pool = new_pool(100);
    pool.deposit(ctx(USER, TEN + 100, 100), TEN).unwrap();
    pool.add_validator(
        ctx(OWNER, 200, 100),
        VALIDATOR,
        StakingContractVersion::Core,
        false,
        false,
    )
    .unwrap();
    stake_on_validator(&mut pool, 100, TEN);
    let r = pool.instant_withdraw(ctx(USER, 1, 100), TEN);
    assert_eq!(r.err(), Some(PoolError::UnstakedBalanceExceeded));
}

#[test]
fn instant_withdraw_guards() {
    let mut pool = new_pool(100);
    assert_eq!(
        pool.instant_withdraw(ctx(USER, 0, 100), ONE).err(),
        Some(PoolError::NoAttachedDeposit)
    );
    assert_eq!(
        pool.instant_withdraw(ctx(USER, 1, 100), 0).err(),
        Some(PoolError::InsufficientAmount)
    );
    assert_eq!(
        pool.instant_withdraw(ctx(USER, 1, 100), ONE).err(),
        Some(PoolError::AccountNotRegistered)
    );
    pool.deposit(ctx(USER, TEN + 100, 100), TEN).unwrap();
    assert_eq!(
        pool.instant_withdraw(ctx(USER, 1, 100), TEN + 1).err(),
        Some(PoolError::TokenBalanceExceeded)
    );
}

#[test]
fn delayed_withdrawal_full_cycle() {
    // Delayed withdraw of N units, taking it early fails; after the unstake
    // pipeline and eight epochs it pays out exactly N plus the refunded
    // ticket storage cost.
    let mut pool = new_pool(100);
    pool.deposit(ctx(USER, TEN + 100, 100), TEN).unwrap();
    pool.add_validator(
        ctx(OWNER, 200, 100),
        VALIDATOR,
        StakingContractVersion::Core,
        false,
        false,
    )
    .unwrap();
    stake_on_validator(&mut pool, 100, TEN);

    // Burn all shares against the staked bucket; the account drains away and
    // its storage price is refunded at once.
    let refund = pool.delayed_withdraw(ctx(USER, 120, 100), TEN).unwrap();
    assert_eq!(refund, 100);
    assert_eq!(pool.fund.classic_staked_balance, 0);
    assert_eq!(
        pool.fund.delayed_withdrawn_fund.needed_to_request_classic_near_amount,
        TEN
    );
    let details = pool
        .get_delayed_withdrawal_details(ctx(USER, 0, 100), USER)
        .unwrap()
        .unwrap();
    assert_eq!(details.near_amount, TEN);
    assert_eq!(details.epoch_quantity_to_take_delayed_withdrawal, 8);

    // Too early.
    assert_eq!(
        pool.take_delayed_withdrawal(ctx(USER, 1, 100)).err(),
        Some(PoolError::WrongEpochForWithdrawal)
    );

    // Epoch 104 is an unstake-request epoch: run the decrease pipeline.
    let action = pool
        .requested_decrease_validator_stake(
            ctx(OWNER, 0, 104),
            VALIDATOR,
            TEN,
            StakeDecreasingType::Classic,
        )
        .unwrap();
    let step = pool.requested_decrease_validator_stake_callback_1(action, Some(0), 104);
    let unstake = match step {
        DecreaseCallbackOutcome::Unstake(unstake) => unstake,
        DecreaseCallbackOutcome::Failed(_) => panic!("balance read should have succeeded"),
    };
    assert_eq!(unstake.needed_to_unstake_near_amount, TEN);
    let (result, ticket_refund) =
        pool.requested_decrease_validator_stake_callback_2(unstake, true, 104);
    assert!(result.is_success);
    assert!(ticket_refund.is_none());
    assert_eq!(
        pool.fund.delayed_withdrawn_fund.needed_to_request_classic_near_amount,
        0
    );

    // Collect the unstaked asset into the settled balance.
    let action = pool
        .take_unstaked_balance(ctx(OWNER, 0, 104), VALIDATOR)
        .unwrap();
    let result = pool.take_unstaked_balance_callback(action, true, 104);
    assert!(result.is_success);
    assert_eq!(pool.fund.delayed_withdrawn_fund.balance, TEN);

    // Reconcile epochs 104 and 108.
    let action = pool.update_validator(ctx(OWNER, 0, 104), VALIDATOR).unwrap();
    pool.update_validator_callback(action, Some(0), 104);
    pool.update(ctx(OWNER, 0, 104)).unwrap();
    assert_eq!(pool.current_epoch_height, 104);
    assert_eq!(
        pool.take_delayed_withdrawal(ctx(USER, 1, 104)).err(),
        Some(PoolError::WrongEpochForWithdrawal)
    );
    let action = pool.update_validator(ctx(OWNER, 0, 108), VALIDATOR).unwrap();
    pool.update_validator_callback(action, Some(0), 108);
    pool.update(ctx(OWNER, 0, 108)).unwrap();

    // Eight epochs have passed: the payout is N plus the ticket storage
    // price plus the attached payment.
    let payout = pool.take_delayed_withdrawal(ctx(USER, 1, 108)).unwrap();
    assert_eq!(payout, TEN + 120 + 1);
    assert_eq!(pool.fund.delayed_withdrawn_fund.balance, 0);
}

#[test]
fn update_validator_callback_accrues_rewards() {
    // The validator reports R more than tracked with no principal change:
    // the pending rewards and the validator's default balance grow by R.
    let mut pool = new_pool(100);
    pool.deposit(ctx(USER, TEN + 100, 100), TEN).unwrap();
    pool.add_validator(
        ctx(OWNER, 200, 100),
        VALIDATOR,
        StakingContractVersion::Core,
        false,
        false,
    )
    .unwrap();
    stake_on_validator(&mut pool, 100, TEN);

    let rewards = 5 * ONE;
    let action = pool.update_validator(ctx(OWNER, 0, 101), VALIDATOR).unwrap();
    let result = pool.update_validator_callback(action, Some(TEN + rewards), 101);
    assert!(result.is_success);
    assert_eq!(
        pool.reward.previous_epoch_rewards_from_validators_near_amount,
        rewards
    );
    let listed = pool.get_validator_registry();
    assert_eq!(listed.len(), 1);
    assert_eq!(listed[0].classic_staked_balance, TEN + rewards);

    // Folding the epoch moves the rewards into the staked bucket.
    pool.update(ctx(OWNER, 0, 101)).unwrap();
    assert_eq!(pool.fund.classic_staked_balance, TEN + rewards);
    assert_eq!(pool.reward.previous_epoch_rewards_from_validators_near_amount, 0);
    assert_eq!(pool.reward.total_rewards_from_validators_near_amount, rewards);
}

#[test]
fn investment_only_validator_refuses_default_stake() {
    let mut pool = new_pool(100);
    pool.deposit(ctx(USER, TEN + 100, 100), TEN).unwrap();
    pool.add_validator(
        ctx(OWNER, 200, 100),
        VALIDATOR,
        StakingContractVersion::Core,
        true,
        false,
    )
    .unwrap();
    let r = pool.increase_validator_stake(ctx(OWNER, 0, 100), VALIDATOR, TEN);
    assert_eq!(r.err(), Some(PoolError::ValidatorOnlyForInvestment));
}

#[test]
fn preferred_validator_cannot_be_investment_only() {
    let mut pool = new_pool(100);
    let r = pool.add_validator(
        ctx(OWNER, 200, 100),
        VALIDATOR,
        StakingContractVersion::Core,
        true,
        true,
    );
    assert_eq!(r.err(), Some(PoolError::PreferredCannotBeInvestment));
}

#[test]
fn desynchronized_only_operations_fail_when_synchronized() {
    let mut pool = new_pool(100);
    assert_eq!(
        pool.update(ctx(OWNER, 0, 100)).err(),
        Some(PoolError::EpochNotDesynchronized)
    );
    assert_eq!(
        pool.update_validator(ctx(OWNER, 0, 100), VALIDATOR).err(),
        Some(PoolError::EpochNotDesynchronized)
    );
    assert_eq!(
        pool.requested_decrease_validator_stake(
            ctx(OWNER, 0, 100),
            VALIDATOR,
            ONE,
            StakeDecreasingType::Classic,
        )
        .err(),
        Some(PoolError::EpochNotDesynchronized)
    );
    assert_eq!(
        pool.take_unstaked_balance(ctx(OWNER, 0, 100), VALIDATOR).err(),
        Some(PoolError::EpochNotDesynchronized)
    );
}

#[test]
fn synchronized_only_operations_fail_when_desynchronized() {
    let mut pool = new_pool(100);
    let desync = ctx(OWNER, TEN, 101);
    assert_eq!(pool.deposit(desync, TEN).err(), Some(PoolError::EpochNotSynchronized));
    assert_eq!(
        pool.instant_withdraw(desync, ONE).err(),
        Some(PoolError::EpochNotSynchronized)
    );
    assert_eq!(
        pool.delayed_withdraw(desync, ONE).err(),
        Some(PoolError::EpochNotSynchronized)
    );
    assert_eq!(
        pool.add_validator(
            desync,
            VALIDATOR,
            StakingContractVersion::Core,
            false,
            false,
        )
        .err(),
        Some(PoolError::EpochNotSynchronized)
    );
    assert_eq!(
        pool.confirm_stake_distribution(ctx(OWNER, 0, 101)).err(),
        Some(PoolError::EpochNotSynchronized)
    );
}

#[test]
fn update_requires_every_validator_updated() {
    let mut pool = new_pool(100);
    pool.add_validator(
        ctx(OWNER, 200, 100),
        VALIDATOR,
        StakingContractVersion::Core,
        false,
        false,
    )
    .unwrap();
    assert_eq!(
        pool.update(ctx(OWNER, 0, 101)).err(),
        Some(PoolError::SomeValidatorsNotUpdated)
    );
}

#[test]
fn update_blocks_on_pending_unstake_requests_in_request_epoch() {
    let mut pool = new_pool(100);
    pool.deposit(ctx(USER, TEN + 100, 100), TEN).unwrap();
    pool.add_validator(
        ctx(OWNER, 200, 100),
        VALIDATOR,
        StakingContractVersion::Core,
        false,
        false,
    )
    .unwrap();
    stake_on_validator(&mut pool, 100, TEN);
    pool.delayed_withdraw(ctx(USER, 120, 100), TEN).unwrap();

    let action = pool.update_validator(ctx(OWNER, 0, 104), VALIDATOR).unwrap();
    pool.update_validator_callback(action, Some(0), 104);
    // Epoch 104 is a designated unstake-request epoch and requests are
    // pending, so the epoch cannot fold yet.
    assert_eq!(
        pool.update(ctx(OWNER, 0, 104)).err(),
        Some(PoolError::SomeFundsNotUnstaked)
    );
}

#[test]
fn investor_deposit_and_delayed_withdraw_from_validator() {
    let mut pool = new_pool(100);
    pool.add_investor(ctx(OWNER, 150, 100), INVESTOR).unwrap();
    pool.add_validator(
        ctx(OWNER, 200, 100),
        VALIDATOR,
        StakingContractVersion::Core,
        false,
        false,
    )
    .unwrap();

    let action = pool
        .deposit_on_validator(ctx(INVESTOR, TEN + 150, 100), TEN, VALIDATOR)
        .unwrap();
    assert_eq!(action.storage_staking_price, 150);
    assert_eq!(action.token_amount, TEN);
    let (ok, refund) = pool.deposit_on_validator_callback(action, true);
    assert!(ok);
    assert_eq!(refund, 0);
    assert_eq!(pool.fund.investment_staked_balance, TEN);
    assert_eq!(pool.ft_balance_of(INVESTOR), TEN);

    let investor = pool
        .get_investor_investment(ctx(OWNER, 0, 100), INVESTOR)
        .unwrap()
        .unwrap();
    assert_eq!(investor.staked_balance, TEN);
    assert_eq!(investor.distribution_registry, vec![(VALIDATOR, TEN)]);

    // An investor cannot instant-withdraw shares backing the investment.
    assert_eq!(
        pool.instant_withdraw(ctx(INVESTOR, 1, 100), TEN).err(),
        Some(PoolError::InvestmentCoverageViolated)
    );

    // Withdraw four units through the per-validator delayed path.
    let four = 4 * ONE;
    let refund = pool
        .delayed_withdraw_from_validator(ctx(INVESTOR, 80 + 120, 100), four, VALIDATOR)
        .unwrap();
    assert_eq!(refund, 0);
    assert_eq!(pool.fund.investment_staked_balance, TEN - four);
    assert_eq!(
        pool.fund.delayed_withdrawn_fund.needed_to_request_investment_near_amount,
        four
    );
    let requested = pool.get_requested_to_withdrawal_fund();
    assert_eq!(requested.investment_withdrawal_registry, vec![(VALIDATOR, four)]);
    let investor = pool
        .get_investor_investment(ctx(OWNER, 0, 100), INVESTOR)
        .unwrap()
        .unwrap();
    assert_eq!(investor.staked_balance, TEN - four);
    assert_eq!(pool.ft_balance_of(INVESTOR), TEN - four);
}

#[test]
fn ft_transfer_moves_shares_and_remainders() {
    let mut pool = new_pool(100);
    pool.deposit(ctx(USER, TEN + 100, 100), TEN).unwrap();
    pool.deposit(ctx(INVESTOR, TEN + 100, 100), TEN).unwrap();

    let refund = pool.ft_transfer(ctx(USER, 1, 100), INVESTOR, 3 * ONE).unwrap();
    assert_eq!(refund, 1);
    assert_eq!(pool.ft_balance_of(USER), 7 * ONE);
    assert_eq!(pool.ft_balance_of(INVESTOR), 13 * ONE);
    assert_eq!(pool.ft_total_supply(), 2 * TEN);

    // Draining the sender removes its account and refunds its storage.
    let refund = pool.ft_transfer(ctx(USER, 1, 100), INVESTOR, 7 * ONE).unwrap();
    assert_eq!(refund, 1 + 100);
    assert_eq!(pool.ft_balance_of(USER), 0);
    assert_eq!(pool.ft_balance_of(INVESTOR), 2 * TEN);
    assert_eq!(pool.fungible_token.accounts_quantity, 3);
}

#[test]
fn conversion_round_trip_never_exceeds_input() {
    // Put the pool at a non-trivial rate: ten units backing, five units of
    // rewards folded in, supply unchanged.
    let mut pool = new_pool(100);
    pool.deposit(ctx(USER, TEN + 100, 100), TEN).unwrap();
    pool.add_validator(
        ctx(OWNER, 200, 100),
        VALIDATOR,
        StakingContractVersion::Core,
        false,
        false,
    )
    .unwrap();
    stake_on_validator(&mut pool, 100, TEN);
    let action = pool.update_validator(ctx(OWNER, 0, 101), VALIDATOR).unwrap();
    pool.update_validator_callback(action, Some(TEN + 5 * ONE), 101);
    pool.update(ctx(OWNER, 0, 101)).unwrap();

    for near in [1u128, 7, ONE / 3, 7 * ONE + 123, TEN] {
        let (token, remainder) = pool.convert_near_amount_to_token_amount(near);
        let back = pool.convert_token_amount_to_near_amount(token);
        assert!(back <= near);
        assert_eq!(near - back, remainder);
    }
}

#[test]
fn manager_administration() {
    let mut pool = new_pool(100);
    // Only the manager may confirm distribution.
    assert_eq!(
        pool.confirm_stake_distribution(ctx(USER, 0, 100)).err(),
        Some(PoolError::UnauthorizedManager)
    );
    pool.confirm_stake_distribution(ctx(OWNER, 0, 100)).unwrap();
    assert!(pool.is_stake_distributed());
    assert_eq!(
        pool.confirm_stake_distribution(ctx(OWNER, 0, 100)).err(),
        Some(PoolError::AlreadyDistributed)
    );

    // Manager handover: the old manager loses access.
    pool.change_manager(ctx(OWNER, 0, 100), USER).unwrap();
    assert_eq!(pool.account_registry.manager_id, USER);
    assert_eq!(
        pool.change_reward_fee(ctx(INVESTOR, 0, 100), None, None).err(),
        Some(PoolError::UnauthorizedManager)
    );
    pool.change_reward_fee(
        ctx(USER, 0, 100),
        Some(Fee { numerator: 1, denominator: 5 }),
        None,
    )
    .unwrap();
    assert_eq!(
        pool.fee_registry.reward_fee.unwrap().self_fee,
        Fee { numerator: 1, denominator: 5 }
    );
    assert_eq!(
        pool.change_instant_withdraw_fee(
            ctx(USER, 0, 100),
            Some(Fee { numerator: 5, denominator: 5 }),
            None,
        )
        .err(),
        Some(PoolError::InvalidFee)
    );
}

#[test]
fn validator_lifecycle() {
    let mut pool = new_pool(100);
    pool.add_validator(
        ctx(OWNER, 200, 100),
        VALIDATOR,
        StakingContractVersion::Core,
        false,
        true,
    )
    .unwrap();
    assert_eq!(pool.validating.preffered_validator, Some(VALIDATOR));
    assert_eq!(
        pool.add_validator(
            ctx(OWNER, 200, 100),
            VALIDATOR,
            StakingContractVersion::Core,
            false,
            false,
        )
        .err(),
        Some(PoolError::ValidatorAlreadyRegistered)
    );

    // Flipping to investment-only is refused while preferred.
    assert_eq!(
        pool.change_validator_investment_context(ctx(OWNER, 0, 100), VALIDATOR, true).err(),
        Some(PoolError::PreferredCannotBeInvestment)
    );
    pool.change_preffered_validator(ctx(OWNER, 0, 100), None).unwrap();
    pool.change_validator_investment_context(ctx(OWNER, 0, 100), VALIDATOR, true)
        .unwrap();
    assert_eq!(
        pool.change_validator_investment_context(ctx(OWNER, 0, 100), VALIDATOR, true).err(),
        Some(PoolError::SameState)
    );
    assert_eq!(
        pool.change_preffered_validator(ctx(OWNER, 0, 100), Some(VALIDATOR)).err(),
        Some(PoolError::PreferredCannotBeInvestment)
    );

    let refund = pool.remove_validator(ctx(OWNER, 0, 100), VALIDATOR).unwrap();
    assert_eq!(refund, 200);
    assert_eq!(pool.validating.validators_quantity, 0);
    assert_eq!(
        pool.remove_validator(ctx(OWNER, 0, 100), VALIDATOR).err(),
        Some(PoolError::ValidatorNotRegistered)
    );
}

#[test]
fn validator_with_balance_cannot_be_removed() {
    let mut pool = new_pool(100);
    pool.deposit(ctx(USER, TEN + 100, 100), TEN).unwrap();
    pool.add_validator(
        ctx(OWNER, 200, 100),
        VALIDATOR,
        StakingContractVersion::Core,
        false,
        false,
    )
    .unwrap();
    stake_on_validator(&mut pool, 100, TEN);
    assert_eq!(
        pool.remove_validator(ctx(OWNER, 0, 100), VALIDATOR).err(),
        Some(PoolError::ValidatorHasBalance)
    );
}

#[test]
fn investor_lifecycle() {
    let mut pool = new_pool(100);
    pool.add_investor(ctx(OWNER, 150, 100), INVESTOR).unwrap();
    assert_eq!(
        pool.add_investor(ctx(OWNER, 150, 100), INVESTOR).err(),
        Some(PoolError::InvestorAlreadyRegistered)
    );
    let refund = pool.remove_investor(ctx(OWNER, 0, 100), INVESTOR).unwrap();
    assert_eq!(refund, 150);
    assert_eq!(
        pool.remove_investor(ctx(OWNER, 0, 100), INVESTOR).err(),
        Some(PoolError::InvestorNotRegistered)
    );
}

#[test]
fn distributed_pool_forwards_deposits_to_preferred_validator() {
    let mut pool = new_pool(100);
    pool.add_validator(
        ctx(OWNER, 200, 100),
        VALIDATOR,
        StakingContractVersion::Core,
        false,
        true,
    )
    .unwrap();
    pool.confirm_stake_distribution(ctx(OWNER, 0, 100)).unwrap();

    let outcome = pool.deposit(ctx(USER, TEN + 100, 100), TEN).unwrap();
    let action = match outcome {
        DepositOutcome::Forwarded(action) => action,
        DepositOutcome::Staked { .. } => panic!("deposit should have been forwarded"),
    };
    assert_eq!(action.validator_account_id, VALIDATOR);
    assert_eq!(action.near_amount, TEN);
    assert_eq!(action.token_amount, TEN);
    assert_eq!(action.storage_staking_price, 100);
    // Nothing committed yet.
    assert_eq!(pool.ft_total_supply(), 0);
    assert_eq!(pool.fund.classic_unstaked_balance, 0);

    // A failing validator call books the asset into the liquid bucket; the
    // shares are minted either way.
    let refund = pool.deposit_callback(action, false);
    assert_eq!(refund, 0);
    assert_eq!(pool.ft_balance_of(USER), TEN);
    assert_eq!(pool.fund.classic_unstaked_balance, TEN);
    assert_eq!(pool.fund.classic_staked_balance, 0);
}

#[test]
fn take_delayed_withdrawal_requires_ticket() {
    let mut pool = new_pool(100);
    assert_eq!(
        pool.take_delayed_withdrawal(ctx(USER, 1, 100)).err(),
        Some(PoolError::DelayedWithdrawalNotRegistered)
    );
}

#[test]
fn storage_coverage_view() {
    let mut pool = new_pool(100);
    pool.add_investor(ctx(OWNER, 150, 100), INVESTOR).unwrap();
    pool.add_validator(
        ctx(OWNER, 200, 100),
        VALIDATOR,
        StakingContractVersion::Core,
        false,
        false,
    )
    .unwrap();
    let coverage = pool
        .get_storage_staking_requested_coverage(ctx(OWNER, 0, 100), INVESTOR)
        .unwrap();
    assert_eq!(coverage.per_method_deposit, 100);
    assert_eq!(coverage.per_method_delayed_withdraw, 120);
    let (account_part, dist) = coverage.per_method_deposit_on_validator.unwrap();
    assert_eq!(account_part, 100);
    assert_eq!(dist, vec![(VALIDATOR, 50)]);
    let (ticket_part, iw) = coverage.per_method_delayed_withdraw_from_validator.unwrap();
    assert_eq!(ticket_part, 120);
    // No distribution on the validator yet, so no ticket row is listed.
    assert_eq!(iw, Vec::<(u64, u128)>::new());
}

#[test]
fn investment_unstake_pipeline_clears_ticket_and_pays_out() {
    let mut pool = new_pool(100);
    pool.add_investor(ctx(OWNER, 150, 100), INVESTOR).unwrap();
    pool.add_validator(
        ctx(OWNER, 200, 100),
        VALIDATOR,
        StakingContractVersion::Core,
        false,
        false,
    )
    .unwrap();
    let action = pool
        .deposit_on_validator(ctx(INVESTOR, TEN + 150, 100), TEN, VALIDATOR)
        .unwrap();
    pool.deposit_on_validator_callback(action, true);
    let four = 4 * ONE;
    pool.delayed_withdraw_from_validator(ctx(INVESTOR, 200, 100), four, VALIDATOR)
        .unwrap();

    // A validator backing a pending investment-withdrawal ticket cannot be
    // removed: it still carries the ticket's balance.
    assert_eq!(
        pool.remove_validator(ctx(OWNER, 0, 100), VALIDATOR).err(),
        Some(PoolError::ValidatorHasBalance)
    );

    // Unstake the requested amount in the designated epoch.
    let action = pool
        .requested_decrease_validator_stake(
            ctx(OWNER, 0, 104),
            VALIDATOR,
            four,
            StakeDecreasingType::Investment,
        )
        .unwrap();
    assert_eq!(action.refundable_near_amount, 80);
    let step = pool.requested_decrease_validator_stake_callback_1(action, Some(0), 104);
    let unstake = match step {
        DecreaseCallbackOutcome::Unstake(unstake) => unstake,
        DecreaseCallbackOutcome::Failed(_) => panic!("balance read should have succeeded"),
    };
    let (result, ticket_refund) =
        pool.requested_decrease_validator_stake_callback_2(unstake, true, 104);
    assert!(result.is_success);
    // The fully drained ticket clears and its storage deposit goes back to
    // whoever paid for it.
    let transfer = ticket_refund.unwrap();
    assert_eq!(transfer.receiver_account_id, INVESTOR);
    assert_eq!(transfer.near_amount, 80);
    assert_eq!(
        pool.fund.delayed_withdrawn_fund.needed_to_request_investment_near_amount,
        0
    );

    // Collect and reconcile until the account-level ticket matures.
    let action = pool
        .take_unstaked_balance(ctx(OWNER, 0, 104), VALIDATOR)
        .unwrap();
    pool.take_unstaked_balance_callback(action, true, 104);
    assert_eq!(pool.fund.delayed_withdrawn_fund.balance, four);
    let action = pool.update_validator(ctx(OWNER, 0, 104), VALIDATOR).unwrap();
    pool.update_validator_callback(action, Some(TEN - four), 104);
    pool.update(ctx(OWNER, 0, 104)).unwrap();
    let action = pool.update_validator(ctx(OWNER, 0, 108), VALIDATOR).unwrap();
    pool.update_validator_callback(action, Some(TEN - four), 108);
    pool.update(ctx(OWNER, 0, 108)).unwrap();

    let payout = pool.take_delayed_withdrawal(ctx(INVESTOR, 1, 108)).unwrap();
    assert_eq!(payout, four + 120 + 1);
}

#[test]
fn deposit_callback_success_books_stake_on_validator() {
    let mut pool = new_pool(100);
    pool.add_validator(
        ctx(OWNER, 200, 100),
        VALIDATOR,
        StakingContractVersion::Core,
        false,
        true,
    )
    .unwrap();
    pool.confirm_stake_distribution(ctx(OWNER, 0, 100)).unwrap();
    let outcome = pool.deposit(ctx(USER, TEN + 100 + 7, 100), TEN).unwrap();
    let action = match outcome {
        DepositOutcome::Forwarded(action) => action,
        DepositOutcome::Staked { .. } => panic!("deposit should have been forwarded"),
    };
    assert_eq!(action.refundable_near_amount, 7);
    let refund = pool.deposit_callback(action, true);
    assert_eq!(refund, 7);
    assert_eq!(pool.ft_balance_of(USER), TEN);
    assert_eq!(pool.fund.classic_staked_balance, TEN);
    assert_eq!(pool.fund.classic_unstaked_balance, 0);
    let listed = pool.get_validator_registry();
    assert_eq!(listed[0].classic_staked_balance, TEN);
    assert_eq!(listed[0].last_classic_stake_increasing_epoch_height, Some(100));
}

/// A pool with shares outstanding against a zero asset balance: every
/// bucket empty while the supply is positive.
fn drained_pool() -> StakePool {
    let mut accounts = Registry::new();
    accounts.insert(
        SELF_RECEIVER,
        AccountBalance { token_amount: 0, classic_near_amount: 0, investment_near_amount: 0 },
    );
    accounts.insert(
        PARTNER_RECEIVER,
        AccountBalance { token_amount: 0, classic_near_amount: 0, investment_near_amount: 0 },
    );
    accounts.insert(
        USER,
        AccountBalance { token_amount: TEN, classic_near_amount: 0, investment_near_amount: 0 },
    );
    StakePool {
        account_registry: AccountRegistry {
            owner_id: OWNER,
            manager_id: OWNER,
            self_fee_receiver_account_id: SELF_RECEIVER,
            partner_fee_receiver_account_id: PARTNER_RECEIVER,
        },
        fungible_token: FungibleToken {
            total_supply: TEN,
            account_registry: accounts,
            accounts_quantity: 3,
            storage_usage_per_account: 100,
        },
        fund: Fund {
            classic_unstaked_balance: 0,
            classic_staked_balance: 0,
            classic_liquidity_balance: 0,
            investment_staked_balance: 0,
            delayed_withdrawn_fund: DelayedWithdrawnFund::new(120, 80),
            is_distributed_on_validators_in_current_epoch: false,
        },
        fee_registry: FeeRegistry { reward_fee: None, instant_withdraw_fee: None },
        validating: Validating::new(200, 150, 50),
        current_epoch_height: 100,
        reward: Reward {
            previous_epoch_rewards_from_validators_near_amount: 0,
            total_rewards_from_validators_near_amount: 0,
        },
    }
}

#[test]
fn bootstrap_conversion_has_zero_remainder() {
    // With shares outstanding against a zero pool balance the conversion
    // still takes the one-to-one bootstrap branch: the remainder is zero,
    // never the whole amount.
    let pool = drained_pool();
    let (token, remainder) = pool.convert_near_amount_to_token_amount(7 * ONE);
    assert_eq!(token, 7 * ONE);
    assert_eq!(remainder, 0);

    // A deposit into that state mints shares but no extra asset claim.
    let mut pool = drained_pool();
    pool.deposit(ctx(USER, ONE, 100), ONE).unwrap();
    assert_eq!(pool.ft_balance_of(USER), TEN + ONE);
    assert_eq!(pool.fund.classic_unstaked_balance, ONE);
    let base = pool.get_account_balance(USER).base_account_balance.unwrap();
    // The whole claim is the converted share value: no remainder credit.
    assert_eq!(base.common_near_balance, ONE);
}

#[test]
fn take_delayed_withdrawal_refusals_do_not_need_liquidity() {
    // The wrong-epoch refusal stands even though nothing was collected from
    // validators yet: an immature ticket is turned away whatever the
    // settled balance holds.
    let mut pool = new_pool(100);
    pool.deposit(ctx(USER, TEN + 100, 100), TEN).unwrap();
    pool.add_validator(
        ctx(OWNER, 200, 100),
        VALIDATOR,
        StakingContractVersion::Core,
        false,
        false,
    )
    .unwrap();
    stake_on_validator(&mut pool, 100, TEN);
    pool.delayed_withdraw(ctx(USER, 120, 100), TEN).unwrap();
    assert_eq!(pool.fund.delayed_withdrawn_fund.balance, 0);
    assert_eq!(
        pool.take_delayed_withdrawal(ctx(USER, 1, 100)).err(),
        Some(PoolError::WrongEpochForWithdrawal)
    );
}
