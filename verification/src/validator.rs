//! Validators and the registry that tracks them.

use vstd::prelude::*;
use crate::registry::Registry;
use crate::investor::InvestorInvestment;

verus! {

/// The protocol spoken by a validator's staking contract.
#[derive(Clone, Copy, Debug, PartialEq, Eq, Structural)]
pub enum StakingContractVersion {
    /// The core staking-pool protocol.
    Core,
}

/// What the pool has placed on one validator, split by context.
#[derive(Clone, Copy, Debug, PartialEq, Eq, Structural)]
pub struct ValidatorBalance {
    /// Default-context staked amount.
    pub classic_near_amount: u128,
    /// Investment-context staked amount.
    pub investment_near_amount: u128,
    /// Amount already unstaked on the validator, awaiting collection.
    pub requested_to_withdrawal_near_amount: u128,
}

impl ValidatorBalance {
    /// All asset attributed to the validator.
    pub open spec fn spec_total(self) -> int {
        self.classic_near_amount + self.investment_near_amount
            + self.requested_to_withdrawal_near_amount
    }

    pub fn get_balance(&self) -> (r: u128)
        requires
            self.spec_total() <= u128::MAX,
        ensures
            r == self.spec_total(),
    {
        self.classic_near_amount + self.investment_near_amount
            + self.requested_to_withdrawal_near_amount
    }
}

/// One registered validator.
#[derive(Clone, Copy, Debug, PartialEq, Eq, Structural)]
pub struct Validator {
    pub balance: ValidatorBalance,
    pub staking_contract_version: StakingContractVersion,
    /// A validator used only for investment stakes never carries a
    /// default-context balance and is never the preferred validator.
    pub is_only_for_investment: bool,
    pub last_update_epoch_height: u64,
    pub last_classic_stake_increasing_epoch_height: Option<u64>,
}

impl Validator {
    pub fn new(
        staking_contract_version: StakingContractVersion,
        is_only_for_investment: bool,
        current_epoch_height: u64,
    ) -> (r: Validator)
        ensures
            r == (Validator {
                balance: ValidatorBalance {
                    classic_near_amount: 0,
                    investment_near_amount: 0,
                    requested_to_withdrawal_near_amount: 0,
                },
                staking_contract_version,
                is_only_for_investment,
                last_update_epoch_height: current_epoch_height,
                last_classic_stake_increasing_epoch_height: None::<u64>,
            }),
    {
        Validator {
            balance: ValidatorBalance {
                classic_near_amount: 0,
                investment_near_amount: 0,
                requested_to_withdrawal_near_amount: 0,
            },
            staking_contract_version,
            is_only_for_investment,
            last_update_epoch_height: current_epoch_height,
            last_classic_stake_increasing_epoch_height: None,
        }
    }
}

/// The validator and investor registries, with the preferred-validator
/// pointer and the per-epoch update counter.
pub struct Validating {
    /// Keyed by validator account id.
    pub validator_registry: Registry<Validator>,
    /// Investors allowed to stake directly on validators, keyed by account id.
    pub investor_investment_registry: Registry<InvestorInvestment>,
    pub validators_quantity: u64,
    pub preffered_validator: Option<u64>,
    pub quantity_of_validators_updated_in_current_epoch: u64,
    /// Storage bytes one validator entry occupies.
    pub storage_usage_per_validator: u64,
    /// Storage bytes one investor entry occupies.
    pub storage_usage_per_investor_investment: u64,
    /// Storage bytes one distribution entry occupies.
    pub storage_usage_per_distribution: u64,
}

impl Validating {
    pub fn new(
        storage_usage_per_validator: u64,
        storage_usage_per_investor_investment: u64,
        storage_usage_per_distribution: u64,
    ) -> (r: Validating)
        ensures
            r.validator_registry.wf(),
            r.validator_registry@ == Map::<u64, Validator>::empty(),
            r.validator_registry.entries() == Seq::<(u64, Validator)>::empty(),
            r.investor_investment_registry.wf(),
            r.investor_investment_registry@ == Map::<u64, InvestorInvestment>::empty(),
            r.investor_investment_registry.entries() == Seq::<(u64, InvestorInvestment)>::empty(),
            r.validators_quantity == 0,
            r.preffered_validator is None,
            r.quantity_of_validators_updated_in_current_epoch == 0,
            r.storage_usage_per_validator == storage_usage_per_validator,
            r.storage_usage_per_investor_investment == storage_usage_per_investor_investment,
            r.storage_usage_per_distribution == storage_usage_per_distribution,
    {
        Validating {
            validator_registry: Registry::new(),
            investor_investment_registry: Registry::new(),
            validators_quantity: 0,
            preffered_validator: None,
            quantity_of_validators_updated_in_current_epoch: 0,
            storage_usage_per_validator,
            storage_usage_per_investor_investment,
            storage_usage_per_distribution,
        }
    }
}

} // verus!
