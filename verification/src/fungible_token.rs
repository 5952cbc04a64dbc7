//! The pool-share token ledger.

use vstd::prelude::*;
use crate::account::AccountBalance;
use crate::registry::Registry;

verus! {

/// The share-token ledger: per-account balances and the total supply.
pub struct FungibleToken {
    pub total_supply: u128,
    /// Share accounts, keyed by account id.
    pub account_registry: Registry<AccountBalance>,
    pub accounts_quantity: u64,
    /// Storage bytes one share account occupies.
    pub storage_usage_per_account: u64,
}

impl FungibleToken {
    pub fn new(storage_usage_per_account: u64) -> (r: FungibleToken)
        ensures
            r.total_supply == 0,
            r.account_registry.wf(),
            r.account_registry@ == Map::<u64, AccountBalance>::empty(),
            r.account_registry.entries() == Seq::<(u64, AccountBalance)>::empty(),
            r.accounts_quantity == 0,
            r.storage_usage_per_account == storage_usage_per_account,
    {
        FungibleToken {
            total_supply: 0,
            account_registry: Registry::new(),
            accounts_quantity: 0,
            storage_usage_per_account,
        }
    }
}

} // verus!
