//! Which staking context a stake decrease draws from.

use vstd::prelude::*;

verus! {

/// The context a validator-stake decrease is charged against.
#[derive(Clone, Copy, Debug, PartialEq, Eq, Structural)]
pub enum StakeDecreasingType {
    /// The default-context balance.
    Classic,
    /// The investment-context balance.
    Investment,
}

} // verus!
