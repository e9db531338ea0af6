//! Who may do what: checks of the caller against the owner of a record.
//! None of them changes anything.
use vstd::prelude::*;
use crate::identity::Identity;
use crate::state::{StrategyState, UserDeposit};

verus! {

/// Whether `position` exists and belongs to `caller`.
pub open spec fn position_owned_by(position: Option<UserDeposit>, caller: Identity) -> bool {
    position matches Some(p) && p.user == caller
}

/// Whether `position` is there and is `caller`'s: what a withdrawal and a
/// claim ask for.
pub fn owns_position(position: &Option<UserDeposit>, caller: &Identity) -> (owned: bool)
    ensures
        owned == position_owned_by(*position, *caller),
{
    match position {
        Some(p) => p.user == *caller,
        None => false,
    }
}

/// Whether `caller` is the vault's `authority`: what pausing and resuming
/// ask for.
pub fn is_authority(authority: &Identity, caller: &Identity) -> (allowed: bool)
    ensures
        allowed == (*authority == *caller),
{
    *authority == *caller
}

/// Whether `strategy` belongs to `caller`: what an execution asks for.
pub fn owns_strategy(strategy: &StrategyState, caller: &Identity) -> (owned: bool)
    ensures
        owned == (strategy.owner == *caller),
{
    strategy.owner == *caller
}

} // verus!
