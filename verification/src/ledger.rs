//! The rules of a depositor's position, shared by every kind of vault: when
//! an operation is refused, and what it makes of the position.
use vstd::prelude::*;
use crate::accrual::{calculate_yield, yield_owed};
use crate::errors::VaultError;
use crate::guard::{owns_position, position_owned_by};
use crate::identity::Identity;
use crate::state::UserDeposit;

verus! {

impl UserDeposit {
    /// The yield that the position has earned since it was last settled and
    /// that is not yet recorded in it.
    pub open spec fn pending_yield(self, yield_rate: u64, current_time: i64) -> u64 {
        yield_owed(self.deposit_amount, self.last_yield_update, current_time, yield_rate)
    }

    /// What can be withdrawn: the principal and the pending yield.
    pub open spec fn available(self, yield_rate: u64, current_time: i64) -> int {
        self.deposit_amount + self.pending_yield(yield_rate, current_time)
    }

    /// What can be claimed: the yield recorded and the pending yield.
    pub open spec fn claimable(self, yield_rate: u64, current_time: i64) -> int {
        self.yield_earned + self.pending_yield(yield_rate, current_time)
    }

    /// Whether the position can record its pending yield.
    pub open spec fn settlement_fits(self, yield_rate: u64, current_time: i64) -> bool {
        self.claimable(yield_rate, current_time) <= u64::MAX
    }

    /// The position with its pending yield recorded.
    pub open spec fn settled(self, yield_rate: u64, current_time: i64) -> UserDeposit {
        UserDeposit {
            yield_earned: self.claimable(yield_rate, current_time) as u64,
            last_yield_update: current_time,
            ..self
        }
    }

    /// The position after a deposit of `amount`: settled, with the amount
    /// added to the principal.
    pub open spec fn after_deposit(self, amount: u64, yield_rate: u64, current_time: i64) -> UserDeposit {
        UserDeposit {
            deposit_amount: (self.deposit_amount + amount) as u64,
            ..self.settled(yield_rate, current_time)
        }
    }

    /// The position after a withdrawal of `amount`: settled, with the amount
    /// taken from the principal as far as the principal goes.
    pub open spec fn after_withdrawal(self, amount: u64, yield_rate: u64, current_time: i64) -> UserDeposit {
        UserDeposit {
            deposit_amount: self.deposit_amount.saturating_sub(amount),
            ..self.settled(yield_rate, current_time)
        }
    }

    /// The position after its yield was claimed.
    pub open spec fn after_claim(self, current_time: i64) -> UserDeposit {
        UserDeposit { yield_earned: 0, last_yield_update: current_time, ..self }
    }

    /// Whether the position can record its pending yield; `settle` asks for
    /// it.
    pub fn can_settle(&self, yield_rate: u64, current_time: i64) -> (fits: bool)
        ensures
            fits == self.settlement_fits(yield_rate, current_time),
    {
        let pending = calculate_yield(
            self.deposit_amount,
            self.last_yield_update,
            current_time,
            yield_rate,
        );
        self.yield_earned.checked_add(pending).is_some()
    }

    /// Records the yield that is pending at `current_time` and returns it.
    pub fn settle(&mut self, yield_rate: u64, current_time: i64) -> (pending: u64)
        requires
            old(self).settlement_fits(yield_rate, current_time),
        ensures
            pending == old(self).pending_yield(yield_rate, current_time),
            *final(self) == old(self).settled(yield_rate, current_time),
    {
        let pending = calculate_yield(
            self.deposit_amount,
            self.last_yield_update,
            current_time,
            yield_rate,
        );
        self.yield_earned = self.yield_earned + pending;
        self.last_yield_update = current_time;
        pending
    }
}

/// The principal of all the given positions together.
pub open spec fn principal_sum(positions: Seq<UserDeposit>) -> int
    decreases positions.len(),
{
    if positions.len() == 0 {
        0
    } else {
        principal_sum(positions.drop_last()) + positions.last().deposit_amount
    }
}

/// The position that a deposit works on: the one that exists, or else one
/// that `user` opens at `current_time`.
pub open spec fn position_or_opened(
    position: Option<UserDeposit>,
    user: Identity,
    bump: u8,
    current_time: i64,
) -> UserDeposit {
    match position {
        Some(p) => p,
        None => UserDeposit::opened(user, bump, current_time),
    }
}

/// Why a deposit is refused, if it is: the vault is paused; else the amount
/// is zero; else the position is another depositor's.
pub open spec fn deposit_rejection(
    is_paused: bool,
    position: Option<UserDeposit>,
    user: Identity,
    amount: u64,
) -> Option<VaultError> {
    if is_paused {
        Some(VaultError::VaultPaused)
    } else if amount == 0 {
        Some(VaultError::InvalidAmount)
    } else if position is Some && !position_owned_by(position, user) {
        Some(VaultError::Unauthorized)
    } else {
        None
    }
}

/// Why a withdrawal is refused, if it is: the vault is paused; else the
/// amount is zero; else the caller has no position; else the amount is more
/// than principal and pending yield together.
pub open spec fn withdrawal_rejection(
    is_paused: bool,
    position: Option<UserDeposit>,
    user: Identity,
    amount: u64,
    yield_rate: u64,
    current_time: i64,
) -> Option<VaultError> {
    if is_paused {
        Some(VaultError::VaultPaused)
    } else if amount == 0 {
        Some(VaultError::InvalidAmount)
    } else if !position_owned_by(position, user) {
        Some(VaultError::Unauthorized)
    } else if amount > position->0.available(yield_rate, current_time) {
        Some(VaultError::InsufficientBalance)
    } else {
        None
    }
}

/// Why a claim is refused, if it is: the vault is paused; else the caller
/// has no position; else there is no yield, recorded or pending.
pub open spec fn claim_rejection(
    is_paused: bool,
    position: Option<UserDeposit>,
    user: Identity,
    yield_rate: u64,
    current_time: i64,
) -> Option<VaultError> {
    if is_paused {
        Some(VaultError::VaultPaused)
    } else if !position_owned_by(position, user) {
        Some(VaultError::Unauthorized)
    } else if position->0.claimable(yield_rate, current_time) == 0 {
        Some(VaultError::NoYieldToClaim)
    } else {
        None
    }
}

/// Whether the counters can take a deposit that is not refused: the vault's
/// principal and the position's, the yield that the position records, and,
/// for a new position, the number of depositors.
pub open spec fn deposit_fits(
    total_deposits: u64,
    total_users: u32,
    position: Option<UserDeposit>,
    amount: u64,
    yield_rate: u64,
    current_time: i64,
) -> bool {
    &&& total_deposits + amount <= u64::MAX
    &&& match position {
        Some(p) => p.deposit_amount + amount <= u64::MAX && p.settlement_fits(
            yield_rate,
            current_time,
        ),
        None => total_users < u32::MAX,
    }
}

/// Whether the counters can take a deposit; the deposit operations ask for
/// it wherever they do not refuse the deposit.
pub fn deposit_would_fit(
    total_deposits: u64,
    total_users: u32,
    position: &Option<UserDeposit>,
    amount: u64,
    yield_rate: u64,
    current_time: i64,
) -> (fits: bool)
    ensures
        fits == deposit_fits(
            total_deposits,
            total_users,
            *position,
            amount,
            yield_rate,
            current_time,
        ),
{
    if total_deposits.checked_add(amount).is_none() {
        return false;
    }
    match position {
        Some(p) => p.deposit_amount.checked_add(amount).is_some() && p.can_settle(
            yield_rate,
            current_time,
        ),
        None => total_users < u32::MAX,
    }
}

/// Why a deposit is refused, if it is.
pub fn check_deposit(
    is_paused: bool,
    position: &Option<UserDeposit>,
    user: &Identity,
    amount: u64,
) -> (rejection: Option<VaultError>)
    ensures
        rejection == deposit_rejection(is_paused, *position, *user, amount),
{
    if is_paused {
        Some(VaultError::VaultPaused)
    } else if amount == 0 {
        Some(VaultError::InvalidAmount)
    } else if position.is_some() && !owns_position(position, user) {
        Some(VaultError::Unauthorized)
    } else {
        None
    }
}

/// Why a withdrawal is refused, if it is.
pub fn check_withdrawal(
    is_paused: bool,
    position: &Option<UserDeposit>,
    user: &Identity,
    amount: u64,
    yield_rate: u64,
    current_time: i64,
) -> (rejection: Option<VaultError>)
    ensures
        rejection == withdrawal_rejection(
            is_paused,
            *position,
            *user,
            amount,
            yield_rate,
            current_time,
        ),
{
    if is_paused {
        return Some(VaultError::VaultPaused);
    }
    if amount == 0 {
        return Some(VaultError::InvalidAmount);
    }
    match position {
        Some(p) => {
            if !(p.user == *user) {
                return Some(VaultError::Unauthorized);
            }
            let pending = calculate_yield(
                p.deposit_amount,
                p.last_yield_update,
                current_time,
                yield_rate,
            );
            let available: u128 = p.deposit_amount as u128 + pending as u128;
            if amount as u128 > available {
                Some(VaultError::InsufficientBalance)
            } else {
                None
            }
        },
        None => Some(VaultError::Unauthorized),
    }
}

/// Why a claim is refused, if it is.
pub fn check_claim(
    is_paused: bool,
    position: &Option<UserDeposit>,
    user: &Identity,
    yield_rate: u64,
    current_time: i64,
) -> (rejection: Option<VaultError>)
    ensures
        rejection == claim_rejection(is_paused, *position, *user, yield_rate, current_time),
{
    if is_paused {
        return Some(VaultError::VaultPaused);
    }
    match position {
        Some(p) => {
            if !(p.user == *user) {
                return Some(VaultError::Unauthorized);
            }
            let pending = calculate_yield(
                p.deposit_amount,
                p.last_yield_update,
                current_time,
                yield_rate,
            );
            if p.yield_earned == 0 && pending == 0 {
                Some(VaultError::NoYieldToClaim)
            } else {
                None
            }
        },
        None => Some(VaultError::Unauthorized),
    }
}

/// A paused vault refuses every deposit, withdrawal and claim, whatever else
/// holds of the call.
pub proof fn lemma_paused_vault_refuses(
    position: Option<UserDeposit>,
    user: Identity,
    amount: u64,
    yield_rate: u64,
    current_time: i64,
)
    ensures
        deposit_rejection(true, position, user, amount) == Some(VaultError::VaultPaused),
        withdrawal_rejection(true, position, user, amount, yield_rate, current_time) == Some(
            VaultError::VaultPaused,
        ),
        claim_rejection(true, position, user, yield_rate, current_time) == Some(
            VaultError::VaultPaused,
        ),
{
}

/// Where no time has passed since the position was settled, its owner can
/// withdraw all of the principal, which leaves none, and not one unit more.
pub proof fn lemma_withdrawal_boundary(position: UserDeposit, yield_rate: u64, current_time: i64)
    requires
        position.deposit_amount > 0,
        current_time <= position.last_yield_update,
    ensures
        withdrawal_rejection(
            false,
            Some(position),
            position.user,
            position.deposit_amount,
            yield_rate,
            current_time,
        ) is None,
        position.after_withdrawal(position.deposit_amount, yield_rate, current_time).deposit_amount
            == 0,
        position.deposit_amount < u64::MAX ==> withdrawal_rejection(
            false,
            Some(position),
            position.user,
            (position.deposit_amount + 1) as u64,
            yield_rate,
            current_time,
        ) == Some(VaultError::InsufficientBalance),
{
}

/// A position without recorded yield has nothing to claim as long as no
/// time has passed since it was settled.
pub proof fn lemma_nothing_to_claim_without_time(
    position: UserDeposit,
    yield_rate: u64,
    current_time: i64,
)
    requires
        position.yield_earned == 0,
        current_time <= position.last_yield_update,
    ensures
        claim_rejection(false, Some(position), position.user, yield_rate, current_time) == Some(
            VaultError::NoYieldToClaim,
        ),
{
}

/// A claim leaves the position without yield and settled at the time of the
/// claim, and a second claim at that time finds nothing.
pub proof fn lemma_claim_empties_position(position: UserDeposit, yield_rate: u64, current_time: i64)
    ensures
        position.after_claim(current_time).yield_earned == 0,
        position.after_claim(current_time).last_yield_update == current_time,
        position.after_claim(current_time).deposit_amount == position.deposit_amount,
        claim_rejection(
            false,
            Some(position.after_claim(current_time)),
            position.user,
            yield_rate,
            current_time,
        ) == Some(VaultError::NoYieldToClaim),
{
}

/// Replacing one position changes the sum of the principals by the
/// difference between the two principals.
pub proof fn lemma_principal_sum_update(
    positions: Seq<UserDeposit>,
    index: int,
    replacement: UserDeposit,
)
    requires
        0 <= index < positions.len(),
    ensures
        principal_sum(positions.update(index, replacement)) == principal_sum(positions)
            - positions[index].deposit_amount + replacement.deposit_amount,
    decreases positions.len(),
{
    let replaced = positions.update(index, replacement);
    if index == positions.len() - 1 {
        assert(replaced.drop_last() =~= positions.drop_last());
    } else {
        assert(replaced.drop_last() =~= positions.drop_last().update(index, replacement));
        lemma_principal_sum_update(positions.drop_last(), index, replacement);
    }
}

/// One position more adds its principal to the sum of the principals.
pub proof fn lemma_principal_sum_push(positions: Seq<UserDeposit>, added: UserDeposit)
    ensures
        principal_sum(positions.push(added)) == principal_sum(positions) + added.deposit_amount,
{
    assert(positions.push(added).drop_last() =~= positions);
}

/// No position holds more than all positions together.
pub proof fn lemma_principal_sum_bounds(positions: Seq<UserDeposit>, index: int)
    requires
        0 <= index < positions.len(),
    ensures
        0 <= positions[index].deposit_amount <= principal_sum(positions),
    decreases positions.len(),
{
    lemma_principal_sum_nonnegative(positions.drop_last());
    if index < positions.len() - 1 {
        lemma_principal_sum_bounds(positions.drop_last(), index);
    }
}

/// The sum of the principals is not negative.
pub proof fn lemma_principal_sum_nonnegative(positions: Seq<UserDeposit>)
    ensures
        0 <= principal_sum(positions),
    decreases positions.len(),
{
    if positions.len() > 0 {
        lemma_principal_sum_nonnegative(positions.drop_last());
    }
}

} // verus!
