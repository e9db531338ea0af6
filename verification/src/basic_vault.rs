//! The basic vault: deposits, withdrawals and yield claims of its
//! depositors, and the switch by which its authority pauses it.
//!
//! Every operation takes the vault's record, the caller's position as the
//! storage holds it (`None` where the caller never deposited) and the current
//! time. It either succeeds and changes the records, or it is refused and
//! changes nothing. Moving the assets is left to the caller: a deposit and a
//! withdrawal move the amount they were called with, a claim the amount it
//! returns.
use vstd::prelude::*;
use crate::errors::VaultError;
use crate::guard::is_authority;
use crate::identity::Identity;
use crate::ledger::{
    check_claim, check_deposit, check_withdrawal, claim_rejection, deposit_fits,
    deposit_rejection, lemma_principal_sum_bounds, lemma_principal_sum_push,
    lemma_principal_sum_update, position_or_opened, principal_sum, withdrawal_rejection,
};
use crate::state::{BasicVaultState, UserDeposit};

verus! {

impl BasicVaultState {
    /// The vault with deposits, withdrawals and claims switched off.
    pub open spec fn paused(self) -> BasicVaultState {
        BasicVaultState { is_paused: true, ..self }
    }

    /// The vault with deposits, withdrawals and claims switched on.
    pub open spec fn resumed(self) -> BasicVaultState {
        BasicVaultState { is_paused: false, ..self }
    }
}

/// The vault and the position after a deposit of `amount` that is not
/// refused: the position is opened if there was none and then counted as a
/// new depositor; its pending yield is recorded, in the position and in the
/// vault; the amount is added to the principal of both.
pub open spec fn deposited(
    vault: BasicVaultState,
    position: Option<UserDeposit>,
    user: Identity,
    bump: u8,
    amount: u64,
    current_time: i64,
) -> (BasicVaultState, UserDeposit) {
    let current = position_or_opened(position, user, bump, current_time);
    let pending = current.pending_yield(vault.yield_rate, current_time);
    (
        BasicVaultState {
            total_deposits: (vault.total_deposits + amount) as u64,
            total_users: if position is None {
                (vault.total_users + 1) as u32
            } else {
                vault.total_users
            },
            total_yield_generated: vault.total_yield_generated.saturating_add(pending),
            last_yield_calculation: current_time,
            ..vault
        },
        current.after_deposit(amount, vault.yield_rate, current_time),
    )
}

/// The vault and the position after a withdrawal of `amount` that is not
/// refused: the pending yield is recorded, in the position and in the vault;
/// the amount is taken from the principal of both, neither going below zero.
pub open spec fn withdrawn(
    vault: BasicVaultState,
    position: UserDeposit,
    amount: u64,
    current_time: i64,
) -> (BasicVaultState, UserDeposit) {
    let pending = position.pending_yield(vault.yield_rate, current_time);
    (
        BasicVaultState {
            total_deposits: vault.total_deposits.saturating_sub(amount),
            total_yield_generated: vault.total_yield_generated.saturating_add(pending),
            last_yield_calculation: current_time,
            ..vault
        },
        position.after_withdrawal(amount, vault.yield_rate, current_time),
    )
}

/// The vault and the position after a claim that is not refused: the
/// position has no yield left, and what was claimed, recorded and pending,
/// is taken from the vault's count of yield, which does not go below zero.
pub open spec fn claimed(vault: BasicVaultState, position: UserDeposit, current_time: i64) -> (
    BasicVaultState,
    UserDeposit,
) {
    let total_yield = position.claimable(vault.yield_rate, current_time) as u64;
    (
        BasicVaultState {
            total_yield_generated: vault.total_yield_generated.saturating_sub(total_yield),
            last_yield_calculation: current_time,
            ..vault
        },
        position.after_claim(current_time),
    )
}

/// Opens the vault for `authority` at `current_time`.
pub fn initialize_basic_vault(
    vault: &mut BasicVaultState,
    authority: Identity,
    bump: u8,
    current_time: i64,
)
    ensures
        *final(vault) == BasicVaultState::opened(authority, bump, current_time),
{
    vault.initialize(authority, bump, current_time);
}

/// Deposits `amount` for `user`.
///
/// Refused as `deposit_rejection` says. Otherwise the vault's principal grows
/// by exactly `amount`, and the number of depositors by one if and only if
/// `user` had no position. A position that the deposit opens carries `bump`;
/// one that exists keeps its own.
pub fn deposit_sol(
    vault: &mut BasicVaultState,
    position: &mut Option<UserDeposit>,
    user: Identity,
    bump: u8,
    amount: u64,
    current_time: i64,
) -> (result: Result<(), VaultError>)
    requires
        deposit_rejection(old(vault).is_paused, *old(position), user, amount) is None
            ==> deposit_fits(
            old(vault).total_deposits,
            old(vault).total_users,
            *old(position),
            amount,
            old(vault).yield_rate,
            current_time,
        ),
    ensures
        result == match deposit_rejection(old(vault).is_paused, *old(position), user, amount) {
            Some(reason) => Err(reason),
            None => Ok(()),
        },
        result is Err ==> *final(vault) == *old(vault) && *final(position) == *old(position),
        result is Ok ==> {
            let after = deposited(*old(vault), *old(position), user, bump, amount, current_time);
            &&& *final(vault) == after.0
            &&& *final(position) == Some(after.1)
            &&& final(vault).total_deposits == old(vault).total_deposits + amount
            &&& final(vault).total_users == old(vault).total_users + (if *old(position) is None {
                1int
            } else {
                0int
            })
        },
{
    if let Some(reason) = check_deposit(vault.is_paused, position, &user, amount) {
        return Err(reason);
    }
    let mut current = match *position {
        Some(p) => p,
        None => {
            vault.total_users = vault.total_users + 1;
            UserDeposit {
                user,
                deposit_amount: 0,
                yield_earned: 0,
                last_yield_update: current_time,
                bump,
            }
        },
    };
    let pending = current.settle(vault.yield_rate, current_time);
    current.deposit_amount = current.deposit_amount + amount;
    vault.total_deposits = vault.total_deposits + amount;
    vault.total_yield_generated = vault.total_yield_generated.saturating_add(pending);
    vault.last_yield_calculation = current_time;
    *position = Some(current);
    Ok(())
}

/// Withdraws `amount` for `user`.
///
/// Refused as `withdrawal_rejection` says; in particular a withdrawal of
/// more than the principal and the pending yield is refused.
pub fn withdraw_sol(
    vault: &mut BasicVaultState,
    position: &mut Option<UserDeposit>,
    user: Identity,
    amount: u64,
    current_time: i64,
) -> (result: Result<(), VaultError>)
    requires
        withdrawal_rejection(
            old(vault).is_paused,
            *old(position),
            user,
            amount,
            old(vault).yield_rate,
            current_time,
        ) is None ==> old(position)->0.settlement_fits(old(vault).yield_rate, current_time),
    ensures
        result == match withdrawal_rejection(
            old(vault).is_paused,
            *old(position),
            user,
            amount,
            old(vault).yield_rate,
            current_time,
        ) {
            Some(reason) => Err(reason),
            None => Ok(()),
        },
        result is Err ==> *final(vault) == *old(vault) && *final(position) == *old(position),
        result is Ok ==> {
            let after = withdrawn(*old(vault), old(position)->0, amount, current_time);
            &&& *final(vault) == after.0
            &&& *final(position) == Some(after.1)
        },
{
    if let Some(reason) = check_withdrawal(
        vault.is_paused,
        position,
        &user,
        amount,
        vault.yield_rate,
        current_time,
    ) {
        return Err(reason);
    }
    let mut current = match *position {
        Some(p) => p,
        None => { return Err(VaultError::Unauthorized); },
    };
    let pending = current.settle(vault.yield_rate, current_time);
    current.deposit_amount = current.deposit_amount.saturating_sub(amount);
    vault.total_deposits = vault.total_deposits.saturating_sub(amount);
    vault.total_yield_generated = vault.total_yield_generated.saturating_add(pending);
    vault.last_yield_calculation = current_time;
    *position = Some(current);
    Ok(())
}

/// Claims for `user` all the yield of the position, recorded and pending,
/// and returns how much that is.
///
/// Refused as `claim_rejection` says. Otherwise the position is left without
/// yield, settled at `current_time`.
pub fn claim_yield(
    vault: &mut BasicVaultState,
    position: &mut Option<UserDeposit>,
    user: Identity,
    current_time: i64,
) -> (result: Result<u64, VaultError>)
    requires
        claim_rejection(
            old(vault).is_paused,
            *old(position),
            user,
            old(vault).yield_rate,
            current_time,
        ) is None ==> old(position)->0.settlement_fits(old(vault).yield_rate, current_time),
    ensures
        result == match claim_rejection(
            old(vault).is_paused,
            *old(position),
            user,
            old(vault).yield_rate,
            current_time,
        ) {
            Some(reason) => Err::<u64, VaultError>(reason),
            None => Ok(old(position)->0.claimable(old(vault).yield_rate, current_time) as u64),
        },
        result is Err ==> *final(vault) == *old(vault) && *final(position) == *old(position),
        result is Ok ==> {
            let after = claimed(*old(vault), old(position)->0, current_time);
            &&& *final(vault) == after.0
            &&& *final(position) == Some(after.1)
            &&& final(position)->0.yield_earned == 0
            &&& final(position)->0.last_yield_update == current_time
            &&& result->Ok_0 > 0
        },
{
    if let Some(reason) = check_claim(
        vault.is_paused,
        position,
        &user,
        vault.yield_rate,
        current_time,
    ) {
        return Err(reason);
    }
    let mut current = match *position {
        Some(p) => p,
        None => { return Err(VaultError::Unauthorized); },
    };
    let _ = current.settle(vault.yield_rate, current_time);
    let total_yield = current.yield_earned;
    current.yield_earned = 0;
    vault.total_yield_generated = vault.total_yield_generated.saturating_sub(total_yield);
    vault.last_yield_calculation = current_time;
    *position = Some(current);
    Ok(total_yield)
}

/// Pauses the vault, if `caller` is its authority. Pausing a paused vault
/// succeeds and changes nothing.
pub fn pause_vault(vault: &mut BasicVaultState, caller: Identity) -> (result: Result<
    (),
    VaultError,
>)
    ensures
        result == if caller == old(vault).authority {
            Ok(())
        } else {
            Err::<(), VaultError>(VaultError::Unauthorized)
        },
        result is Ok ==> *final(vault) == old(vault).paused(),
        result is Err ==> *final(vault) == *old(vault),
{
    if !is_authority(&vault.authority, &caller) {
        return Err(VaultError::Unauthorized);
    }
    vault.is_paused = true;
    Ok(())
}

/// Resumes the vault, if `caller` is its authority. Resuming a running vault
/// succeeds and changes nothing.
pub fn resume_vault(vault: &mut BasicVaultState, caller: Identity) -> (result: Result<
    (),
    VaultError,
>)
    ensures
        result == if caller == old(vault).authority {
            Ok(())
        } else {
            Err::<(), VaultError>(VaultError::Unauthorized)
        },
        result is Ok ==> *final(vault) == old(vault).resumed(),
        result is Err ==> *final(vault) == *old(vault),
{
    if !is_authority(&vault.authority, &caller) {
        return Err(VaultError::Unauthorized);
    }
    vault.is_paused = false;
    Ok(())
}

/// In a vault just opened, a first deposit opens the depositor's position
/// and is counted as one depositor, a second deposit of the same depositor
/// is not counted again, and the vault's principal is the sum of the two
/// amounts.
pub proof fn lemma_depositor_counted_once(
    authority: Identity,
    user: Identity,
    bump: u8,
    opened_at: i64,
    first_amount: u64,
    first_time: i64,
    second_amount: u64,
    second_time: i64,
)
    requires
        first_amount > 0,
        second_amount > 0,
        first_amount + second_amount <= u64::MAX,
    ensures
        ({
            let vault = BasicVaultState::opened(authority, bump, opened_at);
            let first = deposited(vault, None, user, bump, first_amount, first_time);
            let second = deposited(first.0, Some(first.1), user, bump, second_amount, second_time);
            &&& deposit_rejection(vault.is_paused, None, user, first_amount) is None
            &&& deposit_fits(
                vault.total_deposits,
                vault.total_users,
                None,
                first_amount,
                vault.yield_rate,
                first_time,
            )
            &&& first.0.total_deposits == first_amount
            &&& first.0.total_users == 1
            &&& first.1.user == user
            &&& first.1.deposit_amount == first_amount
            &&& deposit_rejection(first.0.is_paused, Some(first.1), user, second_amount) is None
            &&& deposit_fits(
                first.0.total_deposits,
                first.0.total_users,
                Some(first.1),
                second_amount,
                first.0.yield_rate,
                second_time,
            )
            &&& second.0.total_deposits == first_amount + second_amount
            &&& second.0.total_users == 1
            &&& second.1.deposit_amount == first_amount + second_amount
        }),
{
}

/// A vault whose principal is the sum of its positions' principals stays so
/// under a deposit into one of the positions, under a first deposit, which
/// adds a position, under a claim, and under a withdrawal of no more than
/// the position's principal. (A withdrawal that reaches into pending yield
/// takes from the vault's principal what it does not take from the
/// position's.)
pub proof fn lemma_principal_stays_sum_of_positions(
    vault: BasicVaultState,
    positions: Seq<UserDeposit>,
    index: int,
    newcomer: Identity,
    bump: u8,
    amount: u64,
    current_time: i64,
)
    requires
        vault.total_deposits == principal_sum(positions),
        0 <= index < positions.len(),
    ensures
        deposit_fits(
            vault.total_deposits,
            vault.total_users,
            Some(positions[index]),
            amount,
            vault.yield_rate,
            current_time,
        ) ==> ({
            let after = deposited(
                vault,
                Some(positions[index]),
                positions[index].user,
                bump,
                amount,
                current_time,
            );
            after.0.total_deposits == principal_sum(positions.update(index, after.1))
        }),
        deposit_fits(
            vault.total_deposits,
            vault.total_users,
            None,
            amount,
            vault.yield_rate,
            current_time,
        ) ==> ({
            let after = deposited(vault, None, newcomer, bump, amount, current_time);
            after.0.total_deposits == principal_sum(positions.push(after.1))
        }),
        amount <= positions[index].deposit_amount ==> ({
            let after = withdrawn(vault, positions[index], amount, current_time);
            after.0.total_deposits == principal_sum(positions.update(index, after.1))
        }),
        ({
            let after = claimed(vault, positions[index], current_time);
            after.0.total_deposits == principal_sum(positions.update(index, after.1))
        }),
{
    let held = positions[index];
    lemma_principal_sum_update(
        positions,
        index,
        held.after_deposit(amount, vault.yield_rate, current_time),
    );
    lemma_principal_sum_update(
        positions,
        index,
        held.after_withdrawal(amount, vault.yield_rate, current_time),
    );
    lemma_principal_sum_update(positions, index, held.after_claim(current_time));
    lemma_principal_sum_push(
        positions,
        deposited(vault, None, newcomer, bump, amount, current_time).1,
    );
    lemma_principal_sum_bounds(positions, index);
}

/// Once the vault is paused it refuses deposits, withdrawals and claims
/// alike; once resumed it judges them as a vault that was never paused.
/// Pausing twice is pausing once, and so for resuming.
pub proof fn lemma_pause_and_resume(
    vault: BasicVaultState,
    position: Option<UserDeposit>,
    user: Identity,
    amount: u64,
    current_time: i64,
)
    ensures
        deposit_rejection(vault.paused().is_paused, position, user, amount) == Some(
            VaultError::VaultPaused,
        ),
        withdrawal_rejection(
            vault.paused().is_paused,
            position,
            user,
            amount,
            vault.paused().yield_rate,
            current_time,
        ) == Some(VaultError::VaultPaused),
        claim_rejection(
            vault.paused().is_paused,
            position,
            user,
            vault.paused().yield_rate,
            current_time,
        ) == Some(VaultError::VaultPaused),
        vault.paused().resumed() == vault.resumed(),
        !vault.is_paused ==> vault.paused().resumed() == vault,
        deposit_rejection(vault.paused().resumed().is_paused, position, user, amount)
            == deposit_rejection(false, position, user, amount),
        withdrawal_rejection(
            vault.paused().resumed().is_paused,
            position,
            user,
            amount,
            vault.yield_rate,
            current_time,
        ) == withdrawal_rejection(false, position, user, amount, vault.yield_rate, current_time),
        claim_rejection(
            vault.paused().resumed().is_paused,
            position,
            user,
            vault.yield_rate,
            current_time,
        ) == claim_rejection(false, position, user, vault.yield_rate, current_time),
        vault.paused().paused() == vault.paused(),
        vault.resumed().resumed() == vault.resumed(),
{
}

} // verus!
