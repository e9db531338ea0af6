//! The plain vault: deposits and withdrawals without yield. Each depositor
//! can take out what they put in and no more.
use vstd::prelude::*;
use crate::identity::Identity;

verus! {

/// The record of a plain vault.
#[derive(Clone, Copy, Debug, PartialEq, Eq)]
pub struct Vault {
    /// Who opened the vault.
    pub authority: Identity,
    /// What all depositors hold in the vault, in base units.
    pub total_deposits: u64,
    /// How many depositors have ever deposited.
    pub total_users: u64,
}

/// What one depositor holds in a plain vault.
#[derive(Clone, Copy, Debug, PartialEq, Eq)]
pub struct UserDeposit {
    /// The depositor.
    pub user: Identity,
    /// What the depositor holds, in base units.
    pub amount: u64,
}

/// Why a plain vault refuses a withdrawal.
#[derive(Clone, Copy, Debug, PartialEq, Eq, Structural, Hash)]
pub enum VaultError {
    /// More was asked for than the depositor holds.
    InsufficientDeposit,
}

impl VaultError {
    /// The text that `message` returns.
    pub open spec fn message_text(self) -> Seq<char> {
        "Insufficient deposit amount"@
    }

    /// A short description of the reason, for people.
    pub fn message(&self) -> (text: &'static str)
        ensures
            text@ == self.message_text(),
    {
        "Insufficient deposit amount"
    }
}

/// Whether the counters can take a deposit of `amount`: the vault's total
/// and the depositor's holding, or, for a first deposit, the number of
/// depositors.
pub open spec fn deposit_fits(vault: Vault, user_deposit: Option<UserDeposit>, amount: u64) -> bool {
    &&& vault.total_deposits + amount <= u64::MAX
    &&& match user_deposit {
        Some(held) => held.amount + amount <= u64::MAX,
        None => vault.total_users < u64::MAX,
    }
}

/// Whether the counters can take a deposit of `amount`; `deposit_sol` asks
/// for it.
pub fn deposit_would_fit(vault: &Vault, user_deposit: &Option<UserDeposit>, amount: u64) -> (fits:
    bool)
    ensures
        fits == deposit_fits(*vault, *user_deposit, amount),
{
    if vault.total_deposits.checked_add(amount).is_none() {
        return false;
    }
    match user_deposit {
        Some(held) => held.amount.checked_add(amount).is_some(),
        None => vault.total_users < u64::MAX,
    }
}

/// Opens the vault for `authority`: empty, without depositors.
pub fn initialize_vault(vault: &mut Vault, authority: Identity)
    ensures
        *final(vault) == (Vault { authority, total_deposits: 0, total_users: 0 }),
{
    vault.authority = authority;
    vault.total_deposits = 0;
    vault.total_users = 0;
}

/// Deposits `amount` for `user`: the vault's total and the depositor's
/// holding grow by `amount`, and a depositor without a record gets one and
/// is counted.
pub fn deposit_sol(
    vault: &mut Vault,
    user_deposit: &mut Option<UserDeposit>,
    user: Identity,
    amount: u64,
)
    requires
        deposit_fits(*old(vault), *old(user_deposit), amount),
    ensures
        final(vault).authority == old(vault).authority,
        final(vault).total_deposits == old(vault).total_deposits + amount,
        match *old(user_deposit) {
            Some(held) => {
                &&& final(vault).total_users == old(vault).total_users
                &&& *final(user_deposit) == Some(
                    UserDeposit { amount: (held.amount + amount) as u64, ..held },
                )
            },
            None => {
                &&& final(vault).total_users == old(vault).total_users + 1
                &&& *final(user_deposit) == Some(UserDeposit { user, amount })
            },
        },
{
    vault.total_deposits = vault.total_deposits + amount;
    let held = match *user_deposit {
        Some(held) => UserDeposit { user: held.user, amount: held.amount + amount },
        None => {
            vault.total_users = vault.total_users + 1;
            UserDeposit { user, amount }
        },
    };
    *user_deposit = Some(held);
}

/// Withdraws `amount` from what the depositor holds. Refused if and only if
/// the depositor holds less; otherwise the holding and the vault's total
/// shrink by `amount`.
pub fn withdraw_sol(vault: &mut Vault, user_deposit: &mut UserDeposit, amount: u64) -> (result:
    Result<(), VaultError>)
    requires
        amount <= old(user_deposit).amount ==> amount <= old(vault).total_deposits,
    ensures
        result == if old(user_deposit).amount >= amount {
            Ok(())
        } else {
            Err::<(), VaultError>(VaultError::InsufficientDeposit)
        },
        result is Err ==> *final(vault) == *old(vault) && *final(user_deposit) == *old(
            user_deposit,
        ),
        result is Ok ==> {
            &&& *final(vault) == (Vault {
                total_deposits: (old(vault).total_deposits - amount) as u64,
                ..*old(vault)
            })
            &&& *final(user_deposit) == (UserDeposit {
                amount: (old(user_deposit).amount - amount) as u64,
                ..*old(user_deposit)
            })
        },
{
    if user_deposit.amount < amount {
        return Err(VaultError::InsufficientDeposit);
    }
    vault.total_deposits = vault.total_deposits - amount;
    user_deposit.amount = user_deposit.amount - amount;
    Ok(())
}

} // verus!
