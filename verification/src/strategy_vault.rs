//! The strategy vault: a vault whose depositors earn yield as in the basic
//! vault, and in which owners create named strategies and execute them no
//! more often than each strategy's interval allows.
//!
//! What an execution has gained or lost is not decided here: the caller
//! obtains it and hands it in, and it is added to the strategy and to the
//! vault as it comes.
use vstd::prelude::*;
use vstd::string::StrSliceExecFns;
use crate::errors::VaultError;
use crate::guard::{is_authority, owns_strategy};
use crate::identity::Identity;
use crate::ledger::{
    check_claim, check_deposit, check_withdrawal, claim_rejection, deposit_fits,
    deposit_rejection, lemma_principal_sum_bounds, lemma_principal_sum_push,
    lemma_principal_sum_update, position_or_opened, principal_sum, withdrawal_rejection,
};
use crate::state::{StrategyConfig, StrategyState, StrategyVaultState, UserDeposit};

verus! {

/// The largest position size and the largest yield target: 10000 basis
/// points, that is 100%.
pub const MAX_BPS: u64 = 10_000;

impl StrategyVaultState {
    /// The vault with every operation switched off.
    pub open spec fn paused(self) -> StrategyVaultState {
        StrategyVaultState { is_paused: true, ..self }
    }

    /// The vault with every operation switched on.
    pub open spec fn resumed(self) -> StrategyVaultState {
        StrategyVaultState { is_paused: false, ..self }
    }
}

impl StrategyState {
    /// What holds of every strategy from its creation on: it has a name, a
    /// description and two tokens; its position size and its yield target
    /// are above zero and at most 100%; its interval is above zero; its time
    /// frame is a known one.
    pub open spec fn well_formed(self) -> bool {
        &&& self.name@.len() > 0
        &&& self.description@.len() > 0
        &&& self.base_token@.len() > 0
        &&& self.quote_token@.len() > 0
        &&& 0 < self.position_size <= 10_000
        &&& 0 < self.yield_target <= 10_000
        &&& self.execution_interval > 0
        &&& known_time_frame(self.time_frame@)
    }
}

/// Whether `time_frame` is one of the time frames that a strategy can have.
pub open spec fn known_time_frame(time_frame: Seq<char>) -> bool {
    ||| time_frame == "1m"@
    ||| time_frame == "5m"@
    ||| time_frame == "15m"@
    ||| time_frame == "30m"@
    ||| time_frame == "1h"@
    ||| time_frame == "4h"@
    ||| time_frame == "1d"@
    ||| time_frame == "1w"@
}

/// Why a configuration is refused, if it is: the first that holds of: the
/// vault is paused; the name, the description or one of the two tokens is
/// empty; the position size is zero or above 100%; so is the yield target;
/// the execution interval is zero; the time frame is not a known one.
pub open spec fn creation_rejection(is_paused: bool, config: StrategyConfig) -> Option<VaultError> {
    if is_paused {
        Some(VaultError::VaultPaused)
    } else if config.name@.len() == 0 || config.description@.len() == 0
        || config.base_token@.len() == 0 || config.quote_token@.len() == 0 {
        Some(VaultError::InvalidStrategyConfig)
    } else if !(0 < config.position_size <= 10_000) {
        Some(VaultError::InvalidPositionSize)
    } else if !(0 < config.yield_target <= 10_000) {
        Some(VaultError::InvalidYieldTarget)
    } else if config.execution_interval == 0 {
        Some(VaultError::InvalidStrategyConfig)
    } else if !known_time_frame(config.time_frame@) {
        Some(VaultError::InvalidTimeFrame)
    } else {
        None
    }
}

/// Whether a strategy last executed at `last_execution` may be executed at
/// `current_time`: always before its first execution, and afterwards once
/// its interval has passed.
pub open spec fn execution_due(last_execution: i64, execution_interval: u64, current_time: i64) -> bool {
    last_execution > 0 ==> current_time >= last_execution + execution_interval
}

/// Why an execution is refused, if it is: the first that holds of: the vault
/// is paused; the record is not the strategy asked for; it is not the
/// caller's; it is not active; it was executed too recently.
pub open spec fn execution_rejection(
    is_paused: bool,
    strategy: StrategyState,
    caller: Identity,
    strategy_id: Seq<char>,
    current_time: i64,
) -> Option<VaultError> {
    if is_paused {
        Some(VaultError::VaultPaused)
    } else if strategy.id@ != strategy_id {
        Some(VaultError::StrategyNotFound)
    } else if strategy.owner != caller {
        Some(VaultError::Unauthorized)
    } else if !strategy.is_active {
        Some(VaultError::StrategyNotActive)
    } else if !execution_due(strategy.last_execution, strategy.execution_interval, current_time) {
        Some(VaultError::StrategyExecutionFailed)
    } else {
        None
    }
}

/// Whether the strategy and the vault can record `realized_pnl`.
pub open spec fn execution_fits(vault_pnl: i64, strategy_pnl: i64, realized_pnl: i64) -> bool {
    &&& i64::MIN <= vault_pnl + realized_pnl <= i64::MAX
    &&& i64::MIN <= strategy_pnl + realized_pnl <= i64::MAX
}

/// The vault and the strategy after an execution at `current_time` that is
/// not refused and that realized `realized_pnl`.
pub open spec fn executed(
    vault: StrategyVaultState,
    strategy: StrategyState,
    current_time: i64,
    realized_pnl: i64,
) -> (StrategyVaultState, StrategyState) {
    (
        StrategyVaultState { total_pnl: (vault.total_pnl + realized_pnl) as i64, ..vault },
        StrategyState {
            last_execution: current_time,
            total_pnl: (strategy.total_pnl + realized_pnl) as i64,
            ..strategy
        },
    )
}

/// The numbers of the stand-in for a market: 1000, and ten more or less for
/// every second by which the time, within its span of 100 seconds, is past
/// or short of the 50th. Before the year 1970 the seconds count backwards
/// from zero.
pub open spec fn simulated_pnl(current_time: int) -> int {
    let phase = if current_time >= 0 {
        current_time % 100
    } else {
        -((-current_time) % 100)
    };
    1000 + (phase - 50) * 10
}

/// The vault and the position after a deposit of `amount` that is not
/// refused: the position is opened if there was none and then counted as a
/// new depositor; its pending yield is recorded, in the position and in the
/// vault; the amount is added to the principal of both.
pub open spec fn deposited(
    vault: StrategyVaultState,
    position: Option<UserDeposit>,
    user: Identity,
    bump: u8,
    amount: u64,
    current_time: i64,
) -> (StrategyVaultState, UserDeposit) {
    let current = position_or_opened(position, user, bump, current_time);
    let pending = current.pending_yield(vault.yield_rate, current_time);
    (
        StrategyVaultState {
            total_deposits: (vault.total_deposits + amount) as u64,
            total_users: if position is None {
                (vault.total_users + 1) as u32
            } else {
                vault.total_users
            },
            total_yield_generated: vault.total_yield_generated.saturating_add(pending),
            last_yield_calculation: current_time,
            ..vault
        },
        current.after_deposit(amount, vault.yield_rate, current_time),
    )
}

/// The vault and the position after a withdrawal of `amount` that is not
/// refused: the pending yield is recorded, in the position and in the vault;
/// the amount is taken from the principal of both, neither going below zero.
pub open spec fn withdrawn(
    vault: StrategyVaultState,
    position: UserDeposit,
    amount: u64,
    current_time: i64,
) -> (StrategyVaultState, UserDeposit) {
    let pending = position.pending_yield(vault.yield_rate, current_time);
    (
        StrategyVaultState {
            total_deposits: vault.total_deposits.saturating_sub(amount),
            total_yield_generated: vault.total_yield_generated.saturating_add(pending),
            last_yield_calculation: current_time,
            ..vault
        },
        position.after_withdrawal(amount, vault.yield_rate, current_time),
    )
}

/// The vault and the position after a claim that is not refused: the
/// position has no yield left, and what was claimed, recorded and pending,
/// is taken from the vault's count of yield, which does not go below zero.
pub open spec fn claimed(vault: StrategyVaultState, position: UserDeposit, current_time: i64) -> (
    StrategyVaultState,
    UserDeposit,
) {
    let total_yield = position.claimable(vault.yield_rate, current_time) as u64;
    (
        StrategyVaultState {
            total_yield_generated: vault.total_yield_generated.saturating_sub(total_yield),
            last_yield_calculation: current_time,
            ..vault
        },
        position.after_claim(current_time),
    )
}

/// Whether two texts are the same, character by character.
fn same_text(left: &str, right: &str) -> (same: bool)
    ensures
        same == (left@ == right@),
{
    let length = left.unicode_len();
    if length != right.unicode_len() {
        return false;
    }
    let mut i: usize = 0;
    while i < length
        invariant
            i <= length,
            length == left@.len(),
            length == right@.len(),
            forall|k: int| 0 <= k < i ==> left@[k] == right@[k],
        decreases length - i,
    {
        if left.get_char(i) != right.get_char(i) {
            return false;
        }
        i += 1;
    }
    assert(left@ =~= right@);
    true
}

/// Whether `time_frame` is one of the time frames that a strategy can have:
/// 1, 5, 15 or 30 minutes, 1 or 4 hours, a day or a week.
pub fn is_valid_time_frame(time_frame: &str) -> (valid: bool)
    ensures
        valid == known_time_frame(time_frame@),
{
    same_text(time_frame, "1m") || same_text(time_frame, "5m") || same_text(time_frame, "15m")
        || same_text(time_frame, "30m") || same_text(time_frame, "1h") || same_text(
        time_frame,
        "4h",
    ) || same_text(time_frame, "1d") || same_text(time_frame, "1w")
}

/// Why a configuration is refused, if it is.
pub fn check_strategy_config(is_paused: bool, config: &StrategyConfig) -> (rejection: Option<
    VaultError,
>)
    ensures
        rejection == creation_rejection(is_paused, *config),
{
    if is_paused {
        return Some(VaultError::VaultPaused);
    }
    if config.name.as_str().is_empty() || config.description.as_str().is_empty()
        || config.base_token.as_str().is_empty() || config.quote_token.as_str().is_empty() {
        return Some(VaultError::InvalidStrategyConfig);
    }
    if !(config.position_size > 0 && config.position_size <= MAX_BPS) {
        return Some(VaultError::InvalidPositionSize);
    }
    if !(config.yield_target > 0 && config.yield_target <= MAX_BPS) {
        return Some(VaultError::InvalidYieldTarget);
    }
    if config.execution_interval == 0 {
        return Some(VaultError::InvalidStrategyConfig);
    }
    if !is_valid_time_frame(config.time_frame.as_str()) {
        return Some(VaultError::InvalidTimeFrame);
    }
    None
}

/// Why an execution is refused, if it is. The caller asks this before it
/// goes to the market, and goes there only where the answer is `None`.
pub fn check_execution(
    is_paused: bool,
    strategy: &StrategyState,
    caller: &Identity,
    strategy_id: &String,
    current_time: i64,
) -> (rejection: Option<VaultError>)
    ensures
        rejection == execution_rejection(is_paused, *strategy, *caller, strategy_id@, current_time),
{
    if is_paused {
        return Some(VaultError::VaultPaused);
    }
    if !(strategy.id == *strategy_id) {
        return Some(VaultError::StrategyNotFound);
    }
    if !owns_strategy(strategy, caller) {
        return Some(VaultError::Unauthorized);
    }
    if !strategy.is_active {
        return Some(VaultError::StrategyNotActive);
    }
    if strategy.last_execution > 0 {
        let earliest: i128 = strategy.last_execution as i128 + strategy.execution_interval as i128;
        if (current_time as i128) < earliest {
            return Some(VaultError::StrategyExecutionFailed);
        }
    }
    None
}

/// Whether the strategy and the vault can record `realized_pnl`;
/// `execute_strategy` asks for it wherever it does not refuse the execution.
pub fn execution_would_fit(vault_pnl: i64, strategy_pnl: i64, realized_pnl: i64) -> (fits: bool)
    ensures
        fits == execution_fits(vault_pnl, strategy_pnl, realized_pnl),
{
    vault_pnl.checked_add(realized_pnl).is_some() && strategy_pnl.checked_add(
        realized_pnl,
    ).is_some()
}

/// Opens the strategy vault for `authority` at `current_time`.
pub fn initialize_strategy_vault(
    vault: &mut StrategyVaultState,
    authority: Identity,
    bump: u8,
    current_time: i64,
)
    ensures
        *final(vault) == StrategyVaultState::opened(authority, bump, current_time),
{
    vault.initialize(authority, bump, current_time);
}

/// Creates the strategy that `strategy_config` describes, for `owner`.
///
/// Refused as `creation_rejection` says. Otherwise the new strategy is
/// returned: it goes by its name, is active and was never executed; and the
/// vault counts one strategy more.
pub fn create_strategy(
    vault: &mut StrategyVaultState,
    owner: Identity,
    strategy_config: StrategyConfig,
    bump: u8,
    current_time: i64,
) -> (result: Result<StrategyState, VaultError>)
    requires
        creation_rejection(old(vault).is_paused, strategy_config) is None ==> old(
            vault,
        ).active_strategies < u32::MAX,
    ensures
        result == match creation_rejection(old(vault).is_paused, strategy_config) {
            Some(reason) => Err::<StrategyState, VaultError>(reason),
            None => Ok(
                StrategyState::configured(
                    strategy_config.name,
                    owner,
                    strategy_config,
                    bump,
                    current_time,
                ),
            ),
        },
        result is Err ==> *final(vault) == *old(vault),
        result is Ok ==> *final(vault) == (StrategyVaultState {
            active_strategies: (old(vault).active_strategies + 1) as u32,
            ..*old(vault)
        }),
        result matches Ok(strategy) ==> strategy.well_formed() && strategy.is_active,
{
    if let Some(reason) = check_strategy_config(vault.is_paused, &strategy_config) {
        return Err(reason);
    }
    let id = strategy_config.name.clone();
    let strategy = StrategyState {
        id,
        owner,
        name: strategy_config.name,
        description: strategy_config.description,
        base_token: strategy_config.base_token,
        quote_token: strategy_config.quote_token,
        position_size: strategy_config.position_size,
        time_frame: strategy_config.time_frame,
        execution_interval: strategy_config.execution_interval,
        yield_target: strategy_config.yield_target,
        yield_accumulation: strategy_config.yield_accumulation,
        is_active: true,
        created_at: current_time,
        last_execution: 0,
        total_pnl: 0,
        entry_conditions: strategy_config.entry_conditions,
        exit_conditions: strategy_config.exit_conditions,
        bump,
    };
    vault.active_strategies = vault.active_strategies + 1;
    Ok(strategy)
}

/// Records an execution of `strategy` at `current_time` that realized
/// `realized_pnl`.
///
/// Refused as `execution_rejection` says. Otherwise the strategy's last
/// execution is `current_time`, and `realized_pnl` is added as it is to the
/// strategy's and to the vault's profit and loss.
pub fn execute_strategy(
    vault: &mut StrategyVaultState,
    strategy: &mut StrategyState,
    caller: Identity,
    strategy_id: String,
    current_time: i64,
    realized_pnl: i64,
) -> (result: Result<(), VaultError>)
    requires
        execution_rejection(
            old(vault).is_paused,
            *old(strategy),
            caller,
            strategy_id@,
            current_time,
        ) is None ==> execution_fits(old(vault).total_pnl, old(strategy).total_pnl, realized_pnl),
    ensures
        result == match execution_rejection(
            old(vault).is_paused,
            *old(strategy),
            caller,
            strategy_id@,
            current_time,
        ) {
            Some(reason) => Err(reason),
            None => Ok(()),
        },
        result is Err ==> *final(vault) == *old(vault) && *final(strategy) == *old(strategy),
        result is Ok ==> {
            let after = executed(*old(vault), *old(strategy), current_time, realized_pnl);
            &&& *final(vault) == after.0
            &&& *final(strategy) == after.1
        },
{
    if let Some(reason) = check_execution(
        vault.is_paused,
        strategy,
        &caller,
        &strategy_id,
        current_time,
    ) {
        return Err(reason);
    }
    strategy.last_execution = current_time;
    strategy.total_pnl = strategy.total_pnl + realized_pnl;
    vault.total_pnl = vault.total_pnl + realized_pnl;
    Ok(())
}

/// Deposits `amount` for `user`.
///
/// Refused as `deposit_rejection` says. Otherwise the vault's principal grows
/// by exactly `amount`, and the number of depositors by one if and only if
/// `user` had no position. A position that the deposit opens carries `bump`;
/// one that exists keeps its own.
pub fn deposit_strategy_sol(
    vault: &mut StrategyVaultState,
    position: &mut Option<UserDeposit>,
    user: Identity,
    bump: u8,
    amount: u64,
    current_time: i64,
) -> (result: Result<(), VaultError>)
    requires
        deposit_rejection(old(vault).is_paused, *old(position), user, amount) is None
            ==> deposit_fits(
            old(vault).total_deposits,
            old(vault).total_users,
            *old(position),
            amount,
            old(vault).yield_rate,
            current_time,
        ),
    ensures
        result == match deposit_rejection(old(vault).is_paused, *old(position), user, amount) {
            Some(reason) => Err(reason),
            None => Ok(()),
        },
        result is Err ==> *final(vault) == *old(vault) && *final(position) == *old(position),
        result is Ok ==> {
            let after = deposited(*old(vault), *old(position), user, bump, amount, current_time);
            &&& *final(vault) == after.0
            &&& *final(position) == Some(after.1)
            &&& final(vault).total_deposits == old(vault).total_deposits + amount
            &&& final(vault).total_users == old(vault).total_users + (if *old(position) is None {
                1int
            } else {
                0int
            })
        },
{
    if let Some(reason) = check_deposit(vault.is_paused, position, &user, amount) {
        return Err(reason);
    }
    let mut current = match *position {
        Some(p) => p,
        None => {
            vault.total_users = vault.total_users + 1;
            UserDeposit {
                user,
                deposit_amount: 0,
                yield_earned: 0,
                last_yield_update: current_time,
                bump,
            }
        },
    };
    let pending = current.settle(vault.yield_rate, current_time);
    current.deposit_amount = current.deposit_amount + amount;
    vault.total_deposits = vault.total_deposits + amount;
    vault.total_yield_generated = vault.total_yield_generated.saturating_add(pending);
    vault.last_yield_calculation = current_time;
    *position = Some(current);
    Ok(())
}

/// Withdraws `amount` for `user`.
///
/// Refused as `withdrawal_rejection` says; in particular a withdrawal of
/// more than the principal and the pending yield is refused.
pub fn withdraw_strategy_sol(
    vault: &mut StrategyVaultState,
    position: &mut Option<UserDeposit>,
    user: Identity,
    amount: u64,
    current_time: i64,
) -> (result: Result<(), VaultError>)
    requires
        withdrawal_rejection(
            old(vault).is_paused,
            *old(position),
            user,
            amount,
            old(vault).yield_rate,
            current_time,
        ) is None ==> old(position)->0.settlement_fits(old(vault).yield_rate, current_time),
    ensures
        result == match withdrawal_rejection(
            old(vault).is_paused,
            *old(position),
            user,
            amount,
            old(vault).yield_rate,
            current_time,
        ) {
            Some(reason) => Err(reason),
            None => Ok(()),
        },
        result is Err ==> *final(vault) == *old(vault) && *final(position) == *old(position),
        result is Ok ==> {
            let after = withdrawn(*old(vault), old(position)->0, amount, current_time);
            &&& *final(vault) == after.0
            &&& *final(position) == Some(after.1)
        },
{
    if let Some(reason) = check_withdrawal(
        vault.is_paused,
        position,
        &user,
        amount,
        vault.yield_rate,
        current_time,
    ) {
        return Err(reason);
    }
    let mut current = match *position {
        Some(p) => p,
        None => { return Err(VaultError::Unauthorized); },
    };
    let pending = current.settle(vault.yield_rate, current_time);
    current.deposit_amount = current.deposit_amount.saturating_sub(amount);
    vault.total_deposits = vault.total_deposits.saturating_sub(amount);
    vault.total_yield_generated = vault.total_yield_generated.saturating_add(pending);
    vault.last_yield_calculation = current_time;
    *position = Some(current);
    Ok(())
}

/// Claims for `user` all the yield of the position, recorded and pending,
/// and returns how much that is.
///
/// Refused as `claim_rejection` says. Otherwise the position is left without
/// yield, settled at `current_time`.
pub fn claim_strategy_yield(
    vault: &mut StrategyVaultState,
    position: &mut Option<UserDeposit>,
    user: Identity,
    current_time: i64,
) -> (result: Result<u64, VaultError>)
    requires
        claim_rejection(
            old(vault).is_paused,
            *old(position),
            user,
            old(vault).yield_rate,
            current_time,
        ) is None ==> old(position)->0.settlement_fits(old(vault).yield_rate, current_time),
    ensures
        result == match claim_rejection(
            old(vault).is_paused,
            *old(position),
            user,
            old(vault).yield_rate,
            current_time,
        ) {
            Some(reason) => Err::<u64, VaultError>(reason),
            None => Ok(old(position)->0.claimable(old(vault).yield_rate, current_time) as u64),
        },
        result is Err ==> *final(vault) == *old(vault) && *final(position) == *old(position),
        result is Ok ==> {
            let after = claimed(*old(vault), old(position)->0, current_time);
            &&& *final(vault) == after.0
            &&& *final(position) == Some(after.1)
            &&& final(position)->0.yield_earned == 0
            &&& final(position)->0.last_yield_update == current_time
            &&& result->Ok_0 > 0
        },
{
    if let Some(reason) = check_claim(
        vault.is_paused,
        position,
        &user,
        vault.yield_rate,
        current_time,
    ) {
        return Err(reason);
    }
    let mut current = match *position {
        Some(p) => p,
        None => { return Err(VaultError::Unauthorized); },
    };
    let _ = current.settle(vault.yield_rate, current_time);
    let total_yield = current.yield_earned;
    current.yield_earned = 0;
    vault.total_yield_generated = vault.total_yield_generated.saturating_sub(total_yield);
    vault.last_yield_calculation = current_time;
    *position = Some(current);
    Ok(total_yield)
}

/// Pauses the vault, if `caller` is its authority. Pausing a paused vault
/// succeeds and changes nothing.
pub fn pause_strategy_vault(vault: &mut StrategyVaultState, caller: Identity) -> (result: Result<
    (),
    VaultError,
>)
    ensures
        result == if caller == old(vault).authority {
            Ok(())
        } else {
            Err::<(), VaultError>(VaultError::Unauthorized)
        },
        result is Ok ==> *final(vault) == old(vault).paused(),
        result is Err ==> *final(vault) == *old(vault),
{
    if !is_authority(&vault.authority, &caller) {
        return Err(VaultError::Unauthorized);
    }
    vault.is_paused = true;
    Ok(())
}

/// Resumes the vault, if `caller` is its authority. Resuming a running vault
/// succeeds and changes nothing.
pub fn resume_strategy_vault(vault: &mut StrategyVaultState, caller: Identity) -> (result: Result<
    (),
    VaultError,
>)
    ensures
        result == if caller == old(vault).authority {
            Ok(())
        } else {
            Err::<(), VaultError>(VaultError::Unauthorized)
        },
        result is Ok ==> *final(vault) == old(vault).resumed(),
        result is Err ==> *final(vault) == *old(vault),
{
    if !is_authority(&vault.authority, &caller) {
        return Err(VaultError::Unauthorized);
    }
    vault.is_paused = false;
    Ok(())
}

/// A stand-in for the market: the profit or loss of an execution at
/// `current_time`, between -490 and 1490. It reads nothing of the strategy.
pub fn simulate_strategy_execution(strategy_state: &StrategyState, current_time: i64) -> (pnl: i64)
    ensures
        pnl == simulated_pnl(current_time as int),
        -490 <= pnl <= 1490,
{
    let base_pnl: i64 = 1000;
    let volatility: i64 = 500;
    let random_factor: i64 = current_time % 100;
    base_pnl + (random_factor - 50) * volatility / 50
}

/// The known time frames, character by character: one figure and a unit
/// (`1m`, `5m`, `1h`, `4h`, `1d`, `1w`), or two figures and `m` (`15m`,
/// `30m`).
pub proof fn lemma_known_time_frames(time_frame: Seq<char>)
    ensures
        known_time_frame(time_frame) <==> {
            ||| time_frame.len() == 2 && {
                ||| time_frame[0] == '1' && (time_frame[1] == 'm' || time_frame[1] == 'h'
                    || time_frame[1] == 'd' || time_frame[1] == 'w')
                ||| time_frame[0] == '5' && time_frame[1] == 'm'
                ||| time_frame[0] == '4' && time_frame[1] == 'h'
            }
            ||| time_frame.len() == 3 && time_frame[2] == 'm' && {
                ||| time_frame[0] == '1' && time_frame[1] == '5'
                ||| time_frame[0] == '3' && time_frame[1] == '0'
            }
        },
{
    reveal_strlit("1m");
    reveal_strlit("5m");
    reveal_strlit("15m");
    reveal_strlit("30m");
    reveal_strlit("1h");
    reveal_strlit("4h");
    reveal_strlit("1d");
    reveal_strlit("1w");
    if time_frame.len() == 2 {
        assert(time_frame[0] == '1' && time_frame[1] == 'm' ==> time_frame =~= "1m"@);
        assert(time_frame[0] == '5' && time_frame[1] == 'm' ==> time_frame =~= "5m"@);
        assert(time_frame[0] == '1' && time_frame[1] == 'h' ==> time_frame =~= "1h"@);
        assert(time_frame[0] == '4' && time_frame[1] == 'h' ==> time_frame =~= "4h"@);
        assert(time_frame[0] == '1' && time_frame[1] == 'd' ==> time_frame =~= "1d"@);
        assert(time_frame[0] == '1' && time_frame[1] == 'w' ==> time_frame =~= "1w"@);
    }
    if time_frame.len() == 3 {
        assert(time_frame[0] == '1' && time_frame[1] == '5' && time_frame[2] == 'm'
            ==> time_frame =~= "15m"@);
        assert(time_frame[0] == '3' && time_frame[1] == '0' && time_frame[2] == 'm'
            ==> time_frame =~= "30m"@);
    }
}

/// In a vault just opened, a first deposit opens the depositor's position
/// and is counted as one depositor, a second deposit of the same depositor
/// is not counted again, and the vault's principal is the sum of the two
/// amounts.
pub proof fn lemma_depositor_counted_once(
    authority: Identity,
    user: Identity,
    bump: u8,
    opened_at: i64,
    first_amount: u64,
    first_time: i64,
    second_amount: u64,
    second_time: i64,
)
    requires
        first_amount > 0,
        second_amount > 0,
        first_amount + second_amount <= u64::MAX,
    ensures
        ({
            let vault = StrategyVaultState::opened(authority, bump, opened_at);
            let first = deposited(vault, None, user, bump, first_amount, first_time);
            let second = deposited(first.0, Some(first.1), user, bump, second_amount, second_time);
            &&& deposit_rejection(vault.is_paused, None, user, first_amount) is None
            &&& deposit_fits(
                vault.total_deposits,
                vault.total_users,
                None,
                first_amount,
                vault.yield_rate,
                first_time,
            )
            &&& first.0.total_deposits == first_amount
            &&& first.0.total_users == 1
            &&& first.1.user == user
            &&& first.1.deposit_amount == first_amount
            &&& deposit_rejection(first.0.is_paused, Some(first.1), user, second_amount) is None
            &&& deposit_fits(
                first.0.total_deposits,
                first.0.total_users,
                Some(first.1),
                second_amount,
                first.0.yield_rate,
                second_time,
            )
            &&& second.0.total_deposits == first_amount + second_amount
            &&& second.0.total_users == 1
            &&& second.1.deposit_amount == first_amount + second_amount
        }),
{
}

/// A vault whose principal is the sum of its positions' principals stays so
/// under a deposit into one of the positions, under a first deposit, which
/// adds a position, under a claim, and under a withdrawal of no more than
/// the position's principal. (A withdrawal that reaches into pending yield
/// takes from the vault's principal what it does not take from the
/// position's.)
pub proof fn lemma_principal_stays_sum_of_positions(
    vault: StrategyVaultState,
    positions: Seq<UserDeposit>,
    index: int,
    newcomer: Identity,
    bump: u8,
    amount: u64,
    current_time: i64,
)
    requires
        vault.total_deposits == principal_sum(positions),
        0 <= index < positions.len(),
    ensures
        deposit_fits(
            vault.total_deposits,
            vault.total_users,
            Some(positions[index]),
            amount,
            vault.yield_rate,
            current_time,
        ) ==> ({
            let after = deposited(
                vault,
                Some(positions[index]),
                positions[index].user,
                bump,
                amount,
                current_time,
            );
            after.0.total_deposits == principal_sum(positions.update(index, after.1))
        }),
        deposit_fits(
            vault.total_deposits,
            vault.total_users,
            None,
            amount,
            vault.yield_rate,
            current_time,
        ) ==> ({
            let after = deposited(vault, None, newcomer, bump, amount, current_time);
            after.0.total_deposits == principal_sum(positions.push(after.1))
        }),
        amount <= positions[index].deposit_amount ==> ({
            let after = withdrawn(vault, positions[index], amount, current_time);
            after.0.total_deposits == principal_sum(positions.update(index, after.1))
        }),
        ({
            let after = claimed(vault, positions[index], current_time);
            after.0.total_deposits == principal_sum(positions.update(index, after.1))
        }),
{
    let held = positions[index];
    lemma_principal_sum_update(
        positions,
        index,
        held.after_deposit(amount, vault.yield_rate, current_time),
    );
    lemma_principal_sum_update(
        positions,
        index,
        held.after_withdrawal(amount, vault.yield_rate, current_time),
    );
    lemma_principal_sum_update(positions, index, held.after_claim(current_time));
    lemma_principal_sum_push(
        positions,
        deposited(vault, None, newcomer, bump, amount, current_time).1,
    );
    lemma_principal_sum_bounds(positions, index);
}

/// A strategy that was created is well formed, and an execution leaves it
/// so: it changes the time of the last execution and the profit and loss,
/// and nothing of what was configured.
pub proof fn lemma_strategy_stays_well_formed(
    vault: StrategyVaultState,
    owner: Identity,
    config: StrategyConfig,
    bump: u8,
    created_at: i64,
    executed_at: i64,
    realized_pnl: i64,
)
    requires
        creation_rejection(vault.is_paused, config) is None,
    ensures
        ({
            let created = StrategyState::configured(config.name, owner, config, bump, created_at);
            let after = executed(vault, created, executed_at, realized_pnl).1;
            &&& created.well_formed()
            &&& created.is_active
            &&& created.last_execution == 0
            &&& created.total_pnl == 0
            &&& after.well_formed()
            &&& after.is_active
            &&& after.id == created.id
            &&& after.owner == created.owner
        }),
{
}

/// A paused vault refuses every creation and every execution; once resumed
/// it judges them as a vault that was never paused. Pausing twice is pausing
/// once, and so for resuming.
pub proof fn lemma_pause_and_resume(
    vault: StrategyVaultState,
    config: StrategyConfig,
    strategy: StrategyState,
    caller: Identity,
    strategy_id: Seq<char>,
    current_time: i64,
)
    ensures
        creation_rejection(vault.paused().is_paused, config) == Some(VaultError::VaultPaused),
        execution_rejection(vault.paused().is_paused, strategy, caller, strategy_id, current_time)
            == Some(VaultError::VaultPaused),
        execution_rejection(
            vault.paused().resumed().is_paused,
            strategy,
            caller,
            strategy_id,
            current_time,
        ) == execution_rejection(false, strategy, caller, strategy_id, current_time),
        vault.paused().resumed() == vault.resumed(),
        !vault.is_paused ==> vault.paused().resumed() == vault,
        vault.paused().paused() == vault.paused(),
        vault.resumed().resumed() == vault.resumed(),
{
}

/// A strategy that was never executed is not held back by its interval.
pub proof fn lemma_first_execution_is_not_timed(
    strategy: StrategyState,
    strategy_id: Seq<char>,
    current_time: i64,
)
    requires
        strategy.last_execution == 0,
        strategy.is_active,
        strategy.id@ == strategy_id,
    ensures
        execution_rejection(false, strategy, strategy.owner, strategy_id, current_time) is None,
{
}

/// After an execution at a time above zero, the owner's next execution is
/// refused as too early at every time before the interval has passed, and is
/// accepted at every time from then on, when it moves the time of the last
/// execution forward.
pub proof fn lemma_interval_between_executions(
    vault: StrategyVaultState,
    strategy: StrategyState,
    caller: Identity,
    strategy_id: Seq<char>,
    first_time: i64,
    first_pnl: i64,
    second_time: i64,
    second_pnl: i64,
)
    requires
        execution_rejection(vault.is_paused, strategy, caller, strategy_id, first_time) is None,
        first_time > 0,
    ensures
        ({
            let once = executed(vault, strategy, first_time, first_pnl);
            let again = execution_rejection(
                once.0.is_paused,
                once.1,
                caller,
                strategy_id,
                second_time,
            );
            &&& once.1.last_execution == first_time
            &&& second_time < first_time + strategy.execution_interval ==> again == Some(
                VaultError::StrategyExecutionFailed,
            )
            &&& second_time >= first_time + strategy.execution_interval ==> again is None
                && executed(once.0, once.1, second_time, second_pnl).1.last_execution
                == second_time
        }),
{
}

} // verus!
