//! The records that the vaults keep: one per vault, one per depositor, one
//! per strategy.
use vstd::prelude::*;
use crate::identity::Identity;

verus! {

/// The annual yield rate that every vault is opened with: 500 basis points,
/// that is 5%.
pub const DEFAULT_YIELD_RATE: u64 = 500;

/// The record of a vault that takes deposits and pays yield on them.
#[derive(Clone, Copy, Debug, PartialEq, Eq)]
pub struct BasicVaultState {
    /// Who may pause and resume the vault.
    pub authority: Identity,
    /// The principal that depositors hold in the vault, in base units.
    pub total_deposits: u64,
    /// How many depositors have ever opened a position.
    pub total_users: u32,
    /// While set, deposits, withdrawals and claims are refused.
    pub is_paused: bool,
    /// Yield credited to depositors and not yet claimed, held to `u64::MAX`.
    pub total_yield_generated: u64,
    /// When yield was last settled for any depositor.
    pub last_yield_calculation: i64,
    /// The annual yield rate in basis points.
    pub yield_rate: u64,
    /// Carried for the storage that addresses the record; never read here.
    pub bump: u8,
}

/// What one depositor holds in one vault.
#[derive(Clone, Copy, Debug, PartialEq, Eq)]
pub struct UserDeposit {
    /// The depositor.
    pub user: Identity,
    /// The principal, in base units.
    pub deposit_amount: u64,
    /// Yield that was settled and is not yet claimed.
    pub yield_earned: u64,
    /// When yield was last settled for this position.
    pub last_yield_update: i64,
    /// Carried for the storage that addresses the record; never read here.
    pub bump: u8,
}

/// The record of a vault that also runs strategies.
#[derive(Clone, Copy, Debug, PartialEq, Eq)]
pub struct StrategyVaultState {
    /// Who administers the vault.
    pub authority: Identity,
    /// The principal that depositors hold in the vault, in base units.
    pub total_deposits: u64,
    /// How many depositors have ever opened a position.
    pub total_users: u32,
    /// While set, every operation on the vault is refused.
    pub is_paused: bool,
    /// Yield credited to depositors and not yet claimed, held to `u64::MAX`.
    pub total_yield_generated: u64,
    /// When yield was last settled for any depositor.
    pub last_yield_calculation: i64,
    /// The annual yield rate in basis points.
    pub yield_rate: u64,
    /// How many strategies were created in this vault.
    pub active_strategies: u32,
    /// The profit and loss that the vault's strategies have realized.
    pub total_pnl: i64,
    /// Carried for the storage that addresses the record; never read here.
    pub bump: u8,
}

/// One condition of a strategy. The vault stores conditions and never
/// evaluates them.
#[derive(Clone, Debug, PartialEq, Eq)]
pub struct Condition {
    pub condition_type: String,
    pub value: u64,
}

/// What the owner of a strategy chooses when creating it.
#[derive(Clone, Debug, PartialEq, Eq)]
pub struct StrategyConfig {
    pub name: String,
    pub description: String,
    pub base_token: String,
    pub quote_token: String,
    /// The share of capital per trade, in basis points.
    pub position_size: u64,
    pub time_frame: String,
    /// The least number of seconds between two executions.
    pub execution_interval: u64,
    /// The yield aimed at, in basis points.
    pub yield_target: u64,
    pub yield_accumulation: bool,
    pub entry_conditions: Vec<Condition>,
    pub exit_conditions: Vec<Condition>,
}

/// The record of one strategy.
#[derive(Clone, Debug, PartialEq, Eq)]
pub struct StrategyState {
    pub id: String,
    pub owner: Identity,
    pub name: String,
    pub description: String,
    pub base_token: String,
    pub quote_token: String,
    /// The share of capital per trade, in basis points.
    pub position_size: u64,
    pub time_frame: String,
    /// The least number of seconds between two executions.
    pub execution_interval: u64,
    /// The yield aimed at, in basis points.
    pub yield_target: u64,
    pub yield_accumulation: bool,
    pub is_active: bool,
    pub created_at: i64,
    /// When the strategy was last executed; 0 before the first execution.
    pub last_execution: i64,
    /// The profit and loss that the strategy has realized.
    pub total_pnl: i64,
    pub entry_conditions: Vec<Condition>,
    pub exit_conditions: Vec<Condition>,
    /// Carried for the storage that addresses the record; never read here.
    pub bump: u8,
}

impl BasicVaultState {
    /// A vault as it is right after it was opened at `current_time`: empty,
    /// running, at the default rate.
    pub open spec fn opened(authority: Identity, bump: u8, current_time: i64) -> BasicVaultState {
        BasicVaultState {
            authority,
            total_deposits: 0,
            total_users: 0,
            is_paused: false,
            total_yield_generated: 0,
            last_yield_calculation: current_time,
            yield_rate: 500,
            bump,
        }
    }

    /// Makes the record that of a vault just opened by `authority`.
    pub fn initialize(&mut self, authority: Identity, bump: u8, current_time: i64)
        ensures
            *final(self) == BasicVaultState::opened(authority, bump, current_time),
    {
        self.authority = authority;
        self.total_deposits = 0;
        self.total_users = 0;
        self.is_paused = false;
        self.total_yield_generated = 0;
        self.last_yield_calculation = current_time;
        self.yield_rate = DEFAULT_YIELD_RATE;
        self.bump = bump;
    }
}

impl StrategyVaultState {
    /// A strategy vault as it is right after it was opened at `current_time`:
    /// empty, running, at the default rate, without strategies.
    pub open spec fn opened(authority: Identity, bump: u8, current_time: i64) -> StrategyVaultState {
        StrategyVaultState {
            authority,
            total_deposits: 0,
            total_users: 0,
            is_paused: false,
            total_yield_generated: 0,
            last_yield_calculation: current_time,
            yield_rate: 500,
            active_strategies: 0,
            total_pnl: 0,
            bump,
        }
    }

    /// Makes the record that of a strategy vault just opened by `authority`.
    pub fn initialize(&mut self, authority: Identity, bump: u8, current_time: i64)
        ensures
            *final(self) == StrategyVaultState::opened(authority, bump, current_time),
    {
        self.authority = authority;
        self.total_deposits = 0;
        self.total_users = 0;
        self.is_paused = false;
        self.total_yield_generated = 0;
        self.last_yield_calculation = current_time;
        self.yield_rate = DEFAULT_YIELD_RATE;
        self.active_strategies = 0;
        self.total_pnl = 0;
        self.bump = bump;
    }
}

impl UserDeposit {
    /// A position as it is right after `user` opened it at `current_time`:
    /// no principal, no yield.
    pub open spec fn opened(user: Identity, bump: u8, current_time: i64) -> UserDeposit {
        UserDeposit {
            user,
            deposit_amount: 0,
            yield_earned: 0,
            last_yield_update: current_time,
            bump,
        }
    }

    /// Makes the record that of a position just opened by `user`.
    pub fn initialize(&mut self, user: Identity, bump: u8, current_time: i64)
        ensures
            *final(self) == UserDeposit::opened(user, bump, current_time),
    {
        self.user = user;
        self.deposit_amount = 0;
        self.yield_earned = 0;
        self.last_yield_update = current_time;
        self.bump = bump;
    }
}

impl StrategyState {
    /// A strategy as it is right after `owner` created it at `current_time`
    /// from `config`: active, never executed, without profit or loss, and
    /// with everything else as the configuration has it.
    pub open spec fn configured(
        id: String,
        owner: Identity,
        config: StrategyConfig,
        bump: u8,
        current_time: i64,
    ) -> StrategyState {
        StrategyState {
            id,
            owner,
            name: config.name,
            description: config.description,
            base_token: config.base_token,
            quote_token: config.quote_token,
            position_size: config.position_size,
            time_frame: config.time_frame,
            execution_interval: config.execution_interval,
            yield_target: config.yield_target,
            yield_accumulation: config.yield_accumulation,
            is_active: true,
            created_at: current_time,
            last_execution: 0,
            total_pnl: 0,
            entry_conditions: config.entry_conditions,
            exit_conditions: config.exit_conditions,
            bump,
        }
    }

    /// Makes the record that of a strategy just created by `owner` from
    /// `config`, under the name `id`.
    pub fn initialize(
        &mut self,
        id: String,
        owner: Identity,
        config: StrategyConfig,
        bump: u8,
        current_time: i64,
    )
        ensures
            *final(self) == StrategyState::configured(id, owner, config, bump, current_time),
    {
        self.id = id;
        self.owner = owner;
        self.name = config.name;
        self.description = config.description;
        self.base_token = config.base_token;
        self.quote_token = config.quote_token;
        self.position_size = config.position_size;
        self.time_frame = config.time_frame;
        self.execution_interval = config.execution_interval;
        self.yield_target = config.yield_target;
        self.yield_accumulation = config.yield_accumulation;
        self.is_active = true;
        self.created_at = current_time;
        self.last_execution = 0;
        self.total_pnl = 0;
        self.entry_conditions = config.entry_conditions;
        self.exit_conditions = config.exit_conditions;
        self.bump = bump;
    }
}

} // verus!
