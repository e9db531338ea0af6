//! The reasons for which an operation on a vault is refused.
use vstd::prelude::*;

verus! {

/// Why an operation was refused. A refused operation changes nothing.
#[derive(Clone, Copy, Debug, PartialEq, Eq, Structural, Hash)]
pub enum VaultError {
    /// The vault is paused.
    VaultPaused,
    /// More was asked for than principal and pending yield cover.
    InsufficientBalance,
    /// The amount is zero.
    InvalidAmount,
    /// No record exists for the user.
    UserNotFound,
    /// The record is not the strategy that was asked for.
    StrategyNotFound,
    /// The strategy is not active.
    StrategyNotActive,
    /// The caller is not the one the record belongs to.
    Unauthorized,
    /// Nothing has accrued that could be claimed.
    NoYieldToClaim,
    /// A text field of the configuration is empty, or its interval is zero.
    InvalidStrategyConfig,
    /// The strategy was executed too recently.
    StrategyExecutionFailed,
    /// The time frame is none of the known ones.
    InvalidTimeFrame,
    /// The yield target is zero or above 100%.
    InvalidYieldTarget,
    /// The position size is zero or above 100%.
    InvalidPositionSize,
}

impl VaultError {
    /// The text that `message` returns for each reason.
    pub open spec fn message_text(self) -> Seq<char> {
        match self {
            VaultError::VaultPaused => "Vault is paused"@,
            VaultError::InsufficientBalance => "Insufficient balance"@,
            VaultError::InvalidAmount => "Invalid amount"@,
            VaultError::UserNotFound => "User not found"@,
            VaultError::StrategyNotFound => "Strategy not found"@,
            VaultError::StrategyNotActive => "Strategy is not active"@,
            VaultError::Unauthorized => "Unauthorized access"@,
            VaultError::NoYieldToClaim => "No yield to claim"@,
            VaultError::InvalidStrategyConfig => "Invalid strategy configuration"@,
            VaultError::StrategyExecutionFailed => "Strategy execution failed"@,
            VaultError::InvalidTimeFrame => "Invalid time frame"@,
            VaultError::InvalidYieldTarget => "Invalid yield target"@,
            VaultError::InvalidPositionSize => "Invalid position size"@,
        }
    }

    /// A short description of the reason, for people.
    pub fn message(&self) -> (text: &'static str)
        ensures
            text@ == self.message_text(),
    {
        match self {
            VaultError::VaultPaused => "Vault is paused",
            VaultError::InsufficientBalance => "Insufficient balance",
            VaultError::InvalidAmount => "Invalid amount",
            VaultError::UserNotFound => "User not found",
            VaultError::StrategyNotFound => "Strategy not found",
            VaultError::StrategyNotActive => "Strategy is not active",
            VaultError::Unauthorized => "Unauthorized access",
            VaultError::NoYieldToClaim => "No yield to claim",
            VaultError::InvalidStrategyConfig => "Invalid strategy configuration",
            VaultError::StrategyExecutionFailed => "Strategy execution failed",
            VaultError::InvalidTimeFrame => "Invalid time frame",
            VaultError::InvalidYieldTarget => "Invalid yield target",
            VaultError::InvalidPositionSize => "Invalid position size",
        }
    }
}

} // verus!
