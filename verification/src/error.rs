//! Error taxonomy of the engine: authorization failures, precondition
//! violations, solvency violations, capacity violations, and settlement
//! failures. Every error surfaces synchronously as the terminal result of
//! the call that raised it.

use vstd::prelude::*;

verus! {

#[derive(Clone, Copy, Debug, PartialEq, Eq, Structural)]
pub enum EngineError {
    /// Caller is not allowed to perform the action.
    Unauthorized,
    /// The engine is paused.
    Paused,
    /// No insurance reserve is configured.
    InsuranceNotRegistered,
    /// The market is not registered with the insurance reserve.
    VammNotRegistered,
    /// The market exists but is closed for trading.
    VammNotOpen,
    /// A required amount was zero.
    ZeroInput,
    /// Leverage below one.
    LeverageTooSmall,
    /// Margin ratio below the initial requirement on open.
    Undercollateralized,
    /// Margin ratio above the maintenance requirement on a liquidation
    /// attempt.
    Overcollateralized,
    /// The position has no exposure.
    PositionZero,
    /// No position exists for the caller.
    PositionNotFound,
    /// Only one position-changing action is allowed per block during a
    /// restriction window.
    RestrictionViolation,
    /// Settling funding or fees would leave the position with bad debt.
    InsufficientMargin,
    /// Free collateral does not cover the requested withdrawal.
    InsufficientCollateral,
    /// Aggregate open interest would exceed the market's cap.
    OpenInterestCapExceeded,
    /// The trader's base-asset holding would exceed the market's cap.
    BaseAssetHoldingCapExceeded,
    /// A settlement arrived with no staged swap intent.
    NoStagedIntent,
    /// The confirmed swap does not match the staged intent.
    InvalidSettlement,
    /// No sent-funds record is staged.
    NoSentFunds,
    /// Native funds sent exceed what the operation requires.
    SentFundsExcessive,
    /// Native funds sent fall short of what the operation requires.
    SentFundsInsufficient,
    /// A ratio parameter exceeds 1.0, or the margin-ratio pair is
    /// inconsistent.
    InvalidRatio,
    /// An amount exceeds the engine's fixed-point range; the operation
    /// fails loudly instead of wrapping.
    AmountOutOfRange,
    /// The market's decimal scale differs from the engine's.
    DecimalsMismatch,
    /// The registry already holds as many markets as it allows.
    VammLimitReached,
    /// The market is already registered.
    VammAlreadyRegistered,
    /// The price history does not reach back far enough.
    InsufficientHistory,
    /// A price round older than the latest round was appended.
    StaleRound,
}

} // verus!
