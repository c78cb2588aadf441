//! Error taxonomy: creation-time validation failures, policy rejections,
//! arithmetic failures and invariant violations are all surfaced as values,
//! never as panics.

use vstd::prelude::*;

verus! {

/// Errors raised by the constant-product strategy and the swap state machine
/// built on it.
#[derive(Clone, Copy, Debug, PartialEq, Eq, Structural)]
pub enum ProgramError {
    InvalidGlobalAuthority,
    InvalidWithdrawAuthority,
    InvalidArgument,
    AlreadyInitialized,
    NotInitialized,
    ProgramNotRunning,
    BondingCurveComplete,
    BondingCurveNotComplete,
    InsufficientUserTokens,
    InsufficientCurveTokens,
    InsufficientUserSOL,
    SlippageExceeded,
    MinSwap,
    BuyFailed,
    SellFailed,
    BondingCurveInvariant,
    CurveNotStarted,
    InvalidAllocation,
    InvalidStartTime,
}

/// Errors raised by the segmented-curve strategy: curve creation, vesting
/// claims, fee withdrawal and the custody invariant check.
#[derive(Clone, Copy, Debug, PartialEq, Eq, Structural)]
pub enum ContractError {
    NotInitialized,
    ProgramNotRunning,
    InvalidAllocation,
    InvalidCurveSegments,
    InvalidStartTime,
    SOLLaunchThresholdTooHigh,
    NoMaxAttainableSOL,
    CurveNotStarted,
    CliffNotReached,
    VestingPeriodNotOver,
    BondingCurveInvariant,
    BondingCurveNotInactive,
    InvalidCreatorAuthority,
    InvalidWithdrawAuthority,
    NoFeesToWithdraw,
    ArithmeticFailure,
}

} // verus!
