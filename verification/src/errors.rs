//! Typed failures of the settlement engine.
//!
//! Every operation is all-or-nothing: a caller that receives one of these
//! errors may rely on no fund movement and no counter update having taken
//! place in that invocation.

use vstd::prelude::*;

verus! {

/// The failure taxonomy of the engine.
///
/// Validation failures (`HouseEdgeTooHigh`, `InvalidMaxBet`, `InvalidAmount`,
/// `InvalidChoice`, `InvalidTarget`, `InvalidMultiplier`) reject malformed
/// parameters before any fund movement. Liquidity failures (`BetTooSmall`,
/// `BetTooLarge`, `InsufficientLiquidity`, `InsufficientPoolBalance`) reject
/// a bet the pool cannot safely cover. `MathOverflow` aborts an operation
/// whose intermediate value cannot be represented: a wrapped payout would
/// create funds, so it is never truncated. Randomness failures
/// (`VrfRandomnessNotReady`, `VrfInvalidRandomness`) leave a pending request
/// untouched and retryable. State failures (`VrfAlreadySettled`,
/// `VrfNotExpired`, `ChallengeNotOpen`, `CannotAcceptOwnChallenge`,
/// `NotChallengeOwner`) reject a transition attempted from the wrong state.
#[derive(Clone, Copy, Debug, PartialEq, Eq, Structural)]
pub enum CasinoError {
    HouseEdgeTooHigh,
    InvalidMaxBet,
    InvalidAmount,
    BetTooSmall,
    BetTooLarge,
    InsufficientLiquidity,
    InsufficientPoolBalance,
    InvalidChoice,
    InvalidTarget,
    InvalidMultiplier,
    MathOverflow,
    VrfAlreadySettled,
    VrfRandomnessNotReady,
    VrfInvalidRandomness,
    VrfNotExpired,
    ChallengeNotOpen,
    CannotAcceptOwnChallenge,
    NotChallengeOwner,
}

} // verus!
