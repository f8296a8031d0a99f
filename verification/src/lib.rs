//! Fair-play randomness and settlement engine for a shared-liquidity
//! wagering pool.
//!
//! The engine turns entropy into a game outcome, computes the payout with
//! overflow-checked fixed-point arithmetic, and moves escrowed value between
//! the shared pool and a player while preserving pool solvency, under two
//! timing models: same-operation synchronous settlement and a two-step
//! asynchronous protocol backed by an external randomness oracle.

pub mod challenge;
pub mod errors;
pub mod house;
pub mod liquidity;
pub mod oracle;
pub mod outcome;
pub mod payout;
pub mod play;
pub mod seed;
pub mod settlement;
