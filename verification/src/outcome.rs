//! Outcome mapping: pure, deterministic functions from a digest or a derived
//! machine word to a game outcome.
//!
//! Three shapes of game are supported: a binary outcome taken from the first
//! digest byte, a discrete outcome in 1..=6 taken from a machine word, and a
//! continuous fixed-point multiplier produced by an inverse-exponential
//! transform of a machine word. The continuous transform is integer-only so
//! that every independent verifier reproduces it bit for bit.

use vstd::prelude::*;
use vstd::arithmetic::div_mod::{lemma_div_is_ordered, lemma_div_pos_is_pos, lemma_mod_bound};
use vstd::arithmetic::mul::lemma_mul_nonnegative;

verus! {

/// The games the settlement engine knows.
#[derive(Clone, Copy, Debug, PartialEq, Eq, Structural)]
pub enum GameType {
    CoinFlip,
    DiceRoll,
    Limbo,
    PvPChallenge,
    Crash,
}

/// Binary outcome of a digest: the first byte modulo two.
pub open spec fn coin_flip_outcome_of(digest: Seq<u8>) -> u8 {
    (digest[0] as int % 2) as u8
}

/// The 32-bit machine word read from the first four digest bytes, little
/// endian.
pub open spec fn word_of(digest: Seq<u8>) -> u32 {
    (digest[0] as int + digest[1] as int * 0x100 + digest[2] as int * 0x10000 + digest[3] as int
        * 0x1000000) as u32
}

/// Discrete die outcome of a digest: a value in 1..=6 taken from the machine
/// word.
pub open spec fn dice_outcome_of(digest: Seq<u8>) -> u8 {
    (word_of(digest) as int % 6 + 1) as u8
}

/// Clamp a continuous multiplier into its valid centi-unit range.
pub open spec fn clamp_multiplier(m: int) -> int {
    if m > 10000 {
        10000
    } else if m < 100 {
        100
    } else {
        m
    }
}

/// The normalized position of a machine word in basis points: 0 at word 0,
/// 9900 at the largest word.
pub open spec fn normalized_bps_of(raw: u32) -> int {
    (raw as int * 9900) / 0xffff_ffff
}

/// Continuous multiplier of a machine word under a house edge, for the limbo
/// game: an inverse transform whose denominator shrinks as the word grows,
/// guarded against a zero denominator and clamped into 100..=10000
/// centi-units.
pub open spec fn limbo_result_of(raw: u32, edge_bps: u16) -> int {
    let denominator = 10000 - normalized_bps_of(raw);
    if denominator == 0 {
        10000
    } else {
        clamp_multiplier(((10000 - edge_bps as int) * 100) / denominator)
    }
}

/// Continuous multiplier of a machine word under a house edge, for the crash
/// game: the same inverse transform as the limbo game, with the denominator
/// floor-clamped a little further from zero.
pub open spec fn crash_point_of(raw: u32, edge_bps: u16) -> int {
    let denominator = 10000 - normalized_bps_of(raw);
    if denominator < 10 {
        10000
    } else {
        clamp_multiplier(((10000 - edge_bps as int) * 100) / denominator)
    }
}

/// The normalized position is always in 0..=9900, so the transform's
/// denominator is always in 100..=10000 and never reaches its zero guard.
pub proof fn lemma_normalized_bps_range(raw: u32)
    ensures
        0 <= normalized_bps_of(raw) <= 9900,
{
    lemma_mul_nonnegative(raw as int, 9900);
    lemma_div_pos_is_pos(raw as int * 9900, 0xffff_ffff);
    lemma_div_is_ordered(raw as int * 9900, 0xffff_ffffint * 9900, 0xffff_ffff);
}

/// The continuous multiplier never leaves 100..=10000 centi-units, for any
/// machine word and any edge up to 100%.
pub proof fn lemma_continuous_multiplier_range(raw: u32, edge_bps: u16)
    ensures
        100 <= limbo_result_of(raw, edge_bps) <= 10000,
        100 <= crash_point_of(raw, edge_bps) <= 10000,
{
    lemma_normalized_bps_range(raw);
}

/// Outcome mapping is pure: two evaluations on equal inputs always yield
/// equal outcomes.
pub proof fn lemma_outcome_mapper_deterministic(
    digest1: Seq<u8>,
    digest2: Seq<u8>,
    raw1: u32,
    raw2: u32,
    edge_bps1: u16,
    edge_bps2: u16,
)
    requires
        digest1 == digest2,
        raw1 == raw2,
        edge_bps1 == edge_bps2,
    ensures
        coin_flip_outcome_of(digest1) == coin_flip_outcome_of(digest2),
        dice_outcome_of(digest1) == dice_outcome_of(digest2),
        limbo_result_of(raw1, edge_bps1) == limbo_result_of(raw2, edge_bps2),
        crash_point_of(raw1, edge_bps1) == crash_point_of(raw2, edge_bps2),
{
}

/// Read the 32-bit machine word from the first four digest bytes, little
/// endian.
pub fn word_from_digest(digest: &[u8; 32]) -> (r: u32)
    ensures
        r == word_of(digest@),
{
    (digest[0] as u32) + (digest[1] as u32) * 0x100 + (digest[2] as u32) * 0x10000 + (
    digest[3] as u32) * 0x1000000
}

/// Binary outcome of a digest.
pub fn coin_flip_outcome(digest: &[u8; 32]) -> (r: u8)
    ensures
        r == coin_flip_outcome_of(digest@),
        r == 0 || r == 1,
{
    digest[0] % 2
}

/// Discrete die outcome of a digest: a value in 1..=6.
pub fn dice_outcome(digest: &[u8; 32]) -> (r: u8)
    ensures
        r == dice_outcome_of(digest@),
        1 <= r <= 6,
{
    let raw = word_from_digest(digest);
    proof {
        lemma_mod_bound(raw as int, 6);
    }
    (raw % 6) as u8 + 1
}

/// Continuous multiplier for the limbo game, in centi-units.
pub fn calculate_limbo_result(raw: u32, house_edge_bps: u16) -> (r: u16)
    requires
        house_edge_bps <= 10000,
    ensures
        r == limbo_result_of(raw, house_edge_bps),
        100 <= r <= 10000,
{
    proof {
        lemma_normalized_bps_range(raw);
    }
    let normalized_bps: u64 = ((raw as u64) * 9900) / 0xffff_ffff;
    let denominator: u64 = 10000 - normalized_bps;
    if denominator == 0 {
        return 10000;
    }
    let edge_factor: u64 = 10000 - (house_edge_bps as u64);
    let result: u64 = (edge_factor * 100) / denominator;
    proof {
        lemma_div_pos_is_pos(edge_factor as int * 100, denominator as int);
    }
    if result > 10000 {
        10000
    } else if result < 100 {
        100
    } else {
        result as u16
    }
}

/// Continuous multiplier for the crash game, in centi-units.
pub fn calculate_crash_point(raw: u32, house_edge_bps: u16) -> (r: u16)
    requires
        house_edge_bps <= 10000,
    ensures
        r == crash_point_of(raw, house_edge_bps),
        100 <= r <= 10000,
{
    proof {
        lemma_normalized_bps_range(raw);
    }
    let normalized_bps: u64 = ((raw as u64) * 9900) / 0xffff_ffff;
    let denominator: u64 = 10000 - normalized_bps;
    if denominator < 10 {
        return 10000;
    }
    let edge_factor: u64 = 10000 - (house_edge_bps as u64);
    let result: u64 = (edge_factor * 100) / denominator;
    proof {
        lemma_div_pos_is_pos(edge_factor as int * 100, denominator as int);
    }
    if result > 10000 {
        10000
    } else if result < 100 {
        100
    } else {
        result as u16
    }
}

} // verus!
