//! The external randomness oracle's edge: parsing a raw oracle account and
//! extracting the revealed random value.
//!
//! The oracle's account bytes and the revealed value come from outside the
//! engine; nothing here assumes anything about the value itself. The
//! settlement entry points below hand whatever value came back to the
//! verified settle transition, which is exact for every possible value.

use vstd::prelude::*;
use crate::errors::CasinoError;
use crate::house::{AgentStats, House};
use crate::outcome::GameType;
use crate::settlement::{settle_behavior, vrf_settle, VrfRequest};

verus! {

/// The outcome of parsing a raw randomness account.
type ParseResult = Result<switchboard_on_demand::RandomnessAccountData, CasinoError>;

#[verifier::external_type_specification]
#[verifier::external_body]
pub struct ExRandomnessAccountData(switchboard_on_demand::RandomnessAccountData);

/// Relies on switchboard_on_demand::RandomnessAccountData::parse: checks the
/// discriminator and layout of raw randomness-account bytes and returns the
/// parsed record; every failure is mapped to the invalid-randomness error.
#[verifier::external_body]
fn parse_randomness_account(data: &Vec<u8>) -> (r: ParseResult)
    ensures
        r matches Err(e) ==> e == CasinoError::VrfInvalidRandomness,
{
    let mut buf = data.clone();
    let slice: &mut [u8] = buf.as_mut_slice();
    let cell = core::cell::RefCell::new(slice);
    let out = match switchboard_on_demand::RandomnessAccountData::parse(cell.borrow()) {
        Ok(parsed) => Ok(*parsed),
        Err(_) => Err(CasinoError::VrfInvalidRandomness),
    };
    out
}

/// Relies on switchboard_on_demand::RandomnessAccountData::get_value: returns
/// the revealed 32-byte random value exactly when the record's reveal height
/// matches the queried height; every failure is mapped to the retryable
/// not-ready error.
#[verifier::external_body]
fn randomness_value(data: &switchboard_on_demand::RandomnessAccountData, slot: u64) -> (r: Result<[u8; 32], CasinoError>)
    ensures
        r matches Err(e) ==> e == CasinoError::VrfRandomnessNotReady,
{
    match data.get_value(slot) {
        Ok(value) => Ok(value),
        Err(_) => Err(CasinoError::VrfRandomnessNotReady),
    }
}

/// Settle a pending request against a raw oracle account. Fails with the
/// invalid-randomness error when the account bytes do not parse and with the
/// retryable not-ready error when no value is revealed for the queried
/// height, touching nothing in either case; otherwise the settle transition
/// runs on whatever value the oracle revealed.
pub fn settle_from_oracle(
    house: &mut House,
    stats: &mut AgentStats,
    vrf_request: &mut VrfRequest,
    oracle_data: &Vec<u8>,
    slot: u64,
    timestamp: i64,
) -> (r: Result<u64, CasinoError>)
    requires
        old(house).wf(),
    ensures
        final(house).wf(),
        r == Err::<u64, CasinoError>(CasinoError::VrfInvalidRandomness) || r == Err::<
            u64,
            CasinoError,
        >(CasinoError::VrfRandomnessNotReady) ==> *final(house) == *old(house) && *final(stats)
            == *old(stats) && *final(vrf_request) == *old(vrf_request),
        !(r == Err::<u64, CasinoError>(CasinoError::VrfInvalidRandomness) || r == Err::<
            u64,
            CasinoError,
        >(CasinoError::VrfRandomnessNotReady)) ==> exists|value: [u8; 32]|
            settle_behavior(
                *old(house),
                *old(stats),
                *old(vrf_request),
                value@,
                timestamp,
                r,
                *final(house),
                *final(stats),
                *final(vrf_request),
            ),
{
    let parsed = match parse_randomness_account(oracle_data) {
        Ok(p) => p,
        Err(e) => {
            return Err(e);
        },
    };
    let value = match randomness_value(&parsed, slot) {
        Ok(v) => v,
        Err(e) => {
            return Err(e);
        },
    };
    let r = vrf_settle(house, stats, vrf_request, &value, timestamp);
    proof {
        assert(settle_behavior(
            *old(house),
            *old(stats),
            *old(vrf_request),
            value@,
            timestamp,
            r,
            *house,
            *stats,
            *vrf_request,
        ));
    }
    r
}

/// Settle a pending coin-flip request against a raw oracle account.
pub fn vrf_coin_flip_settle(
    house: &mut House,
    stats: &mut AgentStats,
    vrf_request: &mut VrfRequest,
    oracle_data: &Vec<u8>,
    slot: u64,
    timestamp: i64,
) -> (r: Result<u64, CasinoError>)
    requires
        old(house).wf(),
        old(vrf_request).game_type == GameType::CoinFlip,
    ensures
        final(house).wf(),
        r == Err::<u64, CasinoError>(CasinoError::VrfInvalidRandomness) || r == Err::<
            u64,
            CasinoError,
        >(CasinoError::VrfRandomnessNotReady) ==> *final(house) == *old(house) && *final(stats)
            == *old(stats) && *final(vrf_request) == *old(vrf_request),
        !(r == Err::<u64, CasinoError>(CasinoError::VrfInvalidRandomness) || r == Err::<
            u64,
            CasinoError,
        >(CasinoError::VrfRandomnessNotReady)) ==> exists|value: [u8; 32]|
            settle_behavior(
                *old(house),
                *old(stats),
                *old(vrf_request),
                value@,
                timestamp,
                r,
                *final(house),
                *final(stats),
                *final(vrf_request),
            ),
{
    settle_from_oracle(house, stats, vrf_request, oracle_data, slot, timestamp)
}

/// Settle a pending dice-roll request against a raw oracle account.
pub fn vrf_dice_roll_settle(
    house: &mut House,
    stats: &mut AgentStats,
    vrf_request: &mut VrfRequest,
    oracle_data: &Vec<u8>,
    slot: u64,
    timestamp: i64,
) -> (r: Result<u64, CasinoError>)
    requires
        old(house).wf(),
        old(vrf_request).game_type == GameType::DiceRoll,
    ensures
        final(house).wf(),
        r == Err::<u64, CasinoError>(CasinoError::VrfInvalidRandomness) || r == Err::<
            u64,
            CasinoError,
        >(CasinoError::VrfRandomnessNotReady) ==> *final(house) == *old(house) && *final(stats)
            == *old(stats) && *final(vrf_request) == *old(vrf_request),
        !(r == Err::<u64, CasinoError>(CasinoError::VrfInvalidRandomness) || r == Err::<
            u64,
            CasinoError,
        >(CasinoError::VrfRandomnessNotReady)) ==> exists|value: [u8; 32]|
            settle_behavior(
                *old(house),
                *old(stats),
                *old(vrf_request),
                value@,
                timestamp,
                r,
                *final(house),
                *final(stats),
                *final(vrf_request),
            ),
{
    settle_from_oracle(house, stats, vrf_request, oracle_data, slot, timestamp)
}

/// Settle a pending limbo request against a raw oracle account.
pub fn vrf_limbo_settle(
    house: &mut House,
    stats: &mut AgentStats,
    vrf_request: &mut VrfRequest,
    oracle_data: &Vec<u8>,
    slot: u64,
    timestamp: i64,
) -> (r: Result<u64, CasinoError>)
    requires
        old(house).wf(),
        old(vrf_request).game_type == GameType::Limbo,
    ensures
        final(house).wf(),
        r == Err::<u64, CasinoError>(CasinoError::VrfInvalidRandomness) || r == Err::<
            u64,
            CasinoError,
        >(CasinoError::VrfRandomnessNotReady) ==> *final(house) == *old(house) && *final(stats)
            == *old(stats) && *final(vrf_request) == *old(vrf_request),
        !(r == Err::<u64, CasinoError>(CasinoError::VrfInvalidRandomness) || r == Err::<
            u64,
            CasinoError,
        >(CasinoError::VrfRandomnessNotReady)) ==> exists|value: [u8; 32]|
            settle_behavior(
                *old(house),
                *old(stats),
                *old(vrf_request),
                value@,
                timestamp,
                r,
                *final(house),
                *final(stats),
                *final(vrf_request),
            ),
{
    settle_from_oracle(house, stats, vrf_request, oracle_data, slot, timestamp)
}

/// Settle a pending crash request against a raw oracle account.
pub fn vrf_crash_settle(
    house: &mut House,
    stats: &mut AgentStats,
    vrf_request: &mut VrfRequest,
    oracle_data: &Vec<u8>,
    slot: u64,
    timestamp: i64,
) -> (r: Result<u64, CasinoError>)
    requires
        old(house).wf(),
        old(vrf_request).game_type == GameType::Crash,
    ensures
        final(house).wf(),
        r == Err::<u64, CasinoError>(CasinoError::VrfInvalidRandomness) || r == Err::<
            u64,
            CasinoError,
        >(CasinoError::VrfRandomnessNotReady) ==> *final(house) == *old(house) && *final(stats)
            == *old(stats) && *final(vrf_request) == *old(vrf_request),
        !(r == Err::<u64, CasinoError>(CasinoError::VrfInvalidRandomness) || r == Err::<
            u64,
            CasinoError,
        >(CasinoError::VrfRandomnessNotReady)) ==> exists|value: [u8; 32]|
            settle_behavior(
                *old(house),
                *old(stats),
                *old(vrf_request),
                value@,
                timestamp,
                r,
                *final(house),
                *final(stats),
                *final(vrf_request),
            ),
{
    settle_from_oracle(house, stats, vrf_request, oracle_data, slot, timestamp)
}

} // verus!
