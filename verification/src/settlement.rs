//! The asynchronous settlement protocol: request now, settle or expire
//! later.
//!
//! A request escrows the stake into the pool before the outcome is known and
//! persists a pending record that references an external randomness source.
//! Once the source reveals a value, anyone may settle the request; once a
//! liveness window has elapsed without settlement, anyone may expire it and
//! refund the stake. Settle and expire are mutually exclusive: whichever
//! succeeds first defines the terminal state, and every later attempt at
//! either fails with a state error and changes nothing.
//!
//! Each transition is all-or-nothing: on any error the pool, the player's
//! record and the request are exactly as they were.

use vstd::prelude::*;
use crate::errors::CasinoError;
use crate::house::{max_bet_of, AgentStats, House};
use crate::liquidity::{
    admit_bet, max_bet_overflows, param_error_of, valid_game_params, worst_case_overflows,
    worst_case_payout_of,
};
use crate::outcome::{
    calculate_crash_point, calculate_limbo_result, coin_flip_outcome, coin_flip_outcome_of,
    crash_point_of, dice_outcome, dice_outcome_of, limbo_result_of, word_from_digest, word_of,
    GameType,
};
use crate::payout::calculate_payout;

verus! {

/// How many block heights a pending request must age before it can be
/// expired.
pub const LIVENESS_WINDOW_SLOTS: u64 = 300;

/// The life of an asynchronous request: pending until exactly one of settle
/// and expire succeeds; both other states are terminal.
#[derive(Clone, Copy, Debug, PartialEq, Eq, Structural)]
pub enum VrfStatus {
    Pending,
    Settled,
    Expired,
}

/// A persisted bet awaiting external randomness.
#[derive(Clone, Copy, Debug)]
pub struct VrfRequest {
    /// Identity of the player who staked the bet.
    pub player: [u8; 32],
    /// The pool the bet runs against.
    pub house: [u8; 32],
    /// The external randomness source the settlement will read.
    pub randomness_account: [u8; 32],
    pub game_type: GameType,
    /// The escrowed stake.
    pub amount: u64,
    /// Choice parameter of the binary and discrete games.
    pub choice: u8,
    /// Target multiplier of the continuous games, in centi-units.
    pub target_multiplier: u16,
    pub status: VrfStatus,
    pub created_at: i64,
    pub settled_at: i64,
    /// The mapped outcome byte, recorded at settlement.
    pub result: u8,
    /// The amount paid out, recorded at settlement.
    pub payout: u64,
    /// The pool's game counter at request time.
    pub game_index: u64,
    /// Block height at request time; expiry is measured from here.
    pub request_slot: u64,
}

/// The outcome byte a settlement records: the mapped outcome for the binary
/// and discrete games, the integer part of the multiplier for the continuous
/// games.
pub open spec fn outcome_byte_of(game_type: GameType, digest: Seq<u8>, edge_bps: u16) -> u8 {
    match game_type {
        GameType::CoinFlip => coin_flip_outcome_of(digest),
        GameType::DiceRoll => dice_outcome_of(digest),
        GameType::Limbo => (limbo_result_of(word_of(digest), edge_bps) / 100) as u8,
        GameType::Crash => (crash_point_of(word_of(digest), edge_bps) / 100) as u8,
        GameType::PvPChallenge => 0u8,
    }
}

/// Whether a bet wins against a digest: the binary game matches the chosen
/// side, the discrete game rolls at or under the target, the continuous
/// games reach the chosen target multiplier.
pub open spec fn bet_wins(
    game_type: GameType,
    digest: Seq<u8>,
    choice: u8,
    target_multiplier: u16,
    edge_bps: u16,
) -> bool {
    match game_type {
        GameType::CoinFlip => coin_flip_outcome_of(digest) == choice,
        GameType::DiceRoll => dice_outcome_of(digest) <= choice,
        GameType::Limbo => limbo_result_of(word_of(digest), edge_bps) >= target_multiplier,
        GameType::Crash => crash_point_of(word_of(digest), edge_bps) >= target_multiplier,
        GameType::PvPChallenge => false,
    }
}

/// Map a digest to a game's outcome: whether the bet won, and the outcome
/// byte the record keeps.
pub fn map_outcome(
    game_type: GameType,
    digest: &[u8; 32],
    choice: u8,
    target_multiplier: u16,
    edge_bps: u16,
) -> (r: (bool, u8))
    requires
        edge_bps <= 10000,
    ensures
        r.0 == bet_wins(game_type, digest@, choice, target_multiplier, edge_bps),
        r.1 == outcome_byte_of(game_type, digest@, edge_bps),
{
    match game_type {
        GameType::CoinFlip => {
            let outcome = coin_flip_outcome(digest);
            (outcome == choice, outcome)
        },
        GameType::DiceRoll => {
            let outcome = dice_outcome(digest);
            (outcome <= choice, outcome)
        },
        GameType::Limbo => {
            let raw = word_from_digest(digest);
            let multiplier = calculate_limbo_result(raw, edge_bps);
            (multiplier >= target_multiplier, (multiplier / 100) as u8)
        },
        GameType::Crash => {
            let raw = word_from_digest(digest);
            let multiplier = calculate_crash_point(raw, edge_bps);
            (multiplier >= target_multiplier, (multiplier / 100) as u8)
        },
        GameType::PvPChallenge => (false, 0),
    }
}

/// The request transition. Parameters are validated, the bet is admitted
/// against the current pool state, and on success the stake is escrowed into
/// the pool, the volume counters grow, and a pending record is produced.
pub open spec fn spec_vrf_request(
    house: House,
    player: [u8; 32],
    house_key: [u8; 32],
    randomness_account: [u8; 32],
    game_type: GameType,
    amount: u64,
    choice: u8,
    target_multiplier: u16,
    timestamp: i64,
    slot: u64,
) -> Result<(House, VrfRequest), CasinoError> {
    if !valid_game_params(game_type, choice, target_multiplier) {
        Err(param_error_of(game_type))
    } else if amount < house.min_bet {
        Err(CasinoError::BetTooSmall)
    } else if max_bet_overflows(house) {
        Err(CasinoError::MathOverflow)
    } else if amount > max_bet_of(house.pool as int, house.max_bet_percent as int) {
        Err(CasinoError::BetTooLarge)
    } else if worst_case_overflows(game_type, amount, choice, target_multiplier) {
        Err(CasinoError::MathOverflow)
    } else if worst_case_payout_of(game_type, amount, choice, target_multiplier, house.house_edge_bps)
        > house.pool {
        Err(CasinoError::InsufficientLiquidity)
    } else if house.pool + amount > u64::MAX || house.total_games + 1 > u64::MAX
        || house.total_volume + amount > u64::MAX {
        Err(CasinoError::MathOverflow)
    } else {
        Ok(
            (
                House {
                    pool: (house.pool + amount) as u64,
                    total_games: (house.total_games + 1) as u64,
                    total_volume: (house.total_volume + amount) as u64,
                    ..house
                },
                VrfRequest {
                    player,
                    house: house_key,
                    randomness_account,
                    game_type,
                    amount,
                    choice,
                    target_multiplier,
                    status: VrfStatus::Pending,
                    created_at: timestamp,
                    settled_at: 0i64,
                    result: 0u8,
                    payout: 0u64,
                    game_index: house.total_games,
                    request_slot: slot,
                },
            ),
        )
    }
}

/// The settle transition. Allowed only from the pending state; the winner's
/// payout is re-checked against the pool's current balance, since the balance
/// may have moved since the request was admitted.
pub open spec fn spec_vrf_settle(
    house: House,
    stats: AgentStats,
    request: VrfRequest,
    digest: Seq<u8>,
    timestamp: i64,
) -> Result<(House, AgentStats, VrfRequest, u64), CasinoError> {
    if request.status != VrfStatus::Pending {
        Err(CasinoError::VrfAlreadySettled)
    } else if request.game_type == GameType::DiceRoll && !(1 <= request.choice <= 5) {
        Err(CasinoError::InvalidChoice)
    } else {
        let won = bet_wins(
            request.game_type,
            digest,
            request.choice,
            request.target_multiplier,
            house.house_edge_bps,
        );
        if won && worst_case_overflows(
            request.game_type,
            request.amount,
            request.choice,
            request.target_multiplier,
        ) {
            Err(CasinoError::MathOverflow)
        } else {
            let payout = if won {
                worst_case_payout_of(
                    request.game_type,
                    request.amount,
                    request.choice,
                    request.target_multiplier,
                    house.house_edge_bps,
                )
            } else {
                0
            };
            if payout > house.pool {
                Err(CasinoError::InsufficientLiquidity)
            } else if house.total_payout + payout > u64::MAX || stats.total_games + 1 > u64::MAX
                || stats.total_wagered + request.amount > u64::MAX || (won && (stats.total_won
                + payout > u64::MAX || stats.wins + 1 > u64::MAX)) || (!won && stats.losses + 1
                > u64::MAX) {
                Err(CasinoError::MathOverflow)
            } else {
                Ok(
                    (
                        House {
                            pool: (house.pool - payout) as u64,
                            total_payout: (house.total_payout + payout) as u64,
                            ..house
                        },
                        AgentStats {
                            total_games: (stats.total_games + 1) as u64,
                            total_wagered: (stats.total_wagered + request.amount) as u64,
                            total_won: if won {
                                (stats.total_won + payout) as u64
                            } else {
                                stats.total_won
                            },
                            wins: if won {
                                (stats.wins + 1) as u64
                            } else {
                                stats.wins
                            },
                            losses: if won {
                                stats.losses
                            } else {
                                (stats.losses + 1) as u64
                            },
                            ..stats
                        },
                        VrfRequest {
                            status: VrfStatus::Settled,
                            settled_at: timestamp,
                            result: outcome_byte_of(request.game_type, digest, house.house_edge_bps),
                            payout: payout as u64,
                            ..request
                        },
                        payout as u64,
                    ),
                )
            }
        }
    }
}

/// The expire transition. Allowed only from the pending state and only once
/// the liveness window has elapsed since the request's creation height; it
/// refunds the escrowed stake from the pool.
pub open spec fn spec_expire_vrf_request(
    house: House,
    request: VrfRequest,
    slot: u64,
    timestamp: i64,
) -> Result<(House, VrfRequest, u64), CasinoError> {
    if request.status != VrfStatus::Pending {
        Err(CasinoError::VrfAlreadySettled)
    } else if slot - request.request_slot < LIVENESS_WINDOW_SLOTS {
        Err(CasinoError::VrfNotExpired)
    } else if request.amount > house.pool {
        Err(CasinoError::InsufficientPoolBalance)
    } else {
        Ok(
            (
                House { pool: (house.pool - request.amount) as u64, ..house },
                VrfRequest { status: VrfStatus::Expired, settled_at: timestamp, ..request },
                request.amount,
            ),
        )
    }
}

/// Whether an executed request call behaved as the request transition says:
/// on success the pool took the transition and the new pending record came
/// back, on failure the pool is untouched and the transition's error came
/// back.
pub open spec fn request_behavior(
    house: House,
    player: [u8; 32],
    house_key: [u8; 32],
    randomness_account: [u8; 32],
    game_type: GameType,
    amount: u64,
    choice: u8,
    target_multiplier: u16,
    timestamp: i64,
    slot: u64,
    r: Result<VrfRequest, CasinoError>,
    house_after: House,
) -> bool {
    match spec_vrf_request(
        house,
        player,
        house_key,
        randomness_account,
        game_type,
        amount,
        choice,
        target_multiplier,
        timestamp,
        slot,
    ) {
        Ok((h2, q)) => r == Ok::<VrfRequest, CasinoError>(q) && house_after == h2,
        Err(e) => r == Err::<VrfRequest, CasinoError>(e) && house_after == house,
    }
}

/// Whether an executed settle call behaved as the settle transition says.
pub open spec fn settle_behavior(
    house: House,
    stats: AgentStats,
    request: VrfRequest,
    digest: Seq<u8>,
    timestamp: i64,
    r: Result<u64, CasinoError>,
    house_after: House,
    stats_after: AgentStats,
    request_after: VrfRequest,
) -> bool {
    match spec_vrf_settle(house, stats, request, digest, timestamp) {
        Ok((h2, s2, q2, p)) => r == Ok::<u64, CasinoError>(p) && house_after == h2 && stats_after
            == s2 && request_after == q2,
        Err(e) => r == Err::<u64, CasinoError>(e) && house_after == house && stats_after == stats
            && request_after == request,
    }
}

/// Request a bet to be settled later by external randomness. On success the
/// stake is escrowed into the pool (the caller moves the funds) and the
/// returned record is pending.
pub fn vrf_request(
    house: &mut House,
    player: [u8; 32],
    house_key: [u8; 32],
    randomness_account: [u8; 32],
    game_type: GameType,
    amount: u64,
    choice: u8,
    target_multiplier: u16,
    timestamp: i64,
    slot: u64,
) -> (r: Result<VrfRequest, CasinoError>)
    requires
        old(house).wf(),
    ensures
        final(house).wf(),
        request_behavior(
            *old(house),
            player,
            house_key,
            randomness_account,
            game_type,
            amount,
            choice,
            target_multiplier,
            timestamp,
            slot,
            r,
            *final(house),
        ),
{
    let valid = match game_type {
        GameType::CoinFlip => choice <= 1,
        GameType::DiceRoll => 1 <= choice && choice <= 5,
        GameType::Limbo => 101 <= target_multiplier && target_multiplier <= 10000,
        GameType::Crash => 101 <= target_multiplier && target_multiplier <= 10000,
        GameType::PvPChallenge => false,
    };
    if !valid {
        let e = match game_type {
            GameType::CoinFlip => CasinoError::InvalidChoice,
            GameType::DiceRoll => CasinoError::InvalidTarget,
            GameType::Limbo => CasinoError::InvalidMultiplier,
            GameType::Crash => CasinoError::InvalidMultiplier,
            GameType::PvPChallenge => CasinoError::InvalidChoice,
        };
        return Err(e);
    }
    match admit_bet(house, amount, game_type, choice, target_multiplier) {
        Ok(_) => (),
        Err(e) => {
            return Err(e);
        },
    }
    let new_pool = match house.pool.checked_add(amount) {
        Some(p) => p,
        None => {
            return Err(CasinoError::MathOverflow);
        },
    };
    let new_total_games = match house.total_games.checked_add(1) {
        Some(g) => g,
        None => {
            return Err(CasinoError::MathOverflow);
        },
    };
    let new_total_volume = match house.total_volume.checked_add(amount) {
        Some(v) => v,
        None => {
            return Err(CasinoError::MathOverflow);
        },
    };
    let game_index = house.total_games;
    house.pool = new_pool;
    house.total_games = new_total_games;
    house.total_volume = new_total_volume;
    Ok(
        VrfRequest {
            player,
            house: house_key,
            randomness_account,
            game_type,
            amount,
            choice,
            target_multiplier,
            status: VrfStatus::Pending,
            created_at: timestamp,
            settled_at: 0,
            result: 0,
            payout: 0,
            game_index,
            request_slot: slot,
        },
    )
}

/// Settle a pending request against a revealed random digest. The payout is
/// re-checked against the pool's current balance before any counter moves;
/// on success the caller pays the returned amount out of the pool's funds.
pub fn vrf_settle(
    house: &mut House,
    stats: &mut AgentStats,
    vrf_request: &mut VrfRequest,
    randomness: &[u8; 32],
    timestamp: i64,
) -> (r: Result<u64, CasinoError>)
    requires
        old(house).wf(),
    ensures
        final(house).wf(),
        settle_behavior(
            *old(house),
            *old(stats),
            *old(vrf_request),
            randomness@,
            timestamp,
            r,
            *final(house),
            *final(stats),
            *final(vrf_request),
        ),
{
    if vrf_request.status != VrfStatus::Pending {
        return Err(CasinoError::VrfAlreadySettled);
    }
    let edge_bps = house.house_edge_bps;
    let won: bool;
    let result_byte: u8;
    let payout: u64;
    match vrf_request.game_type {
        GameType::CoinFlip => {
            let outcome = coin_flip_outcome(randomness);
            won = outcome == vrf_request.choice;
            result_byte = outcome;
            if won {
                proof {
                    crate::payout::lemma_net_nonnegative(
                        vrf_request.amount as int,
                        200,
                        edge_bps as int,
                    );
                }
                payout = match calculate_payout(vrf_request.amount, 200, edge_bps) {
                    Ok((_, net)) => net,
                    Err(e) => {
                        return Err(e);
                    },
                };
            } else {
                payout = 0;
            }
        },
        GameType::DiceRoll => {
            if !(1 <= vrf_request.choice && vrf_request.choice <= 5) {
                return Err(CasinoError::InvalidChoice);
            }
            let outcome = dice_outcome(randomness);
            won = outcome <= vrf_request.choice;
            result_byte = outcome;
            if won {
                proof {
                    vstd::arithmetic::div_mod::lemma_div_pos_is_pos(600, vrf_request.choice as int);
                    vstd::arithmetic::div_mod::lemma_div_nonincreasing(
                        600,
                        vrf_request.choice as int,
                    );
                    crate::payout::lemma_net_nonnegative(
                        vrf_request.amount as int,
                        600int / (vrf_request.choice as int),
                        edge_bps as int,
                    );
                }
                let multiplier = (600u64 / (vrf_request.choice as u64)) as u16;
                payout = match calculate_payout(vrf_request.amount, multiplier, edge_bps) {
                    Ok((_, net)) => net,
                    Err(e) => {
                        return Err(e);
                    },
                };
            } else {
                payout = 0;
            }
        },
        GameType::Limbo | GameType::Crash => {
            let raw = word_from_digest(randomness);
            let multiplier: u16 = if vrf_request.game_type == GameType::Limbo {
                calculate_limbo_result(raw, edge_bps)
            } else {
                calculate_crash_point(raw, edge_bps)
            };
            won = multiplier >= vrf_request.target_multiplier;
            result_byte = (multiplier / 100) as u8;
            if won {
                proof {
                    vstd::arithmetic::mul::lemma_mul_nonnegative(
                        vrf_request.amount as int,
                        vrf_request.target_multiplier as int,
                    );
                    assert(vrf_request.amount as int * vrf_request.target_multiplier as int
                        <= u128::MAX) by (nonlinear_arith);
                    vstd::arithmetic::div_mod::lemma_div_pos_is_pos(
                        vrf_request.amount as int * vrf_request.target_multiplier as int,
                        100,
                    );
                }
                let wide: u128 = (vrf_request.amount as u128) * (
                vrf_request.target_multiplier as u128) / 100;
                if wide > u64::MAX as u128 {
                    return Err(CasinoError::MathOverflow);
                }
                payout = wide as u64;
            } else {
                payout = 0;
            }
        },
        GameType::PvPChallenge => {
            won = false;
            result_byte = 0;
            payout = 0;
        },
    }
    if payout > house.pool {
        return Err(CasinoError::InsufficientLiquidity);
    }
    let new_total_payout = match house.total_payout.checked_add(payout) {
        Some(p) => p,
        None => {
            return Err(CasinoError::MathOverflow);
        },
    };
    let new_stats_games = match stats.total_games.checked_add(1) {
        Some(g) => g,
        None => {
            return Err(CasinoError::MathOverflow);
        },
    };
    let new_wagered = match stats.total_wagered.checked_add(vrf_request.amount) {
        Some(w) => w,
        None => {
            return Err(CasinoError::MathOverflow);
        },
    };
    if won {
        let new_won = match stats.total_won.checked_add(payout) {
            Some(w) => w,
            None => {
                return Err(CasinoError::MathOverflow);
            },
        };
        let new_wins = match stats.wins.checked_add(1) {
            Some(w) => w,
            None => {
                return Err(CasinoError::MathOverflow);
            },
        };
        stats.total_won = new_won;
        stats.wins = new_wins;
    } else {
        let new_losses = match stats.losses.checked_add(1) {
            Some(l) => l,
            None => {
                return Err(CasinoError::MathOverflow);
            },
        };
        stats.losses = new_losses;
    }
    stats.total_games = new_stats_games;
    stats.total_wagered = new_wagered;
    house.pool = house.pool - payout;
    house.total_payout = new_total_payout;
    vrf_request.status = VrfStatus::Settled;
    vrf_request.settled_at = timestamp;
    vrf_request.result = result_byte;
    vrf_request.payout = payout;
    Ok(payout)
}

/// Expire a pending request whose liveness window has elapsed, refunding the
/// escrowed stake from the pool. On success the caller moves the returned
/// refund back to the player.
pub fn expire_vrf_request(
    house: &mut House,
    vrf_request: &mut VrfRequest,
    slot: u64,
    timestamp: i64,
) -> (r: Result<u64, CasinoError>)
    ensures
        match spec_expire_vrf_request(*old(house), *old(vrf_request), slot, timestamp) {
            Ok((h2, q2, refund)) => r == Ok::<u64, CasinoError>(refund) && *final(house) == h2
                && *final(vrf_request) == q2,
            Err(e) => r == Err::<u64, CasinoError>(e) && *final(house) == *old(house)
                && *final(vrf_request) == *old(vrf_request),
        },
{
    if vrf_request.status != VrfStatus::Pending {
        return Err(CasinoError::VrfAlreadySettled);
    }
    if slot < vrf_request.request_slot {
        return Err(CasinoError::VrfNotExpired);
    }
    let elapsed = slot - vrf_request.request_slot;
    if elapsed < LIVENESS_WINDOW_SLOTS {
        return Err(CasinoError::VrfNotExpired);
    }
    if vrf_request.amount > house.pool {
        return Err(CasinoError::InsufficientPoolBalance);
    }
    let refund = vrf_request.amount;
    house.pool = house.pool - refund;
    vrf_request.status = VrfStatus::Expired;
    vrf_request.settled_at = timestamp;
    Ok(refund)
}

/// Request a binary coin-flip bet on a side in 0..=1.
pub fn vrf_coin_flip_request(
    house: &mut House,
    player: [u8; 32],
    house_key: [u8; 32],
    randomness_account: [u8; 32],
    amount: u64,
    choice: u8,
    timestamp: i64,
    slot: u64,
) -> (r: Result<VrfRequest, CasinoError>)
    requires
        old(house).wf(),
    ensures
        final(house).wf(),
        request_behavior(
            *old(house),
            player,
            house_key,
            randomness_account,
            GameType::CoinFlip,
            amount,
            choice,
            0u16,
            timestamp,
            slot,
            r,
            *final(house),
        ),
{
    vrf_request(
        house,
        player,
        house_key,
        randomness_account,
        GameType::CoinFlip,
        amount,
        choice,
        0,
        timestamp,
        slot,
    )
}

/// Request a discrete dice-roll bet on a target in 1..=5; the bet wins when
/// the roll is at or under the target.
pub fn vrf_dice_roll_request(
    house: &mut House,
    player: [u8; 32],
    house_key: [u8; 32],
    randomness_account: [u8; 32],
    amount: u64,
    target: u8,
    timestamp: i64,
    slot: u64,
) -> (r: Result<VrfRequest, CasinoError>)
    requires
        old(house).wf(),
    ensures
        final(house).wf(),
        request_behavior(
            *old(house),
            player,
            house_key,
            randomness_account,
            GameType::DiceRoll,
            amount,
            target,
            0u16,
            timestamp,
            slot,
            r,
            *final(house),
        ),
{
    vrf_request(
        house,
        player,
        house_key,
        randomness_account,
        GameType::DiceRoll,
        amount,
        target,
        0,
        timestamp,
        slot,
    )
}

/// Request a continuous limbo bet on a target multiplier in 101..=10000
/// centi-units.
pub fn vrf_limbo_request(
    house: &mut House,
    player: [u8; 32],
    house_key: [u8; 32],
    randomness_account: [u8; 32],
    amount: u64,
    target_multiplier: u16,
    timestamp: i64,
    slot: u64,
) -> (r: Result<VrfRequest, CasinoError>)
    requires
        old(house).wf(),
    ensures
        final(house).wf(),
        request_behavior(
            *old(house),
            player,
            house_key,
            randomness_account,
            GameType::Limbo,
            amount,
            0u8,
            target_multiplier,
            timestamp,
            slot,
            r,
            *final(house),
        ),
{
    vrf_request(
        house,
        player,
        house_key,
        randomness_account,
        GameType::Limbo,
        amount,
        0,
        target_multiplier,
        timestamp,
        slot,
    )
}

/// Request a continuous crash bet on a cashout multiplier in 101..=10000
/// centi-units.
pub fn vrf_crash_request(
    house: &mut House,
    player: [u8; 32],
    house_key: [u8; 32],
    randomness_account: [u8; 32],
    amount: u64,
    cashout_multiplier: u16,
    timestamp: i64,
    slot: u64,
) -> (r: Result<VrfRequest, CasinoError>)
    requires
        old(house).wf(),
    ensures
        final(house).wf(),
        request_behavior(
            *old(house),
            player,
            house_key,
            randomness_account,
            GameType::Crash,
            amount,
            0u8,
            cashout_multiplier,
            timestamp,
            slot,
            r,
            *final(house),
        ),
{
    vrf_request(
        house,
        player,
        house_key,
        randomness_account,
        GameType::Crash,
        amount,
        0,
        cashout_multiplier,
        timestamp,
        slot,
    )
}

/// A successful settlement is terminal: the request it leaves behind is
/// settled, and every later settle or expire attempt on it fails with the
/// state error.
pub proof fn lemma_settled_request_is_terminal(
    house: House,
    stats: AgentStats,
    request: VrfRequest,
    digest: Seq<u8>,
    timestamp: i64,
    later_house: House,
    later_stats: AgentStats,
    later_digest: Seq<u8>,
    later_slot: u64,
    later_timestamp: i64,
)
    requires
        spec_vrf_settle(house, stats, request, digest, timestamp) is Ok,
    ensures
        ({
            let (h2, s2, q2, p) = spec_vrf_settle(house, stats, request, digest, timestamp)->Ok_0;
            &&& q2.status == VrfStatus::Settled
            &&& spec_vrf_settle(later_house, later_stats, q2, later_digest, later_timestamp)
                == Err::<(House, AgentStats, VrfRequest, u64), CasinoError>(
                CasinoError::VrfAlreadySettled,
            )
            &&& spec_expire_vrf_request(later_house, q2, later_slot, later_timestamp) == Err::<
                (House, VrfRequest, u64),
                CasinoError,
            >(CasinoError::VrfAlreadySettled)
        }),
{
}

/// A successful expiry is terminal: the request it leaves behind is expired,
/// and every later settle or expire attempt on it fails with the state error.
pub proof fn lemma_expired_request_is_terminal(
    house: House,
    request: VrfRequest,
    slot: u64,
    timestamp: i64,
    later_house: House,
    later_stats: AgentStats,
    later_digest: Seq<u8>,
    later_slot: u64,
    later_timestamp: i64,
)
    requires
        spec_expire_vrf_request(house, request, slot, timestamp) is Ok,
    ensures
        ({
            let (h2, q2, refund) = spec_expire_vrf_request(house, request, slot, timestamp)->Ok_0;
            &&& q2.status == VrfStatus::Expired
            &&& spec_vrf_settle(later_house, later_stats, q2, later_digest, later_timestamp)
                == Err::<(House, AgentStats, VrfRequest, u64), CasinoError>(
                CasinoError::VrfAlreadySettled,
            )
            &&& spec_expire_vrf_request(later_house, q2, later_slot, later_timestamp) == Err::<
                (House, VrfRequest, u64),
                CasinoError,
            >(CasinoError::VrfAlreadySettled)
        }),
{
}

/// Expiry is gated purely by elapsed time: a pending request whose escrowed
/// stake the pool still holds expires exactly when the liveness window has
/// elapsed since its creation height, and fails with the state error
/// otherwise.
pub proof fn lemma_expiry_window(house: House, request: VrfRequest, slot: u64, timestamp: i64)
    requires
        request.status == VrfStatus::Pending,
        request.amount <= house.pool,
    ensures
        spec_expire_vrf_request(house, request, slot, timestamp) is Ok <==> (slot as int
            - request.request_slot as int) >= LIVENESS_WINDOW_SLOTS,
        (slot as int - request.request_slot as int) < LIVENESS_WINDOW_SLOTS
            ==> spec_expire_vrf_request(house, request, slot, timestamp) == Err::<
            (House, VrfRequest, u64),
            CasinoError,
        >(CasinoError::VrfNotExpired),
{
}

} // verus!
