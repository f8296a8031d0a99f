//! The synchronous settlement protocol: one atomic operation from bet to
//! audit record.
//!
//! Admission, seed derivation, outcome mapping, payout and the pool's
//! counter updates all resolve together: if any step fails, nothing is
//! observable from the attempt. The stake flows into the pool and the payout
//! flows out in the same operation, and the produced record carries the
//! entropy that lets any third party replay the outcome.

use vstd::prelude::*;
use crate::errors::CasinoError;
use crate::house::{max_bet_of, AgentStats, House};
use crate::liquidity::{
    admit_bet, max_bet_overflows, param_error_of, valid_game_params, worst_case_overflows,
    worst_case_payout, worst_case_payout_of,
};
use crate::outcome::GameType;
use crate::seed::{combine_seeds, combined_seed_of, generate_seed, server_seed_of};
use crate::settlement::{bet_wins, map_outcome, outcome_byte_of};

verus! {

/// The immutable audit record of one completed synchronous bet. The recorded
/// seeds let any third party replay the outcome.
#[derive(Clone, Copy, Debug)]
pub struct GameRecord {
    pub player: [u8; 32],
    pub game_type: GameType,
    /// The stake.
    pub amount: u64,
    /// Choice parameter of the binary and discrete games.
    pub choice: u8,
    /// Target multiplier of the continuous games, in centi-units.
    pub target_multiplier: u16,
    /// The mapped outcome byte.
    pub result: u8,
    /// The net amount paid to the player; zero on a loss.
    pub payout: u64,
    /// Server entropy used, recorded for replay.
    pub server_seed: [u8; 32],
    /// Client entropy used, recorded for replay.
    pub client_seed: [u8; 32],
    pub timestamp: i64,
    pub slot: u64,
}

/// Whether a bet passes every admission check against the pool's current
/// state.
pub open spec fn bet_admitted(
    house: House,
    game_type: GameType,
    amount: u64,
    choice: u8,
    target_multiplier: u16,
) -> bool {
    &&& valid_game_params(game_type, choice, target_multiplier)
    &&& amount >= house.min_bet
    &&& !max_bet_overflows(house)
    &&& amount <= max_bet_of(house.pool as int, house.max_bet_percent as int)
    &&& !worst_case_overflows(game_type, amount, choice, target_multiplier)
    &&& worst_case_payout_of(game_type, amount, choice, target_multiplier, house.house_edge_bps)
        <= house.pool
}

/// Whether settling an admitted synchronous bet would overflow a 64-bit
/// counter anywhere.
pub open spec fn play_overflows(
    house: House,
    stats: AgentStats,
    amount: u64,
    won: bool,
    payout: int,
) -> bool {
    ||| house.pool + amount > u64::MAX
    ||| house.total_games + 1 > u64::MAX
    ||| house.total_volume + amount > u64::MAX
    ||| house.total_payout + payout > u64::MAX
    ||| stats.total_games + 1 > u64::MAX
    ||| stats.total_wagered + amount > u64::MAX
    ||| (won && (stats.total_won + payout > u64::MAX || stats.wins + 1 > u64::MAX))
    ||| (!won && stats.losses + 1 > u64::MAX)
}

/// Play a bet synchronously: admit it, derive the seed from the player, the
/// current height and timestamp, the pool's identity and the client entropy,
/// map the outcome, and settle in the same operation. The stake flows into
/// the pool and the payout (if any) back out; the caller moves both. The
/// returned record replays to its recorded result.
pub fn play_synchronous(
    house: &mut House,
    stats: &mut AgentStats,
    player: [u8; 32],
    house_key: [u8; 32],
    game_type: GameType,
    amount: u64,
    choice: u8,
    target_multiplier: u16,
    client_seed: [u8; 32],
    slot: u64,
    timestamp: i64,
) -> (r: Result<GameRecord, CasinoError>)
    requires
        old(house).wf(),
    ensures
        final(house).wf(),
        r is Err ==> *final(house) == *old(house) && *final(stats) == *old(stats),
        !valid_game_params(game_type, choice, target_multiplier) ==> r == Err::<
            GameRecord,
            CasinoError,
        >(param_error_of(game_type)),
        valid_game_params(game_type, choice, target_multiplier) && amount < old(house).min_bet
            ==> r == Err::<GameRecord, CasinoError>(CasinoError::BetTooSmall),
        valid_game_params(game_type, choice, target_multiplier) && amount >= old(house).min_bet
            && max_bet_overflows(*old(house)) ==> r == Err::<GameRecord, CasinoError>(
            CasinoError::MathOverflow,
        ),
        valid_game_params(game_type, choice, target_multiplier) && amount >= old(house).min_bet
            && !max_bet_overflows(*old(house)) && amount > max_bet_of(
            old(house).pool as int,
            old(house).max_bet_percent as int,
        ) ==> r == Err::<GameRecord, CasinoError>(CasinoError::BetTooLarge),
        valid_game_params(game_type, choice, target_multiplier) && amount >= old(house).min_bet
            && !max_bet_overflows(*old(house)) && amount <= max_bet_of(
            old(house).pool as int,
            old(house).max_bet_percent as int,
        ) && worst_case_overflows(game_type, amount, choice, target_multiplier) ==> r == Err::<
            GameRecord,
            CasinoError,
        >(CasinoError::MathOverflow),
        valid_game_params(game_type, choice, target_multiplier) && amount >= old(house).min_bet
            && !max_bet_overflows(*old(house)) && amount <= max_bet_of(
            old(house).pool as int,
            old(house).max_bet_percent as int,
        ) && !worst_case_overflows(game_type, amount, choice, target_multiplier)
            && worst_case_payout_of(
            game_type,
            amount,
            choice,
            target_multiplier,
            old(house).house_edge_bps,
        ) > old(house).pool ==> r == Err::<GameRecord, CasinoError>(
            CasinoError::InsufficientLiquidity,
        ),
        ({
            let server = server_seed_of(player@, slot, timestamp, house_key@);
            let digest = combined_seed_of(server, client_seed@, player@);
            let won = bet_wins(
                game_type,
                digest,
                choice,
                target_multiplier,
                old(house).house_edge_bps,
            );
            let payout = if won {
                worst_case_payout_of(
                    game_type,
                    amount,
                    choice,
                    target_multiplier,
                    old(house).house_edge_bps,
                )
            } else {
                0
            };
            bet_admitted(*old(house), game_type, amount, choice, target_multiplier) ==> if
                play_overflows(*old(house), *old(stats), amount, won, payout) {
                r == Err::<GameRecord, CasinoError>(CasinoError::MathOverflow)
            } else {
                &&& (r matches Ok(record) && record == (GameRecord {
                    player,
                    game_type,
                    amount,
                    choice,
                    target_multiplier,
                    result: outcome_byte_of(game_type, digest, old(house).house_edge_bps),
                    payout: payout as u64,
                    server_seed: record.server_seed,
                    client_seed,
                    timestamp,
                    slot,
                }) && record.server_seed@ == server)
                &&& *final(house) == (House {
                    pool: (old(house).pool + amount - payout) as u64,
                    total_games: (old(house).total_games + 1) as u64,
                    total_volume: (old(house).total_volume + amount) as u64,
                    total_payout: (old(house).total_payout + payout) as u64,
                    ..*old(house)
                })
                &&& *final(stats) == (AgentStats {
                    total_games: (old(stats).total_games + 1) as u64,
                    total_wagered: (old(stats).total_wagered + amount) as u64,
                    total_won: if won {
                        (old(stats).total_won + payout) as u64
                    } else {
                        old(stats).total_won
                    },
                    wins: if won {
                        (old(stats).wins + 1) as u64
                    } else {
                        old(stats).wins
                    },
                    losses: if won {
                        old(stats).losses
                    } else {
                        (old(stats).losses + 1) as u64
                    },
                    ..*old(stats)
                })
            }
        }),
        r matches Ok(record) ==> outcome_byte_of(
            game_type,
            combined_seed_of(record.server_seed@, record.client_seed@, record.player@),
            old(house).house_edge_bps,
        ) == record.result,
{
    let valid = match game_type {
        GameType::CoinFlip => choice <= 1,
        GameType::DiceRoll => 1 <= choice && choice <= 5,
        GameType::Limbo => 101 <= target_multiplier && target_multiplier <= 10000,
        GameType::Crash => 101 <= target_multiplier && target_multiplier <= 10000,
        GameType::PvPChallenge => false,
    };
    if !valid {
        let e = match game_type {
            GameType::CoinFlip => CasinoError::InvalidChoice,
            GameType::DiceRoll => CasinoError::InvalidTarget,
            GameType::Limbo => CasinoError::InvalidMultiplier,
            GameType::Crash => CasinoError::InvalidMultiplier,
            GameType::PvPChallenge => CasinoError::InvalidChoice,
        };
        return Err(e);
    }
    let worst_case = match admit_bet(house, amount, game_type, choice, target_multiplier) {
        Ok(w) => w,
        Err(e) => {
            return Err(e);
        },
    };
    proof {
        crate::liquidity::lemma_worst_case_payout_in_range(
            game_type,
            amount,
            choice,
            target_multiplier,
            house.house_edge_bps,
        );
    }
    let server_seed = generate_seed(&player, slot, timestamp, &house_key);
    let combined = combine_seeds(&server_seed, &client_seed, &player);
    let (won, result_byte) = map_outcome(
        game_type,
        &combined,
        choice,
        target_multiplier,
        house.house_edge_bps,
    );
    let payout: u64 = if won {
        worst_case
    } else {
        0
    };
    let escrowed = match house.pool.checked_add(amount) {
        Some(p) => p,
        None => {
            return Err(CasinoError::MathOverflow);
        },
    };
    let new_total_games = match house.total_games.checked_add(1) {
        Some(g) => g,
        None => {
            return Err(CasinoError::MathOverflow);
        },
    };
    let new_total_volume = match house.total_volume.checked_add(amount) {
        Some(v) => v,
        None => {
            return Err(CasinoError::MathOverflow);
        },
    };
    let new_total_payout = match house.total_payout.checked_add(payout) {
        Some(p) => p,
        None => {
            return Err(CasinoError::MathOverflow);
        },
    };
    let new_stats_games = match stats.total_games.checked_add(1) {
        Some(g) => g,
        None => {
            return Err(CasinoError::MathOverflow);
        },
    };
    let new_wagered = match stats.total_wagered.checked_add(amount) {
        Some(w) => w,
        None => {
            return Err(CasinoError::MathOverflow);
        },
    };
    if won {
        let new_won = match stats.total_won.checked_add(payout) {
            Some(w) => w,
            None => {
                return Err(CasinoError::MathOverflow);
            },
        };
        let new_wins = match stats.wins.checked_add(1) {
            Some(w) => w,
            None => {
                return Err(CasinoError::MathOverflow);
            },
        };
        stats.total_won = new_won;
        stats.wins = new_wins;
    } else {
        let new_losses = match stats.losses.checked_add(1) {
            Some(l) => l,
            None => {
                return Err(CasinoError::MathOverflow);
            },
        };
        stats.losses = new_losses;
    }
    house.pool = escrowed - payout;
    house.total_games = new_total_games;
    house.total_volume = new_total_volume;
    house.total_payout = new_total_payout;
    stats.total_games = new_stats_games;
    stats.total_wagered = new_wagered;
    Ok(
        GameRecord {
            player,
            game_type,
            amount,
            choice,
            target_multiplier,
            result: result_byte,
            payout,
            server_seed,
            client_seed,
            timestamp,
            slot,
        },
    )
}

/// Replay a synchronous bet's record from its recorded entropy: re-mix the
/// recorded server and client seeds with the player's identity, map the
/// outcome under the given edge, and check that it reproduces the recorded
/// result. Every record the synchronous settlement produced verifies under
/// the pool's edge at play time.
pub fn verify_game_record(record: &GameRecord, edge_bps: u16) -> (r: bool)
    requires
        edge_bps <= 10000,
    ensures
        r == (outcome_byte_of(
            record.game_type,
            combined_seed_of(record.server_seed@, record.client_seed@, record.player@),
            edge_bps,
        ) == record.result),
{
    let combined = combine_seeds(&record.server_seed, &record.client_seed, &record.player);
    let (_, result_byte) = map_outcome(
        record.game_type,
        &combined,
        record.choice,
        record.target_multiplier,
        edge_bps,
    );
    result_byte == record.result
}

} // verus!
