//! Player-versus-player coin-flip challenges: the synchronous settlement
//! protocol.
//!
//! A challenger escrows a stake and picks a side; an acceptor takes the
//! opposite side, which settles the flip in the same operation: the seed is
//! derived, the outcome mapped, the pot split between the winner and the
//! house, and the entropy recorded so that anyone can replay the mixing and
//! confirm the outcome.

use vstd::prelude::*;
use crate::errors::CasinoError;
use crate::house::{AgentStats, House};
use crate::outcome::{coin_flip_outcome, coin_flip_outcome_of};
use crate::payout::{edge_amount_of, lemma_edge_amount_bounds};
use crate::seed::{combine_seeds, combined_seed_of, generate_seed, keys_equal, server_seed_of};

verus! {

/// The life of a challenge: open until it is accepted (settling the flip) or
/// cancelled by its challenger.
#[derive(Clone, Copy, Debug, PartialEq, Eq, Structural)]
pub enum ChallengeStatus {
    Open,
    Completed,
    Cancelled,
}

/// A player-versus-player coin-flip challenge. Once completed it doubles as
/// the immutable audit record of the flip: the recorded seeds let any third
/// party replay the outcome.
#[derive(Clone, Copy, Debug)]
pub struct Challenge {
    /// The player who opened the challenge and escrowed the first stake.
    pub challenger: [u8; 32],
    /// The player who accepted; all zero while the challenge is open.
    pub acceptor: [u8; 32],
    /// The stake each side puts up.
    pub amount: u64,
    /// The challenger's side: 0 or 1.
    pub choice: u8,
    pub status: ChallengeStatus,
    /// The flipped side, recorded at completion.
    pub result: u8,
    /// The winner's identity, recorded at completion.
    pub winner: [u8; 32],
    /// Server entropy, recorded at completion for replay.
    pub server_seed: [u8; 32],
    /// Client entropy, recorded at completion for replay.
    pub client_seed: [u8; 32],
    pub created_at: i64,
    pub completed_at: i64,
    /// Caller-chosen distinguisher between a player's challenges.
    pub nonce: u64,
}

/// Whether settling an accepted challenge would overflow a 64-bit counter
/// anywhere: the pot, the house's cut, the pool counters, or either player's
/// record.
pub open spec fn accept_overflows(
    house: House,
    challenger_stats: AgentStats,
    acceptor_stats: AgentStats,
    amount: u64,
    challenger_won: bool,
    total_pot: int,
    house_take: int,
    payout: int,
) -> bool {
    ||| total_pot > u64::MAX
    ||| total_pot * house.house_edge_bps > u64::MAX
    ||| house.pool + house_take > u64::MAX
    ||| house.total_games + 1 > u64::MAX
    ||| house.total_volume + total_pot > u64::MAX
    ||| challenger_stats.total_games + 1 > u64::MAX
    ||| challenger_stats.total_wagered + amount > u64::MAX
    ||| challenger_stats.pvp_games + 1 > u64::MAX
    ||| acceptor_stats.total_games + 1 > u64::MAX
    ||| acceptor_stats.total_wagered + amount > u64::MAX
    ||| acceptor_stats.pvp_games + 1 > u64::MAX
    ||| (challenger_won && (challenger_stats.total_won + payout > u64::MAX
        || challenger_stats.wins + 1 > u64::MAX || challenger_stats.pvp_wins + 1 > u64::MAX
        || acceptor_stats.losses + 1 > u64::MAX))
    ||| (!challenger_won && (acceptor_stats.total_won + payout > u64::MAX || acceptor_stats.wins
        + 1 > u64::MAX || acceptor_stats.pvp_wins + 1 > u64::MAX || challenger_stats.losses + 1
        > u64::MAX))
}

/// Open a challenge: the challenger escrows the stake (the caller moves the
/// funds into the challenge's own escrow) and picks a side.
pub fn create_challenge(
    house: &House,
    challenger: [u8; 32],
    amount: u64,
    choice: u8,
    nonce: u64,
    timestamp: i64,
) -> (r: Result<Challenge, CasinoError>)
    ensures
        choice > 1 ==> r == Err::<Challenge, CasinoError>(CasinoError::InvalidChoice),
        choice <= 1 && amount == 0 ==> r == Err::<Challenge, CasinoError>(
            CasinoError::InvalidAmount,
        ),
        choice <= 1 && amount > 0 && amount < house.min_bet ==> r == Err::<Challenge, CasinoError>(
            CasinoError::BetTooSmall,
        ),
        choice <= 1 && amount > 0 && amount >= house.min_bet ==> (r matches Ok(c) && c
            == (Challenge {
            challenger,
            acceptor: c.acceptor,
            amount,
            choice,
            status: ChallengeStatus::Open,
            result: 0u8,
            winner: c.winner,
            server_seed: c.server_seed,
            client_seed: c.client_seed,
            created_at: timestamp,
            completed_at: 0i64,
            nonce,
        }) && c.acceptor@ =~= Seq::new(32, |i: int| 0u8) && c.winner@ =~= Seq::new(
            32,
            |i: int| 0u8,
        ) && c.server_seed@ =~= Seq::new(32, |i: int| 0u8) && c.client_seed@ =~= Seq::new(
            32,
            |i: int| 0u8,
        )),
{
    if choice > 1 {
        return Err(CasinoError::InvalidChoice);
    }
    if amount == 0 {
        return Err(CasinoError::InvalidAmount);
    }
    if amount < house.min_bet {
        return Err(CasinoError::BetTooSmall);
    }
    let zero: [u8; 32] = [0u8; 32];
    Ok(
        Challenge {
            challenger,
            acceptor: zero,
            amount,
            choice,
            status: ChallengeStatus::Open,
            result: 0,
            winner: zero,
            server_seed: zero,
            client_seed: zero,
            created_at: timestamp,
            completed_at: 0,
            nonce,
        },
    )
}

/// Accept an open challenge, settling the flip in the same operation. The
/// acceptor escrows a matching stake (the caller moves the funds), the seed
/// is mixed from the acceptor, the current height and timestamp, the
/// challenge's own identity and the client entropy, the outcome decides the
/// winner, the house's cut moves to the pool, and the rest of the pot goes to
/// the winner. The returned amount is the winner's payout, which the caller
/// moves out of the escrow. The recorded seeds replay to the recorded result.
pub fn accept_challenge(
    house: &mut House,
    challenger_stats: &mut AgentStats,
    acceptor_stats: &mut AgentStats,
    challenge: &mut Challenge,
    challenge_key: [u8; 32],
    acceptor: [u8; 32],
    client_seed: [u8; 32],
    slot: u64,
    timestamp: i64,
) -> (r: Result<u64, CasinoError>)
    requires
        old(house).wf(),
    ensures
        final(house).wf(),
        r is Err ==> *final(house) == *old(house) && *final(challenger_stats) == *old(
            challenger_stats,
        ) && *final(acceptor_stats) == *old(acceptor_stats) && *final(challenge) == *old(
            challenge,
        ),
        old(challenge).status != ChallengeStatus::Open ==> r == Err::<u64, CasinoError>(
            CasinoError::ChallengeNotOpen,
        ),
        old(challenge).status == ChallengeStatus::Open && old(challenge).challenger@ == acceptor@
            ==> r == Err::<u64, CasinoError>(CasinoError::CannotAcceptOwnChallenge),
        ({
            let server = server_seed_of(acceptor@, slot, timestamp, challenge_key@);
            let digest = combined_seed_of(server, client_seed@, old(challenge).challenger@);
            let result = coin_flip_outcome_of(digest);
            let challenger_won = result == old(challenge).choice;
            let total_pot = 2 * old(challenge).amount as int;
            let house_take = edge_amount_of(total_pot, old(house).house_edge_bps as int);
            let payout = total_pot - house_take;
            old(challenge).status == ChallengeStatus::Open && old(challenge).challenger@
                != acceptor@ ==> if accept_overflows(
                *old(house),
                *old(challenger_stats),
                *old(acceptor_stats),
                old(challenge).amount,
                challenger_won,
                total_pot,
                house_take,
                payout,
            ) {
                r == Err::<u64, CasinoError>(CasinoError::MathOverflow)
            } else {
                &&& r == Ok::<u64, CasinoError>(payout as u64)
                &&& *final(house) == (House {
                    pool: (old(house).pool + house_take) as u64,
                    total_games: (old(house).total_games + 1) as u64,
                    total_volume: (old(house).total_volume + total_pot) as u64,
                    ..*old(house)
                })
                &&& *final(challenger_stats) == (AgentStats {
                    total_games: (old(challenger_stats).total_games + 1) as u64,
                    total_wagered: (old(challenger_stats).total_wagered + old(
                        challenge,
                    ).amount) as u64,
                    pvp_games: (old(challenger_stats).pvp_games + 1) as u64,
                    total_won: if challenger_won {
                        (old(challenger_stats).total_won + payout) as u64
                    } else {
                        old(challenger_stats).total_won
                    },
                    wins: if challenger_won {
                        (old(challenger_stats).wins + 1) as u64
                    } else {
                        old(challenger_stats).wins
                    },
                    pvp_wins: if challenger_won {
                        (old(challenger_stats).pvp_wins + 1) as u64
                    } else {
                        old(challenger_stats).pvp_wins
                    },
                    losses: if challenger_won {
                        old(challenger_stats).losses
                    } else {
                        (old(challenger_stats).losses + 1) as u64
                    },
                    ..*old(challenger_stats)
                })
                &&& *final(acceptor_stats) == (AgentStats {
                    total_games: (old(acceptor_stats).total_games + 1) as u64,
                    total_wagered: (old(acceptor_stats).total_wagered + old(
                        challenge,
                    ).amount) as u64,
                    pvp_games: (old(acceptor_stats).pvp_games + 1) as u64,
                    total_won: if challenger_won {
                        old(acceptor_stats).total_won
                    } else {
                        (old(acceptor_stats).total_won + payout) as u64
                    },
                    wins: if challenger_won {
                        old(acceptor_stats).wins
                    } else {
                        (old(acceptor_stats).wins + 1) as u64
                    },
                    pvp_wins: if challenger_won {
                        old(acceptor_stats).pvp_wins
                    } else {
                        (old(acceptor_stats).pvp_wins + 1) as u64
                    },
                    losses: if challenger_won {
                        (old(acceptor_stats).losses + 1) as u64
                    } else {
                        old(acceptor_stats).losses
                    },
                    ..*old(acceptor_stats)
                })
                &&& *final(challenge) == (Challenge {
                    status: ChallengeStatus::Completed,
                    acceptor,
                    winner: if challenger_won {
                        old(challenge).challenger
                    } else {
                        acceptor
                    },
                    result,
                    server_seed: final(challenge).server_seed,
                    client_seed,
                    completed_at: timestamp,
                    ..*old(challenge)
                })
                &&& final(challenge).server_seed@ == server
            }
        }),
        r is Ok ==> final(challenge).status == ChallengeStatus::Completed && coin_flip_outcome_of(
            combined_seed_of(
                final(challenge).server_seed@,
                final(challenge).client_seed@,
                final(challenge).challenger@,
            ),
        ) == final(challenge).result,
{
    if challenge.status != ChallengeStatus::Open {
        return Err(CasinoError::ChallengeNotOpen);
    }
    if keys_equal(&challenge.challenger, &acceptor) {
        return Err(CasinoError::CannotAcceptOwnChallenge);
    }
    let amount = challenge.amount;
    let server_seed = generate_seed(&acceptor, slot, timestamp, &challenge_key);
    let combined = combine_seeds(&server_seed, &client_seed, &challenge.challenger);
    let result = coin_flip_outcome(&combined);
    let challenger_won = result == challenge.choice;

    let total_pot = match amount.checked_mul(2) {
        Some(p) => p,
        None => {
            return Err(CasinoError::MathOverflow);
        },
    };
    let scaled = match total_pot.checked_mul(house.house_edge_bps as u64) {
        Some(s) => s,
        None => {
            return Err(CasinoError::MathOverflow);
        },
    };
    let house_take = scaled / 10000;
    proof {
        lemma_edge_amount_bounds(total_pot as int, house.house_edge_bps as int);
    }
    let winner_payout = total_pot - house_take;

    let new_pool = match house.pool.checked_add(house_take) {
        Some(p) => p,
        None => {
            return Err(CasinoError::MathOverflow);
        },
    };
    let new_total_games = match house.total_games.checked_add(1) {
        Some(g) => g,
        None => {
            return Err(CasinoError::MathOverflow);
        },
    };
    let new_total_volume = match house.total_volume.checked_add(total_pot) {
        Some(v) => v,
        None => {
            return Err(CasinoError::MathOverflow);
        },
    };
    let cs_games = match challenger_stats.total_games.checked_add(1) {
        Some(v) => v,
        None => {
            return Err(CasinoError::MathOverflow);
        },
    };
    let cs_wagered = match challenger_stats.total_wagered.checked_add(amount) {
        Some(v) => v,
        None => {
            return Err(CasinoError::MathOverflow);
        },
    };
    let cs_pvp = match challenger_stats.pvp_games.checked_add(1) {
        Some(v) => v,
        None => {
            return Err(CasinoError::MathOverflow);
        },
    };
    let as_games = match acceptor_stats.total_games.checked_add(1) {
        Some(v) => v,
        None => {
            return Err(CasinoError::MathOverflow);
        },
    };
    let as_wagered = match acceptor_stats.total_wagered.checked_add(amount) {
        Some(v) => v,
        None => {
            return Err(CasinoError::MathOverflow);
        },
    };
    let as_pvp = match acceptor_stats.pvp_games.checked_add(1) {
        Some(v) => v,
        None => {
            return Err(CasinoError::MathOverflow);
        },
    };
    if challenger_won {
        let cs_won = match challenger_stats.total_won.checked_add(winner_payout) {
            Some(v) => v,
            None => {
                return Err(CasinoError::MathOverflow);
            },
        };
        let cs_wins = match challenger_stats.wins.checked_add(1) {
            Some(v) => v,
            None => {
                return Err(CasinoError::MathOverflow);
            },
        };
        let cs_pvp_wins = match challenger_stats.pvp_wins.checked_add(1) {
            Some(v) => v,
            None => {
                return Err(CasinoError::MathOverflow);
            },
        };
        let as_losses = match acceptor_stats.losses.checked_add(1) {
            Some(v) => v,
            None => {
                return Err(CasinoError::MathOverflow);
            },
        };
        challenger_stats.total_won = cs_won;
        challenger_stats.wins = cs_wins;
        challenger_stats.pvp_wins = cs_pvp_wins;
        acceptor_stats.losses = as_losses;
    } else {
        let as_won = match acceptor_stats.total_won.checked_add(winner_payout) {
            Some(v) => v,
            None => {
                return Err(CasinoError::MathOverflow);
            },
        };
        let as_wins = match acceptor_stats.wins.checked_add(1) {
            Some(v) => v,
            None => {
                return Err(CasinoError::MathOverflow);
            },
        };
        let as_pvp_wins = match acceptor_stats.pvp_wins.checked_add(1) {
            Some(v) => v,
            None => {
                return Err(CasinoError::MathOverflow);
            },
        };
        let cs_losses = match challenger_stats.losses.checked_add(1) {
            Some(v) => v,
            None => {
                return Err(CasinoError::MathOverflow);
            },
        };
        acceptor_stats.total_won = as_won;
        acceptor_stats.wins = as_wins;
        acceptor_stats.pvp_wins = as_pvp_wins;
        challenger_stats.losses = cs_losses;
    }
    house.pool = new_pool;
    house.total_games = new_total_games;
    house.total_volume = new_total_volume;
    challenger_stats.total_games = cs_games;
    challenger_stats.total_wagered = cs_wagered;
    challenger_stats.pvp_games = cs_pvp;
    acceptor_stats.total_games = as_games;
    acceptor_stats.total_wagered = as_wagered;
    acceptor_stats.pvp_games = as_pvp;
    let winner = if challenger_won {
        challenge.challenger
    } else {
        acceptor
    };
    challenge.status = ChallengeStatus::Completed;
    challenge.acceptor = acceptor;
    challenge.winner = winner;
    challenge.result = result;
    challenge.server_seed = server_seed;
    challenge.client_seed = client_seed;
    challenge.completed_at = timestamp;
    Ok(winner_payout)
}

/// Cancel an open challenge; only its challenger may do so, and the escrowed
/// stake (the returned amount) flows back to them.
pub fn cancel_challenge(challenge: &mut Challenge, challenger: [u8; 32]) -> (r: Result<
    u64,
    CasinoError,
>)
    ensures
        old(challenge).status != ChallengeStatus::Open ==> r == Err::<u64, CasinoError>(
            CasinoError::ChallengeNotOpen,
        ),
        old(challenge).status == ChallengeStatus::Open && old(challenge).challenger@
            != challenger@ ==> r == Err::<u64, CasinoError>(CasinoError::NotChallengeOwner),
        old(challenge).status == ChallengeStatus::Open && old(challenge).challenger@ == challenger@
            ==> r == Ok::<u64, CasinoError>(old(challenge).amount) && *final(challenge)
            == (Challenge { status: ChallengeStatus::Cancelled, ..*old(challenge) }),
        r is Err ==> *final(challenge) == *old(challenge),
{
    if challenge.status != ChallengeStatus::Open {
        return Err(CasinoError::ChallengeNotOpen);
    }
    if !keys_equal(&challenge.challenger, &challenger) {
        return Err(CasinoError::NotChallengeOwner);
    }
    challenge.status = ChallengeStatus::Cancelled;
    Ok(challenge.amount)
}

/// Replay a completed challenge from its recorded entropy: re-mix the
/// recorded server and client seeds with the challenger's identity and check
/// that the outcome reproduces the recorded result. Every challenge the
/// accept transition completed verifies.
pub fn verify_challenge_result(challenge: &Challenge) -> (r: bool)
    ensures
        r == (challenge.status == ChallengeStatus::Completed && coin_flip_outcome_of(
            combined_seed_of(
                challenge.server_seed@,
                challenge.client_seed@,
                challenge.challenger@,
            ),
        ) == challenge.result),
{
    if challenge.status != ChallengeStatus::Completed {
        return false;
    }
    let combined = combine_seeds(
        &challenge.server_seed,
        &challenge.client_seed,
        &challenge.challenger,
    );
    let outcome = coin_flip_outcome(&combined);
    outcome == challenge.result
}

} // verus!
