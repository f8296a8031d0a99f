//! Admission of a bet against the pool's current state, before any fund
//! movement.
//!
//! A bet is admitted exactly when its stake meets the pool's minimum, stays
//! under the percentage cap of the current balance, and the worst case the
//! bet could ever cost the pool is covered by that balance. The check runs
//! against the pool state at the moment of commitment: at request time and
//! again at settlement time in the asynchronous protocol, since the balance
//! may have moved in between.

use vstd::prelude::*;
use crate::errors::CasinoError;
use crate::house::{max_bet_of, House};
use crate::outcome::GameType;
use crate::payout::{calculate_payout, gross_of, lemma_net_nonnegative, net_of};

verus! {

/// Whether a game's choice parameters are well-formed: a side in 0..=1 for
/// the binary game, a target in 1..=5 for the six-sided discrete game (6
/// would win unconditionally), and a target multiplier in 101..=10000
/// centi-units for the continuous games. The player-versus-player game does
/// not run against the pool and is never admitted here.
pub open spec fn valid_game_params(game_type: GameType, choice: u8, target_multiplier: u16) -> bool {
    match game_type {
        GameType::CoinFlip => choice <= 1,
        GameType::DiceRoll => 1 <= choice <= 5,
        GameType::Limbo => 101 <= target_multiplier <= 10000,
        GameType::Crash => 101 <= target_multiplier <= 10000,
        GameType::PvPChallenge => false,
    }
}

/// The validation error a game's malformed choice parameters draw.
pub open spec fn param_error_of(game_type: GameType) -> CasinoError {
    match game_type {
        GameType::CoinFlip => CasinoError::InvalidChoice,
        GameType::DiceRoll => CasinoError::InvalidTarget,
        GameType::Limbo => CasinoError::InvalidMultiplier,
        GameType::Crash => CasinoError::InvalidMultiplier,
        GameType::PvPChallenge => CasinoError::InvalidChoice,
    }
}

/// The multiplier a winning bet pays at: an even double for the binary game,
/// 600 over the target for the discrete game, and the chosen target for the
/// continuous games.
pub open spec fn win_multiplier_of(game_type: GameType, choice: u8, target_multiplier: u16) -> int {
    match game_type {
        GameType::CoinFlip => 200,
        GameType::DiceRoll => 600int / (choice as int),
        GameType::Limbo => target_multiplier as int,
        GameType::Crash => target_multiplier as int,
        GameType::PvPChallenge => 0,
    }
}

/// The most this bet could ever cost the pool: the payout of a win. The
/// binary and discrete games pay the stake at the win multiplier net of the
/// edge; the continuous games bake the edge into the outcome transform and
/// pay gross.
pub open spec fn worst_case_payout_of(
    game_type: GameType,
    amount: u64,
    choice: u8,
    target_multiplier: u16,
    edge_bps: u16,
) -> int {
    match game_type {
        GameType::CoinFlip => net_of(amount as int, 200, edge_bps as int),
        GameType::DiceRoll => net_of(amount as int, 600int / (choice as int), edge_bps as int),
        GameType::Limbo => gross_of(amount as int, target_multiplier as int),
        GameType::Crash => gross_of(amount as int, target_multiplier as int),
        GameType::PvPChallenge => 0,
    }
}

/// Whether the worst-case computation overflows the 64-bit output width: the
/// gross payout at the win multiplier does not fit.
pub open spec fn worst_case_overflows(
    game_type: GameType,
    amount: u64,
    choice: u8,
    target_multiplier: u16,
) -> bool {
    gross_of(amount as int, win_multiplier_of(game_type, choice, target_multiplier)) > u64::MAX
}

/// Compute the worst-case payout of a bet, failing with `MathOverflow`
/// exactly when its gross payout does not fit in 64 bits.
pub fn worst_case_payout(
    game_type: GameType,
    amount: u64,
    choice: u8,
    target_multiplier: u16,
    edge_bps: u16,
) -> (r: Result<u64, CasinoError>)
    requires
        valid_game_params(game_type, choice, target_multiplier),
        edge_bps <= 10000,
    ensures
        worst_case_overflows(game_type, amount, choice, target_multiplier) ==> r == Err::<
            u64,
            CasinoError,
        >(CasinoError::MathOverflow),
        !worst_case_overflows(game_type, amount, choice, target_multiplier) ==> r == Ok::<
            u64,
            CasinoError,
        >(worst_case_payout_of(game_type, amount, choice, target_multiplier, edge_bps) as u64),
{
    match game_type {
        GameType::CoinFlip => {
            match calculate_payout(amount, 200, edge_bps) {
                Ok((_, net)) => Ok(net),
                Err(e) => Err(e),
            }
        },
        GameType::DiceRoll => {
            let multiplier = (600u64 / (choice as u64)) as u16;
            match calculate_payout(amount, multiplier, edge_bps) {
                Ok((_, net)) => Ok(net),
                Err(e) => Err(e),
            }
        },
        GameType::Limbo | GameType::Crash => {
            proof {
                vstd::arithmetic::mul::lemma_mul_nonnegative(
                    amount as int,
                    target_multiplier as int,
                );
                assert(amount as int * target_multiplier as int <= u128::MAX)
                    by (nonlinear_arith);
                vstd::arithmetic::div_mod::lemma_div_pos_is_pos(
                    amount as int * target_multiplier as int,
                    100,
                );
            }
            let wide: u128 = (amount as u128) * (target_multiplier as u128) / 100;
            if wide > u64::MAX as u128 {
                Err(CasinoError::MathOverflow)
            } else {
                Ok(wide as u64)
            }
        },
        GameType::PvPChallenge => Ok(0),
    }
}

/// The worst-case payout is never negative and never exceeds the gross payout
/// at the win multiplier, so when that gross payout fits in 64 bits, so does
/// the worst case.
pub proof fn lemma_worst_case_payout_in_range(
    game_type: GameType,
    amount: u64,
    choice: u8,
    target_multiplier: u16,
    edge_bps: u16,
)
    requires
        valid_game_params(game_type, choice, target_multiplier),
        edge_bps <= 10000,
    ensures
        0 <= worst_case_payout_of(game_type, amount, choice, target_multiplier, edge_bps)
            <= gross_of(amount as int, win_multiplier_of(game_type, choice, target_multiplier)),
{
    match game_type {
        GameType::CoinFlip => {
            lemma_net_nonnegative(amount as int, 200, edge_bps as int);
        },
        GameType::DiceRoll => {
            vstd::arithmetic::div_mod::lemma_div_pos_is_pos(600, choice as int);
            lemma_net_nonnegative(amount as int, 600int / (choice as int), edge_bps as int);
        },
        GameType::Limbo | GameType::Crash => {
            vstd::arithmetic::mul::lemma_mul_nonnegative(amount as int, target_multiplier as int);
            vstd::arithmetic::div_mod::lemma_div_pos_is_pos(
                amount as int * target_multiplier as int,
                100,
            );
        },
        GameType::PvPChallenge => {},
    }
}

/// Whether computing the percentage cap overflows: the pool balance times the
/// maximum-bet percentage does not fit in 64 bits.
pub open spec fn max_bet_overflows(house: House) -> bool {
    house.pool * house.max_bet_percent > u64::MAX
}

/// Approve or reject a bet against the pool's current state. Checks, in order:
/// the stake meets the minimum, the stake stays under the percentage cap of
/// the current balance, and the worst-case payout is covered by the current
/// balance. Rejection moves no funds and changes nothing.
pub fn admit_bet(
    house: &House,
    amount: u64,
    game_type: GameType,
    choice: u8,
    target_multiplier: u16,
) -> (r: Result<u64, CasinoError>)
    requires
        house.wf(),
        valid_game_params(game_type, choice, target_multiplier),
    ensures
        amount < house.min_bet ==> r == Err::<u64, CasinoError>(CasinoError::BetTooSmall),
        amount >= house.min_bet && max_bet_overflows(*house) ==> r == Err::<u64, CasinoError>(
            CasinoError::MathOverflow,
        ),
        amount >= house.min_bet && !max_bet_overflows(*house) && amount > max_bet_of(
            house.pool as int,
            house.max_bet_percent as int,
        ) ==> r == Err::<u64, CasinoError>(CasinoError::BetTooLarge),
        amount >= house.min_bet && !max_bet_overflows(*house) && amount <= max_bet_of(
            house.pool as int,
            house.max_bet_percent as int,
        ) && worst_case_overflows(game_type, amount, choice, target_multiplier) ==> r == Err::<
            u64,
            CasinoError,
        >(CasinoError::MathOverflow),
        amount >= house.min_bet && !max_bet_overflows(*house) && amount <= max_bet_of(
            house.pool as int,
            house.max_bet_percent as int,
        ) && !worst_case_overflows(game_type, amount, choice, target_multiplier) && worst_case_payout_of(
            game_type,
            amount,
            choice,
            target_multiplier,
            house.house_edge_bps,
        ) > house.pool ==> r == Err::<u64, CasinoError>(CasinoError::InsufficientLiquidity),
        amount >= house.min_bet && !max_bet_overflows(*house) && amount <= max_bet_of(
            house.pool as int,
            house.max_bet_percent as int,
        ) && !worst_case_overflows(game_type, amount, choice, target_multiplier) && worst_case_payout_of(
            game_type,
            amount,
            choice,
            target_multiplier,
            house.house_edge_bps,
        ) <= house.pool ==> r == Ok::<u64, CasinoError>(
            worst_case_payout_of(
                game_type,
                amount,
                choice,
                target_multiplier,
                house.house_edge_bps,
            ) as u64,
        ),
{
    if amount < house.min_bet {
        return Err(CasinoError::BetTooSmall);
    }
    let scaled = match house.pool.checked_mul(house.max_bet_percent as u64) {
        Some(s) => s,
        None => {
            return Err(CasinoError::MathOverflow);
        },
    };
    let max_bet = scaled / 100;
    if amount > max_bet {
        return Err(CasinoError::BetTooLarge);
    }
    let worst_case = match worst_case_payout(
        game_type,
        amount,
        choice,
        target_multiplier,
        house.house_edge_bps,
    ) {
        Ok(w) => w,
        Err(e) => {
            return Err(e);
        },
    };
    proof {
        lemma_worst_case_payout_in_range(
            game_type,
            amount,
            choice,
            target_multiplier,
            house.house_edge_bps,
        );
    }
    if worst_case > house.pool {
        return Err(CasinoError::InsufficientLiquidity);
    }
    Ok(worst_case)
}

} // verus!
