//! The shared liquidity pool's aggregate state and its administration.
//!
//! A `House` is the single logical pool of one deployment: its balance funds
//! payouts and absorbs losing stakes, and its cumulative counters record
//! every settled game. The pool is mutated only by settlement after a
//! liquidity check, and by the liquidity operations here.

use vstd::prelude::*;
use crate::errors::CasinoError;

verus! {

/// The shared liquidity pool and its configuration.
#[derive(Clone, Copy, Debug)]
pub struct House {
    /// Identity of the administering authority.
    pub authority: [u8; 32],
    /// Current pool balance, in base units. Escrowed stakes of pending
    /// requests are part of this balance.
    pub pool: u64,
    /// House edge in basis points, at most 1000 (10%).
    pub house_edge_bps: u16,
    /// Smallest admissible stake.
    pub min_bet: u64,
    /// Largest admissible stake, as a percentage of the pool balance, in
    /// 1..=10.
    pub max_bet_percent: u8,
    /// Number of games settled or requested against this pool.
    pub total_games: u64,
    /// Cumulative volume wagered.
    pub total_volume: u64,
    /// Cumulative amount paid out to players.
    pub total_payout: u64,
}

impl House {
    /// Well-formedness: the configuration bounds the constructor enforces and
    /// every operation preserves.
    pub open spec fn wf(self) -> bool {
        &&& self.house_edge_bps <= 1000
        &&& 1 <= self.max_bet_percent <= 10
    }
}

/// One liquidity provider's position against the pool.
#[derive(Clone, Copy, Debug)]
pub struct LpPosition {
    /// Identity of the provider.
    pub provider: [u8; 32],
    /// The pool the position is against.
    pub house: [u8; 32],
    /// Amount deposited and not yet withdrawn.
    pub deposited: u64,
}

impl LpPosition {
    /// Open a new, empty position for a provider against a pool.
    pub fn new(provider: [u8; 32], house: [u8; 32]) -> (r: LpPosition)
        ensures
            r == (LpPosition { provider, house, deposited: 0u64 }),
    {
        LpPosition { provider, house, deposited: 0 }
    }
}

/// One player's cumulative record across games.
#[derive(Clone, Copy, Debug)]
pub struct AgentStats {
    /// Identity of the player.
    pub agent: [u8; 32],
    pub total_games: u64,
    pub total_wagered: u64,
    pub total_won: u64,
    pub wins: u64,
    pub losses: u64,
    pub pvp_games: u64,
    pub pvp_wins: u64,
}

impl AgentStats {
    /// A fresh, all-zero record for a player.
    pub fn new(agent: [u8; 32]) -> (r: AgentStats)
        ensures
            r == AgentStats::zeroed(agent),
    {
        AgentStats {
            agent,
            total_games: 0,
            total_wagered: 0,
            total_won: 0,
            wins: 0,
            losses: 0,
            pvp_games: 0,
            pvp_wins: 0,
        }
    }

    /// The all-zero record of a player.
    pub open spec fn zeroed(agent: [u8; 32]) -> AgentStats {
        AgentStats {
            agent,
            total_games: 0u64,
            total_wagered: 0u64,
            total_won: 0u64,
            wins: 0u64,
            losses: 0u64,
            pvp_games: 0u64,
            pvp_wins: 0u64,
        }
    }
}

/// A point-in-time summary of the pool, derived from a `House`.
#[derive(Clone, Copy, Debug)]
pub struct HouseStats {
    pub pool: u64,
    pub house_edge_bps: u16,
    pub min_bet: u64,
    /// Largest admissible stake at the current balance.
    pub max_bet: u64,
    pub total_games: u64,
    pub total_volume: u64,
    pub total_payout: u64,
    /// Volume minus payout, floored at zero.
    pub house_profit: u64,
}

/// Create the pool with its configuration and an empty balance. Rejects an
/// edge above 1000 basis points and a maximum-bet percentage outside 1..=10.
pub fn initialize_house(
    authority: [u8; 32],
    house_edge_bps: u16,
    min_bet: u64,
    max_bet_percent: u8,
) -> (r: Result<House, CasinoError>)
    ensures
        house_edge_bps > 1000 ==> r == Err::<House, CasinoError>(CasinoError::HouseEdgeTooHigh),
        house_edge_bps <= 1000 && !(1 <= max_bet_percent <= 10) ==> r == Err::<House, CasinoError>(
            CasinoError::InvalidMaxBet,
        ),
        house_edge_bps <= 1000 && 1 <= max_bet_percent <= 10 ==> r == Ok::<House, CasinoError>(
            House {
                authority,
                pool: 0u64,
                house_edge_bps,
                min_bet,
                max_bet_percent,
                total_games: 0u64,
                total_volume: 0u64,
                total_payout: 0u64,
            },
        ),
        r matches Ok(h) ==> h.wf(),
{
    if house_edge_bps > 1000 {
        return Err(CasinoError::HouseEdgeTooHigh);
    }
    if max_bet_percent == 0 || max_bet_percent > 10 {
        return Err(CasinoError::InvalidMaxBet);
    }
    Ok(
        House {
            authority,
            pool: 0,
            house_edge_bps,
            min_bet,
            max_bet_percent,
            total_games: 0,
            total_volume: 0,
            total_payout: 0,
        },
    )
}

/// Add liquidity to the pool, crediting the provider's position. The caller
/// moves the funds; this records them. All-or-nothing: on any error neither
/// the pool nor the position changes.
pub fn add_liquidity(house: &mut House, lp_position: &mut LpPosition, amount: u64) -> (r: Result<
    (),
    CasinoError,
>)
    ensures
        amount == 0 ==> r == Err::<(), CasinoError>(CasinoError::InvalidAmount),
        amount > 0 && (old(lp_position).deposited + amount > u64::MAX || old(house).pool + amount
            > u64::MAX) ==> r == Err::<(), CasinoError>(CasinoError::MathOverflow),
        amount > 0 && old(lp_position).deposited + amount <= u64::MAX && old(house).pool + amount
            <= u64::MAX ==> r == Ok::<(), CasinoError>(()) && *final(house) == (House {
            pool: (old(house).pool + amount) as u64,
            ..*old(house)
        }) && *final(lp_position) == (LpPosition {
            deposited: (old(lp_position).deposited + amount) as u64,
            ..*old(lp_position)
        }),
        r is Err ==> *final(house) == *old(house) && *final(lp_position) == *old(lp_position),
{
    if amount == 0 {
        return Err(CasinoError::InvalidAmount);
    }
    let deposited = match lp_position.deposited.checked_add(amount) {
        Some(d) => d,
        None => {
            return Err(CasinoError::MathOverflow);
        },
    };
    let pool = match house.pool.checked_add(amount) {
        Some(p) => p,
        None => {
            return Err(CasinoError::MathOverflow);
        },
    };
    lp_position.deposited = deposited;
    house.pool = pool;
    Ok(())
}

/// Withdraw liquidity from the pool against the provider's position. The
/// caller moves the funds after this succeeds. All-or-nothing.
pub fn remove_liquidity(house: &mut House, lp_position: &mut LpPosition, amount: u64) -> (r:
    Result<(), CasinoError>)
    ensures
        amount == 0 ==> r == Err::<(), CasinoError>(CasinoError::InvalidAmount),
        amount > 0 && (old(house).pool < amount || old(lp_position).deposited < amount) ==> r
            == Err::<(), CasinoError>(CasinoError::InsufficientPoolBalance),
        amount > 0 && old(house).pool >= amount && old(lp_position).deposited >= amount ==> r
            == Ok::<(), CasinoError>(()) && *final(house) == (House {
            pool: (old(house).pool - amount) as u64,
            ..*old(house)
        }) && *final(lp_position) == (LpPosition {
            deposited: (old(lp_position).deposited - amount) as u64,
            ..*old(lp_position)
        }),
        r is Err ==> *final(house) == *old(house) && *final(lp_position) == *old(lp_position),
{
    if amount == 0 {
        return Err(CasinoError::InvalidAmount);
    }
    if house.pool < amount {
        return Err(CasinoError::InsufficientPoolBalance);
    }
    if lp_position.deposited < amount {
        return Err(CasinoError::InsufficientPoolBalance);
    }
    lp_position.deposited = lp_position.deposited - amount;
    house.pool = house.pool - amount;
    Ok(())
}

/// The largest admissible stake at a pool balance: balance times the
/// maximum-bet percentage, over one hundred.
pub open spec fn max_bet_of(pool: int, max_bet_percent: int) -> int {
    (pool * max_bet_percent) / 100
}

/// Summarize the pool. Fails with `MathOverflow` exactly when the maximum-bet
/// product does not fit in 64 bits; profit is floored at zero.
pub fn get_house_stats(house: &House) -> (r: Result<HouseStats, CasinoError>)
    ensures
        house.pool * house.max_bet_percent > u64::MAX ==> r == Err::<HouseStats, CasinoError>(
            CasinoError::MathOverflow,
        ),
        house.pool * house.max_bet_percent <= u64::MAX ==> r == Ok::<HouseStats, CasinoError>(
            HouseStats {
                pool: house.pool,
                house_edge_bps: house.house_edge_bps,
                min_bet: house.min_bet,
                max_bet: max_bet_of(house.pool as int, house.max_bet_percent as int) as u64,
                total_games: house.total_games,
                total_volume: house.total_volume,
                total_payout: house.total_payout,
                house_profit: if house.total_volume >= house.total_payout {
                    (house.total_volume - house.total_payout) as u64
                } else {
                    0u64
                },
            },
        ),
{
    let scaled = match house.pool.checked_mul(house.max_bet_percent as u64) {
        Some(s) => s,
        None => {
            return Err(CasinoError::MathOverflow);
        },
    };
    let max_bet = scaled / 100;
    let house_profit = match house.total_volume.checked_sub(house.total_payout) {
        Some(p) => p,
        None => 0,
    };
    proof {
        vstd::arithmetic::div_mod::lemma_div_is_ordered(
            house.pool as int * house.max_bet_percent as int,
            u64::MAX as int,
            100,
        );
        assert(u64::MAX as int / 100 <= u64::MAX);
    }
    Ok(
        HouseStats {
            pool: house.pool,
            house_edge_bps: house.house_edge_bps,
            min_bet: house.min_bet,
            max_bet,
            total_games: house.total_games,
            total_volume: house.total_volume,
            total_payout: house.total_payout,
            house_profit,
        },
    )
}

} // verus!
