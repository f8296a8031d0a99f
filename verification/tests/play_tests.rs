use agent_casino::errors::CasinoError;
use agent_casino::house::{add_liquidity, initialize_house, AgentStats, House, LpPosition};
use agent_casino::outcome::{coin_flip_outcome, GameType};
use agent_casino::play::{play_synchronous, verify_game_record};
use agent_casino::seed::{combine_seeds, generate_seed};

const PLAYER: [u8; 32] = [7u8; 32];
const HOUSE_KEY: [u8; 32] = [1u8; 32];
const CLIENT_SEED: [u8; 32] = [3u8; 32];
const SLOT: u64 = 1234;
const TIMESTAMP: i64 = 5678;

fn funded_house(pool: u64) -> House {
    let mut house = initialize_house([1u8; 32], 100, 1_000, 2).unwrap();
    let mut lp = LpPosition::new([2u8; 32], [1u8; 32]);
    add_liquidity(&mut house, &mut lp, pool).unwrap();
    house
}

/// The side the mixed entropy will flip for these inputs; betting on it wins.
fn winning_side() -> u8 {
    let server = generate_seed(&PLAYER, SLOT, TIMESTAMP, &HOUSE_KEY);
    let combined = combine_seeds(&server, &CLIENT_SEED, &PLAYER);
    coin_flip_outcome(&combined)
}

#[test]
fn winning_binary_bet_moves_exact_amounts() {
    // A pool of 1,000,000 with a 1,000 minimum, 2% cap and 100 bps edge; a
    // winning 10,000 binary bet at the base 2.00x multiplier pays 20,000
    // gross, 200 edge, 19,800 net, leaving the pool at
    // 1,000,000 + 10,000 - 19,800 = 990,200.
    let mut house = funded_house(1_000_000);
    let mut stats = AgentStats::new(PLAYER);
    let record = play_synchronous(
        &mut house,
        &mut stats,
        PLAYER,
        HOUSE_KEY,
        GameType::CoinFlip,
        10_000,
        winning_side(),
        0,
        CLIENT_SEED,
        SLOT,
        TIMESTAMP,
    )
    .unwrap();
    assert_eq!(record.payout, 19_800);
    assert_eq!(house.pool, 990_200);
    assert_eq!(house.total_games, 1);
    assert_eq!(house.total_volume, 10_000);
    assert_eq!(house.total_payout, 19_800);
    assert_eq!(stats.wins, 1);
    assert_eq!(stats.total_won, 19_800);
}

#[test]
fn losing_binary_bet_keeps_stake_in_pool() {
    let mut house = funded_house(1_000_000);
    let mut stats = AgentStats::new(PLAYER);
    let record = play_synchronous(
        &mut house,
        &mut stats,
        PLAYER,
        HOUSE_KEY,
        GameType::CoinFlip,
        10_000,
        1 - winning_side(),
        0,
        CLIENT_SEED,
        SLOT,
        TIMESTAMP,
    )
    .unwrap();
    assert_eq!(record.payout, 0);
    assert_eq!(house.pool, 1_010_000);
    assert_eq!(stats.losses, 1);
}

#[test]
fn sync_bet_below_minimum_is_rejected_for_any_pool() {
    // A stake under the minimum is rejected before any fund movement, even
    // by an otherwise-sufficient pool.
    for pool in [100_000u64, 1_000_000, 1_000_000_000] {
        let mut house = funded_house(pool);
        let mut stats = AgentStats::new(PLAYER);
        assert_eq!(
            play_synchronous(
                &mut house,
                &mut stats,
                PLAYER,
                HOUSE_KEY,
                GameType::CoinFlip,
                999,
                0,
                0,
                CLIENT_SEED,
                SLOT,
                TIMESTAMP,
            )
            .err(),
            Some(CasinoError::BetTooSmall)
        );
        assert_eq!(house.pool, pool);
        assert_eq!(house.total_games, 0);
        assert_eq!(stats.total_games, 0);
    }
}

#[test]
fn record_replays_to_recorded_outcome() {
    // Re-running the seed mixing and outcome mapping on the recorded entropy
    // reproduces the recorded result.
    let mut house = funded_house(1_000_000);
    let mut stats = AgentStats::new(PLAYER);
    let record = play_synchronous(
        &mut house,
        &mut stats,
        PLAYER,
        HOUSE_KEY,
        GameType::DiceRoll,
        5_000,
        3,
        0,
        CLIENT_SEED,
        SLOT,
        TIMESTAMP,
    )
    .unwrap();
    assert!(verify_game_record(&record, 100));
}

#[test]
fn tampered_record_fails_replay() {
    let mut house = funded_house(1_000_000);
    let mut stats = AgentStats::new(PLAYER);
    let mut record = play_synchronous(
        &mut house,
        &mut stats,
        PLAYER,
        HOUSE_KEY,
        GameType::DiceRoll,
        5_000,
        3,
        0,
        CLIENT_SEED,
        SLOT,
        TIMESTAMP,
    )
    .unwrap();
    record.result = if record.result == 6 { 1 } else { record.result + 1 };
    assert!(!verify_game_record(&record, 100));
}

#[test]
fn record_keeps_the_entropy_used() {
    let mut house = funded_house(1_000_000);
    let mut stats = AgentStats::new(PLAYER);
    let record = play_synchronous(
        &mut house,
        &mut stats,
        PLAYER,
        HOUSE_KEY,
        GameType::CoinFlip,
        10_000,
        0,
        0,
        CLIENT_SEED,
        SLOT,
        TIMESTAMP,
    )
    .unwrap();
    assert_eq!(
        record.server_seed,
        generate_seed(&PLAYER, SLOT, TIMESTAMP, &HOUSE_KEY)
    );
    assert_eq!(record.client_seed, CLIENT_SEED);
    assert_eq!(record.slot, SLOT);
    assert_eq!(record.timestamp, TIMESTAMP);
}

#[test]
fn continuous_bet_pays_gross_at_target() {
    // Find a client seed whose mixed word clears a 2.50x target, then check
    // the exact gross payout: 10,000 * 250 / 100 = 25,000.
    let mut client = CLIENT_SEED;
    let mut played = false;
    for salt in 0..64u8 {
        client[31] = salt;
        let mut house = funded_house(10_000_000);
        house.max_bet_percent = 10;
        let mut stats = AgentStats::new(PLAYER);
        let record = play_synchronous(
            &mut house,
            &mut stats,
            PLAYER,
            HOUSE_KEY,
            GameType::Limbo,
            10_000,
            0,
            250,
            client,
            SLOT,
            TIMESTAMP,
        )
        .unwrap();
        if record.payout > 0 {
            assert_eq!(record.payout, 25_000);
            assert_eq!(house.pool, 10_000_000 + 10_000 - 25_000);
            played = true;
            break;
        }
        assert_eq!(house.pool, 10_010_000);
    }
    assert!(played, "no winning limbo word found in 64 salts");
}
