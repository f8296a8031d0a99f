use agent_casino::errors::CasinoError;
use agent_casino::house::{add_liquidity, initialize_house, AgentStats, House, LpPosition};
use agent_casino::outcome::GameType;
use agent_casino::settlement::{
    expire_vrf_request, vrf_coin_flip_request, vrf_dice_roll_request, vrf_limbo_request,
    vrf_request, vrf_settle, VrfStatus,
};

const PLAYER: [u8; 32] = [7u8; 32];
const HOUSE_KEY: [u8; 32] = [1u8; 32];
const ORACLE_KEY: [u8; 32] = [4u8; 32];

fn funded_house(pool: u64) -> House {
    let mut house = initialize_house([1u8; 32], 100, 1_000, 2).unwrap();
    let mut lp = LpPosition::new([2u8; 32], [1u8; 32]);
    add_liquidity(&mut house, &mut lp, pool).unwrap();
    house
}

#[test]
fn request_escrows_stake_and_counts_volume() {
    let mut house = funded_house(1_000_000);
    let request =
        vrf_coin_flip_request(&mut house, PLAYER, HOUSE_KEY, ORACLE_KEY, 10_000, 1, 500, 100)
            .unwrap();
    assert_eq!(house.pool, 1_010_000);
    assert_eq!(house.total_games, 1);
    assert_eq!(house.total_volume, 10_000);
    assert_eq!(request.status, VrfStatus::Pending);
    assert_eq!(request.amount, 10_000);
    assert_eq!(request.choice, 1);
    assert_eq!(request.request_slot, 100);
    assert_eq!(request.game_index, 0);
}

#[test]
fn request_rejects_invalid_choice_before_funds_move() {
    let mut house = funded_house(1_000_000);
    assert_eq!(
        vrf_coin_flip_request(&mut house, PLAYER, HOUSE_KEY, ORACLE_KEY, 10_000, 2, 500, 100)
            .err(),
        Some(CasinoError::InvalidChoice)
    );
    assert_eq!(house.pool, 1_000_000);
    assert_eq!(house.total_games, 0);
}

#[test]
fn dice_request_rejects_unconditional_win_target() {
    // A six-sided mapper with target 6 would win unconditionally; targets are
    // capped at 5.
    let mut house = funded_house(1_000_000);
    assert_eq!(
        vrf_dice_roll_request(&mut house, PLAYER, HOUSE_KEY, ORACLE_KEY, 5_000, 6, 500, 100)
            .err(),
        Some(CasinoError::InvalidTarget)
    );
    assert!(
        vrf_dice_roll_request(&mut house, PLAYER, HOUSE_KEY, ORACLE_KEY, 5_000, 5, 500, 100)
            .is_ok()
    );
}

#[test]
fn limbo_request_rejects_out_of_range_multiplier() {
    let mut house = funded_house(1_000_000);
    for target in [0u16, 100, 10_001] {
        assert_eq!(
            vrf_limbo_request(&mut house, PLAYER, HOUSE_KEY, ORACLE_KEY, 5_000, target, 500, 100)
                .err(),
            Some(CasinoError::InvalidMultiplier)
        );
    }
}

#[test]
fn settle_winning_coin_flip_pays_net() {
    let mut house = funded_house(1_000_000);
    let mut stats = AgentStats::new(PLAYER);
    // Randomness byte 3 maps to side 1.
    let mut request =
        vrf_coin_flip_request(&mut house, PLAYER, HOUSE_KEY, ORACLE_KEY, 10_000, 1, 500, 100)
            .unwrap();
    let mut randomness = [0u8; 32];
    randomness[0] = 3;
    let payout = vrf_settle(&mut house, &mut stats, &mut request, &randomness, 600).unwrap();
    assert_eq!(payout, 19_800);
    // Escrowed 10,000 then paid 19,800: the pool ends 9,800 lighter.
    assert_eq!(house.pool, 1_010_000 - 19_800);
    assert_eq!(house.total_payout, 19_800);
    assert_eq!(request.status, VrfStatus::Settled);
    assert_eq!(request.result, 1);
    assert_eq!(request.payout, 19_800);
    assert_eq!(stats.wins, 1);
    assert_eq!(stats.losses, 0);
    assert_eq!(stats.total_won, 19_800);
}

#[test]
fn settle_losing_coin_flip_keeps_escrow() {
    let mut house = funded_house(1_000_000);
    let mut stats = AgentStats::new(PLAYER);
    let mut request =
        vrf_coin_flip_request(&mut house, PLAYER, HOUSE_KEY, ORACLE_KEY, 10_000, 0, 500, 100)
            .unwrap();
    let mut randomness = [0u8; 32];
    randomness[0] = 3;
    let payout = vrf_settle(&mut house, &mut stats, &mut request, &randomness, 600).unwrap();
    assert_eq!(payout, 0);
    assert_eq!(house.pool, 1_010_000);
    assert_eq!(request.status, VrfStatus::Settled);
    assert_eq!(stats.wins, 0);
    assert_eq!(stats.losses, 1);
}

#[test]
fn settle_winning_dice_pays_via_six_hundred_over_target() {
    // Target 5 on the six-sided mapper pays at 600/5 = 1.20x: a 5,000 stake
    // returns 6,000 gross, 5,940 net of the 100 bps edge.
    let mut house = funded_house(1_000_000);
    let mut stats = AgentStats::new(PLAYER);
    let mut request =
        vrf_dice_roll_request(&mut house, PLAYER, HOUSE_KEY, ORACLE_KEY, 5_000, 5, 500, 100)
            .unwrap();
    // Word 2 rolls a 3, at or under the target.
    let mut randomness = [0u8; 32];
    randomness[0] = 2;
    let payout = vrf_settle(&mut house, &mut stats, &mut request, &randomness, 600).unwrap();
    assert_eq!(payout, 5_940);
    assert_eq!(request.result, 3);
}

#[test]
fn settle_twice_fails_with_state_error() {
    let mut house = funded_house(1_000_000);
    let mut stats = AgentStats::new(PLAYER);
    let mut request =
        vrf_coin_flip_request(&mut house, PLAYER, HOUSE_KEY, ORACLE_KEY, 10_000, 1, 500, 100)
            .unwrap();
    let randomness = [0u8; 32];
    vrf_settle(&mut house, &mut stats, &mut request, &randomness, 600).unwrap();
    let pool_after = house.pool;
    assert_eq!(
        vrf_settle(&mut house, &mut stats, &mut request, &randomness, 700).err(),
        Some(CasinoError::VrfAlreadySettled)
    );
    assert_eq!(house.pool, pool_after);
}

#[test]
fn expire_before_window_fails_with_state_error() {
    let mut house = funded_house(1_000_000);
    let mut request =
        vrf_coin_flip_request(&mut house, PLAYER, HOUSE_KEY, ORACLE_KEY, 5_000, 1, 500, 100)
            .unwrap();
    // Heights 100..399 are all inside the 300-height liveness window.
    assert_eq!(
        expire_vrf_request(&mut house, &mut request, 399, 900).err(),
        Some(CasinoError::VrfNotExpired)
    );
    assert_eq!(request.status, VrfStatus::Pending);
    assert_eq!(house.pool, 1_005_000);
}

#[test]
fn expire_after_window_refunds_stake() {
    let mut house = funded_house(1_000_000);
    let mut request =
        vrf_coin_flip_request(&mut house, PLAYER, HOUSE_KEY, ORACLE_KEY, 5_000, 1, 500, 100)
            .unwrap();
    let refund = expire_vrf_request(&mut house, &mut request, 400, 900).unwrap();
    assert_eq!(refund, 5_000);
    assert_eq!(house.pool, 1_000_000);
    assert_eq!(request.status, VrfStatus::Expired);
}

#[test]
fn settle_after_expire_fails_with_state_error() {
    // Scenario: a 5,000 stake requested at height 100 expires at height 410;
    // a later settle attempt on the same request must fail and change
    // nothing.
    let mut house = funded_house(1_000_000);
    let mut stats = AgentStats::new(PLAYER);
    let mut request =
        vrf_coin_flip_request(&mut house, PLAYER, HOUSE_KEY, ORACLE_KEY, 5_000, 1, 500, 100)
            .unwrap();
    let refund = expire_vrf_request(&mut house, &mut request, 410, 900).unwrap();
    assert_eq!(refund, 5_000);
    assert_eq!(request.status, VrfStatus::Expired);
    let randomness = [0u8; 32];
    assert_eq!(
        vrf_settle(&mut house, &mut stats, &mut request, &randomness, 950).err(),
        Some(CasinoError::VrfAlreadySettled)
    );
    assert_eq!(
        expire_vrf_request(&mut house, &mut request, 800, 960).err(),
        Some(CasinoError::VrfAlreadySettled)
    );
    assert_eq!(house.pool, 1_000_000);
    assert_eq!(request.status, VrfStatus::Expired);
}

#[test]
fn settle_rechecks_liquidity_at_settle_time() {
    // Between request and settle the pool may shrink; a winning payout the
    // current balance cannot cover is rejected and the request stays pending.
    let mut house = funded_house(1_000_000);
    let mut stats = AgentStats::new(PLAYER);
    let mut request =
        vrf_coin_flip_request(&mut house, PLAYER, HOUSE_KEY, ORACLE_KEY, 10_000, 1, 500, 100)
            .unwrap();
    // Drain the pool below the 19,800 payout.
    house.pool = 15_000;
    let mut randomness = [0u8; 32];
    randomness[0] = 1;
    assert_eq!(
        vrf_settle(&mut house, &mut stats, &mut request, &randomness, 600).err(),
        Some(CasinoError::InsufficientLiquidity)
    );
    assert_eq!(request.status, VrfStatus::Pending);
    assert_eq!(house.pool, 15_000);
}

#[test]
fn generic_request_rejects_pvp_game() {
    let mut house = funded_house(1_000_000);
    assert_eq!(
        vrf_request(
            &mut house,
            PLAYER,
            HOUSE_KEY,
            ORACLE_KEY,
            GameType::PvPChallenge,
            10_000,
            0,
            0,
            500,
            100
        )
        .err(),
        Some(CasinoError::InvalidChoice)
    );
}
