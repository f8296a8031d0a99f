use agent_casino::errors::CasinoError;
use agent_casino::house::{add_liquidity, initialize_house, AgentStats, House, LpPosition};
use agent_casino::oracle::{settle_from_oracle, vrf_coin_flip_settle, vrf_dice_roll_settle};
use agent_casino::settlement::{vrf_coin_flip_request, vrf_dice_roll_request, VrfStatus};

const PLAYER: [u8; 32] = [7u8; 32];
const HOUSE_KEY: [u8; 32] = [1u8; 32];
const ORACLE_KEY: [u8; 32] = [4u8; 32];

// The randomness account layout the oracle crate parses: an 8-byte
// discriminator, then authority, queue and slot-hash seeds, the seed height,
// the oracle identity, the reveal height, the 32-byte value, and reserved
// space.
const DISCRIMINATOR: [u8; 8] = [10, 66, 229, 135, 220, 239, 217, 114];
const ACCOUNT_LEN: usize = 408;
const REVEAL_SLOT_OFFSET: usize = 8 + 32 + 32 + 32 + 8 + 32;
const VALUE_OFFSET: usize = REVEAL_SLOT_OFFSET + 8;

fn oracle_account(reveal_slot: u64, value: [u8; 32]) -> Vec<u8> {
    let mut data = vec![0u8; ACCOUNT_LEN];
    data[..8].copy_from_slice(&DISCRIMINATOR);
    data[REVEAL_SLOT_OFFSET..REVEAL_SLOT_OFFSET + 8].copy_from_slice(&reveal_slot.to_le_bytes());
    data[VALUE_OFFSET..VALUE_OFFSET + 32].copy_from_slice(&value);
    data
}

fn funded_house(pool: u64) -> House {
    let mut house = initialize_house([1u8; 32], 100, 1_000, 2).unwrap();
    let mut lp = LpPosition::new([2u8; 32], [1u8; 32]);
    add_liquidity(&mut house, &mut lp, pool).unwrap();
    house
}

#[test]
fn garbage_account_is_invalid_and_changes_nothing() {
    let mut house = funded_house(1_000_000);
    let mut stats = AgentStats::new(PLAYER);
    let mut request =
        vrf_coin_flip_request(&mut house, PLAYER, HOUSE_KEY, ORACLE_KEY, 10_000, 1, 500, 100)
            .unwrap();
    let pool_before = house.pool;
    for data in [vec![], vec![0u8; 4], vec![0u8; ACCOUNT_LEN], vec![1u8; 64]] {
        assert_eq!(
            settle_from_oracle(&mut house, &mut stats, &mut request, &data, 150, 600).err(),
            Some(CasinoError::VrfInvalidRandomness)
        );
        assert_eq!(request.status, VrfStatus::Pending);
        assert_eq!(house.pool, pool_before);
    }
}

#[test]
fn unrevealed_randomness_is_retryable() {
    // The oracle has not revealed for the queried height: the attempt fails
    // with the retryable error and the request stays pending.
    let mut house = funded_house(1_000_000);
    let mut stats = AgentStats::new(PLAYER);
    let mut request =
        vrf_coin_flip_request(&mut house, PLAYER, HOUSE_KEY, ORACLE_KEY, 5_000, 1, 500, 100)
            .unwrap();
    let data = oracle_account(999, [5u8; 32]);
    assert_eq!(
        settle_from_oracle(&mut house, &mut stats, &mut request, &data, 150, 600).err(),
        Some(CasinoError::VrfRandomnessNotReady)
    );
    assert_eq!(request.status, VrfStatus::Pending);
    assert_eq!(house.pool, 1_005_000);
    assert_eq!(stats.total_games, 0);
}

#[test]
fn revealed_randomness_settles_coin_flip() {
    let mut house = funded_house(1_000_000);
    let mut stats = AgentStats::new(PLAYER);
    let mut request =
        vrf_coin_flip_request(&mut house, PLAYER, HOUSE_KEY, ORACLE_KEY, 10_000, 1, 500, 100)
            .unwrap();
    // Revealed value's first byte 5 maps to side 1: the bet wins.
    let mut value = [0u8; 32];
    value[0] = 5;
    let data = oracle_account(150, value);
    let payout =
        vrf_coin_flip_settle(&mut house, &mut stats, &mut request, &data, 150, 600).unwrap();
    assert_eq!(payout, 19_800);
    assert_eq!(request.status, VrfStatus::Settled);
    assert_eq!(request.result, 1);
    assert_eq!(house.pool, 1_010_000 - 19_800);
}

#[test]
fn revealed_randomness_settles_losing_dice_roll() {
    let mut house = funded_house(1_000_000);
    let mut stats = AgentStats::new(PLAYER);
    let mut request =
        vrf_dice_roll_request(&mut house, PLAYER, HOUSE_KEY, ORACLE_KEY, 5_000, 2, 500, 100)
            .unwrap();
    // Word 4 rolls a 5, over the target 2: the bet loses and the escrow
    // stays with the pool.
    let mut value = [0u8; 32];
    value[0] = 4;
    let data = oracle_account(200, value);
    let payout =
        vrf_dice_roll_settle(&mut house, &mut stats, &mut request, &data, 200, 600).unwrap();
    assert_eq!(payout, 0);
    assert_eq!(request.status, VrfStatus::Settled);
    assert_eq!(request.result, 5);
    assert_eq!(house.pool, 1_005_000);
    assert_eq!(stats.losses, 1);
}

#[test]
fn scenario_not_ready_then_expire_then_settle_fails() {
    // An async request of 5,000 at height 100: a settle attempt at height 150
    // finds the oracle not ready and leaves the request pending; expiry at
    // height 410 refunds the stake; a later settle attempt fails with the
    // state error.
    let mut house = funded_house(1_000_000);
    let mut stats = AgentStats::new(PLAYER);
    let mut request =
        vrf_coin_flip_request(&mut house, PLAYER, HOUSE_KEY, ORACLE_KEY, 5_000, 1, 500, 100)
            .unwrap();
    assert_eq!(house.pool, 1_005_000);

    let unrevealed = oracle_account(999, [5u8; 32]);
    assert_eq!(
        settle_from_oracle(&mut house, &mut stats, &mut request, &unrevealed, 150, 600).err(),
        Some(CasinoError::VrfRandomnessNotReady)
    );
    assert_eq!(request.status, VrfStatus::Pending);

    let refund =
        agent_casino::settlement::expire_vrf_request(&mut house, &mut request, 410, 900).unwrap();
    assert_eq!(refund, 5_000);
    assert_eq!(house.pool, 1_000_000);
    assert_eq!(request.status, VrfStatus::Expired);

    let revealed = oracle_account(420, [5u8; 32]);
    assert_eq!(
        settle_from_oracle(&mut house, &mut stats, &mut request, &revealed, 420, 950).err(),
        Some(CasinoError::VrfAlreadySettled)
    );
    assert_eq!(house.pool, 1_000_000);
}
