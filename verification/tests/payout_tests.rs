use agent_casino::errors::CasinoError;
use agent_casino::payout::calculate_payout;

#[test]
fn payout_even_double_with_one_percent_edge() {
    // A 10,000 stake at 2.00x under a 100 bps edge: gross 20,000, edge 200,
    // net 19,800.
    assert_eq!(calculate_payout(10_000, 200, 100), Ok((20_000, 19_800)));
}

#[test]
fn payout_zero_edge_keeps_gross() {
    assert_eq!(calculate_payout(1_000, 150, 0), Ok((1_500, 1_500)));
}

#[test]
fn payout_full_edge_pays_nothing() {
    assert_eq!(calculate_payout(1_000, 100, 10_000), Ok((1_000, 0)));
}

#[test]
fn payout_floors_fractions() {
    // gross = 999 * 150 / 100 = 1498 (floored), edge = 1498 * 100 / 10000 = 14.
    assert_eq!(calculate_payout(999, 150, 100), Ok((1_498, 1_484)));
}

#[test]
fn payout_zero_stake_is_zero() {
    assert_eq!(calculate_payout(0, 10_000, 1_000), Ok((0, 0)));
}

#[test]
fn payout_overflow_fails_rather_than_wrapping() {
    // u64::MAX * 200 / 100 does not fit back into 64 bits.
    assert_eq!(
        calculate_payout(u64::MAX, 200, 100),
        Err(CasinoError::MathOverflow)
    );
}

#[test]
fn payout_largest_fitting_stake_succeeds() {
    // u64::MAX at 1.00x stays exactly representable.
    let (gross, net) = calculate_payout(u64::MAX, 100, 0).unwrap();
    assert_eq!(gross, u64::MAX);
    assert_eq!(net, u64::MAX);
}

#[test]
fn payout_monotonic_in_multiplier() {
    // For a fixed stake and edge, the net payout never decreases as the
    // multiplier grows.
    let mut previous = 0u64;
    for multiplier in [100u16, 120, 150, 200, 300, 600, 1_000, 10_000] {
        let (_, net) = calculate_payout(5_000, multiplier, 250).unwrap();
        assert!(net >= previous);
        previous = net;
    }
}

#[test]
fn payout_antitonic_in_edge() {
    // For a fixed stake and multiplier, the net payout never increases as the
    // edge grows.
    let mut previous = u64::MAX;
    for edge in [0u16, 1, 50, 100, 500, 1_000, 5_000, 10_000] {
        let (_, net) = calculate_payout(5_000, 200, edge).unwrap();
        assert!(net <= previous);
        previous = net;
    }
}
