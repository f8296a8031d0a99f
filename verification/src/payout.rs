//! Payout calculation: stake and multiplier to gross and net payout.
//!
//! Multipliers are fixed-point centi-units (100 is an even 1.00x return);
//! the house edge is in basis points. All intermediate products are widened
//! to 128 bits, and a result that cannot be narrowed back to 64 bits is a
//! failure, never a wrap.

use vstd::prelude::*;
use vstd::arithmetic::div_mod::{
    lemma_div_is_ordered, lemma_div_pos_is_pos, lemma_fundamental_div_mod, lemma_mod_bound,
    lemma_div_nonincreasing,
};
use vstd::arithmetic::mul::{lemma_mul_inequality, lemma_mul_nonnegative};
use crate::errors::CasinoError;

verus! {

/// Centi-unit multiplier denominator: a multiplier of 100 pays the stake.
pub const MULTIPLIER_SCALE: u64 = 100;

/// Basis-point denominator for the house edge.
pub const BPS_SCALE: u64 = 10000;

/// Gross payout before the edge deduction: floor(stake * multiplier / 100).
pub open spec fn gross_of(stake: int, multiplier: int) -> int {
    (stake * multiplier) / 100
}

/// Edge deduction on a gross payout: floor(gross * edge_bps / 10000).
pub open spec fn edge_amount_of(gross: int, edge_bps: int) -> int {
    (gross * edge_bps) / 10000
}

/// Net payout: the gross payout minus the house's edge deduction.
pub open spec fn net_of(stake: int, multiplier: int, edge_bps: int) -> int {
    gross_of(stake, multiplier) - edge_amount_of(gross_of(stake, multiplier), edge_bps)
}

/// The edge deduction on a non-negative amount is between zero and the
/// amount itself, for any edge up to 100%.
pub proof fn lemma_edge_amount_bounds(gross: int, edge_bps: int)
    requires
        0 <= gross,
        0 <= edge_bps <= 10000,
    ensures
        0 <= edge_amount_of(gross, edge_bps) <= gross,
{
    lemma_mul_nonnegative(gross, edge_bps);
    lemma_div_pos_is_pos(gross * edge_bps, 10000);
    lemma_mul_inequality(edge_bps, 10000, gross);
    assert(gross * edge_bps == edge_bps * gross) by (nonlinear_arith);
    assert(gross * 10000 == 10000 * gross) by (nonlinear_arith);
    lemma_div_is_ordered(gross * edge_bps, gross * 10000, 10000);
    assert(gross * 10000 / 10000 == gross) by (nonlinear_arith);
}

/// The edge deduction never exceeds the gross payout, so the net payout of a
/// non-negative stake is non-negative.
pub proof fn lemma_net_nonnegative(stake: int, multiplier: int, edge_bps: int)
    requires
        0 <= stake,
        0 <= multiplier,
        0 <= edge_bps <= 10000,
    ensures
        0 <= net_of(stake, multiplier, edge_bps) <= gross_of(stake, multiplier),
{
    lemma_mul_nonnegative(stake, multiplier);
    lemma_div_pos_is_pos(stake * multiplier, 100);
    lemma_edge_amount_bounds(gross_of(stake, multiplier), edge_bps);
}

/// Compute the gross and net payout of a stake at a multiplier under a house
/// edge. Fails with `MathOverflow` exactly when the gross payout does not fit
/// in 64 bits; nothing is ever truncated or wrapped.
pub fn calculate_payout(amount: u64, multiplier: u16, house_edge_bps: u16) -> (r: Result<
    (u64, u64),
    CasinoError,
>)
    requires
        house_edge_bps <= 10000,
    ensures
        gross_of(amount as int, multiplier as int) <= u64::MAX ==> r == Ok::<(u64, u64), CasinoError>(
            (
                gross_of(amount as int, multiplier as int) as u64,
                net_of(amount as int, multiplier as int, house_edge_bps as int) as u64,
            ),
        ),
        gross_of(amount as int, multiplier as int) > u64::MAX ==> r == Err::<
            (u64, u64),
            CasinoError,
        >(CasinoError::MathOverflow),
{
    proof {
        lemma_mul_nonnegative(amount as int, multiplier as int);
        lemma_div_pos_is_pos(amount as int * multiplier as int, 100);
        lemma_net_nonnegative(amount as int, multiplier as int, house_edge_bps as int);
        assert(amount as int * multiplier as int <= u128::MAX) by (nonlinear_arith);
    }
    let gross_wide: u128 = (amount as u128) * (multiplier as u128) / 100;
    if gross_wide > u64::MAX as u128 {
        return Err(CasinoError::MathOverflow);
    }
    let gross: u64 = gross_wide as u64;
    let edge_wide: u128 = (gross as u128) * (house_edge_bps as u128) / 10000;
    proof {
        lemma_mul_nonnegative(gross as int, house_edge_bps as int);
        lemma_div_pos_is_pos(gross as int * house_edge_bps as int, 10000);
        lemma_mul_inequality(house_edge_bps as int, 10000, gross as int);
        assert(gross as int * house_edge_bps as int == house_edge_bps as int * gross as int)
            by (nonlinear_arith);
        assert(gross as int * 10000 == 10000 * gross as int) by (nonlinear_arith);
        lemma_div_is_ordered(
            gross as int * house_edge_bps as int,
            gross as int * 10000,
            10000,
        );
        assert(gross as int * 10000 / 10000 == gross as int) by (nonlinear_arith);
    }
    let edge_amount: u64 = edge_wide as u64;
    Ok((gross, gross - edge_amount))
}

/// The net payout never decreases when the multiplier grows, for a fixed
/// stake and edge.
pub proof fn lemma_payout_monotonic_in_multiplier(
    stake: int,
    multiplier1: int,
    multiplier2: int,
    edge_bps: int,
)
    requires
        0 <= stake,
        0 <= multiplier1 <= multiplier2,
        0 <= edge_bps <= 10000,
    ensures
        net_of(stake, multiplier1, edge_bps) <= net_of(stake, multiplier2, edge_bps),
{
    lemma_mul_inequality(multiplier1, multiplier2, stake);
    assert(stake * multiplier1 == multiplier1 * stake) by (nonlinear_arith);
    assert(stake * multiplier2 == multiplier2 * stake) by (nonlinear_arith);
    lemma_div_is_ordered(stake * multiplier1, stake * multiplier2, 100);
    lemma_mul_nonnegative(stake, multiplier1);
    lemma_div_pos_is_pos(stake * multiplier1, 100);
    lemma_net_monotonic_in_gross(
        gross_of(stake, multiplier1),
        gross_of(stake, multiplier2),
        edge_bps,
    );
}

/// The net payout never increases when the edge grows, for a fixed stake and
/// multiplier.
pub proof fn lemma_payout_antitonic_in_edge(
    stake: int,
    multiplier: int,
    edge_bps1: int,
    edge_bps2: int,
)
    requires
        0 <= stake,
        0 <= multiplier,
        0 <= edge_bps1 <= edge_bps2 <= 10000,
    ensures
        net_of(stake, multiplier, edge_bps2) <= net_of(stake, multiplier, edge_bps1),
{
    let g = gross_of(stake, multiplier);
    lemma_mul_nonnegative(stake, multiplier);
    lemma_div_pos_is_pos(stake * multiplier, 100);
    lemma_mul_inequality(edge_bps1, edge_bps2, g);
    assert(g * edge_bps1 == edge_bps1 * g) by (nonlinear_arith);
    assert(g * edge_bps2 == edge_bps2 * g) by (nonlinear_arith);
    lemma_div_is_ordered(g * edge_bps1, g * edge_bps2, 10000);
}

/// Subtracting the edge deduction keeps order: a larger gross payout always
/// yields a net payout at least as large, for any edge up to 100%.
proof fn lemma_net_monotonic_in_gross(gross1: int, gross2: int, edge_bps: int)
    requires
        0 <= gross1 <= gross2,
        0 <= edge_bps <= 10000,
    ensures
        gross1 - edge_amount_of(gross1, edge_bps) <= gross2 - edge_amount_of(gross2, edge_bps),
{
    let q1 = edge_amount_of(gross1, edge_bps);
    let q2 = edge_amount_of(gross2, edge_bps);
    lemma_fundamental_div_mod(gross1 * edge_bps, 10000);
    lemma_fundamental_div_mod(gross2 * edge_bps, 10000);
    lemma_mod_bound(gross1 * edge_bps, 10000);
    lemma_mod_bound(gross2 * edge_bps, 10000);
    lemma_mul_nonnegative(gross1, edge_bps);
    lemma_mul_nonnegative(gross2, edge_bps);
    let r1 = (gross1 * edge_bps) % 10000;
    let r2 = (gross2 * edge_bps) % 10000;
    assert(10000 * (q2 - q1) == gross2 * edge_bps - gross1 * edge_bps - r2 + r1);
    assert(gross2 * edge_bps - gross1 * edge_bps == (gross2 - gross1) * edge_bps)
        by (nonlinear_arith);
    lemma_mul_inequality(edge_bps, 10000, gross2 - gross1);
    assert((gross2 - gross1) * edge_bps == edge_bps * (gross2 - gross1)) by (nonlinear_arith);
    assert((gross2 - gross1) * 10000 == 10000 * (gross2 - gross1)) by (nonlinear_arith);
    assert(10000 * (q2 - q1) <= 10000 * (gross2 - gross1) + r1);
    assert(q2 - q1 <= gross2 - gross1) by (nonlinear_arith)
        requires
            10000 * (q2 - q1) <= 10000 * (gross2 - gross1) + r1,
            0 <= r1 < 10000,
    ;
}

} // verus!
