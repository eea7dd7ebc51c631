//! Tests for the engine's stated properties: conservation, monotonicity,
//! fee bounds, zero-balance and symmetry behaviour of the invariant,
//! converter identity, boundary behaviour at the top of the range, and a
//! cross-check of the invariant against a floating-point reference.

use stable_swap::bn::U256;
use stable_swap::curve::{PoolTokenConverter, StableSwap, SwapResult};

fn swap(amp: u64) -> StableSwap {
    StableSwap { amp_factor: U256::from_u64(amp) }
}

fn u(x: U256) -> u64 {
    x.try_to_u64().unwrap()
}

fn run_swap(amp: u64, dx: u64, xs: u64, xd: u64, fee_num: u64, fee_den: u64) -> SwapResult {
    swap(amp)
        .swap_to(
            U256::from_u64(dx),
            U256::from_u64(xs),
            U256::from_u64(xd),
            U256::from_u64(fee_num),
            U256::from_u64(fee_den),
        )
        .unwrap()
}

#[test]
fn conservation_on_concrete_swaps() {
    for (amp, dx, xs, xd) in [
        (1u64, 100u64, 1000u64, 50000u64),
        (75, 5000, 1_000_000, 1_000_000),
        (10000, 123, 45678, 99999),
    ] {
        let r = run_swap(amp, dx, xs, xd, 1, 1000);
        assert_eq!(u(r.new_source_amount), xs + dx);
        let swapped = u(r.amount_swapped);
        assert!(swapped <= xd);
        assert_eq!(u(r.new_destination_amount), xd - swapped);
    }
}

#[test]
fn monotonic_in_trade_size() {
    let mut prev: u64 = 0;
    for k in 1..=200u64 {
        let dx = 500 * k;
        let r = run_swap(75, dx, 1_000_000, 1_000_000, 1, 1000);
        let s = u(r.amount_swapped);
        assert!(s >= prev);
        prev = s;
    }
}

#[test]
fn fee_reduces_output() {
    // With a zero fee numerator the delivered amount equals the pre-fee
    // output; with a positive fee it is strictly smaller once the fee
    // amounts to at least one unit.
    let no_fee = run_swap(75, 10_000, 1_000_000, 1_000_000, 0, 1000);
    let with_fee = run_swap(75, 10_000, 1_000_000, 1_000_000, 1, 1000);
    let dy = u(no_fee.amount_swapped);
    let delivered = u(with_fee.amount_swapped);
    assert!(delivered < dy);
    assert_eq!(delivered, dy - dy / 1000);
}

#[test]
fn zero_balances_give_zero_d() {
    for amp in [0u64, 1, 85, 10_000, u64::MAX] {
        assert_eq!(
            swap(amp).compute_d(U256::from_u64(0), U256::from_u64(0)),
            Some(U256::from_u64(0))
        );
    }
}

#[test]
fn symmetric_balances_examples() {
    for (amp, a, b, expected) in [
        (1u64, 1u64, 2u64, 3u64),
        (100, 1000, 2000, 2998),
        (10, 12345, 678, 11387),
        (85, 7, 9, 16),
        (1, 1000, 50000, 24891),
    ] {
        let d_ab = swap(amp).compute_d(U256::from_u64(a), U256::from_u64(b));
        let d_ba = swap(amp).compute_d(U256::from_u64(b), U256::from_u64(a));
        assert_eq!(d_ab, Some(U256::from_u64(expected)));
        assert_eq!(d_ab, d_ba);
    }
}

#[test]
fn converter_identity() {
    let converter = PoolTokenConverter::new(
        U256::from_u64(10),
        U256::from_u64(123_456),
        U256::from_u64(7),
    );
    assert_eq!(
        converter.token_a_rate(U256::from_u64(10)),
        Some(U256::from_u64(123_456))
    );
    assert_eq!(converter.token_b_rate(U256::from_u64(10)), Some(U256::from_u64(7)));
}

#[test]
fn empty_supply_gives_no_rate() {
    let converter = PoolTokenConverter::new(
        U256::from_u64(0),
        U256::from_u64(123_456),
        U256::from_u64(7),
    );
    assert_eq!(converter.token_a_rate(U256::from_u64(5)), None);
    assert_eq!(converter.token_b_rate(U256::from_u64(5)), None);
}

#[test]
fn swap_scenario_small_pool() {
    // Amplification 1, source balance 1000, destination balance 50000,
    // fee 1/100, trade of 100 units.  The delivered amount was derived from
    // the stable-swap solvers themselves and recorded as the oracle.
    let r = run_swap(1, 100, 1000, 50000, 1, 100);
    assert_eq!(u(r.new_source_amount), 1100);
    assert_eq!(u(r.amount_swapped), 2063);
    assert_eq!(u(r.new_destination_amount), 47937);
}

#[test]
fn boundary_returns_none() {
    // Balances at the top of the range produce an absent result instead of
    // a silent wraparound.
    let max = U256::max_value();
    assert_eq!(swap(10_000).compute_d(max, max), None);
    assert_eq!(swap(u64::MAX).compute_d(max, max), None);
    assert_eq!(
        swap(10_000).swap_to(max, max, max, U256::from_u64(1), U256::from_u64(1000)),
        None
    );
}

#[test]
fn one_sided_pool_gives_no_d() {
    // Exactly one balance of zero makes the invariant computation divide by
    // zero, which surfaces as an absent result.
    assert_eq!(swap(100).compute_d(U256::from_u64(0), U256::from_u64(5)), None);
    assert_eq!(swap(100).compute_d(U256::from_u64(5), U256::from_u64(0)), None);
}

fn float_d(amp: f64, x0: f64, x1: f64) -> f64 {
    let ann = 2.0 * amp;
    let s = x0 + x1;
    if s == 0.0 {
        return 0.0;
    }
    let mut d = s;
    for _ in 0..512 {
        let d_p = d * d * d / (4.0 * x0 * x1);
        let d_prev = d;
        d = d * (2.0 * d_p + ann * s) / ((ann - 1.0) * d + 3.0 * d_p);
        if (d - d_prev).abs() < 1e-12 * d.max(1.0) {
            break;
        }
    }
    d
}

#[test]
fn invariant_matches_float_reference() {
    // The integer-computed D agrees with a floating-point Newton solver to
    // within one unit across a matrix of amplification coefficients and
    // balances.  (Extremely lopsided pools, with balances many orders of
    // magnitude apart, accumulate more truncation than that and are not
    // part of the matrix.)
    for amp in [1u64, 10, 100, 1000, 10_000] {
        for (a, b) in [
            (1u64, 1u64),
            (1000, 1),
            (1_000_000, 1_000_000),
            (10_000_000_000, 10_000_000_000),
            (12_345, 6_789_012),
        ] {
            let d = u(swap(amp)
                .compute_d(U256::from_u64(a), U256::from_u64(b))
                .unwrap());
            let reference = float_d(amp as f64, a as f64, b as f64);
            assert!(
                (d as f64 - reference).abs() <= 1.0,
                "amp={} a={} b={} d={} reference={}",
                amp,
                a,
                b,
                d,
                reference
            );
        }
    }
}
