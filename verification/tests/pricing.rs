//! The pricing engine on concrete values: tier arithmetic, iterative
//! compounding with its per-step floor, and the token-amount formula.

use liquidity_pool::pricing::{
    calculate_current_price, calculate_current_tier, calculate_current_tier_usd,
    calculate_tokens_for_usd,
};

#[test]
fn price_at_tier_zero_is_base_price() {
    assert_eq!(calculate_current_price(25000, 0, 1300), 25000);
    assert_eq!(calculate_current_price(25000, 0, 1), 25000);
    assert_eq!(calculate_current_price(7, 0, 99_999), 7);
}

#[test]
fn price_compounds_with_per_step_floor() {
    // 25000 -> 32500 -> 42250 -> 54925: each step floors independently.
    assert_eq!(calculate_current_price(25000, 1, 1300), 32500);
    assert_eq!(calculate_current_price(25000, 2, 1300), 42250);
    assert_eq!(calculate_current_price(25000, 3, 1300), 54925);
    // 999 * 1300 / 1000 = 1298 (floor), then 1298 * 1300 / 1000 = 1687.
    assert_eq!(calculate_current_price(999, 1, 1300), 1298);
    assert_eq!(calculate_current_price(999, 2, 1300), 1687);
}

#[test]
fn price_is_nondecreasing_for_multiplier_at_least_1000() {
    let mut previous = 0u128;
    for tier in 0..12u32 {
        let price = calculate_current_price(25000, tier, 1300);
        assert!(price >= previous);
        previous = price;
    }
    // A multiplier of exactly 1.0 keeps the price flat.
    assert_eq!(calculate_current_price(25000, 9, 1000), 25000);
}

#[test]
fn price_keeps_previous_value_on_overflow() {
    // The multiplication overflows at every step, so the price never moves.
    assert_eq!(calculate_current_price(u128::MAX, 5, u128::MAX), u128::MAX);
    // A sub-1.0 multiplier shrinks the price instead.
    assert_eq!(calculate_current_price(25000, 1, 500), 12500);
}

#[test]
fn tier_from_tokens_sold() {
    assert_eq!(calculate_current_tier(0, 10_000_000), 0);
    assert_eq!(calculate_current_tier(9_999_999, 10_000_000), 0);
    assert_eq!(calculate_current_tier(10_000_000, 10_000_000), 1);
    assert_eq!(calculate_current_tier(25_000_000, 10_000_000), 2);
    // A zero divisor means tier 0.
    assert_eq!(calculate_current_tier(123, 0), 0);
}

#[test]
fn tier_from_usd_sold() {
    // One tier's budget: 10M tokens * 25000 micro-USD = 250,000 USD.
    assert_eq!(calculate_current_tier_usd(0, 10_000_000, 25000), 0);
    assert_eq!(
        calculate_current_tier_usd(249_999_999_999, 10_000_000, 25000),
        0
    );
    assert_eq!(
        calculate_current_tier_usd(250_000_000_000, 10_000_000, 25000),
        1
    );
    assert_eq!(
        calculate_current_tier_usd(500_000_000_000, 10_000_000, 25000),
        2
    );
    // Zero divisors and an overflowing tier budget both mean tier 0.
    assert_eq!(calculate_current_tier_usd(123, 0, 25000), 0);
    assert_eq!(calculate_current_tier_usd(123, 10_000_000, 0), 0);
    assert_eq!(calculate_current_tier_usd(123, u128::MAX, 2), 0);
}

#[test]
fn tokens_for_usd_zero_cases() {
    // A zero price buys nothing; zero USD buys nothing at any price.
    assert_eq!(calculate_tokens_for_usd(123_456, 0), 0);
    assert_eq!(calculate_tokens_for_usd(0, 25000), 0);
    assert_eq!(calculate_tokens_for_usd(0, 1), 0);
}

#[test]
fn tokens_for_usd_formula() {
    // floor(usd * 1_000_000 / price).
    assert_eq!(calculate_tokens_for_usd(100_000_000, 25000), 4_000_000_000);
    assert_eq!(calculate_tokens_for_usd(1, 3), 333_333);
    assert_eq!(calculate_tokens_for_usd(25000, 1_000_000_000), 25);
    // The scaling multiplication overflowing yields 0 tokens.
    assert_eq!(calculate_tokens_for_usd(u128::MAX, 25000), 0);
}
