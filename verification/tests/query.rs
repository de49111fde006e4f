//! The read-only query projections on concrete values.

use liquidity_pool::query::{
    bridge_validation_diagnostic, query_block_height, query_config, query_daily_stats,
    query_pricing_info,
};
use liquidity_pool::state::{Config, DailyStats, PricingConfig};

fn sample_config() -> Config {
    Config {
        admin: "admin".to_string(),
        native_denom: "nicoin".to_string(),
        daily_limit_bp: 100,
        is_paused: false,
        total_supply: 120_000_000_000_000_000,
        total_sold: 250_000_000_000,
    }
}

fn sample_pricing() -> PricingConfig {
    PricingConfig {
        base_price_usd: 25000,
        tokens_per_tier: 10_000_000,
        tier_multiplier: 1300,
    }
}

#[test]
fn config_projection_mirrors_record() {
    let config = sample_config();
    let response = query_config(&config);
    assert_eq!(response.admin, "admin");
    assert_eq!(response.native_denom, "nicoin");
    assert_eq!(response.daily_limit_bp, 100);
    assert!(!response.is_paused);
    assert_eq!(response.total_sold, 250_000_000_000);
}

#[test]
fn daily_stats_same_day_subtracts_sold() {
    let config = sample_config();
    let now: u64 = 86400 * 20000 + 5;
    let stats = DailyStats {
        current_day: 20000,
        sold_today: 400,
    };
    let response = query_daily_stats(&config, &stats, now);
    assert_eq!(response.current_day, 20000);
    assert_eq!(response.sold_today, 400);
    // The stats query reports the limit in native tokens:
    // 120e15 * 100 / 10000 = 1.2e15.
    assert_eq!(response.available_today, 1_200_000_000_000_000 - 400);
    assert_eq!(response.total_supply, 120_000_000_000_000_000);
}

#[test]
fn daily_stats_recomputes_rollover_transiently() {
    let config = sample_config();
    let now: u64 = 86400 * 20001;
    let stale = DailyStats {
        current_day: 20000,
        sold_today: 1_200_000_000_000_000,
    };
    // The exhausted counter from yesterday reads as a fresh zero today.
    let response = query_daily_stats(&config, &stale, now);
    assert_eq!(response.current_day, 20001);
    assert_eq!(response.sold_today, 0);
    assert_eq!(response.available_today, 1_200_000_000_000_000);
    // The record itself is untouched: the rollover is transient.
    assert_eq!(stale.current_day, 20000);
    assert_eq!(stale.sold_today, 1_200_000_000_000_000);
}

#[test]
fn pricing_info_reports_next_tier() {
    // Exactly one tier's budget sold: tier 1 at the compounded price.
    let config = sample_config();
    let pricing = sample_pricing();
    let response = query_pricing_info(&config, &pricing);
    assert_eq!(response.current_tier, 1);
    assert_eq!(response.current_price_usd, 32500);
    assert_eq!(response.total_sold, 250_000_000_000);
    assert_eq!(response.tokens_per_tier, 10_000_000);
    assert_eq!(response.base_price_usd, 25000);
    assert_eq!(response.tier_multiplier, 1300);
    // Next tier starts at usd_per_tier * (tier + 1).
    assert_eq!(response.next_tier_at, 500_000_000_000);
    assert_eq!(response.next_tier_price, 42250);
}

#[test]
fn pricing_info_at_start_of_sale() {
    let mut config = sample_config();
    config.total_sold = 0;
    let response = query_pricing_info(&config, &sample_pricing());
    assert_eq!(response.current_tier, 0);
    assert_eq!(response.current_price_usd, 25000);
    assert_eq!(response.next_tier_at, 250_000_000_000);
    assert_eq!(response.next_tier_price, 32500);
}

#[test]
fn bridge_validation_diagnostic_coerces_failure_to_false() {
    assert!(bridge_validation_diagnostic(Some(true)).is_valid);
    assert!(!bridge_validation_diagnostic(Some(false)).is_valid);
    // A transport or decode failure reads as "not valid", for observability
    // only.
    assert!(!bridge_validation_diagnostic(None).is_valid);
}

#[test]
fn block_height_passthrough() {
    assert_eq!(query_block_height(123_456).height, 123_456);
}
