//! End-to-end exercises of the contract's creation, pause/resume and
//! purchase paths on concrete values.

use liquidity_pool::admin::{pause_contract, resume_contract};
use liquidity_pool::error::ContractError;
use liquidity_pool::purchase::execute_purchase;
use liquidity_pool::query::{query_calculate_tokens, query_config};
use liquidity_pool::state::{
    instantiate, resolve_native_denom, Config, DailyStats, InstantiateMsg, PricingConfig,
};

fn standard_msg() -> InstantiateMsg {
    InstantiateMsg {
        admin: Some("admin".to_string()),
        daily_limit_bp: Some(100),
        base_price_usd: Some(25000),
        tokens_per_tier: Some(10_000_000),
        tier_multiplier: Some(1300),
        total_supply: Some(120_000_000_000_000_000),
    }
}

const NOW: u64 = 1_571_797_419;

#[test]
fn proper_instantiation() {
    let denom = resolve_native_denom(None);
    let (config, pricing, stats) = instantiate(standard_msg(), NOW, denom).unwrap();

    assert_eq!(config.admin, "admin");
    assert_eq!(config.native_denom, "nicoin");
    assert_eq!(config.daily_limit_bp, 100);
    assert!(!config.is_paused);
    assert_eq!(config.total_supply, 120_000_000_000_000_000);
    assert_eq!(config.total_sold, 0);
    assert_eq!(pricing.base_price_usd, 25000);
    assert_eq!(pricing.tokens_per_tier, 10_000_000);
    assert_eq!(pricing.tier_multiplier, 1300);
    assert_eq!(stats.current_day, NOW / 86400);
    assert_eq!(stats.sold_today, 0);
}

#[test]
fn test_pause_resume() {
    let denom = resolve_native_denom(None);
    let (mut config, _pricing, _stats) = instantiate(standard_msg(), NOW, denom).unwrap();

    let admin = "admin".to_string();
    pause_contract(&mut config, &admin).unwrap();
    let response = query_config(&config);
    assert!(response.is_paused);

    resume_contract(&mut config, &admin).unwrap();
    let response = query_config(&config);
    assert!(!response.is_paused);
}

#[test]
fn test_usd_based_tier_calculation() {
    let msg = InstantiateMsg {
        daily_limit_bp: Some(1000),
        ..standard_msg()
    };
    let denom = resolve_native_denom(None);
    let (config, pricing, _stats) = instantiate(msg, NOW, denom).unwrap();

    // $100 in micro-USD: 10M tokens/tier at $0.025 means a $250,000 tier
    // budget, so this sits in tier 0.
    let response = query_calculate_tokens(&config, &pricing, 100_000_000);
    assert_eq!(response.current_tier, 0);
    assert_eq!(response.current_price, 25000);
    assert_eq!(response.tokens, 4_000_000_000);
}

#[test]
fn instantiation_defaults() {
    let msg = InstantiateMsg {
        admin: None,
        daily_limit_bp: None,
        base_price_usd: None,
        tokens_per_tier: None,
        tier_multiplier: None,
        total_supply: None,
    };
    let (config, pricing, stats) = instantiate(msg, 0, resolve_native_denom(None)).unwrap();
    assert_eq!(config.admin, "");
    assert_eq!(config.daily_limit_bp, 100);
    assert_eq!(config.total_supply, 0);
    assert_eq!(pricing.base_price_usd, 25000);
    assert_eq!(pricing.tokens_per_tier, 10_000_000);
    assert_eq!(pricing.tier_multiplier, 1300);
    assert_eq!(stats.current_day, 0);
}

#[test]
fn instantiation_rejects_bad_basis_points() {
    let msg = InstantiateMsg {
        daily_limit_bp: Some(0),
        ..standard_msg()
    };
    let err = instantiate(msg, NOW, resolve_native_denom(None)).unwrap_err();
    assert_eq!(err, ContractError::InvalidBasisPoints { value: 0 });

    let msg = InstantiateMsg {
        daily_limit_bp: Some(10001),
        ..standard_msg()
    };
    let err = instantiate(msg, NOW, resolve_native_denom(None)).unwrap_err();
    assert_eq!(err, ContractError::InvalidBasisPoints { value: 10001 });
}

#[test]
fn native_denom_resolution() {
    assert_eq!(resolve_native_denom(None), "nicoin");
    assert_eq!(resolve_native_denom(Some(String::new())), "nicoin");
    assert_eq!(resolve_native_denom(Some("uatom".to_string())), "uatom");
}

fn purchase_records() -> (Config, PricingConfig, DailyStats) {
    let (config, pricing, stats) = instantiate(standard_msg(), NOW, resolve_native_denom(None))
        .unwrap();
    (config, pricing, stats)
}

#[test]
fn purchase_succeeds_and_advances_totals() {
    let (mut config, pricing, mut stats) = purchase_records();
    let receipt = execute_purchase(
        &mut config,
        &pricing,
        &mut stats,
        NOW,
        "buyer".to_string(),
        "cw20token".to_string(),
        100_000_000,
        true,
        10_000_000_000,
    )
    .unwrap();

    assert_eq!(receipt.buyer, "buyer");
    assert_eq!(receipt.payment_token, "cw20token");
    assert_eq!(receipt.payment_amount, 100_000_000);
    assert_eq!(receipt.usd_value, 100_000_000);
    assert_eq!(receipt.tokens_purchased, 4_000_000_000);
    assert_eq!(receipt.tier, 0);
    assert_eq!(receipt.price_per_token, 25000);

    assert_eq!(config.total_sold, 100_000_000);
    assert_eq!(stats.sold_today, 100_000_000);
    assert_eq!(stats.current_day, NOW / 86400);
}

#[test]
fn purchase_resets_counter_on_new_day() {
    let (mut config, pricing, mut stats) = purchase_records();
    // A stale record from the previous day with a non-zero counter.
    stats.current_day = NOW / 86400 - 1;
    stats.sold_today = 999_999;

    execute_purchase(
        &mut config,
        &pricing,
        &mut stats,
        NOW,
        "buyer".to_string(),
        "cw20token".to_string(),
        50_000_000,
        true,
        10_000_000_000,
    )
    .unwrap();

    // The reset goes to exactly 0 before the new amount is added.
    assert_eq!(stats.sold_today, 50_000_000);
    assert_eq!(stats.current_day, NOW / 86400);
}

#[test]
fn purchase_fails_when_paused_and_succeeds_after_resume() {
    let (mut config, pricing, mut stats) = purchase_records();
    let admin = "admin".to_string();
    pause_contract(&mut config, &admin).unwrap();

    let config_before = config.clone();
    let stats_before = stats.clone();
    let err = execute_purchase(
        &mut config,
        &pricing,
        &mut stats,
        NOW,
        "buyer".to_string(),
        "cw20token".to_string(),
        100_000_000,
        true,
        10_000_000_000,
    )
    .unwrap_err();
    assert_eq!(err, ContractError::ContractPaused);
    assert_eq!(config, config_before);
    assert_eq!(stats, stats_before);

    resume_contract(&mut config, &admin).unwrap();
    let receipt = execute_purchase(
        &mut config,
        &pricing,
        &mut stats,
        NOW,
        "buyer".to_string(),
        "cw20token".to_string(),
        100_000_000,
        true,
        10_000_000_000,
    )
    .unwrap();
    // The identical purchase now succeeds with unchanged pricing math.
    assert_eq!(receipt.tokens_purchased, 4_000_000_000);
    assert_eq!(receipt.price_per_token, 25000);
}

#[test]
fn purchase_rejects_unvalidated_token() {
    let (mut config, pricing, mut stats) = purchase_records();
    let config_before = config.clone();
    let stats_before = stats.clone();
    let err = execute_purchase(
        &mut config,
        &pricing,
        &mut stats,
        NOW,
        "buyer".to_string(),
        "shadycoin".to_string(),
        100_000_000,
        false,
        10_000_000_000,
    )
    .unwrap_err();
    assert_eq!(
        err,
        ContractError::TokenNotAccepted {
            token: "shadycoin".to_string()
        }
    );
    assert_eq!(config, config_before);
    assert_eq!(stats, stats_before);
}

#[test]
fn purchase_rejects_zero_amounts() {
    let (mut config, pricing, mut stats) = purchase_records();
    let err = execute_purchase(
        &mut config,
        &pricing,
        &mut stats,
        NOW,
        "buyer".to_string(),
        "cw20token".to_string(),
        0,
        true,
        10_000_000_000,
    )
    .unwrap_err();
    assert_eq!(err, ContractError::ZeroAmount);

    // A payment so small it buys zero whole token units fails the same way.
    let mut pricing_expensive = pricing.clone();
    pricing_expensive.base_price_usd = 2_000_000;
    let err = execute_purchase(
        &mut config,
        &pricing_expensive,
        &mut stats,
        NOW,
        "buyer".to_string(),
        "cw20token".to_string(),
        1,
        true,
        10_000_000_000,
    )
    .unwrap_err();
    assert_eq!(err, ContractError::ZeroAmount);
    assert_eq!(config.total_sold, 0);
}

#[test]
fn purchase_enforces_daily_limit() {
    // Scenario: bp 100 of 120M tokens at price 25000 micro-USD.
    let (mut config, pricing, mut stats) = purchase_records();
    let daily_limit_usd: u128 = 120_000_000_000_000_000 * 100 / 10000 * 25000;
    assert_eq!(daily_limit_usd, 30_000_000_000_000_000_000);

    let config_before = config.clone();
    let stats_before = stats.clone();
    let err = execute_purchase(
        &mut config,
        &pricing,
        &mut stats,
        NOW,
        "buyer".to_string(),
        "cw20token".to_string(),
        daily_limit_usd + 1,
        true,
        u128::MAX,
    )
    .unwrap_err();
    assert_eq!(
        err,
        ContractError::DailyLimitExceeded {
            available: daily_limit_usd,
            requested: daily_limit_usd + 1,
        }
    );
    assert_eq!(config, config_before);
    assert_eq!(stats, stats_before);
}

#[test]
fn purchase_counts_sold_today_against_limit() {
    let (mut config, pricing, mut stats) = purchase_records();
    let daily_limit_usd: u128 = 30_000_000_000_000_000_000;
    stats.sold_today = daily_limit_usd - 5;

    let err = execute_purchase(
        &mut config,
        &pricing,
        &mut stats,
        NOW,
        "buyer".to_string(),
        "cw20token".to_string(),
        6,
        true,
        u128::MAX,
    )
    .unwrap_err();
    assert_eq!(
        err,
        ContractError::DailyLimitExceeded {
            available: 5,
            requested: 6,
        }
    );
}

#[test]
fn purchase_requires_contract_balance() {
    let (mut config, pricing, mut stats) = purchase_records();
    let config_before = config.clone();
    let err = execute_purchase(
        &mut config,
        &pricing,
        &mut stats,
        NOW,
        "buyer".to_string(),
        "cw20token".to_string(),
        100_000_000,
        true,
        3_999_999_999,
    )
    .unwrap_err();
    assert_eq!(
        err,
        ContractError::InsufficientBalance {
            available: 3_999_999_999,
            needed: 4_000_000_000,
        }
    );
    assert_eq!(config, config_before);
}

#[test]
fn purchase_flags_basis_point_overflow() {
    let (mut config, pricing, mut stats) = purchase_records();
    config.total_supply = u128::MAX;
    config.daily_limit_bp = 2;
    let err = execute_purchase(
        &mut config,
        &pricing,
        &mut stats,
        NOW,
        "buyer".to_string(),
        "cw20token".to_string(),
        100_000_000,
        true,
        u128::MAX,
    )
    .unwrap_err();
    assert_eq!(err, ContractError::InvalidBasisPoints { value: 2 });
}

#[test]
fn purchase_flags_total_sold_overflow() {
    let (mut config, _pricing, mut stats) = purchase_records();
    // A pricing whose tier collapses to 0 (the tier product overflows) so
    // the cumulative total is the only thing that can overflow.
    let pricing = PricingConfig {
        base_price_usd: 2,
        tokens_per_tier: u128::MAX,
        tier_multiplier: 1300,
    };
    config.total_sold = u128::MAX - 10;
    config.total_supply = 1_000_000_000_000_000_000_000_000_000_000;
    config.daily_limit_bp = 10000;

    let config_before = config.clone();
    let stats_before = stats.clone();
    let err = execute_purchase(
        &mut config,
        &pricing,
        &mut stats,
        NOW,
        "buyer".to_string(),
        "cw20token".to_string(),
        100,
        true,
        1_000_000_000,
    )
    .unwrap_err();
    assert_eq!(err, ContractError::Overflow);
    assert_eq!(config, config_before);
    assert_eq!(stats, stats_before);
}
