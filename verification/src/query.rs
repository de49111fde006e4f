//! Query service: read-only projections over the record store and the
//! pricing engine. Day-rollover is recomputed transiently, without
//! persisting, so stale reads never show a prior day's exhausted cap.

use crate::pricing::{
    calculate_current_price, calculate_current_tier_usd, calculate_tokens_for_usd, spec_price,
    spec_tokens_for_usd, MULTIPLIER_DENOMINATOR,
};
use crate::purchase::{spec_current_price, spec_current_tier, spec_rolled_sold_today};
use crate::state::{day_bucket, spec_day_bucket, Config, DailyStats, PricingConfig,
    BASIS_POINTS_DENOMINATOR};
use vstd::prelude::*;

verus! {

/// Read-only projection of the configuration record.
#[derive(Clone, Debug, PartialEq, Eq)]
pub struct ConfigResponse {
    /// Admin identity; empty when no admin is configured.
    pub admin: String,
    /// Denomination of the native asset being sold.
    pub native_denom: String,
    /// Daily selling limit in basis points.
    pub daily_limit_bp: u128,
    /// Whether the purchase path is disabled.
    pub is_paused: bool,
    /// Cumulative micro-USD value of all completed purchases.
    pub total_sold: u128,
}

/// Read-only projection of the daily sales accounting.
#[derive(Clone, Debug, PartialEq, Eq)]
pub struct DailyStatsResponse {
    /// The day bucket the figures refer to: always the current one.
    pub current_day: u64,
    /// Micro-USD value sold within the current day bucket.
    pub sold_today: u128,
    /// What is still sellable today against the daily limit.
    pub available_today: u128,
    /// Native tokens allocated to the sale.
    pub total_supply: u128,
}

/// Read-only projection of the pricing engine's state.
#[derive(Clone, Debug, PartialEq, Eq)]
pub struct PricingInfoResponse {
    /// Tier in effect for the next purchase.
    pub current_tier: u32,
    /// Micro-USD price per token in effect for the next purchase.
    pub current_price_usd: u128,
    /// Cumulative micro-USD value of all completed purchases.
    pub total_sold: u128,
    /// Tokens per tier.
    pub tokens_per_tier: u128,
    /// Tier-0 price in micro-USD.
    pub base_price_usd: u128,
    /// Per-tier multiplier over 1000.
    pub tier_multiplier: u128,
    /// Cumulative micro-USD sales at which the next tier starts.
    pub next_tier_at: u128,
    /// Micro-USD price per token once the next tier starts.
    pub next_tier_price: u128,
}

/// Preview of the purchase-path arithmetic for an arbitrary USD amount.
#[derive(Clone, Debug, PartialEq, Eq)]
pub struct TokenCalculationResponse {
    /// Tokens the amount would buy at the current price.
    pub tokens: u128,
    /// Micro-USD price per token in effect.
    pub current_price: u128,
    /// Tier in effect.
    pub current_tier: u32,
}

/// Verdict of a bridge-validation diagnostic query.
#[derive(Clone, Debug, PartialEq, Eq)]
pub struct TestBridgeValidationResponse {
    /// The gateway's verdict, with failures coerced to `false`.
    pub is_valid: bool,
}

/// Height of the current block, for operational testing.
#[derive(Clone, Debug, PartialEq, Eq)]
pub struct BlockHeightResponse {
    /// The host's current block height.
    pub height: u64,
}

/// The daily limit the stats query reports, in native tokens:
/// `floor(total_supply * daily_limit_bp / 10000)`, with 0 when the
/// multiplication overflows.
pub open spec fn spec_stats_daily_limit(config: Config) -> u128 {
    if config.total_supply * config.daily_limit_bp > u128::MAX {
        0u128
    } else {
        ((config.total_supply * config.daily_limit_bp) as u128) / BASIS_POINTS_DENOMINATOR
    }
}

/// Projects the configuration record.
pub fn query_config(config: &Config) -> (response: ConfigResponse)
    ensures
        response.admin == config.admin,
        response.native_denom == config.native_denom,
        response.daily_limit_bp == config.daily_limit_bp,
        response.is_paused == config.is_paused,
        response.total_sold == config.total_sold,
{
    ConfigResponse {
        admin: config.admin.clone(),
        native_denom: config.native_denom.clone(),
        daily_limit_bp: config.daily_limit_bp,
        is_paused: config.is_paused,
        total_sold: config.total_sold,
    }
}

/// Projects the daily sales accounting, recomputing the day rollover
/// transiently: a stale record from a prior day reads as a fresh zero
/// counter.
pub fn query_daily_stats(config: &Config, stats: &DailyStats, now_seconds: u64) -> (response:
    DailyStatsResponse)
    ensures
        response.current_day == spec_day_bucket(now_seconds),
        response.sold_today == spec_rolled_sold_today(*stats, spec_day_bucket(now_seconds)),
        response.available_today == ({
            let limit = spec_stats_daily_limit(*config);
            let sold = spec_rolled_sold_today(*stats, spec_day_bucket(now_seconds));
            if limit >= sold {
                (limit - sold) as u128
            } else {
                0u128
            }
        }),
        response.total_supply == config.total_supply,
{
    let day = day_bucket(now_seconds);
    let sold_today: u128 = if stats.current_day == day {
        stats.sold_today
    } else {
        0
    };
    let daily_limit = match config.total_supply.checked_mul(config.daily_limit_bp) {
        None => 0,
        Some(product) => product / BASIS_POINTS_DENOMINATOR,
    };
    let available_today: u128 = if daily_limit >= sold_today {
        daily_limit - sold_today
    } else {
        0
    };
    DailyStatsResponse {
        current_day: day,
        sold_today,
        available_today,
        total_supply: config.total_supply,
    }
}

/// Cumulative micro-USD sales at which the tier after `tier` starts:
/// `tokens_per_tier * base_price * (tier + 1)`, with 0 when either
/// multiplication overflows.
pub open spec fn spec_next_tier_at(pricing: PricingConfig, tier: u32) -> u128 {
    let usd_per_tier = if pricing.tokens_per_tier * pricing.base_price_usd > u128::MAX {
        0u128
    } else {
        (pricing.tokens_per_tier * pricing.base_price_usd) as u128
    };
    if usd_per_tier * (tier + 1) > u128::MAX {
        0u128
    } else {
        (usd_per_tier * (tier + 1)) as u128
    }
}

/// Projects the pricing engine's state, including the next tier's threshold
/// and price, computed with the same compounding step as the engine itself.
pub fn query_pricing_info(config: &Config, pricing: &PricingConfig) -> (response:
    PricingInfoResponse)
    ensures
        response.current_tier == spec_current_tier(*config, *pricing),
        response.current_price_usd == spec_current_price(*config, *pricing),
        response.total_sold == config.total_sold,
        response.tokens_per_tier == pricing.tokens_per_tier,
        response.base_price_usd == pricing.base_price_usd,
        response.tier_multiplier == pricing.tier_multiplier,
        response.next_tier_at == spec_next_tier_at(*pricing, spec_current_tier(*config, *pricing)),
        response.next_tier_price == spec_price(
            pricing.base_price_usd,
            (spec_current_tier(*config, *pricing) + 1) as nat,
            pricing.tier_multiplier,
        ),
{
    let current_tier = calculate_current_tier_usd(
        config.total_sold,
        pricing.tokens_per_tier,
        pricing.base_price_usd,
    );
    let current_price = calculate_current_price(
        pricing.base_price_usd,
        current_tier,
        pricing.tier_multiplier,
    );
    let usd_per_tier = match pricing.tokens_per_tier.checked_mul(pricing.base_price_usd) {
        None => 0,
        Some(product) => product,
    };
    let next_tier_at = match usd_per_tier.checked_mul((current_tier as u128) + 1) {
        None => 0,
        Some(product) => product,
    };
    // The next tier's price is one more compounding step on the current one.
    let next_tier_price = match current_price.checked_mul(pricing.tier_multiplier) {
        Some(product) => product / MULTIPLIER_DENOMINATOR,
        None => current_price,
    };
    PricingInfoResponse {
        current_tier,
        current_price_usd: current_price,
        total_sold: config.total_sold,
        tokens_per_tier: pricing.tokens_per_tier,
        base_price_usd: pricing.base_price_usd,
        tier_multiplier: pricing.tier_multiplier,
        next_tier_at,
        next_tier_price,
    }
}

/// Previews the purchase-path arithmetic for `usd_amount` micro-USD without
/// touching any record.
pub fn query_calculate_tokens(
    config: &Config,
    pricing: &PricingConfig,
    usd_amount: u128,
) -> (response: TokenCalculationResponse)
    ensures
        response.current_tier == spec_current_tier(*config, *pricing),
        response.current_price == spec_current_price(*config, *pricing),
        response.tokens == spec_tokens_for_usd(usd_amount, spec_current_price(*config, *pricing)),
{
    let current_tier = calculate_current_tier_usd(
        config.total_sold,
        pricing.tokens_per_tier,
        pricing.base_price_usd,
    );
    let current_price = calculate_current_price(
        pricing.base_price_usd,
        current_tier,
        pricing.tier_multiplier,
    );
    let tokens = calculate_tokens_for_usd(usd_amount, current_price);
    TokenCalculationResponse { tokens, current_price, current_tier }
}

/// Wraps a diagnostic validation outcome: the dedicated diagnostic path
/// coerces a transport or decode failure to `false`, for observability only.
pub fn bridge_validation_diagnostic(outcome: Option<bool>) -> (response:
    TestBridgeValidationResponse)
    ensures
        response.is_valid == (outcome matches Some(verdict) && verdict),
{
    TestBridgeValidationResponse {
        is_valid: match outcome {
            Some(verdict) => verdict,
            None => false,
        },
    }
}

/// Reports the current block height.
pub fn query_block_height(height: u64) -> (response: BlockHeightResponse)
    ensures
        response.height == height,
{
    BlockHeightResponse { height }
}

} // verus!
