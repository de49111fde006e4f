//! Purchase state machine: orchestrates validation, pricing, cap-checking
//! and stat/ledger updates for one incoming payment. The bridge-validation
//! verdict and the contract's live native balance are host-supplied inputs;
//! every decision made from them is verified here.

use crate::error::ContractError;
use crate::pricing::{
    calculate_current_price, calculate_current_tier_usd, calculate_tokens_for_usd, spec_price,
    spec_tier_usd, spec_tokens_for_usd,
};
use crate::state::{
    day_bucket, spec_day_bucket, Config, DailyStats, PricingConfig, BASIS_POINTS_DENOMINATOR,
};
use vstd::prelude::*;

verus! {

/// Everything a successful purchase reports back: the transfer to emit
/// (`tokens_purchased` of the native asset to `buyer`) and the informational
/// attributes.
#[derive(Clone, Debug, PartialEq, Eq)]
pub struct PurchaseReceipt {
    /// The account that receives the purchased native tokens.
    pub buyer: String,
    /// Identity of the payment-token contract that funded the purchase.
    pub payment_token: String,
    /// Amount of the payment token received.
    pub payment_amount: u128,
    /// Micro-USD value of the payment (1:1 with the payment amount).
    pub usd_value: u128,
    /// Native tokens to transfer to the buyer.
    pub tokens_purchased: u128,
    /// Pricing tier in effect for this purchase.
    pub tier: u32,
    /// Micro-USD price per token in effect for this purchase.
    pub price_per_token: u128,
}

/// The micro-USD amount already sold within the bucket `day`: the stored
/// counter if the record is in that bucket, otherwise 0 (the rollover reset).
pub open spec fn spec_rolled_sold_today(stats: DailyStats, day: u64) -> u128 {
    if stats.current_day == day {
        stats.sold_today
    } else {
        0u128
    }
}

/// The tier in effect for the next purchase under the given records.
pub open spec fn spec_current_tier(config: Config, pricing: PricingConfig) -> u32 {
    spec_tier_usd(config.total_sold, pricing.tokens_per_tier, pricing.base_price_usd)
}

/// The per-token price in effect for the next purchase under the given
/// records.
pub open spec fn spec_current_price(config: Config, pricing: PricingConfig) -> u128 {
    spec_price(
        pricing.base_price_usd,
        spec_current_tier(config, pricing) as nat,
        pricing.tier_multiplier,
    )
}

/// The daily micro-USD cap:
/// `floor(floor(total_supply * daily_limit_bp) / 10000) * price`.
/// `None` when the chain overflows, which the purchase path surfaces as an
/// invalid-configuration error naming `daily_limit_bp`.
pub open spec fn spec_daily_limit_usd(config: Config, price: u128) -> Option<u128> {
    if config.total_supply * config.daily_limit_bp > u128::MAX {
        None
    } else {
        let limit_tokens = ((config.total_supply * config.daily_limit_bp) as u128)
            / BASIS_POINTS_DENOMINATOR;
        if limit_tokens * price > u128::MAX {
            None
        } else {
            Some((limit_tokens * price) as u128)
        }
    }
}

/// Micro-USD still sellable today: `max(0, daily_limit_usd - sold_today)`.
pub open spec fn spec_available_today(limit_usd: u128, sold_today: u128) -> u128 {
    if limit_usd >= sold_today {
        (limit_usd - sold_today) as u128
    } else {
        0u128
    }
}

/// The error a purchase attempt fails with, or `None` when it succeeds.
/// Checks run in the order the purchase algorithm performs them.
pub open spec fn spec_purchase_error(
    config: Config,
    pricing: PricingConfig,
    stats: DailyStats,
    now_seconds: u64,
    payment_token: String,
    amount: u128,
    token_is_valid: bool,
    contract_balance: u128,
) -> Option<ContractError> {
    let day = spec_day_bucket(now_seconds);
    let sold_before = spec_rolled_sold_today(stats, day);
    let price = spec_current_price(config, pricing);
    let tokens = spec_tokens_for_usd(amount, price);
    if config.is_paused {
        Some(ContractError::ContractPaused)
    } else if !token_is_valid {
        Some(ContractError::TokenNotAccepted { token: payment_token })
    } else if amount == 0 {
        Some(ContractError::ZeroAmount)
    } else if tokens == 0 {
        Some(ContractError::ZeroAmount)
    } else {
        match spec_daily_limit_usd(config, price) {
            None => Some(ContractError::InvalidBasisPoints { value: config.daily_limit_bp }),
            Some(limit_usd) => {
                let available = spec_available_today(limit_usd, sold_before);
                if amount > available {
                    Some(ContractError::DailyLimitExceeded { available, requested: amount })
                } else if tokens > contract_balance {
                    Some(
                        ContractError::InsufficientBalance {
                            available: contract_balance,
                            needed: tokens,
                        },
                    )
                } else if sold_before + amount > u128::MAX || config.total_sold + amount
                    > u128::MAX {
                    Some(ContractError::Overflow)
                } else {
                    None
                }
            },
        }
    }
}

/// Processes one incoming payment of `amount` payment tokens (treated 1:1 as
/// micro-USD) from `payment_token` on behalf of `buyer`.
///
/// `token_is_valid` is the bridge-validation gateway's verdict for
/// `payment_token`; `contract_balance` is the contract's live balance of the
/// native asset. On success the records advance atomically: `sold_today` and
/// `total_sold` both grow by exactly `amount`, with `sold_today` reset to 0
/// first whenever the day bucket changed. On failure both records are left
/// exactly as they were.
pub fn execute_purchase(
    config: &mut Config,
    pricing: &PricingConfig,
    stats: &mut DailyStats,
    now_seconds: u64,
    buyer: String,
    payment_token: String,
    amount: u128,
    token_is_valid: bool,
    contract_balance: u128,
) -> (result: Result<PurchaseReceipt, ContractError>)
    ensures
        result matches Err(e) ==> Some(e) == spec_purchase_error(
            *old(config),
            *pricing,
            *old(stats),
            now_seconds,
            payment_token,
            amount,
            token_is_valid,
            contract_balance,
        ),
        result is Ok <==> spec_purchase_error(
            *old(config),
            *pricing,
            *old(stats),
            now_seconds,
            payment_token,
            amount,
            token_is_valid,
            contract_balance,
        ) is None,
        // A failing purchase leaves both records exactly as they were.
        result is Err ==> *final(config) == *old(config) && *final(stats) == *old(stats),
        // A successful purchase advances both running totals by the payment.
        result is Ok ==> *final(config) == (Config {
            total_sold: (old(config).total_sold + amount) as u128,
            ..*old(config)
        }),
        result is Ok ==> *final(stats) == (DailyStats {
            current_day: spec_day_bucket(now_seconds),
            sold_today: (spec_rolled_sold_today(*old(stats), spec_day_bucket(now_seconds))
                + amount) as u128,
        }),
        // A day-bucket change resets `sold_today` before the amount is added.
        (result is Ok && old(stats).current_day != spec_day_bucket(now_seconds))
            ==> final(stats).sold_today == amount,
        // `total_sold` is monotonic non-decreasing whatever happens, and so
        // is `sold_today` while the day bucket stands.
        old(config).total_sold <= final(config).total_sold,
        old(stats).current_day == spec_day_bucket(now_seconds)
            ==> old(stats).sold_today <= final(stats).sold_today,
        // A successful purchase never sends more than the contract holds,
        // and never leaves the day's counter above the daily cap.
        result matches Ok(receipt) ==> receipt.tokens_purchased <= contract_balance,
        result is Ok ==> (spec_daily_limit_usd(
            *old(config),
            spec_current_price(*old(config), *pricing),
        ) matches Some(limit_usd) && final(stats).sold_today <= limit_usd),
        result matches Ok(receipt) ==> {
            &&& receipt.buyer == buyer
            &&& receipt.payment_token == payment_token
            &&& receipt.payment_amount == amount
            &&& receipt.usd_value == amount
            &&& receipt.tier == spec_current_tier(*old(config), *pricing)
            &&& receipt.price_per_token == spec_current_price(*old(config), *pricing)
            &&& receipt.tokens_purchased == spec_tokens_for_usd(
                amount,
                spec_current_price(*old(config), *pricing),
            )
        },
{
    if config.is_paused {
        return Err(ContractError::ContractPaused);
    }
    if !token_is_valid {
        return Err(ContractError::TokenNotAccepted { token: payment_token });
    }
    // The payment amount is the micro-USD value 1:1.
    let usd_value = amount;
    if usd_value == 0 {
        return Err(ContractError::ZeroAmount);
    }

    // Resolve the day bucket; a new day starts from a zero counter.
    let day = day_bucket(now_seconds);
    let sold_before: u128 = if stats.current_day == day {
        stats.sold_today
    } else {
        0
    };

    // Current tier, price, and the tokens this payment buys.
    let tier = calculate_current_tier_usd(
        config.total_sold,
        pricing.tokens_per_tier,
        pricing.base_price_usd,
    );
    let price = calculate_current_price(pricing.base_price_usd, tier, pricing.tier_multiplier);
    let tokens_to_buy = calculate_tokens_for_usd(usd_value, price);
    if tokens_to_buy == 0 {
        return Err(ContractError::ZeroAmount);
    }

    // Daily cap in micro-USD; any overflow in the chain is an invalid
    // configuration named after the basis points.
    let limit_tokens = match config.total_supply.checked_mul(config.daily_limit_bp) {
        None => {
            return Err(ContractError::InvalidBasisPoints { value: config.daily_limit_bp });
        },
        Some(product) => product / BASIS_POINTS_DENOMINATOR,
    };
    let limit_usd = match limit_tokens.checked_mul(price) {
        None => {
            return Err(ContractError::InvalidBasisPoints { value: config.daily_limit_bp });
        },
        Some(limit_usd) => limit_usd,
    };
    let available_today: u128 = if limit_usd >= sold_before {
        limit_usd - sold_before
    } else {
        0
    };
    if usd_value > available_today {
        return Err(
            ContractError::DailyLimitExceeded { available: available_today, requested: usd_value },
        );
    }

    // The contract must actually hold what it is about to send.
    if tokens_to_buy > contract_balance {
        return Err(
            ContractError::InsufficientBalance {
                available: contract_balance,
                needed: tokens_to_buy,
            },
        );
    }

    // Advance both running totals, checked against overflow.
    let new_sold_today = match sold_before.checked_add(usd_value) {
        None => {
            return Err(ContractError::Overflow);
        },
        Some(v) => v,
    };
    let new_total_sold = match config.total_sold.checked_add(usd_value) {
        None => {
            return Err(ContractError::Overflow);
        },
        Some(v) => v,
    };
    stats.current_day = day;
    stats.sold_today = new_sold_today;
    config.total_sold = new_total_sold;

    Ok(
        PurchaseReceipt {
            buyer,
            payment_token,
            payment_amount: amount,
            usd_value,
            tokens_purchased: tokens_to_buy,
            tier,
            price_per_token: price,
        },
    )
}

} // verus!
