//! The record store's data model: three singleton records, each
//! read-modify-written as a whole. Amounts are `u128`; USD values are
//! micro-USD (6 implied decimals).

use crate::error::ContractError;
use vstd::prelude::*;
use vstd::string::StringExecFns;

verus! {

/// Number of seconds in one day bucket.
pub const SECONDS_PER_DAY: u64 = 86400;

/// Basis-point denominator: a cap of `daily_limit_bp` means
/// `daily_limit_bp / 10000` of the total supply per day.
pub const BASIS_POINTS_DENOMINATOR: u128 = 10000;

/// Contract configuration, persisted under the `config` key.
#[derive(Clone, Debug, PartialEq, Eq)]
pub struct Config {
    /// Admin identity; the empty string means "no admin" and disables all
    /// admin operations.
    pub admin: String,
    /// Denomination of the native asset being sold.
    pub native_denom: String,
    /// Daily selling limit in basis points, always in [1, 10000].
    pub daily_limit_bp: u128,
    /// Whether the purchase path is disabled.
    pub is_paused: bool,
    /// Total amount of native asset ever allocated to this sale.
    pub total_supply: u128,
    /// Cumulative micro-USD value of all completed purchases; monotonic
    /// non-decreasing for the contract's lifetime.
    pub total_sold: u128,
}

impl Config {
    /// The invariant every stored `Config` satisfies: the daily limit is a
    /// valid basis-point value.
    pub open spec fn wf(self) -> bool {
        1 <= self.daily_limit_bp <= BASIS_POINTS_DENOMINATOR
    }
}

/// Pricing parameters, persisted under the `pricing_config` key.
#[derive(Clone, Debug, PartialEq, Eq)]
pub struct PricingConfig {
    /// Price of one token in micro-USD at tier 0.
    pub base_price_usd: u128,
    /// Tokens that, at the base price, exhaust one tier's USD budget.
    pub tokens_per_tier: u128,
    /// Per-tier price multiplier with denominator 1000 (1300 means x1.3).
    pub tier_multiplier: u128,
}

/// Daily sales accounting, persisted under the `daily_stats` key.
#[derive(Clone, Debug, PartialEq, Eq)]
pub struct DailyStats {
    /// Day bucket: floor(block time in seconds / 86400).
    pub current_day: u64,
    /// Cumulative micro-USD value sold within `current_day`.
    pub sold_today: u128,
}

/// Creation parameters; every field but the admin and the limit has a
/// numeric default.
#[derive(Clone, Debug, PartialEq, Eq)]
pub struct InstantiateMsg {
    /// Admin address; `None` or empty means no admin.
    pub admin: Option<String>,
    /// Daily cap in basis points; defaults to 100.
    pub daily_limit_bp: Option<u128>,
    /// Tier-0 price in micro-USD; defaults to 25000.
    pub base_price_usd: Option<u128>,
    /// Tokens per tier; defaults to 10,000,000.
    pub tokens_per_tier: Option<u128>,
    /// Per-tier multiplier over 1000; defaults to 1300.
    pub tier_multiplier: Option<u128>,
    /// Native tokens allocated to the sale; defaults to 0.
    pub total_supply: Option<u128>,
}

/// Default daily cap in basis points.
pub const DEFAULT_DAILY_LIMIT_BP: u128 = 100;

/// Default tier-0 price in micro-USD.
pub const DEFAULT_BASE_PRICE_USD: u128 = 25000;

/// Default tokens per tier.
pub const DEFAULT_TOKENS_PER_TIER: u128 = 10_000_000;

/// Default per-tier multiplier (x1.3).
pub const DEFAULT_TIER_MULTIPLIER: u128 = 1300;

/// The admin identity a creation message resolves to: the given address when
/// present and non-empty, otherwise the empty string ("no admin").
pub open spec fn spec_initial_admin(admin: Option<String>) -> Seq<char> {
    match admin {
        Some(addr) => if addr@.len() > 0 {
            addr@
        } else {
            Seq::<char>::empty()
        },
        None => Seq::<char>::empty(),
    }
}

/// Creates the three records. The admin address, when present and non-empty,
/// must already have passed host-side address validation; `native_denom` is
/// the denomination resolved from the host. Fails if and only if the
/// requested basis points are outside [1, 10000].
pub fn instantiate(msg: InstantiateMsg, now_seconds: u64, native_denom: String) -> (result: Result<
    (Config, PricingConfig, DailyStats),
    ContractError,
>)
    ensures
        ({
            let bp = match msg.daily_limit_bp {
                Some(bp) => bp,
                None => DEFAULT_DAILY_LIMIT_BP,
            };
            if bp == 0 || bp > BASIS_POINTS_DENOMINATOR {
                result == Err::<(Config, PricingConfig, DailyStats), ContractError>(
                    ContractError::InvalidBasisPoints { value: bp },
                )
            } else {
                result matches Ok((config, pricing, stats)) && {
                    &&& config.admin@ == spec_initial_admin(msg.admin)
                    &&& config.native_denom == native_denom
                    &&& config.daily_limit_bp == bp
                    &&& !config.is_paused
                    &&& config.total_supply == match msg.total_supply {
                        Some(supply) => supply,
                        None => 0u128,
                    }
                    &&& config.total_sold == 0
                    &&& config.wf()
                    &&& pricing.base_price_usd == match msg.base_price_usd {
                        Some(price) => price,
                        None => DEFAULT_BASE_PRICE_USD,
                    }
                    &&& pricing.tokens_per_tier == match msg.tokens_per_tier {
                        Some(tokens) => tokens,
                        None => DEFAULT_TOKENS_PER_TIER,
                    }
                    &&& pricing.tier_multiplier == match msg.tier_multiplier {
                        Some(multiplier) => multiplier,
                        None => DEFAULT_TIER_MULTIPLIER,
                    }
                    &&& stats.current_day == spec_day_bucket(now_seconds)
                    &&& stats.sold_today == 0
                }
            }
        }),
{
    let daily_limit_bp = match msg.daily_limit_bp {
        Some(bp) => bp,
        None => DEFAULT_DAILY_LIMIT_BP,
    };
    if daily_limit_bp == 0 || daily_limit_bp > BASIS_POINTS_DENOMINATOR {
        return Err(ContractError::InvalidBasisPoints { value: daily_limit_bp });
    }

    let admin = match msg.admin {
        Some(addr) => if addr.as_str().is_empty() {
            String::new()
        } else {
            addr
        },
        None => String::new(),
    };

    let config = Config {
        admin,
        native_denom,
        daily_limit_bp,
        is_paused: false,
        total_supply: match msg.total_supply {
            Some(supply) => supply,
            None => 0,
        },
        total_sold: 0,
    };

    let pricing = PricingConfig {
        base_price_usd: match msg.base_price_usd {
            Some(price) => price,
            None => DEFAULT_BASE_PRICE_USD,
        },
        tokens_per_tier: match msg.tokens_per_tier {
            Some(tokens) => tokens,
            None => DEFAULT_TOKENS_PER_TIER,
        },
        tier_multiplier: match msg.tier_multiplier {
            Some(multiplier) => multiplier,
            None => DEFAULT_TIER_MULTIPLIER,
        },
    };

    let stats = DailyStats { current_day: day_bucket(now_seconds), sold_today: 0 };

    Ok((config, pricing, stats))
}

/// The denomination the sale uses: the host's bonded denomination when the
/// staking query answered with a non-empty string, otherwise the fixed
/// fallback `nicoin`.
pub fn resolve_native_denom(bonded_denom: Option<String>) -> (denom: String)
    ensures
        match bonded_denom {
            Some(answer) => if answer@.len() > 0 {
                denom@ == answer@
            } else {
                denom@ == "nicoin"@
            },
            None => denom@ == "nicoin"@,
        },
{
    match bonded_denom {
        Some(answer) => if answer.as_str().is_empty() {
            String::from_str("nicoin")
        } else {
            answer
        },
        None => String::from_str("nicoin"),
    }
}

/// The day bucket a block timestamp falls into.
pub open spec fn spec_day_bucket(now_seconds: u64) -> u64 {
    (now_seconds / SECONDS_PER_DAY) as u64
}

/// Computes the day bucket of a block timestamp.
pub fn day_bucket(now_seconds: u64) -> (day: u64)
    ensures
        day == spec_day_bucket(now_seconds),
{
    now_seconds / SECONDS_PER_DAY
}

} // verus!
