//! Pricing & tier engine: pure functions mapping cumulative sales to a tier
//! index and a per-token price, plus the token-amount preview. All arithmetic
//! follows the iterative fixed-point compounding with a per-step floor; no
//! closed-form power is used, so rounding compounds exactly as specified.

use vstd::arithmetic::div_mod::{
    lemma_div_is_ordered, lemma_div_multiples_vanish, lemma_div_nonincreasing,
};
use vstd::arithmetic::mul::lemma_mul_inequality;
use vstd::prelude::*;

verus! {

/// Denominator of the tier multiplier: a multiplier of 1300 means x1.3.
pub const MULTIPLIER_DENOMINATOR: u128 = 1000;

/// Micro-USD per USD-unit: reconciles the 6-decimal fixed-point USD amount
/// with a 6-decimal token amount.
pub const USD_DECIMALS_FACTOR: u128 = 1_000_000;

/// Tier reached after `tokens_sold` tokens, with `tokens_per_tier` tokens per
/// tier. A zero divisor yields tier 0; the quotient is truncated to 32 bits.
pub open spec fn spec_tier(tokens_sold: u128, tokens_per_tier: u128) -> u32 {
    if tokens_per_tier == 0 {
        0u32
    } else {
        (tokens_sold / tokens_per_tier) as u32
    }
}

/// Tier reached after `usd_sold` micro-USD of sales: each tier's budget is
/// `tokens_per_tier * base_price` micro-USD. A zero divisor, or an overflow
/// of that product, yields tier 0; the quotient is truncated to 32 bits.
pub open spec fn spec_tier_usd(usd_sold: u128, tokens_per_tier: u128, base_price: u128) -> u32 {
    if tokens_per_tier == 0 || base_price == 0 {
        0u32
    } else if tokens_per_tier * base_price > u128::MAX {
        0u32
    } else {
        (usd_sold / ((tokens_per_tier * base_price) as u128)) as u32
    }
}

/// Price after `tier` compounding steps: each step replaces the price with
/// `floor(price * multiplier / 1000)`, keeping the previous price unchanged
/// when the multiplication would overflow.
pub open spec fn spec_price(base_price: u128, tier: nat, multiplier: u128) -> u128
    decreases tier,
{
    if tier == 0 {
        base_price
    } else {
        let prev = spec_price(base_price, (tier - 1) as nat, multiplier);
        if prev * multiplier > u128::MAX {
            prev
        } else {
            ((prev * multiplier) / (MULTIPLIER_DENOMINATOR as int)) as u128
        }
    }
}

/// Tokens purchasable with `usd_amount` micro-USD at `price_per_token`
/// micro-USD per token: `floor(usd_amount * 1_000_000 / price)`, with 0 for a
/// zero price and 0 when the scaling multiplication overflows.
pub open spec fn spec_tokens_for_usd(usd_amount: u128, price_per_token: u128) -> u128 {
    if price_per_token == 0 {
        0u128
    } else if usd_amount * USD_DECIMALS_FACTOR > u128::MAX {
        0u128
    } else {
        ((usd_amount * USD_DECIMALS_FACTOR) / (price_per_token as int)) as u128
    }
}

/// Calculates the current tier from tokens sold.
pub fn calculate_current_tier(tokens_sold: u128, tokens_per_tier: u128) -> (tier: u32)
    ensures
        tier == spec_tier(tokens_sold, tokens_per_tier),
{
    if tokens_per_tier == 0 {
        return 0;
    }
    let quotient: u128 = tokens_sold / tokens_per_tier;
    #[verifier::truncate] (quotient as u32)
}

/// Calculates the current tier from the cumulative micro-USD value sold.
pub fn calculate_current_tier_usd(
    usd_sold: u128,
    tokens_per_tier: u128,
    base_price: u128,
) -> (tier: u32)
    ensures
        tier == spec_tier_usd(usd_sold, tokens_per_tier, base_price),
{
    if tokens_per_tier == 0 || base_price == 0 {
        return 0;
    }
    match tokens_per_tier.checked_mul(base_price) {
        None => 0,
        Some(usd_per_tier) => {
            proof {
                vstd::arithmetic::mul::lemma_mul_strictly_positive(
                    tokens_per_tier as int,
                    base_price as int,
                );
            }
            if usd_per_tier == 0 {
                0
            } else {
                let quotient: u128 = usd_sold / usd_per_tier;
                #[verifier::truncate] (quotient as u32)
            }
        },
    }
}

/// Calculates the per-token price at `current_tier` by iterative compounding.
pub fn calculate_current_price(
    base_price: u128,
    current_tier: u32,
    tier_multiplier: u128,
) -> (price: u128)
    ensures
        price == spec_price(base_price, current_tier as nat, tier_multiplier),
{
    let mut price: u128 = base_price;
    let mut step: u32 = 0;
    while step < current_tier
        invariant
            step <= current_tier,
            price == spec_price(base_price, step as nat, tier_multiplier),
        decreases current_tier - step,
    {
        price = match price.checked_mul(tier_multiplier) {
            Some(product) => product / MULTIPLIER_DENOMINATOR,
            None => price,
        };
        step = step + 1;
    }
    price
}

/// Calculates how many tokens `usd_amount` micro-USD buys at the given price.
pub fn calculate_tokens_for_usd(usd_amount: u128, price_per_token: u128) -> (tokens: u128)
    ensures
        tokens == spec_tokens_for_usd(usd_amount, price_per_token),
{
    if price_per_token == 0 {
        return 0;
    }
    match usd_amount.checked_mul(USD_DECIMALS_FACTOR) {
        None => 0,
        Some(scaled) => {
            proof {
                lemma_div_nonincreasing(scaled as int, price_per_token as int);
            }
            scaled / price_per_token
        },
    }
}

/// At tier 0 the price is the base price, for every multiplier.
pub proof fn lemma_price_at_tier_zero(base_price: u128, multiplier: u128)
    requires
        multiplier > 0,
    ensures
        spec_price(base_price, 0, multiplier) == base_price,
{
}

/// One compounding step never lowers the price when the multiplier is at
/// least the denominator.
proof fn lemma_price_step_nondecreasing(base_price: u128, tier: nat, multiplier: u128)
    requires
        multiplier >= MULTIPLIER_DENOMINATOR,
        tier > 0,
    ensures
        spec_price(base_price, (tier - 1) as nat, multiplier) <= spec_price(
            base_price,
            tier,
            multiplier,
        ),
{
    let prev = spec_price(base_price, (tier - 1) as nat, multiplier);
    if prev * multiplier <= u128::MAX {
        lemma_mul_inequality(MULTIPLIER_DENOMINATOR as int, multiplier as int, prev as int);
        assert(prev * MULTIPLIER_DENOMINATOR <= prev * multiplier);
        lemma_div_is_ordered(
            (prev * MULTIPLIER_DENOMINATOR) as int,
            (prev * multiplier) as int,
            MULTIPLIER_DENOMINATOR as int,
        );
        lemma_div_multiples_vanish(prev as int, MULTIPLIER_DENOMINATOR as int);
    }
}

/// The price is non-decreasing in the tier whenever the multiplier is at
/// least 1000 (a factor of at least 1.0).
pub proof fn lemma_price_nondecreasing_in_tier(
    base_price: u128,
    lower_tier: nat,
    higher_tier: nat,
    multiplier: u128,
)
    requires
        multiplier >= MULTIPLIER_DENOMINATOR,
        lower_tier <= higher_tier,
    ensures
        spec_price(base_price, lower_tier, multiplier) <= spec_price(
            base_price,
            higher_tier,
            multiplier,
        ),
    decreases higher_tier - lower_tier,
{
    if lower_tier < higher_tier {
        lemma_price_nondecreasing_in_tier(
            base_price,
            lower_tier,
            (higher_tier - 1) as nat,
            multiplier,
        );
        lemma_price_step_nondecreasing(base_price, higher_tier, multiplier);
    }
}

/// A zero price buys zero tokens, and zero micro-USD buys zero tokens at any
/// positive price.
pub proof fn lemma_tokens_for_usd_zero_cases(usd_amount: u128, price_per_token: u128)
    ensures
        spec_tokens_for_usd(usd_amount, 0) == 0,
        price_per_token > 0 ==> spec_tokens_for_usd(0, price_per_token) == 0,
{
    if price_per_token > 0 {
        vstd::arithmetic::div_mod::lemma_div_of0(price_per_token as int);
    }
}

} // verus!
