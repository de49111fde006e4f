//! Admin command handlers: guarded mutators for pause state, the daily cap,
//! pricing parameters, and fund withdrawal, plus the validate-only token
//! registry commands. Every handler requires a configured admin and an exact
//! caller match, and leaves every record unchanged on failure.
//!
//! The accepted-token / payment-token registries are deliberately
//! validate-only: their backing persistent store is not wired up, so the
//! handlers check their inputs and change nothing.

use crate::error::ContractError;
use crate::state::{Config, PricingConfig, BASIS_POINTS_DENOMINATOR, DEFAULT_DAILY_LIMIT_BP};
use vstd::prelude::*;
use vstd::string::StringExecFns;

verus! {

/// A native-asset transfer the host should emit: `amount` of `denom` to
/// `recipient`.
#[derive(Clone, Debug, PartialEq, Eq)]
pub struct TransferInstruction {
    /// The account the transfer pays out to.
    pub recipient: String,
    /// Denomination of the transferred asset.
    pub denom: String,
    /// Amount transferred.
    pub amount: u128,
}

/// Whether `sender` may run admin commands: an admin is configured (admin
/// string non-empty) and `sender` equals it exactly.
pub open spec fn spec_is_admin(config: Config, sender: Seq<char>) -> bool {
    config.admin@.len() > 0 && sender == config.admin@
}

/// Checks the caller against the configured admin.
fn is_admin(config: &Config, sender: &String) -> (authorized: bool)
    ensures
        authorized == spec_is_admin(*config, sender@),
{
    !config.admin.as_str().is_empty() && config.admin == *sender
}

/// Disables the purchase path. Admin only; queries and admin commands stay
/// available while paused.
pub fn pause_contract(config: &mut Config, sender: &String) -> (result: Result<(), ContractError>)
    ensures
        spec_is_admin(*old(config), sender@) ==> result is Ok && *final(config) == (Config {
            is_paused: true,
            ..*old(config)
        }),
        !spec_is_admin(*old(config), sender@) ==> result == Err::<(), ContractError>(
            ContractError::Unauthorized,
        ) && *final(config) == *old(config),
{
    if !is_admin(config, sender) {
        return Err(ContractError::Unauthorized);
    }
    config.is_paused = true;
    Ok(())
}

/// Re-enables the purchase path. Admin only.
pub fn resume_contract(config: &mut Config, sender: &String) -> (result: Result<(), ContractError>)
    ensures
        spec_is_admin(*old(config), sender@) ==> result is Ok && *final(config) == (Config {
            is_paused: false,
            ..*old(config)
        }),
        !spec_is_admin(*old(config), sender@) ==> result == Err::<(), ContractError>(
            ContractError::Unauthorized,
        ) && *final(config) == *old(config),
{
    if !is_admin(config, sender) {
        return Err(ContractError::Unauthorized);
    }
    config.is_paused = false;
    Ok(())
}

/// Updates the daily cap. Admin only; an omitted value defaults to 100 basis
/// points, and the result must lie in [1, 10000].
pub fn update_daily_limit(
    config: &mut Config,
    sender: &String,
    daily_limit_bp: Option<u128>,
) -> (result: Result<(), ContractError>)
    ensures
        ({
            let bp = match daily_limit_bp {
                Some(bp) => bp,
                None => DEFAULT_DAILY_LIMIT_BP,
            };
            if !spec_is_admin(*old(config), sender@) {
                result == Err::<(), ContractError>(ContractError::Unauthorized) && *final(config)
                    == *old(config)
            } else if bp == 0 || bp > BASIS_POINTS_DENOMINATOR {
                result == Err::<(), ContractError>(
                    ContractError::InvalidBasisPoints { value: bp },
                ) && *final(config) == *old(config)
            } else {
                result is Ok && *final(config) == (Config { daily_limit_bp: bp, ..*old(config) })
                    && final(config).wf()
            }
        }),
{
    if !is_admin(config, sender) {
        return Err(ContractError::Unauthorized);
    }
    let bp = match daily_limit_bp {
        Some(bp) => bp,
        None => DEFAULT_DAILY_LIMIT_BP,
    };
    if bp == 0 || bp > BASIS_POINTS_DENOMINATOR {
        return Err(ContractError::InvalidBasisPoints { value: bp });
    }
    config.daily_limit_bp = bp;
    Ok(())
}

/// The first token with a zero rate in a rate list, if any: the error the
/// rate-validating commands report.
pub open spec fn spec_first_zero_rate(rates: Seq<(String, u128)>) -> Option<String>
    decreases rates.len(),
{
    if rates.len() == 0 {
        None
    } else if rates[0].1 == 0 {
        Some(rates[0].0)
    } else {
        spec_first_zero_rate(rates.drop_first())
    }
}

/// Validates a batch of exchange rates. Admin only; every rate must be
/// non-zero. The backing registry is not wired up, so nothing is stored.
pub fn update_exchange_rates(
    config: &Config,
    sender: &String,
    rates: &Vec<(String, u128)>,
) -> (result: Result<(), ContractError>)
    ensures
        if !spec_is_admin(*config, sender@) {
            result == Err::<(), ContractError>(ContractError::Unauthorized)
        } else {
            match spec_first_zero_rate(rates@) {
                Some(token) => result == Err::<(), ContractError>(
                    ContractError::InvalidExchangeRate { token },
                ),
                None => result is Ok,
            }
        },
{
    if !is_admin(config, sender) {
        return Err(ContractError::Unauthorized);
    }
    proof {
        assert(rates@.skip(0) =~= rates@);
    }
    let mut index: usize = 0;
    while index < rates.len()
        invariant
            spec_is_admin(*config, sender@),
            index <= rates@.len(),
            spec_first_zero_rate(rates@.skip(index as int)) == spec_first_zero_rate(rates@),
        decreases rates@.len() - index,
    {
        proof {
            assert(rates@.skip(index as int).drop_first() =~= rates@.skip(index as int + 1));
            assert(rates@.skip(index as int)[0] == rates@[index as int]);
        }
        if rates[index].1 == 0 {
            proof {
                assert(spec_first_zero_rate(rates@.skip(index as int)) == Some(
                    rates@[index as int].0,
                ));
            }
            return Err(ContractError::InvalidExchangeRate { token: rates[index].0.clone() });
        }
        index = index + 1;
    }
    proof {
        assert(rates@.skip(index as int) =~= Seq::<(String, u128)>::empty());
    }
    Ok(())
}

/// Validates one accepted-token entry. Admin only; the rate must be
/// non-zero. The backing registry is not wired up, so nothing is stored.
pub fn add_accepted_token(config: &Config, sender: &String, denom: String, rate: u128) -> (result:
    Result<(), ContractError>)
    ensures
        if !spec_is_admin(*config, sender@) {
            result == Err::<(), ContractError>(ContractError::Unauthorized)
        } else if rate == 0 {
            result == Err::<(), ContractError>(ContractError::InvalidExchangeRate { token: denom })
        } else {
            result is Ok
        },
{
    if !is_admin(config, sender) {
        return Err(ContractError::Unauthorized);
    }
    if rate == 0 {
        return Err(ContractError::InvalidExchangeRate { token: denom });
    }
    Ok(())
}

/// Accepts an accepted-token removal. Admin only; the backing registry is
/// not wired up, so nothing is removed.
pub fn remove_accepted_token(config: &Config, sender: &String, denom: String) -> (result: Result<
    (),
    ContractError,
>)
    ensures
        if !spec_is_admin(*config, sender@) {
            result == Err::<(), ContractError>(ContractError::Unauthorized)
        } else {
            result is Ok
        },
{
    let _ = denom;
    if !is_admin(config, sender) {
        return Err(ContractError::Unauthorized);
    }
    Ok(())
}

/// Withdraws `amount` of the native asset to `recipient`. Admin only;
/// `recipient_is_valid` is the host's address-validation verdict, and the
/// amount must be non-zero. Running totals are untouched.
pub fn withdraw_native_tokens(
    config: &Config,
    sender: &String,
    amount: u128,
    recipient: String,
    recipient_is_valid: bool,
) -> (result: Result<TransferInstruction, ContractError>)
    ensures
        if !spec_is_admin(*config, sender@) {
            result == Err::<TransferInstruction, ContractError>(ContractError::Unauthorized)
        } else if !recipient_is_valid {
            result == Err::<TransferInstruction, ContractError>(ContractError::InvalidAddress)
        } else if amount == 0 {
            result == Err::<TransferInstruction, ContractError>(ContractError::ZeroAmount)
        } else {
            result matches Ok(transfer) && transfer == (TransferInstruction {
                recipient,
                denom: config.native_denom,
                amount,
            })
        },
{
    if !is_admin(config, sender) {
        return Err(ContractError::Unauthorized);
    }
    if !recipient_is_valid {
        return Err(ContractError::InvalidAddress);
    }
    if amount == 0 {
        return Err(ContractError::ZeroAmount);
    }
    Ok(TransferInstruction { recipient, denom: config.native_denom.clone(), amount })
}

/// Transfers the contract's entire live native balance to `recipient`.
/// Admin only; a zero balance is a no-op success, not an error.
pub fn emergency_withdraw(
    config: &Config,
    sender: &String,
    recipient: String,
    recipient_is_valid: bool,
    contract_balance: u128,
) -> (result: Result<Option<TransferInstruction>, ContractError>)
    ensures
        if !spec_is_admin(*config, sender@) {
            result == Err::<Option<TransferInstruction>, ContractError>(
                ContractError::Unauthorized,
            )
        } else if !recipient_is_valid {
            result == Err::<Option<TransferInstruction>, ContractError>(
                ContractError::InvalidAddress,
            )
        } else if contract_balance == 0 {
            result == Ok::<Option<TransferInstruction>, ContractError>(None)
        } else {
            result matches Ok(Some(transfer)) && transfer == (TransferInstruction {
                recipient,
                denom: config.native_denom,
                amount: contract_balance,
            })
        },
{
    if !is_admin(config, sender) {
        return Err(ContractError::Unauthorized);
    }
    if !recipient_is_valid {
        return Err(ContractError::InvalidAddress);
    }
    if contract_balance == 0 {
        return Ok(None);
    }
    Ok(
        Some(
            TransferInstruction {
                recipient,
                denom: config.native_denom.clone(),
                amount: contract_balance,
            },
        ),
    )
}

/// Applies a partial pricing update: each supplied field must be non-zero
/// and overwrites its counterpart; omitted fields are left unchanged. Admin
/// only; on any failure the pricing record is left exactly as it was.
pub fn update_pricing_config(
    pricing: &mut PricingConfig,
    config: &Config,
    sender: &String,
    base_price_usd: Option<u128>,
    tokens_per_tier: Option<u128>,
    tier_multiplier: Option<u128>,
) -> (result: Result<(), ContractError>)
    ensures
        if !spec_is_admin(*config, sender@) {
            result == Err::<(), ContractError>(ContractError::Unauthorized) && *final(pricing)
                == *old(pricing)
        } else if base_price_usd matches Some(price) && price == 0 {
            result == Err::<(), ContractError>(ContractError::ZeroAmount) && *final(pricing)
                == *old(pricing)
        } else if tokens_per_tier matches Some(tokens) && tokens == 0 {
            result == Err::<(), ContractError>(ContractError::ZeroAmount) && *final(pricing)
                == *old(pricing)
        } else if tier_multiplier matches Some(multiplier) && multiplier == 0 {
            (result matches Err(e) && e matches ContractError::InvalidExchangeRate { token }
                && token@ == "tier_multiplier must be > 0 (1.0x)"@) && *final(pricing) == *old(
                pricing,
            )
        } else {
            result is Ok && *final(pricing) == (PricingConfig {
                base_price_usd: match base_price_usd {
                    Some(price) => price,
                    None => old(pricing).base_price_usd,
                },
                tokens_per_tier: match tokens_per_tier {
                    Some(tokens) => tokens,
                    None => old(pricing).tokens_per_tier,
                },
                tier_multiplier: match tier_multiplier {
                    Some(multiplier) => multiplier,
                    None => old(pricing).tier_multiplier,
                },
            })
        },
{
    if !is_admin(config, sender) {
        return Err(ContractError::Unauthorized);
    }
    if let Some(price) = base_price_usd {
        if price == 0 {
            return Err(ContractError::ZeroAmount);
        }
    }
    if let Some(tokens) = tokens_per_tier {
        if tokens == 0 {
            return Err(ContractError::ZeroAmount);
        }
    }
    if let Some(multiplier) = tier_multiplier {
        if multiplier == 0 {
            return Err(
                ContractError::InvalidExchangeRate {
                    token: String::from_str("tier_multiplier must be > 0 (1.0x)"),
                },
            );
        }
    }
    if let Some(price) = base_price_usd {
        pricing.base_price_usd = price;
    }
    if let Some(tokens) = tokens_per_tier {
        pricing.tokens_per_tier = tokens;
    }
    if let Some(multiplier) = tier_multiplier {
        pricing.tier_multiplier = multiplier;
    }
    Ok(())
}

/// Validates one payment-token entry: a non-zero USD rate and a positive
/// bridge-validation verdict for the token. Admin only; the backing registry
/// is not wired up, so nothing is stored.
pub fn add_payment_token(
    config: &Config,
    sender: &String,
    denom: String,
    usd_rate: u128,
    token_is_valid: bool,
) -> (result: Result<(), ContractError>)
    ensures
        if !spec_is_admin(*config, sender@) {
            result == Err::<(), ContractError>(ContractError::Unauthorized)
        } else if usd_rate == 0 {
            result == Err::<(), ContractError>(ContractError::InvalidExchangeRate { token: denom })
        } else if !token_is_valid {
            result == Err::<(), ContractError>(ContractError::TokenNotAccepted { token: denom })
        } else {
            result is Ok
        },
{
    if !is_admin(config, sender) {
        return Err(ContractError::Unauthorized);
    }
    if usd_rate == 0 {
        return Err(ContractError::InvalidExchangeRate { token: denom });
    }
    if !token_is_valid {
        return Err(ContractError::TokenNotAccepted { token: denom });
    }
    Ok(())
}

/// Accepts a payment-token removal. Admin only; the backing registry is not
/// wired up, so nothing is removed.
pub fn remove_payment_token(config: &Config, sender: &String, denom: String) -> (result: Result<
    (),
    ContractError,
>)
    ensures
        if !spec_is_admin(*config, sender@) {
            result == Err::<(), ContractError>(ContractError::Unauthorized)
        } else {
            result is Ok
        },
{
    let _ = denom;
    if !is_admin(config, sender) {
        return Err(ContractError::Unauthorized);
    }
    Ok(())
}

} // verus!
