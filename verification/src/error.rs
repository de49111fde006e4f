//! Error taxonomy of the contract: validation, authorization, business-rule,
//! arithmetic and external-dependency failures. Every error aborts the whole
//! operation; the host's atomic-call guarantee reverts partial writes.

use vstd::prelude::*;

verus! {

/// All errors the contract surfaces to its callers. Each variant carries the
/// data an off-chain caller needs to react without re-deriving state.
#[derive(Clone, Debug, PartialEq, Eq)]
pub enum ContractError {
    /// Caller is not the configured admin, or no admin is configured.
    Unauthorized,
    /// The purchase path is disabled.
    ContractPaused,
    /// A zero payment, zero computed token amount, or zero withdrawal.
    ZeroAmount,
    /// A basis-point value outside [1, 10000], or an overflow in the
    /// daily-cap chain derived from it.
    InvalidBasisPoints { value: u128 },
    /// A zero exchange rate or multiplier for the named token.
    InvalidExchangeRate { token: String },
    /// The payment token is not an approved bridge-wrapped asset.
    TokenNotAccepted { token: String },
    /// The purchase would exceed what is still sellable today.
    DailyLimitExceeded { available: u128, requested: u128 },
    /// The contract holds fewer native tokens than the purchase needs.
    InsufficientBalance { available: u128, needed: u128 },
    /// A recipient or admin address failed host-side validation.
    InvalidAddress,
    /// Checked arithmetic overflowed while updating the running totals.
    Overflow,
    /// A cross-module response could not be decoded.
    DecodeFailure,
}

} // verus!
