//! Bridge validation gateway: the fixed positional binary schema carried by
//! both cross-module transport envelopes, and the token-identity
//! normalization applied before encoding. The wire format is the standard
//! varint/tag-length-value layout; field numbering is part of the contract's
//! external interface and is preserved exactly.
//!
//! Requests are encoded and responses decoded here, verified against spec
//! grammars; sending the bytes through a transport envelope is host work and
//! happens outside the library.

use crate::error::ContractError;
use vstd::prelude::*;
use vstd::string::StringSliceAdditionalSpecFns;

verus! {

/// Longest accepted varint encoding, in bytes: enough for any 64-bit value.
pub const VARINT_MAX_BYTES: u8 = 10;

/// The varint encoding of `value`: little-endian groups of 7 bits, every
/// byte but the last carrying a continuation bit.
pub open spec fn spec_varint(value: nat) -> Seq<u8>
    decreases value,
{
    if value < 128 {
        seq![value as u8]
    } else {
        seq![(128 + (value % 128)) as u8] + spec_varint(value / 128)
    }
}

/// The optional token-identity prefix, as bytes: `"cw20:"`.
pub open spec fn spec_cw20_prefix() -> Seq<u8> {
    seq![0x63u8, 0x77u8, 0x32u8, 0x30u8, 0x3au8]
}

/// Whether a token identity starts with the literal prefix `"cw20:"`.
pub open spec fn spec_has_cw20_prefix(token: Seq<u8>) -> bool {
    token.len() >= 5 && token.subrange(0, 5) == spec_cw20_prefix()
}

/// A token identity with an optional leading `"cw20:"` stripped: the
/// prefixed and the bare form validate identically.
pub open spec fn spec_normalize_token(token: Seq<u8>) -> Seq<u8> {
    if spec_has_cw20_prefix(token) {
        token.skip(5)
    } else {
        token
    }
}

/// A token identity with the `"cw20:"` prefix added when it is missing.
pub open spec fn spec_ensure_cw20_prefix(token: Seq<u8>) -> Seq<u8> {
    if spec_has_cw20_prefix(token) {
        token
    } else {
        spec_cw20_prefix() + token
    }
}

/// The encoded validation request: one string field, tag 1
/// (key byte 0x0a = field 1, wire type 2), holding `contract_address`. An
/// empty address encodes, as every default value does, to an empty message.
pub open spec fn spec_validation_request(contract_address: Seq<u8>) -> Seq<u8> {
    if contract_address.len() == 0 {
        Seq::<u8>::empty()
    } else {
        seq![0x0au8] + spec_varint(contract_address.len()) + contract_address
    }
}

/// Stripping the prefix from the prefixed form of a bare identity yields the
/// bare identity itself: validating `"cw20:X"` and `"X"` sends the same
/// request whenever `X` does not itself carry the prefix.
pub proof fn lemma_normalize_prefixed_equals_bare(token: Seq<u8>)
    requires
        !spec_has_cw20_prefix(token),
    ensures
        spec_normalize_token(spec_cw20_prefix() + token) == spec_normalize_token(token),
{
    let prefixed = spec_cw20_prefix() + token;
    assert(prefixed.subrange(0, 5) =~= spec_cw20_prefix());
    assert(prefixed.skip(5) =~= token);
}

/// Adding the prefix where it is missing never changes the normalized
/// identity, so the prefixed diagnostic path validates the same address.
pub proof fn lemma_normalize_after_ensure_prefix(token: Seq<u8>)
    ensures
        spec_normalize_token(spec_ensure_cw20_prefix(token)) == spec_normalize_token(token),
{
    if !spec_has_cw20_prefix(token) {
        lemma_normalize_prefixed_equals_bare(token);
    }
}

/// Encodes `value` as a varint.
fn encode_varint(value: usize) -> (out: Vec<u8>)
    ensures
        out@ == spec_varint(value as nat),
{
    let mut out: Vec<u8> = Vec::new();
    let mut remaining = value;
    while remaining >= 128
        invariant
            out@ + spec_varint(remaining as nat) == spec_varint(value as nat),
        decreases remaining,
    {
        out.push((128 + (remaining % 128)) as u8);
        remaining = remaining / 128;
    }
    out.push(remaining as u8);
    out
}

/// Whether `token` starts with the bytes of `"cw20:"`.
fn has_cw20_prefix(token: &[u8]) -> (r: bool)
    ensures
        r == spec_has_cw20_prefix(token@),
{
    let r = token.len() >= 5 && token[0] == 0x63 && token[1] == 0x77 && token[2] == 0x32
        && token[3] == 0x30 && token[4] == 0x3a;
    proof {
        if token@.len() >= 5 {
            assert(token@.subrange(0, 5) =~= spec_cw20_prefix() <==> (token@[0] == 0x63
                && token@[1] == 0x77 && token@[2] == 0x32 && token@[3] == 0x30 && token@[4]
                == 0x3a));
        }
    }
    r
}

/// Copies `data[from..to]` into a fresh vector.
fn copy_range(data: &[u8], from: usize, to: usize) -> (out: Vec<u8>)
    requires
        from <= to <= data@.len(),
    ensures
        out@ == data@.subrange(from as int, to as int),
{
    let mut out: Vec<u8> = Vec::new();
    let mut at = from;
    while at < to
        invariant
            from <= at <= to <= data@.len(),
            out@ == data@.subrange(from as int, at as int),
        decreases to - at,
    {
        out.push(data[at]);
        proof {
            assert(data@.subrange(from as int, at + 1) =~= data@.subrange(from as int, at as int)
                + seq![data@[at as int]]);
        }
        at = at + 1;
    }
    out
}

/// Normalizes a caller-supplied token identifier for validation: the bytes
/// of the identifier with an optional leading `"cw20:"` stripped.
pub fn normalize_token_identifier(token_identifier: &str) -> (out: Vec<u8>)
    ensures
        out@ == spec_normalize_token(token_identifier.spec_bytes()),
{
    let bytes = token_identifier.as_bytes();
    if has_cw20_prefix(bytes) {
        copy_range(bytes, 5, bytes.len())
    } else {
        proof {
            assert(bytes@.subrange(0, bytes@.len() as int) =~= bytes@);
        }
        copy_range(bytes, 0, bytes.len())
    }
}

/// The token identifier in its prefixed form, as the prefixed diagnostic
/// query submits it: `"cw20:"` is prepended when missing.
pub fn prefixed_token_identifier(token_identifier: &str) -> (out: Vec<u8>)
    ensures
        out@ == spec_ensure_cw20_prefix(token_identifier.spec_bytes()),
{
    let bytes = token_identifier.as_bytes();
    if has_cw20_prefix(bytes) {
        proof {
            assert(bytes@.subrange(0, bytes@.len() as int) =~= bytes@);
        }
        copy_range(bytes, 0, bytes.len())
    } else {
        let mut out: Vec<u8> = Vec::new();
        out.push(0x63);
        out.push(0x77);
        out.push(0x32);
        out.push(0x30);
        out.push(0x3a);
        let mut rest = copy_range(bytes, 0, bytes.len());
        proof {
            assert(bytes@.subrange(0, bytes@.len() as int) =~= bytes@);
        }
        out.append(&mut rest);
        proof {
            assert(out@ =~= spec_cw20_prefix() + bytes@);
        }
        out
    }
}

/// Cross-module request asking whether a token contract is an officially
/// registered bridge-wrapped asset. One field: tag 1, the contract address
/// (stored here as its UTF-8 bytes).
#[derive(Clone, Debug, PartialEq, Eq)]
pub struct QueryValidateWrappedTokenForTradeRequest {
    /// UTF-8 bytes of the bare (un-prefixed) token contract address.
    pub contract_address: Vec<u8>,
}

impl QueryValidateWrappedTokenForTradeRequest {
    /// Encodes the request in its fixed positional binary layout.
    pub fn encode(&self) -> (out: Vec<u8>)
        ensures
            out@ == spec_validation_request(self.contract_address@),
    {
        let mut out: Vec<u8> = Vec::new();
        if self.contract_address.len() == 0 {
            return out;
        }
        out.push(0x0a);
        let mut length = encode_varint(self.contract_address.len());
        out.append(&mut length);
        let mut address = copy_range(self.contract_address.as_slice(), 0, self.contract_address.len());
        proof {
            assert(self.contract_address@.subrange(0, self.contract_address@.len() as int)
                =~= self.contract_address@);
        }
        out.append(&mut address);
        proof {
            assert(out@ =~= seq![0x0au8] + spec_varint(self.contract_address@.len())
                + self.contract_address@);
        }
        out
    }
}

/// The empty request of the approved-token registry query: a message with
/// no fields encodes to no bytes.
#[derive(Clone, Debug, PartialEq, Eq)]
pub struct EmptyRequest {}

impl EmptyRequest {
    /// Encodes the empty request.
    pub fn encode(&self) -> (out: Vec<u8>)
        ensures
            out@ == Seq::<u8>::empty(),
    {
        Vec::new()
    }
}

/// Builds and encodes the validation request for a caller-supplied token
/// identifier, normalizing it first: both `"cw20:X"` and `"X"` produce the
/// request for `X`.
pub fn validation_request_bytes(token_identifier: &str) -> (out: Vec<u8>)
    ensures
        out@ == spec_validation_request(spec_normalize_token(token_identifier.spec_bytes())),
{
    let request = QueryValidateWrappedTokenForTradeRequest {
        contract_address: normalize_token_identifier(token_identifier),
    };
    request.encode()
}

/// 128 to the power `exponent`: the exclusive upper bound on the value of a
/// varint of `exponent` bytes.
pub open spec fn spec_pow128(exponent: nat) -> nat
    decreases exponent,
{
    if exponent == 0 {
        1
    } else {
        128 * spec_pow128((exponent - 1) as nat)
    }
}

/// Parses a varint from `data` at `pos`, reading no further than `end` and
/// giving up after `fuel` bytes. Yields the decoded value and the position
/// after it.
pub open spec fn spec_parse_varint(data: Seq<u8>, pos: int, end: int, fuel: nat) -> Option<
    (nat, int),
>
    decreases fuel,
{
    if fuel == 0 || pos < 0 || pos >= end || end > data.len() {
        None
    } else if data[pos] < 128 {
        Some((data[pos] as nat, pos + 1))
    } else {
        match spec_parse_varint(data, pos + 1, end, (fuel - 1) as nat) {
            None => None,
            Some((value, next)) => Some((((data[pos] - 128) + 128 * value) as nat, next)),
        }
    }
}

/// A parsed varint ends after its start, within bounds, and its value is
/// below 128^fuel.
pub proof fn lemma_parse_varint_bounds(data: Seq<u8>, pos: int, end: int, fuel: nat)
    ensures
        spec_parse_varint(data, pos, end, fuel) matches Some((value, next)) ==> pos < next <= end
            && end <= data.len() && value < spec_pow128(fuel),
    decreases fuel,
{
    if fuel > 0 && 0 <= pos < end <= data.len() {
        lemma_pow128_positive((fuel - 1) as nat);
        assert(spec_pow128(fuel) == 128 * spec_pow128((fuel - 1) as nat));
        if data[pos] >= 128 {
            lemma_parse_varint_bounds(data, pos + 1, end, (fuel - 1) as nat);
        }
    }
}

/// 128^e is positive.
proof fn lemma_pow128_positive(exponent: nat)
    ensures
        spec_pow128(exponent) >= 1,
    decreases exponent,
{
    if exponent > 0 {
        lemma_pow128_positive((exponent - 1) as nat);
    }
}

/// A value below 128^k encodes as a varint of at most k bytes.
proof fn lemma_varint_length(value: nat, bytes: nat)
    requires
        bytes >= 1,
        value < spec_pow128(bytes),
    ensures
        spec_varint(value).len() <= bytes,
    decreases value,
{
    if value >= 128 {
        if bytes == 1 {
            // Impossible: 128^1 = 128 <= value.
            assert(spec_pow128(1nat) == 128) by {
                reveal_with_fuel(spec_pow128, 2);
            }
        } else {
            assert(spec_pow128(bytes) == 128 * spec_pow128((bytes - 1) as nat));
            lemma_varint_length(value / 128, (bytes - 1) as nat);
        }
    }
}

/// A varint encoding parses back to the value it encodes, wherever it sits
/// in a buffer: the encoder and the parser agree on the wire primitive.
proof fn lemma_parse_varint_at(data: Seq<u8>, pos: int, end: int, fuel: nat, value: nat)
    requires
        0 <= pos,
        pos + spec_varint(value).len() <= end <= data.len(),
        data.subrange(pos, pos + spec_varint(value).len() as int) =~= spec_varint(value),
        spec_varint(value).len() <= fuel,
    ensures
        spec_parse_varint(data, pos, end, fuel) == Some(
            (value, pos + spec_varint(value).len() as int),
        ),
    decreases value,
{
    let enc = spec_varint(value);
    assert(data[pos] == enc[0]);
    if value >= 128 {
        let rest = spec_varint(value / 128);
        assert(data.subrange(pos + 1, pos + enc.len() as int) =~= data.subrange(
            pos,
            pos + enc.len() as int,
        ).subrange(1, enc.len() as int));
        assert(enc.subrange(1, enc.len() as int) =~= rest);
        assert(data.subrange(pos + 1, pos + enc.len() as int) =~= rest);
        lemma_parse_varint_at(data, pos + 1, end, (fuel - 1) as nat, value / 128);
        vstd::arithmetic::div_mod::lemma_fundamental_div_mod(value as int, 128);
    }
}

/// Round trip of the wire primitive: whatever follows it in the buffer, a
/// varint encoding of any value up to ten bytes long parses back to exactly
/// that value, consuming exactly its own bytes.
pub proof fn lemma_varint_roundtrip(value: nat, tail: Seq<u8>)
    requires
        value < spec_pow128(VARINT_MAX_BYTES as nat),
    ensures
        ({
            let buffer = spec_varint(value) + tail;
            spec_parse_varint(buffer, 0, buffer.len() as int, VARINT_MAX_BYTES as nat) == Some(
                (value, spec_varint(value).len() as int),
            )
        }),
{
    let enc = spec_varint(value);
    let buffer = enc + tail;
    lemma_varint_length(value, VARINT_MAX_BYTES as nat);
    assert(buffer.subrange(0, enc.len() as int) =~= enc);
    lemma_parse_varint_at(buffer, 0, buffer.len() as int, VARINT_MAX_BYTES as nat, value);
}

/// Parses a varint; `None` exactly when the spec grammar rejects it.
fn parse_varint(data: &[u8], pos: usize, end: usize, fuel: u8) -> (r: Option<(u128, usize)>)
    requires
        end <= data@.len(),
        fuel <= VARINT_MAX_BYTES,
    ensures
        match r {
            Some(parsed) => spec_parse_varint(data@, pos as int, end as int, fuel as nat) == Some(
                ((parsed.0 as nat), parsed.1 as int),
            ),
            None => spec_parse_varint(data@, pos as int, end as int, fuel as nat) is None,
        },
    decreases fuel,
{
    if fuel == 0 || pos >= end {
        return None;
    }
    let byte = data[pos];
    if byte < 128 {
        Some((byte as u128, pos + 1))
    } else {
        match parse_varint(data, pos + 1, end, fuel - 1) {
            None => None,
            Some((value, next)) => {
                proof {
                    lemma_parse_varint_bounds(data@, pos + 1, end as int, (fuel - 1) as nat);
                    lemma_pow128_bounded((fuel - 1) as nat);
                }
                Some(((byte - 128) as u128 + 128 * value, next))
            },
        }
    }
}

/// Every varint of at most 10 bytes has a value below 2^70.
proof fn lemma_pow128_bounded(exponent: nat)
    requires
        exponent <= 10,
    ensures
        spec_pow128(exponent) <= 0x400000000000000000,
    decreases exponent,
{
    reveal_with_fuel(spec_pow128, 11);
    if exponent > 0 {
        lemma_pow128_bounded((exponent - 1) as nat);
        assert(spec_pow128(exponent) == 128 * spec_pow128((exponent - 1) as nat));
        lemma_pow128_monotone(exponent, 10);
    }
}

/// 128^a <= 128^b for a <= b.
proof fn lemma_pow128_monotone(low: nat, high: nat)
    requires
        low <= high,
    ensures
        spec_pow128(low) <= spec_pow128(high),
    decreases high,
{
    if low < high {
        lemma_pow128_monotone(low, (high - 1) as nat);
        assert(spec_pow128(high) == 128 * spec_pow128((high - 1) as nat));
    }
}

/// Parses the validation response between `pos` and `end`: fields walked in
/// order, the boolean field tag 1 (wire type 0) taken, unknown fields
/// skipped by their wire type, and everything else rejected. A message
/// without the field keeps the default `acc`.
pub open spec fn spec_parse_validation_response(
    data: Seq<u8>,
    pos: int,
    end: int,
    acc: bool,
) -> Option<bool>
    decreases end - pos,
    via spec_parse_validation_response_decreases
{
    if pos == end {
        Some(acc)
    } else {
        match spec_parse_varint(data, pos, end, VARINT_MAX_BYTES as nat) {
            None => None,
            Some((key, after_key)) => {
                let field = key / 8;
                let wire = key % 8;
                if key > u64::MAX || field == 0 {
                    None
                } else if wire == 0 {
                    match spec_parse_varint(data, after_key, end, VARINT_MAX_BYTES as nat) {
                        None => None,
                        Some((value, after_value)) => if value > u64::MAX {
                            None
                        } else {
                            spec_parse_validation_response(
                                data,
                                after_value,
                                end,
                                if field == 1 {
                                    value != 0
                                } else {
                                    acc
                                },
                            )
                        },
                    }
                } else if field == 1 {
                    // The boolean field arrives with the wrong wire type.
                    None
                } else if wire == 1 {
                    if after_key + 8 <= end {
                        spec_parse_validation_response(data, after_key + 8, end, acc)
                    } else {
                        None
                    }
                } else if wire == 2 {
                    match spec_parse_varint(data, after_key, end, VARINT_MAX_BYTES as nat) {
                        None => None,
                        Some((length, after_length)) => if after_length + length <= end {
                            spec_parse_validation_response(data, after_length + length, end, acc)
                        } else {
                            None
                        },
                    }
                } else if wire == 5 {
                    if after_key + 4 <= end {
                        spec_parse_validation_response(data, after_key + 4, end, acc)
                    } else {
                        None
                    }
                } else {
                    None
                }
            },
        }
    }
}

#[via_fn]
proof fn spec_parse_validation_response_decreases(data: Seq<u8>, pos: int, end: int, acc: bool) {
    lemma_parse_varint_bounds(data, pos, end, VARINT_MAX_BYTES as nat);
    match spec_parse_varint(data, pos, end, VARINT_MAX_BYTES as nat) {
        None => {},
        Some((key, after_key)) => {
            lemma_parse_varint_bounds(data, after_key, end, VARINT_MAX_BYTES as nat);
        },
    }
}

/// Cross-module response of the validation query. One field: tag 1, the
/// boolean trust verdict.
#[derive(Clone, Debug, PartialEq, Eq)]
pub struct QueryValidateWrappedTokenForTradeResponse {
    /// Whether the queried contract address is an approved bridge token.
    pub is_valid: bool,
}

impl QueryValidateWrappedTokenForTradeResponse {
    /// Decodes a validation response. Decode failure is surfaced as an
    /// error, never coerced to a verdict.
    pub fn decode(data: &[u8]) -> (r: Result<Self, ContractError>)
        ensures
            match r {
                Ok(response) => spec_parse_validation_response(data@, 0, data@.len() as int, false)
                    == Some(response.is_valid),
                Err(e) => spec_parse_validation_response(data@, 0, data@.len() as int, false)
                    is None && e == ContractError::DecodeFailure,
            },
    {
        let end = data.len();
        let mut pos: usize = 0;
        let mut acc = false;
        while pos < end
            invariant
                end == data@.len(),
                pos <= end,
                spec_parse_validation_response(data@, pos as int, end as int, acc)
                    == spec_parse_validation_response(data@, 0, end as int, false),
            decreases end - pos,
        {
            let (key, after_key) = match parse_varint(data, pos, end, VARINT_MAX_BYTES) {
                None => {
                    return Err(ContractError::DecodeFailure);
                },
                Some(parsed) => parsed,
            };
            proof {
                lemma_parse_varint_bounds(data@, pos as int, end as int, VARINT_MAX_BYTES as nat);
            }
            if key > 0xffff_ffff_ffff_ffff {
                return Err(ContractError::DecodeFailure);
            }
            let field = key / 8;
            let wire = key % 8;
            if field == 0 {
                return Err(ContractError::DecodeFailure);
            }
            if wire == 0 {
                let (value, after_value) = match parse_varint(data, after_key, end, VARINT_MAX_BYTES) {
                    None => {
                        return Err(ContractError::DecodeFailure);
                    },
                    Some(parsed) => parsed,
                };
                proof {
                    lemma_parse_varint_bounds(
                        data@,
                        after_key as int,
                        end as int,
                        VARINT_MAX_BYTES as nat,
                    );
                }
                if value > 0xffff_ffff_ffff_ffff {
                    return Err(ContractError::DecodeFailure);
                }
                if field == 1 {
                    acc = value != 0;
                }
                pos = after_value;
            } else if field == 1 {
                return Err(ContractError::DecodeFailure);
            } else if wire == 1 {
                if end - after_key >= 8 {
                    pos = after_key + 8;
                } else {
                    return Err(ContractError::DecodeFailure);
                }
            } else if wire == 2 {
                let (length, after_length) = match parse_varint(data, after_key, end, VARINT_MAX_BYTES) {
                    None => {
                        return Err(ContractError::DecodeFailure);
                    },
                    Some(parsed) => parsed,
                };
                proof {
                    lemma_parse_varint_bounds(
                        data@,
                        after_key as int,
                        end as int,
                        VARINT_MAX_BYTES as nat,
                    );
                    lemma_pow128_bounded(VARINT_MAX_BYTES as nat);
                }
                let target = after_length as u128 + length;
                if target <= end as u128 {
                    pos = target as usize;
                } else {
                    return Err(ContractError::DecodeFailure);
                }
            } else if wire == 5 {
                if end - after_key >= 4 {
                    pos = after_key + 4;
                } else {
                    return Err(ContractError::DecodeFailure);
                }
            } else {
                return Err(ContractError::DecodeFailure);
            }
        }
        Ok(QueryValidateWrappedTokenForTradeResponse { is_valid: acc })
    }
}

/// Parses one approved-token entry between `pos` and `end`: two string
/// fields, tag 1 the chain id and tag 2 the contract address, each wire
/// type 2, a later occurrence replacing an earlier one; unknown fields are
/// skipped by wire type and anything else rejected.
pub open spec fn spec_parse_approved_token(
    data: Seq<u8>,
    pos: int,
    end: int,
    chain_id: Seq<u8>,
    contract_address: Seq<u8>,
) -> Option<(Seq<u8>, Seq<u8>)>
    decreases end - pos,
    via spec_parse_approved_token_decreases
{
    if pos == end {
        Some((chain_id, contract_address))
    } else {
        match spec_parse_varint(data, pos, end, VARINT_MAX_BYTES as nat) {
            None => None,
            Some((key, after_key)) => {
                let field = key / 8;
                let wire = key % 8;
                if key > u64::MAX || field == 0 {
                    None
                } else if wire == 2 {
                    match spec_parse_varint(data, after_key, end, VARINT_MAX_BYTES as nat) {
                        None => None,
                        Some((length, after_length)) => if after_length + length <= end {
                            let bytes = data.subrange(after_length, after_length + length);
                            if field == 1 {
                                spec_parse_approved_token(
                                    data,
                                    after_length + length,
                                    end,
                                    bytes,
                                    contract_address,
                                )
                            } else if field == 2 {
                                spec_parse_approved_token(
                                    data,
                                    after_length + length,
                                    end,
                                    chain_id,
                                    bytes,
                                )
                            } else {
                                spec_parse_approved_token(
                                    data,
                                    after_length + length,
                                    end,
                                    chain_id,
                                    contract_address,
                                )
                            }
                        } else {
                            None
                        },
                    }
                } else if field == 1 || field == 2 {
                    // A string field arrives with the wrong wire type.
                    None
                } else if wire == 0 {
                    match spec_parse_varint(data, after_key, end, VARINT_MAX_BYTES as nat) {
                        None => None,
                        Some((value, after_value)) => if value > u64::MAX {
                            None
                        } else {
                            spec_parse_approved_token(
                                data,
                                after_value,
                                end,
                                chain_id,
                                contract_address,
                            )
                        },
                    }
                } else if wire == 1 {
                    if after_key + 8 <= end {
                        spec_parse_approved_token(data, after_key + 8, end, chain_id, contract_address)
                    } else {
                        None
                    }
                } else if wire == 5 {
                    if after_key + 4 <= end {
                        spec_parse_approved_token(data, after_key + 4, end, chain_id, contract_address)
                    } else {
                        None
                    }
                } else {
                    None
                }
            },
        }
    }
}

#[via_fn]
proof fn spec_parse_approved_token_decreases(
    data: Seq<u8>,
    pos: int,
    end: int,
    chain_id: Seq<u8>,
    contract_address: Seq<u8>,
) {
    lemma_parse_varint_bounds(data, pos, end, VARINT_MAX_BYTES as nat);
    match spec_parse_varint(data, pos, end, VARINT_MAX_BYTES as nat) {
        None => {},
        Some((key, after_key)) => {
            lemma_parse_varint_bounds(data, after_key, end, VARINT_MAX_BYTES as nat);
        },
    }
}

/// One approved bridge token as the registry reports it.
#[derive(Clone, Debug, PartialEq, Eq)]
pub struct BridgeTradeApprovedToken {
    /// UTF-8 bytes of the chain identifier the token is bridged from.
    pub chain_id: Vec<u8>,
    /// UTF-8 bytes of the token's contract address.
    pub contract_address: Vec<u8>,
}

/// The byte-sequence views of a list of approved tokens, as the spec
/// grammar yields them.
pub open spec fn spec_token_views(tokens: Seq<BridgeTradeApprovedToken>) -> Seq<
    (Seq<u8>, Seq<u8>),
> {
    tokens.map(
        |index: int, token: BridgeTradeApprovedToken| (token.chain_id@, token.contract_address@),
    )
}

/// Parses the approved-token registry response between `pos` and `end`: a
/// single repeated message field, tag 1, each occurrence appending one
/// entry; unknown fields are skipped by wire type.
pub open spec fn spec_parse_approved_tokens(
    data: Seq<u8>,
    pos: int,
    end: int,
    acc: Seq<(Seq<u8>, Seq<u8>)>,
) -> Option<Seq<(Seq<u8>, Seq<u8>)>>
    decreases end - pos,
    via spec_parse_approved_tokens_decreases
{
    if pos == end {
        Some(acc)
    } else {
        match spec_parse_varint(data, pos, end, VARINT_MAX_BYTES as nat) {
            None => None,
            Some((key, after_key)) => {
                let field = key / 8;
                let wire = key % 8;
                if key > u64::MAX || field == 0 {
                    None
                } else if wire == 2 {
                    match spec_parse_varint(data, after_key, end, VARINT_MAX_BYTES as nat) {
                        None => None,
                        Some((length, after_length)) => if after_length + length <= end {
                            if field == 1 {
                                match spec_parse_approved_token(
                                    data,
                                    after_length,
                                    after_length + length,
                                    Seq::<u8>::empty(),
                                    Seq::<u8>::empty(),
                                ) {
                                    None => None,
                                    Some(entry) => spec_parse_approved_tokens(
                                        data,
                                        after_length + length,
                                        end,
                                        acc.push(entry),
                                    ),
                                }
                            } else {
                                spec_parse_approved_tokens(data, after_length + length, end, acc)
                            }
                        } else {
                            None
                        },
                    }
                } else if field == 1 {
                    // The repeated message field arrives with the wrong wire
                    // type.
                    None
                } else if wire == 0 {
                    match spec_parse_varint(data, after_key, end, VARINT_MAX_BYTES as nat) {
                        None => None,
                        Some((value, after_value)) => if value > u64::MAX {
                            None
                        } else {
                            spec_parse_approved_tokens(data, after_value, end, acc)
                        },
                    }
                } else if wire == 1 {
                    if after_key + 8 <= end {
                        spec_parse_approved_tokens(data, after_key + 8, end, acc)
                    } else {
                        None
                    }
                } else if wire == 5 {
                    if after_key + 4 <= end {
                        spec_parse_approved_tokens(data, after_key + 4, end, acc)
                    } else {
                        None
                    }
                } else {
                    None
                }
            },
        }
    }
}

#[via_fn]
proof fn spec_parse_approved_tokens_decreases(
    data: Seq<u8>,
    pos: int,
    end: int,
    acc: Seq<(Seq<u8>, Seq<u8>)>,
) {
    lemma_parse_varint_bounds(data, pos, end, VARINT_MAX_BYTES as nat);
    match spec_parse_varint(data, pos, end, VARINT_MAX_BYTES as nat) {
        None => {},
        Some((key, after_key)) => {
            lemma_parse_varint_bounds(data, after_key, end, VARINT_MAX_BYTES as nat);
        },
    }
}

/// Decodes one approved-token entry from `data[start..end]`.
fn decode_approved_token(data: &[u8], start: usize, end: usize) -> (r: Result<
    (Vec<u8>, Vec<u8>),
    ContractError,
>)
    requires
        start <= end <= data@.len(),
    ensures
        match r {
            Ok(entry) => spec_parse_approved_token(
                data@,
                start as int,
                end as int,
                Seq::<u8>::empty(),
                Seq::<u8>::empty(),
            ) == Some((entry.0@, entry.1@)),
            Err(e) => spec_parse_approved_token(
                data@,
                start as int,
                end as int,
                Seq::<u8>::empty(),
                Seq::<u8>::empty(),
            ) is None && e == ContractError::DecodeFailure,
        },
{
    let mut pos = start;
    let mut chain_id: Vec<u8> = Vec::new();
    let mut contract_address: Vec<u8> = Vec::new();
    while pos < end
        invariant
            start <= pos <= end <= data@.len(),
            spec_parse_approved_token(data@, pos as int, end as int, chain_id@, contract_address@)
                == spec_parse_approved_token(
                data@,
                start as int,
                end as int,
                Seq::<u8>::empty(),
                Seq::<u8>::empty(),
            ),
        decreases end - pos,
    {
        let (key, after_key) = match parse_varint(data, pos, end, VARINT_MAX_BYTES) {
            None => {
                return Err(ContractError::DecodeFailure);
            },
            Some(parsed) => parsed,
        };
        proof {
            lemma_parse_varint_bounds(data@, pos as int, end as int, VARINT_MAX_BYTES as nat);
        }
        if key > 0xffff_ffff_ffff_ffff {
            return Err(ContractError::DecodeFailure);
        }
        let field = key / 8;
        let wire = key % 8;
        if field == 0 {
            return Err(ContractError::DecodeFailure);
        }
        if wire == 2 {
            let (length, after_length) = match parse_varint(data, after_key, end, VARINT_MAX_BYTES) {
                None => {
                    return Err(ContractError::DecodeFailure);
                },
                Some(parsed) => parsed,
            };
            proof {
                lemma_parse_varint_bounds(
                    data@,
                    after_key as int,
                    end as int,
                    VARINT_MAX_BYTES as nat,
                );
                lemma_pow128_bounded(VARINT_MAX_BYTES as nat);
            }
            let target = after_length as u128 + length;
            if target > end as u128 {
                return Err(ContractError::DecodeFailure);
            }
            let block_end = target as usize;
            if field == 1 {
                chain_id = copy_range(data, after_length, block_end);
            } else if field == 2 {
                contract_address = copy_range(data, after_length, block_end);
            }
            pos = block_end;
        } else if field == 1 || field == 2 {
            return Err(ContractError::DecodeFailure);
        } else if wire == 0 {
            let (value, after_value) = match parse_varint(data, after_key, end, VARINT_MAX_BYTES) {
                None => {
                    return Err(ContractError::DecodeFailure);
                },
                Some(parsed) => parsed,
            };
            proof {
                lemma_parse_varint_bounds(
                    data@,
                    after_key as int,
                    end as int,
                    VARINT_MAX_BYTES as nat,
                );
            }
            if value > 0xffff_ffff_ffff_ffff {
                return Err(ContractError::DecodeFailure);
            }
            pos = after_value;
        } else if wire == 1 {
            if end - after_key >= 8 {
                pos = after_key + 8;
            } else {
                return Err(ContractError::DecodeFailure);
            }
        } else if wire == 5 {
            if end - after_key >= 4 {
                pos = after_key + 4;
            } else {
                return Err(ContractError::DecodeFailure);
            }
        } else {
            return Err(ContractError::DecodeFailure);
        }
    }
    Ok((chain_id, contract_address))
}

/// Cross-module response listing every approved bridge token. One repeated
/// message field, tag 1.
#[derive(Clone, Debug, PartialEq, Eq)]
pub struct QueryApprovedTokensForTradeResponseProto {
    /// The registry of approved bridge tokens, in wire order.
    pub approved_tokens: Vec<BridgeTradeApprovedToken>,
}

impl QueryApprovedTokensForTradeResponseProto {
    /// Decodes an approved-token registry response.
    pub fn decode(data: &[u8]) -> (r: Result<Self, ContractError>)
        ensures
            match r {
                Ok(response) => spec_parse_approved_tokens(
                    data@,
                    0,
                    data@.len() as int,
                    Seq::<(Seq<u8>, Seq<u8>)>::empty(),
                ) == Some(spec_token_views(response.approved_tokens@)),
                Err(e) => spec_parse_approved_tokens(
                    data@,
                    0,
                    data@.len() as int,
                    Seq::<(Seq<u8>, Seq<u8>)>::empty(),
                ) is None && e == ContractError::DecodeFailure,
            },
    {
        let end = data.len();
        let mut pos: usize = 0;
        let mut approved_tokens: Vec<BridgeTradeApprovedToken> = Vec::new();
        proof {
            assert(spec_token_views(approved_tokens@) =~= Seq::<(Seq<u8>, Seq<u8>)>::empty());
        }
        while pos < end
            invariant
                end == data@.len(),
                pos <= end,
                spec_parse_approved_tokens(
                    data@,
                    pos as int,
                    end as int,
                    spec_token_views(approved_tokens@),
                ) == spec_parse_approved_tokens(
                    data@,
                    0,
                    end as int,
                    Seq::<(Seq<u8>, Seq<u8>)>::empty(),
                ),
            decreases end - pos,
        {
            let (key, after_key) = match parse_varint(data, pos, end, VARINT_MAX_BYTES) {
                None => {
                    return Err(ContractError::DecodeFailure);
                },
                Some(parsed) => parsed,
            };
            proof {
                lemma_parse_varint_bounds(data@, pos as int, end as int, VARINT_MAX_BYTES as nat);
            }
            if key > 0xffff_ffff_ffff_ffff {
                return Err(ContractError::DecodeFailure);
            }
            let field = key / 8;
            let wire = key % 8;
            if field == 0 {
                return Err(ContractError::DecodeFailure);
            }
            if wire == 2 {
                let (length, after_length) = match parse_varint(data, after_key, end, VARINT_MAX_BYTES) {
                    None => {
                        return Err(ContractError::DecodeFailure);
                    },
                    Some(parsed) => parsed,
                };
                proof {
                    lemma_parse_varint_bounds(
                        data@,
                        after_key as int,
                        end as int,
                        VARINT_MAX_BYTES as nat,
                    );
                    lemma_pow128_bounded(VARINT_MAX_BYTES as nat);
                }
                let target = after_length as u128 + length;
                if target > end as u128 {
                    return Err(ContractError::DecodeFailure);
                }
                let block_end = target as usize;
                if field == 1 {
                    let entry = match decode_approved_token(data, after_length, block_end) {
                        Err(e) => {
                            return Err(e);
                        },
                        Ok(entry) => entry,
                    };
                    let ghost old_views = spec_token_views(approved_tokens@);
                    approved_tokens.push(
                        BridgeTradeApprovedToken {
                            chain_id: entry.0,
                            contract_address: entry.1,
                        },
                    );
                    proof {
                        assert(spec_token_views(approved_tokens@) =~= old_views.push(
                            (approved_tokens@.last().chain_id@, approved_tokens@.last().contract_address@),
                        ));
                    }
                }
                pos = block_end;
            } else if field == 1 {
                return Err(ContractError::DecodeFailure);
            } else if wire == 0 {
                let (value, after_value) = match parse_varint(data, after_key, end, VARINT_MAX_BYTES) {
                    None => {
                        return Err(ContractError::DecodeFailure);
                    },
                    Some(parsed) => parsed,
                };
                proof {
                    lemma_parse_varint_bounds(
                        data@,
                        after_key as int,
                        end as int,
                        VARINT_MAX_BYTES as nat,
                    );
                }
                if value > 0xffff_ffff_ffff_ffff {
                    return Err(ContractError::DecodeFailure);
                }
                pos = after_value;
            } else if wire == 1 {
                if end - after_key >= 8 {
                    pos = after_key + 8;
                } else {
                    return Err(ContractError::DecodeFailure);
                }
            } else if wire == 5 {
                if end - after_key >= 4 {
                    pos = after_key + 4;
                } else {
                    return Err(ContractError::DecodeFailure);
                }
            } else {
                return Err(ContractError::DecodeFailure);
            }
        }
        Ok(QueryApprovedTokensForTradeResponseProto { approved_tokens })
    }
}

} // verus!
