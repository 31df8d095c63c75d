//! Text and bytes that leave the library: decimal numbers for attributes and
//! the JSON bodies of the messages sent to the token contract.

use vstd::prelude::*;
use vstd::string::{StrSliceExecFns, StringSliceAdditionalSpecFns};
use crate::error::ContractError;

verus! {

#[verifier::external_type_specification]
#[verifier::external_body]
pub struct ExStdError(cosmwasm_std::StdError);

#[verifier::external_type_specification]
#[verifier::external_body]
pub struct ExJsonError(serde_json::Error);

/// The decimal digit for `d`.
pub open spec fn digit_char(d: nat) -> char
    recommends
        d < 10,
{
    "0123456789"@[d as int]
}

/// `n` in base ten, most significant digit first, without leading zeros;
/// zero is the single digit `0`.
pub open spec fn decimal_text(n: nat) -> Seq<char>
    decreases n,
{
    if n < 10 {
        seq![digit_char(n)]
    } else {
        decimal_text(n / 10).push(digit_char(n % 10))
    }
}

/// The text of a flag: `true` or `false`.
pub open spec fn bool_text(flag: bool) -> Seq<char> {
    if flag {
        "true"@
    } else {
        "false"@
    }
}

/// The JSON body of a cw20 `mint` message for `recipient` and `amount`, or
/// `None` where the encoder fails.
pub uninterp spec fn cw20_mint_json(recipient: Seq<char>, amount: u128) -> Option<Seq<u8>>;

/// `text` as a JSON string, quotes and escapes included, or `None` where the
/// encoder fails.
pub uninterp spec fn json_string_bytes(text: Seq<char>) -> Option<Seq<u8>>;

/// Calls `to_string` of `cosmwasm_std::Uint128`, which formats the inner
/// `u128` as std does: in base ten, with no sign, padding or leading zero.
#[verifier::external_body]
pub(crate) fn uint128_text(n: u128) -> (text: String)
    ensures
        text@ == decimal_text(n as nat),
{
    cosmwasm_std::Uint128::new(n).to_string()
}

/// Calls `cosmwasm_std::to_json_binary` on `cw20::Cw20ExecuteMsg::Mint`. The
/// encoder is deterministic: the contract only gives its outcome a name.
#[verifier::external_body]
pub(crate) fn encode_cw20_mint(recipient: &str, amount: u128) -> (r: Result<
    Vec<u8>,
    cosmwasm_std::StdError,
>)
    ensures
        match r {
            Ok(bytes) => cw20_mint_json(recipient@, amount) == Some(bytes@),
            Err(_) => cw20_mint_json(recipient@, amount) is None,
        },
{
    let msg = cw20::Cw20ExecuteMsg::Mint {
        recipient: recipient.to_string(),
        amount: cosmwasm_std::Uint128::new(amount),
    };
    cosmwasm_std::to_json_binary(&msg).map(|binary| binary.0)
}

/// Calls `serde_json::to_vec` on a string slice. The encoder is
/// deterministic: the contract only gives its outcome a name.
#[verifier::external_body]
pub(crate) fn encode_json_string(text: &str) -> (r: Result<Vec<u8>, serde_json::Error>)
    ensures
        match r {
            Ok(bytes) => json_string_bytes(text@) == Some(bytes@),
            Err(_) => json_string_bytes(text@) is None,
        },
{
    serde_json::to_vec(text)
}

/// The body of the message that asks the token contract to hand its minting
/// authority to someone else: the object `update_minter` whose one member
/// `new_minter` is the JSON string `minter_json`, without white space.
pub open spec fn update_minter_frame(minter_json: Seq<u8>) -> Seq<u8> {
    "{\"update_minter\":{\"new_minter\":".spec_bytes() + minter_json + "}}".spec_bytes()
}

/// Puts an encoded JSON string into the `update_minter` message.
pub fn frame_update_minter(minter_json: Vec<u8>) -> (body: Vec<u8>)
    ensures
        body@ == update_minter_frame(minter_json@),
{
    let mut body: Vec<u8> = "{\"update_minter\":{\"new_minter\":".as_bytes_vec();
    let mut middle = minter_json;
    let mut tail: Vec<u8> = "}}".as_bytes_vec();
    body.append(&mut middle);
    body.append(&mut tail);
    body
}

/// The whole `update_minter` body for `new_minter`, where it can be encoded.
pub open spec fn update_minter_json(new_minter: Seq<char>) -> Option<Seq<u8>> {
    match json_string_bytes(new_minter) {
        Some(bytes) => Some(update_minter_frame(bytes)),
        None => None,
    }
}

/// Encodes the `update_minter` message for `new_minter`.
pub fn encode_update_minter(new_minter: &str) -> (r: Result<Vec<u8>, ContractError>)
    ensures
        match r {
            Ok(body) => update_minter_json(new_minter@) == Some(body@),
            Err(e) => update_minter_json(new_minter@) is None
                && e == ContractError::SerializationError,
        },
{
    match encode_json_string(new_minter) {
        Ok(bytes) => Ok(frame_update_minter(bytes)),
        Err(_) => Err(ContractError::SerializationError),
    }
}

/// Encodes the cw20 `mint` message for `recipient` and `amount`.
pub fn encode_mint(recipient: &str, amount: u128) -> (r: Result<Vec<u8>, ContractError>)
    ensures
        match r {
            Ok(body) => cw20_mint_json(recipient@, amount) == Some(body@),
            Err(e) => cw20_mint_json(recipient@, amount) is None
                && e == ContractError::SerializationError,
        },
{
    match encode_cw20_mint(recipient, amount) {
        Ok(bytes) => Ok(bytes),
        Err(_) => Err(ContractError::SerializationError),
    }
}

/// The text of a flag.
pub fn flag_text(flag: bool) -> (text: String)
    ensures
        text@ == bool_text(flag),
{
    if flag {
        "true".to_owned()
    } else {
        "false".to_owned()
    }
}

} // verus!
