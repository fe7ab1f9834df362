//! The serialization and address-resolution collaborators.  Every function
//! here wraps one call into the codec or the test API; its contract states
//! only what that call's source shows.  Results that depend on the arguments
//! alone but have no short description are given names (`uninterp` spec
//! functions) that the callers' contracts speak of.

use vstd::prelude::*;

use crate::types::{Query, QueryV, TokenQuery, TokenQueryV};
use cosmwasm_std::{Api, BankQuery, Empty, QueryRequest, Uint128, WasmQuery};
use cw20::Cw20QueryMsg;

verus! {

/// What the codec makes of a request buffer: a decoded query, or the decode
/// error's message.  A function of the bytes alone.
pub uninterp spec fn decoded_request(bytes: Seq<u8>) -> Result<QueryV, Seq<char>>;

/// What the codec makes of a contract-call payload: a decoded token
/// sub-query, or the decode error's message.  A function of the bytes alone.
pub uninterp spec fn decoded_token_query(bytes: Seq<u8>) -> Result<TokenQueryV, Seq<char>>;

/// The canonical-address bytes the test API derives from a human address.
/// A deterministic, content-dependent transformation.
pub uninterp spec fn canon_of(s: Seq<char>) -> Seq<u8>;

/// What the test API makes of canonical-address bytes: the human address, or
/// the resolution error's message.  A function of the bytes alone.
pub uninterp spec fn humanized(bytes: Seq<u8>) -> Result<Seq<char>, Seq<char>>;

/// The codec's JSON encoding of a binary blob: its base64 text in JSON
/// quotes.  A function of the bytes alone.
pub uninterp spec fn b64_json_of(bytes: Seq<u8>) -> Seq<u8>;

/// The codec's JSON encoding of a single-coin bank balance response.
pub uninterp spec fn bank_balance_json(denom: Seq<char>, amount: u128) -> Seq<u8>;

/// The codec's JSON encoding of an all-balances response holding one coin.
pub uninterp spec fn all_balances_one_json(denom: Seq<char>, amount: u128) -> Seq<u8>;

/// The codec's JSON encoding of a token-metadata record.
pub uninterp spec fn token_info_json(
    name: Seq<char>,
    symbol: Seq<char>,
    decimals: u8,
    total_supply: u128,
    minter: Seq<char>,
    cap: Option<u128>,
) -> Seq<u8>;

/// The decimal digits of `n`, most significant first, as ASCII bytes.
pub open spec fn spec_dec_digits(n: u128) -> Seq<u8>
    decreases n,
{
    if n < 10 {
        seq![(48 + n) as u8]
    } else {
        spec_dec_digits(n / 10).push((48 + n % 10) as u8)
    }
}

/// The codec's JSON encoding of a 128-bit amount: its decimal digits in JSON
/// quotes.
pub open spec fn spec_uint_json(n: u128) -> Seq<u8> {
    seq![34u8] + spec_dec_digits(n) + seq![34u8]
}

/// The codec's JSON encoding of a token balance response: a record with one
/// field, `balance`, holding the amount.
pub open spec fn spec_cw20_balance_json(n: u128) -> Seq<u8> {
    seq![123u8, 34u8, 98u8, 97u8, 108u8, 97u8, 110u8, 99u8, 101u8, 34u8, 58u8] + spec_uint_json(n)
        + seq![125u8]
}

/// The mathematical form of a decoded-request outcome.
pub open spec fn query_result_view(r: &Result<Query, String>) -> Result<QueryV, Seq<char>> {
    match r {
        Ok(q) => Ok(q@),
        Err(e) => Err(e@),
    }
}

/// The mathematical form of a decoded-sub-query outcome.
pub open spec fn token_result_view(r: &Result<TokenQuery, String>) -> Result<
    TokenQueryV,
    Seq<char>,
> {
    match r {
        Ok(t) => Ok(t@),
        Err(e) => Err(e@),
    }
}

/// A successful address resolution carrying the given text.
pub open spec fn resolved_ok(s: Seq<char>) -> Result<Seq<char>, Seq<char>> {
    Ok(s)
}

/// The mathematical form of an address-resolution outcome.
pub open spec fn str_result_view(r: &Result<String, String>) -> Result<Seq<char>, Seq<char>> {
    match r {
        Ok(h) => Ok(h@),
        Err(e) => Err(e@),
    }
}

/// Every character is ASCII and none is a NUL.
pub open spec fn ascii_ident(s: Seq<char>) -> bool {
    forall|i: int| 0 <= i < s.len() ==> 0 < ((#[trigger] s[i]) as u32) < 128
}

/// ASCII text that address canonicalization leaves as it stands: no
/// upper-case letter (the API folds case) and no NUL (the API pads with it).
pub open spec fn lower_ident(s: Seq<char>) -> bool {
    ascii_ident(s) && forall|i: int| 0 <= i < s.len() ==> !('A' <= #[trigger] s[i] <= 'Z')
}

/// Relies on the codec's request decoder: a deterministic structural decode
/// of the request buffer into the closed query union; every shape the
/// simulator does not specialize is handed back whole for the base handler.
#[verifier::external_body]
pub(crate) fn decode_query(bin: &[u8]) -> (r: Result<Query, String>)
    ensures
        query_result_view(&r) == decoded_request(bin@),
{
    match cosmwasm_std::from_slice::<QueryRequest<Empty>>(bin) {
        Ok(QueryRequest::Wasm(WasmQuery::Raw { contract_addr, key })) => Ok(Query::RawRead { contract_addr, key: key.0 }),
        Ok(QueryRequest::Wasm(WasmQuery::Smart { contract_addr, msg })) => Ok(Query::SmartCall { contract_addr, msg: msg.0 }),
        Ok(QueryRequest::Bank(BankQuery::Balance { address, denom })) => Ok(Query::BalanceOf { address, denom }),
        Ok(QueryRequest::Bank(BankQuery::AllBalances { address })) => Ok(Query::AllBalances { address }),
        Ok(_) => Ok(Query::Other { request: bin.to_vec() }),
        Err(e) => Err(e.to_string()),
    }
}

/// Relies on the codec's payload decoder for the token sub-query union; the
/// two simulated members are told apart, every other member is marked
/// unsupported.
#[verifier::external_body]
pub(crate) fn decode_token_query(msg: &Vec<u8>) -> (r: Result<TokenQuery, String>)
    ensures
        token_result_view(&r) == decoded_token_query(msg@),
{
    match cosmwasm_std::from_slice::<Cw20QueryMsg>(msg.as_slice()) {
        Ok(Cw20QueryMsg::TokenInfo {}) => Ok(TokenQuery::TokenInfo),
        Ok(Cw20QueryMsg::Balance { address }) => Ok(TokenQuery::Balance { address }),
        Ok(_) => Ok(TokenQuery::Unsupported),
        Err(e) => Err(e.to_string()),
    }
}

/// Relies on the test API's address canonicalization: it accepts any input
/// of 3 to 54 bytes, folds case, pads with NUL to 54 bytes, and applies a
/// deterministic, invertible shuffle; resolution inverts it exactly for
/// inputs it leaves as they stand.
#[verifier::external_body]
pub(crate) fn canonicalize(input: &str) -> (r: Result<Vec<u8>, String>)
    ensures
        r is Ok ==> (r->Ok_0)@ == canon_of(input@),
        r is Ok ==> (r->Ok_0)@.len() == 54,
        (ascii_ident(input@) && 3 <= input@.len() <= 54) ==> r is Ok,
        (r is Ok && lower_ident(input@) && 3 <= input@.len() <= 54) ==> humanized((r->Ok_0)@)
            == resolved_ok(input@),
{
    match cosmwasm_std::testing::MockApi::default().addr_canonicalize(input) {
        Ok(c) => Ok(c.as_slice().to_vec()),
        Err(e) => Err(e.to_string()),
    }
}

/// Relies on the test API's address resolution: a deterministic function of
/// the canonical bytes; every input whose length is not the canonical 54
/// bytes is refused.
#[verifier::external_body]
pub(crate) fn humanize(bytes: &Vec<u8>) -> (r: Result<String, String>)
    ensures
        str_result_view(&r) == humanized(bytes@),
        bytes@.len() != 54 ==> r is Err,
{
    match cosmwasm_std::testing::MockApi::default().addr_humanize(
        &cosmwasm_std::CanonicalAddr::from(bytes.as_slice()),
    ) {
        Ok(a) => Ok(a.into_string()),
        Err(e) => Err(e.to_string()),
    }
}

/// Relies on the codec's encoder for a binary blob; this serialization of a
/// plain byte value cannot fail.
#[verifier::external_body]
pub(crate) fn encode_binary(b: &Vec<u8>) -> (r: Vec<u8>)
    ensures
        r@ == b64_json_of(b@),
{
    cosmwasm_std::to_binary(&cosmwasm_std::Binary(b.clone())).unwrap().0
}

/// Relies on the codec's encoder for a 128-bit amount: its decimal digits as
/// a JSON string; this serialization cannot fail.
#[verifier::external_body]
pub(crate) fn encode_uint(amount: u128) -> (r: Vec<u8>)
    ensures
        r@ == spec_uint_json(amount),
{
    cosmwasm_std::to_binary(&Uint128::new(amount)).unwrap().0
}

/// Relies on the codec's encoder for a token balance response: a one-field
/// record holding the amount as a JSON string; this serialization cannot
/// fail.
#[verifier::external_body]
pub(crate) fn encode_cw20_balance(amount: u128) -> (r: Vec<u8>)
    ensures
        r@ == spec_cw20_balance_json(amount),
{
    cosmwasm_std::to_binary(&cw20::BalanceResponse { balance: Uint128::new(amount) }).unwrap().0
}

/// Relies on the codec's encoder for a bank balance response; this
/// serialization of plain text and an amount cannot fail.
#[verifier::external_body]
pub(crate) fn encode_bank_balance(denom: &String, amount: u128) -> (r: Vec<u8>)
    ensures
        r@ == bank_balance_json(denom@, amount),
{
    let coin = cosmwasm_std::Coin { denom: denom.clone(), amount: Uint128::new(amount) };
    cosmwasm_std::to_binary(&cosmwasm_std::BalanceResponse { amount: coin }).unwrap().0
}

/// Relies on the codec's encoder for an all-balances response holding one
/// coin; this serialization of plain text and an amount cannot fail.
#[verifier::external_body]
pub(crate) fn encode_all_balances_one(denom: &String, amount: u128) -> (r: Vec<u8>)
    ensures
        r@ == all_balances_one_json(denom@, amount),
{
    let coin = cosmwasm_std::Coin { denom: denom.clone(), amount: Uint128::new(amount) };
    cosmwasm_std::to_binary(&cosmwasm_std::AllBalanceResponse { amount: vec![coin] }).unwrap().0
}

/// Relies on the codec's encoder for a token-metadata record; this
/// serialization of plain text and amounts cannot fail.
#[verifier::external_body]
pub(crate) fn encode_token_info(
    name: &str,
    symbol: &str,
    decimals: u8,
    total_supply: u128,
    minter: &str,
    cap: Option<u128>,
) -> (r: Vec<u8>)
    ensures
        r@ == token_info_json(name@, symbol@, decimals, total_supply, minter@, cap),
{
    let mint = cw20_base::state::MinterData {
        minter: cosmwasm_std::Addr::unchecked(minter),
        cap: cap.map(Uint128::new),
    };
    let info = cw20_base::state::TokenInfo {
        name: name.to_string(),
        symbol: symbol.to_string(),
        decimals,
        total_supply: Uint128::new(total_supply),
        mint: Some(mint),
    };
    cosmwasm_std::to_binary(&info).unwrap().0
}

} // verus!
