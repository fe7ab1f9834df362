//! The library's stated laws: what the dispatcher owes for every reachable
//! state of the fixture tables, proved from the contracts in `querier`.

use vstd::prelude::*;

use crate::codec::{
    bank_balance_json, b64_json_of, resolved_ok, spec_cw20_balance_json, spec_uint_json,
    token_info_json,
};
use crate::config::spec_default_config_json;
use crate::keys::spec_config_key;
use crate::querier::{
    handled_bank, handled_raw, handled_raw_resolved, handled_token, spec_mock_contract_addr,
    WasmMockQuerier,
};
use crate::table::{has_key, sum_amounts, val_of};
use crate::types::{Envelope, InnerResult, TokenQueryV};

verus! {

/// For every seeded (contract, holder, amount) triple, a balance-of
/// sub-query for that contract and holder answers exactly the stored
/// amount.
pub proof fn lemma_token_balance_of_seeded(
    s: &WasmMockQuerier,
    c: Seq<char>,
    h: Seq<char>,
    r: Envelope,
)
    requires
        handled_token(s, c, TokenQueryV::Balance { address: h }, r),
        has_key(s.tokens(), c),
        has_key(val_of(s.tokens(), c)@, h),
    ensures
        r matches Envelope::Answer(InnerResult::Success(p)) && p@ == spec_cw20_balance_json(
            val_of(val_of(s.tokens(), c)@, h),
        ),
{
}

/// A holder absent from a known contract's table reads as an amount of
/// zero, never as an error.
pub proof fn lemma_token_balance_of_absent(
    s: &WasmMockQuerier,
    c: Seq<char>,
    h: Seq<char>,
    r: Envelope,
)
    requires
        handled_token(s, c, TokenQueryV::Balance { address: h }, r),
        has_key(s.tokens(), c),
        !has_key(val_of(s.tokens(), c)@, h),
    ensures
        r matches Envelope::Answer(InnerResult::Success(p)) && p@ == spec_cw20_balance_json(0),
{
}

/// A token-info query for a known contract answers the sum of every holder
/// amount in that contract's table as the total supply, whenever that sum
/// fits the amount range.
pub proof fn lemma_token_info_total_supply(s: &WasmMockQuerier, c: Seq<char>, r: Envelope)
    requires
        handled_token(s, c, TokenQueryV::TokenInfo, r),
        has_key(s.tokens(), c),
        sum_amounts(val_of(s.tokens(), c)@) <= u128::MAX,
    ensures
        r matches Envelope::Answer(InnerResult::Success(p)) && p@ == token_info_json(
            ("bluna")@,
            ("BLUNA")@,
            6,
            sum_amounts(val_of(s.tokens(), c)@) as u128,
            ("hub")@,
            None,
        ),
{
}

/// A contract seeded with no holders at all reads as a total supply of
/// zero.
pub proof fn lemma_token_info_empty(s: &WasmMockQuerier, c: Seq<char>, r: Envelope)
    requires
        handled_token(s, c, TokenQueryV::TokenInfo, r),
        has_key(s.tokens(), c),
        val_of(s.tokens(), c)@.len() == 0,
    ensures
        r matches Envelope::Answer(InnerResult::Success(p)) && p@ == token_info_json(
            ("bluna")@,
            ("BLUNA")@,
            6,
            0,
            ("hub")@,
            None,
        ),
{
    assert(sum_amounts(val_of(s.tokens(), c)@) == 0);
}

/// A raw storage read of the balance key and a balance-of sub-query for the
/// same contract and holder read the same table entry: each carries the one
/// stored amount, in its own encoding.
pub proof fn lemma_raw_and_smart_agree(
    s: &WasmMockQuerier,
    c: Seq<char>,
    h: Seq<char>,
    key: Seq<u8>,
    r1: Envelope,
    r2: Envelope,
)
    requires
        has_key(s.tokens(), c),
        has_key(val_of(s.tokens(), c)@, h),
        handled_raw_resolved(s, c, key, resolved_ok(h), r1),
        handled_token(s, c, TokenQueryV::Balance { address: h }, r2),
    ensures
        r1 matches Envelope::Answer(InnerResult::Success(p)) && p@ == spec_uint_json(
            val_of(val_of(s.tokens(), c)@, h),
        ),
        r2 matches Envelope::Answer(InnerResult::Success(p)) && p@ == spec_cw20_balance_json(
            val_of(val_of(s.tokens(), c)@, h),
        ),
{
}

/// A raw storage read of the configuration key always answers, with the
/// fixed default configuration record, whatever was or was not seeded.
pub proof fn lemma_config_read_always_answers(s: &WasmMockQuerier, c: Seq<char>, r: Envelope)
    requires
        handled_raw(s, c, spec_config_key(), r),
    ensures
        r matches Envelope::Answer(InnerResult::Success(p)) && p@ == b64_json_of(
            spec_default_config_json(),
        ),
{
}

/// The reserved-account rule answers its fixed coin for its exact account
/// and denomination, whatever the seeded native table holds.
pub proof fn lemma_reserved_rule_precedence(s: &WasmMockQuerier, r: Envelope)
    requires
        handled_bank(s, ("reward")@, ("uusd")@, r),
    ensures
        r matches Envelope::Answer(InnerResult::Success(p)) && p@ == bank_balance_json(
            ("uusd")@,
            2000,
        ),
{
    reveal_strlit("reward");
    reveal_strlit("cosmos2contract");
    assert(("reward")@.len() == 6);
    assert(spec_mock_contract_addr().len() == 15);
}

} // verus!
