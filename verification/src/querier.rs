//! The simulator: fixture stores, the classified-query dispatcher, and the
//! raw entry point.  Dispatch is an explicit ordered list of match attempts:
//! fixed rules first, then the seeded tables, then the generic base handler.

use vstd::prelude::*;
use vstd::string::StringExecFns;

use crate::codec::{
    all_balances_one_json, bank_balance_json, b64_json_of, decode_query, decode_token_query,
    decoded_request, decoded_token_query, encode_all_balances_one, encode_bank_balance,
    encode_binary, encode_cw20_balance, encode_token_info, encode_uint, humanize, humanized,
    spec_cw20_balance_json, spec_uint_json, token_info_json,
};
use crate::config::{config_json, default_config, spec_default_config_json};
use crate::keys::{
    balance_prefix, bytes_eq, config_key, copy_bytes, spec_balance_prefix, spec_config_key,
    starts_with, tail_from,
};
use crate::table::{
    all_unique, balances_to_map, find_idx, has_key, lemma_idx_of_props, lookup, lookup_last,
    native_balances_to_map, sum_amounts, token_tables_match, unique_keys, val_of,
};
use crate::types::{Coin, Envelope, InnerResult, Query, QueryV, TokenQuery, TokenQueryV};
use cosmwasm_std::{ContractResult, Querier, SystemError, SystemResult};

verus! {

/// The generic base test handler, held whole behind an opaque struct: its
/// type carries a bound Verus does not take, so it is hidden here and only
/// reached through the trusted calls below.
#[verifier::external_body]
pub struct BaseHandler {
    inner: cosmwasm_std::testing::MockQuerier<cosmwasm_std::Empty>,
}

impl BaseHandler {
    /// Relies on the base test handler's constructor: a fresh handler whose
    /// bank fixture holds the given coins for the given account.
    #[verifier::external_body]
    pub fn new(address: &str, balance: &Vec<Coin>) -> BaseHandler {
        let coins: Vec<cosmwasm_std::Coin> = balance.iter().map(
            |c| cosmwasm_std::Coin { denom: c.denom.clone(), amount: cosmwasm_std::Uint128::new(c.amount) },
        ).collect();
        BaseHandler { inner: cosmwasm_std::testing::MockQuerier::new(&[(address, coins.as_slice())]) }
    }
}

/// A staking validator record, declared so that staking fixtures can pass
/// through to the base handler; its values are opaque here.
#[verifier::external_type_specification]
#[verifier::external_body]
pub struct ExValidator(cosmwasm_std::Validator);

/// A staking delegation record, declared so that staking fixtures can pass
/// through to the base handler; its values are opaque here.
#[verifier::external_type_specification]
#[verifier::external_body]
pub struct ExFullDelegation(cosmwasm_std::FullDelegation);

/// The reserved address of the simulated top-level contract account.
pub fn mock_contract_addr() -> (r: &'static str)
    ensures
        r@ == spec_mock_contract_addr(),
{
    "cosmos2contract"
}

/// The reserved address of the simulated top-level contract account.
pub open spec fn spec_mock_contract_addr() -> Seq<char> {
    ("cosmos2contract")@
}

/// The transport-level error text for a payload that did not decode.
pub open spec fn parse_err_msg(e: Seq<char>) -> Seq<char> {
    ("Parsing query request: ")@ + e
}

/// The fixture-miss text for a contract absent from the token table.
pub open spec fn no_balance_info_msg(c: Seq<char>) -> Seq<char> {
    ("No balance info exists for the contract ")@ + c
}

/// Seeded native balances: each account holds a single coin.
pub struct BalanceQuerier {
    balances: Vec<(String, Coin)>,
}

impl BalanceQuerier {
    /// The table of seeded native balances.
    pub closed spec fn table(&self) -> Seq<(String, Coin)> {
        self.balances@
    }

    /// Build the native-balance table from a seed list, duplicate accounts
    /// taking last-write-wins.
    pub fn new(balances: &Vec<(String, Coin)>) -> (r: BalanceQuerier)
        ensures
            unique_keys(r.table()),
            forall|k: Seq<char>| #[trigger] lookup(r.table(), k) == lookup_last(balances@, k),
            unique_keys(balances@) ==> r.table() == balances@,
    {
        BalanceQuerier { balances: native_balances_to_map(balances) }
    }
}

impl Default for BalanceQuerier {
    /// An empty native-balance table.
    fn default() -> (r: BalanceQuerier)
        ensures
            r.table().len() == 0,
    {
        BalanceQuerier { balances: Vec::new() }
    }
}

/// Seeded token balances: each token contract holds its own holder-amount
/// table.
pub struct TokenQuerier {
    balances: Vec<(String, Vec<(String, u128)>)>,
}

impl TokenQuerier {
    /// The table of seeded token balances.
    pub closed spec fn table(&self) -> Seq<(String, Vec<(String, u128)>)> {
        self.balances@
    }

    /// Build the token-balance table from a seed list; inner tables are
    /// rebuilt fully and duplicates take last-write-wins at both levels.
    pub fn new(balances: &Vec<(String, Vec<(String, u128)>)>) -> (r: TokenQuerier)
        ensures
            unique_keys(r.table()),
            token_tables_match(r.table(), balances@),
            all_unique(balances@) ==> r.table().len() == balances@.len() && (forall|j: int|
                0 <= j < r.table().len() ==> (#[trigger] r.table()[j]).0 == balances@[j].0
                    && r.table()[j].1@ == balances@[j].1@),
    {
        TokenQuerier { balances: balances_to_map(balances) }
    }
}

impl Default for TokenQuerier {
    /// An empty token-balance table.
    fn default() -> (r: TokenQuerier)
        ensures
            r.table().len() == 0,
    {
        TokenQuerier { balances: Vec::new() }
    }
}

/// The simulator: the two seeded fixture tables around the generic base
/// handler that answers every query shape this simulator does not
/// specialize.
pub struct WasmMockQuerier {
    base: BaseHandler,
    token_querier: TokenQuerier,
    balance_querier: BalanceQuerier,
}

/// Relies on the base test handler answering a raw query from its own
/// fixtures; its answer depends on that handler's state, so nothing more is
/// promised of it.  Transport-level failures other than an invalid request
/// keep their message and the request bytes.
#[verifier::external_body]
fn query_base(base: &BaseHandler, bin: &Vec<u8>) -> Envelope {
    match base.inner.raw_query(bin.as_slice()) {
        SystemResult::Ok(ContractResult::Ok(b)) => Envelope::Answer(InnerResult::Success(b.0)),
        SystemResult::Ok(ContractResult::Err(m)) => Envelope::Answer(InnerResult::Failure(m)),
        SystemResult::Err(SystemError::InvalidRequest { error, request }) => Envelope::Malformed { error, request: request.0 },
        SystemResult::Err(e) => Envelope::Malformed { error: e.to_string(), request: bin.clone() },
    }
}

/// Relies on the base test handler replacing its staking fixtures; it
/// touches nothing besides its own state.
#[verifier::external_body]
fn base_update_staking(
    base: &mut BaseHandler,
    denom: &str,
    validators: &[cosmwasm_std::Validator],
    delegations: &[cosmwasm_std::FullDelegation],
) {
    base.inner.update_staking(denom, validators, delegations);
}

/// What answering a native-balance query from the seeded table yields: the
/// account's stored coin, or the fixture-miss failure.
pub open spec fn bank_from_table(s: &WasmMockQuerier, a: Seq<char>, r: Envelope) -> bool {
    if has_key(s.natives(), a) {
        r matches Envelope::Answer(InnerResult::Success(p)) && p@ == bank_balance_json(
            val_of(s.natives(), a).denom@,
            val_of(s.natives(), a).amount,
        )
    } else {
        r matches Envelope::Answer(InnerResult::Failure(m)) && m@ == ("balance not found")@
    }
}

/// What dispatching a single-denomination balance query yields: the two
/// fixed rules are tried on their exact account and denomination first, then
/// the seeded table answers.
pub open spec fn handled_bank(
    s: &WasmMockQuerier,
    address: Seq<char>,
    denom: Seq<char>,
    r: Envelope,
) -> bool {
    if address == spec_mock_contract_addr() && denom == ("uluna")@ {
        bank_from_table(s, spec_mock_contract_addr(), r)
    } else if address == ("reward")@ && denom == ("uusd")@ {
        r matches Envelope::Answer(InnerResult::Success(p)) && p@ == bank_balance_json(
            ("uusd")@,
            2000,
        )
    } else {
        bank_from_table(s, address, r)
    }
}

/// What dispatching an all-balances query yields: a fixed one-coin answer
/// for the two reserved accounts, and a declared refusal for every other.
pub open spec fn handled_all(address: Seq<char>, r: Envelope) -> bool {
    if address == ("reward")@ || address == spec_mock_contract_addr() {
        r matches Envelope::Answer(InnerResult::Success(p)) && p@ == all_balances_one_json(
            ("uluna")@,
            1000,
        )
    } else {
        r matches Envelope::Unimplemented { detail } && detail@ == (
        "all balances query only simulated for the reserved accounts")@
    }
}

/// What dispatching a decoded token sub-query yields.
pub open spec fn handled_token(
    s: &WasmMockQuerier,
    c: Seq<char>,
    tq: TokenQueryV,
    r: Envelope,
) -> bool {
    match tq {
        TokenQueryV::TokenInfo => {
            if !has_key(s.tokens(), c) {
                r matches Envelope::Answer(InnerResult::Failure(m)) && m@ == no_balance_info_msg(c)
            } else if sum_amounts(val_of(s.tokens(), c)@) <= u128::MAX {
                r matches Envelope::Answer(InnerResult::Success(p)) && p@ == token_info_json(
                    ("bluna")@,
                    ("BLUNA")@,
                    6,
                    sum_amounts(val_of(s.tokens(), c)@) as u128,
                    ("hub")@,
                    None,
                )
            } else {
                r matches Envelope::Fatal { detail } && detail@ == (
                "token total supply overflows the amount range")@
            }
        },
        TokenQueryV::Balance { address } => {
            if !has_key(s.tokens(), c) {
                r matches Envelope::Answer(InnerResult::Failure(m)) && m@ == no_balance_info_msg(c)
            } else {
                r matches Envelope::Answer(InnerResult::Success(p)) && p@
                    == spec_cw20_balance_json(
                    if has_key(val_of(s.tokens(), c)@, address) {
                        val_of(val_of(s.tokens(), c)@, address)
                    } else {
                        0
                    },
                )
            }
        },
        TokenQueryV::Unsupported => {
            r matches Envelope::Fatal { detail } && detail@ == (
            "token query shape declared unreachable by the simulator")@
        },
    }
}

/// What a balance storage read yields once the holder bytes are resolved:
/// the stored amount for a resolved holder the contract's table knows, the
/// fixture-miss failure for one it does not, and a transport-level error
/// when resolution failed.
pub open spec fn handled_raw_resolved(
    s: &WasmMockQuerier,
    c: Seq<char>,
    key: Seq<u8>,
    resolved: Result<Seq<char>, Seq<char>>,
    r: Envelope,
) -> bool {
    match resolved {
        Ok(h) => {
            if has_key(val_of(s.tokens(), c)@, h) {
                r matches Envelope::Answer(InnerResult::Success(p)) && p@ == spec_uint_json(
                    val_of(val_of(s.tokens(), c)@, h),
                )
            } else {
                r matches Envelope::Answer(InnerResult::Failure(m)) && m@ == (
                "Balance not found")@
            }
        },
        Err(e) => {
            r matches Envelope::Malformed { error, request } && error@ == parse_err_msg(e)
                && request@ == key
        },
    }
}

/// What dispatching a raw storage read yields, key shape by key shape.
pub open spec fn handled_raw(s: &WasmMockQuerier, c: Seq<char>, key: Seq<u8>, r: Envelope) -> bool {
    if key == spec_config_key() {
        r matches Envelope::Answer(InnerResult::Success(p)) && p@ == b64_json_of(
            spec_default_config_json(),
        )
    } else if key.len() >= spec_balance_prefix().len() && key.subrange(
        0,
        spec_balance_prefix().len() as int,
    ) == spec_balance_prefix() {
        if !has_key(s.tokens(), c) {
            r matches Envelope::Answer(InnerResult::Failure(m)) && m@ == no_balance_info_msg(c)
        } else {
            handled_raw_resolved(
                s,
                c,
                key,
                humanized(key.skip(spec_balance_prefix().len() as int)),
                r,
            )
        }
    } else {
        r matches Envelope::Unimplemented { detail } && detail@ == (
        "raw storage query not simulated for this key")@
    }
}

/// What dispatching a contract call yields: the payload decodes into the
/// token sub-query union, or the transport layer reports it malformed.
pub open spec fn handled_smart(
    s: &WasmMockQuerier,
    c: Seq<char>,
    msg: Seq<u8>,
    r: Envelope,
) -> bool {
    match decoded_token_query(msg) {
        Ok(tq) => handled_token(s, c, tq, r),
        Err(e) => {
            r matches Envelope::Malformed { error, request } && error@ == parse_err_msg(e)
                && request@ == msg
        },
    }
}

/// What dispatching a classified query yields.  A query the simulator does
/// not specialize is answered by the base handler, of which nothing is
/// promised.
pub open spec fn handled(s: &WasmMockQuerier, q: QueryV, r: Envelope) -> bool {
    match q {
        QueryV::RawRead { contract_addr, key } => handled_raw(s, contract_addr, key, r),
        QueryV::SmartCall { contract_addr, msg } => handled_smart(s, contract_addr, msg, r),
        QueryV::BalanceOf { address, denom } => handled_bank(s, address, denom, r),
        QueryV::AllBalances { address } => handled_all(address, r),
        QueryV::Other { .. } => true,
    }
}

/// What the raw entry point yields: a buffer that decodes is dispatched, and
/// one that does not is reported malformed, carrying the offending bytes.
pub open spec fn raw_handled(s: &WasmMockQuerier, bin: Seq<u8>, r: Envelope) -> bool {
    match decoded_request(bin) {
        Ok(q) => handled(s, q, r),
        Err(e) => {
            r matches Envelope::Malformed { error, request } && error@ == parse_err_msg(e)
                && request@ == bin
        },
    }
}

impl WasmMockQuerier {
    /// The seeded token-balance table.
    pub closed spec fn tokens(&self) -> Seq<(String, Vec<(String, u128)>)> {
        self.token_querier.table()
    }

    /// The seeded native-balance table.
    pub closed spec fn natives(&self) -> Seq<(String, Coin)> {
        self.balance_querier.table()
    }

    /// A simulator around the given base handler, with empty fixture tables.
    pub fn new(base: BaseHandler) -> (r: WasmMockQuerier)
        ensures
            r.tokens().len() == 0,
            r.natives().len() == 0,
    {
        WasmMockQuerier {
            base,
            token_querier: TokenQuerier::default(),
            balance_querier: BalanceQuerier::default(),
        }
    }

    /// Replace the native-balance table wholesale with the given seed.
    pub fn with_native_balances(&mut self, balances: &Vec<(String, Coin)>)
        ensures
            unique_keys(final(self).natives()),
            forall|k: Seq<char>| #[trigger] lookup(final(self).natives(), k) == lookup_last(
                balances@,
                k,
            ),
            unique_keys(balances@) ==> final(self).natives() == balances@,
            final(self).tokens() == old(self).tokens(),
    {
        self.balance_querier = BalanceQuerier::new(balances);
    }

    /// Replace the token-balance table wholesale with the given seed.
    pub fn with_token_balances(&mut self, balances: &Vec<(String, Vec<(String, u128)>)>)
        ensures
            unique_keys(final(self).tokens()),
            token_tables_match(final(self).tokens(), balances@),
            all_unique(balances@) ==> final(self).tokens().len() == balances@.len() && (forall|j: int|
                0 <= j < final(self).tokens().len() ==> (#[trigger] final(self).tokens()[j]).0
                    == balances@[j].0 && final(self).tokens()[j].1@ == balances@[j].1@),
            final(self).natives() == old(self).natives(),
    {
        self.token_querier = TokenQuerier::new(balances);
    }

    /// Hand new staking fixtures to the base handler.  The simulator's own
    /// tables are untouched.
    pub fn update_staking(
        &mut self,
        denom: &str,
        validators: &[cosmwasm_std::Validator],
        delegations: &[cosmwasm_std::FullDelegation],
    )
        ensures
            final(self).tokens() == old(self).tokens(),
            final(self).natives() == old(self).natives(),
    {
        base_update_staking(&mut self.base, denom, validators, delegations);
    }

    /// Answer a native-balance lookup from the seeded table.
    fn native_lookup(&self, a: &String) -> (r: Envelope)
        ensures
            bank_from_table(self, a@, r),
    {
        match find_idx(&self.balance_querier.balances, a) {
            Some(i) => {
                proof {
                    lemma_idx_of_props(self.natives(), a@);
                }
                let c = &self.balance_querier.balances[i].1;
                Envelope::Answer(InnerResult::Success(encode_bank_balance(&c.denom, c.amount)))
            },
            None => {
                Envelope::Answer(InnerResult::Failure(String::from_str("balance not found")))
            },
        }
    }

    /// Answer a raw storage read.
    fn handle_raw(&self, contract_addr: &String, key: &Vec<u8>) -> (r: Envelope)
        ensures
            handled_raw(self, contract_addr@, key@, r),
    {
        let ck = config_key();
        if bytes_eq(key, &ck) {
            let cfg = default_config();
            let inner = config_json(&cfg);
            let payload = encode_binary(&inner);
            Envelope::Answer(InnerResult::Success(payload))
        } else {
            let bp = balance_prefix();
            if starts_with(key, &bp) {
                match find_idx(&self.token_querier.balances, contract_addr) {
                    None => {
                        proof {
                            lemma_idx_of_props(self.tokens(), contract_addr@);
                        }
                        Envelope::Answer(
                            InnerResult::Failure(
                                String::from_str("No balance info exists for the contract ")
                                    .concat(contract_addr.as_str()),
                            ),
                        )
                    },
                    Some(ci) => {
                        proof {
                            lemma_idx_of_props(self.tokens(), contract_addr@);
                        }
                        let suffix = tail_from(key, bp.len());
                        match humanize(&suffix) {
                            Err(e) => Envelope::Malformed {
                                error: String::from_str("Parsing query request: ").concat(
                                    e.as_str(),
                                ),
                                request: copy_bytes(key),
                            },
                            Ok(h) => {
                                let inner = &self.token_querier.balances[ci].1;
                                match find_idx(inner, &h) {
                                    Some(j) => {
                                        proof {
                                            lemma_idx_of_props(inner@, h@);
                                        }
                                        let amt = inner[j].1;
                                        Envelope::Answer(InnerResult::Success(encode_uint(amt)))
                                    },
                                    None => Envelope::Answer(
                                        InnerResult::Failure(String::from_str("Balance not found")),
                                    ),
                                }
                            },
                        }
                    },
                }
            } else {
                Envelope::Unimplemented {
                    detail: String::from_str("raw storage query not simulated for this key"),
                }
            }
        }
    }

    /// Answer a decoded token sub-query against the token table.  This is
    /// the whole of the contract-call logic once the payload is decoded, so
    /// a caller that decodes payloads elsewhere can exercise it directly.
    pub fn handle_token_query(&self, contract_addr: &String, token_query: &TokenQuery) -> (r:
        Envelope)
        ensures
            handled_token(self, contract_addr@, token_query@, r),
    {
        match token_query {
            TokenQuery::TokenInfo => {
                match find_idx(&self.token_querier.balances, contract_addr) {
                    None => {
                        proof {
                            lemma_idx_of_props(self.tokens(), contract_addr@);
                        }
                        Envelope::Answer(
                            InnerResult::Failure(
                                String::from_str("No balance info exists for the contract ")
                                    .concat(contract_addr.as_str()),
                            ),
                        )
                    },
                    Some(ci) => {
                        proof {
                            lemma_idx_of_props(self.tokens(), contract_addr@);
                        }
                        let inner = &self.token_querier.balances[ci].1;
                        let mut total: u128 = 0;
                        let mut overflow = false;
                        let mut j: usize = 0;
                        while j < inner.len()
                            invariant
                                j <= inner@.len(),
                                !overflow ==> total == sum_amounts(inner@.subrange(0, j as int)),
                                overflow ==> sum_amounts(inner@.subrange(0, j as int))
                                    > u128::MAX,
                            decreases inner@.len() - j,
                        {
                            let a = inner[j].1;
                            proof {
                                assert(inner@.subrange(0, j + 1 as int).drop_last()
                                    =~= inner@.subrange(0, j as int));
                                assert(inner@.subrange(0, j + 1 as int).last()
                                    == inner@[j as int]);
                            }
                            if !overflow {
                                if total <= u128::MAX - a {
                                    total = total + a;
                                } else {
                                    overflow = true;
                                }
                            }
                            j = j + 1;
                        }
                        proof {
                            assert(inner@.subrange(0, inner@.len() as int) =~= inner@);
                        }
                        if overflow {
                            Envelope::Fatal {
                                detail: String::from_str(
                                    "token total supply overflows the amount range",
                                ),
                            }
                        } else {
                            Envelope::Answer(
                                InnerResult::Success(
                                    encode_token_info("bluna", "BLUNA", 6, total, "hub", None),
                                ),
                            )
                        }
                    },
                }
            },
            TokenQuery::Balance { address } => {
                match find_idx(&self.token_querier.balances, contract_addr) {
                    None => {
                        proof {
                            lemma_idx_of_props(self.tokens(), contract_addr@);
                        }
                        Envelope::Answer(
                            InnerResult::Failure(
                                String::from_str("No balance info exists for the contract ")
                                    .concat(contract_addr.as_str()),
                            ),
                        )
                    },
                    Some(ci) => {
                        proof {
                            lemma_idx_of_props(self.tokens(), contract_addr@);
                        }
                        let inner = &self.token_querier.balances[ci].1;
                        let amt = match find_idx(inner, address) {
                            Some(j) => {
                                proof {
                                    lemma_idx_of_props(inner@, address@);
                                }
                                inner[j].1
                            },
                            None => 0,
                        };
                        Envelope::Answer(InnerResult::Success(encode_cw20_balance(amt)))
                    },
                }
            },
            TokenQuery::Unsupported => Envelope::Fatal {
                detail: String::from_str("token query shape declared unreachable by the simulator"),
            },
        }
    }

    /// Answer a single-denomination balance query: fixed rules on their
    /// exact account and denomination first, then the seeded table.
    fn handle_bank_balance(&self, address: &String, denom: &String) -> (r: Envelope)
        ensures
            handled_bank(self, address@, denom@, r),
    {
        let mock = String::from_str(mock_contract_addr());
        let uluna = String::from_str("uluna");
        if *address == mock && *denom == uluna {
            self.native_lookup(&mock)
        } else {
            let reward = String::from_str("reward");
            let uusd = String::from_str("uusd");
            if *address == reward && *denom == uusd {
                Envelope::Answer(InnerResult::Success(encode_bank_balance(&uusd, 2000)))
            } else {
                self.native_lookup(address)
            }
        }
    }

    /// Answer an all-balances query for the two reserved accounts; every
    /// other account is a declared refusal.
    fn handle_all_balances(&self, address: &String) -> (r: Envelope)
        ensures
            handled_all(address@, r),
    {
        let reward = String::from_str("reward");
        let mock = String::from_str(mock_contract_addr());
        if *address == reward || *address == mock {
            let uluna = String::from_str("uluna");
            Envelope::Answer(InnerResult::Success(encode_all_balances_one(&uluna, 1000)))
        } else {
            Envelope::Unimplemented {
                detail: String::from_str(
                    "all balances query only simulated for the reserved accounts",
                ),
            }
        }
    }

    /// Route a classified query to its fixture lookup and encode the answer.
    pub fn handle_query(&self, request: &Query) -> (r: Envelope)
        ensures
            handled(self, request@, r),
    {
        match request {
            Query::RawRead { contract_addr, key } => self.handle_raw(contract_addr, key),
            Query::SmartCall { contract_addr, msg } => {
                match decode_token_query(msg) {
                    Ok(tq) => self.handle_token_query(contract_addr, &tq),
                    Err(e) => Envelope::Malformed {
                        error: String::from_str("Parsing query request: ").concat(e.as_str()),
                        request: copy_bytes(msg),
                    },
                }
            },
            Query::BalanceOf { address, denom } => self.handle_bank_balance(address, denom),
            Query::AllBalances { address } => self.handle_all_balances(address),
            Query::Other { request: bin } => query_base(&self.base, bin),
        }
    }

    /// The raw entry point: classify the request buffer and dispatch it, or
    /// report it malformed, echoing the offending bytes.
    pub fn raw_query(&self, bin_request: &[u8]) -> (r: Envelope)
        ensures
            raw_handled(self, bin_request@, r),
    {
        match decode_query(bin_request) {
            Ok(q) => self.handle_query(&q),
            Err(e) => Envelope::Malformed {
                error: String::from_str("Parsing query request: ").concat(e.as_str()),
                request: vstd::slice::slice_to_vec(bin_request),
            },
        }
    }
}

} // verus!
