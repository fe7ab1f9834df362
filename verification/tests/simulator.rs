//! End-to-end tests: the simulator is driven through real encoded requests
//! and its answers are compared against the codec's own encodings.

use cosmwasm_std::testing::MockApi;
use cosmwasm_std::{
    to_binary, to_vec, AllBalanceResponse, Api, BalanceResponse, BankQuery, Binary, Coin, Empty,
    QueryRequest, StakingQuery, Uint128, WasmQuery,
};
use cosmwasm_storage::to_length_prefixed;
use cw20::{BalanceResponse as Cw20BalanceResponse, Cw20QueryMsg};

use mock_querier::querier::{mock_contract_addr, BaseHandler, WasmMockQuerier};
use mock_querier::types::{Envelope, InnerResult, Query, TokenQuery};

fn new_simulator() -> WasmMockQuerier {
    let coins = vec![mock_querier::types::Coin {
        denom: "uluna".to_string(),
        amount: 1000,
    }];
    WasmMockQuerier::new(BaseHandler::new(mock_contract_addr(), &coins))
}

fn seed_tokens(sim: &mut WasmMockQuerier, contract: &str, holders: &[(&str, u128)]) {
    let inner: Vec<(String, u128)> = holders
        .iter()
        .map(|(h, a)| (h.to_string(), *a))
        .collect();
    let seed = vec![(contract.to_string(), inner)];
    sim.with_token_balances(&seed);
}

fn success_payload(envelope: Envelope) -> Vec<u8> {
    match envelope {
        Envelope::Answer(InnerResult::Success(p)) => p,
        Envelope::Answer(InnerResult::Failure(m)) => panic!("inner failure: {}", m),
        Envelope::Malformed { error, .. } => panic!("malformed: {}", error),
        Envelope::Unimplemented { detail } => panic!("unimplemented: {}", detail),
        Envelope::Fatal { detail } => panic!("fatal: {}", detail),
    }
}

fn smart_call_bytes(contract: &str, msg: &Cw20QueryMsg) -> Vec<u8> {
    let request: QueryRequest<Empty> = QueryRequest::Wasm(WasmQuery::Smart {
        contract_addr: contract.to_string(),
        msg: to_binary(msg).unwrap(),
    });
    to_vec(&request).unwrap()
}

#[test]
fn smart_balance_of_seeded_holder_is_exact() {
    let mut sim = new_simulator();
    seed_tokens(&mut sim, "tokenX", &[("alice", 100), ("bob", 300)]);
    let bin = smart_call_bytes(
        "tokenX",
        &Cw20QueryMsg::Balance {
            address: "bob".to_string(),
        },
    );
    let payload = success_payload(sim.raw_query(&bin));
    let expected = to_binary(&Cw20BalanceResponse {
        balance: Uint128::new(300),
    })
    .unwrap();
    assert_eq!(payload, expected.0);
    assert_eq!(String::from_utf8(payload).unwrap(), "{\"balance\":\"300\"}");
}

#[test]
fn smart_balance_of_absent_holder_is_zero_not_error() {
    let mut sim = new_simulator();
    seed_tokens(&mut sim, "contractX", &[("alice", 100), ("bob", 300)]);
    let bin = smart_call_bytes(
        "contractX",
        &Cw20QueryMsg::Balance {
            address: "carol".to_string(),
        },
    );
    let payload = success_payload(sim.raw_query(&bin));
    let parsed: Cw20BalanceResponse = cosmwasm_std::from_slice(&payload).unwrap();
    assert_eq!(parsed.balance, Uint128::zero());
}

#[test]
fn smart_balance_of_unknown_contract_is_inner_failure() {
    let sim = new_simulator();
    let bin = smart_call_bytes(
        "ghost",
        &Cw20QueryMsg::Balance {
            address: "alice".to_string(),
        },
    );
    match sim.raw_query(&bin) {
        Envelope::Answer(InnerResult::Failure(m)) => {
            assert_eq!(m, "No balance info exists for the contract ghost");
        }
        _ => panic!("expected an inner failure"),
    }
}

#[test]
fn token_info_sums_all_holder_amounts() {
    let mut sim = new_simulator();
    seed_tokens(&mut sim, "contractX", &[("alice", 100), ("bob", 300)]);
    let bin = smart_call_bytes("contractX", &Cw20QueryMsg::TokenInfo {});
    let payload = success_payload(sim.raw_query(&bin));
    let parsed: cw20_base::state::TokenInfo = cosmwasm_std::from_slice(&payload).unwrap();
    assert_eq!(parsed.name, "bluna");
    assert_eq!(parsed.symbol, "BLUNA");
    assert_eq!(parsed.decimals, 6);
    assert_eq!(parsed.total_supply, Uint128::new(400));
    let mint = parsed.mint.unwrap();
    assert_eq!(mint.minter.as_str(), "hub");
    assert_eq!(mint.cap, None);
}

#[test]
fn token_info_with_zero_holders_has_zero_supply() {
    let mut sim = new_simulator();
    seed_tokens(&mut sim, "contractX", &[]);
    let bin = smart_call_bytes("contractX", &Cw20QueryMsg::TokenInfo {});
    let payload = success_payload(sim.raw_query(&bin));
    let parsed: cw20_base::state::TokenInfo = cosmwasm_std::from_slice(&payload).unwrap();
    assert_eq!(parsed.total_supply, Uint128::zero());
}

#[test]
fn token_info_last_write_wins_for_duplicate_holders() {
    let mut sim = new_simulator();
    seed_tokens(&mut sim, "contractX", &[("alice", 100), ("alice", 250)]);
    let bin = smart_call_bytes("contractX", &Cw20QueryMsg::TokenInfo {});
    let payload = success_payload(sim.raw_query(&bin));
    let parsed: cw20_base::state::TokenInfo = cosmwasm_std::from_slice(&payload).unwrap();
    assert_eq!(parsed.total_supply, Uint128::new(250));
}

#[test]
fn unsupported_token_query_is_fatal_not_a_crash() {
    let mut sim = new_simulator();
    seed_tokens(&mut sim, "contractX", &[("alice", 100)]);
    let bin = smart_call_bytes("contractX", &Cw20QueryMsg::Minter {});
    match sim.raw_query(&bin) {
        Envelope::Fatal { .. } => {}
        _ => panic!("expected the fatal variant"),
    }
}

#[test]
fn undecodable_smart_payload_is_malformed() {
    let sim = new_simulator();
    let msg = b"not json at all".to_vec();
    let query = Query::SmartCall {
        contract_addr: "contractX".to_string(),
        msg,
    };
    match sim.handle_query(&query) {
        Envelope::Malformed { error, .. } => {
            assert!(error.starts_with("Parsing query request: "));
        }
        _ => panic!("expected a malformed request"),
    }
}

#[test]
fn raw_read_round_trips_with_smart_balance_of() {
    let mut sim = new_simulator();
    seed_tokens(&mut sim, "contractX", &[("alice", 100), ("bob", 300)]);

    let api = MockApi::default();
    let canon = api.addr_canonicalize("alice").unwrap();
    let mut key = to_length_prefixed(b"balance");
    key.extend_from_slice(canon.as_slice());
    let raw_request: QueryRequest<Empty> = QueryRequest::Wasm(WasmQuery::Raw {
        contract_addr: "contractX".to_string(),
        key: Binary(key),
    });
    let raw_payload = success_payload(sim.raw_query(&to_vec(&raw_request).unwrap()));
    let raw_amount: Uint128 = cosmwasm_std::from_slice(&raw_payload).unwrap();

    let smart_bin = smart_call_bytes(
        "contractX",
        &Cw20QueryMsg::Balance {
            address: "alice".to_string(),
        },
    );
    let smart_payload = success_payload(sim.raw_query(&smart_bin));
    let parsed: Cw20BalanceResponse = cosmwasm_std::from_slice(&smart_payload).unwrap();

    assert_eq!(raw_amount, Uint128::new(100));
    assert_eq!(parsed.balance, raw_amount);
}

#[test]
fn raw_read_balance_of_unseeded_holder_is_inner_failure() {
    let mut sim = new_simulator();
    seed_tokens(&mut sim, "contractX", &[("alice", 100)]);
    let api = MockApi::default();
    let canon = api.addr_canonicalize("carol").unwrap();
    let mut key = to_length_prefixed(b"balance");
    key.extend_from_slice(canon.as_slice());
    let query = Query::RawRead {
        contract_addr: "contractX".to_string(),
        key,
    };
    match sim.handle_query(&query) {
        Envelope::Answer(InnerResult::Failure(m)) => assert_eq!(m, "Balance not found"),
        _ => panic!("expected an inner failure"),
    }
}

#[test]
fn config_read_succeeds_with_nothing_seeded() {
    let sim = new_simulator();
    let request: QueryRequest<Empty> = QueryRequest::Wasm(WasmQuery::Raw {
        contract_addr: "anything".to_string(),
        key: Binary(to_length_prefixed(b"config")),
    });
    let payload = success_payload(sim.raw_query(&to_vec(&request).unwrap()));

    let api = MockApi::default();
    let token_b64 = Binary(api.addr_canonicalize("token").unwrap().as_slice().to_vec())
        .to_base64();
    let inner_json = format!(
        "{{\"token_contract_registered\":false,\"token_contract\":\"{}\",\"protocol_fee_collector\":null,\"rewards_contract\":null}}",
        token_b64
    );
    let expected = to_binary(&Binary(inner_json.into_bytes())).unwrap();
    assert_eq!(payload, expected.0);
}

#[test]
fn other_raw_keys_are_declared_unsupported() {
    let sim = new_simulator();
    let query = Query::RawRead {
        contract_addr: "contractX".to_string(),
        key: b"parameters".to_vec(),
    };
    match sim.handle_query(&query) {
        Envelope::Unimplemented { .. } => {}
        _ => panic!("expected the unimplemented variant"),
    }
    let short = Query::RawRead {
        contract_addr: "contractX".to_string(),
        key: vec![0, 1],
    };
    match sim.handle_query(&short) {
        Envelope::Unimplemented { .. } => {}
        _ => panic!("expected the unimplemented variant"),
    }
}

#[test]
fn garbage_bytes_yield_outer_error_with_original_bytes() {
    let sim = new_simulator();
    let garbage = b"\x00\x01definitely not a query".to_vec();
    match sim.raw_query(&garbage) {
        Envelope::Malformed { error, request } => {
            assert!(error.starts_with("Parsing query request: "));
            assert_eq!(request, garbage);
        }
        _ => panic!("expected a malformed request"),
    }
}

#[test]
fn reserved_rule_takes_precedence_over_seeded_table() {
    let mut sim = new_simulator();
    let seed = vec![(
        "A".to_string(),
        mock_querier::types::Coin {
            denom: "uluna".to_string(),
            amount: 500,
        },
    )];
    sim.with_native_balances(&seed);
    let request: QueryRequest<Empty> = QueryRequest::Bank(BankQuery::Balance {
        address: "reward".to_string(),
        denom: "uusd".to_string(),
    });
    let payload = success_payload(sim.raw_query(&to_vec(&request).unwrap()));
    let expected = to_binary(&BalanceResponse {
        amount: Coin {
            denom: "uusd".to_string(),
            amount: Uint128::new(2000),
        },
    })
    .unwrap();
    assert_eq!(payload, expected.0);
}

#[test]
fn seeded_native_balance_answers_the_stored_coin() {
    let mut sim = new_simulator();
    let seed = vec![(
        mock_contract_addr().to_string(),
        mock_querier::types::Coin {
            denom: "uluna".to_string(),
            amount: 777,
        },
    )];
    sim.with_native_balances(&seed);
    let request: QueryRequest<Empty> = QueryRequest::Bank(BankQuery::Balance {
        address: mock_contract_addr().to_string(),
        denom: "uluna".to_string(),
    });
    let payload = success_payload(sim.raw_query(&to_vec(&request).unwrap()));
    let parsed: BalanceResponse = cosmwasm_std::from_slice(&payload).unwrap();
    assert_eq!(parsed.amount.denom, "uluna");
    assert_eq!(parsed.amount.amount, Uint128::new(777));
}

#[test]
fn unseeded_native_balance_is_inner_failure() {
    let sim = new_simulator();
    let query = Query::BalanceOf {
        address: mock_contract_addr().to_string(),
        denom: "uluna".to_string(),
    };
    match sim.handle_query(&query) {
        Envelope::Answer(InnerResult::Failure(m)) => assert_eq!(m, "balance not found"),
        _ => panic!("expected an inner failure"),
    }
}

#[test]
fn native_table_replacement_is_wholesale() {
    let mut sim = new_simulator();
    let first = vec![(
        mock_contract_addr().to_string(),
        mock_querier::types::Coin {
            denom: "uluna".to_string(),
            amount: 111,
        },
    )];
    sim.with_native_balances(&first);
    let second = vec![(
        "someone_else".to_string(),
        mock_querier::types::Coin {
            denom: "uusd".to_string(),
            amount: 222,
        },
    )];
    sim.with_native_balances(&second);
    let query = Query::BalanceOf {
        address: mock_contract_addr().to_string(),
        denom: "uluna".to_string(),
    };
    match sim.handle_query(&query) {
        Envelope::Answer(InnerResult::Failure(m)) => assert_eq!(m, "balance not found"),
        _ => panic!("the first seeding must be gone after the second"),
    }
}

#[test]
fn all_balances_is_fixed_for_reserved_accounts() {
    let sim = new_simulator();
    for account in ["reward", mock_contract_addr()] {
        let request: QueryRequest<Empty> = QueryRequest::Bank(BankQuery::AllBalances {
            address: account.to_string(),
        });
        let payload = success_payload(sim.raw_query(&to_vec(&request).unwrap()));
        let expected = to_binary(&AllBalanceResponse {
            amount: vec![Coin {
                denom: "uluna".to_string(),
                amount: Uint128::new(1000),
            }],
        })
        .unwrap();
        assert_eq!(payload, expected.0);
    }
    let other: QueryRequest<Empty> = QueryRequest::Bank(BankQuery::AllBalances {
        address: "someone".to_string(),
    });
    match sim.raw_query(&to_vec(&other).unwrap()) {
        Envelope::Unimplemented { .. } => {}
        _ => panic!("expected the unimplemented variant"),
    }
}

#[test]
fn handle_token_query_matches_raw_pipeline() {
    let mut sim = new_simulator();
    seed_tokens(&mut sim, "contractX", &[("alice", 100)]);
    let direct = sim.handle_token_query(
        &"contractX".to_string(),
        &TokenQuery::Balance {
            address: "alice".to_string(),
        },
    );
    let bin = smart_call_bytes(
        "contractX",
        &Cw20QueryMsg::Balance {
            address: "alice".to_string(),
        },
    );
    let through_bytes = success_payload(sim.raw_query(&bin));
    assert_eq!(success_payload(direct), through_bytes);
}

#[test]
fn length_prefixed_matches_the_storage_crate() {
    assert_eq!(
        mock_querier::keys::length_prefixed(&b"config".to_vec()),
        to_length_prefixed(b"config")
    );
    assert_eq!(
        mock_querier::keys::length_prefixed(&b"balance".to_vec()),
        to_length_prefixed(b"balance")
    );
    assert_eq!(
        mock_querier::keys::length_prefixed(&Vec::new()),
        to_length_prefixed(b"")
    );
}

#[test]
fn token_table_replacement_is_wholesale() {
    let mut sim = new_simulator();
    seed_tokens(&mut sim, "first", &[("alice", 100)]);
    seed_tokens(&mut sim, "second", &[("bob", 5)]);
    let bin = smart_call_bytes("first", &Cw20QueryMsg::TokenInfo {});
    match sim.raw_query(&bin) {
        Envelope::Answer(InnerResult::Failure(m)) => {
            assert_eq!(m, "No balance info exists for the contract first");
        }
        _ => panic!("the first seeding must be gone after the second"),
    }
}

#[test]
fn unspecialized_queries_reach_the_base_handler() {
    let mut sim = new_simulator();
    sim.update_staking("uluna", &[], &[]);
    let request: QueryRequest<Empty> = QueryRequest::Staking(StakingQuery::BondedDenom {});
    let payload = success_payload(sim.raw_query(&to_vec(&request).unwrap()));
    let parsed: cosmwasm_std::BondedDenomResponse = cosmwasm_std::from_slice(&payload).unwrap();
    assert_eq!(parsed.denom, "uluna");
}
