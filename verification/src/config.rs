//! The simulated contract configuration: a fixed-shape record framed as JSON
//! by the library itself, with only the binary-blob encoding of its address
//! fields taken from the codec.

use vstd::prelude::*;
use vstd::string::StrSliceExecFns;
use vstd::string::StringSliceAdditionalSpecFns;

use crate::codec::{b64_json_of, canon_of, canonicalize, encode_binary, ascii_ident};
use crate::types::ContractConfig;

verus! {

/// The view of an optional canonical-address field.
pub open spec fn opt_view(o: Option<Vec<u8>>) -> Option<Seq<u8>> {
    match o {
        Some(b) => Some(b@),
        None => None,
    }
}

/// The JSON form of an optional canonical-address field: the blob's encoding
/// or the JSON null literal.
pub open spec fn spec_json_opt(o: Option<Seq<u8>>) -> Seq<u8> {
    match o {
        Some(b) => b64_json_of(b),
        None => ("null").spec_bytes(),
    }
}

/// The JSON form of the configuration record, field by field in its fixed
/// order.
pub open spec fn spec_config_json(
    registered: bool,
    token: Option<Seq<u8>>,
    fee: Option<Seq<u8>>,
    rewards: Option<Seq<u8>>,
) -> Seq<u8> {
    ("{\"token_contract_registered\":").spec_bytes() + (
    if registered {
        ("true").spec_bytes()
    } else {
        ("false").spec_bytes()
    }) + (",\"token_contract\":").spec_bytes() + spec_json_opt(token) + (
    ",\"protocol_fee_collector\":").spec_bytes() + spec_json_opt(fee) + (
    ",\"rewards_contract\":").spec_bytes() + spec_json_opt(rewards) + ("}").spec_bytes()
}

/// The JSON form of the default configuration record, the one every
/// configuration read answers with.
pub open spec fn spec_default_config_json() -> Seq<u8> {
    spec_config_json(false, Some(canon_of(("token")@)), None, None)
}

fn append_lit(out: &mut Vec<u8>, lit: &str)
    ensures
        final(out)@ == old(out)@ + lit.spec_bytes(),
{
    let mut t = lit.as_bytes_vec();
    out.append(&mut t);
}

fn append_opt(out: &mut Vec<u8>, o: &Option<Vec<u8>>)
    ensures
        final(out)@ == old(out)@ + spec_json_opt(opt_view(*o)),
{
    match o {
        Some(b) => {
            let mut t = encode_binary(b);
            out.append(&mut t);
        },
        None => {
            append_lit(out, "null");
        },
    }
}

/// Frame the configuration record as JSON.
pub fn config_json(cfg: &ContractConfig) -> (r: Vec<u8>)
    ensures
        r@ == spec_config_json(
            cfg.token_contract_registered,
            opt_view(cfg.token_contract),
            opt_view(cfg.protocol_fee_collector),
            opt_view(cfg.rewards_contract),
        ),
{
    let mut out: Vec<u8> = Vec::new();
    append_lit(&mut out, "{\"token_contract_registered\":");
    if cfg.token_contract_registered {
        append_lit(&mut out, "true");
    } else {
        append_lit(&mut out, "false");
    }
    append_lit(&mut out, ",\"token_contract\":");
    append_opt(&mut out, &cfg.token_contract);
    append_lit(&mut out, ",\"protocol_fee_collector\":");
    append_opt(&mut out, &cfg.protocol_fee_collector);
    append_lit(&mut out, ",\"rewards_contract\":");
    append_opt(&mut out, &cfg.rewards_contract);
    append_lit(&mut out, "}");
    proof {
        assert(out@ =~= spec_config_json(
            cfg.token_contract_registered,
            opt_view(cfg.token_contract),
            opt_view(cfg.protocol_fee_collector),
            opt_view(cfg.rewards_contract),
        ));
    }
    out
}

/// The fixed default configuration: not registered, the reserved token
/// contract's canonical address, and no fee collector or rewards contract.
pub fn default_config() -> (r: ContractConfig)
    ensures
        !r.token_contract_registered,
        r.token_contract matches Some(c) && c@ == canon_of(("token")@),
        r.protocol_fee_collector is None,
        r.rewards_contract is None,
{
    proof {
        reveal_strlit("token");
        assert(("token")@.len() == 5);
        assert forall|i: int| 0 <= i < ("token")@.len() implies 0 < ((#[trigger] ("token")@[i])
            as u32) < 128 by {
            if i == 0 {
                assert(("token")@[0] == 't');
            } else if i == 1 {
                assert(("token")@[1] == 'o');
            } else if i == 2 {
                assert(("token")@[2] == 'k');
            } else if i == 3 {
                assert(("token")@[3] == 'e');
            } else {
                assert(("token")@[4] == 'n');
            }
        }
        assert(ascii_ident(("token")@));
    }
    let canon = canonicalize("token").unwrap();
    ContractConfig {
        token_contract_registered: false,
        token_contract: Some(canon),
        protocol_fee_collector: None,
        rewards_contract: None,
    }
}

} // verus!
