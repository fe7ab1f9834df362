//! The data model: query variants, the response envelope, and plain-value
//! forms of the service's currency and configuration records.

use vstd::prelude::*;

verus! {

/// A native-currency balance: a denomination and how much of it is held.
pub struct Coin {
    pub denom: String,
    pub amount: u128,
}

impl View for Coin {
    type V = (Seq<char>, u128);

    open spec fn view(&self) -> (Seq<char>, u128) {
        (self.denom@, self.amount)
    }
}

/// A decoded query request.  Exactly one variant is active per request; the
/// tag is derived structurally from the decoded shape, never guessed.
pub enum Query {
    /// A direct storage-slot read on a contract.
    RawRead { contract_addr: String, key: Vec<u8> },
    /// A contract call whose payload itself decodes to a nested sub-query.
    SmartCall { contract_addr: String, msg: Vec<u8> },
    /// A bank-style balance query for one denomination.
    BalanceOf { address: String, denom: String },
    /// A bank-style query for every balance an account holds.
    AllBalances { address: String },
    /// Any other well-formed request; answered by the generic base handler.
    Other { request: Vec<u8> },
}

/// The mathematical form of a decoded query: each identifier as its
/// character sequence and each payload as its byte sequence.
pub enum QueryV {
    RawRead { contract_addr: Seq<char>, key: Seq<u8> },
    SmartCall { contract_addr: Seq<char>, msg: Seq<u8> },
    BalanceOf { address: Seq<char>, denom: Seq<char> },
    AllBalances { address: Seq<char> },
    Other { request: Seq<u8> },
}

impl View for Query {
    type V = QueryV;

    open spec fn view(&self) -> QueryV {
        match self {
            Query::RawRead { contract_addr, key } => QueryV::RawRead {
                contract_addr: contract_addr@,
                key: key@,
            },
            Query::SmartCall { contract_addr, msg } => QueryV::SmartCall {
                contract_addr: contract_addr@,
                msg: msg@,
            },
            Query::BalanceOf { address, denom } => QueryV::BalanceOf {
                address: address@,
                denom: denom@,
            },
            Query::AllBalances { address } => QueryV::AllBalances { address: address@ },
            Query::Other { request } => QueryV::Other { request: request@ },
        }
    }
}

/// The nested sub-query carried by a `SmartCall` payload.  Only two members
/// are simulated; every other shape is declared unreachable by the protocol.
pub enum TokenQuery {
    /// Token metadata: name, symbol, decimals, and the derived total supply.
    TokenInfo,
    /// The token balance of one holder.
    Balance { address: String },
    /// A structurally valid sub-query this simulator does not support.
    Unsupported,
}

/// The mathematical form of a decoded token sub-query.
pub enum TokenQueryV {
    TokenInfo,
    Balance { address: Seq<char> },
    Unsupported,
}

impl View for TokenQuery {
    type V = TokenQueryV;

    open spec fn view(&self) -> TokenQueryV {
        match self {
            TokenQuery::TokenInfo => TokenQueryV::TokenInfo,
            TokenQuery::Balance { address } => TokenQueryV::Balance { address: address@ },
            TokenQuery::Unsupported => TokenQueryV::Unsupported,
        }
    }
}

/// The application-level (inner) layer of a response: either an encoded
/// payload, or a descriptive "no fixture matched" failure.
pub enum InnerResult {
    Success(Vec<u8>),
    Failure(String),
}

/// The two-layer response envelope.  `Answer` is the transport-level success
/// case and carries the inner layer; the other variants are transport-level
/// failures.  `Unimplemented` marks a query shape this simulator deliberately
/// does not simulate, and `Fatal` a shape the protocol declares unreachable;
/// both are surfaced as values so tests observe them instead of crashing.
pub enum Envelope {
    Answer(InnerResult),
    Malformed { error: String, request: Vec<u8> },
    Unimplemented { detail: String },
    Fatal { detail: String },
}

/// The simulated contract configuration record.  Address references are held
/// as canonical address bytes.
pub struct ContractConfig {
    pub token_contract_registered: bool,
    pub token_contract: Option<Vec<u8>>,
    pub protocol_fee_collector: Option<Vec<u8>>,
    pub rewards_contract: Option<Vec<u8>>,
}

} // verus!
