//! Defines the request abstraction used to interact with the Electrum server.
//!
//! This module provides the [`Request`] trait, which describes a type-safe wrapper around an
//! Electrum JSON-RPC method and its parameters, along with the expected response type.
//!
//! Each request type implements [`Request`] by defining:
//! - the JSON-RPC method name and parameter list via [`to_method_and_params`].
//! - an associated [`Response`] type.
//!
//! The module also includes a [`Custom`] request type for dynamically constructed method calls,
//! and the [`Error`] enum for representing failures in request dispatch or response handling.
//!
//! [`to_method_and_params`]: Request::to_method_and_params
//! [`Response`]: Request::Response

use std::borrow::Cow;
use vstd::prelude::*;

use crate::chain::{PublicKey, SecretKey, Transaction, Txid};
use crate::hash_types;
use crate::raw;
use crate::raw::{cow_as_str, cow_clone};
use crate::response;
use crate::text;
use crate::value;
use crate::{
    CowStr, ElectrumScriptHash, ElectrumScriptStatus, MethodAndParams, RawRequest, ResponseError,
    ResponseResult, Value,
};

verus! {

/// A trait representing a typed Electrum JSON-RPC request.
///
/// Typically, each variant of an Electrum method is represented by a distinct type implementing
/// this trait.
pub trait Request: Clone {
    /// The expected response type for this request.
    type Response;

    /// The method name.
    spec fn method_text(&self) -> Seq<char>;

    /// The compact JSON texts of the parameters, in order.
    spec fn param_texts(&self) -> Seq<Seq<char>>;

    /// Converts the request into its method name and parameter list.
    ///
    /// This is used to construct the raw JSON-RPC payload.
    fn to_method_and_params(&self) -> (parts: MethodAndParams)
        ensures
            parts.0@ == self.method_text(),
            value::texts(parts.1@) == self.param_texts(),
    ;
}

/// The compact JSON text of a number.
pub open spec fn number_text(n: int) -> Seq<char> {
    text::decimal(n as nat)
}

impl RawRequest {
    /// Constructs the JSON-RPC request that asks for `req` under the given ID.
    pub fn from_request<Req: Request>(id: u32, req: Req) -> (request: Self)
        ensures
            request@ == raw::raw_view(id, req.method_text(), req.param_texts()),
            request.jsonrpc@ == "2.0"@,
            request.id == id,
            request.method@ == req.method_text(),
            request.params@.len() == req.param_texts().len(),
            forall|i: int|
                0 <= i < request.params@.len() ==> (#[trigger] request.params@[i])@
                    == req.param_texts()[i],
    {
        let (method, params) = req.to_method_and_params();
        proof {
            value::lemma_texts(params@);
        }
        RawRequest::new(id, method, params)
    }
}

impl<Req: Request> From<(u32, Req)> for RawRequest {
    fn from(pair: (u32, Req)) -> (request: Self)
        ensures
            request@ == raw::raw_view(pair.0, pair.1.method_text(), pair.1.param_texts()),
            request.jsonrpc@ == "2.0"@,
            request.id == pair.0,
            request.method@ == pair.1.method_text(),
            request.params@.len() == pair.1.param_texts().len(),
            forall|i: int|
                0 <= i < request.params@.len() ==> (#[trigger] request.params@[i])@
                    == pair.1.param_texts()[i],
    {
        RawRequest::from_request(pair.0, pair.1)
    }
}

impl<Req: Request> vstd::std_specs::convert::FromSpecImpl<(u32, Req)> for RawRequest {
    open spec fn obeys_from_spec() -> bool {
        false
    }

    open spec fn from_spec(pair: (u32, Req)) -> Self {
        arbitrary()
    }
}

/// A request for a block header at a specific height, without an inclusion proof.
///
/// This corresponds to the `"blockchain.block.header"` Electrum RPC method. It returns only the
/// serialized block header at the specified height.
///
/// If a Merkle proof to a checkpoint is desired - e.g., to verify inclusion relative to a known tip
/// without downloading intermediate headers - use [`HeaderWithProof`] instead.
///
/// See: <https://electrum-protocol.readthedocs.io/en/latest/protocol-methods.html#blockchain-block-header>
#[derive(Debug, Clone, Copy, PartialEq, Eq, Hash)]
pub struct Header {
    /// The height of the block to fetch.
    pub height: u32,
}

impl Request for Header {
    type Response = response::HeaderResp;

    open spec fn method_text(&self) -> Seq<char> {
        "blockchain.block.header"@
    }

    open spec fn param_texts(&self) -> Seq<Seq<char>> {
        seq![number_text(self.height as int)]
    }

    fn to_method_and_params(&self) -> (parts: MethodAndParams)
        ensures
            parts.0@ == "blockchain.block.header"@,
            parts.1@.len() == 1,
            parts.1@[0]@ == text::decimal(self.height as nat),
    {
        let params = vec![Value::number(self.height as u64)];
        proof {
            value::lemma_texts(params@);
        }
        assert(value::texts(params@) =~= self.param_texts());
        (Cow::Borrowed("blockchain.block.header"), params)
    }
}

/// A request for a block header along with a Merkle proof to a specified checkpoint.
///
/// This utilizes the `"blockchain.block.header"` Electrum RPC method with a non-zero `cp_height`
/// parameter. When `cp_height` is provided, the server returns:
///
/// - The block header at the specified `height`.
/// - A Merkle branch (`branch`) connecting that header to the root at `cp_height`.
/// - The Merkle root (`root`) of all headers up to and including `cp_height`.
///
/// This mechanism allows clients to verify the inclusion of a specific header in the blockchain
/// without downloading the entire header chain up to the checkpoint. It's particularly useful for
/// lightweight clients aiming to minimize bandwidth usage.
///
/// If no proof is required, consider using the [`Header`] type instead.
///
/// See: <https://electrum-protocol.readthedocs.io/en/latest/protocol-methods.html#blockchain-block-header>
#[derive(Debug, Clone, Copy, PartialEq, Eq, Hash)]
pub struct HeaderWithProof {
    /// The height of the block whose header is being requested.
    pub height: u32,
    /// The checkpoint height used to generate the Merkle proof. Must be greater than or equal to
    /// `height`.
    pub cp_height: u32,
}

impl Request for HeaderWithProof {
    type Response = response::HeaderWithProofResp;

    open spec fn method_text(&self) -> Seq<char> {
        "blockchain.block.header"@
    }

    open spec fn param_texts(&self) -> Seq<Seq<char>> {
        seq![number_text(self.height as int), number_text(self.cp_height as int)]
    }

    fn to_method_and_params(&self) -> (parts: MethodAndParams)
        ensures
            parts.0@ == "blockchain.block.header"@,
            parts.1@.len() == 2,
            parts.1@[0]@ == text::decimal(self.height as nat),
            parts.1@[1]@ == text::decimal(self.cp_height as nat),
    {
        let params = vec![Value::number(self.height as u64), Value::number(self.cp_height as u64)];
        proof {
            value::lemma_texts(params@);
        }
        assert(value::texts(params@) =~= self.param_texts());
        (Cow::Borrowed("blockchain.block.header"), params)
    }
}

/// A request for a sequence of block headers starting from a given height.
///
/// This corresponds to the `"blockchain.block.headers"` Electrum RPC method. It allows clients to
/// fetch a batch of headers, which is useful for syncing or verifying large sections of the chain.
///
/// Most Electrum servers impose a maximum `count` of 2016 headers per request (one difficulty
/// period).
///
/// See: <https://electrum-protocol.readthedocs.io/en/latest/protocol-methods.html#blockchain-block-headers>
#[derive(Debug, Clone, Copy, PartialEq, Eq, Hash)]
pub struct Headers {
    /// The height of the first block header to fetch.
    pub start_height: u32,
    /// The number of consecutive headers to retrieve.
    pub count: usize,
}

impl Request for Headers {
    type Response = response::HeadersResp;

    open spec fn method_text(&self) -> Seq<char> {
        "blockchain.block.headers"@
    }

    open spec fn param_texts(&self) -> Seq<Seq<char>> {
        seq![number_text(self.start_height as int), number_text(self.count as int)]
    }

    fn to_method_and_params(&self) -> (parts: MethodAndParams)
        ensures
            parts.0@ == "blockchain.block.headers"@,
            parts.1@.len() == 2,
            parts.1@[0]@ == text::decimal(self.start_height as nat),
            parts.1@[1]@ == text::decimal(self.count as nat),
    {
        let params = vec![
            Value::number(self.start_height as u64),
            Value::number(self.count as u64),
        ];
        proof {
            value::lemma_texts(params@);
        }
        assert(value::texts(params@) =~= self.param_texts());
        (Cow::Borrowed("blockchain.block.headers"), params)
    }
}

/// A request for a sequence of block headers along with a Merkle inclusion proof to a checkpoint.
///
/// This corresponds to the `"blockchain.block.headers"` Electrum RPC method, with a `cp_height`
/// parameter. The server responds with a batch of headers, plus a Merkle proof connecting them to
/// a known checkpoint height.
///
/// This is useful for verifying multiple headers without downloading the full intermediate chain.
///
/// Most Electrum servers cap the maximum `count` at 2016 headers per request.
///
/// See: <https://electrum-protocol.readthedocs.io/en/latest/protocol-methods.html#blockchain-block-headers>
#[derive(Debug, Clone, Copy, PartialEq, Eq, Hash)]
pub struct HeadersWithCheckpoint {
    /// The height of the first block header to fetch.
    pub start_height: u32,
    /// The number of consecutive headers to retrieve (typically capped at 2016).
    pub count: usize,
    /// The checkpoint height used to generate the inclusion proof.
    pub cp_height: u32,
}

impl Request for HeadersWithCheckpoint {
    type Response = response::HeadersWithCheckpointResp;

    open spec fn method_text(&self) -> Seq<char> {
        "blockchain.block.headers"@
    }

    open spec fn param_texts(&self) -> Seq<Seq<char>> {
        seq![
            number_text(self.start_height as int),
            number_text(self.count as int),
            number_text(self.cp_height as int),
        ]
    }

    fn to_method_and_params(&self) -> (parts: MethodAndParams)
        ensures
            parts.0@ == "blockchain.block.headers"@,
            parts.1@.len() == 3,
            parts.1@[0]@ == text::decimal(self.start_height as nat),
            parts.1@[1]@ == text::decimal(self.count as nat),
            parts.1@[2]@ == text::decimal(self.cp_height as nat),
    {
        let params = vec![
            Value::number(self.start_height as u64),
            Value::number(self.count as u64),
            Value::number(self.cp_height as u64),
        ];
        proof {
            value::lemma_texts(params@);
        }
        assert(value::texts(params@) =~= self.param_texts());
        (Cow::Borrowed("blockchain.block.headers"), params)
    }
}

/// A request for an estimated fee rate needed to confirm a transaction within a target number of
/// blocks.
///
/// This corresponds to the `"blockchain.estimatefee"` Electrum RPC method. It returns the estimated
/// fee rate (in BTC per kilobyte) required to be included within the specified number of blocks.
///
/// See: <https://electrum-protocol.readthedocs.io/en/latest/protocol-methods.html#blockchain-estimatefee>
#[derive(Debug, Clone, Copy, PartialEq, Eq, Hash)]
pub struct EstimateFee {
    /// The number of blocks to target for confirmation.
    pub number: usize,
}

impl Request for EstimateFee {
    type Response = response::EstimateFeeResp;

    open spec fn method_text(&self) -> Seq<char> {
        "blockchain.estimatefee"@
    }

    open spec fn param_texts(&self) -> Seq<Seq<char>> {
        seq![number_text(self.number as int)]
    }

    fn to_method_and_params(&self) -> (parts: MethodAndParams)
        ensures
            parts.0@ == "blockchain.estimatefee"@,
            parts.1@.len() == 1,
            parts.1@[0]@ == text::decimal(self.number as nat),
    {
        let params = vec![Value::number(self.number as u64)];
        proof {
            value::lemma_texts(params@);
        }
        assert(value::texts(params@) =~= self.param_texts());
        (Cow::Borrowed("blockchain.estimatefee"), params)
    }
}

/// A subscription request for receiving notifications about new block headers.
///
/// This corresponds to the `"blockchain.headers.subscribe"` Electrum RPC method. Once subscribed,
/// the server will push a notification whenever a new block is added to the chain tip.
///
/// See: <https://electrum-protocol.readthedocs.io/en/latest/protocol-methods.html#blockchain-headers-subscribe>
#[derive(Debug, Clone, Copy, PartialEq, Eq, Hash)]
pub struct HeadersSubscribe;

impl Request for HeadersSubscribe {
    type Response = response::HeadersSubscribeResp;

    open spec fn method_text(&self) -> Seq<char> {
        "blockchain.headers.subscribe"@
    }

    open spec fn param_texts(&self) -> Seq<Seq<char>> {
        Seq::empty()
    }

    fn to_method_and_params(&self) -> (parts: MethodAndParams)
        ensures
            parts.0@ == "blockchain.headers.subscribe"@,
            parts.1@.len() == 0,
    {
        let params: Vec<Value> = Vec::new();
        proof {
            value::lemma_texts(params@);
        }
        assert(value::texts(params@) =~= self.param_texts());
        (Cow::Borrowed("blockchain.headers.subscribe"), params)
    }
}

/// A request for the minimum fee rate accepted by the Electrum server's mempool.
///
/// This corresponds to the `"server.relayfee"` Electrum RPC method. It returns the minimum
/// fee rate (in BTC per kilobyte) that the server will accept for relaying transactions.
///
/// See: <https://electrum-protocol.readthedocs.io/en/latest/protocol-methods.html#server-relayfee>
#[derive(Debug, Clone, Copy, PartialEq, Eq, Hash)]
pub struct RelayFee;

impl Request for RelayFee {
    type Response = response::RelayFeeResp;

    open spec fn method_text(&self) -> Seq<char> {
        "server.relayfee"@
    }

    open spec fn param_texts(&self) -> Seq<Seq<char>> {
        Seq::empty()
    }

    fn to_method_and_params(&self) -> (parts: MethodAndParams)
        ensures
            parts.0@ == "server.relayfee"@,
            parts.1@.len() == 0,
    {
        let params: Vec<Value> = Vec::new();
        proof {
            value::lemma_texts(params@);
        }
        assert(value::texts(params@) =~= self.param_texts());
        (Cow::Borrowed("server.relayfee"), params)
    }
}

/// A request for the confirmed and unconfirmed balance of a specific script hash.
///
/// This corresponds to the `"blockchain.scripthash.get_balance"` Electrum RPC method. It returns
/// both the confirmed balance (from mined transactions) and unconfirmed balance (from mempool
/// transactions) for the provided script hash.
///
/// See: <https://electrum-protocol.readthedocs.io/en/latest/protocol-methods.html#blockchain-scripthash-get-balance>
#[derive(Debug, Clone, Copy, PartialEq, Eq, Hash)]
pub struct GetBalance {
    /// The script hash to query.
    pub script_hash: ElectrumScriptHash,
}

impl GetBalance {
    /// Constructs a `GetBalance` request from a Bitcoin script by hashing it to a script hash.
    pub fn from_script(script: &[u8]) -> (request: Self)
        ensures
            request.script_hash.bytes@ == hash_types::sha256_digest(script@),
    {
        GetBalance { script_hash: ElectrumScriptHash::new(script) }
    }
}

impl Request for GetBalance {
    type Response = response::GetBalanceResp;

    open spec fn method_text(&self) -> Seq<char> {
        "blockchain.scripthash.get_balance"@
    }

    open spec fn param_texts(&self) -> Seq<Seq<char>> {
        seq![text::json_string(self.script_hash.hex())]
    }

    fn to_method_and_params(&self) -> (parts: MethodAndParams)
        ensures
            parts.0@ == "blockchain.scripthash.get_balance"@,
            parts.1@.len() == 1,
            parts.1@[0]@ == text::json_string(self.script_hash.hex()),
    {
        let params = vec![Value::string(self.script_hash.to_hex().as_str())];
        proof {
            value::lemma_texts(params@);
        }
        assert(value::texts(params@) =~= self.param_texts());
        (Cow::Borrowed("blockchain.scripthash.get_balance"), params)
    }
}

/// A request for the transaction history of a specific script hash.
///
/// This corresponds to the `"blockchain.scripthash.get_history"` Electrum RPC method. It returns a
/// list of confirmed transactions (and their heights) that affect the specified script hash. It
/// does not include unconfirmed transactions.
///
/// See: <https://electrum-protocol.readthedocs.io/en/latest/protocol-methods.html#blockchain-scripthash-get-history>
#[derive(Debug, Clone, Copy, PartialEq, Eq, Hash)]
pub struct GetHistory {
    /// The script hash whose history should be fetched.
    pub script_hash: ElectrumScriptHash,
}

impl GetHistory {
    /// Constructs a `GetHistory` request from a Bitcoin script by hashing it to a script hash.
    pub fn from_script(script: &[u8]) -> (request: Self)
        ensures
            request.script_hash.bytes@ == hash_types::sha256_digest(script@),
    {
        GetHistory { script_hash: ElectrumScriptHash::new(script) }
    }
}

impl Request for GetHistory {
    type Response = Vec<response::Tx>;

    open spec fn method_text(&self) -> Seq<char> {
        "blockchain.scripthash.get_history"@
    }

    open spec fn param_texts(&self) -> Seq<Seq<char>> {
        seq![text::json_string(self.script_hash.hex())]
    }

    fn to_method_and_params(&self) -> (parts: MethodAndParams)
        ensures
            parts.0@ == "blockchain.scripthash.get_history"@,
            parts.1@.len() == 1,
            parts.1@[0]@ == text::json_string(self.script_hash.hex()),
    {
        let params = vec![Value::string(self.script_hash.to_hex().as_str())];
        proof {
            value::lemma_texts(params@);
        }
        assert(value::texts(params@) =~= self.param_texts());
        (Cow::Borrowed("blockchain.scripthash.get_history"), params)
    }
}

/// Resource request for `blockchain.scripthash.get_mempool`.
///
/// Note that `electrs` does not support this endpoint.
#[derive(Debug, Clone, Copy, PartialEq, Eq, Hash)]
pub struct GetMempool {
    /// The script hash to query.
    pub script_hash: ElectrumScriptHash,
}

impl GetMempool {
    /// Constructs a `GetMempool` request from a Bitcoin script by hashing it to a script hash.
    pub fn from_script(script: &[u8]) -> (request: Self)
        ensures
            request.script_hash.bytes@ == hash_types::sha256_digest(script@),
    {
        GetMempool { script_hash: ElectrumScriptHash::new(script) }
    }
}

impl Request for GetMempool {
    type Response = Vec<response::MempoolTx>;

    open spec fn method_text(&self) -> Seq<char> {
        "blockchain.scripthash.get_mempool"@
    }

    open spec fn param_texts(&self) -> Seq<Seq<char>> {
        seq![text::json_string(self.script_hash.hex())]
    }

    fn to_method_and_params(&self) -> (parts: MethodAndParams)
        ensures
            parts.0@ == "blockchain.scripthash.get_mempool"@,
            parts.1@.len() == 1,
            parts.1@[0]@ == text::json_string(self.script_hash.hex()),
    {
        let params = vec![Value::string(self.script_hash.to_hex().as_str())];
        proof {
            value::lemma_texts(params@);
        }
        assert(value::texts(params@) =~= self.param_texts());
        (Cow::Borrowed("blockchain.scripthash.get_mempool"), params)
    }
}

/// A request for the list of unspent outputs associated with a script hash.
///
/// This corresponds to the `"blockchain.scripthash.listunspent"` Electrum RPC method. It returns
/// all UTXOs (unspent transaction outputs) controlled by the specified script hash, including their
/// value, height, and outpoint.
///
/// See: <https://electrum-protocol.readthedocs.io/en/latest/protocol-methods.html#blockchain-scripthash-listunspent>
#[derive(Debug, Clone, Copy, PartialEq, Eq, Hash)]
pub struct ListUnspent {
    /// The script hash to query.
    pub script_hash: ElectrumScriptHash,
}

impl ListUnspent {
    /// Constructs a `ListUnspent` request from a Bitcoin script by hashing it to a script hash.
    pub fn from_script(script: &[u8]) -> (request: Self)
        ensures
            request.script_hash.bytes@ == hash_types::sha256_digest(script@),
    {
        ListUnspent { script_hash: ElectrumScriptHash::new(script) }
    }
}

impl Request for ListUnspent {
    type Response = Vec<response::Utxo>;

    open spec fn method_text(&self) -> Seq<char> {
        "blockchain.scripthash.listunspent"@
    }

    open spec fn param_texts(&self) -> Seq<Seq<char>> {
        seq![text::json_string(self.script_hash.hex())]
    }

    fn to_method_and_params(&self) -> (parts: MethodAndParams)
        ensures
            parts.0@ == "blockchain.scripthash.listunspent"@,
            parts.1@.len() == 1,
            parts.1@[0]@ == text::json_string(self.script_hash.hex()),
    {
        let params = vec![Value::string(self.script_hash.to_hex().as_str())];
        proof {
            value::lemma_texts(params@);
        }
        assert(value::texts(params@) =~= self.param_texts());
        (Cow::Borrowed("blockchain.scripthash.listunspent"), params)
    }
}

/// A subscription request for receiving status updates on a script hash.
///
/// This corresponds to the `"blockchain.scripthash.subscribe"` Electrum RPC method. Once subscribed,
/// the server will notify the client whenever the status of the script hash changes - typically when
/// a new transaction is confirmed or enters the mempool.
///
/// See: <https://electrum-protocol.readthedocs.io/en/latest/protocol-methods.html#blockchain-scripthash-subscribe>
#[derive(Debug, Clone, Copy, PartialEq, Eq, Hash)]
pub struct ScriptHashSubscribe {
    /// The script hash to subscribe to.
    pub script_hash: ElectrumScriptHash,
}

impl ScriptHashSubscribe {
    /// Constructs a `ScriptHashSubscribe` request from a Bitcoin script by hashing it to a script
    /// hash.
    pub fn from_script(script: &[u8]) -> (request: Self)
        ensures
            request.script_hash.bytes@ == hash_types::sha256_digest(script@),
    {
        ScriptHashSubscribe { script_hash: ElectrumScriptHash::new(script) }
    }
}

impl Request for ScriptHashSubscribe {
    type Response = Option<ElectrumScriptStatus>;

    open spec fn method_text(&self) -> Seq<char> {
        "blockchain.scripthash.subscribe"@
    }

    open spec fn param_texts(&self) -> Seq<Seq<char>> {
        seq![text::json_string(self.script_hash.hex())]
    }

    fn to_method_and_params(&self) -> (parts: MethodAndParams)
        ensures
            parts.0@ == "blockchain.scripthash.subscribe"@,
            parts.1@.len() == 1,
            parts.1@[0]@ == text::json_string(self.script_hash.hex()),
    {
        let params = vec![Value::string(self.script_hash.to_hex().as_str())];
        proof {
            value::lemma_texts(params@);
        }
        assert(value::texts(params@) =~= self.param_texts());
        (Cow::Borrowed("blockchain.scripthash.subscribe"), params)
    }
}

/// A request to cancel a previous subscription to a script hash.
///
/// This corresponds to the `"blockchain.scripthash.unsubscribe"` Electrum RPC method. It tells the
/// server to stop sending notifications related to the specified script hash.
///
/// See: <https://electrum-protocol.readthedocs.io/en/latest/protocol-methods.html#blockchain-scripthash-unsubscribe>
#[derive(Debug, Clone, Copy, PartialEq, Eq, Hash)]
pub struct ScriptHashUnsubscribe {
    /// The script hash to unsubscribe from.
    pub script_hash: ElectrumScriptHash,
}

impl ScriptHashUnsubscribe {
    /// Constructs a `ScriptHashUnsubscribe` request from a Bitcoin script by hashing it to a script
    /// hash.
    pub fn from_script(script: &[u8]) -> (request: Self)
        ensures
            request.script_hash.bytes@ == hash_types::sha256_digest(script@),
    {
        ScriptHashUnsubscribe { script_hash: ElectrumScriptHash::new(script) }
    }
}

impl Request for ScriptHashUnsubscribe {
    type Response = bool;

    open spec fn method_text(&self) -> Seq<char> {
        "blockchain.scripthash.unsubscribe"@
    }

    open spec fn param_texts(&self) -> Seq<Seq<char>> {
        seq![text::json_string(self.script_hash.hex())]
    }

    fn to_method_and_params(&self) -> (parts: MethodAndParams)
        ensures
            parts.0@ == "blockchain.scripthash.unsubscribe"@,
            parts.1@.len() == 1,
            parts.1@[0]@ == text::json_string(self.script_hash.hex()),
    {
        let params = vec![Value::string(self.script_hash.to_hex().as_str())];
        proof {
            value::lemma_texts(params@);
        }
        assert(value::texts(params@) =~= self.param_texts());
        (Cow::Borrowed("blockchain.scripthash.unsubscribe"), params)
    }
}

/// A request to broadcast a raw Bitcoin transaction to the network.
///
/// This corresponds to the `"blockchain.transaction.broadcast"` Electrum RPC method, which submits
/// the given transaction to the Electrum server's mempool.
///
/// See: <https://electrum-protocol.readthedocs.io/en/latest/protocol-methods.html#blockchain-transaction-broadcast>
#[derive(Debug, PartialEq, Eq, Hash)]
pub struct BroadcastTx(pub Transaction);

impl Clone for BroadcastTx {
    fn clone(&self) -> (copy: Self)
        ensures
            copy.0@ == self.0@,
    {
        BroadcastTx(self.0.clone())
    }
}

impl BroadcastTx {
    /// The parameters that hand over a transaction with this encoding.
    pub fn params(tx_bytes: &[u8]) -> (params: Vec<Value>)
        ensures
            value::texts(params@) == seq![text::json_string(text::lower_hex(tx_bytes@))],
            params@.len() == 1,
            params@[0]@ == text::json_string(text::lower_hex(tx_bytes@)),
    {
        let params = vec![Value::string(text::to_lower_hex(tx_bytes).as_str())];
        assert(value::texts(params@) =~= seq![text::json_string(text::lower_hex(tx_bytes@))]);
        params
    }
}

impl Request for BroadcastTx {
    type Response = Txid;

    open spec fn method_text(&self) -> Seq<char> {
        "blockchain.transaction.broadcast"@
    }

    open spec fn param_texts(&self) -> Seq<Seq<char>> {
        seq![text::json_string(text::lower_hex(crate::chain::consensus_encoding(self.0@)))]
    }

    fn to_method_and_params(&self) -> (parts: MethodAndParams)
        ensures
            parts.0@ == "blockchain.transaction.broadcast"@,
            parts.1@.len() == 1,
            parts.1@[0]@ == text::json_string(
                text::lower_hex(crate::chain::consensus_encoding(self.0@)),
            ),
    {
        let tx_bytes = self.0.consensus_encode();
        (Cow::Borrowed("blockchain.transaction.broadcast"), Self::params(tx_bytes.as_slice()))
    }
}

/// A request for the raw transaction corresponding to a given transaction ID.
///
/// This corresponds to the `"blockchain.transaction.get"` Electrum RPC method. It returns the full
/// transaction as a serialized hex string, typically used to inspect, rebroadcast, or verify it.
///
/// See: <https://electrum-protocol.readthedocs.io/en/latest/protocol-methods.html#blockchain-transaction-get>
#[derive(Debug, Clone, Copy, PartialEq, Eq, Hash)]
pub struct GetTx {
    /// The transaction ID to fetch.
    pub txid: Txid,
}

impl Request for GetTx {
    type Response = response::FullTx;

    open spec fn method_text(&self) -> Seq<char> {
        "blockchain.transaction.get"@
    }

    open spec fn param_texts(&self) -> Seq<Seq<char>> {
        seq![text::json_string(self.txid.hex())]
    }

    fn to_method_and_params(&self) -> (parts: MethodAndParams)
        ensures
            parts.0@ == "blockchain.transaction.get"@,
            parts.1@.len() == 1,
            parts.1@[0]@ == text::json_string(self.txid.hex()),
    {
        let params = vec![Value::string(self.txid.to_hex().as_str())];
        proof {
            value::lemma_texts(params@);
        }
        assert(value::texts(params@) =~= self.param_texts());
        (Cow::Borrowed("blockchain.transaction.get"), params)
    }
}

/// A request for the Merkle proof of a transaction's inclusion in a specific block.
///
/// This corresponds to the `"blockchain.transaction.get_merkle"` Electrum RPC method. It returns
/// the Merkle branch proving that the transaction is included in the block at the specified height.
///
/// See: <https://electrum-protocol.readthedocs.io/en/latest/protocol-methods.html#blockchain-transaction-get-merkle>
#[derive(Debug, Clone, Copy, PartialEq, Eq, Hash)]
pub struct GetTxMerkle {
    /// The transaction ID to verify.
    pub txid: Txid,
    /// The height of the block that is claimed to contain the transaction.
    pub height: u32,
}

impl Request for GetTxMerkle {
    type Response = response::TxMerkle;

    open spec fn method_text(&self) -> Seq<char> {
        "blockchain.transaction.get_merkle"@
    }

    open spec fn param_texts(&self) -> Seq<Seq<char>> {
        seq![text::json_string(self.txid.hex()), number_text(self.height as int)]
    }

    fn to_method_and_params(&self) -> (parts: MethodAndParams)
        ensures
            parts.0@ == "blockchain.transaction.get_merkle"@,
            parts.1@.len() == 2,
            parts.1@[0]@ == text::json_string(self.txid.hex()),
            parts.1@[1]@ == text::decimal(self.height as nat),
    {
        let params = vec![
            Value::string(self.txid.to_hex().as_str()),
            Value::number(self.height as u64),
        ];
        proof {
            value::lemma_texts(params@);
        }
        assert(value::texts(params@) =~= self.param_texts());
        (Cow::Borrowed("blockchain.transaction.get_merkle"), params)
    }
}

/// A request to retrieve a transaction ID from a block position.
///
/// This corresponds to the `"blockchain.transaction.id_from_pos"` Electrum RPC method. It returns
/// the transaction ID at a given position within a block at the specified height.
///
/// This can be used for enumerating all transactions in a block by querying sequential positions.
///
/// See: <https://electrum-protocol.readthedocs.io/en/latest/protocol-methods.html#blockchain-transaction-id-from-pos>
#[derive(Debug, Clone, Copy, PartialEq, Eq, Hash)]
pub struct GetTxidFromPos {
    /// The height of the block containing the transaction.
    pub height: u32,
    /// The zero-based position of the transaction within the block.
    pub tx_pos: usize,
}

impl Request for GetTxidFromPos {
    type Response = response::TxidFromPos;

    open spec fn method_text(&self) -> Seq<char> {
        "blockchain.transaction.id_from_pos"@
    }

    open spec fn param_texts(&self) -> Seq<Seq<char>> {
        seq![number_text(self.height as int), number_text(self.tx_pos as int)]
    }

    fn to_method_and_params(&self) -> (parts: MethodAndParams)
        ensures
            parts.0@ == "blockchain.transaction.id_from_pos"@,
            parts.1@.len() == 2,
            parts.1@[0]@ == text::decimal(self.height as nat),
            parts.1@[1]@ == text::decimal(self.tx_pos as nat),
    {
        let params = vec![Value::number(self.height as u64), Value::number(self.tx_pos as u64)];
        proof {
            value::lemma_texts(params@);
        }
        assert(value::texts(params@) =~= self.param_texts());
        (Cow::Borrowed("blockchain.transaction.id_from_pos"), params)
    }
}

/// A request for the current mempool fee histogram.
///
/// This corresponds to the `"mempool.get_fee_histogram"` Electrum RPC method. It returns a compact
/// histogram of fee rates (in sat/vB) and the total size of transactions at or above each rate,
/// allowing clients to estimate the mempool's fee landscape.
///
/// See: <https://electrum-protocol.readthedocs.io/en/latest/protocol-methods.html#mempool-get-fee-histogram>
#[derive(Debug, Clone, Copy, PartialEq, Eq, Hash)]
pub struct GetFeeHistogram;

impl Request for GetFeeHistogram {
    type Response = Vec<response::FeePair>;

    open spec fn method_text(&self) -> Seq<char> {
        "mempool.get_fee_histogram"@
    }

    open spec fn param_texts(&self) -> Seq<Seq<char>> {
        Seq::empty()
    }

    fn to_method_and_params(&self) -> (parts: MethodAndParams)
        ensures
            parts.0@ == "mempool.get_fee_histogram"@,
            parts.1@.len() == 0,
    {
        let params: Vec<Value> = Vec::new();
        proof {
            value::lemma_texts(params@);
        }
        assert(value::texts(params@) =~= self.param_texts());
        (Cow::Borrowed("mempool.get_fee_histogram"), params)
    }
}

/// A request for the Electrum server's banner message.
///
/// This corresponds to the `"server.banner"` Electrum RPC method, which returns a server-defined
/// banner string, often used to display terms of service or notices to the user.
///
/// See: <https://electrum-protocol.readthedocs.io/en/latest/protocol-methods.html#server-banner>
#[derive(Debug, Clone, Copy, PartialEq, Eq, Hash)]
pub struct Banner;

impl Request for Banner {
    type Response = String;

    open spec fn method_text(&self) -> Seq<char> {
        "server.banner"@
    }

    open spec fn param_texts(&self) -> Seq<Seq<char>> {
        Seq::empty()
    }

    fn to_method_and_params(&self) -> (parts: MethodAndParams)
        ensures
            parts.0@ == "server.banner"@,
            parts.1@.len() == 0,
    {
        let params: Vec<Value> = Vec::new();
        proof {
            value::lemma_texts(params@);
        }
        assert(value::texts(params@) =~= self.param_texts());
        (Cow::Borrowed("server.banner"), params)
    }
}

/// A request to return a list of features and services supported by the server.
///
/// This corresponds to the `"server.features"` Electrum RPC method.
///
/// See: <https://electrum-protocol.readthedocs.io/en/latest/protocol-methods.html#server-features>
#[derive(Debug, Clone, Copy, PartialEq, Eq, Hash)]
pub struct Features;

impl Request for Features {
    type Response = response::ServerFeatures;

    open spec fn method_text(&self) -> Seq<char> {
        "server.features"@
    }

    open spec fn param_texts(&self) -> Seq<Seq<char>> {
        Seq::empty()
    }

    fn to_method_and_params(&self) -> (parts: MethodAndParams)
        ensures
            parts.0@ == "server.features"@,
            parts.1@.len() == 0,
    {
        let params: Vec<Value> = Vec::new();
        proof {
            value::lemma_texts(params@);
        }
        assert(value::texts(params@) =~= self.param_texts());
        (Cow::Borrowed("server.features"), params)
    }
}

/// A ping request to verify the connection to the Electrum server.
///
/// This corresponds to the `"server.ping"` Electrum RPC method. It has no parameters and returns
/// `null`. It's used to keep the connection alive or measure basic liveness.
///
/// See: <https://electrum-protocol.readthedocs.io/en/latest/protocol-methods.html#server-ping>
#[derive(Debug, Clone, Copy, PartialEq, Eq, Hash)]
pub struct Ping;

impl Request for Ping {
    type Response = ();

    open spec fn method_text(&self) -> Seq<char> {
        "server.ping"@
    }

    open spec fn param_texts(&self) -> Seq<Seq<char>> {
        Seq::empty()
    }

    fn to_method_and_params(&self) -> (parts: MethodAndParams)
        ensures
            parts.0@ == "server.ping"@,
            parts.1@.len() == 0,
    {
        let params: Vec<Value> = Vec::new();
        proof {
            value::lemma_texts(params@);
        }
        assert(value::texts(params@) =~= self.param_texts());
        (Cow::Borrowed("server.ping"), params)
    }
}

/// A request to establish connection with Frigate Electrum client
///
/// This corresponds to the `"server.version"` Frigate Electrum RPC method
///
/// See: https://github.com/sparrowwallet/frigate
#[derive(Debug, PartialEq, Eq, Hash)]
pub struct Version {
    pub client_name: CowStr,
    pub version: CowStr,
}

impl Clone for Version {
    fn clone(&self) -> (copy: Self)
        ensures
            copy == *self,
    {
        Version { client_name: cow_clone(&self.client_name), version: cow_clone(&self.version) }
    }
}

impl Request for Version {
    type Response = Vec<String>;

    open spec fn method_text(&self) -> Seq<char> {
        "server.version"@
    }

    open spec fn param_texts(&self) -> Seq<Seq<char>> {
        seq![text::json_string(self.client_name@), text::json_string(self.version@)]
    }

    fn to_method_and_params(&self) -> (parts: MethodAndParams)
        ensures
            parts.0@ == "server.version"@,
            parts.1@.len() == 2,
            parts.1@[0]@ == text::json_string(self.client_name@),
            parts.1@[1]@ == text::json_string(self.version@),
    {
        let params = vec![
            Value::string(cow_as_str(&self.client_name)),
            Value::string(cow_as_str(&self.version)),
        ];
        proof {
            value::lemma_texts(params@);
        }
        assert(value::texts(params@) =~= self.param_texts());
        (Cow::Borrowed("server.version"), params)
    }
}

/// A request to subscribe to payment outputs belonging to the provided keys
///
/// This corresponds to the `"blockchain.silentpayments.subscribe"` Frigate Electrum RPC method.
/// It returns The silent payment address that has been subscribed.
///
/// See: https://github.com/sparrowwallet/frigate#blockchainsilentpaymentssubscribe
#[derive(Debug, PartialEq, Eq)]
pub struct SpSubscribe {
    pub scan_priv_key: SecretKey,
    pub scan_pub_key: PublicKey,
    pub start_height: Option<u32>,
    pub labels: Option<Vec<u32>>,
}

impl Clone for SpSubscribe {
    fn clone(&self) -> (copy: Self)
        ensures
            copy.scan_priv_key == self.scan_priv_key,
            copy.scan_pub_key == self.scan_pub_key,
            copy.start_height == self.start_height,
            copy.labels is Some <==> self.labels is Some,
            copy.labels matches Some(labels) ==> labels@ == self.labels->0@,
    {
        let labels = match &self.labels {
            Some(labels) => {
                let copy = labels.clone();
                assert(copy@ =~= labels@);
                Some(copy)
            },
            None => None,
        };
        SpSubscribe {
            scan_priv_key: self.scan_priv_key,
            scan_pub_key: self.scan_pub_key,
            start_height: self.start_height,
            labels,
        }
    }
}

impl Request for SpSubscribe {
    type Response = String;

    open spec fn method_text(&self) -> Seq<char> {
        "blockchain.silentpayments.subscribe"@
    }

    open spec fn param_texts(&self) -> Seq<Seq<char>> {
        seq![
            text::json_string(text::lower_hex(self.scan_priv_key.bytes@)),
            text::json_string(text::lower_hex(self.scan_pub_key.bytes@)),
        ] + (match self.start_height {
            Some(height) => seq![number_text(height as int)],
            None => Seq::empty(),
        }) + (match self.labels {
            Some(labels) => seq![value::number_array(labels@)],
            None => Seq::empty(),
        })
    }

    fn to_method_and_params(&self) -> (parts: MethodAndParams)
        ensures
            parts.0@ == "blockchain.silentpayments.subscribe"@,
            parts.1@.len() == 2 + (if self.start_height is Some {
                1int
            } else {
                0
            }) + (if self.labels is Some {
                1int
            } else {
                0
            }),
            parts.1@[0]@ == text::json_string(text::lower_hex(self.scan_priv_key.bytes@)),
            parts.1@[1]@ == text::json_string(text::lower_hex(self.scan_pub_key.bytes@)),
            self.start_height matches Some(height) ==> parts.1@[2]@ == text::decimal(height as nat),
            self.labels matches Some(labels) ==> parts.1@.last()@ == value::number_array(labels@),
    {
        let mut params = vec![
            Value::string(self.scan_priv_key.to_hex().as_str()),
            Value::string(self.scan_pub_key.to_hex().as_str()),
        ];
        if let Some(start_height) = self.start_height {
            params.push(Value::number(start_height as u64));
        }
        if let Some(labels) = &self.labels {
            params.push(Value::numbers(labels.as_slice()));
        }
        proof {
            value::lemma_texts(params@);
        }
        assert(value::texts(params@) =~= self.param_texts());
        (Cow::Borrowed("blockchain.silentpayments.subscribe"), params)
    }
}

/// The parameters of a subscription are the two keys, then the start height if there is one,
/// whatever the labels are, and last the labels if there are any, whatever the start height is.
pub proof fn lemma_sp_subscribe_params(req: SpSubscribe)
    ensures
        req.param_texts().len() == 2 + (if req.start_height is Some {
            1int
        } else {
            0
        }) + (if req.labels is Some {
            1int
        } else {
            0
        }),
        req.param_texts()[0] == text::json_string(text::lower_hex(req.scan_priv_key.bytes@)),
        req.param_texts()[1] == text::json_string(text::lower_hex(req.scan_pub_key.bytes@)),
        req.start_height matches Some(height) ==> req.param_texts()[2] == text::decimal(
            height as nat,
        ),
        req.labels matches Some(labels) ==> req.param_texts().last() == value::number_array(
            labels@,
        ),
{
}

/// A request to unsubscribe to payment outputs belonging to the provided keys
///
/// This corresponds to the `"blockchain.silentpayments.unsubscribe"` Frigate Electrum RPC method.
/// It returns The silent payment address that has been subscribed. This should cancel any scans that
/// may be currently running for this address.
///
/// See: https://github.com/sparrowwallet/frigate#blockchainsilentpaymentsunsubscribe
#[derive(Debug, Clone, Copy, PartialEq, Eq)]
pub struct SpUnSubscribe {
    pub scan_priv_key: SecretKey,
    pub scan_pub_key: PublicKey,
}

impl Request for SpUnSubscribe {
    type Response = String;

    open spec fn method_text(&self) -> Seq<char> {
        "blockchain.silentpayments.unsubscribe"@
    }

    open spec fn param_texts(&self) -> Seq<Seq<char>> {
        seq![
            text::json_string(text::lower_hex(self.scan_priv_key.bytes@)),
            text::json_string(text::lower_hex(self.scan_pub_key.bytes@)),
        ]
    }

    fn to_method_and_params(&self) -> (parts: MethodAndParams)
        ensures
            parts.0@ == "blockchain.silentpayments.unsubscribe"@,
            parts.1@.len() == 2,
            parts.1@[0]@ == text::json_string(text::lower_hex(self.scan_priv_key.bytes@)),
            parts.1@[1]@ == text::json_string(text::lower_hex(self.scan_pub_key.bytes@)),
    {
        let params = vec![
            Value::string(self.scan_priv_key.to_hex().as_str()),
            Value::string(self.scan_pub_key.to_hex().as_str()),
        ];
        proof {
            value::lemma_texts(params@);
        }
        assert(value::texts(params@) =~= self.param_texts());
        (Cow::Borrowed("blockchain.silentpayments.unsubscribe"), params)
    }
}

/// A dynamically constructed request for arbitrary Electrum methods.
///
/// This type takes any method name and parameters without needing a
/// strongly typed wrapper. It is useful for debugging, experimentation, or handling less common
/// server methods.
///
/// The response is returned as a generic [`Value`].
#[derive(Debug, PartialEq, Eq, Hash)]
pub struct Custom {
    /// The JSON-RPC method name to call.
    pub method: CowStr,
    /// The parameters to send with the method call.
    pub params: Vec<Value>,
}

impl Clone for Custom {
    fn clone(&self) -> (copy: Self)
        ensures
            copy.method == self.method,
            copy.params@ == self.params@,
    {
        let params = self.params.clone();
        assert(params@ =~= self.params@);
        Custom { method: cow_clone(&self.method), params }
    }
}

impl Request for Custom {
    type Response = Value;

    open spec fn method_text(&self) -> Seq<char> {
        self.method@
    }

    open spec fn param_texts(&self) -> Seq<Seq<char>> {
        value::texts(self.params@)
    }

    fn to_method_and_params(&self) -> (parts: MethodAndParams)
        ensures
            parts.0@ == self.method@,
            parts.1@.len() == self.params@.len(),
            forall|i: int|
                0 <= i < self.params@.len() ==> (#[trigger] parts.1@[i])@ == self.params@[i]@,
    {
        let params = self.params.clone();
        assert(params@ =~= self.params@);
        (cow_clone(&self.method), params)
    }
}

/// An error that occurred while dispatching or handling a request.
#[derive(Debug)]
pub enum Error<DispatchError> {
    /// The request failed to send or dispatch.
    ///
    /// This wraps a user-defined error type representing transport or queueing failures.
    Dispatch(DispatchError),
    /// The request was canceled before it could complete.
    ///
    /// This may happen if the request was dropped or explicitly aborted before a response arrived.
    Canceled,
    /// The server returned an error response for the request.
    ///
    /// This wraps a deserialized Electrum JSON-RPC error object.
    Response(ResponseError),
}

impl<DispatchError> Error<DispatchError> {
    /// The message that describes the error, where `dispatch` describes a dispatch failure.
    pub fn message(&self, dispatch: &str) -> (message: String)
        ensures
            message@ == (match *self {
                Error::Dispatch(_) => "Failed to dispatch request: "@ + dispatch@,
                Error::Canceled => "Request was canceled before being satisfied."@,
                Error::Response(error) => "Request satisfied with error: "@ + error.text(),
            }),
            *self matches Error::Response(error) ==> message@ == "Request satisfied with error: "@
                + ("Response.error: "@ + error.value()@),
    {
        let mut message = String::new();
        match self {
            Error::Dispatch(_) => {
                message.append("Failed to dispatch request: ");
                message.append(dispatch);
            },
            Error::Canceled => {
                message.append("Request was canceled before being satisfied.");
            },
            Error::Response(error) => {
                message.append("Request satisfied with error: ");
                message.append(error.message().as_str());
            },
        }
        message
    }

    /// The outcome of a dispatched request: what its callback received, or `None` where the
    /// callback was dropped without being called.
    pub fn settle<Resp>(reply: Option<ResponseResult<Resp>>) -> (outcome: Result<Resp, Self>)
        ensures
            outcome == (match reply {
                None => Err(Error::<DispatchError>::Canceled),
                Some(Err(error)) => Err(Error::<DispatchError>::Response(error)),
                Some(Ok(response)) => Ok(response),
            }),
    {
        match reply {
            None => Err(Error::Canceled),
            Some(Err(error)) => Err(Error::Response(error)),
            Some(Ok(response)) => Ok(response),
        }
    }
}

} // verus!
