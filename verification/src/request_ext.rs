//! The requests that a server can be asked, and what becomes of them.

use vstd::prelude::*;

use crate::chain::Txid;
use crate::request;
use crate::response;
use crate::{ElectrumScriptStatus, Request, ResponseError, Value};

verus! {

/// A request of any type.
#[derive(Debug, Clone)]
pub enum AnyRequest {
    Header(request::Header),
    HeaderWithProof(request::HeaderWithProof),
    Headers(request::Headers),
    HeadersWithCheckpoint(request::HeadersWithCheckpoint),
    EstimateFee(request::EstimateFee),
    HeadersSubscribe(request::HeadersSubscribe),
    RelayFee(request::RelayFee),
    GetBalance(request::GetBalance),
    GetHistory(request::GetHistory),
    GetMempool(request::GetMempool),
    ListUnspent(request::ListUnspent),
    ScriptHashSubscribe(request::ScriptHashSubscribe),
    ScriptHashUnsubscribe(request::ScriptHashUnsubscribe),
    BroadcastTx(request::BroadcastTx),
    GetTx(request::GetTx),
    GetTxMerkle(request::GetTxMerkle),
    GetTxidFromPos(request::GetTxidFromPos),
    GetFeeHistogram(request::GetFeeHistogram),
    Banner(request::Banner),
    Features(request::Features),
    Ping(request::Ping),
    Version(request::Version),
    SpSubscribe(request::SpSubscribe),
    SpUnSubscribe(request::SpUnSubscribe),
    Custom(request::Custom),
}

/// A successfully handled request and its decoded server response.
///
/// This enum is returned when a request has been fully processed and the server replied
/// with a valid `result`. It contains both the request that was sent and the corresponding
/// response.
///
/// `CompletedRequest` is used by the [`Event::Response`] variant to expose typed
/// request-response pairs to the caller.
///
/// [`Event::Response`]: crate::Event::Response
#[derive(Debug)]
#[allow(inconsistent_fields)]
pub enum CompletedRequest {
    Header { req: request::Header, resp: response::HeaderResp },
    HeaderWithProof { req: request::HeaderWithProof, resp: response::HeaderWithProofResp },
    Headers { req: request::Headers, resp: response::HeadersResp },
    HeadersWithCheckpoint {
        req: request::HeadersWithCheckpoint,
        resp: response::HeadersWithCheckpointResp,
    },
    EstimateFee { req: request::EstimateFee, resp: response::EstimateFeeResp },
    HeadersSubscribe { req: request::HeadersSubscribe, resp: response::HeadersSubscribeResp },
    RelayFee { req: request::RelayFee, resp: response::RelayFeeResp },
    GetBalance { req: request::GetBalance, resp: response::GetBalanceResp },
    GetHistory { req: request::GetHistory, resp: Vec<response::Tx> },
    GetMempool { req: request::GetMempool, resp: Vec<response::MempoolTx> },
    ListUnspent { req: request::ListUnspent, resp: Vec<response::Utxo> },
    ScriptHashSubscribe { req: request::ScriptHashSubscribe, resp: Option<ElectrumScriptStatus> },
    ScriptHashUnsubscribe { req: request::ScriptHashUnsubscribe, resp: bool },
    BroadcastTx { req: request::BroadcastTx, resp: Txid },
    GetTx { req: request::GetTx, resp: response::FullTx },
    GetTxMerkle { req: request::GetTxMerkle, resp: response::TxMerkle },
    GetTxidFromPos { req: request::GetTxidFromPos, resp: response::TxidFromPos },
    GetFeeHistogram { req: request::GetFeeHistogram, resp: Vec<response::FeePair> },
    Banner { req: request::Banner, resp: String },
    Features { req: request::Features, resp: response::ServerFeatures },
    Ping { req: request::Ping, resp: () },
    Version { req: request::Version, resp: Vec<String> },
    SpSubscribe { req: request::SpSubscribe, resp: String },
    SpUnSubscribe { req: request::SpUnSubscribe, resp: String },
    Custom { req: request::Custom, resp: Value },
}

impl CompletedRequest {
    /// The request that was completed.
    pub open spec fn any(self) -> AnyRequest {
        match self {
            CompletedRequest::Header { req, .. } => AnyRequest::Header(req),
            CompletedRequest::HeaderWithProof { req, .. } => AnyRequest::HeaderWithProof(req),
            CompletedRequest::Headers { req, .. } => AnyRequest::Headers(req),
            CompletedRequest::HeadersWithCheckpoint { req, .. } => {
                AnyRequest::HeadersWithCheckpoint(req)
            },
            CompletedRequest::EstimateFee { req, .. } => AnyRequest::EstimateFee(req),
            CompletedRequest::HeadersSubscribe { req, .. } => AnyRequest::HeadersSubscribe(req),
            CompletedRequest::RelayFee { req, .. } => AnyRequest::RelayFee(req),
            CompletedRequest::GetBalance { req, .. } => AnyRequest::GetBalance(req),
            CompletedRequest::GetHistory { req, .. } => AnyRequest::GetHistory(req),
            CompletedRequest::GetMempool { req, .. } => AnyRequest::GetMempool(req),
            CompletedRequest::ListUnspent { req, .. } => AnyRequest::ListUnspent(req),
            CompletedRequest::ScriptHashSubscribe { req, .. } => {
                AnyRequest::ScriptHashSubscribe(req)
            },
            CompletedRequest::ScriptHashUnsubscribe { req, .. } => {
                AnyRequest::ScriptHashUnsubscribe(req)
            },
            CompletedRequest::BroadcastTx { req, .. } => AnyRequest::BroadcastTx(req),
            CompletedRequest::GetTx { req, .. } => AnyRequest::GetTx(req),
            CompletedRequest::GetTxMerkle { req, .. } => AnyRequest::GetTxMerkle(req),
            CompletedRequest::GetTxidFromPos { req, .. } => AnyRequest::GetTxidFromPos(req),
            CompletedRequest::GetFeeHistogram { req, .. } => AnyRequest::GetFeeHistogram(req),
            CompletedRequest::Banner { req, .. } => AnyRequest::Banner(req),
            CompletedRequest::Features { req, .. } => AnyRequest::Features(req),
            CompletedRequest::Ping { req, .. } => AnyRequest::Ping(req),
            CompletedRequest::Version { req, .. } => AnyRequest::Version(req),
            CompletedRequest::SpSubscribe { req, .. } => AnyRequest::SpSubscribe(req),
            CompletedRequest::SpUnSubscribe { req, .. } => AnyRequest::SpUnSubscribe(req),
            CompletedRequest::Custom { req, .. } => AnyRequest::Custom(req),
        }
    }

    /// Whether a copy completes the same request with the same response, each cloned.
    pub open spec fn cloned_as(self, copy: Self) -> bool {
        match (self, copy) {
            (
                CompletedRequest::Header { req: a, resp: x },
                CompletedRequest::Header { req: b, resp: y },
            ) => cloned(a, b) && cloned(x, y),
            (
                CompletedRequest::HeaderWithProof { req: a, resp: x },
                CompletedRequest::HeaderWithProof { req: b, resp: y },
            ) => cloned(a, b) && cloned(x, y),
            (
                CompletedRequest::Headers { req: a, resp: x },
                CompletedRequest::Headers { req: b, resp: y },
            ) => cloned(a, b) && cloned(x, y),
            (
                CompletedRequest::HeadersWithCheckpoint { req: a, resp: x },
                CompletedRequest::HeadersWithCheckpoint { req: b, resp: y },
            ) => cloned(a, b) && cloned(x, y),
            (
                CompletedRequest::EstimateFee { req: a, resp: x },
                CompletedRequest::EstimateFee { req: b, resp: y },
            ) => cloned(a, b) && cloned(x, y),
            (
                CompletedRequest::HeadersSubscribe { req: a, resp: x },
                CompletedRequest::HeadersSubscribe { req: b, resp: y },
            ) => cloned(a, b) && cloned(x, y),
            (
                CompletedRequest::RelayFee { req: a, resp: x },
                CompletedRequest::RelayFee { req: b, resp: y },
            ) => cloned(a, b) && cloned(x, y),
            (
                CompletedRequest::GetBalance { req: a, resp: x },
                CompletedRequest::GetBalance { req: b, resp: y },
            ) => cloned(a, b) && cloned(x, y),
            (
                CompletedRequest::GetHistory { req: a, resp: x },
                CompletedRequest::GetHistory { req: b, resp: y },
            ) => cloned(a, b) && cloned(x, y),
            (
                CompletedRequest::GetMempool { req: a, resp: x },
                CompletedRequest::GetMempool { req: b, resp: y },
            ) => cloned(a, b) && cloned(x, y),
            (
                CompletedRequest::ListUnspent { req: a, resp: x },
                CompletedRequest::ListUnspent { req: b, resp: y },
            ) => cloned(a, b) && cloned(x, y),
            (
                CompletedRequest::ScriptHashSubscribe { req: a, resp: x },
                CompletedRequest::ScriptHashSubscribe { req: b, resp: y },
            ) => cloned(a, b) && cloned(x, y),
            (
                CompletedRequest::ScriptHashUnsubscribe { req: a, resp: x },
                CompletedRequest::ScriptHashUnsubscribe { req: b, resp: y },
            ) => cloned(a, b) && cloned(x, y),
            (
                CompletedRequest::BroadcastTx { req: a, resp: x },
                CompletedRequest::BroadcastTx { req: b, resp: y },
            ) => cloned(a, b) && cloned(x, y),
            (
                CompletedRequest::GetTx { req: a, resp: x },
                CompletedRequest::GetTx { req: b, resp: y },
            ) => cloned(a, b) && cloned(x, y),
            (
                CompletedRequest::GetTxMerkle { req: a, resp: x },
                CompletedRequest::GetTxMerkle { req: b, resp: y },
            ) => cloned(a, b) && cloned(x, y),
            (
                CompletedRequest::GetTxidFromPos { req: a, resp: x },
                CompletedRequest::GetTxidFromPos { req: b, resp: y },
            ) => cloned(a, b) && cloned(x, y),
            (
                CompletedRequest::GetFeeHistogram { req: a, resp: x },
                CompletedRequest::GetFeeHistogram { req: b, resp: y },
            ) => cloned(a, b) && cloned(x, y),
            (
                CompletedRequest::Banner { req: a, resp: x },
                CompletedRequest::Banner { req: b, resp: y },
            ) => cloned(a, b) && cloned(x, y),
            (
                CompletedRequest::Features { req: a, resp: x },
                CompletedRequest::Features { req: b, resp: y },
            ) => cloned(a, b) && cloned(x, y),
            (
                CompletedRequest::Ping { req: a, .. },
                CompletedRequest::Ping { req: b, .. },
            ) => a == b,
            (
                CompletedRequest::Version { req: a, resp: x },
                CompletedRequest::Version { req: b, resp: y },
            ) => cloned(a, b) && cloned(x, y),
            (
                CompletedRequest::SpSubscribe { req: a, resp: x },
                CompletedRequest::SpSubscribe { req: b, resp: y },
            ) => cloned(a, b) && cloned(x, y),
            (
                CompletedRequest::SpUnSubscribe { req: a, resp: x },
                CompletedRequest::SpUnSubscribe { req: b, resp: y },
            ) => cloned(a, b) && cloned(x, y),
            (
                CompletedRequest::Custom { req: a, resp: x },
                CompletedRequest::Custom { req: b, resp: y },
            ) => cloned(a, b) && cloned(x, y),
            _ => false,
        }
    }
}

impl Clone for CompletedRequest {
    fn clone(&self) -> (copy: Self)
        ensures
            self.cloned_as(copy),
            *self matches CompletedRequest::Header { req: a, resp: x } ==> {
                &&& copy matches CompletedRequest::Header { req: b, resp: y }
                &&& cloned(a, b)
                &&& cloned(x, y)
            },
            *self matches CompletedRequest::HeaderWithProof { req: a, resp: x } ==> {
                &&& copy matches CompletedRequest::HeaderWithProof { req: b, resp: y }
                &&& cloned(a, b)
                &&& cloned(x, y)
            },
            *self matches CompletedRequest::Headers { req: a, resp: x } ==> {
                &&& copy matches CompletedRequest::Headers { req: b, resp: y }
                &&& cloned(a, b)
                &&& cloned(x, y)
            },
            *self matches CompletedRequest::HeadersWithCheckpoint { req: a, resp: x } ==> {
                &&& copy matches CompletedRequest::HeadersWithCheckpoint { req: b, resp: y }
                &&& cloned(a, b)
                &&& cloned(x, y)
            },
            *self matches CompletedRequest::EstimateFee { req: a, resp: x } ==> {
                &&& copy matches CompletedRequest::EstimateFee { req: b, resp: y }
                &&& cloned(a, b)
                &&& cloned(x, y)
            },
            *self matches CompletedRequest::HeadersSubscribe { req: a, resp: x } ==> {
                &&& copy matches CompletedRequest::HeadersSubscribe { req: b, resp: y }
                &&& cloned(a, b)
                &&& cloned(x, y)
            },
            *self matches CompletedRequest::RelayFee { req: a, resp: x } ==> {
                &&& copy matches CompletedRequest::RelayFee { req: b, resp: y }
                &&& cloned(a, b)
                &&& cloned(x, y)
            },
            *self matches CompletedRequest::GetBalance { req: a, resp: x } ==> {
                &&& copy matches CompletedRequest::GetBalance { req: b, resp: y }
                &&& cloned(a, b)
                &&& cloned(x, y)
            },
            *self matches CompletedRequest::GetHistory { req: a, resp: x } ==> {
                &&& copy matches CompletedRequest::GetHistory { req: b, resp: y }
                &&& cloned(a, b)
                &&& cloned(x, y)
            },
            *self matches CompletedRequest::GetMempool { req: a, resp: x } ==> {
                &&& copy matches CompletedRequest::GetMempool { req: b, resp: y }
                &&& cloned(a, b)
                &&& cloned(x, y)
            },
            *self matches CompletedRequest::ListUnspent { req: a, resp: x } ==> {
                &&& copy matches CompletedRequest::ListUnspent { req: b, resp: y }
                &&& cloned(a, b)
                &&& cloned(x, y)
            },
            *self matches CompletedRequest::ScriptHashSubscribe { req: a, resp: x } ==> {
                &&& copy matches CompletedRequest::ScriptHashSubscribe { req: b, resp: y }
                &&& cloned(a, b)
                &&& cloned(x, y)
            },
            *self matches CompletedRequest::ScriptHashUnsubscribe { req: a, resp: x } ==> {
                &&& copy matches CompletedRequest::ScriptHashUnsubscribe { req: b, resp: y }
                &&& cloned(a, b)
                &&& cloned(x, y)
            },
            *self matches CompletedRequest::BroadcastTx { req: a, resp: x } ==> {
                &&& copy matches CompletedRequest::BroadcastTx { req: b, resp: y }
                &&& cloned(a, b)
                &&& cloned(x, y)
            },
            *self matches CompletedRequest::GetTx { req: a, resp: x } ==> {
                &&& copy matches CompletedRequest::GetTx { req: b, resp: y }
                &&& cloned(a, b)
                &&& cloned(x, y)
            },
            *self matches CompletedRequest::GetTxMerkle { req: a, resp: x } ==> {
                &&& copy matches CompletedRequest::GetTxMerkle { req: b, resp: y }
                &&& cloned(a, b)
                &&& cloned(x, y)
            },
            *self matches CompletedRequest::GetTxidFromPos { req: a, resp: x } ==> {
                &&& copy matches CompletedRequest::GetTxidFromPos { req: b, resp: y }
                &&& cloned(a, b)
                &&& cloned(x, y)
            },
            *self matches CompletedRequest::GetFeeHistogram { req: a, resp: x } ==> {
                &&& copy matches CompletedRequest::GetFeeHistogram { req: b, resp: y }
                &&& cloned(a, b)
                &&& cloned(x, y)
            },
            *self matches CompletedRequest::Banner { req: a, resp: x } ==> {
                &&& copy matches CompletedRequest::Banner { req: b, resp: y }
                &&& cloned(a, b)
                &&& cloned(x, y)
            },
            *self matches CompletedRequest::Features { req: a, resp: x } ==> {
                &&& copy matches CompletedRequest::Features { req: b, resp: y }
                &&& cloned(a, b)
                &&& cloned(x, y)
            },
            *self matches CompletedRequest::Ping { req: a, .. } ==> {
                copy matches CompletedRequest::Ping { req: b, .. } && a == b
            },
            *self matches CompletedRequest::Version { req: a, resp: x } ==> {
                &&& copy matches CompletedRequest::Version { req: b, resp: y }
                &&& cloned(a, b)
                &&& cloned(x, y)
            },
            *self matches CompletedRequest::SpSubscribe { req: a, resp: x } ==> {
                &&& copy matches CompletedRequest::SpSubscribe { req: b, resp: y }
                &&& cloned(a, b)
                &&& cloned(x, y)
            },
            *self matches CompletedRequest::SpUnSubscribe { req: a, resp: x } ==> {
                &&& copy matches CompletedRequest::SpUnSubscribe { req: b, resp: y }
                &&& cloned(a, b)
                &&& cloned(x, y)
            },
            *self matches CompletedRequest::Custom { req: a, resp: x } ==> {
                &&& copy matches CompletedRequest::Custom { req: b, resp: y }
                &&& cloned(a, b)
                &&& cloned(x, y)
            },
    {
        match self {
            CompletedRequest::Header { req, resp } => {
                CompletedRequest::Header { req: req.clone(), resp: resp.clone() }
            },
            CompletedRequest::HeaderWithProof { req, resp } => {
                CompletedRequest::HeaderWithProof { req: req.clone(), resp: resp.clone() }
            },
            CompletedRequest::Headers { req, resp } => {
                CompletedRequest::Headers { req: req.clone(), resp: resp.clone() }
            },
            CompletedRequest::HeadersWithCheckpoint { req, resp } => {
                CompletedRequest::HeadersWithCheckpoint { req: req.clone(), resp: resp.clone() }
            },
            CompletedRequest::EstimateFee { req, resp } => {
                CompletedRequest::EstimateFee { req: req.clone(), resp: resp.clone() }
            },
            CompletedRequest::HeadersSubscribe { req, resp } => {
                CompletedRequest::HeadersSubscribe { req: req.clone(), resp: resp.clone() }
            },
            CompletedRequest::RelayFee { req, resp } => {
                CompletedRequest::RelayFee { req: req.clone(), resp: resp.clone() }
            },
            CompletedRequest::GetBalance { req, resp } => {
                CompletedRequest::GetBalance { req: req.clone(), resp: resp.clone() }
            },
            CompletedRequest::GetHistory { req, resp } => {
                CompletedRequest::GetHistory { req: req.clone(), resp: resp.clone() }
            },
            CompletedRequest::GetMempool { req, resp } => {
                CompletedRequest::GetMempool { req: req.clone(), resp: resp.clone() }
            },
            CompletedRequest::ListUnspent { req, resp } => {
                CompletedRequest::ListUnspent { req: req.clone(), resp: resp.clone() }
            },
            CompletedRequest::ScriptHashSubscribe { req, resp } => {
                CompletedRequest::ScriptHashSubscribe { req: req.clone(), resp: resp.clone() }
            },
            CompletedRequest::ScriptHashUnsubscribe { req, resp } => {
                CompletedRequest::ScriptHashUnsubscribe { req: req.clone(), resp: resp.clone() }
            },
            CompletedRequest::BroadcastTx { req, resp } => {
                CompletedRequest::BroadcastTx { req: req.clone(), resp: resp.clone() }
            },
            CompletedRequest::GetTx { req, resp } => {
                CompletedRequest::GetTx { req: req.clone(), resp: resp.clone() }
            },
            CompletedRequest::GetTxMerkle { req, resp } => {
                CompletedRequest::GetTxMerkle { req: req.clone(), resp: resp.clone() }
            },
            CompletedRequest::GetTxidFromPos { req, resp } => {
                CompletedRequest::GetTxidFromPos { req: req.clone(), resp: resp.clone() }
            },
            CompletedRequest::GetFeeHistogram { req, resp } => {
                CompletedRequest::GetFeeHistogram { req: req.clone(), resp: resp.clone() }
            },
            CompletedRequest::Banner { req, resp } => {
                CompletedRequest::Banner { req: req.clone(), resp: resp.clone() }
            },
            CompletedRequest::Features { req, resp } => {
                CompletedRequest::Features { req: req.clone(), resp: resp.clone() }
            },
            CompletedRequest::Ping { req, .. } => CompletedRequest::Ping { req: *req, resp: () },
            CompletedRequest::Version { req, resp } => {
                CompletedRequest::Version { req: req.clone(), resp: resp.clone() }
            },
            CompletedRequest::SpSubscribe { req, resp } => {
                CompletedRequest::SpSubscribe { req: req.clone(), resp: resp.clone() }
            },
            CompletedRequest::SpUnSubscribe { req, resp } => {
                CompletedRequest::SpUnSubscribe { req: req.clone(), resp: resp.clone() }
            },
            CompletedRequest::Custom { req, resp } => {
                CompletedRequest::Custom { req: req.clone(), resp: resp.clone() }
            },
        }
    }
}

/// A request that received an error response from the Electrum server.
///
/// This enum represents a completed request where the server returned a JSON-RPC error
/// instead of a `result`. It contains both the request that was sent and the associated error.
///
/// This is used by the [`Event::ResponseError`] variant to expose server-side failures
/// in a typed manner.
///
/// [`Event::ResponseError`]: crate::Event::ResponseError
#[derive(Debug, Clone)]
#[allow(inconsistent_fields)]
pub enum FailedRequest {
    Header { req: request::Header, error: ResponseError },
    HeaderWithProof { req: request::HeaderWithProof, error: ResponseError },
    Headers { req: request::Headers, error: ResponseError },
    HeadersWithCheckpoint { req: request::HeadersWithCheckpoint, error: ResponseError },
    EstimateFee { req: request::EstimateFee, error: ResponseError },
    HeadersSubscribe { req: request::HeadersSubscribe, error: ResponseError },
    RelayFee { req: request::RelayFee, error: ResponseError },
    GetBalance { req: request::GetBalance, error: ResponseError },
    GetHistory { req: request::GetHistory, error: ResponseError },
    GetMempool { req: request::GetMempool, error: ResponseError },
    ListUnspent { req: request::ListUnspent, error: ResponseError },
    ScriptHashSubscribe { req: request::ScriptHashSubscribe, error: ResponseError },
    ScriptHashUnsubscribe { req: request::ScriptHashUnsubscribe, error: ResponseError },
    BroadcastTx { req: request::BroadcastTx, error: ResponseError },
    GetTx { req: request::GetTx, error: ResponseError },
    GetTxMerkle { req: request::GetTxMerkle, error: ResponseError },
    GetTxidFromPos { req: request::GetTxidFromPos, error: ResponseError },
    GetFeeHistogram { req: request::GetFeeHistogram, error: ResponseError },
    Banner { req: request::Banner, error: ResponseError },
    Features { req: request::Features, error: ResponseError },
    Ping { req: request::Ping, error: ResponseError },
    Version { req: request::Version, error: ResponseError },
    SpSubscribe { req: request::SpSubscribe, error: ResponseError },
    SpUnSubscribe { req: request::SpUnSubscribe, error: ResponseError },
    Custom { req: request::Custom, error: ResponseError },
}

impl FailedRequest {
    /// The request that failed.
    pub open spec fn any(self) -> AnyRequest {
        match self {
            FailedRequest::Header { req, .. } => AnyRequest::Header(req),
            FailedRequest::HeaderWithProof { req, .. } => AnyRequest::HeaderWithProof(req),
            FailedRequest::Headers { req, .. } => AnyRequest::Headers(req),
            FailedRequest::HeadersWithCheckpoint { req, .. } => {
                AnyRequest::HeadersWithCheckpoint(req)
            },
            FailedRequest::EstimateFee { req, .. } => AnyRequest::EstimateFee(req),
            FailedRequest::HeadersSubscribe { req, .. } => AnyRequest::HeadersSubscribe(req),
            FailedRequest::RelayFee { req, .. } => AnyRequest::RelayFee(req),
            FailedRequest::GetBalance { req, .. } => AnyRequest::GetBalance(req),
            FailedRequest::GetHistory { req, .. } => AnyRequest::GetHistory(req),
            FailedRequest::GetMempool { req, .. } => AnyRequest::GetMempool(req),
            FailedRequest::ListUnspent { req, .. } => AnyRequest::ListUnspent(req),
            FailedRequest::ScriptHashSubscribe { req, .. } => AnyRequest::ScriptHashSubscribe(req),
            FailedRequest::ScriptHashUnsubscribe { req, .. } => {
                AnyRequest::ScriptHashUnsubscribe(req)
            },
            FailedRequest::BroadcastTx { req, .. } => AnyRequest::BroadcastTx(req),
            FailedRequest::GetTx { req, .. } => AnyRequest::GetTx(req),
            FailedRequest::GetTxMerkle { req, .. } => AnyRequest::GetTxMerkle(req),
            FailedRequest::GetTxidFromPos { req, .. } => AnyRequest::GetTxidFromPos(req),
            FailedRequest::GetFeeHistogram { req, .. } => AnyRequest::GetFeeHistogram(req),
            FailedRequest::Banner { req, .. } => AnyRequest::Banner(req),
            FailedRequest::Features { req, .. } => AnyRequest::Features(req),
            FailedRequest::Ping { req, .. } => AnyRequest::Ping(req),
            FailedRequest::Version { req, .. } => AnyRequest::Version(req),
            FailedRequest::SpSubscribe { req, .. } => AnyRequest::SpSubscribe(req),
            FailedRequest::SpUnSubscribe { req, .. } => AnyRequest::SpUnSubscribe(req),
            FailedRequest::Custom { req, .. } => AnyRequest::Custom(req),
        }
    }

    /// The error that answered it.
    pub open spec fn error(self) -> ResponseError {
        match self {
            FailedRequest::Header { error, .. } => error,
            FailedRequest::HeaderWithProof { error, .. } => error,
            FailedRequest::Headers { error, .. } => error,
            FailedRequest::HeadersWithCheckpoint { error, .. } => error,
            FailedRequest::EstimateFee { error, .. } => error,
            FailedRequest::HeadersSubscribe { error, .. } => error,
            FailedRequest::RelayFee { error, .. } => error,
            FailedRequest::GetBalance { error, .. } => error,
            FailedRequest::GetHistory { error, .. } => error,
            FailedRequest::GetMempool { error, .. } => error,
            FailedRequest::ListUnspent { error, .. } => error,
            FailedRequest::ScriptHashSubscribe { error, .. } => error,
            FailedRequest::ScriptHashUnsubscribe { error, .. } => error,
            FailedRequest::BroadcastTx { error, .. } => error,
            FailedRequest::GetTx { error, .. } => error,
            FailedRequest::GetTxMerkle { error, .. } => error,
            FailedRequest::GetTxidFromPos { error, .. } => error,
            FailedRequest::GetFeeHistogram { error, .. } => error,
            FailedRequest::Banner { error, .. } => error,
            FailedRequest::Features { error, .. } => error,
            FailedRequest::Ping { error, .. } => error,
            FailedRequest::Version { error, .. } => error,
            FailedRequest::SpSubscribe { error, .. } => error,
            FailedRequest::SpUnSubscribe { error, .. } => error,
            FailedRequest::Custom { error, .. } => error,
        }
    }
}

impl AnyRequest {
    /// This request together with the error that answered it.
    pub open spec fn failed(self, error: ResponseError) -> FailedRequest {
        match self {
            AnyRequest::Header(req) => FailedRequest::Header { req, error },
            AnyRequest::HeaderWithProof(req) => FailedRequest::HeaderWithProof { req, error },
            AnyRequest::Headers(req) => FailedRequest::Headers { req, error },
            AnyRequest::HeadersWithCheckpoint(req) => {
                FailedRequest::HeadersWithCheckpoint { req, error }
            },
            AnyRequest::EstimateFee(req) => FailedRequest::EstimateFee { req, error },
            AnyRequest::HeadersSubscribe(req) => FailedRequest::HeadersSubscribe { req, error },
            AnyRequest::RelayFee(req) => FailedRequest::RelayFee { req, error },
            AnyRequest::GetBalance(req) => FailedRequest::GetBalance { req, error },
            AnyRequest::GetHistory(req) => FailedRequest::GetHistory { req, error },
            AnyRequest::GetMempool(req) => FailedRequest::GetMempool { req, error },
            AnyRequest::ListUnspent(req) => FailedRequest::ListUnspent { req, error },
            AnyRequest::ScriptHashSubscribe(req) => {
                FailedRequest::ScriptHashSubscribe { req, error }
            },
            AnyRequest::ScriptHashUnsubscribe(req) => {
                FailedRequest::ScriptHashUnsubscribe { req, error }
            },
            AnyRequest::BroadcastTx(req) => FailedRequest::BroadcastTx { req, error },
            AnyRequest::GetTx(req) => FailedRequest::GetTx { req, error },
            AnyRequest::GetTxMerkle(req) => FailedRequest::GetTxMerkle { req, error },
            AnyRequest::GetTxidFromPos(req) => FailedRequest::GetTxidFromPos { req, error },
            AnyRequest::GetFeeHistogram(req) => FailedRequest::GetFeeHistogram { req, error },
            AnyRequest::Banner(req) => FailedRequest::Banner { req, error },
            AnyRequest::Features(req) => FailedRequest::Features { req, error },
            AnyRequest::Ping(req) => FailedRequest::Ping { req, error },
            AnyRequest::Version(req) => FailedRequest::Version { req, error },
            AnyRequest::SpSubscribe(req) => FailedRequest::SpSubscribe { req, error },
            AnyRequest::SpUnSubscribe(req) => FailedRequest::SpUnSubscribe { req, error },
            AnyRequest::Custom(req) => FailedRequest::Custom { req, error },
        }
    }
}

/// Extension trait for request types that can construct [`CompletedRequest`] and [`FailedRequest`].
///
/// It is implemented for all built-in request types. It bridges a typed request to the enum
/// variants used in [`Event`].
///
/// A request type of another crate is one of the built-in requests with its type erased, such as
/// [`request::Custom`], and its response is first read as the response to that request. Its own
/// [`RequestExt::into_response`] then tells whether that is a response of its own type.
///
/// [`Event`]: crate::Event
pub trait RequestExt: Request + Sized {
    /// This request, with its type erased.
    spec fn any(self) -> AnyRequest;

    /// This request together with its response.
    spec fn completed(self, resp: Self::Response) -> CompletedRequest;

    /// This request together with the error that answered it.
    spec fn failed(self, error: ResponseError) -> FailedRequest;

    /// The response in a completed request, if it completes a request of this type.
    spec fn response_in(completed: CompletedRequest) -> Option<Self::Response>;

    /// Whether whatever completes this request with its type erased holds a response of this type.
    spec fn reads_all() -> bool;

    /// A completed request gives back the response that it was made with.
    proof fn lemma_response_in_completed(self, resp: Self::Response)
        ensures
            Self::response_in(self.completed(resp)) == Some(resp),
    ;

    /// With its response, this request is the one that it is with its type erased.
    proof fn lemma_same_completed(self, resp: Self::Response)
        ensures
            self.completed(resp).any() == self.any(),
    ;

    /// With its type erased, this request fails as it does itself.
    proof fn lemma_same_failed(self, error: ResponseError)
        ensures
            self.any().failed(error) == self.failed(error),
    ;

    /// What completes this request with its type erased completes it with a response of its type.
    proof fn lemma_own_response(self, completed: CompletedRequest)
        requires
            Self::reads_all(),
            completed.any() == self.any(),
        ensures
            Self::response_in(completed) matches Some(resp) && completed == self.completed(resp),
    ;

    /// Erases the type of this request.
    fn into_any(self) -> (any: AnyRequest)
        ensures
            any == self.any(),
    ;

    /// Wraps this request and its decoded response into a [`CompletedRequest`].
    fn into_completed(self, resp: Self::Response) -> (completed: CompletedRequest)
        ensures
            completed == self.completed(resp),
    ;

    /// Wraps this request and an error into an [`FailedRequest`].
    fn into_failed(self, error: ResponseError) -> (failed: FailedRequest)
        ensures
            failed == self.failed(error),
    ;

    /// Takes the response out of a completed request, if it completes a request of this type.
    fn into_response(completed: CompletedRequest) -> (resp: Option<Self::Response>)
        ensures
            resp == Self::response_in(completed),
    ;
}

impl RequestExt for request::Header {
    open spec fn any(self) -> AnyRequest {
        AnyRequest::Header(self)
    }

    open spec fn completed(self, resp: response::HeaderResp) -> CompletedRequest {
        CompletedRequest::Header { req: self, resp }
    }

    open spec fn failed(self, error: ResponseError) -> FailedRequest {
        FailedRequest::Header { req: self, error }
    }

    open spec fn response_in(completed: CompletedRequest) -> Option<response::HeaderResp> {
        match completed {
            CompletedRequest::Header { resp, .. } => Some(resp),
            _ => None,
        }
    }

    open spec fn reads_all() -> bool {
        true
    }

    proof fn lemma_response_in_completed(self, resp: response::HeaderResp) {
    }

    proof fn lemma_same_completed(self, resp: response::HeaderResp) {
    }

    proof fn lemma_same_failed(self, error: ResponseError) {
    }

    proof fn lemma_own_response(self, completed: CompletedRequest) {
    }

    fn into_any(self) -> (any: AnyRequest)
        ensures
            any == AnyRequest::Header(self),
    {
        AnyRequest::Header(self)
    }

    fn into_completed(self, resp: response::HeaderResp) -> (completed: CompletedRequest)
        ensures
            completed == (CompletedRequest::Header { req: self, resp }),
    {
        CompletedRequest::Header { req: self, resp }
    }

    fn into_failed(self, error: ResponseError) -> (failed: FailedRequest)
        ensures
            failed == (FailedRequest::Header { req: self, error }),
    {
        FailedRequest::Header { req: self, error }
    }

    fn into_response(completed: CompletedRequest) -> (resp: Option<response::HeaderResp>)
        ensures
            completed matches CompletedRequest::Header { resp: given, .. } ==> resp == Some(given),
            !(completed is Header) ==> resp is None,
    {
        match completed {
            CompletedRequest::Header { resp, .. } => Some(resp),
            _ => None,
        }
    }
}

impl RequestExt for request::HeaderWithProof {
    open spec fn any(self) -> AnyRequest {
        AnyRequest::HeaderWithProof(self)
    }

    open spec fn completed(self, resp: response::HeaderWithProofResp) -> CompletedRequest {
        CompletedRequest::HeaderWithProof { req: self, resp }
    }

    open spec fn failed(self, error: ResponseError) -> FailedRequest {
        FailedRequest::HeaderWithProof { req: self, error }
    }

    open spec fn response_in(completed: CompletedRequest) -> Option<response::HeaderWithProofResp> {
        match completed {
            CompletedRequest::HeaderWithProof { resp, .. } => Some(resp),
            _ => None,
        }
    }

    open spec fn reads_all() -> bool {
        true
    }

    proof fn lemma_response_in_completed(self, resp: response::HeaderWithProofResp) {
    }

    proof fn lemma_same_completed(self, resp: response::HeaderWithProofResp) {
    }

    proof fn lemma_same_failed(self, error: ResponseError) {
    }

    proof fn lemma_own_response(self, completed: CompletedRequest) {
    }

    fn into_any(self) -> (any: AnyRequest)
        ensures
            any == AnyRequest::HeaderWithProof(self),
    {
        AnyRequest::HeaderWithProof(self)
    }

    fn into_completed(self, resp: response::HeaderWithProofResp) -> (completed: CompletedRequest)
        ensures
            completed == (CompletedRequest::HeaderWithProof { req: self, resp }),
    {
        CompletedRequest::HeaderWithProof { req: self, resp }
    }

    fn into_failed(self, error: ResponseError) -> (failed: FailedRequest)
        ensures
            failed == (FailedRequest::HeaderWithProof { req: self, error }),
    {
        FailedRequest::HeaderWithProof { req: self, error }
    }

    fn into_response(completed: CompletedRequest) -> (resp: Option<response::HeaderWithProofResp>)
        ensures
            completed matches CompletedRequest::HeaderWithProof { resp: given, .. } ==> resp
                == Some(given),
            !(completed is HeaderWithProof) ==> resp is None,
    {
        match completed {
            CompletedRequest::HeaderWithProof { resp, .. } => Some(resp),
            _ => None,
        }
    }
}

impl RequestExt for request::Headers {
    open spec fn any(self) -> AnyRequest {
        AnyRequest::Headers(self)
    }

    open spec fn completed(self, resp: response::HeadersResp) -> CompletedRequest {
        CompletedRequest::Headers { req: self, resp }
    }

    open spec fn failed(self, error: ResponseError) -> FailedRequest {
        FailedRequest::Headers { req: self, error }
    }

    open spec fn response_in(completed: CompletedRequest) -> Option<response::HeadersResp> {
        match completed {
            CompletedRequest::Headers { resp, .. } => Some(resp),
            _ => None,
        }
    }

    open spec fn reads_all() -> bool {
        true
    }

    proof fn lemma_response_in_completed(self, resp: response::HeadersResp) {
    }

    proof fn lemma_same_completed(self, resp: response::HeadersResp) {
    }

    proof fn lemma_same_failed(self, error: ResponseError) {
    }

    proof fn lemma_own_response(self, completed: CompletedRequest) {
    }

    fn into_any(self) -> (any: AnyRequest)
        ensures
            any == AnyRequest::Headers(self),
    {
        AnyRequest::Headers(self)
    }

    fn into_completed(self, resp: response::HeadersResp) -> (completed: CompletedRequest)
        ensures
            completed == (CompletedRequest::Headers { req: self, resp }),
    {
        CompletedRequest::Headers { req: self, resp }
    }

    fn into_failed(self, error: ResponseError) -> (failed: FailedRequest)
        ensures
            failed == (FailedRequest::Headers { req: self, error }),
    {
        FailedRequest::Headers { req: self, error }
    }

    fn into_response(completed: CompletedRequest) -> (resp: Option<response::HeadersResp>)
        ensures
            completed matches CompletedRequest::Headers { resp: given, .. } ==> resp == Some(given),
            !(completed is Headers) ==> resp is None,
    {
        match completed {
            CompletedRequest::Headers { resp, .. } => Some(resp),
            _ => None,
        }
    }
}

impl RequestExt for request::HeadersWithCheckpoint {
    open spec fn any(self) -> AnyRequest {
        AnyRequest::HeadersWithCheckpoint(self)
    }

    open spec fn completed(self, resp: response::HeadersWithCheckpointResp) -> CompletedRequest {
        CompletedRequest::HeadersWithCheckpoint { req: self, resp }
    }

    open spec fn failed(self, error: ResponseError) -> FailedRequest {
        FailedRequest::HeadersWithCheckpoint { req: self, error }
    }

    open spec fn response_in(completed: CompletedRequest) -> Option<
        response::HeadersWithCheckpointResp,
    > {
        match completed {
            CompletedRequest::HeadersWithCheckpoint { resp, .. } => Some(resp),
            _ => None,
        }
    }

    open spec fn reads_all() -> bool {
        true
    }

    proof fn lemma_response_in_completed(self, resp: response::HeadersWithCheckpointResp) {
    }

    proof fn lemma_same_completed(self, resp: response::HeadersWithCheckpointResp) {
    }

    proof fn lemma_same_failed(self, error: ResponseError) {
    }

    proof fn lemma_own_response(self, completed: CompletedRequest) {
    }

    fn into_any(self) -> (any: AnyRequest)
        ensures
            any == AnyRequest::HeadersWithCheckpoint(self),
    {
        AnyRequest::HeadersWithCheckpoint(self)
    }

    fn into_completed(
        self,
        resp: response::HeadersWithCheckpointResp,
    ) -> (completed: CompletedRequest)
        ensures
            completed == (CompletedRequest::HeadersWithCheckpoint { req: self, resp }),
    {
        CompletedRequest::HeadersWithCheckpoint { req: self, resp }
    }

    fn into_failed(self, error: ResponseError) -> (failed: FailedRequest)
        ensures
            failed == (FailedRequest::HeadersWithCheckpoint { req: self, error }),
    {
        FailedRequest::HeadersWithCheckpoint { req: self, error }
    }

    fn into_response(completed: CompletedRequest) -> (resp: Option<
        response::HeadersWithCheckpointResp,
    >)
        ensures
            completed matches CompletedRequest::HeadersWithCheckpoint { resp: given, .. } ==> resp
                == Some(given),
            !(completed is HeadersWithCheckpoint) ==> resp is None,
    {
        match completed {
            CompletedRequest::HeadersWithCheckpoint { resp, .. } => Some(resp),
            _ => None,
        }
    }
}

impl RequestExt for request::EstimateFee {
    open spec fn any(self) -> AnyRequest {
        AnyRequest::EstimateFee(self)
    }

    open spec fn completed(self, resp: response::EstimateFeeResp) -> CompletedRequest {
        CompletedRequest::EstimateFee { req: self, resp }
    }

    open spec fn failed(self, error: ResponseError) -> FailedRequest {
        FailedRequest::EstimateFee { req: self, error }
    }

    open spec fn response_in(completed: CompletedRequest) -> Option<response::EstimateFeeResp> {
        match completed {
            CompletedRequest::EstimateFee { resp, .. } => Some(resp),
            _ => None,
        }
    }

    open spec fn reads_all() -> bool {
        true
    }

    proof fn lemma_response_in_completed(self, resp: response::EstimateFeeResp) {
    }

    proof fn lemma_same_completed(self, resp: response::EstimateFeeResp) {
    }

    proof fn lemma_same_failed(self, error: ResponseError) {
    }

    proof fn lemma_own_response(self, completed: CompletedRequest) {
    }

    fn into_any(self) -> (any: AnyRequest)
        ensures
            any == AnyRequest::EstimateFee(self),
    {
        AnyRequest::EstimateFee(self)
    }

    fn into_completed(self, resp: response::EstimateFeeResp) -> (completed: CompletedRequest)
        ensures
            completed == (CompletedRequest::EstimateFee { req: self, resp }),
    {
        CompletedRequest::EstimateFee { req: self, resp }
    }

    fn into_failed(self, error: ResponseError) -> (failed: FailedRequest)
        ensures
            failed == (FailedRequest::EstimateFee { req: self, error }),
    {
        FailedRequest::EstimateFee { req: self, error }
    }

    fn into_response(completed: CompletedRequest) -> (resp: Option<response::EstimateFeeResp>)
        ensures
            completed matches CompletedRequest::EstimateFee { resp: given, .. } ==> resp
                == Some(given),
            !(completed is EstimateFee) ==> resp is None,
    {
        match completed {
            CompletedRequest::EstimateFee { resp, .. } => Some(resp),
            _ => None,
        }
    }
}

impl RequestExt for request::HeadersSubscribe {
    open spec fn any(self) -> AnyRequest {
        AnyRequest::HeadersSubscribe(self)
    }

    open spec fn completed(self, resp: response::HeadersSubscribeResp) -> CompletedRequest {
        CompletedRequest::HeadersSubscribe { req: self, resp }
    }

    open spec fn failed(self, error: ResponseError) -> FailedRequest {
        FailedRequest::HeadersSubscribe { req: self, error }
    }

    open spec fn response_in(completed: CompletedRequest) -> Option<
        response::HeadersSubscribeResp,
    > {
        match completed {
            CompletedRequest::HeadersSubscribe { resp, .. } => Some(resp),
            _ => None,
        }
    }

    open spec fn reads_all() -> bool {
        true
    }

    proof fn lemma_response_in_completed(self, resp: response::HeadersSubscribeResp) {
    }

    proof fn lemma_same_completed(self, resp: response::HeadersSubscribeResp) {
    }

    proof fn lemma_same_failed(self, error: ResponseError) {
    }

    proof fn lemma_own_response(self, completed: CompletedRequest) {
    }

    fn into_any(self) -> (any: AnyRequest)
        ensures
            any == AnyRequest::HeadersSubscribe(self),
    {
        AnyRequest::HeadersSubscribe(self)
    }

    fn into_completed(self, resp: response::HeadersSubscribeResp) -> (completed: CompletedRequest)
        ensures
            completed == (CompletedRequest::HeadersSubscribe { req: self, resp }),
    {
        CompletedRequest::HeadersSubscribe { req: self, resp }
    }

    fn into_failed(self, error: ResponseError) -> (failed: FailedRequest)
        ensures
            failed == (FailedRequest::HeadersSubscribe { req: self, error }),
    {
        FailedRequest::HeadersSubscribe { req: self, error }
    }

    fn into_response(completed: CompletedRequest) -> (resp: Option<
        response::HeadersSubscribeResp,
    >)
        ensures
            completed matches CompletedRequest::HeadersSubscribe { resp: given, .. } ==> resp
                == Some(given),
            !(completed is HeadersSubscribe) ==> resp is None,
    {
        match completed {
            CompletedRequest::HeadersSubscribe { resp, .. } => Some(resp),
            _ => None,
        }
    }
}

impl RequestExt for request::RelayFee {
    open spec fn any(self) -> AnyRequest {
        AnyRequest::RelayFee(self)
    }

    open spec fn completed(self, resp: response::RelayFeeResp) -> CompletedRequest {
        CompletedRequest::RelayFee { req: self, resp }
    }

    open spec fn failed(self, error: ResponseError) -> FailedRequest {
        FailedRequest::RelayFee { req: self, error }
    }

    open spec fn response_in(completed: CompletedRequest) -> Option<response::RelayFeeResp> {
        match completed {
            CompletedRequest::RelayFee { resp, .. } => Some(resp),
            _ => None,
        }
    }

    open spec fn reads_all() -> bool {
        true
    }

    proof fn lemma_response_in_completed(self, resp: response::RelayFeeResp) {
    }

    proof fn lemma_same_completed(self, resp: response::RelayFeeResp) {
    }

    proof fn lemma_same_failed(self, error: ResponseError) {
    }

    proof fn lemma_own_response(self, completed: CompletedRequest) {
    }

    fn into_any(self) -> (any: AnyRequest)
        ensures
            any == AnyRequest::RelayFee(self),
    {
        AnyRequest::RelayFee(self)
    }

    fn into_completed(self, resp: response::RelayFeeResp) -> (completed: CompletedRequest)
        ensures
            completed == (CompletedRequest::RelayFee { req: self, resp }),
    {
        CompletedRequest::RelayFee { req: self, resp }
    }

    fn into_failed(self, error: ResponseError) -> (failed: FailedRequest)
        ensures
            failed == (FailedRequest::RelayFee { req: self, error }),
    {
        FailedRequest::RelayFee { req: self, error }
    }

    fn into_response(completed: CompletedRequest) -> (resp: Option<response::RelayFeeResp>)
        ensures
            completed matches CompletedRequest::RelayFee { resp: given, .. } ==> resp
                == Some(given),
            !(completed is RelayFee) ==> resp is None,
    {
        match completed {
            CompletedRequest::RelayFee { resp, .. } => Some(resp),
            _ => None,
        }
    }
}

impl RequestExt for request::GetBalance {
    open spec fn any(self) -> AnyRequest {
        AnyRequest::GetBalance(self)
    }

    open spec fn completed(self, resp: response::GetBalanceResp) -> CompletedRequest {
        CompletedRequest::GetBalance { req: self, resp }
    }

    open spec fn failed(self, error: ResponseError) -> FailedRequest {
        FailedRequest::GetBalance { req: self, error }
    }

    open spec fn response_in(completed: CompletedRequest) -> Option<response::GetBalanceResp> {
        match completed {
            CompletedRequest::GetBalance { resp, .. } => Some(resp),
            _ => None,
        }
    }

    open spec fn reads_all() -> bool {
        true
    }

    proof fn lemma_response_in_completed(self, resp: response::GetBalanceResp) {
    }

    proof fn lemma_same_completed(self, resp: response::GetBalanceResp) {
    }

    proof fn lemma_same_failed(self, error: ResponseError) {
    }

    proof fn lemma_own_response(self, completed: CompletedRequest) {
    }

    fn into_any(self) -> (any: AnyRequest)
        ensures
            any == AnyRequest::GetBalance(self),
    {
        AnyRequest::GetBalance(self)
    }

    fn into_completed(self, resp: response::GetBalanceResp) -> (completed: CompletedRequest)
        ensures
            completed == (CompletedRequest::GetBalance { req: self, resp }),
    {
        CompletedRequest::GetBalance { req: self, resp }
    }

    fn into_failed(self, error: ResponseError) -> (failed: FailedRequest)
        ensures
            failed == (FailedRequest::GetBalance { req: self, error }),
    {
        FailedRequest::GetBalance { req: self, error }
    }

    fn into_response(completed: CompletedRequest) -> (resp: Option<response::GetBalanceResp>)
        ensures
            completed matches CompletedRequest::GetBalance { resp: given, .. } ==> resp
                == Some(given),
            !(completed is GetBalance) ==> resp is None,
    {
        match completed {
            CompletedRequest::GetBalance { resp, .. } => Some(resp),
            _ => None,
        }
    }
}

impl RequestExt for request::GetHistory {
    open spec fn any(self) -> AnyRequest {
        AnyRequest::GetHistory(self)
    }

    open spec fn completed(self, resp: Vec<response::Tx>) -> CompletedRequest {
        CompletedRequest::GetHistory { req: self, resp }
    }

    open spec fn failed(self, error: ResponseError) -> FailedRequest {
        FailedRequest::GetHistory { req: self, error }
    }

    open spec fn response_in(completed: CompletedRequest) -> Option<Vec<response::Tx>> {
        match completed {
            CompletedRequest::GetHistory { resp, .. } => Some(resp),
            _ => None,
        }
    }

    open spec fn reads_all() -> bool {
        true
    }

    proof fn lemma_response_in_completed(self, resp: Vec<response::Tx>) {
    }

    proof fn lemma_same_completed(self, resp: Vec<response::Tx>) {
    }

    proof fn lemma_same_failed(self, error: ResponseError) {
    }

    proof fn lemma_own_response(self, completed: CompletedRequest) {
    }

    fn into_any(self) -> (any: AnyRequest)
        ensures
            any == AnyRequest::GetHistory(self),
    {
        AnyRequest::GetHistory(self)
    }

    fn into_completed(self, resp: Vec<response::Tx>) -> (completed: CompletedRequest)
        ensures
            completed == (CompletedRequest::GetHistory { req: self, resp }),
    {
        CompletedRequest::GetHistory { req: self, resp }
    }

    fn into_failed(self, error: ResponseError) -> (failed: FailedRequest)
        ensures
            failed == (FailedRequest::GetHistory { req: self, error }),
    {
        FailedRequest::GetHistory { req: self, error }
    }

    fn into_response(completed: CompletedRequest) -> (resp: Option<Vec<response::Tx>>)
        ensures
            completed matches CompletedRequest::GetHistory { resp: given, .. } ==> resp
                == Some(given),
            !(completed is GetHistory) ==> resp is None,
    {
        match completed {
            CompletedRequest::GetHistory { resp, .. } => Some(resp),
            _ => None,
        }
    }
}

impl RequestExt for request::GetMempool {
    open spec fn any(self) -> AnyRequest {
        AnyRequest::GetMempool(self)
    }

    open spec fn completed(self, resp: Vec<response::MempoolTx>) -> CompletedRequest {
        CompletedRequest::GetMempool { req: self, resp }
    }

    open spec fn failed(self, error: ResponseError) -> FailedRequest {
        FailedRequest::GetMempool { req: self, error }
    }

    open spec fn response_in(completed: CompletedRequest) -> Option<Vec<response::MempoolTx>> {
        match completed {
            CompletedRequest::GetMempool { resp, .. } => Some(resp),
            _ => None,
        }
    }

    open spec fn reads_all() -> bool {
        true
    }

    proof fn lemma_response_in_completed(self, resp: Vec<response::MempoolTx>) {
    }

    proof fn lemma_same_completed(self, resp: Vec<response::MempoolTx>) {
    }

    proof fn lemma_same_failed(self, error: ResponseError) {
    }

    proof fn lemma_own_response(self, completed: CompletedRequest) {
    }

    fn into_any(self) -> (any: AnyRequest)
        ensures
            any == AnyRequest::GetMempool(self),
    {
        AnyRequest::GetMempool(self)
    }

    fn into_completed(self, resp: Vec<response::MempoolTx>) -> (completed: CompletedRequest)
        ensures
            completed == (CompletedRequest::GetMempool { req: self, resp }),
    {
        CompletedRequest::GetMempool { req: self, resp }
    }

    fn into_failed(self, error: ResponseError) -> (failed: FailedRequest)
        ensures
            failed == (FailedRequest::GetMempool { req: self, error }),
    {
        FailedRequest::GetMempool { req: self, error }
    }

    fn into_response(completed: CompletedRequest) -> (resp: Option<Vec<response::MempoolTx>>)
        ensures
            completed matches CompletedRequest::GetMempool { resp: given, .. } ==> resp
                == Some(given),
            !(completed is GetMempool) ==> resp is None,
    {
        match completed {
            CompletedRequest::GetMempool { resp, .. } => Some(resp),
            _ => None,
        }
    }
}

impl RequestExt for request::ListUnspent {
    open spec fn any(self) -> AnyRequest {
        AnyRequest::ListUnspent(self)
    }

    open spec fn completed(self, resp: Vec<response::Utxo>) -> CompletedRequest {
        CompletedRequest::ListUnspent { req: self, resp }
    }

    open spec fn failed(self, error: ResponseError) -> FailedRequest {
        FailedRequest::ListUnspent { req: self, error }
    }

    open spec fn response_in(completed: CompletedRequest) -> Option<Vec<response::Utxo>> {
        match completed {
            CompletedRequest::ListUnspent { resp, .. } => Some(resp),
            _ => None,
        }
    }

    open spec fn reads_all() -> bool {
        true
    }

    proof fn lemma_response_in_completed(self, resp: Vec<response::Utxo>) {
    }

    proof fn lemma_same_completed(self, resp: Vec<response::Utxo>) {
    }

    proof fn lemma_same_failed(self, error: ResponseError) {
    }

    proof fn lemma_own_response(self, completed: CompletedRequest) {
    }

    fn into_any(self) -> (any: AnyRequest)
        ensures
            any == AnyRequest::ListUnspent(self),
    {
        AnyRequest::ListUnspent(self)
    }

    fn into_completed(self, resp: Vec<response::Utxo>) -> (completed: CompletedRequest)
        ensures
            completed == (CompletedRequest::ListUnspent { req: self, resp }),
    {
        CompletedRequest::ListUnspent { req: self, resp }
    }

    fn into_failed(self, error: ResponseError) -> (failed: FailedRequest)
        ensures
            failed == (FailedRequest::ListUnspent { req: self, error }),
    {
        FailedRequest::ListUnspent { req: self, error }
    }

    fn into_response(completed: CompletedRequest) -> (resp: Option<Vec<response::Utxo>>)
        ensures
            completed matches CompletedRequest::ListUnspent { resp: given, .. } ==> resp
                == Some(given),
            !(completed is ListUnspent) ==> resp is None,
    {
        match completed {
            CompletedRequest::ListUnspent { resp, .. } => Some(resp),
            _ => None,
        }
    }
}

impl RequestExt for request::ScriptHashSubscribe {
    open spec fn any(self) -> AnyRequest {
        AnyRequest::ScriptHashSubscribe(self)
    }

    open spec fn completed(self, resp: Option<ElectrumScriptStatus>) -> CompletedRequest {
        CompletedRequest::ScriptHashSubscribe { req: self, resp }
    }

    open spec fn failed(self, error: ResponseError) -> FailedRequest {
        FailedRequest::ScriptHashSubscribe { req: self, error }
    }

    open spec fn response_in(completed: CompletedRequest) -> Option<Option<ElectrumScriptStatus>> {
        match completed {
            CompletedRequest::ScriptHashSubscribe { resp, .. } => Some(resp),
            _ => None,
        }
    }

    open spec fn reads_all() -> bool {
        true
    }

    proof fn lemma_response_in_completed(self, resp: Option<ElectrumScriptStatus>) {
    }

    proof fn lemma_same_completed(self, resp: Option<ElectrumScriptStatus>) {
    }

    proof fn lemma_same_failed(self, error: ResponseError) {
    }

    proof fn lemma_own_response(self, completed: CompletedRequest) {
    }

    fn into_any(self) -> (any: AnyRequest)
        ensures
            any == AnyRequest::ScriptHashSubscribe(self),
    {
        AnyRequest::ScriptHashSubscribe(self)
    }

    fn into_completed(self, resp: Option<ElectrumScriptStatus>) -> (completed: CompletedRequest)
        ensures
            completed == (CompletedRequest::ScriptHashSubscribe { req: self, resp }),
    {
        CompletedRequest::ScriptHashSubscribe { req: self, resp }
    }

    fn into_failed(self, error: ResponseError) -> (failed: FailedRequest)
        ensures
            failed == (FailedRequest::ScriptHashSubscribe { req: self, error }),
    {
        FailedRequest::ScriptHashSubscribe { req: self, error }
    }

    fn into_response(completed: CompletedRequest) -> (resp: Option<Option<ElectrumScriptStatus>>)
        ensures
            completed matches CompletedRequest::ScriptHashSubscribe { resp: given, .. } ==> resp
                == Some(given),
            !(completed is ScriptHashSubscribe) ==> resp is None,
    {
        match completed {
            CompletedRequest::ScriptHashSubscribe { resp, .. } => Some(resp),
            _ => None,
        }
    }
}

impl RequestExt for request::ScriptHashUnsubscribe {
    open spec fn any(self) -> AnyRequest {
        AnyRequest::ScriptHashUnsubscribe(self)
    }

    open spec fn completed(self, resp: bool) -> CompletedRequest {
        CompletedRequest::ScriptHashUnsubscribe { req: self, resp }
    }

    open spec fn failed(self, error: ResponseError) -> FailedRequest {
        FailedRequest::ScriptHashUnsubscribe { req: self, error }
    }

    open spec fn response_in(completed: CompletedRequest) -> Option<bool> {
        match completed {
            CompletedRequest::ScriptHashUnsubscribe { resp, .. } => Some(resp),
            _ => None,
        }
    }

    open spec fn reads_all() -> bool {
        true
    }

    proof fn lemma_response_in_completed(self, resp: bool) {
    }

    proof fn lemma_same_completed(self, resp: bool) {
    }

    proof fn lemma_same_failed(self, error: ResponseError) {
    }

    proof fn lemma_own_response(self, completed: CompletedRequest) {
    }

    fn into_any(self) -> (any: AnyRequest)
        ensures
            any == AnyRequest::ScriptHashUnsubscribe(self),
    {
        AnyRequest::ScriptHashUnsubscribe(self)
    }

    fn into_completed(self, resp: bool) -> (completed: CompletedRequest)
        ensures
            completed == (CompletedRequest::ScriptHashUnsubscribe { req: self, resp }),
    {
        CompletedRequest::ScriptHashUnsubscribe { req: self, resp }
    }

    fn into_failed(self, error: ResponseError) -> (failed: FailedRequest)
        ensures
            failed == (FailedRequest::ScriptHashUnsubscribe { req: self, error }),
    {
        FailedRequest::ScriptHashUnsubscribe { req: self, error }
    }

    fn into_response(completed: CompletedRequest) -> (resp: Option<bool>)
        ensures
            completed matches CompletedRequest::ScriptHashUnsubscribe { resp: given, .. } ==> resp
                == Some(given),
            !(completed is ScriptHashUnsubscribe) ==> resp is None,
    {
        match completed {
            CompletedRequest::ScriptHashUnsubscribe { resp, .. } => Some(resp),
            _ => None,
        }
    }
}

impl RequestExt for request::BroadcastTx {
    open spec fn any(self) -> AnyRequest {
        AnyRequest::BroadcastTx(self)
    }

    open spec fn completed(self, resp: Txid) -> CompletedRequest {
        CompletedRequest::BroadcastTx { req: self, resp }
    }

    open spec fn failed(self, error: ResponseError) -> FailedRequest {
        FailedRequest::BroadcastTx { req: self, error }
    }

    open spec fn response_in(completed: CompletedRequest) -> Option<Txid> {
        match completed {
            CompletedRequest::BroadcastTx { resp, .. } => Some(resp),
            _ => None,
        }
    }

    open spec fn reads_all() -> bool {
        true
    }

    proof fn lemma_response_in_completed(self, resp: Txid) {
    }

    proof fn lemma_same_completed(self, resp: Txid) {
    }

    proof fn lemma_same_failed(self, error: ResponseError) {
    }

    proof fn lemma_own_response(self, completed: CompletedRequest) {
    }

    fn into_any(self) -> (any: AnyRequest)
        ensures
            any == AnyRequest::BroadcastTx(self),
    {
        AnyRequest::BroadcastTx(self)
    }

    fn into_completed(self, resp: Txid) -> (completed: CompletedRequest)
        ensures
            completed == (CompletedRequest::BroadcastTx { req: self, resp }),
    {
        CompletedRequest::BroadcastTx { req: self, resp }
    }

    fn into_failed(self, error: ResponseError) -> (failed: FailedRequest)
        ensures
            failed == (FailedRequest::BroadcastTx { req: self, error }),
    {
        FailedRequest::BroadcastTx { req: self, error }
    }

    fn into_response(completed: CompletedRequest) -> (resp: Option<Txid>)
        ensures
            completed matches CompletedRequest::BroadcastTx { resp: given, .. } ==> resp
                == Some(given),
            !(completed is BroadcastTx) ==> resp is None,
    {
        match completed {
            CompletedRequest::BroadcastTx { resp, .. } => Some(resp),
            _ => None,
        }
    }
}

impl RequestExt for request::GetTx {
    open spec fn any(self) -> AnyRequest {
        AnyRequest::GetTx(self)
    }

    open spec fn completed(self, resp: response::FullTx) -> CompletedRequest {
        CompletedRequest::GetTx { req: self, resp }
    }

    open spec fn failed(self, error: ResponseError) -> FailedRequest {
        FailedRequest::GetTx { req: self, error }
    }

    open spec fn response_in(completed: CompletedRequest) -> Option<response::FullTx> {
        match completed {
            CompletedRequest::GetTx { resp, .. } => Some(resp),
            _ => None,
        }
    }

    open spec fn reads_all() -> bool {
        true
    }

    proof fn lemma_response_in_completed(self, resp: response::FullTx) {
    }

    proof fn lemma_same_completed(self, resp: response::FullTx) {
    }

    proof fn lemma_same_failed(self, error: ResponseError) {
    }

    proof fn lemma_own_response(self, completed: CompletedRequest) {
    }

    fn into_any(self) -> (any: AnyRequest)
        ensures
            any == AnyRequest::GetTx(self),
    {
        AnyRequest::GetTx(self)
    }

    fn into_completed(self, resp: response::FullTx) -> (completed: CompletedRequest)
        ensures
            completed == (CompletedRequest::GetTx { req: self, resp }),
    {
        CompletedRequest::GetTx { req: self, resp }
    }

    fn into_failed(self, error: ResponseError) -> (failed: FailedRequest)
        ensures
            failed == (FailedRequest::GetTx { req: self, error }),
    {
        FailedRequest::GetTx { req: self, error }
    }

    fn into_response(completed: CompletedRequest) -> (resp: Option<response::FullTx>)
        ensures
            completed matches CompletedRequest::GetTx { resp: given, .. } ==> resp == Some(given),
            !(completed is GetTx) ==> resp is None,
    {
        match completed {
            CompletedRequest::GetTx { resp, .. } => Some(resp),
            _ => None,
        }
    }
}

impl RequestExt for request::GetTxMerkle {
    open spec fn any(self) -> AnyRequest {
        AnyRequest::GetTxMerkle(self)
    }

    open spec fn completed(self, resp: response::TxMerkle) -> CompletedRequest {
        CompletedRequest::GetTxMerkle { req: self, resp }
    }

    open spec fn failed(self, error: ResponseError) -> FailedRequest {
        FailedRequest::GetTxMerkle { req: self, error }
    }

    open spec fn response_in(completed: CompletedRequest) -> Option<response::TxMerkle> {
        match completed {
            CompletedRequest::GetTxMerkle { resp, .. } => Some(resp),
            _ => None,
        }
    }

    open spec fn reads_all() -> bool {
        true
    }

    proof fn lemma_response_in_completed(self, resp: response::TxMerkle) {
    }

    proof fn lemma_same_completed(self, resp: response::TxMerkle) {
    }

    proof fn lemma_same_failed(self, error: ResponseError) {
    }

    proof fn lemma_own_response(self, completed: CompletedRequest) {
    }

    fn into_any(self) -> (any: AnyRequest)
        ensures
            any == AnyRequest::GetTxMerkle(self),
    {
        AnyRequest::GetTxMerkle(self)
    }

    fn into_completed(self, resp: response::TxMerkle) -> (completed: CompletedRequest)
        ensures
            completed == (CompletedRequest::GetTxMerkle { req: self, resp }),
    {
        CompletedRequest::GetTxMerkle { req: self, resp }
    }

    fn into_failed(self, error: ResponseError) -> (failed: FailedRequest)
        ensures
            failed == (FailedRequest::GetTxMerkle { req: self, error }),
    {
        FailedRequest::GetTxMerkle { req: self, error }
    }

    fn into_response(completed: CompletedRequest) -> (resp: Option<response::TxMerkle>)
        ensures
            completed matches CompletedRequest::GetTxMerkle { resp: given, .. } ==> resp
                == Some(given),
            !(completed is GetTxMerkle) ==> resp is None,
    {
        match completed {
            CompletedRequest::GetTxMerkle { resp, .. } => Some(resp),
            _ => None,
        }
    }
}

impl RequestExt for request::GetTxidFromPos {
    open spec fn any(self) -> AnyRequest {
        AnyRequest::GetTxidFromPos(self)
    }

    open spec fn completed(self, resp: response::TxidFromPos) -> CompletedRequest {
        CompletedRequest::GetTxidFromPos { req: self, resp }
    }

    open spec fn failed(self, error: ResponseError) -> FailedRequest {
        FailedRequest::GetTxidFromPos { req: self, error }
    }

    open spec fn response_in(completed: CompletedRequest) -> Option<response::TxidFromPos> {
        match completed {
            CompletedRequest::GetTxidFromPos { resp, .. } => Some(resp),
            _ => None,
        }
    }

    open spec fn reads_all() -> bool {
        true
    }

    proof fn lemma_response_in_completed(self, resp: response::TxidFromPos) {
    }

    proof fn lemma_same_completed(self, resp: response::TxidFromPos) {
    }

    proof fn lemma_same_failed(self, error: ResponseError) {
    }

    proof fn lemma_own_response(self, completed: CompletedRequest) {
    }

    fn into_any(self) -> (any: AnyRequest)
        ensures
            any == AnyRequest::GetTxidFromPos(self),
    {
        AnyRequest::GetTxidFromPos(self)
    }

    fn into_completed(self, resp: response::TxidFromPos) -> (completed: CompletedRequest)
        ensures
            completed == (CompletedRequest::GetTxidFromPos { req: self, resp }),
    {
        CompletedRequest::GetTxidFromPos { req: self, resp }
    }

    fn into_failed(self, error: ResponseError) -> (failed: FailedRequest)
        ensures
            failed == (FailedRequest::GetTxidFromPos { req: self, error }),
    {
        FailedRequest::GetTxidFromPos { req: self, error }
    }

    fn into_response(completed: CompletedRequest) -> (resp: Option<response::TxidFromPos>)
        ensures
            completed matches CompletedRequest::GetTxidFromPos { resp: given, .. } ==> resp
                == Some(given),
            !(completed is GetTxidFromPos) ==> resp is None,
    {
        match completed {
            CompletedRequest::GetTxidFromPos { resp, .. } => Some(resp),
            _ => None,
        }
    }
}

impl RequestExt for request::GetFeeHistogram {
    open spec fn any(self) -> AnyRequest {
        AnyRequest::GetFeeHistogram(self)
    }

    open spec fn completed(self, resp: Vec<response::FeePair>) -> CompletedRequest {
        CompletedRequest::GetFeeHistogram { req: self, resp }
    }

    open spec fn failed(self, error: ResponseError) -> FailedRequest {
        FailedRequest::GetFeeHistogram { req: self, error }
    }

    open spec fn response_in(completed: CompletedRequest) -> Option<Vec<response::FeePair>> {
        match completed {
            CompletedRequest::GetFeeHistogram { resp, .. } => Some(resp),
            _ => None,
        }
    }

    open spec fn reads_all() -> bool {
        true
    }

    proof fn lemma_response_in_completed(self, resp: Vec<response::FeePair>) {
    }

    proof fn lemma_same_completed(self, resp: Vec<response::FeePair>) {
    }

    proof fn lemma_same_failed(self, error: ResponseError) {
    }

    proof fn lemma_own_response(self, completed: CompletedRequest) {
    }

    fn into_any(self) -> (any: AnyRequest)
        ensures
            any == AnyRequest::GetFeeHistogram(self),
    {
        AnyRequest::GetFeeHistogram(self)
    }

    fn into_completed(self, resp: Vec<response::FeePair>) -> (completed: CompletedRequest)
        ensures
            completed == (CompletedRequest::GetFeeHistogram { req: self, resp }),
    {
        CompletedRequest::GetFeeHistogram { req: self, resp }
    }

    fn into_failed(self, error: ResponseError) -> (failed: FailedRequest)
        ensures
            failed == (FailedRequest::GetFeeHistogram { req: self, error }),
    {
        FailedRequest::GetFeeHistogram { req: self, error }
    }

    fn into_response(completed: CompletedRequest) -> (resp: Option<Vec<response::FeePair>>)
        ensures
            completed matches CompletedRequest::GetFeeHistogram { resp: given, .. } ==> resp
                == Some(given),
            !(completed is GetFeeHistogram) ==> resp is None,
    {
        match completed {
            CompletedRequest::GetFeeHistogram { resp, .. } => Some(resp),
            _ => None,
        }
    }
}

impl RequestExt for request::Banner {
    open spec fn any(self) -> AnyRequest {
        AnyRequest::Banner(self)
    }

    open spec fn completed(self, resp: String) -> CompletedRequest {
        CompletedRequest::Banner { req: self, resp }
    }

    open spec fn failed(self, error: ResponseError) -> FailedRequest {
        FailedRequest::Banner { req: self, error }
    }

    open spec fn response_in(completed: CompletedRequest) -> Option<String> {
        match completed {
            CompletedRequest::Banner { resp, .. } => Some(resp),
            _ => None,
        }
    }

    open spec fn reads_all() -> bool {
        true
    }

    proof fn lemma_response_in_completed(self, resp: String) {
    }

    proof fn lemma_same_completed(self, resp: String) {
    }

    proof fn lemma_same_failed(self, error: ResponseError) {
    }

    proof fn lemma_own_response(self, completed: CompletedRequest) {
    }

    fn into_any(self) -> (any: AnyRequest)
        ensures
            any == AnyRequest::Banner(self),
    {
        AnyRequest::Banner(self)
    }

    fn into_completed(self, resp: String) -> (completed: CompletedRequest)
        ensures
            completed == (CompletedRequest::Banner { req: self, resp }),
    {
        CompletedRequest::Banner { req: self, resp }
    }

    fn into_failed(self, error: ResponseError) -> (failed: FailedRequest)
        ensures
            failed == (FailedRequest::Banner { req: self, error }),
    {
        FailedRequest::Banner { req: self, error }
    }

    fn into_response(completed: CompletedRequest) -> (resp: Option<String>)
        ensures
            completed matches CompletedRequest::Banner { resp: given, .. } ==> resp == Some(given),
            !(completed is Banner) ==> resp is None,
    {
        match completed {
            CompletedRequest::Banner { resp, .. } => Some(resp),
            _ => None,
        }
    }
}

impl RequestExt for request::Features {
    open spec fn any(self) -> AnyRequest {
        AnyRequest::Features(self)
    }

    open spec fn completed(self, resp: response::ServerFeatures) -> CompletedRequest {
        CompletedRequest::Features { req: self, resp }
    }

    open spec fn failed(self, error: ResponseError) -> FailedRequest {
        FailedRequest::Features { req: self, error }
    }

    open spec fn response_in(completed: CompletedRequest) -> Option<response::ServerFeatures> {
        match completed {
            CompletedRequest::Features { resp, .. } => Some(resp),
            _ => None,
        }
    }

    open spec fn reads_all() -> bool {
        true
    }

    proof fn lemma_response_in_completed(self, resp: response::ServerFeatures) {
    }

    proof fn lemma_same_completed(self, resp: response::ServerFeatures) {
    }

    proof fn lemma_same_failed(self, error: ResponseError) {
    }

    proof fn lemma_own_response(self, completed: CompletedRequest) {
    }

    fn into_any(self) -> (any: AnyRequest)
        ensures
            any == AnyRequest::Features(self),
    {
        AnyRequest::Features(self)
    }

    fn into_completed(self, resp: response::ServerFeatures) -> (completed: CompletedRequest)
        ensures
            completed == (CompletedRequest::Features { req: self, resp }),
    {
        CompletedRequest::Features { req: self, resp }
    }

    fn into_failed(self, error: ResponseError) -> (failed: FailedRequest)
        ensures
            failed == (FailedRequest::Features { req: self, error }),
    {
        FailedRequest::Features { req: self, error }
    }

    fn into_response(completed: CompletedRequest) -> (resp: Option<response::ServerFeatures>)
        ensures
            completed matches CompletedRequest::Features { resp: given, .. } ==> resp
                == Some(given),
            !(completed is Features) ==> resp is None,
    {
        match completed {
            CompletedRequest::Features { resp, .. } => Some(resp),
            _ => None,
        }
    }
}

impl RequestExt for request::Ping {
    open spec fn any(self) -> AnyRequest {
        AnyRequest::Ping(self)
    }

    open spec fn completed(self, resp: ()) -> CompletedRequest {
        CompletedRequest::Ping { req: self, resp }
    }

    open spec fn failed(self, error: ResponseError) -> FailedRequest {
        FailedRequest::Ping { req: self, error }
    }

    open spec fn response_in(completed: CompletedRequest) -> Option<()> {
        match completed {
            CompletedRequest::Ping { resp, .. } => Some(resp),
            _ => None,
        }
    }

    open spec fn reads_all() -> bool {
        true
    }

    proof fn lemma_response_in_completed(self, resp: ()) {
    }

    proof fn lemma_same_completed(self, resp: ()) {
    }

    proof fn lemma_same_failed(self, error: ResponseError) {
    }

    proof fn lemma_own_response(self, completed: CompletedRequest) {
    }

    fn into_any(self) -> (any: AnyRequest)
        ensures
            any == AnyRequest::Ping(self),
    {
        AnyRequest::Ping(self)
    }

    fn into_completed(self, resp: ()) -> (completed: CompletedRequest)
        ensures
            completed == (CompletedRequest::Ping { req: self, resp }),
    {
        CompletedRequest::Ping { req: self, resp }
    }

    fn into_failed(self, error: ResponseError) -> (failed: FailedRequest)
        ensures
            failed == (FailedRequest::Ping { req: self, error }),
    {
        FailedRequest::Ping { req: self, error }
    }

    fn into_response(completed: CompletedRequest) -> (resp: Option<()>)
        ensures
            completed matches CompletedRequest::Ping { resp: given, .. } ==> resp == Some(given),
            !(completed is Ping) ==> resp is None,
    {
        match completed {
            CompletedRequest::Ping { resp, .. } => Some(resp),
            _ => None,
        }
    }
}

impl RequestExt for request::Version {
    open spec fn any(self) -> AnyRequest {
        AnyRequest::Version(self)
    }

    open spec fn completed(self, resp: Vec<String>) -> CompletedRequest {
        CompletedRequest::Version { req: self, resp }
    }

    open spec fn failed(self, error: ResponseError) -> FailedRequest {
        FailedRequest::Version { req: self, error }
    }

    open spec fn response_in(completed: CompletedRequest) -> Option<Vec<String>> {
        match completed {
            CompletedRequest::Version { resp, .. } => Some(resp),
            _ => None,
        }
    }

    open spec fn reads_all() -> bool {
        true
    }

    proof fn lemma_response_in_completed(self, resp: Vec<String>) {
    }

    proof fn lemma_same_completed(self, resp: Vec<String>) {
    }

    proof fn lemma_same_failed(self, error: ResponseError) {
    }

    proof fn lemma_own_response(self, completed: CompletedRequest) {
    }

    fn into_any(self) -> (any: AnyRequest)
        ensures
            any == AnyRequest::Version(self),
    {
        AnyRequest::Version(self)
    }

    fn into_completed(self, resp: Vec<String>) -> (completed: CompletedRequest)
        ensures
            completed == (CompletedRequest::Version { req: self, resp }),
    {
        CompletedRequest::Version { req: self, resp }
    }

    fn into_failed(self, error: ResponseError) -> (failed: FailedRequest)
        ensures
            failed == (FailedRequest::Version { req: self, error }),
    {
        FailedRequest::Version { req: self, error }
    }

    fn into_response(completed: CompletedRequest) -> (resp: Option<Vec<String>>)
        ensures
            completed matches CompletedRequest::Version { resp: given, .. } ==> resp == Some(given),
            !(completed is Version) ==> resp is None,
    {
        match completed {
            CompletedRequest::Version { resp, .. } => Some(resp),
            _ => None,
        }
    }
}

impl RequestExt for request::SpSubscribe {
    open spec fn any(self) -> AnyRequest {
        AnyRequest::SpSubscribe(self)
    }

    open spec fn completed(self, resp: String) -> CompletedRequest {
        CompletedRequest::SpSubscribe { req: self, resp }
    }

    open spec fn failed(self, error: ResponseError) -> FailedRequest {
        FailedRequest::SpSubscribe { req: self, error }
    }

    open spec fn response_in(completed: CompletedRequest) -> Option<String> {
        match completed {
            CompletedRequest::SpSubscribe { resp, .. } => Some(resp),
            _ => None,
        }
    }

    open spec fn reads_all() -> bool {
        true
    }

    proof fn lemma_response_in_completed(self, resp: String) {
    }

    proof fn lemma_same_completed(self, resp: String) {
    }

    proof fn lemma_same_failed(self, error: ResponseError) {
    }

    proof fn lemma_own_response(self, completed: CompletedRequest) {
    }

    fn into_any(self) -> (any: AnyRequest)
        ensures
            any == AnyRequest::SpSubscribe(self),
    {
        AnyRequest::SpSubscribe(self)
    }

    fn into_completed(self, resp: String) -> (completed: CompletedRequest)
        ensures
            completed == (CompletedRequest::SpSubscribe { req: self, resp }),
    {
        CompletedRequest::SpSubscribe { req: self, resp }
    }

    fn into_failed(self, error: ResponseError) -> (failed: FailedRequest)
        ensures
            failed == (FailedRequest::SpSubscribe { req: self, error }),
    {
        FailedRequest::SpSubscribe { req: self, error }
    }

    fn into_response(completed: CompletedRequest) -> (resp: Option<String>)
        ensures
            completed matches CompletedRequest::SpSubscribe { resp: given, .. } ==> resp
                == Some(given),
            !(completed is SpSubscribe) ==> resp is None,
    {
        match completed {
            CompletedRequest::SpSubscribe { resp, .. } => Some(resp),
            _ => None,
        }
    }
}

impl RequestExt for request::SpUnSubscribe {
    open spec fn any(self) -> AnyRequest {
        AnyRequest::SpUnSubscribe(self)
    }

    open spec fn completed(self, resp: String) -> CompletedRequest {
        CompletedRequest::SpUnSubscribe { req: self, resp }
    }

    open spec fn failed(self, error: ResponseError) -> FailedRequest {
        FailedRequest::SpUnSubscribe { req: self, error }
    }

    open spec fn response_in(completed: CompletedRequest) -> Option<String> {
        match completed {
            CompletedRequest::SpUnSubscribe { resp, .. } => Some(resp),
            _ => None,
        }
    }

    open spec fn reads_all() -> bool {
        true
    }

    proof fn lemma_response_in_completed(self, resp: String) {
    }

    proof fn lemma_same_completed(self, resp: String) {
    }

    proof fn lemma_same_failed(self, error: ResponseError) {
    }

    proof fn lemma_own_response(self, completed: CompletedRequest) {
    }

    fn into_any(self) -> (any: AnyRequest)
        ensures
            any == AnyRequest::SpUnSubscribe(self),
    {
        AnyRequest::SpUnSubscribe(self)
    }

    fn into_completed(self, resp: String) -> (completed: CompletedRequest)
        ensures
            completed == (CompletedRequest::SpUnSubscribe { req: self, resp }),
    {
        CompletedRequest::SpUnSubscribe { req: self, resp }
    }

    fn into_failed(self, error: ResponseError) -> (failed: FailedRequest)
        ensures
            failed == (FailedRequest::SpUnSubscribe { req: self, error }),
    {
        FailedRequest::SpUnSubscribe { req: self, error }
    }

    fn into_response(completed: CompletedRequest) -> (resp: Option<String>)
        ensures
            completed matches CompletedRequest::SpUnSubscribe { resp: given, .. } ==> resp
                == Some(given),
            !(completed is SpUnSubscribe) ==> resp is None,
    {
        match completed {
            CompletedRequest::SpUnSubscribe { resp, .. } => Some(resp),
            _ => None,
        }
    }
}

impl RequestExt for request::Custom {
    open spec fn any(self) -> AnyRequest {
        AnyRequest::Custom(self)
    }

    open spec fn completed(self, resp: Value) -> CompletedRequest {
        CompletedRequest::Custom { req: self, resp }
    }

    open spec fn failed(self, error: ResponseError) -> FailedRequest {
        FailedRequest::Custom { req: self, error }
    }

    open spec fn response_in(completed: CompletedRequest) -> Option<Value> {
        match completed {
            CompletedRequest::Custom { resp, .. } => Some(resp),
            _ => None,
        }
    }

    open spec fn reads_all() -> bool {
        true
    }

    proof fn lemma_response_in_completed(self, resp: Value) {
    }

    proof fn lemma_same_completed(self, resp: Value) {
    }

    proof fn lemma_same_failed(self, error: ResponseError) {
    }

    proof fn lemma_own_response(self, completed: CompletedRequest) {
    }

    fn into_any(self) -> (any: AnyRequest)
        ensures
            any == AnyRequest::Custom(self),
    {
        AnyRequest::Custom(self)
    }

    fn into_completed(self, resp: Value) -> (completed: CompletedRequest)
        ensures
            completed == (CompletedRequest::Custom { req: self, resp }),
    {
        CompletedRequest::Custom { req: self, resp }
    }

    fn into_failed(self, error: ResponseError) -> (failed: FailedRequest)
        ensures
            failed == (FailedRequest::Custom { req: self, error }),
    {
        FailedRequest::Custom { req: self, error }
    }

    fn into_response(completed: CompletedRequest) -> (resp: Option<Value>)
        ensures
            completed matches CompletedRequest::Custom { resp: given, .. } ==> resp == Some(given),
            !(completed is Custom) ==> resp is None,
    {
        match completed {
            CompletedRequest::Custom { resp, .. } => Some(resp),
            _ => None,
        }
    }
}

/// Every built-in request reads whatever completes it as a response of its own type.
pub proof fn lemma_every_request_reads_all()
    ensures
        <request::Header as RequestExt>::reads_all(),
        <request::HeaderWithProof as RequestExt>::reads_all(),
        <request::Headers as RequestExt>::reads_all(),
        <request::HeadersWithCheckpoint as RequestExt>::reads_all(),
        <request::EstimateFee as RequestExt>::reads_all(),
        <request::HeadersSubscribe as RequestExt>::reads_all(),
        <request::RelayFee as RequestExt>::reads_all(),
        <request::GetBalance as RequestExt>::reads_all(),
        <request::GetHistory as RequestExt>::reads_all(),
        <request::GetMempool as RequestExt>::reads_all(),
        <request::ListUnspent as RequestExt>::reads_all(),
        <request::ScriptHashSubscribe as RequestExt>::reads_all(),
        <request::ScriptHashUnsubscribe as RequestExt>::reads_all(),
        <request::BroadcastTx as RequestExt>::reads_all(),
        <request::GetTx as RequestExt>::reads_all(),
        <request::GetTxMerkle as RequestExt>::reads_all(),
        <request::GetTxidFromPos as RequestExt>::reads_all(),
        <request::GetFeeHistogram as RequestExt>::reads_all(),
        <request::Banner as RequestExt>::reads_all(),
        <request::Features as RequestExt>::reads_all(),
        <request::Ping as RequestExt>::reads_all(),
        <request::Version as RequestExt>::reads_all(),
        <request::SpSubscribe as RequestExt>::reads_all(),
        <request::SpUnSubscribe as RequestExt>::reads_all(),
        <request::Custom as RequestExt>::reads_all(),
{
}

/// A completed request holds the request that it completes and its response, which only that type
/// of request finds in it.
pub proof fn lemma_request_in_completed(completed: CompletedRequest)
    ensures
        completed matches CompletedRequest::Header { req, resp } ==> {
            &&& completed.any() == AnyRequest::Header(req)
            &&& request::Header::response_in(completed) == Some(resp)
        },
        !(completed is Header) ==> request::Header::response_in(completed) is None,
        completed matches CompletedRequest::HeaderWithProof { req, resp } ==> {
            &&& completed.any() == AnyRequest::HeaderWithProof(req)
            &&& request::HeaderWithProof::response_in(completed) == Some(resp)
        },
        !(completed is HeaderWithProof) ==> request::HeaderWithProof::response_in(
            completed,
        ) is None,
        completed matches CompletedRequest::Headers { req, resp } ==> {
            &&& completed.any() == AnyRequest::Headers(req)
            &&& request::Headers::response_in(completed) == Some(resp)
        },
        !(completed is Headers) ==> request::Headers::response_in(completed) is None,
        completed matches CompletedRequest::HeadersWithCheckpoint { req, resp } ==> {
            &&& completed.any() == AnyRequest::HeadersWithCheckpoint(req)
            &&& request::HeadersWithCheckpoint::response_in(completed) == Some(resp)
        },
        !(completed is HeadersWithCheckpoint) ==> request::HeadersWithCheckpoint::response_in(
            completed,
        ) is None,
        completed matches CompletedRequest::EstimateFee { req, resp } ==> {
            &&& completed.any() == AnyRequest::EstimateFee(req)
            &&& request::EstimateFee::response_in(completed) == Some(resp)
        },
        !(completed is EstimateFee) ==> request::EstimateFee::response_in(completed) is None,
        completed matches CompletedRequest::HeadersSubscribe { req, resp } ==> {
            &&& completed.any() == AnyRequest::HeadersSubscribe(req)
            &&& request::HeadersSubscribe::response_in(completed) == Some(resp)
        },
        !(completed is HeadersSubscribe) ==> request::HeadersSubscribe::response_in(
            completed,
        ) is None,
        completed matches CompletedRequest::RelayFee { req, resp } ==> {
            &&& completed.any() == AnyRequest::RelayFee(req)
            &&& request::RelayFee::response_in(completed) == Some(resp)
        },
        !(completed is RelayFee) ==> request::RelayFee::response_in(completed) is None,
        completed matches CompletedRequest::GetBalance { req, resp } ==> {
            &&& completed.any() == AnyRequest::GetBalance(req)
            &&& request::GetBalance::response_in(completed) == Some(resp)
        },
        !(completed is GetBalance) ==> request::GetBalance::response_in(completed) is None,
        completed matches CompletedRequest::GetHistory { req, resp } ==> {
            &&& completed.any() == AnyRequest::GetHistory(req)
            &&& request::GetHistory::response_in(completed) == Some(resp)
        },
        !(completed is GetHistory) ==> request::GetHistory::response_in(completed) is None,
        completed matches CompletedRequest::GetMempool { req, resp } ==> {
            &&& completed.any() == AnyRequest::GetMempool(req)
            &&& request::GetMempool::response_in(completed) == Some(resp)
        },
        !(completed is GetMempool) ==> request::GetMempool::response_in(completed) is None,
        completed matches CompletedRequest::ListUnspent { req, resp } ==> {
            &&& completed.any() == AnyRequest::ListUnspent(req)
            &&& request::ListUnspent::response_in(completed) == Some(resp)
        },
        !(completed is ListUnspent) ==> request::ListUnspent::response_in(completed) is None,
        completed matches CompletedRequest::ScriptHashSubscribe { req, resp } ==> {
            &&& completed.any() == AnyRequest::ScriptHashSubscribe(req)
            &&& request::ScriptHashSubscribe::response_in(completed) == Some(resp)
        },
        !(completed is ScriptHashSubscribe) ==> request::ScriptHashSubscribe::response_in(
            completed,
        ) is None,
        completed matches CompletedRequest::ScriptHashUnsubscribe { req, resp } ==> {
            &&& completed.any() == AnyRequest::ScriptHashUnsubscribe(req)
            &&& request::ScriptHashUnsubscribe::response_in(completed) == Some(resp)
        },
        !(completed is ScriptHashUnsubscribe) ==> request::ScriptHashUnsubscribe::response_in(
            completed,
        ) is None,
        completed matches CompletedRequest::BroadcastTx { req, resp } ==> {
            &&& completed.any() == AnyRequest::BroadcastTx(req)
            &&& request::BroadcastTx::response_in(completed) == Some(resp)
        },
        !(completed is BroadcastTx) ==> request::BroadcastTx::response_in(completed) is None,
        completed matches CompletedRequest::GetTx { req, resp } ==> {
            &&& completed.any() == AnyRequest::GetTx(req)
            &&& request::GetTx::response_in(completed) == Some(resp)
        },
        !(completed is GetTx) ==> request::GetTx::response_in(completed) is None,
        completed matches CompletedRequest::GetTxMerkle { req, resp } ==> {
            &&& completed.any() == AnyRequest::GetTxMerkle(req)
            &&& request::GetTxMerkle::response_in(completed) == Some(resp)
        },
        !(completed is GetTxMerkle) ==> request::GetTxMerkle::response_in(completed) is None,
        completed matches CompletedRequest::GetTxidFromPos { req, resp } ==> {
            &&& completed.any() == AnyRequest::GetTxidFromPos(req)
            &&& request::GetTxidFromPos::response_in(completed) == Some(resp)
        },
        !(completed is GetTxidFromPos) ==> request::GetTxidFromPos::response_in(completed) is None,
        completed matches CompletedRequest::GetFeeHistogram { req, resp } ==> {
            &&& completed.any() == AnyRequest::GetFeeHistogram(req)
            &&& request::GetFeeHistogram::response_in(completed) == Some(resp)
        },
        !(completed is GetFeeHistogram) ==> request::GetFeeHistogram::response_in(
            completed,
        ) is None,
        completed matches CompletedRequest::Banner { req, resp } ==> {
            &&& completed.any() == AnyRequest::Banner(req)
            &&& request::Banner::response_in(completed) == Some(resp)
        },
        !(completed is Banner) ==> request::Banner::response_in(completed) is None,
        completed matches CompletedRequest::Features { req, resp } ==> {
            &&& completed.any() == AnyRequest::Features(req)
            &&& request::Features::response_in(completed) == Some(resp)
        },
        !(completed is Features) ==> request::Features::response_in(completed) is None,
        completed matches CompletedRequest::Ping { req, resp } ==> {
            &&& completed.any() == AnyRequest::Ping(req)
            &&& request::Ping::response_in(completed) == Some(resp)
        },
        !(completed is Ping) ==> request::Ping::response_in(completed) is None,
        completed matches CompletedRequest::Version { req, resp } ==> {
            &&& completed.any() == AnyRequest::Version(req)
            &&& request::Version::response_in(completed) == Some(resp)
        },
        !(completed is Version) ==> request::Version::response_in(completed) is None,
        completed matches CompletedRequest::SpSubscribe { req, resp } ==> {
            &&& completed.any() == AnyRequest::SpSubscribe(req)
            &&& request::SpSubscribe::response_in(completed) == Some(resp)
        },
        !(completed is SpSubscribe) ==> request::SpSubscribe::response_in(completed) is None,
        completed matches CompletedRequest::SpUnSubscribe { req, resp } ==> {
            &&& completed.any() == AnyRequest::SpUnSubscribe(req)
            &&& request::SpUnSubscribe::response_in(completed) == Some(resp)
        },
        !(completed is SpUnSubscribe) ==> request::SpUnSubscribe::response_in(completed) is None,
        completed matches CompletedRequest::Custom { req, resp } ==> {
            &&& completed.any() == AnyRequest::Custom(req)
            &&& request::Custom::response_in(completed) == Some(resp)
        },
        !(completed is Custom) ==> request::Custom::response_in(completed) is None,
{
}

/// A failed request holds the request that failed and the error that answered it.
pub proof fn lemma_failed_parts(request: AnyRequest, error: ResponseError)
    ensures
        request matches AnyRequest::Header(req) ==> {
            &&& request.failed(error) == (FailedRequest::Header { req, error })
            &&& (FailedRequest::Header { req, error }).any() == request
            &&& (FailedRequest::Header { req, error }).error() == error
        },
        request matches AnyRequest::HeaderWithProof(req) ==> {
            &&& request.failed(error) == (FailedRequest::HeaderWithProof { req, error })
            &&& (FailedRequest::HeaderWithProof { req, error }).any() == request
            &&& (FailedRequest::HeaderWithProof { req, error }).error() == error
        },
        request matches AnyRequest::Headers(req) ==> {
            &&& request.failed(error) == (FailedRequest::Headers { req, error })
            &&& (FailedRequest::Headers { req, error }).any() == request
            &&& (FailedRequest::Headers { req, error }).error() == error
        },
        request matches AnyRequest::HeadersWithCheckpoint(req) ==> {
            &&& request.failed(error) == (FailedRequest::HeadersWithCheckpoint { req, error })
            &&& (FailedRequest::HeadersWithCheckpoint { req, error }).any() == request
            &&& (FailedRequest::HeadersWithCheckpoint { req, error }).error() == error
        },
        request matches AnyRequest::EstimateFee(req) ==> {
            &&& request.failed(error) == (FailedRequest::EstimateFee { req, error })
            &&& (FailedRequest::EstimateFee { req, error }).any() == request
            &&& (FailedRequest::EstimateFee { req, error }).error() == error
        },
        request matches AnyRequest::HeadersSubscribe(req) ==> {
            &&& request.failed(error) == (FailedRequest::HeadersSubscribe { req, error })
            &&& (FailedRequest::HeadersSubscribe { req, error }).any() == request
            &&& (FailedRequest::HeadersSubscribe { req, error }).error() == error
        },
        request matches AnyRequest::RelayFee(req) ==> {
            &&& request.failed(error) == (FailedRequest::RelayFee { req, error })
            &&& (FailedRequest::RelayFee { req, error }).any() == request
            &&& (FailedRequest::RelayFee { req, error }).error() == error
        },
        request matches AnyRequest::GetBalance(req) ==> {
            &&& request.failed(error) == (FailedRequest::GetBalance { req, error })
            &&& (FailedRequest::GetBalance { req, error }).any() == request
            &&& (FailedRequest::GetBalance { req, error }).error() == error
        },
        request matches AnyRequest::GetHistory(req) ==> {
            &&& request.failed(error) == (FailedRequest::GetHistory { req, error })
            &&& (FailedRequest::GetHistory { req, error }).any() == request
            &&& (FailedRequest::GetHistory { req, error }).error() == error
        },
        request matches AnyRequest::GetMempool(req) ==> {
            &&& request.failed(error) == (FailedRequest::GetMempool { req, error })
            &&& (FailedRequest::GetMempool { req, error }).any() == request
            &&& (FailedRequest::GetMempool { req, error }).error() == error
        },
        request matches AnyRequest::ListUnspent(req) ==> {
            &&& request.failed(error) == (FailedRequest::ListUnspent { req, error })
            &&& (FailedRequest::ListUnspent { req, error }).any() == request
            &&& (FailedRequest::ListUnspent { req, error }).error() == error
        },
        request matches AnyRequest::ScriptHashSubscribe(req) ==> {
            &&& request.failed(error) == (FailedRequest::ScriptHashSubscribe { req, error })
            &&& (FailedRequest::ScriptHashSubscribe { req, error }).any() == request
            &&& (FailedRequest::ScriptHashSubscribe { req, error }).error() == error
        },
        request matches AnyRequest::ScriptHashUnsubscribe(req) ==> {
            &&& request.failed(error) == (FailedRequest::ScriptHashUnsubscribe { req, error })
            &&& (FailedRequest::ScriptHashUnsubscribe { req, error }).any() == request
            &&& (FailedRequest::ScriptHashUnsubscribe { req, error }).error() == error
        },
        request matches AnyRequest::BroadcastTx(req) ==> {
            &&& request.failed(error) == (FailedRequest::BroadcastTx { req, error })
            &&& (FailedRequest::BroadcastTx { req, error }).any() == request
            &&& (FailedRequest::BroadcastTx { req, error }).error() == error
        },
        request matches AnyRequest::GetTx(req) ==> {
            &&& request.failed(error) == (FailedRequest::GetTx { req, error })
            &&& (FailedRequest::GetTx { req, error }).any() == request
            &&& (FailedRequest::GetTx { req, error }).error() == error
        },
        request matches AnyRequest::GetTxMerkle(req) ==> {
            &&& request.failed(error) == (FailedRequest::GetTxMerkle { req, error })
            &&& (FailedRequest::GetTxMerkle { req, error }).any() == request
            &&& (FailedRequest::GetTxMerkle { req, error }).error() == error
        },
        request matches AnyRequest::GetTxidFromPos(req) ==> {
            &&& request.failed(error) == (FailedRequest::GetTxidFromPos { req, error })
            &&& (FailedRequest::GetTxidFromPos { req, error }).any() == request
            &&& (FailedRequest::GetTxidFromPos { req, error }).error() == error
        },
        request matches AnyRequest::GetFeeHistogram(req) ==> {
            &&& request.failed(error) == (FailedRequest::GetFeeHistogram { req, error })
            &&& (FailedRequest::GetFeeHistogram { req, error }).any() == request
            &&& (FailedRequest::GetFeeHistogram { req, error }).error() == error
        },
        request matches AnyRequest::Banner(req) ==> {
            &&& request.failed(error) == (FailedRequest::Banner { req, error })
            &&& (FailedRequest::Banner { req, error }).any() == request
            &&& (FailedRequest::Banner { req, error }).error() == error
        },
        request matches AnyRequest::Features(req) ==> {
            &&& request.failed(error) == (FailedRequest::Features { req, error })
            &&& (FailedRequest::Features { req, error }).any() == request
            &&& (FailedRequest::Features { req, error }).error() == error
        },
        request matches AnyRequest::Ping(req) ==> {
            &&& request.failed(error) == (FailedRequest::Ping { req, error })
            &&& (FailedRequest::Ping { req, error }).any() == request
            &&& (FailedRequest::Ping { req, error }).error() == error
        },
        request matches AnyRequest::Version(req) ==> {
            &&& request.failed(error) == (FailedRequest::Version { req, error })
            &&& (FailedRequest::Version { req, error }).any() == request
            &&& (FailedRequest::Version { req, error }).error() == error
        },
        request matches AnyRequest::SpSubscribe(req) ==> {
            &&& request.failed(error) == (FailedRequest::SpSubscribe { req, error })
            &&& (FailedRequest::SpSubscribe { req, error }).any() == request
            &&& (FailedRequest::SpSubscribe { req, error }).error() == error
        },
        request matches AnyRequest::SpUnSubscribe(req) ==> {
            &&& request.failed(error) == (FailedRequest::SpUnSubscribe { req, error })
            &&& (FailedRequest::SpUnSubscribe { req, error }).any() == request
            &&& (FailedRequest::SpUnSubscribe { req, error }).error() == error
        },
        request matches AnyRequest::Custom(req) ==> {
            &&& request.failed(error) == (FailedRequest::Custom { req, error })
            &&& (FailedRequest::Custom { req, error }).any() == request
            &&& (FailedRequest::Custom { req, error }).error() == error
        },
{
}

} // verus!
