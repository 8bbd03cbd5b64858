//! Requests that wait for their response.

use vstd::prelude::*;

use crate::chain::Txid;
use crate::decode::{DecodeError, ResponseDecoder};
use crate::raw::cow_clone;
use crate::request_ext::{AnyRequest, CompletedRequest, FailedRequest, RequestExt};
use crate::response;
use crate::value;
use crate::{ElectrumScriptStatus, Event, MethodAndParams, ResponseError, ResponseResult, Value};

verus! {

/// What a request becomes once its response has been read.
pub open spec fn concluded<Req: RequestExt>(
    req: Req,
    decoded: Result<Req::Response, DecodeError>,
) -> Result<CompletedRequest, DecodeError> {
    match decoded {
        Ok(resp) => Ok(req.completed(resp)),
        Err(error) => Err(error),
    }
}

/// Concludes a request with what was read from its response.
pub fn conclude<Req: RequestExt>(
    req: Req,
    decoded: Result<Req::Response, DecodeError>,
) -> (outcome: Result<CompletedRequest, DecodeError>)
    ensures
        outcome == concluded(req, decoded),
        decoded matches Ok(resp) ==> outcome == Ok::<CompletedRequest, DecodeError>(
            req.completed(resp),
        ),
        decoded matches Err(error) ==> outcome == Err::<CompletedRequest, DecodeError>(error),
{
    match decoded {
        Ok(resp) => Ok(req.into_completed(resp)),
        Err(error) => Err(error),
    }
}

impl AnyRequest {
    /// Whether `outcome` is what this request becomes, as far as a decoder reads its response.
    ///
    /// The type of the request decides which type its response is read as. A custom request takes
    /// any response as it is.
    pub open spec fn completes<D: ResponseDecoder>(
        self,
        decoder: &D,
        raw: Value,
        outcome: Result<CompletedRequest, DecodeError>,
    ) -> bool {
        match self {
            AnyRequest::Header(req) => exists|decoded: Result<response::HeaderResp, DecodeError>|
                {
                    &&& #[trigger] call_ensures(D::header, (decoder, &raw), decoded)
                    &&& outcome == concluded(req, decoded)
                },
            AnyRequest::HeaderWithProof(req) => exists|
                decoded: Result<response::HeaderWithProofResp, DecodeError>,
            |
                {
                    &&& #[trigger] call_ensures(D::header_with_proof, (decoder, &raw), decoded)
                    &&& outcome == concluded(req, decoded)
                },
            AnyRequest::Headers(req) => exists|decoded: Result<response::HeadersResp, DecodeError>|
                {
                    &&& #[trigger] call_ensures(D::headers, (decoder, &raw), decoded)
                    &&& outcome == concluded(req, decoded)
                },
            AnyRequest::HeadersWithCheckpoint(req) => exists|
                decoded: Result<response::HeadersWithCheckpointResp, DecodeError>,
            |
                {
                    &&& #[trigger] call_ensures(
                        D::headers_with_checkpoint,
                        (decoder, &raw),
                        decoded,
                    )
                    &&& outcome == concluded(req, decoded)
                },
            AnyRequest::EstimateFee(req) => exists|
                decoded: Result<response::EstimateFeeResp, DecodeError>,
            |
                {
                    &&& #[trigger] call_ensures(D::estimate_fee, (decoder, &raw), decoded)
                    &&& outcome == concluded(req, decoded)
                },
            AnyRequest::HeadersSubscribe(req) => exists|
                decoded: Result<response::HeadersSubscribeResp, DecodeError>,
            |
                {
                    &&& #[trigger] call_ensures(D::headers_subscribe, (decoder, &raw), decoded)
                    &&& outcome == concluded(req, decoded)
                },
            AnyRequest::RelayFee(req) => exists|
                decoded: Result<response::RelayFeeResp, DecodeError>,
            |
                {
                    &&& #[trigger] call_ensures(D::relay_fee, (decoder, &raw), decoded)
                    &&& outcome == concluded(req, decoded)
                },
            AnyRequest::GetBalance(req) => exists|
                decoded: Result<response::GetBalanceResp, DecodeError>,
            |
                {
                    &&& #[trigger] call_ensures(D::balance, (decoder, &raw), decoded)
                    &&& outcome == concluded(req, decoded)
                },
            AnyRequest::GetHistory(req) => exists|decoded: Result<Vec<response::Tx>, DecodeError>|
                {
                    &&& #[trigger] call_ensures(D::history, (decoder, &raw), decoded)
                    &&& outcome == concluded(req, decoded)
                },
            AnyRequest::GetMempool(req) => exists|
                decoded: Result<Vec<response::MempoolTx>, DecodeError>,
            |
                {
                    &&& #[trigger] call_ensures(D::mempool, (decoder, &raw), decoded)
                    &&& outcome == concluded(req, decoded)
                },
            AnyRequest::ListUnspent(req) => exists|
                decoded: Result<Vec<response::Utxo>, DecodeError>,
            |
                {
                    &&& #[trigger] call_ensures(D::unspent, (decoder, &raw), decoded)
                    &&& outcome == concluded(req, decoded)
                },
            AnyRequest::ScriptHashSubscribe(req) => exists|
                decoded: Result<Option<ElectrumScriptStatus>, DecodeError>,
            |
                {
                    &&& #[trigger] call_ensures(D::script_status, (decoder, &raw), decoded)
                    &&& outcome == concluded(req, decoded)
                },
            AnyRequest::ScriptHashUnsubscribe(req) => exists|decoded: Result<bool, DecodeError>|
                {
                    &&& #[trigger] call_ensures(D::flag, (decoder, &raw), decoded)
                    &&& outcome == concluded(req, decoded)
                },
            AnyRequest::BroadcastTx(req) => exists|decoded: Result<Txid, DecodeError>|
                {
                    &&& #[trigger] call_ensures(D::txid, (decoder, &raw), decoded)
                    &&& outcome == concluded(req, decoded)
                },
            AnyRequest::GetTx(req) => exists|decoded: Result<response::FullTx, DecodeError>|
                {
                    &&& #[trigger] call_ensures(D::full_tx, (decoder, &raw), decoded)
                    &&& outcome == concluded(req, decoded)
                },
            AnyRequest::GetTxMerkle(req) => exists|decoded: Result<response::TxMerkle, DecodeError>|
                {
                    &&& #[trigger] call_ensures(D::tx_merkle, (decoder, &raw), decoded)
                    &&& outcome == concluded(req, decoded)
                },
            AnyRequest::GetTxidFromPos(req) => exists|
                decoded: Result<response::TxidFromPos, DecodeError>,
            |
                {
                    &&& #[trigger] call_ensures(D::txid_from_pos, (decoder, &raw), decoded)
                    &&& outcome == concluded(req, decoded)
                },
            AnyRequest::GetFeeHistogram(req) => exists|
                decoded: Result<Vec<response::FeePair>, DecodeError>,
            |
                {
                    &&& #[trigger] call_ensures(D::fee_histogram, (decoder, &raw), decoded)
                    &&& outcome == concluded(req, decoded)
                },
            AnyRequest::Banner(req) => exists|decoded: Result<String, DecodeError>|
                {
                    &&& #[trigger] call_ensures(D::string, (decoder, &raw), decoded)
                    &&& outcome == concluded(req, decoded)
                },
            AnyRequest::Features(req) => exists|
                decoded: Result<response::ServerFeatures, DecodeError>,
            |
                {
                    &&& #[trigger] call_ensures(D::server_features, (decoder, &raw), decoded)
                    &&& outcome == concluded(req, decoded)
                },
            AnyRequest::Ping(req) => exists|decoded: Result<(), DecodeError>|
                {
                    &&& #[trigger] call_ensures(D::nothing, (decoder, &raw), decoded)
                    &&& outcome == concluded(req, decoded)
                },
            AnyRequest::Version(req) => exists|decoded: Result<Vec<String>, DecodeError>|
                {
                    &&& #[trigger] call_ensures(D::strings, (decoder, &raw), decoded)
                    &&& outcome == concluded(req, decoded)
                },
            AnyRequest::SpSubscribe(req) => exists|decoded: Result<String, DecodeError>|
                {
                    &&& #[trigger] call_ensures(D::string, (decoder, &raw), decoded)
                    &&& outcome == concluded(req, decoded)
                },
            AnyRequest::SpUnSubscribe(req) => exists|decoded: Result<String, DecodeError>|
                {
                    &&& #[trigger] call_ensures(D::string, (decoder, &raw), decoded)
                    &&& outcome == concluded(req, decoded)
                },
            AnyRequest::Custom(req) => outcome == concluded(req, Ok(raw)),
        }
    }

    /// Reads the response to this request and completes it.
    pub fn complete<D: ResponseDecoder>(self, raw: Value, decoder: &D) -> (outcome: Result<
        CompletedRequest,
        DecodeError,
    >)
        ensures
            self.completes(decoder, raw, outcome),
            self matches AnyRequest::Header(req) ==> match outcome {
                Ok(completed) => {
                    &&& completed matches CompletedRequest::Header { req: asked, resp }
                    &&& asked == req
                    &&& call_ensures(D::header, (decoder, &raw), Ok(resp))
                },
                Err(error) => call_ensures(D::header, (decoder, &raw), Err(error)),
            },
            self matches AnyRequest::HeaderWithProof(req) ==> match outcome {
                Ok(completed) => {
                    &&& completed matches CompletedRequest::HeaderWithProof { req: asked, resp }
                    &&& asked == req
                    &&& call_ensures(D::header_with_proof, (decoder, &raw), Ok(resp))
                },
                Err(error) => call_ensures(D::header_with_proof, (decoder, &raw), Err(error)),
            },
            self matches AnyRequest::Headers(req) ==> match outcome {
                Ok(completed) => {
                    &&& completed matches CompletedRequest::Headers { req: asked, resp }
                    &&& asked == req
                    &&& call_ensures(D::headers, (decoder, &raw), Ok(resp))
                },
                Err(error) => call_ensures(D::headers, (decoder, &raw), Err(error)),
            },
            self matches AnyRequest::HeadersWithCheckpoint(req) ==> match outcome {
                Ok(completed) => {
                    &&& completed matches CompletedRequest::HeadersWithCheckpoint {
                        req: asked,
                        resp,
                    }
                    &&& asked == req
                    &&& call_ensures(D::headers_with_checkpoint, (decoder, &raw), Ok(resp))
                },
                Err(error) => call_ensures(D::headers_with_checkpoint, (decoder, &raw), Err(error)),
            },
            self matches AnyRequest::EstimateFee(req) ==> match outcome {
                Ok(completed) => {
                    &&& completed matches CompletedRequest::EstimateFee { req: asked, resp }
                    &&& asked == req
                    &&& call_ensures(D::estimate_fee, (decoder, &raw), Ok(resp))
                },
                Err(error) => call_ensures(D::estimate_fee, (decoder, &raw), Err(error)),
            },
            self matches AnyRequest::HeadersSubscribe(req) ==> match outcome {
                Ok(completed) => {
                    &&& completed matches CompletedRequest::HeadersSubscribe { req: asked, resp }
                    &&& asked == req
                    &&& call_ensures(D::headers_subscribe, (decoder, &raw), Ok(resp))
                },
                Err(error) => call_ensures(D::headers_subscribe, (decoder, &raw), Err(error)),
            },
            self matches AnyRequest::RelayFee(req) ==> match outcome {
                Ok(completed) => {
                    &&& completed matches CompletedRequest::RelayFee { req: asked, resp }
                    &&& asked == req
                    &&& call_ensures(D::relay_fee, (decoder, &raw), Ok(resp))
                },
                Err(error) => call_ensures(D::relay_fee, (decoder, &raw), Err(error)),
            },
            self matches AnyRequest::GetBalance(req) ==> match outcome {
                Ok(completed) => {
                    &&& completed matches CompletedRequest::GetBalance { req: asked, resp }
                    &&& asked == req
                    &&& call_ensures(D::balance, (decoder, &raw), Ok(resp))
                },
                Err(error) => call_ensures(D::balance, (decoder, &raw), Err(error)),
            },
            self matches AnyRequest::GetHistory(req) ==> match outcome {
                Ok(completed) => {
                    &&& completed matches CompletedRequest::GetHistory { req: asked, resp }
                    &&& asked == req
                    &&& call_ensures(D::history, (decoder, &raw), Ok(resp))
                },
                Err(error) => call_ensures(D::history, (decoder, &raw), Err(error)),
            },
            self matches AnyRequest::GetMempool(req) ==> match outcome {
                Ok(completed) => {
                    &&& completed matches CompletedRequest::GetMempool { req: asked, resp }
                    &&& asked == req
                    &&& call_ensures(D::mempool, (decoder, &raw), Ok(resp))
                },
                Err(error) => call_ensures(D::mempool, (decoder, &raw), Err(error)),
            },
            self matches AnyRequest::ListUnspent(req) ==> match outcome {
                Ok(completed) => {
                    &&& completed matches CompletedRequest::ListUnspent { req: asked, resp }
                    &&& asked == req
                    &&& call_ensures(D::unspent, (decoder, &raw), Ok(resp))
                },
                Err(error) => call_ensures(D::unspent, (decoder, &raw), Err(error)),
            },
            self matches AnyRequest::ScriptHashSubscribe(req) ==> match outcome {
                Ok(completed) => {
                    &&& completed matches CompletedRequest::ScriptHashSubscribe { req: asked, resp }
                    &&& asked == req
                    &&& call_ensures(D::script_status, (decoder, &raw), Ok(resp))
                },
                Err(error) => call_ensures(D::script_status, (decoder, &raw), Err(error)),
            },
            self matches AnyRequest::ScriptHashUnsubscribe(req) ==> match outcome {
                Ok(completed) => {
                    &&& completed matches CompletedRequest::ScriptHashUnsubscribe {
                        req: asked,
                        resp,
                    }
                    &&& asked == req
                    &&& call_ensures(D::flag, (decoder, &raw), Ok(resp))
                },
                Err(error) => call_ensures(D::flag, (decoder, &raw), Err(error)),
            },
            self matches AnyRequest::BroadcastTx(req) ==> match outcome {
                Ok(completed) => {
                    &&& completed matches CompletedRequest::BroadcastTx { req: asked, resp }
                    &&& asked == req
                    &&& call_ensures(D::txid, (decoder, &raw), Ok(resp))
                },
                Err(error) => call_ensures(D::txid, (decoder, &raw), Err(error)),
            },
            self matches AnyRequest::GetTx(req) ==> match outcome {
                Ok(completed) => {
                    &&& completed matches CompletedRequest::GetTx { req: asked, resp }
                    &&& asked == req
                    &&& call_ensures(D::full_tx, (decoder, &raw), Ok(resp))
                },
                Err(error) => call_ensures(D::full_tx, (decoder, &raw), Err(error)),
            },
            self matches AnyRequest::GetTxMerkle(req) ==> match outcome {
                Ok(completed) => {
                    &&& completed matches CompletedRequest::GetTxMerkle { req: asked, resp }
                    &&& asked == req
                    &&& call_ensures(D::tx_merkle, (decoder, &raw), Ok(resp))
                },
                Err(error) => call_ensures(D::tx_merkle, (decoder, &raw), Err(error)),
            },
            self matches AnyRequest::GetTxidFromPos(req) ==> match outcome {
                Ok(completed) => {
                    &&& completed matches CompletedRequest::GetTxidFromPos { req: asked, resp }
                    &&& asked == req
                    &&& call_ensures(D::txid_from_pos, (decoder, &raw), Ok(resp))
                },
                Err(error) => call_ensures(D::txid_from_pos, (decoder, &raw), Err(error)),
            },
            self matches AnyRequest::GetFeeHistogram(req) ==> match outcome {
                Ok(completed) => {
                    &&& completed matches CompletedRequest::GetFeeHistogram { req: asked, resp }
                    &&& asked == req
                    &&& call_ensures(D::fee_histogram, (decoder, &raw), Ok(resp))
                },
                Err(error) => call_ensures(D::fee_histogram, (decoder, &raw), Err(error)),
            },
            self matches AnyRequest::Banner(req) ==> match outcome {
                Ok(completed) => {
                    &&& completed matches CompletedRequest::Banner { req: asked, resp }
                    &&& asked == req
                    &&& call_ensures(D::string, (decoder, &raw), Ok(resp))
                },
                Err(error) => call_ensures(D::string, (decoder, &raw), Err(error)),
            },
            self matches AnyRequest::Features(req) ==> match outcome {
                Ok(completed) => {
                    &&& completed matches CompletedRequest::Features { req: asked, resp }
                    &&& asked == req
                    &&& call_ensures(D::server_features, (decoder, &raw), Ok(resp))
                },
                Err(error) => call_ensures(D::server_features, (decoder, &raw), Err(error)),
            },
            self matches AnyRequest::Ping(req) ==> match outcome {
                Ok(completed) => {
                    &&& completed matches CompletedRequest::Ping { req: asked, resp }
                    &&& asked == req
                    &&& call_ensures(D::nothing, (decoder, &raw), Ok(resp))
                },
                Err(error) => call_ensures(D::nothing, (decoder, &raw), Err(error)),
            },
            self matches AnyRequest::Version(req) ==> match outcome {
                Ok(completed) => {
                    &&& completed matches CompletedRequest::Version { req: asked, resp }
                    &&& asked == req
                    &&& call_ensures(D::strings, (decoder, &raw), Ok(resp))
                },
                Err(error) => call_ensures(D::strings, (decoder, &raw), Err(error)),
            },
            self matches AnyRequest::SpSubscribe(req) ==> match outcome {
                Ok(completed) => {
                    &&& completed matches CompletedRequest::SpSubscribe { req: asked, resp }
                    &&& asked == req
                    &&& call_ensures(D::string, (decoder, &raw), Ok(resp))
                },
                Err(error) => call_ensures(D::string, (decoder, &raw), Err(error)),
            },
            self matches AnyRequest::SpUnSubscribe(req) ==> match outcome {
                Ok(completed) => {
                    &&& completed matches CompletedRequest::SpUnSubscribe { req: asked, resp }
                    &&& asked == req
                    &&& call_ensures(D::string, (decoder, &raw), Ok(resp))
                },
                Err(error) => call_ensures(D::string, (decoder, &raw), Err(error)),
            },
            self matches AnyRequest::Custom(req) ==> {
                &&& outcome matches Ok(CompletedRequest::Custom { req: asked, resp })
                &&& asked == req
                &&& resp == raw
            },
    {
        match self {
            AnyRequest::Header(req) => conclude(req, decoder.header(&raw)),
            AnyRequest::HeaderWithProof(req) => conclude(req, decoder.header_with_proof(&raw)),
            AnyRequest::Headers(req) => conclude(req, decoder.headers(&raw)),
            AnyRequest::HeadersWithCheckpoint(req) => {
                conclude(req, decoder.headers_with_checkpoint(&raw))
            },
            AnyRequest::EstimateFee(req) => conclude(req, decoder.estimate_fee(&raw)),
            AnyRequest::HeadersSubscribe(req) => conclude(req, decoder.headers_subscribe(&raw)),
            AnyRequest::RelayFee(req) => conclude(req, decoder.relay_fee(&raw)),
            AnyRequest::GetBalance(req) => conclude(req, decoder.balance(&raw)),
            AnyRequest::GetHistory(req) => conclude(req, decoder.history(&raw)),
            AnyRequest::GetMempool(req) => conclude(req, decoder.mempool(&raw)),
            AnyRequest::ListUnspent(req) => conclude(req, decoder.unspent(&raw)),
            AnyRequest::ScriptHashSubscribe(req) => conclude(req, decoder.script_status(&raw)),
            AnyRequest::ScriptHashUnsubscribe(req) => conclude(req, decoder.flag(&raw)),
            AnyRequest::BroadcastTx(req) => conclude(req, decoder.txid(&raw)),
            AnyRequest::GetTx(req) => conclude(req, decoder.full_tx(&raw)),
            AnyRequest::GetTxMerkle(req) => conclude(req, decoder.tx_merkle(&raw)),
            AnyRequest::GetTxidFromPos(req) => conclude(req, decoder.txid_from_pos(&raw)),
            AnyRequest::GetFeeHistogram(req) => conclude(req, decoder.fee_histogram(&raw)),
            AnyRequest::Banner(req) => conclude(req, decoder.string(&raw)),
            AnyRequest::Features(req) => conclude(req, decoder.server_features(&raw)),
            AnyRequest::Ping(req) => conclude(req, decoder.nothing(&raw)),
            AnyRequest::Version(req) => conclude(req, decoder.strings(&raw)),
            AnyRequest::SpSubscribe(req) => conclude(req, decoder.string(&raw)),
            AnyRequest::SpUnSubscribe(req) => conclude(req, decoder.string(&raw)),
            AnyRequest::Custom(req) => conclude(req, Ok(raw)),
        }
    }

    /// Wraps this request and an error into a [`FailedRequest`].
    pub fn into_failed(self, error: ResponseError) -> (failed: FailedRequest)
        ensures
            failed == self.failed(error),
            self matches AnyRequest::Header(req) ==> failed
                == (FailedRequest::Header { req, error }),
            self matches AnyRequest::HeaderWithProof(req) ==> failed
                == (FailedRequest::HeaderWithProof { req, error }),
            self matches AnyRequest::Headers(req) ==> failed
                == (FailedRequest::Headers { req, error }),
            self matches AnyRequest::HeadersWithCheckpoint(req) ==> failed
                == (FailedRequest::HeadersWithCheckpoint { req, error }),
            self matches AnyRequest::EstimateFee(req) ==> failed
                == (FailedRequest::EstimateFee { req, error }),
            self matches AnyRequest::HeadersSubscribe(req) ==> failed
                == (FailedRequest::HeadersSubscribe { req, error }),
            self matches AnyRequest::RelayFee(req) ==> failed
                == (FailedRequest::RelayFee { req, error }),
            self matches AnyRequest::GetBalance(req) ==> failed
                == (FailedRequest::GetBalance { req, error }),
            self matches AnyRequest::GetHistory(req) ==> failed
                == (FailedRequest::GetHistory { req, error }),
            self matches AnyRequest::GetMempool(req) ==> failed
                == (FailedRequest::GetMempool { req, error }),
            self matches AnyRequest::ListUnspent(req) ==> failed
                == (FailedRequest::ListUnspent { req, error }),
            self matches AnyRequest::ScriptHashSubscribe(req) ==> failed
                == (FailedRequest::ScriptHashSubscribe { req, error }),
            self matches AnyRequest::ScriptHashUnsubscribe(req) ==> failed
                == (FailedRequest::ScriptHashUnsubscribe { req, error }),
            self matches AnyRequest::BroadcastTx(req) ==> failed
                == (FailedRequest::BroadcastTx { req, error }),
            self matches AnyRequest::GetTx(req) ==> failed == (FailedRequest::GetTx { req, error }),
            self matches AnyRequest::GetTxMerkle(req) ==> failed
                == (FailedRequest::GetTxMerkle { req, error }),
            self matches AnyRequest::GetTxidFromPos(req) ==> failed
                == (FailedRequest::GetTxidFromPos { req, error }),
            self matches AnyRequest::GetFeeHistogram(req) ==> failed
                == (FailedRequest::GetFeeHistogram { req, error }),
            self matches AnyRequest::Banner(req) ==> failed
                == (FailedRequest::Banner { req, error }),
            self matches AnyRequest::Features(req) ==> failed
                == (FailedRequest::Features { req, error }),
            self matches AnyRequest::Ping(req) ==> failed == (FailedRequest::Ping { req, error }),
            self matches AnyRequest::Version(req) ==> failed
                == (FailedRequest::Version { req, error }),
            self matches AnyRequest::SpSubscribe(req) ==> failed
                == (FailedRequest::SpSubscribe { req, error }),
            self matches AnyRequest::SpUnSubscribe(req) ==> failed
                == (FailedRequest::SpUnSubscribe { req, error }),
            self matches AnyRequest::Custom(req) ==> failed
                == (FailedRequest::Custom { req, error }),
    {
        match self {
            AnyRequest::Header(req) => req.into_failed(error),
            AnyRequest::HeaderWithProof(req) => req.into_failed(error),
            AnyRequest::Headers(req) => req.into_failed(error),
            AnyRequest::HeadersWithCheckpoint(req) => req.into_failed(error),
            AnyRequest::EstimateFee(req) => req.into_failed(error),
            AnyRequest::HeadersSubscribe(req) => req.into_failed(error),
            AnyRequest::RelayFee(req) => req.into_failed(error),
            AnyRequest::GetBalance(req) => req.into_failed(error),
            AnyRequest::GetHistory(req) => req.into_failed(error),
            AnyRequest::GetMempool(req) => req.into_failed(error),
            AnyRequest::ListUnspent(req) => req.into_failed(error),
            AnyRequest::ScriptHashSubscribe(req) => req.into_failed(error),
            AnyRequest::ScriptHashUnsubscribe(req) => req.into_failed(error),
            AnyRequest::BroadcastTx(req) => req.into_failed(error),
            AnyRequest::GetTx(req) => req.into_failed(error),
            AnyRequest::GetTxMerkle(req) => req.into_failed(error),
            AnyRequest::GetTxidFromPos(req) => req.into_failed(error),
            AnyRequest::GetFeeHistogram(req) => req.into_failed(error),
            AnyRequest::Banner(req) => req.into_failed(error),
            AnyRequest::Features(req) => req.into_failed(error),
            AnyRequest::Ping(req) => req.into_failed(error),
            AnyRequest::Version(req) => req.into_failed(error),
            AnyRequest::SpSubscribe(req) => req.into_failed(error),
            AnyRequest::SpUnSubscribe(req) => req.into_failed(error),
            AnyRequest::Custom(req) => req.into_failed(error),
        }
    }
}

/// What comes of the response to a request.
#[derive(Debug)]
pub enum Handled<C> {
    /// The callback of the request, and what it is to be called with.
    Delivered(C, ResponseResult<CompletedRequest>),
    /// The event that reports the response.
    Event(Event),
}

/// A pending request that has been sent to the Electrum server and is awaiting a response.
///
/// Once the server's raw JSON response is there, it is either:
/// - dispatched through the callback (for tracked requests), or
/// - turned into an [`Event`] (for event-style requests).
///
/// Construct via [`PendingRequest::new`] (with a callback) or [`PendingRequest::event`] (without).
#[derive(Debug)]
pub struct PendingRequest<C> {
    method_and_params: MethodAndParams,
    request: AnyRequest,
    callback: Option<C>,
}

impl<C> PendingRequest<C> {
    /// The method name of the request.
    pub closed spec fn method_text(self) -> Seq<char> {
        self.method_and_params.0@
    }

    /// The compact JSON texts of the parameters of the request, in order.
    pub closed spec fn param_texts(self) -> Seq<Seq<char>> {
        value::texts(self.method_and_params.1@)
    }

    /// The request.
    pub closed spec fn request(self) -> AnyRequest {
        self.request
    }

    /// The callback, if there is one.
    pub closed spec fn callback(self) -> Option<C> {
        self.callback
    }

    /// Creates a new pending request with an optional callback.
    ///
    /// If `callback` is `Some`, the response will be dispatched through it.
    ///
    /// If `callback` is `None`, the response will be wrapped in an [`Event`].
    pub fn new<Req: RequestExt>(req: Req, callback: Option<C>) -> (pending: Self)
        ensures
            pending.method_text() == req.method_text(),
            pending.param_texts() == req.param_texts(),
            pending.request() == req.any(),
            pending.callback() == callback,
    {
        let method_and_params = req.to_method_and_params();
        PendingRequest { method_and_params, request: req.into_any(), callback }
    }

    /// Creates a new pending request without a callback (event-style).
    ///
    /// The server's response will be returned as an [`Event`].
    pub fn event<Req: RequestExt>(req: Req) -> (pending: Self)
        ensures
            pending.method_text() == req.method_text(),
            pending.param_texts() == req.param_texts(),
            pending.request() == req.any(),
            pending.callback() is None,
    {
        PendingRequest::new(req, None)
    }

    /// Returns the method name and parameters for this request.
    ///
    /// Used to serialize the request into a JSON-RPC message and to reconstruct
    /// [`RawRequest`]s for pending requests.
    ///
    /// [`RawRequest`]: crate::RawRequest
    pub fn to_method_and_params(&self) -> (parts: MethodAndParams)
        ensures
            parts.0@ == self.method_text(),
            value::texts(parts.1@) == self.param_texts(),
    {
        let params = self.method_and_params.1.clone();
        assert(params@ =~= self.method_and_params.1@);
        (cow_clone(&self.method_and_params.0), params)
    }

    /// Whether `handled` is what comes of the response to this request, as far as a decoder reads
    /// it.
    ///
    /// A result that cannot be read is an error, and the callback is not called. A result that was
    /// read, or the error that the server sent, goes to the callback where there is one, and into
    /// an event where there is none.
    pub open spec fn handles<D: ResponseDecoder>(
        self,
        result: Result<Value, Value>,
        decoder: &D,
        handled: Result<Handled<C>, DecodeError>,
    ) -> bool {
        match result {
            Ok(raw) => exists|outcome: Result<CompletedRequest, DecodeError>| #[trigger]
                self.request().completes(decoder, raw, outcome) && handled == self.delivered(
                    outcome,
                ),
            Err(raw) => handled == Ok::<Handled<C>, DecodeError>(self.refused(raw)),
        }
    }

    /// What comes of a result that was read with this outcome.
    pub open spec fn delivered(self, outcome: Result<CompletedRequest, DecodeError>) -> Result<
        Handled<C>,
        DecodeError,
    > {
        match (outcome, self.callback()) {
            (Ok(completed), Some(callback)) => Ok(Handled::Delivered(callback, Ok(completed))),
            (Ok(completed), None) => Ok(Handled::Event(Event::Response(completed))),
            (Err(error), _) => Err(error),
        }
    }

    /// What comes of an error that the server sent.
    pub open spec fn refused(self, raw: Value) -> Handled<C> {
        match self.callback() {
            Some(callback) => Handled::Delivered(callback, Err(ResponseError::of(raw))),
            None => Handled::Event(
                Event::ResponseError(self.request().failed(ResponseError::of(raw))),
            ),
        }
    }

    /// Handles the raw server result.
    ///
    /// Returns [`Handled::Event`] for event-style requests, [`Handled::Delivered`] for
    /// callback-dispatched requests, or `Err` if deserialization failed.
    pub fn handle<D: ResponseDecoder>(
        self,
        result: Result<Value, Value>,
        decoder: &D,
    ) -> (handled: Result<Handled<C>, DecodeError>)
        ensures
            self.handles(result, decoder, handled),
            result matches Ok(raw) ==> match handled {
                Ok(Handled::Delivered(callback, reply)) => {
                    &&& self.callback() == Some(callback)
                    &&& reply matches Ok(completed)
                    &&& self.request().completes(decoder, raw, Ok(completed))
                },
                Ok(Handled::Event(event)) => {
                    &&& self.callback() is None
                    &&& event matches Event::Response(completed)
                    &&& self.request().completes(decoder, raw, Ok(completed))
                },
                Err(error) => self.request().completes(decoder, raw, Err(error)),
            },
            result matches Err(raw) ==> match handled {
                Ok(Handled::Delivered(callback, reply)) => {
                    &&& self.callback() == Some(callback)
                    &&& reply matches Err(error)
                    &&& error.value() == raw
                },
                Ok(Handled::Event(event)) => {
                    &&& self.callback() is None
                    &&& event matches Event::ResponseError(failed)
                    &&& failed.any() == self.request()
                    &&& failed.error().value() == raw
                },
                Err(error) => false,
            },
    {
        let ghost before = self;
        let PendingRequest { request, callback, .. } = self;
        match result {
            Ok(raw) => {
                let outcome = request.complete(raw, decoder);
                assert(before.request().completes(decoder, raw, outcome));
                match (outcome, callback) {
                    (Ok(completed), Some(callback)) => {
                        Ok(Handled::Delivered(callback, Ok(completed)))
                    },
                    (Ok(completed), None) => Ok(Handled::Event(Event::Response(completed))),
                    (Err(error), _) => Err(error),
                }
            },
            Err(raw) => {
                let error = ResponseError::new(raw);
                match callback {
                    Some(callback) => Ok(Handled::Delivered(callback, Err(error))),
                    None => Ok(Handled::Event(Event::ResponseError(request.into_failed(error)))),
                }
            },
        }
    }
}

/// The response of a completed request is exactly what the decoder read from the raw result, by
/// the method for that type of request, and the request is the one that was sent. A result that
/// cannot be read gives exactly the error of that method. A custom request is completed with the
/// raw result as it is.
pub proof fn lemma_response_is_what_was_read<D: ResponseDecoder>(
    request: AnyRequest,
    decoder: &D,
    raw: Value,
    outcome: Result<CompletedRequest, DecodeError>,
)
    requires
        request.completes(decoder, raw, outcome),
    ensures
        request matches AnyRequest::Header(req) ==> match outcome {
            Ok(completed) => {
                &&& completed matches CompletedRequest::Header { req: asked, resp }
                &&& asked == req
                &&& call_ensures(D::header, (decoder, &raw), Ok(resp))
            },
            Err(error) => call_ensures(D::header, (decoder, &raw), Err(error)),
        },
        request matches AnyRequest::HeaderWithProof(req) ==> match outcome {
            Ok(completed) => {
                &&& completed matches CompletedRequest::HeaderWithProof { req: asked, resp }
                &&& asked == req
                &&& call_ensures(D::header_with_proof, (decoder, &raw), Ok(resp))
            },
            Err(error) => call_ensures(D::header_with_proof, (decoder, &raw), Err(error)),
        },
        request matches AnyRequest::Headers(req) ==> match outcome {
            Ok(completed) => {
                &&& completed matches CompletedRequest::Headers { req: asked, resp }
                &&& asked == req
                &&& call_ensures(D::headers, (decoder, &raw), Ok(resp))
            },
            Err(error) => call_ensures(D::headers, (decoder, &raw), Err(error)),
        },
        request matches AnyRequest::HeadersWithCheckpoint(req) ==> match outcome {
            Ok(completed) => {
                &&& completed matches CompletedRequest::HeadersWithCheckpoint { req: asked, resp }
                &&& asked == req
                &&& call_ensures(D::headers_with_checkpoint, (decoder, &raw), Ok(resp))
            },
            Err(error) => call_ensures(D::headers_with_checkpoint, (decoder, &raw), Err(error)),
        },
        request matches AnyRequest::EstimateFee(req) ==> match outcome {
            Ok(completed) => {
                &&& completed matches CompletedRequest::EstimateFee { req: asked, resp }
                &&& asked == req
                &&& call_ensures(D::estimate_fee, (decoder, &raw), Ok(resp))
            },
            Err(error) => call_ensures(D::estimate_fee, (decoder, &raw), Err(error)),
        },
        request matches AnyRequest::HeadersSubscribe(req) ==> match outcome {
            Ok(completed) => {
                &&& completed matches CompletedRequest::HeadersSubscribe { req: asked, resp }
                &&& asked == req
                &&& call_ensures(D::headers_subscribe, (decoder, &raw), Ok(resp))
            },
            Err(error) => call_ensures(D::headers_subscribe, (decoder, &raw), Err(error)),
        },
        request matches AnyRequest::RelayFee(req) ==> match outcome {
            Ok(completed) => {
                &&& completed matches CompletedRequest::RelayFee { req: asked, resp }
                &&& asked == req
                &&& call_ensures(D::relay_fee, (decoder, &raw), Ok(resp))
            },
            Err(error) => call_ensures(D::relay_fee, (decoder, &raw), Err(error)),
        },
        request matches AnyRequest::GetBalance(req) ==> match outcome {
            Ok(completed) => {
                &&& completed matches CompletedRequest::GetBalance { req: asked, resp }
                &&& asked == req
                &&& call_ensures(D::balance, (decoder, &raw), Ok(resp))
            },
            Err(error) => call_ensures(D::balance, (decoder, &raw), Err(error)),
        },
        request matches AnyRequest::GetHistory(req) ==> match outcome {
            Ok(completed) => {
                &&& completed matches CompletedRequest::GetHistory { req: asked, resp }
                &&& asked == req
                &&& call_ensures(D::history, (decoder, &raw), Ok(resp))
            },
            Err(error) => call_ensures(D::history, (decoder, &raw), Err(error)),
        },
        request matches AnyRequest::GetMempool(req) ==> match outcome {
            Ok(completed) => {
                &&& completed matches CompletedRequest::GetMempool { req: asked, resp }
                &&& asked == req
                &&& call_ensures(D::mempool, (decoder, &raw), Ok(resp))
            },
            Err(error) => call_ensures(D::mempool, (decoder, &raw), Err(error)),
        },
        request matches AnyRequest::ListUnspent(req) ==> match outcome {
            Ok(completed) => {
                &&& completed matches CompletedRequest::ListUnspent { req: asked, resp }
                &&& asked == req
                &&& call_ensures(D::unspent, (decoder, &raw), Ok(resp))
            },
            Err(error) => call_ensures(D::unspent, (decoder, &raw), Err(error)),
        },
        request matches AnyRequest::ScriptHashSubscribe(req) ==> match outcome {
            Ok(completed) => {
                &&& completed matches CompletedRequest::ScriptHashSubscribe { req: asked, resp }
                &&& asked == req
                &&& call_ensures(D::script_status, (decoder, &raw), Ok(resp))
            },
            Err(error) => call_ensures(D::script_status, (decoder, &raw), Err(error)),
        },
        request matches AnyRequest::ScriptHashUnsubscribe(req) ==> match outcome {
            Ok(completed) => {
                &&& completed matches CompletedRequest::ScriptHashUnsubscribe { req: asked, resp }
                &&& asked == req
                &&& call_ensures(D::flag, (decoder, &raw), Ok(resp))
            },
            Err(error) => call_ensures(D::flag, (decoder, &raw), Err(error)),
        },
        request matches AnyRequest::BroadcastTx(req) ==> match outcome {
            Ok(completed) => {
                &&& completed matches CompletedRequest::BroadcastTx { req: asked, resp }
                &&& asked == req
                &&& call_ensures(D::txid, (decoder, &raw), Ok(resp))
            },
            Err(error) => call_ensures(D::txid, (decoder, &raw), Err(error)),
        },
        request matches AnyRequest::GetTx(req) ==> match outcome {
            Ok(completed) => {
                &&& completed matches CompletedRequest::GetTx { req: asked, resp }
                &&& asked == req
                &&& call_ensures(D::full_tx, (decoder, &raw), Ok(resp))
            },
            Err(error) => call_ensures(D::full_tx, (decoder, &raw), Err(error)),
        },
        request matches AnyRequest::GetTxMerkle(req) ==> match outcome {
            Ok(completed) => {
                &&& completed matches CompletedRequest::GetTxMerkle { req: asked, resp }
                &&& asked == req
                &&& call_ensures(D::tx_merkle, (decoder, &raw), Ok(resp))
            },
            Err(error) => call_ensures(D::tx_merkle, (decoder, &raw), Err(error)),
        },
        request matches AnyRequest::GetTxidFromPos(req) ==> match outcome {
            Ok(completed) => {
                &&& completed matches CompletedRequest::GetTxidFromPos { req: asked, resp }
                &&& asked == req
                &&& call_ensures(D::txid_from_pos, (decoder, &raw), Ok(resp))
            },
            Err(error) => call_ensures(D::txid_from_pos, (decoder, &raw), Err(error)),
        },
        request matches AnyRequest::GetFeeHistogram(req) ==> match outcome {
            Ok(completed) => {
                &&& completed matches CompletedRequest::GetFeeHistogram { req: asked, resp }
                &&& asked == req
                &&& call_ensures(D::fee_histogram, (decoder, &raw), Ok(resp))
            },
            Err(error) => call_ensures(D::fee_histogram, (decoder, &raw), Err(error)),
        },
        request matches AnyRequest::Banner(req) ==> match outcome {
            Ok(completed) => {
                &&& completed matches CompletedRequest::Banner { req: asked, resp }
                &&& asked == req
                &&& call_ensures(D::string, (decoder, &raw), Ok(resp))
            },
            Err(error) => call_ensures(D::string, (decoder, &raw), Err(error)),
        },
        request matches AnyRequest::Features(req) ==> match outcome {
            Ok(completed) => {
                &&& completed matches CompletedRequest::Features { req: asked, resp }
                &&& asked == req
                &&& call_ensures(D::server_features, (decoder, &raw), Ok(resp))
            },
            Err(error) => call_ensures(D::server_features, (decoder, &raw), Err(error)),
        },
        request matches AnyRequest::Ping(req) ==> match outcome {
            Ok(completed) => {
                &&& completed matches CompletedRequest::Ping { req: asked, resp }
                &&& asked == req
                &&& call_ensures(D::nothing, (decoder, &raw), Ok(resp))
            },
            Err(error) => call_ensures(D::nothing, (decoder, &raw), Err(error)),
        },
        request matches AnyRequest::Version(req) ==> match outcome {
            Ok(completed) => {
                &&& completed matches CompletedRequest::Version { req: asked, resp }
                &&& asked == req
                &&& call_ensures(D::strings, (decoder, &raw), Ok(resp))
            },
            Err(error) => call_ensures(D::strings, (decoder, &raw), Err(error)),
        },
        request matches AnyRequest::SpSubscribe(req) ==> match outcome {
            Ok(completed) => {
                &&& completed matches CompletedRequest::SpSubscribe { req: asked, resp }
                &&& asked == req
                &&& call_ensures(D::string, (decoder, &raw), Ok(resp))
            },
            Err(error) => call_ensures(D::string, (decoder, &raw), Err(error)),
        },
        request matches AnyRequest::SpUnSubscribe(req) ==> match outcome {
            Ok(completed) => {
                &&& completed matches CompletedRequest::SpUnSubscribe { req: asked, resp }
                &&& asked == req
                &&& call_ensures(D::string, (decoder, &raw), Ok(resp))
            },
            Err(error) => call_ensures(D::string, (decoder, &raw), Err(error)),
        },
        request matches AnyRequest::Custom(req) ==> {
            &&& outcome matches Ok(CompletedRequest::Custom { req: asked, resp })
            &&& asked == req
            &&& resp == raw
        },
{
}

/// A result that was read goes to the callback, where there is one, and into an event, where there
/// is none, as the completed request that the decoder's reading gave. A result that could not be
/// read is that reading's error.
pub proof fn lemma_result_is_handled<C, D: ResponseDecoder>(
    pending: PendingRequest<C>,
    raw: Value,
    decoder: &D,
    handled: Result<Handled<C>, DecodeError>,
)
    requires
        pending.handles(Ok(raw), decoder, handled),
    ensures
        match handled {
            Ok(Handled::Delivered(callback, reply)) => {
                &&& pending.callback() == Some(callback)
                &&& reply matches Ok(completed)
                &&& pending.request().completes(decoder, raw, Ok(completed))
            },
            Ok(Handled::Event(event)) => {
                &&& pending.callback() is None
                &&& event matches Event::Response(completed)
                &&& pending.request().completes(decoder, raw, Ok(completed))
            },
            Err(error) => pending.request().completes(decoder, raw, Err(error)),
        },
{
}

/// An error that the server sent goes to the callback, where there is one, and into an event with
/// the request that failed, where there is none. It is the error exactly as the server sent it.
pub proof fn lemma_server_error_is_handled<C, D: ResponseDecoder>(
    pending: PendingRequest<C>,
    raw: Value,
    decoder: &D,
    handled: Result<Handled<C>, DecodeError>,
)
    requires
        pending.handles(Err(raw), decoder, handled),
    ensures
        match handled {
            Ok(Handled::Delivered(callback, reply)) => {
                &&& pending.callback() == Some(callback)
                &&& reply matches Err(error)
                &&& error.value() == raw
            },
            Ok(Handled::Event(event)) => {
                &&& pending.callback() is None
                &&& event matches Event::ResponseError(failed)
                &&& failed.any() == pending.request()
                &&& failed.error().value() == raw
            },
            Err(error) => false,
        },
{
    ResponseError::lemma_of_value(raw);
}

/// A completed request is the request that was sent, and so is a failed one.
pub proof fn lemma_request_is_kept<D: ResponseDecoder>(
    request: AnyRequest,
    decoder: &D,
    raw: Value,
    completed: CompletedRequest,
    error: ResponseError,
)
    requires
        request.completes(decoder, raw, Ok(completed)),
    ensures
        completed.any() == request,
        request.failed(error).any() == request,
        request.failed(error).error() == error,
{
}

/// The response to a request with a callback goes to that callback and causes no event; the
/// response to a request without one causes an event.
pub proof fn lemma_callback_or_event<C, D: ResponseDecoder>(
    pending: PendingRequest<C>,
    result: Result<Value, Value>,
    decoder: &D,
    handled: Handled<C>,
)
    requires
        pending.handles(result, decoder, Ok(handled)),
    ensures
        handled is Delivered <==> pending.callback() is Some,
        handled matches Handled::Delivered(callback, reply) ==> {
            &&& pending.callback() == Some(callback)
            &&& reply is Ok <==> result is Ok
        },
        handled matches Handled::Event(event) ==> {
            &&& event is Response <==> result is Ok
            &&& event is ResponseError <==> result is Err
        },
{
}

/// An error that the server sent is handed on whatever a decoder reads.
pub proof fn lemma_error_is_handed_on<C, D: ResponseDecoder>(
    pending: PendingRequest<C>,
    raw: Value,
    decoder: &D,
    handled: Result<Handled<C>, DecodeError>,
)
    requires
        pending.handles(Err(raw), decoder, handled),
    ensures
        handled == Ok::<Handled<C>, DecodeError>(pending.refused(raw)),
{
}

/// What the callback of a request is called with is that request, completed with a response of its
/// own type, where every response can be read as one.
pub proof fn lemma_typed_delivery<C, Req: RequestExt, D: ResponseDecoder>(
    req: Req,
    pending: PendingRequest<C>,
    raw: Value,
    decoder: &D,
    handled: Handled<C>,
)
    requires
        pending.request() == req.any(),
        pending.callback() is Some,
        pending.handles(Ok(raw), decoder, Ok(handled)),
    ensures
        handled matches Handled::Delivered(callback, Ok(completed)) && {
            &&& pending.callback() == Some(callback)
            &&& completed.any() == req.any()
            &&& Req::reads_all() ==> {
                Req::response_in(completed) matches Some(resp) && completed == req.completed(resp)
            }
        },
{
    let outcome = choose|outcome: Result<CompletedRequest, DecodeError>| #[trigger]
        pending.request().completes(decoder, raw, outcome) && Ok::<Handled<C>, DecodeError>(handled)
            == pending.delivered(outcome);
    let completed = outcome->Ok_0;
    lemma_request_is_kept(pending.request(), decoder, raw, completed, ResponseError::of(raw));
    if Req::reads_all() {
        req.lemma_own_response(completed);
    }
}

/// The event that a request without a callback becomes is that request, completed with a response
/// of its own type, where every response can be read as one.
pub proof fn lemma_typed_event<C, Req: RequestExt, D: ResponseDecoder>(
    req: Req,
    pending: PendingRequest<C>,
    raw: Value,
    decoder: &D,
    handled: Handled<C>,
)
    requires
        pending.request() == req.any(),
        pending.callback() is None,
        pending.handles(Ok(raw), decoder, Ok(handled)),
    ensures
        handled matches Handled::Event(Event::Response(completed)) && {
            &&& completed.any() == req.any()
            &&& Req::reads_all() ==> {
                Req::response_in(completed) matches Some(resp) && completed == req.completed(resp)
            }
        },
{
    let outcome = choose|outcome: Result<CompletedRequest, DecodeError>| #[trigger]
        pending.request().completes(decoder, raw, outcome) && Ok::<Handled<C>, DecodeError>(handled)
            == pending.delivered(outcome);
    let completed = outcome->Ok_0;
    lemma_request_is_kept(pending.request(), decoder, raw, completed, ResponseError::of(raw));
    if Req::reads_all() {
        req.lemma_own_response(completed);
    }
}

/// The event that a request without a callback becomes where the server sent an error is that
/// request's own failure.
pub proof fn lemma_typed_failure<C, Req: RequestExt>(
    req: Req,
    pending: PendingRequest<C>,
    raw: Value,
)
    requires
        pending.request() == req.any(),
        pending.callback() is None,
    ensures
        pending.refused(raw) == Handled::<C>::Event(
            Event::ResponseError(req.failed(ResponseError::of(raw))),
        ),
{
    req.lemma_same_failed(ResponseError::of(raw));
}

} // verus!
