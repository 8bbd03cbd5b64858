//! Which requests wait, and what comes of the messages of a server.

use electrum_streaming_client::chain::{BlockHeader, PublicKey, Transaction, Txid};
use electrum_streaming_client::client::{
    handle_incoming, handle_request, next_after, Action, Next, Performed, WorkerError,
};
use electrum_streaming_client::decode::{
    DecodeError, Decoder, NotificationDecoder, ResponseDecoder,
};
use electrum_streaming_client::notification::{
    HeaderNotification, Notification, ScriptHashNotification, SpNotification, SpSubscription,
    TxTweak,
};
use electrum_streaming_client::request;
use electrum_streaming_client::response;
use electrum_streaming_client::{
    AnyRequest, BatchRequest, BatchRequestError, CompletedRequest, ElectrumScriptHash,
    ElectrumScriptStatus, Event, FailedRequest, Handled, MaybeBatch, PendingRequest,
    ProcessError, RawNotification, RawNotificationOrResponse, RawRequest, RawResponse, RequestExt,
    ResponseError, State, Value, Version,
};
use std::borrow::Cow;

/// Reads the value `null` as nothing, and refuses the value `"bad"`.
struct Fixed;

fn fixed<T>(raw: &Value, value: T) -> Result<T, DecodeError> {
    if raw.as_str() == "\"bad\"" {
        Err(DecodeError { message: "bad value".to_string() })
    } else {
        Ok(value)
    }
}

fn header(nonce: u32) -> BlockHeader {
    BlockHeader {
        version: 1,
        prev_blockhash: [0; 32],
        merkle_root: [1; 32],
        time: 2,
        bits: 3,
        nonce,
    }
}

impl NotificationDecoder for Fixed {
    fn header_notification(&self, params: &Value) -> Result<HeaderNotification, DecodeError> {
        let tip = response::HeadersSubscribeResp { header: header(9), height: 700_000 };
        fixed(params, HeaderNotification::new(tip))
    }

    fn script_hash_notification(
        &self,
        params: &Value,
    ) -> Result<ScriptHashNotification, DecodeError> {
        let hash = ElectrumScriptHash { bytes: [5; 32] };
        let status = ElectrumScriptStatus { bytes: [6; 32] };
        fixed(params, ScriptHashNotification::new(hash, Some(status)))
    }

    fn sp_notification(&self, params: &Value) -> Result<SpNotification, DecodeError> {
        let subscription = SpSubscription {
            address: "sp1".to_string(),
            labels: vec![0],
            start_height: 4,
        };
        let tweak = TxTweak {
            height: 4,
            tx_hash: Txid { bytes: [1; 32] },
            tweak_key: PublicKey { bytes: [2; 33] },
        };
        let progress_bits = 0.5_f32.to_bits();
        fixed(params, SpNotification { subscription, progress_bits, history: vec![tweak] })
    }
}

impl ResponseDecoder for Fixed {
    fn header(&self, raw: &Value) -> Result<response::HeaderResp, DecodeError> {
        fixed(raw, response::HeaderResp { header: header(1) })
    }

    fn header_with_proof(&self, raw: &Value) -> Result<response::HeaderWithProofResp, DecodeError> {
        let root = electrum_streaming_client::DoubleSHA { bytes: [0; 32] };
        fixed(raw, response::HeaderWithProofResp { branch: vec![], header: header(2), root })
    }

    fn headers(&self, raw: &Value) -> Result<response::HeadersResp, DecodeError> {
        let headers = vec![header(10), header(11), header(12)];
        fixed(raw, response::HeadersResp { count: 3, headers, max: 2016 })
    }

    fn headers_with_checkpoint(
        &self,
        raw: &Value,
    ) -> Result<response::HeadersWithCheckpointResp, DecodeError> {
        let resp = response::HeadersWithCheckpointResp {
            count: 1,
            headers: vec![header(20)],
            max: 2016,
            root: electrum_streaming_client::DoubleSHA { bytes: [0; 32] },
            branch: vec![],
        };
        fixed(raw, resp)
    }

    fn estimate_fee(&self, raw: &Value) -> Result<response::EstimateFeeResp, DecodeError> {
        fixed(raw, response::EstimateFeeResp { sat_per_kwu: None })
    }

    fn headers_subscribe(&self, raw: &Value) -> Result<response::HeadersSubscribeResp, DecodeError> {
        fixed(raw, response::HeadersSubscribeResp { header: header(3), height: 5 })
    }

    fn relay_fee(&self, raw: &Value) -> Result<response::RelayFeeResp, DecodeError> {
        fixed(raw, response::RelayFeeResp { fee: 1000 })
    }

    fn balance(&self, raw: &Value) -> Result<response::GetBalanceResp, DecodeError> {
        fixed(raw, response::GetBalanceResp { confirmed: 1, unconfirmed: -1 })
    }

    fn history(&self, raw: &Value) -> Result<Vec<response::Tx>, DecodeError> {
        fixed(raw, vec![])
    }

    fn mempool(&self, raw: &Value) -> Result<Vec<response::MempoolTx>, DecodeError> {
        fixed(raw, vec![])
    }

    fn unspent(&self, raw: &Value) -> Result<Vec<response::Utxo>, DecodeError> {
        fixed(raw, vec![])
    }

    fn script_status(&self, raw: &Value) -> Result<Option<ElectrumScriptStatus>, DecodeError> {
        fixed(raw, None)
    }

    fn flag(&self, raw: &Value) -> Result<bool, DecodeError> {
        fixed(raw, true)
    }

    fn txid(&self, raw: &Value) -> Result<Txid, DecodeError> {
        fixed(raw, Txid { bytes: [8; 32] })
    }

    fn full_tx(&self, raw: &Value) -> Result<response::FullTx, DecodeError> {
        fixed(raw, response::FullTx { tx: Transaction::new(1, 0, vec![], vec![]).unwrap() })
    }

    fn tx_merkle(&self, raw: &Value) -> Result<response::TxMerkle, DecodeError> {
        fixed(raw, response::TxMerkle { block_height: 1, merkle: vec![], pos: 0 })
    }

    fn txid_from_pos(&self, raw: &Value) -> Result<response::TxidFromPos, DecodeError> {
        fixed(raw, response::TxidFromPos { txid: Txid { bytes: [9; 32] } })
    }

    fn fee_histogram(&self, raw: &Value) -> Result<Vec<response::FeePair>, DecodeError> {
        fixed(raw, vec![])
    }

    fn string(&self, raw: &Value) -> Result<String, DecodeError> {
        fixed(raw, "welcome".to_string())
    }

    fn server_features(&self, raw: &Value) -> Result<response::ServerFeatures, DecodeError> {
        let features = response::ServerFeatures {
            genesis_hash: [0; 32],
            hash_function: "sha256".to_string(),
            server_version: "s".to_string(),
            protocol_max: "1.4".to_string(),
            protocol_min: "1.4".to_string(),
            pruning: None,
        };
        fixed(raw, features)
    }

    fn nothing(&self, raw: &Value) -> Result<(), DecodeError> {
        fixed(raw, ())
    }

    fn strings(&self, raw: &Value) -> Result<Vec<String>, DecodeError> {
        fixed(raw, vec!["frigate".to_string(), "1.4".to_string()])
    }
}

impl Decoder for Fixed {}

fn null() -> Value {
    Value::parse("null").unwrap()
}

fn answer(id: u32, result: Result<Value, Value>) -> RawNotificationOrResponse {
    RawNotificationOrResponse::Response(RawResponse { version: Version, id, result })
}

fn notice(method: &'static str, params: Value) -> RawNotificationOrResponse {
    RawNotificationOrResponse::Notification(RawNotification {
        version: Version,
        method: Cow::Borrowed(method),
        params,
    })
}

fn ids(requests: &[RawRequest]) -> Vec<u32> {
    requests.iter().map(|r| r.id).collect()
}

fn pending_ids(state: &State<u32>) -> Vec<u32> {
    let mut ids = ids(&state.pending_requests());
    ids.sort();
    ids
}

fn event(outcome: Result<Handled<u32>, ProcessError>) -> Event {
    match outcome {
        Ok(Handled::Event(event)) => event,
        other => panic!("no event: {:?}", other),
    }
}

#[test]
fn a_single_request_is_tracked_under_the_next_id() {
    let mut state: State<u32> = State::new();
    let mut next_id = 41;
    let req = MaybeBatch::from(PendingRequest::event(request::Ping));
    match state.track_request(&mut next_id, req) {
        MaybeBatch::Single(raw) => {
            assert_eq!(raw.id, 41);
            assert_eq!(raw.method, "server.ping");
            assert_eq!(raw.jsonrpc, "2.0");
        }
        MaybeBatch::Batch(_) => panic!("a single request became a batch"),
    }
    assert_eq!(next_id, 42);
    assert_eq!(pending_ids(&state), [41]);
}

#[test]
fn a_batch_is_tracked_under_consecutive_ids_that_wrap_around() {
    let mut state: State<u32> = State::default();
    let mut next_id = u32::MAX;
    let reqs: Vec<PendingRequest<u32>> = vec![
        PendingRequest::event(request::Ping),
        PendingRequest::event(request::Banner),
        PendingRequest::new(request::RelayFee, Some(5)),
    ];
    match state.track_request(&mut next_id, MaybeBatch::from(reqs)) {
        MaybeBatch::Batch(raws) => assert_eq!(ids(&raws), [u32::MAX, 0, 1]),
        MaybeBatch::Single(_) => panic!("a batch became a single request"),
    }
    assert_eq!(next_id, 2);
    assert_eq!(pending_ids(&state), [0, 1, u32::MAX]);
}

#[test]
fn a_batch_of_one_stays_a_batch() {
    let mut state: State<u32> = State::new();
    let mut next_id = 0;
    let req = MaybeBatch::Batch(vec![PendingRequest::event(request::Ping)]);
    assert!(matches!(state.track_request(&mut next_id, req), MaybeBatch::Batch(v) if v.len() == 1));
    assert!(matches!(
        state.track_request(&mut next_id, MaybeBatch::Batch(vec![])),
        MaybeBatch::Batch(v) if v.is_empty()
    ));
    assert_eq!(next_id, 1);
}

#[test]
fn pending_requests_are_what_was_tracked() {
    let mut state: State<u32> = State::new();
    let mut next_id = 7;
    let reqs: Vec<PendingRequest<u32>> = vec![
        PendingRequest::event(request::Header { height: 3 }),
        PendingRequest::event(request::Headers { start_height: 4, count: 5 }),
    ];
    let raws = state.track_request(&mut next_id, reqs.into()).into_vec();
    let mut pending = state.pending_requests();
    pending.sort_by_key(|r| r.id);
    assert_eq!(pending.len(), raws.len());
    for (a, b) in pending.iter().zip(&raws) {
        assert_eq!(a.id, b.id);
        assert_eq!(a.method, b.method);
        assert_eq!(a.params, b.params);
        assert_eq!(a.jsonrpc, b.jsonrpc);
    }
}

#[test]
fn an_id_under_which_a_request_waits_is_passed_over() {
    let mut state: State<u32> = State::new();
    let mut next_id = 3;
    state.track_request(&mut next_id, PendingRequest::event(request::Ping).into());
    next_id = 3;
    let raws = state.track_request(&mut next_id, PendingRequest::event(request::Banner).into());
    assert_eq!(ids(&raws.into_vec()), [4]);
    assert_eq!(next_id, 5);
    let mut pending = state.pending_requests();
    pending.sort_by_key(|r| r.id);
    assert_eq!(ids(&pending), [3, 4]);
    assert_eq!(pending[0].method, "server.ping");
    assert_eq!(pending[1].method, "server.banner");
}

#[test]
fn a_batch_passes_over_the_ids_of_waiting_requests() {
    let mut state: State<u32> = State::new();
    for id in [u32::MAX, 1, 2, 4] {
        let mut next_id = id;
        state.track_request(&mut next_id, PendingRequest::new(request::Ping, Some(id)).into());
    }
    let mut next_id = u32::MAX - 1;
    let reqs: Vec<PendingRequest<u32>> =
        (0..4).map(|_| PendingRequest::event(request::Banner)).collect();
    let raws = state.track_request(&mut next_id, reqs.into()).into_vec();
    assert_eq!(ids(&raws), [u32::MAX - 1, 0, 3, 5]);
    assert_eq!(next_id, 6);
    assert_eq!(pending_ids(&state), [0, 1, 2, 3, 4, 5, u32::MAX - 1, u32::MAX]);
    for id in [u32::MAX, 1, 2, 4] {
        assert!(matches!(
            state.process_incoming(answer(id, Ok(null())), &Fixed),
            Ok(Handled::Delivered(callback, Ok(CompletedRequest::Ping { .. }))) if callback == id
        ));
    }
}

#[test]
fn there_is_room_for_as_many_requests_as_there_are_ids() {
    let mut state: State<u32> = State::new();
    assert!(state.has_room(0));
    assert!(state.has_room(0x1_0000_0000));
    assert!(!state.has_room(0x1_0000_0001));
    let mut next_id = 0;
    state.track_request(&mut next_id, PendingRequest::event(request::Ping).into());
    assert!(state.has_room(0xffff_ffff));
    assert!(!state.has_room(0x1_0000_0000));
}

#[test]
fn an_event_style_request_becomes_a_response_event() {
    let mut state: State<u32> = State::new();
    let mut next_id = 0;
    state.track_request(&mut next_id, PendingRequest::event(request::Header { height: 6 }).into());
    match event(state.process_incoming(answer(0, Ok(null())), &Fixed)) {
        Event::Response(CompletedRequest::Header { req, resp }) => {
            assert_eq!(req.height, 6);
            assert_eq!(resp.header, header(1));
        }
        other => panic!("{:?}", other),
    }
    assert!(state.pending_requests().is_empty());
}

#[test]
fn an_event_style_request_becomes_an_error_event() {
    let mut state: State<u32> = State::new();
    let mut next_id = 0;
    state.track_request(&mut next_id, PendingRequest::event(request::Banner).into());
    let error = Value::parse("{\"code\":1}").unwrap();
    match event(state.process_incoming(answer(0, Err(error)), &Fixed)) {
        Event::ResponseError(FailedRequest::Banner { error, .. }) => {
            assert_eq!(error.message(), "Response.error: {\"code\":1}");
        }
        other => panic!("{:?}", other),
    }
}

#[test]
fn a_callback_is_delivered_to_and_no_event_comes() {
    let mut state: State<u32> = State::new();
    let mut next_id = 0;
    state.track_request(&mut next_id, PendingRequest::new(request::Banner, Some(77)).into());
    match state.process_incoming(answer(0, Ok(null())), &Fixed) {
        Ok(Handled::Delivered(callback, Ok(completed))) => {
            assert_eq!(callback, 77);
            assert_eq!(request::Banner::into_response(completed), Some("welcome".to_string()));
        }
        other => panic!("{:?}", other),
    }
    state.track_request(&mut next_id, PendingRequest::new(request::Ping, Some(78)).into());
    match state.process_incoming(answer(1, Err(Value::number(5))), &Fixed) {
        Ok(Handled::Delivered(78, Err(error))) => {
            assert_eq!(error.message(), "Response.error: 5");
        }
        other => panic!("{:?}", other),
    }
}

#[test]
fn a_response_that_cannot_be_read_is_an_error_and_drops_the_request() {
    let mut state: State<u32> = State::new();
    let mut next_id = 12;
    state.track_request(&mut next_id, PendingRequest::new(request::Ping, Some(1)).into());
    match state.process_incoming(answer(12, Ok(Value::string("bad"))), &Fixed) {
        Err(error) => {
            assert!(matches!(error, ProcessError::CannotDeserializeResponse(12, _)));
            assert_eq!(
                error.message(),
                "failed to deserialize response for request id 12: bad value"
            );
        }
        other => panic!("{:?}", other),
    }
    assert!(state.pending_requests().is_empty());
}

#[test]
fn a_response_without_a_request_is_an_error() {
    let mut state: State<u32> = State::new();
    let mut next_id = 0;
    state.track_request(&mut next_id, PendingRequest::event(request::Ping).into());
    let error = state.process_incoming(answer(4294967295, Ok(null())), &Fixed).unwrap_err();
    assert!(matches!(error, ProcessError::MissingRequest(u32::MAX)));
    assert_eq!(error.message(), "no pending request found for response with id 4294967295");
    assert_eq!(pending_ids(&state), [0]);
}

#[test]
fn a_request_is_resolved_once() {
    let mut state: State<u32> = State::new();
    let mut next_id = 0;
    let reqs: Vec<PendingRequest<u32>> =
        vec![PendingRequest::event(request::Ping), PendingRequest::event(request::Banner)];
    state.track_request(&mut next_id, reqs.into());
    assert!(state.process_incoming(answer(1, Ok(null())), &Fixed).is_ok());
    assert_eq!(pending_ids(&state), [0]);
    assert!(matches!(
        state.process_incoming(answer(1, Ok(null())), &Fixed),
        Err(ProcessError::MissingRequest(1))
    ));
    assert!(state.process_incoming(answer(0, Ok(null())), &Fixed).is_ok());
    assert!(pending_ids(&state).is_empty());
}

#[test]
fn the_order_of_responses_does_not_matter() {
    let waiting_after = |order: [u32; 2]| {
        let mut state: State<u32> = State::new();
        let mut next_id = 0;
        let reqs: Vec<PendingRequest<u32>> = vec![
            PendingRequest::event(request::Ping),
            PendingRequest::event(request::Banner),
            PendingRequest::event(request::RelayFee),
        ];
        state.track_request(&mut next_id, reqs.into());
        for id in order {
            assert!(state.process_incoming(answer(id, Ok(null())), &Fixed).is_ok());
        }
        pending_ids(&state)
    };
    assert_eq!(waiting_after([0, 2]), [1]);
    assert_eq!(waiting_after([2, 0]), [1]);
}

#[test]
fn a_request_waits_until_its_own_response_comes() {
    let mut state: State<u32> = State::new();
    let mut next_id = u32::MAX;
    state.track_request(&mut next_id, PendingRequest::new(request::Banner, Some(9)).into());
    for _ in 0..5 {
        state.track_request(&mut next_id, PendingRequest::event(request::Ping).into());
    }
    assert!(state.process_incoming(notice("server.other", null()), &Fixed).is_ok());
    assert!(state.process_incoming(answer(3, Ok(null())), &Fixed).is_ok());
    assert!(state.process_incoming(answer(77, Ok(null())), &Fixed).is_err());
    assert_eq!(pending_ids(&state), [0, 1, 2, 4, u32::MAX]);
    assert!(matches!(
        state.process_incoming(answer(u32::MAX, Ok(null())), &Fixed),
        Ok(Handled::Delivered(9, Ok(CompletedRequest::Banner { .. })))
    ));
}

#[test]
fn ids_run_in_the_order_of_the_requests() {
    let mut state: State<u32> = State::new();
    let mut next_id = 0;
    let mut given = vec![];
    for n in [1, 3, 0, 2] {
        let reqs: Vec<PendingRequest<u32>> =
            (0..n).map(|_| PendingRequest::event(request::Ping)).collect();
        given.extend(ids(&state.track_request(&mut next_id, reqs.into()).into_vec()));
        state.process_incoming(answer(0, Ok(null())), &Fixed).ok();
    }
    assert_eq!(given, [0, 1, 2, 3, 4, 5]);
    assert_eq!(pending_ids(&state), [1, 2, 3, 4, 5]);
}

#[test]
fn clearing_forgets_all_requests() {
    let mut state: State<u32> = State::new();
    let mut next_id = 0;
    state.track_request(&mut next_id, PendingRequest::event(request::Ping).into());
    state.clear();
    assert!(state.pending_requests().is_empty());
    assert!(matches!(
        state.process_incoming(answer(0, Ok(null())), &Fixed),
        Err(ProcessError::MissingRequest(0))
    ));
}

#[test]
fn notifications_are_told_apart_by_their_method() {
    let mut state: State<u32> = State::new();
    let mut next_id = 0;
    state.track_request(&mut next_id, PendingRequest::event(request::Ping).into());
    match event(
        state.process_incoming(notice("blockchain.headers.subscribe", Value::numbers(&[])), &Fixed),
    ) {
        Event::Notification(Notification::Header(n)) => {
            assert_eq!(n.height(), 700_000);
            assert_eq!(*n.header(), header(9));
        }
        other => panic!("{:?}", other),
    }
    match event(state.process_incoming(notice("blockchain.scripthash.subscribe", null()), &Fixed)) {
        Event::Notification(Notification::ScriptHash(n)) => {
            assert_eq!(n.script_hash().bytes, [5; 32]);
            assert_eq!(n.script_status().unwrap().bytes, [6; 32]);
        }
        other => panic!("{:?}", other),
    }
    match event(
        state.process_incoming(notice("blockchain.silentpayments.subscribe", null()), &Fixed),
    ) {
        Event::Notification(Notification::SpSubscribe(n)) => {
            assert_eq!(f32::from_bits(n.progress_bits), 0.5);
            assert_eq!(n.subscription.address, "sp1");
            assert_eq!(n.history.len(), 1);
        }
        other => panic!("{:?}", other),
    }
    match event(state.process_incoming(notice("server.other", Value::string("bad")), &Fixed)) {
        Event::Notification(Notification::Unknown(raw)) => {
            assert_eq!(raw.method, "server.other");
            assert_eq!(raw.params.as_str(), "\"bad\"");
        }
        other => panic!("{:?}", other),
    }
    assert_eq!(pending_ids(&state), [0]);
}

#[test]
fn a_notification_that_cannot_be_read_is_an_error() {
    let mut state: State<u32> = State::new();
    let message = notice("blockchain.scripthash.subscribe", Value::string("bad"));
    let error = state.process_incoming(message, &Fixed).unwrap_err();
    assert_eq!(
        error.message(),
        "failed to deserialize notification for method 'blockchain.scripthash.subscribe': bad value"
    );
    match error {
        ProcessError::CannotDeserializeNotification { method, params, error } => {
            assert_eq!(method, "blockchain.scripthash.subscribe");
            assert_eq!(params.as_str(), "\"bad\"");
            assert_eq!(error.message, "bad value");
        }
        other => panic!("{:?}", other),
    }
}

#[test]
fn a_custom_request_takes_any_response_as_it_is() {
    let mut state: State<u32> = State::new();
    let mut next_id = 0;
    let req = request::Custom { method: "x".into(), params: vec![] };
    state.track_request(&mut next_id, PendingRequest::event(req).into());
    match event(state.process_incoming(answer(0, Ok(Value::string("bad"))), &Fixed)) {
        Event::Response(CompletedRequest::Custom { req, resp }) => {
            assert_eq!(req.method, "x");
            assert_eq!(resp.as_str(), "\"bad\"");
        }
        other => panic!("{:?}", other),
    }
}

fn completes<R: RequestExt>(req: R) -> CompletedRequest {
    match PendingRequest::<u32>::event(req.clone()).handle(Ok(null()), &Fixed) {
        Ok(Handled::Event(Event::Response(completed))) => {
            assert!(R::into_response(completed.clone()).is_some());
            completed
        }
        other => panic!("{:?}", other),
    }
}

fn fails<R: RequestExt>(req: R) -> FailedRequest {
    match PendingRequest::<u32>::event(req.clone()).handle(Err(Value::number(1)), &Fixed) {
        Ok(Handled::Event(Event::ResponseError(failed))) => failed,
        other => panic!("{:?}", other),
    }
}

fn script() -> ElectrumScriptHash {
    ElectrumScriptHash::new(&[1, 2, 3])
}

#[test]
fn every_request_is_completed_with_its_own_response() {
    let txid = Txid { bytes: [4; 32] };
    let tx = Transaction::new(1, 2, vec![], vec![]).unwrap();
    let scan_priv_key = electrum_streaming_client::chain::SecretKey { bytes: [1; 32] };
    let scan_pub_key = PublicKey { bytes: [2; 33] };
    assert!(matches!(
        completes(request::HeaderWithProof { height: 1, cp_height: 2 }),
        CompletedRequest::HeaderWithProof { req, .. } if req.cp_height == 2
    ));
    assert!(matches!(
        completes(request::EstimateFee { number: 2 }),
        CompletedRequest::EstimateFee { resp, .. } if resp.sat_per_kwu.is_none()
    ));
    assert!(matches!(
        completes(request::HeadersSubscribe),
        CompletedRequest::HeadersSubscribe { resp, .. } if resp.height == 5
    ));
    assert!(matches!(
        completes(request::RelayFee),
        CompletedRequest::RelayFee { resp, .. } if resp.fee == 1000
    ));
    assert!(matches!(
        completes(request::GetBalance { script_hash: script() }),
        CompletedRequest::GetBalance { resp, .. } if resp.unconfirmed == -1
    ));
    completes(request::GetHistory { script_hash: script() });
    completes(request::GetMempool { script_hash: script() });
    completes(request::ListUnspent { script_hash: script() });
    completes(request::ScriptHashSubscribe { script_hash: script() });
    assert!(matches!(
        completes(request::ScriptHashUnsubscribe { script_hash: script() }),
        CompletedRequest::ScriptHashUnsubscribe { resp: true, .. }
    ));
    assert!(matches!(
        completes(request::BroadcastTx(tx)),
        CompletedRequest::BroadcastTx { resp, .. } if resp.bytes == [8; 32]
    ));
    completes(request::GetTx { txid });
    completes(request::GetTxMerkle { txid, height: 3 });
    completes(request::GetTxidFromPos { height: 3, tx_pos: 4 });
    completes(request::GetFeeHistogram);
    completes(request::Banner);
    completes(request::Features);
    completes(request::Ping);
    completes(request::Version { client_name: "a".into(), version: "b".into() });
    completes(request::SpSubscribe {
        scan_priv_key,
        scan_pub_key,
        start_height: None,
        labels: None,
    });
    completes(request::SpUnSubscribe { scan_priv_key, scan_pub_key });
    assert!(request::Ping::into_response(completes(request::Banner)).is_none());
}

#[test]
fn a_failed_request_holds_the_request_and_the_error() {
    match fails(request::Header { height: 8 }) {
        FailedRequest::Header { req, error } => {
            assert_eq!(req.height, 8);
            assert_eq!(error.message(), "Response.error: 1");
        }
        other => panic!("{:?}", other),
    }
    assert!(matches!(
        fails(request::Custom { method: "y".into(), params: vec![] }),
        FailedRequest::Custom { req, .. } if req.method == "y"
    ));
    let error = ResponseError::new(Value::number(2));
    assert!(matches!(
        AnyRequest::Ping(request::Ping).into_failed(error),
        FailedRequest::Ping { error, .. } if error.message() == "Response.error: 2"
    ));
}

#[test]
fn headers_of_events_have_consecutive_heights() {
    let req = request::Headers { start_height: 100, count: 3 };
    let event = Event::Response(completes(req));
    let expected = vec![(100, header(10)), (101, header(11)), (102, header(12))];
    assert_eq!(event.try_to_headers(), Some(expected));
    let req = request::Headers { start_height: u32::MAX - 2, count: 3 };
    let heights: Vec<u32> = Event::Response(completes(req))
        .try_to_headers()
        .unwrap()
        .into_iter()
        .map(|(height, _)| height)
        .collect();
    assert_eq!(heights, [u32::MAX - 2, u32::MAX - 1, u32::MAX]);
    let req = request::HeadersWithCheckpoint { start_height: 9, count: 1, cp_height: 20 };
    assert_eq!(Event::Response(completes(req)).try_to_headers(), Some(vec![(9, header(20))]));
    let req = request::Header { height: 50 };
    assert_eq!(Event::Response(completes(req)).try_to_headers(), Some(vec![(50, header(1))]));
    let req = request::HeaderWithProof { height: 51, cp_height: 52 };
    assert_eq!(Event::Response(completes(req)).try_to_headers(), Some(vec![(51, header(2))]));
}

#[test]
fn headers_of_notifications_and_of_other_events() {
    let tip = response::HeadersSubscribeResp { header: header(4), height: 60 };
    let event = Event::Notification(Notification::Header(HeaderNotification::new(tip)));
    assert_eq!(event.try_to_headers(), Some(vec![(60, header(4))]));
    assert_eq!(Event::Response(completes(request::Ping)).try_to_headers(), None);
    let event = Event::Response(completes(request::HeadersSubscribe));
    assert_eq!(event.try_to_headers(), Some(vec![(5, header(3))]));
    let failed = fails(request::Header { height: 1 });
    assert_eq!(Event::ResponseError(failed).try_to_headers(), None);
}

#[test]
fn a_batch_keeps_the_order_of_its_requests() {
    let mut batch: BatchRequest<u32> = BatchRequest::new();
    batch.request(request::Ping, 1);
    batch.event_request(request::Banner);
    batch.request(request::RelayFee, 2);
    match batch.into_inner() {
        Some(MaybeBatch::Batch(reqs)) => {
            let methods: Vec<_> =
                reqs.iter().map(|r| r.to_method_and_params().0.into_owned()).collect();
            assert_eq!(methods, ["server.ping", "server.banner", "server.relayfee"]);
        }
        other => panic!("{:?}", other),
    }
}

#[test]
fn one_request_is_no_batch_and_none_is_nothing() {
    let mut batch: BatchRequest<u32> = BatchRequest::default();
    batch.event_request(request::Ping);
    assert!(matches!(batch.into_inner(), Some(MaybeBatch::Single(_))));
    assert!(BatchRequest::<u32>::new().into_inner().is_none());
}

#[test]
fn batch_errors_have_messages() {
    assert_eq!(
        BatchRequestError::Canceled.message(),
        "Request was canceled before being satisfied."
    );
    assert_eq!(
        BatchRequestError::Response(ResponseError::new(Value::string("no"))).message(),
        "Request satisfied with error: Response.error: \"no\""
    );
}

#[test]
fn maybe_batch_conversions() {
    assert_eq!(MaybeBatch::Single(1).into_vec(), [1]);
    assert_eq!(MaybeBatch::Batch(vec![1, 2]).into_vec(), [1, 2]);
    let mut opt = None;
    MaybeBatch::push_opt(&mut opt, 1);
    assert!(matches!(opt, Some(MaybeBatch::Single(1))));
    MaybeBatch::push_opt(&mut opt, 2);
    MaybeBatch::push_opt(&mut opt, 3);
    assert!(matches!(&opt, Some(MaybeBatch::Batch(v)) if *v == [1, 2, 3]));
    let doubled = opt.unwrap().map(|n: i32| n * 2);
    assert!(matches!(&doubled, MaybeBatch::Batch(v) if *v == [2, 4, 6]));
    assert!(matches!(MaybeBatch::Single(4u8).map_into::<u32>(), MaybeBatch::Single(4u32)));
    assert!(matches!(
        MaybeBatch::Batch(vec![4u8, 5]).map_into::<u32>(),
        MaybeBatch::Batch(v) if v == [4u32, 5]
    ));
}

#[test]
fn a_worker_writes_what_it_tracks() {
    let mut state: State<u32> = State::new();
    let mut next_id = 0;
    let req = Some(PendingRequest::event(request::Ping).into());
    match handle_request(&mut state, &mut next_id, req) {
        Action::Write(line) => assert_eq!(
            String::from_utf8(line).unwrap(),
            "{\"jsonrpc\":\"2.0\",\"id\":0,\"method\":\"server.ping\",\"params\":[]}\n"
        ),
        other => panic!("{:?}", other),
    }
    assert_eq!(next_id, 1);
    next_id = 0;
    let req = Some(PendingRequest::event(request::Banner).into());
    match handle_request(&mut state, &mut next_id, req) {
        Action::Write(line) => assert_eq!(
            String::from_utf8(line).unwrap(),
            "{\"jsonrpc\":\"2.0\",\"id\":1,\"method\":\"server.banner\",\"params\":[]}\n"
        ),
        other => panic!("{:?}", other),
    }
    state.process_incoming(answer(1, Ok(null())), &Fixed).unwrap();
    next_id = 1;
    assert!(matches!(handle_request(&mut state, &mut next_id, None), Action::Stop));
    assert_eq!(next_id, 1);
    assert_eq!(pending_ids(&state), [0]);
}

#[test]
fn a_worker_acts_on_what_comes_in() {
    let mut state: State<u32> = State::new();
    let mut next_id = 0;
    let reqs: Vec<PendingRequest<u32>> =
        vec![PendingRequest::event(request::Ping), PendingRequest::new(request::Banner, Some(3))];
    state.track_request(&mut next_id, reqs.into());
    assert!(matches!(
        handle_incoming(&mut state, Some(Ok(answer(0, Ok(null())))), &Fixed),
        Action::Emit(Event::Response(_))
    ));
    assert!(matches!(
        handle_incoming(&mut state, Some(Ok(answer(1, Ok(null())))), &Fixed),
        Action::Deliver(1, 3, Ok(_))
    ));
    assert!(matches!(
        handle_incoming(&mut state, Some(Ok(answer(1, Ok(null())))), &Fixed),
        Action::Fail(WorkerError::Process(ProcessError::MissingRequest(1)))
    ));
    let error = std::io::Error::other("gone");
    assert!(matches!(
        handle_incoming(&mut state, Some(Err(error)), &Fixed),
        Action::Fail(WorkerError::Read(_))
    ));
    assert!(matches!(handle_incoming(&mut state, None, &Fixed), Action::Stop));
}

#[test]
fn a_worker_stops_where_nobody_listens_or_something_fails() {
    assert!(matches!(next_after(Performed::Written(Ok(()))), Next::Continue));
    assert!(matches!(
        next_after(Performed::Written(Err(std::io::Error::other("full")))),
        Next::Finish(Err(_))
    ));
    assert!(matches!(next_after(Performed::Emitted { listening: true }), Next::Continue));
    assert!(matches!(next_after(Performed::Emitted { listening: false }), Next::Finish(Ok(()))));
    assert!(matches!(next_after(Performed::Delivered { id: 1, read: Ok(()) }), Next::Continue));
    let read = Err(DecodeError { message: "no number".to_string() });
    match next_after(Performed::Delivered { id: 6, read }) {
        Next::Fail(error) => assert_eq!(
            error.message(),
            "failed to deserialize response for request id 6: no number"
        ),
        other => panic!("{:?}", other),
    }
}
