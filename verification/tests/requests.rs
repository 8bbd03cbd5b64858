//! The method names, parameters and encodings of requests.

use electrum_streaming_client::chain::{
    BlockHeader, DoubleSHA, PublicKey, SecretKey, Transaction, TxIn, TxOut, Txid,
};
use electrum_streaming_client::io::encode_message;
use electrum_streaming_client::request;
use electrum_streaming_client::response;
use electrum_streaming_client::text::{push_decimal, same_text};
use electrum_streaming_client::{
    ElectrumScriptHash, ElectrumScriptStatus, MaybeBatch, RawRequest, RawResponse, Request, ResponseError, Value, Version,
    JSONRPC_VERSION_2_0,
};
use std::borrow::Cow;
use std::collections::hash_map::DefaultHasher;
use std::hash::{Hash, Hasher};

const EMPTY_SCRIPT_HASH: &str = "55b852781b9995a44c939b64e441ae2724b96f99c8f4fb9a141cfc9842c4b0e3";

fn parts<R: Request>(req: &R) -> (String, Vec<String>) {
    let (method, params) = req.to_method_and_params();
    (method.into_owned(), params.iter().map(|p| p.as_str().to_string()).collect())
}

fn expect<R: Request>(req: R, method: &str, params: &[&str]) {
    let (m, p) = parts(&req);
    assert_eq!(m, method);
    assert_eq!(p, params);
    let (m, p) = parts(&req.clone());
    assert_eq!(m, method);
    assert_eq!(p, params);
}

fn hex(bytes: &[u8]) -> String {
    bytes.iter().map(|b| format!("{:02x}", b)).collect()
}

#[test]
fn header_requests() {
    expect(request::Header { height: 7 }, "blockchain.block.header", &["7"]);
    expect(
        request::HeaderWithProof { height: 7, cp_height: 2016 },
        "blockchain.block.header",
        &["7", "2016"],
    );
    expect(
        request::Headers { start_height: 0, count: usize::MAX },
        "blockchain.block.headers",
        &["0", "18446744073709551615"],
    );
    expect(
        request::HeadersWithCheckpoint { start_height: u32::MAX, count: 10, cp_height: 99 },
        "blockchain.block.headers",
        &["4294967295", "10", "99"],
    );
    expect(request::HeadersSubscribe, "blockchain.headers.subscribe", &[]);
}

#[test]
fn requests_without_parameters() {
    expect(request::RelayFee, "server.relayfee", &[]);
    expect(request::GetFeeHistogram, "mempool.get_fee_histogram", &[]);
    expect(request::Banner, "server.banner", &[]);
    expect(request::Features, "server.features", &[]);
    expect(request::Ping, "server.ping", &[]);
}

#[test]
fn estimate_fee_request() {
    expect(request::EstimateFee { number: 6 }, "blockchain.estimatefee", &["6"]);
}

#[test]
fn script_hash_is_the_reversed_digest_of_the_script() {
    let hash = ElectrumScriptHash::new(&[]);
    assert_eq!(hash.to_hex(), EMPTY_SCRIPT_HASH);
    assert_eq!(hash.bytes[0], 0xe3);
    assert_eq!(hash.bytes[31], 0x55);
    let mut written = hash.bytes;
    written.reverse();
    assert_eq!(ElectrumScriptHash::from_reversed(&written), hash);
}

#[test]
fn script_hash_requests() {
    let param = format!("\"{}\"", EMPTY_SCRIPT_HASH);
    let params = [param.as_str()];
    expect(request::GetBalance::from_script(&[]), "blockchain.scripthash.get_balance", &params);
    expect(request::GetHistory::from_script(&[]), "blockchain.scripthash.get_history", &params);
    expect(request::GetMempool::from_script(&[]), "blockchain.scripthash.get_mempool", &params);
    expect(request::ListUnspent::from_script(&[]), "blockchain.scripthash.listunspent", &params);
    expect(
        request::ScriptHashSubscribe::from_script(&[]),
        "blockchain.scripthash.subscribe",
        &params,
    );
    expect(
        request::ScriptHashUnsubscribe::from_script(&[]),
        "blockchain.scripthash.unsubscribe",
        &params,
    );
}

#[test]
fn different_scripts_have_different_hashes() {
    assert_ne!(ElectrumScriptHash::new(&[]), ElectrumScriptHash::new(&[0x51]));
}

fn genesis_coinbase() -> Transaction {
    let mut script_sig = vec![0x04, 0xff, 0xff, 0x00, 0x1d, 0x01, 0x04, 0x45];
    script_sig.extend_from_slice(
        b"The Times 03/Jan/2009 Chancellor on brink of second bailout for banks",
    );
    let input = TxIn {
        txid: Txid { bytes: [0; 32] },
        vout: u32::MAX,
        script_sig,
        sequence: u32::MAX,
        witness: vec![],
    };
    let output = TxOut { value: 5_000_000_000, script_pubkey: vec![0x51, 0xac] };
    Transaction::new(1, 0, vec![input], vec![output]).expect("no witness")
}

#[test]
fn broadcast_request_holds_the_encoded_transaction() {
    let tx = genesis_coinbase();
    let expected = concat(&[
        "01000000",
        "01",
        "0000000000000000000000000000000000000000000000000000000000000000",
        "ffffffff",
        "4d",
        "04ffff001d0104455468652054696d65732030332f4a616e2f32303039204368616e63656c6c6f72206f6e20",
        "6272696e6b206f66207365636f6e64206261696c6f757420666f722062616e6b73",
        "ffffffff",
        "01",
        "00f2052a01000000",
        "02",
        "51ac",
        "00000000",
    ]);
    assert_eq!(hex(&tx.consensus_encode()), expected);
    expect(
        request::BroadcastTx(tx),
        "blockchain.transaction.broadcast",
        &[format!("\"{}\"", expected).as_str()],
    );
}

fn concat(parts: &[&str]) -> String {
    parts.iter().map(|p| p.to_string()).collect()
}

#[test]
fn broadcast_request_keeps_the_witness() {
    let input = TxIn {
        txid: Txid { bytes: [7; 32] },
        vout: 1,
        script_sig: vec![],
        sequence: 0,
        witness: vec![vec![0xaa], vec![], vec![0xbb, 0xcc]],
    };
    let tx = Transaction::new(2, 500, vec![input], vec![]).expect("a short witness");
    let expected = concat(&[
        "02000000",
        "0001",
        "01",
        "0707070707070707070707070707070707070707070707070707070707070707",
        "01000000",
        "00",
        "00000000",
        "00",
        "03",
        "01aa",
        "00",
        "02bbcc",
        "f4010000",
    ]);
    assert_eq!(hex(&tx.consensus_encode()), expected);
    assert_eq!(tx.clone(), tx);
}

#[test]
fn broadcast_parameters_are_the_bytes_in_hexadecimal() {
    let params = request::BroadcastTx::params(&[0x00, 0x1f, 0xa0, 0xff]);
    assert_eq!(params.len(), 1);
    assert_eq!(params[0].as_str(), "\"001fa0ff\"");
}

#[test]
fn transaction_requests() {
    let mut bytes = [0; 32];
    bytes[0] = 0x01;
    bytes[31] = 0xfe;
    let txid = Txid { bytes };
    let hex = "fe00000000000000000000000000000000000000000000000000000000000001";
    assert_eq!(txid.to_hex(), hex);
    let quoted = format!("\"{}\"", hex);
    expect(request::GetTx { txid }, "blockchain.transaction.get", &[quoted.as_str()]);
    expect(
        request::GetTxMerkle { txid, height: 170 },
        "blockchain.transaction.get_merkle",
        &[quoted.as_str(), "170"],
    );
    expect(
        request::GetTxidFromPos { height: 170, tx_pos: 1 },
        "blockchain.transaction.id_from_pos",
        &["170", "1"],
    );
}

#[test]
fn version_request_escapes_its_strings() {
    expect(
        request::Version { client_name: Cow::Borrowed("a \"b\"\n\u{1}"), version: "1.4".into() },
        "server.version",
        &["\"a \\\"b\\\"\\n\\u0001\"", "\"1.4\""],
    );
}

#[test]
fn silent_payment_requests() {
    let scan_priv_key = SecretKey { bytes: [0x11; 32] };
    let mut bytes = [0x22; 33];
    bytes[0] = 0x02;
    let scan_pub_key = PublicKey { bytes };
    let private = format!("\"{}\"", "11".repeat(32));
    let public = format!("\"02{}\"", "22".repeat(32));
    expect(
        request::SpSubscribe { scan_priv_key, scan_pub_key, start_height: None, labels: None },
        "blockchain.silentpayments.subscribe",
        &[&private, &public],
    );
    expect(
        request::SpSubscribe {
            scan_priv_key,
            scan_pub_key,
            start_height: Some(800_000),
            labels: Some(vec![1, 20, 300]),
        },
        "blockchain.silentpayments.subscribe",
        &[&private, &public, "800000", "[1,20,300]"],
    );
    expect(
        request::SpSubscribe {
            scan_priv_key,
            scan_pub_key,
            start_height: None,
            labels: Some(vec![]),
        },
        "blockchain.silentpayments.subscribe",
        &[&private, &public, "[]"],
    );
    expect(
        request::SpUnSubscribe { scan_priv_key, scan_pub_key },
        "blockchain.silentpayments.unsubscribe",
        &[&private, &public],
    );
}

#[test]
fn keys_and_hashes_show_themselves_as_the_bitcoin_types_do() {
    let scan_priv_key = SecretKey { bytes: [0x11; 32] };
    let shown = bitcoin::secp256k1::SecretKey::from_slice(&[0x11; 32]).unwrap();
    assert_eq!(format!("{:?}", scan_priv_key), format!("{:?}", shown));
    let mut bytes = [0x22; 33];
    bytes[0] = 0x02;
    let scan_pub_key = PublicKey { bytes };
    let req = request::SpUnSubscribe { scan_priv_key, scan_pub_key };
    let text = format!("{:?}", req);
    assert!(text.starts_with("SpUnSubscribe { scan_priv_key: SecretKey(#"));
    assert!(!text.contains("17, 17") && !text.contains("1111"));
    assert!(!format!("{:?}", SecretKey { bytes: [0xff; 32] }).contains("255"));

    let mut bytes = [0; 32];
    bytes[0] = 0x01;
    let hex = "0000000000000000000000000000000000000000000000000000000000000001";
    let forward = "0100000000000000000000000000000000000000000000000000000000000000";
    assert_eq!(format!("{:?}", Txid { bytes }), hex);
    assert_eq!(
        format!("{:?}", request::GetTx { txid: Txid { bytes } }),
        format!("GetTx {{ txid: {} }}", hex)
    );
    assert_eq!(format!("{:?}", DoubleSHA { bytes }), format!("0x{}", hex));
    assert_eq!(format!("{:?}", ElectrumScriptHash { bytes }), hex);
    assert_eq!(format!("{:?}", ElectrumScriptStatus { bytes }), forward);
    let header = BlockHeader {
        version: 1,
        prev_blockhash: bytes,
        merkle_root: [0; 32],
        time: 2,
        bits: 3,
        nonce: 4,
    };
    let text = format!("{:?}", header);
    assert!(text.starts_with("Header { block_hash: "));
    assert!(text.contains(&format!("prev_blockhash: {}, ", hex)));
}

#[test]
fn a_transaction_shows_what_it_holds() {
    let tx = genesis_coinbase();
    assert_eq!(tx.version(), 1);
    assert_eq!(tx.lock_time(), 0);
    assert_eq!(tx.input().len(), 1);
    assert_eq!(tx.input()[0].vout, u32::MAX);
    assert_eq!(tx.output().len(), 1);
    assert_eq!(tx.output()[0].value, 5_000_000_000);
    let same: bitcoin::Transaction =
        bitcoin::consensus::deserialize(&tx.consensus_encode()).unwrap();
    assert_eq!(format!("{:?}", tx), format!("{:?}", same));
}

#[test]
fn values_are_equal_as_json() {
    let value = |text: &str| Value::parse(text).unwrap();
    let hash = |value: &Value| {
        let mut hasher = DefaultHasher::new();
        value.hash(&mut hasher);
        hasher.finish()
    };
    assert_eq!(value("[0.0]"), value("[-0.0]"));
    assert_eq!(hash(&value("[0.0]")), hash(&value("[-0.0]")));
    assert_eq!(value("[-0.0]").as_str(), "[-0.0]");
    assert_ne!(value("1"), value("1.0"));
    assert_ne!(value("\"0.0\""), value("\"-0.0\""));
    assert_eq!(value("{\"a\":1,\"b\":2}"), value("{ \"b\":2, \"a\":1 }"));
    assert_eq!(Value::number(7), value("7"));
    assert_eq!(format!("{:?}", value("[1,null]")), "Array [Number(1), Null]");
    assert_eq!(Value::string("x\n"), value("\"x\\u000a\""));
    let custom = |text: &str| request::Custom { method: "m".into(), params: vec![value(text)] };
    assert_eq!(custom("0.0"), custom("-0.0"));
    assert_ne!(custom("0.0"), custom("0.1"));
}

#[test]
fn custom_request_sends_what_it_holds() {
    let params = vec![Value::parse(" { \"a\" : [ 1, null ] } ").unwrap(), Value::number(3)];
    expect(
        request::Custom { method: "server.peers.subscribe".into(), params },
        "server.peers.subscribe",
        &["{\"a\":[1,null]}", "3"],
    );
}

#[test]
fn values_are_compact_json() {
    assert_eq!(Value::parse("[ 1 ,\n 2 ]").unwrap().as_str(), "[1,2]");
    assert_eq!(Value::parse("\"a\\nb\"").unwrap().as_str(), "\"a\\nb\"");
    assert!(Value::parse("[1").is_none());
    assert!(Value::parse("").is_none());
    assert_eq!(Value::string("caf\u{e9}\t").as_str(), "\"caf\u{e9}\\t\"");
    assert_eq!(Value::number(0).as_str(), "0");
    assert_eq!(Value::number(1234567890).as_str(), "1234567890");
}

#[test]
fn json_strings_read_back_as_what_they_were_written_for() {
    let text: String = (0u32..0x100).filter_map(char::from_u32).collect();
    let read: String = serde_json::from_str(Value::string(&text).as_str()).unwrap();
    assert_eq!(read, text);
}

#[test]
fn texts_are_compared_and_numbers_written() {
    assert!(same_text("server.ping", "server.ping"));
    assert!(!same_text("server.ping", "server.pin"));
    assert!(!same_text("server.ping", "server.pong"));
    assert!(same_text("", ""));
    let mut text = String::from("n=");
    push_decimal(&mut text, u64::MAX);
    assert_eq!(text, "n=18446744073709551615");
}

#[test]
fn raw_request_is_made_of_id_and_request() {
    let raw = RawRequest::from_request(9, request::Header { height: 5 });
    assert_eq!(raw.jsonrpc, JSONRPC_VERSION_2_0);
    assert_eq!(raw.id, 9);
    assert_eq!(raw.method, "blockchain.block.header");
    assert_eq!(raw.params.len(), 1);
    let raw: RawRequest = (10, request::Ping).into();
    assert_eq!(raw.id, 10);
    assert_eq!(raw.method, "server.ping");
    let copy = raw.clone();
    assert_eq!(copy.id, 10);
    assert_eq!(copy.jsonrpc, "2.0");
}

#[test]
fn version_is_two_point_zero() {
    assert_eq!(Version.as_str(), "2.0");
    assert_eq!(Version.as_ref(), "2.0");
    assert!(Version::from_text("2.0").is_some());
    assert!(Version::from_text("1.0").is_none());
    assert!(Version::from_text("2.00").is_none());
}

#[test]
fn a_response_holds_a_result_or_an_error() {
    let value = |text: &str| Some(Value::parse(text).unwrap());
    let error = value("{\"code\":1}");
    assert_eq!(
        RawResponse::outcome(value("null"), error.clone()),
        Some(Err(error.clone().unwrap()))
    );
    assert_eq!(RawResponse::outcome(None, error.clone()), Some(Err(error.unwrap())));
    assert_eq!(RawResponse::outcome(value("5"), value("null")), Some(Ok(Value::number(5))));
    assert_eq!(RawResponse::outcome(value("null"), None), Some(Ok(value("null").unwrap())));
    assert_eq!(RawResponse::outcome(None, value("null")), None);
    assert_eq!(RawResponse::outcome(None, None), None);
}

#[test]
fn responses_are_made_of_what_the_server_gives() {
    let fee = |rate| response::EstimateFeeResp::from_sat_per_kvb(rate).sat_per_kwu;
    assert_eq!(fee(Some(4003)), Some(1000));
    assert_eq!(fee(None), None);
    let txid = Txid { bytes: [3; 32] };
    assert!(response::MempoolTx::from_height(txid, 10, 0).confirmed_inputs);
    let tx = response::MempoolTx::from_height(txid, 10, -1);
    assert_eq!(tx, response::MempoolTx { txid, fee: 10, confirmed_inputs: false });
}

#[test]
fn a_request_is_written_on_one_line() {
    let raw = RawRequest::from_request(3, request::Headers { start_height: 1, count: 2 });
    let line = encode_message(&MaybeBatch::Single(raw));
    let expected = "{\"jsonrpc\":\"2.0\",\"id\":3,\"method\":\"blockchain.block.headers\",\"params\":[1,2]}\n";
    assert_eq!(String::from_utf8(line).unwrap(), expected);
}

#[test]
fn a_batch_is_written_as_an_array() {
    let a = RawRequest::from_request(0, request::Ping);
    let b = RawRequest::from_request(1, request::Banner);
    let line = encode_message(&MaybeBatch::Batch(vec![a, b]));
    let expected = concat(&[
        "[{\"jsonrpc\":\"2.0\",\"id\":0,\"method\":\"server.ping\",\"params\":[]},",
        "{\"jsonrpc\":\"2.0\",\"id\":1,\"method\":\"server.banner\",\"params\":[]}]\n",
    ]);
    assert_eq!(String::from_utf8(line).unwrap(), expected);
    assert_eq!(encode_message(&MaybeBatch::Batch(vec![])), b"[]\n");
}

#[test]
fn line_feeds_in_a_request_do_not_break_its_line() {
    let req = request::Custom {
        method: "a\nb\u{2028}".into(),
        params: vec![Value::string("\n\n"), Value::parse("[\n1\n]").unwrap()],
    };
    let line = encode_message(&MaybeBatch::Single(RawRequest::new(
        1,
        req.to_method_and_params().0,
        req.to_method_and_params().1,
    )));
    assert_eq!(line.iter().filter(|b| **b == b'\n').count(), 1);
    assert_eq!(line.last(), Some(&b'\n'));
    let value: serde_json::Value = serde_json::from_slice(&line).unwrap();
    assert_eq!(value["method"], "a\nb\u{2028}");
    assert_eq!(value["params"][0], "\n\n");
}

#[test]
fn request_errors_have_messages() {
    let response = || ResponseError::new(Value::parse("{\"code\": -32601}").unwrap());
    let error: request::Error<()> = request::Error::Dispatch(());
    assert_eq!(error.message("queue closed"), "Failed to dispatch request: queue closed");
    let error: request::Error<()> = request::Error::Canceled;
    assert_eq!(error.message(""), "Request was canceled before being satisfied.");
    let error: request::Error<()> = request::Error::Response(response());
    assert_eq!(
        error.message(""),
        "Request satisfied with error: Response.error: {\"code\":-32601}"
    );
    assert_eq!(response().message(), "Response.error: {\"code\":-32601}");
}

#[test]
fn request_outcomes() {
    let error = ResponseError::new(Value::number(1));
    assert!(matches!(request::Error::<()>::settle::<u8>(None), Err(request::Error::Canceled)));
    assert!(matches!(
        request::Error::<()>::settle::<u8>(Some(Err(error))),
        Err(request::Error::Response(_))
    ));
    assert!(matches!(request::Error::<()>::settle(Some(Ok(5u8))), Ok(5)));
}
