//! Lines of bytes become messages.

use electrum_streaming_client::decode::MessageParser;
use electrum_streaming_client::io::{ReadOutcome, ReadStreamer, Step};
use electrum_streaming_client::{
    MaybeBatch, RawNotification, RawNotificationOrResponse, RawResponse, Value, Version,
};
use std::io::BufRead;

/// Reads the notifications and responses of the tests.
struct Json;

fn message(value: &serde_json::Value) -> Result<RawNotificationOrResponse, std::io::Error> {
    let held = |v: &serde_json::Value| Value::parse(&v.to_string()).unwrap();
    if let Some(method) = value["method"].as_str() {
        Ok(RawNotificationOrResponse::Notification(RawNotification {
            version: Version,
            method: method.to_string().into(),
            params: held(&value["params"]),
        }))
    } else if let Some(id) = value["id"].as_u64() {
        Ok(RawNotificationOrResponse::Response(RawResponse {
            version: Version,
            id: id as u32,
            result: Ok(held(&value["result"])),
        }))
    } else {
        Err(std::io::Error::other("no message"))
    }
}

impl MessageParser for Json {
    fn parse(&self, line: &[u8]) -> Result<MaybeBatch<RawNotificationOrResponse>, std::io::Error> {
        let value: serde_json::Value = serde_json::from_slice(line)?;
        match value.as_array() {
            Some(items) => {
                let items: Result<Vec<_>, _> = items.iter().map(message).collect();
                Ok(MaybeBatch::Batch(items?))
            }
            None => Ok(MaybeBatch::Single(message(&value)?)),
        }
    }
}

fn next<R: BufRead>(
    streamer: &mut ReadStreamer<R>,
) -> Option<Result<RawNotificationOrResponse, std::io::Error>> {
    loop {
        match streamer.advance() {
            Step::Item(item) => return Some(Ok(item)),
            Step::Failed(error) => return Some(Err(error)),
            Step::End => return None,
            Step::Read(mut reader, mut buf) => {
                let outcome = match reader.read_until(b'\n', &mut buf) {
                    Ok(_) => ReadOutcome::Line(reader, buf),
                    Err(error) => ReadOutcome::Failed(error, buf),
                };
                streamer.complete_read(outcome, &Json);
            }
        }
    }
}

fn id_of(item: Option<Result<RawNotificationOrResponse, std::io::Error>>) -> u32 {
    match item {
        Some(Ok(RawNotificationOrResponse::Response(resp))) => resp.id,
        other => panic!("no response: {:?}", other),
    }
}

#[test]
fn a_notification_is_read_and_then_the_stream_ends() {
    let lines =
        b"{\"jsonrpc\":\"2.0\",\"method\":\"blockchain.headers.subscribe\",\"params\":[]}\n";
    let mut streamer = ReadStreamer::new(&lines[..]);
    match next(&mut streamer) {
        Some(Ok(RawNotificationOrResponse::Notification(n))) => {
            assert_eq!(n.method, "blockchain.headers.subscribe");
            assert_eq!(n.params.as_str(), "[]");
        }
        other => panic!("{:?}", other),
    }
    assert!(next(&mut streamer).is_none());
    assert!(next(&mut streamer).is_none());
}

#[test]
fn messages_come_out_in_order() {
    let lines = b"{\"id\":1,\"result\":0}\n[{\"id\":2},{\"id\":3}]\n[]\n{\"id\":4}\n";
    let mut streamer = ReadStreamer::new(&lines[..]);
    for id in 1..5 {
        assert_eq!(id_of(next(&mut streamer)), id);
    }
    assert!(next(&mut streamer).is_none());
}

#[test]
fn a_line_that_cannot_be_parsed_ends_the_stream() {
    let lines = b"{\"id\":1}\nnonsense\n{\"id\":2}\n";
    let mut streamer = ReadStreamer::new(&lines[..]);
    assert_eq!(id_of(next(&mut streamer)), 1);
    assert!(matches!(next(&mut streamer), Some(Err(_))));
    assert!(next(&mut streamer).is_none());
}

#[test]
fn an_error_in_a_batch_loses_the_batch() {
    let mut streamer = ReadStreamer::new(&b"[{\"id\":1},7]\n"[..]);
    assert!(matches!(next(&mut streamer), Some(Err(_))));
    assert!(next(&mut streamer).is_none());
}

#[test]
fn a_failed_read_is_handed_out_once() {
    let mut streamer: ReadStreamer<u8> = ReadStreamer::new(5);
    assert!(matches!(streamer.advance(), Step::Read(5, buf) if buf.is_empty()));
    let error = std::io::Error::other("gone");
    streamer.complete_read(ReadOutcome::Failed(error, b"{\"id".to_vec()), &Json);
    match streamer.advance() {
        Step::Failed(error) => assert_eq!(error.to_string(), "gone"),
        other => panic!("{:?}", other),
    }
    assert!(matches!(streamer.advance(), Step::End));
    assert!(matches!(streamer.advance(), Step::End));
}

#[test]
fn a_read_that_is_pending_goes_on_with_what_it_has() {
    let mut streamer: ReadStreamer<u8> = ReadStreamer::new(5);
    assert!(matches!(streamer.advance(), Step::Read(..)));
    streamer.complete_read(ReadOutcome::Pending(5, b"{\"id\"".to_vec()), &Json);
    match streamer.advance() {
        Step::Read(5, mut buf) => {
            assert_eq!(buf, b"{\"id\"");
            buf.extend_from_slice(b":8}\n");
            streamer.complete_read(ReadOutcome::Line(5, buf), &Json);
        }
        other => panic!("{:?}", other),
    }
    match streamer.advance() {
        Step::Item(RawNotificationOrResponse::Response(resp)) => assert_eq!(resp.id, 8),
        other => panic!("{:?}", other),
    }
    assert!(matches!(streamer.advance(), Step::Read(5, buf) if buf.is_empty()));
}

#[test]
fn only_a_line_without_its_line_feed_is_unfinished() {
    let line = |bytes: &[u8]| ReadOutcome::Line(0u8, bytes.to_vec()).is_terminated();
    assert!(line(b""));
    assert!(line(b"\n"));
    assert!(line(b"{}\n"));
    assert!(!line(b"{}"));
    assert!(!line(b"{}\n\r"));
    assert!(ReadOutcome::Pending(0u8, b"{".to_vec()).is_terminated());
    assert!(ReadOutcome::<u8>::Failed(std::io::Error::other("x"), b"{".to_vec()).is_terminated());
}

#[test]
fn what_was_parsed_is_queued() {
    let mut streamer: ReadStreamer<u8> = ReadStreamer::new(1);
    let message = |id| {
        RawNotificationOrResponse::Response(RawResponse {
            version: Version,
            id,
            result: Ok(Value::number(0)),
        })
    };
    assert!(streamer.enqueue(Ok(MaybeBatch::Single(message(1)))));
    assert!(streamer.enqueue(Ok(MaybeBatch::Batch(vec![message(2), message(3)]))));
    for id in 1..4 {
        match streamer.advance() {
            Step::Item(RawNotificationOrResponse::Response(resp)) => assert_eq!(resp.id, id),
            other => panic!("{:?}", other),
        }
    }
    assert!(!streamer.enqueue(Err(std::io::Error::other("bad line"))));
    assert!(matches!(streamer.advance(), Step::Failed(_)));
}
