//! Tests of the server core: the parser, the store, the handler, and the
//! concrete request-response scenario.

use minikv::handler::{handle_unit, step, ConnEvent, ConnState};
use minikv::protocol::{parse, Command, Field, ParseError, Response};
use minikv::store::Store;

fn simple(s: &str) -> Field {
    Field::Simple(s.to_string())
}

fn bulk(b: &[u8]) -> Field {
    Field::Bulk(b.to_vec())
}

#[test]
fn scenario_set_get_del() {
    let mut store = Store::new();

    let resp = handle_unit(&mut store, vec![simple("SET"), simple("foo"), simple("bar")]);
    assert!(matches!(resp, Response::Simple(ref s) if s == "OK"));

    let resp = handle_unit(&mut store, vec![simple("GET"), simple("foo")]);
    assert!(matches!(resp, Response::Bulk(ref v) if v == b"bar"));

    let resp = handle_unit(&mut store, vec![simple("GET"), simple("baz")]);
    assert!(matches!(resp, Response::Null));

    let resp = handle_unit(&mut store, vec![simple("DEL"), simple("foo")]);
    assert!(matches!(resp, Response::Error(ref s) if s == "unsupported command"));

    // The connection stays usable: the same store still answers.
    let resp = handle_unit(&mut store, vec![simple("GET"), simple("foo")]);
    assert!(matches!(resp, Response::Bulk(ref v) if v == b"bar"));
}

#[test]
fn parse_accepts_both_cases() {
    let r = parse(vec![simple("get"), simple("k")]);
    assert!(matches!(r, Ok(Command::Get { ref key }) if key == "k"));

    let r = parse(vec![simple("GeT"), simple("k")]);
    assert!(matches!(r, Ok(Command::Get { ref key }) if key == "k"));

    let r = parse(vec![simple("sEt"), simple("k"), bulk(b"v")]);
    assert!(matches!(r, Ok(Command::Put { ref key, ref value }) if key == "k" && value == b"v"));
}

#[test]
fn parse_accepts_bulk_verb_and_key() {
    // The verb and the key may arrive as UTF-8 byte blobs.
    let r = parse(vec![bulk(b"GET"), bulk(b"caf\xc3\xa9")]);
    assert!(matches!(r, Ok(Command::Get { ref key }) if key == "caf\u{e9}"));
}

#[test]
fn parse_rejects_wrong_shapes() {
    // Wrong arity.
    let r = parse(vec![simple("GET")]);
    assert!(matches!(r, Err(ParseError::Unsupported { .. })));
    let r = parse(vec![simple("GET"), simple("a"), simple("b")]);
    assert!(matches!(r, Err(ParseError::Unsupported { .. })));
    let r = parse(vec![simple("SET"), simple("a")]);
    assert!(matches!(r, Err(ParseError::Unsupported { .. })));

    // Unknown verb; the raw unit comes back for diagnostics.
    let r = parse(vec![simple("DEL"), simple("a")]);
    match r {
        Err(ParseError::Unsupported { raw }) => {
            assert_eq!(raw.len(), 2);
            assert!(matches!(raw[0], Field::Simple(ref s) if s == "DEL"));
        }
        _ => panic!("expected an unsupported-command error"),
    }

    // A null field carries no text.
    let r = parse(vec![Field::Null, simple("a")]);
    assert!(matches!(r, Err(ParseError::Unsupported { .. })));

    // A key that is not valid UTF-8 is rejected, not mangled.
    let r = parse(vec![bulk(b"GET"), bulk(&[0xff, 0xfe])]);
    assert!(matches!(r, Err(ParseError::Unsupported { .. })));
}

#[test]
fn store_overwrites_and_looks_up() {
    let mut store = Store::new();
    assert!(store.get(&"k".to_string()).is_none());

    store.set("k".to_string(), b"v1".to_vec());
    assert_eq!(store.get(&"k".to_string()).unwrap(), b"v1".to_vec());

    store.set("k".to_string(), b"v2".to_vec());
    assert_eq!(store.get(&"k".to_string()).unwrap(), b"v2".to_vec());

    store.set("other".to_string(), b"w".to_vec());
    assert_eq!(store.get(&"k".to_string()).unwrap(), b"v2".to_vec());
    assert_eq!(store.get(&"other".to_string()).unwrap(), b"w".to_vec());
}

#[test]
fn handler_closes_cleanly_on_stream_end() {
    let mut store = Store::new();
    store.set("k".to_string(), b"v".to_vec());

    let (state, resp) = step(ConnState::AwaitingRequest, ConnEvent::StreamEnd, &mut store);
    assert_eq!(state, ConnState::Closed);
    assert!(resp.is_none());
    // The store is untouched.
    assert_eq!(store.get(&"k".to_string()).unwrap(), b"v".to_vec());

    let (state, resp) = step(ConnState::AwaitingRequest, ConnEvent::ReadFailed, &mut store);
    assert_eq!(state, ConnState::Closed);
    assert!(resp.is_none());
    assert_eq!(store.get(&"k".to_string()).unwrap(), b"v".to_vec());
}

#[test]
fn handler_loops_through_dispatch() {
    let mut store = Store::new();

    let unit = vec![simple("SET"), simple("a"), bulk(b"1")];
    let (state, resp) = step(ConnState::AwaitingRequest, ConnEvent::Received(unit), &mut store);
    assert_eq!(state, ConnState::Dispatching);
    assert!(matches!(resp, Some(Response::Simple(ref s)) if s == "OK"));

    let (state, resp) = step(state, ConnEvent::WriteOk, &mut store);
    assert_eq!(state, ConnState::AwaitingRequest);
    assert!(resp.is_none());

    let unit = vec![simple("GET"), simple("a")];
    let (state, resp) = step(ConnState::AwaitingRequest, ConnEvent::Received(unit), &mut store);
    assert_eq!(state, ConnState::Dispatching);
    assert!(matches!(resp, Some(Response::Bulk(ref v)) if v == b"1"));

    let (state, resp) = step(state, ConnEvent::WriteFailed, &mut store);
    assert_eq!(state, ConnState::Closed);
    assert!(resp.is_none());
    // A failed write is connection-fatal but leaves the store alone.
    assert_eq!(store.get(&"a".to_string()).unwrap(), b"1".to_vec());
}

#[test]
fn last_writer_wins() {
    // Two connections setting the same key are serialized by the store;
    // afterwards it holds one of the two values whole.
    let mut store = Store::new();
    handle_unit(&mut store, vec![simple("SET"), simple("k"), bulk(b"v1")]);
    handle_unit(&mut store, vec![simple("SET"), simple("k"), bulk(b"v2")]);
    let got = store.get(&"k".to_string()).unwrap();
    assert_eq!(got, b"v2".to_vec());
    assert!(got == b"v1".to_vec() || got == b"v2".to_vec());
}
