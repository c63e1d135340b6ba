//! The peekable payload stream: non-destructive peek, arrival order,
//! single-pass exhaustion.

use router_pipeline::payload::Payload;
use router_pipeline::stream::PayloadStream;
use router_pipeline::values::JsonValue;

fn sample_payload(text: &str) -> Payload {
    Payload {
        data: Some(JsonValue::Text(String::from(text))),
        errors: vec![],
        extensions: vec![],
    }
}

fn sample_payloads() -> Vec<Payload> {
    vec![sample_payload("primary"), sample_payload("first increment"), sample_payload("second increment")]
}

#[test]
fn peek_then_iterate_matches_plain_iterate() {
    let mut plain = PayloadStream::from_payloads(sample_payloads());
    let mut peeked = PayloadStream::from_payloads(sample_payloads());

    let first = peeked.peek().expect("stream has a primary payload");
    assert_eq!(*first, sample_payload("primary"));

    let from_plain = plain.drain();
    let from_peeked = peeked.drain();
    assert_eq!(from_plain, from_peeked);
    assert_eq!(from_peeked, sample_payloads());
}

fn data_text(p: &Payload) -> Option<String> {
    match &p.data {
        Some(JsonValue::Text(s)) => Some(s.clone()),
        _ => None,
    }
}

#[test]
fn peek_twice_sees_the_same_payload() {
    let stream = PayloadStream::from_payloads(sample_payloads());
    let a = data_text(stream.peek().expect("payload"));
    let b = data_text(stream.peek().expect("payload"));
    assert_eq!(a, b);
    assert_eq!(a, Some(String::from("primary")));
}

#[test]
fn next_consumes_in_arrival_order() {
    let mut stream = PayloadStream::from_payloads(sample_payloads());
    assert_eq!(stream.remaining(), 3);
    assert_eq!(stream.next(), Some(sample_payload("primary")));
    assert_eq!(stream.next(), Some(sample_payload("first increment")));
    assert_eq!(stream.next(), Some(sample_payload("second increment")));
    assert_eq!(stream.next(), None);
}

#[test]
fn drained_stream_is_exhausted() {
    let mut stream = PayloadStream::from_payloads(sample_payloads());
    let all = stream.drain();
    assert_eq!(all.len(), 3);
    assert_eq!(stream.remaining(), 0);
    assert_eq!(stream.next(), None);
    assert!(stream.peek().is_none());
}

#[test]
fn empty_stream_peeks_nothing() {
    let stream = PayloadStream::empty();
    assert!(stream.peek().is_none());
}
