use std::io;

use actix_http::error::PayloadError;

use reqwest_actix_stream::inbound::{realize_io_error, InboundStreamAdapter, MappedIoError};
use reqwest_actix_stream::outbound::{realize_server_error, ServerStreamError};
use reqwest_actix_stream::stream::StreamResult;

type Chunk = Vec<u8>;

fn expect_generic(out: StreamResult<Chunk, MappedIoError<io::Error>>) -> String {
    match out {
        StreamResult::ItemError(MappedIoError::Generic(m)) => m,
        _ => panic!("expected a generic mapped error"),
    }
}

fn expect_underlying(out: StreamResult<Chunk, MappedIoError<io::Error>>) -> io::Error {
    match out {
        StreamResult::ItemError(MappedIoError::Underlying(e)) => e,
        _ => panic!("expected the underlying failure unchanged"),
    }
}

#[test]
fn payload_overflow_through_adapter() {
    let mut adapter = InboundStreamAdapter::new();
    let out = adapter.poll_payload_step::<Chunk>(StreamResult::ItemError(PayloadError::Overflow));
    assert_eq!(expect_generic(out), "payload overflow");
}

#[test]
fn payload_encoding_corrupted_through_adapter() {
    let mut adapter = InboundStreamAdapter::new();
    let out = adapter.poll_payload_step::<Chunk>(StreamResult::ItemError(
        PayloadError::EncodingCorrupted,
    ));
    assert_eq!(expect_generic(out), "payload encoding corrupted");
}

#[test]
fn payload_unknown_length_through_adapter() {
    let mut adapter = InboundStreamAdapter::new();
    let out = adapter.poll_payload_step::<Chunk>(StreamResult::ItemError(
        PayloadError::UnknownLength,
    ));
    assert_eq!(expect_generic(out), "payload length unknown");
}

#[test]
fn payload_incomplete_without_cause_through_adapter() {
    let mut adapter = InboundStreamAdapter::new();
    let out = adapter.poll_payload_step::<Chunk>(StreamResult::ItemError(
        PayloadError::Incomplete(None),
    ));
    assert_eq!(expect_generic(out), "Incomplete payload with no underlying cause");
}

#[test]
fn payload_incomplete_with_cause_through_adapter() {
    let mut adapter = InboundStreamAdapter::new();
    let cause = io::Error::new(io::ErrorKind::UnexpectedEof, "cut short");
    let out = adapter.poll_payload_step::<Chunk>(StreamResult::ItemError(
        PayloadError::Incomplete(Some(cause)),
    ));
    let e = expect_underlying(out);
    assert_eq!(e.kind(), io::ErrorKind::UnexpectedEof);
    assert_eq!(e.to_string(), "cut short");
}

#[test]
fn payload_io_through_adapter() {
    let mut adapter = InboundStreamAdapter::new();
    let cause = io::Error::new(io::ErrorKind::ConnectionReset, "reset by peer");
    let out = adapter.poll_payload_step::<Chunk>(StreamResult::ItemError(PayloadError::Io(cause)));
    let e = expect_underlying(out);
    assert_eq!(e.kind(), io::ErrorKind::ConnectionReset);
    assert_eq!(e.to_string(), "reset by peer");
}

#[test]
fn payload_http2_through_adapter() {
    let mut adapter = InboundStreamAdapter::new();
    let protocol_failure = h2::Error::from(h2::Reason::PROTOCOL_ERROR);
    let out = adapter.poll_payload_step::<Chunk>(StreamResult::ItemError(
        PayloadError::Http2Payload(protocol_failure),
    ));
    let message = expect_generic(out);
    assert!(message.starts_with("protocol payload failure: "));
    assert!(message.contains("PROTOCOL_ERROR"));
}

#[test]
fn payload_chunk_and_end_through_adapter() {
    let mut adapter = InboundStreamAdapter::new();
    let out = adapter.poll_payload_step::<Chunk>(StreamResult::Item(vec![0x41, 0x42]));
    match out {
        StreamResult::Item(c) => assert_eq!(c, vec![0x41, 0x42]),
        _ => panic!("the chunk must pass through unchanged"),
    }
    let out = adapter.poll_payload_step::<Chunk>(StreamResult::End);
    assert!(matches!(out, StreamResult::End));
    assert!(adapter.has_ended());
    let out = adapter.poll_payload_step::<Chunk>(StreamResult::End);
    assert!(matches!(out, StreamResult::End));
}

#[test]
fn realize_generic_io_error_message() {
    let realized = realize_io_error(MappedIoError::Generic("payload overflow".to_string()));
    assert_eq!(realized.kind(), io::ErrorKind::Other);
    assert_eq!(realized.to_string(), "payload overflow");
}

#[test]
fn realize_underlying_io_error_passthrough() {
    let original = io::Error::new(io::ErrorKind::TimedOut, "read timed out");
    let realized = realize_io_error(MappedIoError::Underlying(original));
    assert_eq!(realized.kind(), io::ErrorKind::TimedOut);
    assert_eq!(realized.to_string(), "read timed out");
}

#[test]
fn realize_server_error_keeps_description() {
    let failure = ServerStreamError { description: "error(body write aborted)".to_string() };
    let realized = realize_server_error(failure);
    assert!(format!("{}", realized).contains("error(body write aborted)"));
}
