//! The inbound adapter: presents a server-received request body as the
//! chunk stream a client request builder consumes, mapping the server
//! boundary's structured payload errors into the client boundary's plain
//! I/O error taxonomy.

use vstd::prelude::*;
use vstd::string::StringExecFns;

use actix_http::error::PayloadError;

use crate::stream::{AdapterState, StreamResult, valid_step};

verus! {

/// The structured error taxonomy of the server-side payload stream, held
/// as plain values. `F` is the type of an underlying I/O failure, carried
/// through opaquely.
pub enum InboundError<F> {
    /// The body ended before its expected length, optionally with the root
    /// I/O failure that cut it short.
    TransportIncomplete(Option<F>),
    /// The chunked or compressed encoding of the payload is malformed.
    EncodingError,
    /// The payload exceeded a configured size limit.
    SizeExceeded,
    /// The content length could not be determined where it was required.
    LengthUnknown,
    /// A transport-protocol-specific payload failure, carried as its debug
    /// text.
    ProtocolPayloadError(String),
    /// An underlying I/O failure, to be passed through unchanged.
    IoError(F),
    /// A case this library does not recognize, carried as its debug text so
    /// that schema drift in the inbound taxonomy fails closed instead of
    /// crashing.
    Unrecognized(String),
}

/// The client boundary's plain I/O error taxonomy, as far as the inbound
/// mapping needs it: either an underlying failure passed through unchanged,
/// or a generic error carrying a message.
pub enum MappedIoError<F> {
    Underlying(F),
    Generic(String),
}

/// The rule table of the inbound mapping: how each structured inbound error
/// case must be rendered in the plain I/O error taxonomy.
pub open spec fn inbound_mapping<F>(e: InboundError<F>, r: MappedIoError<F>) -> bool {
    match e {
        InboundError::TransportIncomplete(cause) => match cause {
            Some(f) => r == MappedIoError::Underlying(f),
            None => r matches MappedIoError::Generic(m) && m@
                == "Incomplete payload with no underlying cause"@,
        },
        InboundError::EncodingError => r matches MappedIoError::Generic(m) && m@
            == "payload encoding corrupted"@,
        InboundError::SizeExceeded => r matches MappedIoError::Generic(m) && m@
            == "payload overflow"@,
        InboundError::LengthUnknown => r matches MappedIoError::Generic(m) && m@
            == "payload length unknown"@,
        InboundError::ProtocolPayloadError(t) => r matches MappedIoError::Generic(m) && m@
            == "protocol payload failure: "@ + t@,
        InboundError::IoError(f) => r == MappedIoError::Underlying(f),
        InboundError::Unrecognized(t) => r matches MappedIoError::Generic(m) && m@
            == "unrecognized payload failure: "@ + t@,
    }
}

/// Maps one structured inbound failure to the plain I/O error taxonomy,
/// exactly as the rule table states: an underlying I/O failure is passed
/// through unchanged, every other case becomes a generic error with the
/// message the table names for it.
pub fn map_inbound_error<F>(e: InboundError<F>) -> (r: MappedIoError<F>)
    ensures
        inbound_mapping(e, r),
{
    match e {
        InboundError::TransportIncomplete(Some(f)) => MappedIoError::Underlying(f),
        InboundError::TransportIncomplete(None) => MappedIoError::Generic(
            "Incomplete payload with no underlying cause".to_owned(),
        ),
        InboundError::EncodingError => MappedIoError::Generic(
            "payload encoding corrupted".to_owned(),
        ),
        InboundError::SizeExceeded => MappedIoError::Generic("payload overflow".to_owned()),
        InboundError::LengthUnknown => MappedIoError::Generic("payload length unknown".to_owned()),
        InboundError::ProtocolPayloadError(t) => MappedIoError::Generic(
            "protocol payload failure: ".to_owned().concat(t.as_str()),
        ),
        InboundError::IoError(f) => MappedIoError::Underlying(f),
        InboundError::Unrecognized(t) => MappedIoError::Generic(
            "unrecognized payload failure: ".to_owned().concat(t.as_str()),
        ),
    }
}

/// The state of one inbound adapter instance. The wrapped stream handle
/// itself lives with the driver that polls it; this core takes the wrapped
/// stream's poll results one by one and owns the terminal-state rule.
pub struct InboundStreamAdapter {
    state: AdapterState,
}

impl InboundStreamAdapter {
    /// Whether the adapter has reached its terminal state.
    pub closed spec fn is_ended(self) -> bool {
        self.state.is_ended()
    }

    /// A fresh adapter in the `Active` state.
    pub fn new() -> (r: Self)
        ensures
            !r.is_ended(),
    {
        InboundStreamAdapter { state: AdapterState::Active }
    }

    /// Whether the adapter has reached its terminal state. A driver that
    /// sees `true` must not poll the wrapped stream again; the adapter
    /// yields `End` forever.
    pub fn has_ended(&self) -> (b: bool)
        ensures
            b == self.is_ended(),
    {
        match self.state {
            AdapterState::Ended => true,
            AdapterState::Active => false,
        }
    }

    /// One poll: passes a chunk through unchanged, propagates `Pending`,
    /// maps an error by the rule table, and latches into the terminal state
    /// on `End`. Once ended, it yields `End` without reading the inner
    /// result.
    pub fn poll_step<C, F>(&mut self, inner: StreamResult<C, InboundError<F>>) -> (out:
        StreamResult<C, MappedIoError<F>>)
        ensures
            valid_step(
                old(self).is_ended(),
                inner,
                final(self).is_ended(),
                out,
                |e: InboundError<F>, r: MappedIoError<F>| inbound_mapping(e, r),
            ),
    {
        match self.state {
            AdapterState::Ended => StreamResult::End,
            AdapterState::Active => match inner {
                StreamResult::Pending => StreamResult::Pending,
                StreamResult::Item(c) => StreamResult::Item(c),
                StreamResult::ItemError(e) => StreamResult::ItemError(map_inbound_error(e)),
                StreamResult::End => {
                    self.state = AdapterState::Ended;
                    StreamResult::End
                },
            },
        }
    }
}

#[verifier::external_type_specification]
#[verifier::external_body]
pub struct ExPayloadError(actix_http::error::PayloadError);

#[verifier::external_type_specification]
#[verifier::external_body]
pub struct ExIoError(std::io::Error);

/// Relies on actix_http::error::PayloadError: tells its variants apart, one
/// arm each, into this library's inbound taxonomy, moving the carried I/O
/// failure along; the protocol-specific case and any case this library does
/// not recognize are carried as their debug text.
#[verifier::external_body]
fn inbound_error_of(e: PayloadError) -> (r: InboundError<std::io::Error>) {
    match e {
        PayloadError::Incomplete(cause) => InboundError::TransportIncomplete(cause),
        PayloadError::EncodingCorrupted => InboundError::EncodingError,
        PayloadError::Overflow => InboundError::SizeExceeded,
        PayloadError::UnknownLength => InboundError::LengthUnknown,
        PayloadError::Http2Payload(inner) => InboundError::ProtocolPayloadError(
            format!("{:?}", inner),
        ),
        PayloadError::Io(inner) => InboundError::IoError(inner),
        other => InboundError::Unrecognized(format!("{:?}", other)),
    }
}

/// What `poll_payload_step` can promise of the error it yields for a
/// server-side payload error: it is the rule table's rendering of some
/// structured inbound case. Which case that is depends on the payload
/// error's variant, which is opaque here.
pub open spec fn payload_error_mapping(
    e: actix_http::error::PayloadError,
    r: MappedIoError<std::io::Error>,
) -> bool {
    exists|ie: InboundError<std::io::Error>| inbound_mapping(ie, r)
}

impl InboundStreamAdapter {
    /// One poll against the server boundary's own payload result type: the
    /// structured payload error is split into the inbound taxonomy and then
    /// mapped by the rule table; everything else behaves as `poll_step`.
    pub fn poll_payload_step<C>(
        &mut self,
        inner: StreamResult<C, actix_http::error::PayloadError>,
    ) -> (out: StreamResult<C, MappedIoError<std::io::Error>>)
        ensures
            valid_step(
                old(self).is_ended(),
                inner,
                final(self).is_ended(),
                out,
                |e: actix_http::error::PayloadError, r: MappedIoError<std::io::Error>|
                    payload_error_mapping(e, r),
            ),
    {
        match inner {
            StreamResult::Pending => self.poll_step::<C, std::io::Error>(StreamResult::Pending),
            StreamResult::Item(c) => self.poll_step(StreamResult::Item(c)),
            StreamResult::ItemError(pe) => {
                let ie = inbound_error_of(pe);
                self.poll_step::<C, std::io::Error>(StreamResult::ItemError(ie))
            },
            StreamResult::End => self.poll_step::<C, std::io::Error>(StreamResult::End),
        }
    }
}

/// Relies on std::io::Error::new: builds an error of the generic `Other`
/// kind whose description is the given message.
#[verifier::external_body]
pub(crate) fn generic_io_error(message: String) -> std::io::Error {
    std::io::Error::new(std::io::ErrorKind::Other, message)
}

/// Renders a mapped inbound failure as an actual I/O error: an underlying
/// failure is returned unchanged, a generic case becomes a fresh error of
/// the generic kind carrying the case's message.
pub fn realize_io_error(m: MappedIoError<std::io::Error>) -> (r: std::io::Error)
    ensures
        m matches MappedIoError::Underlying(f) ==> r == f,
{
    match m {
        MappedIoError::Underlying(f) => f,
        MappedIoError::Generic(message) => generic_io_error(message),
    }
}

} // verus!
