//! The outbound adapter: presents a client-received response body as the
//! chunk stream a server's chunked-response writer consumes. The client
//! boundary's error taxonomy is treated opaquely: only a failure's textual
//! description is preserved, wrapped as a generic server-side error.

use vstd::prelude::*;

use crate::inbound::generic_io_error;
use crate::stream::{AdapterState, StreamResult, valid_step};

verus! {

/// A client-side stream failure, preserved as its textual description
/// only.
pub struct OpaqueClientError {
    pub description: String,
}

/// The server-side rendering of a client failure: a generic error carrying
/// the client failure's textual description.
pub struct ServerStreamError {
    pub description: String,
}

/// What the outbound mapping preserves: the server-side error's
/// description is exactly the client failure's description.
pub open spec fn outbound_mapping(e: OpaqueClientError, r: ServerStreamError) -> bool {
    r.description@ == e.description@
}

/// Maps one opaque client failure to the server-side taxonomy, keeping its
/// textual description word for word.
pub fn map_outbound_error(e: OpaqueClientError) -> (r: ServerStreamError)
    ensures
        outbound_mapping(e, r),
{
    ServerStreamError { description: e.description }
}

/// The state of one outbound adapter instance. The wrapped stream itself
/// lives with the driver that polls it; this core takes the wrapped
/// stream's poll results one by one and owns the terminal-state rule.
pub struct OutboundStreamAdapter {
    state: AdapterState,
}

impl OutboundStreamAdapter {
    /// Whether the adapter has reached its terminal state.
    pub closed spec fn is_ended(self) -> bool {
        self.state.is_ended()
    }

    /// A fresh adapter in the `Active` state.
    pub fn new() -> (r: Self)
        ensures
            !r.is_ended(),
    {
        OutboundStreamAdapter { state: AdapterState::Active }
    }

    /// Whether the adapter has reached its terminal state. A driver that
    /// sees `true` must not poll the wrapped stream again; the adapter
    /// yields `End` forever.
    pub fn has_ended(&self) -> (b: bool)
        ensures
            b == self.is_ended(),
    {
        match self.state {
            AdapterState::Ended => true,
            AdapterState::Active => false,
        }
    }

    /// One poll: passes a chunk through unchanged, propagates `Pending`,
    /// wraps a client failure's description unchanged into the server-side
    /// taxonomy, and latches into the terminal state on `End`. Once ended,
    /// it yields `End` without reading the inner result.
    pub fn poll_step<C>(&mut self, inner: StreamResult<C, OpaqueClientError>) -> (out:
        StreamResult<C, ServerStreamError>)
        ensures
            valid_step(
                old(self).is_ended(),
                inner,
                final(self).is_ended(),
                out,
                |e: OpaqueClientError, r: ServerStreamError| outbound_mapping(e, r),
            ),
    {
        match self.state {
            AdapterState::Ended => StreamResult::End,
            AdapterState::Active => match inner {
                StreamResult::Pending => StreamResult::Pending,
                StreamResult::Item(c) => StreamResult::Item(c),
                StreamResult::ItemError(e) => StreamResult::ItemError(map_outbound_error(e)),
                StreamResult::End => {
                    self.state = AdapterState::Ended;
                    StreamResult::End
                },
            },
        }
    }
}

#[verifier::external_type_specification]
#[verifier::external_body]
pub struct ExReqwestError(reqwest::Error);

#[verifier::external_type_specification]
#[verifier::external_body]
pub struct ExActixWebError(actix_web::Error);

/// Relies on the Debug rendering of reqwest::Error for the textual
/// description of a client failure.
#[verifier::external_body]
fn client_error_text(e: &reqwest::Error) -> String {
    format!("{:?}", e)
}

/// What `poll_client_step` can promise of the error it yields for a client
/// failure: nothing beyond its presence. The failure is opaque here and its
/// debug text is no value this library can speak about; the description
/// guarantee lives on `poll_step` through `outbound_mapping`.
pub open spec fn opaque_client_mapping(e: reqwest::Error, r: ServerStreamError) -> bool {
    true
}

impl OutboundStreamAdapter {
    /// One poll against the client boundary's own result type: a client
    /// failure is reduced to its debug text and wrapped unchanged into the
    /// server-side taxonomy; everything else behaves as `poll_step`.
    pub fn poll_client_step<C>(&mut self, inner: StreamResult<C, reqwest::Error>) -> (out:
        StreamResult<C, ServerStreamError>)
        ensures
            valid_step(
                old(self).is_ended(),
                inner,
                final(self).is_ended(),
                out,
                |e: reqwest::Error, r: ServerStreamError| opaque_client_mapping(e, r),
            ),
    {
        match inner {
            StreamResult::Pending => self.poll_step::<C>(StreamResult::Pending),
            StreamResult::Item(c) => self.poll_step(StreamResult::Item(c)),
            StreamResult::ItemError(e) => {
                let described = OpaqueClientError { description: client_error_text(&e) };
                self.poll_step::<C>(StreamResult::ItemError(described))
            },
            StreamResult::End => self.poll_step::<C>(StreamResult::End),
        }
    }
}

/// Relies on actix_web::Error::from for lifting a plain I/O error into the
/// server framework's error wrapper.
#[verifier::external_body]
fn server_error_of(e: std::io::Error) -> actix_web::Error {
    actix_web::Error::from(e)
}

/// Renders a server-side stream failure as the server framework's error
/// type: a generic I/O error carrying the description, lifted into the
/// framework's wrapper.
pub fn realize_server_error(e: ServerStreamError) -> actix_web::Error {
    server_error_of(generic_io_error(e.description))
}

} // verus!
