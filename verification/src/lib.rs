//! A bridge between two incompatible chunked-byte-stream type systems, so
//! that request and response bodies can be proxied through a service without
//! buffering them fully in memory.
//!
//! The crate is a pair of adapters. The inbound adapter presents a
//! server-received request body as the chunk stream a client request builder
//! consumes; the outbound adapter presents a client-received response body
//! as the chunk stream a server's chunked-response writer consumes. Each
//! adapter translates one poll result at a time: chunks pass through
//! unchanged, not-ready results propagate unchanged, errors are mapped into
//! the target boundary's error taxonomy, and exhaustion is terminal.

pub mod inbound;
pub mod outbound;
pub mod stream;
