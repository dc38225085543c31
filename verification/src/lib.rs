//! Streaming a data-store export over HTTP, without the I/O.
//!
//! The crate holds the decisions of an export endpoint: who may start an
//! export, what the endpoint answers once the producer has or has not
//! started, and how the stream bridge moves chunks from the producer to the
//! response body. Waiting for the producer and for the transport is left to
//! the caller, which performs each action the crate names and reports back
//! what happened.

pub mod bridge;
pub mod error;
pub mod forward;
pub mod handler;
pub mod session;
pub mod trace;
