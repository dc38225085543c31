//! The ways in which an export goes wrong.

use vstd::prelude::*;

verus! {

/// Why an export did not happen, or did not finish.
#[derive(Clone, Copy, Debug, PartialEq, Eq, Structural)]
pub enum ErrorKind {
    /// The request is rejected: the session may not export, it names no
    /// namespace or database, or the producer did not start.
    InvalidAuth,
    /// The producer failed after the response had begun. It is never shown
    /// to the client, who sees a truncated body only.
    StreamTerminatedEarly,
}

} // verus!
