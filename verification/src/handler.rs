//! The export handler: the authorization gate in front of the export
//! producer, and the answer to the request once the producer has been asked
//! to start.

use crate::error::ErrorKind;
use crate::session::Session;
use vstd::prelude::*;

verus! {

/// The status of a response whose body streams the export.
pub const STATUS_OK: u16 = 200;

/// The producer invocation that an authorized request is owed.
#[derive(Debug, PartialEq, Eq)]
pub struct ExportRequest {
    /// The namespace to export from.
    pub namespace: String,
    /// The database to export.
    pub database: String,
}

impl View for ExportRequest {
    type V = (Seq<char>, Seq<char>);

    open spec fn view(&self) -> (Seq<char>, Seq<char>) {
        (self.namespace@, self.database@)
    }
}

/// How the attempt to start the producer ended.
#[derive(Clone, Copy, Debug, PartialEq, Eq, Structural)]
pub enum StartOutcome {
    /// The producer handed out an export stream.
    Started,
    /// The producer could not start.
    Failed,
}

/// What the handler answers.
#[derive(Clone, Copy, Debug, PartialEq, Eq, Structural)]
pub enum Reply {
    /// A response with this status whose body is fed by the stream bridge.
    Streaming { status: u16 },
    /// The request is rejected with this error.
    Rejected(ErrorKind),
}

/// The authorization gate. A session of database scope or higher that names
/// its namespace and database is owed a producer invocation on exactly
/// those; every other session is rejected with `InvalidAuth`, and no
/// invocation exists for it.
pub fn authorize(session: Session) -> (r: Result<ExportRequest, ErrorKind>)
    ensures
        match r {
            Ok(request) => session@.export_scope() == Some(request@),
            Err(e) => session@.export_scope() is None && e == ErrorKind::InvalidAuth,
        },
        !session.level.covers_database() ==> r == Err::<ExportRequest, ErrorKind>(
            ErrorKind::InvalidAuth,
        ),
        session.level.covers_database() && session@.well_formed() ==> r is Ok,
{
    if !session.level.is_db() {
        return Err(ErrorKind::InvalidAuth);
    }
    match (session.namespace, session.database) {
        (Some(namespace), Some(database)) => Ok(ExportRequest { namespace, database }),
        _ => Err(ErrorKind::InvalidAuth),
    }
}

/// The answer to the request once the producer has been asked to start: a
/// streaming response with status 200 if it started, a rejection with
/// `InvalidAuth` if it did not. The answer depends on nothing that the
/// export stream yields.
pub fn respond(outcome: StartOutcome) -> (reply: Reply)
    ensures
        outcome == StartOutcome::Started ==> reply == (Reply::Streaming { status: STATUS_OK }),
        outcome == StartOutcome::Failed ==> reply == Reply::Rejected(ErrorKind::InvalidAuth),
{
    match outcome {
        StartOutcome::Started => Reply::Streaming { status: STATUS_OK },
        StartOutcome::Failed => Reply::Rejected(ErrorKind::InvalidAuth),
    }
}

} // verus!
