//! The forwarding loop on an export stream and a sink that are held in
//! memory: the bridge driven from its start until it asks for nothing more.

use crate::bridge::{start, step, Action, ActionView, Event, State};
use crate::error::ErrorKind;
use vstd::prelude::*;

verus! {

/// How an export stream ends once its chunks are out.
#[derive(Clone, Copy, Debug, PartialEq, Eq, Structural)]
pub enum Ending {
    /// The export is complete.
    EndOfData,
    /// The producer failed.
    Failed,
}

/// How a forwarding run ended.
#[derive(Clone, Copy, Debug, PartialEq, Eq, Structural)]
pub enum Outcome {
    /// Every chunk was written and the sink was closed cleanly.
    Completed,
    /// The export stream failed and the body was cut short.
    Truncated(ErrorKind),
    /// The sink refused a chunk: the client was gone.
    Disconnected,
}

/// What a forwarding run leaves behind.
#[derive(Debug, PartialEq, Eq)]
pub struct Delivery {
    /// The response body: every byte that the sink took.
    pub body: Vec<u8>,
    /// How many chunks the sink took.
    pub written: usize,
    /// How the run ended.
    pub outcome: Outcome,
    /// The state in which the bridge was left.
    pub state: State,
}

/// A delivery as a mathematical value.
pub struct DeliveryView {
    pub body: Seq<u8>,
    pub written: nat,
    pub outcome: Outcome,
    pub state: State,
}

impl View for Delivery {
    type V = DeliveryView;

    open spec fn view(&self) -> DeliveryView {
        DeliveryView {
            body: self.body@,
            written: self.written as nat,
            outcome: self.outcome,
            state: self.state,
        }
    }
}

/// The bytes of each chunk.
pub open spec fn contents(chunks: Seq<Vec<u8>>) -> Seq<Seq<u8>> {
    chunks.map_values(|chunk: Vec<u8>| chunk@)
}

/// The chunks that a sink takes if it accepts `writable` writes and refuses
/// the next: the first `writable` of them, or all.
pub open spec fn accepted(chunks: Seq<Seq<u8>>, writable: nat) -> Seq<Seq<u8>> {
    if writable < chunks.len() {
        chunks.take(writable as int)
    } else {
        chunks
    }
}

/// What forwarding delivers when the export stream yields `chunks` and then
/// ends with `ending`, into a sink that accepts `writable` writes and
/// refuses the next.
///
/// The body is the chunks that the sink took, one after the other in the
/// order of the stream. The run ends disconnected if the sink refused a
/// chunk; otherwise as the stream ended. In every case the bridge is left
/// closed.
pub open spec fn delivery(chunks: Seq<Seq<u8>>, ending: Ending, writable: nat) -> DeliveryView {
    DeliveryView {
        body: accepted(chunks, writable).flatten(),
        written: accepted(chunks, writable).len(),
        outcome: if writable < chunks.len() {
            Outcome::Disconnected
        } else {
            match ending {
                Ending::EndOfData => Outcome::Completed,
                Ending::Failed => Outcome::Truncated(ErrorKind::StreamTerminatedEarly),
            }
        },
        state: State::Closed,
    }
}

/// A measure that falls with every action of a forwarding run.
spec fn remaining_work(action: ActionView, chunks_left: int) -> int {
    match action {
        ActionView::Pull => 2 * chunks_left + 4,
        ActionView::Write(_) => 2 * chunks_left + 3,
        ActionView::Abort => 2,
        ActionView::Close => 1,
        ActionView::Stop => 1,
    }
}

/// What holds between two actions of a forwarding run.
spec fn on_course(
    chunks: Seq<Seq<u8>>,
    ending: Ending,
    writable: nat,
    state: State,
    action: ActionView,
    written: nat,
    cut: Option<ErrorKind>,
) -> bool {
    match action {
        ActionView::Pull => state == State::Waiting && cut is None,
        ActionView::Write(bytes) => state == State::Writing && cut is None && written
            < chunks.len() && bytes == chunks[written as int],
        ActionView::Close => state == State::Closed && cut is None && written == chunks.len()
            && ending == Ending::EndOfData,
        ActionView::Abort => state == State::Draining(ErrorKind::StreamTerminatedEarly)
            && cut is None && written == chunks.len() && ending == Ending::Failed,
        ActionView::Stop => state == State::Closed && match cut {
            Some(e) => e == ErrorKind::StreamTerminatedEarly && written == chunks.len() && ending
                == Ending::Failed,
            None => written == writable && written < chunks.len(),
        },
    }
}

/// Runs the bridge from its start to its end on an export stream that yields
/// `chunks` and then ends with `ending`, into a sink that accepts `writable`
/// writes and refuses the next. Each action of the bridge is performed as
/// it is named, and its result reported.
pub fn forward(chunks: &Vec<Vec<u8>>, ending: Ending, writable: usize) -> (d: Delivery)
    ensures
        d@ == delivery(contents(chunks@), ending, writable as nat),
{
    let ghost stream = contents(chunks@);
    let (mut state, mut action) = start();
    let mut body: Vec<u8> = Vec::new();
    let mut written: usize = 0;
    let mut cut: Option<ErrorKind> = None;
    loop
        invariant
            stream == contents(chunks@),
            written <= chunks.len(),
            written <= writable,
            body@ == stream.take(written as int).flatten(),
            on_course(stream, ending, writable as nat, state, action@, written as nat, cut),
        decreases remaining_work(action@, chunks.len() - written),
    {
        let event = match action {
            Action::Pull => {
                if written < chunks.len() {
                    Event::Chunk(chunks[written].clone())
                } else {
                    match ending {
                        Ending::EndOfData => Event::EndOfData,
                        Ending::Failed => Event::StreamFailed,
                    }
                }
            },
            Action::Write(mut bytes) => {
                if written < writable {
                    proof {
                        assert(stream.take(written as int).push(bytes@) =~= stream.take(
                            written as int + 1,
                        ));
                        stream.take(written as int).lemma_flatten_push(bytes@);
                    }
                    body.append(&mut bytes);
                    written = written + 1;
                    Event::WriteDone
                } else {
                    Event::WriteFailed
                }
            },
            Action::Abort => {
                if let State::Draining(error) = state {
                    cut = Some(error);
                }
                Event::SinkClosed
            },
            Action::Close => {
                proof {
                    assert(stream.take(written as int) =~= stream);
                }
                return Delivery { body, written, outcome: Outcome::Completed, state };
            },
            Action::Stop => {
                proof {
                    if cut is Some {
                        assert(stream.take(written as int) =~= stream);
                    }
                }
                let outcome = match cut {
                    Some(error) => Outcome::Truncated(error),
                    None => Outcome::Disconnected,
                };
                return Delivery { body, written, outcome, state };
            },
        };
        let after = step(state, event);
        state = after.0;
        action = after.1;
    }
}

/// A stream that ends well, into a sink that takes every chunk, arrives
/// whole: the body is the chunks one after the other, in the order in which
/// the stream yielded them.
pub proof fn complete_stream_arrives_whole(chunks: Seq<Seq<u8>>, writable: nat)
    requires
        writable >= chunks.len(),
    ensures
        delivery(chunks, Ending::EndOfData, writable).body == chunks.flatten(),
        delivery(chunks, Ending::EndOfData, writable).outcome == Outcome::Completed,
{
}

/// A stream that fails after some chunks leaves exactly those chunks in the
/// body, in order, and nothing after them.
pub proof fn failed_stream_is_cut_short(chunks: Seq<Seq<u8>>, writable: nat)
    requires
        writable >= chunks.len(),
    ensures
        delivery(chunks, Ending::Failed, writable).body == chunks.flatten(),
        delivery(chunks, Ending::Failed, writable).outcome == Outcome::Truncated(
            ErrorKind::StreamTerminatedEarly,
        ),
{
}

} // verus!
