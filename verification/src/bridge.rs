//! The stream bridge: the state machine that moves chunks from the export
//! stream to the response body, one at a time and in order.
//!
//! The bridge does no I/O. Its driver performs the action that the bridge
//! names (ask the stream for its next item, write a chunk to the sink, close
//! the sink) and reports the event that came of it.

use crate::error::ErrorKind;
use vstd::prelude::*;

verus! {

/// Where the bridge stands.
#[derive(Clone, Copy, Debug, PartialEq, Eq, Structural)]
pub enum State {
    /// The next item of the export stream is awaited.
    Waiting,
    /// A chunk has been handed to the sink and its write is awaited.
    Writing,
    /// The export ended with this error and the sink is being closed.
    Draining(ErrorKind),
    /// The bridge is done. Nothing leads out of this state.
    Closed,
}

/// What the driver reports to the bridge.
#[derive(Debug, PartialEq, Eq)]
pub enum Event {
    /// The export stream yielded a chunk.
    Chunk(Vec<u8>),
    /// The export stream ended: there are no more chunks.
    EndOfData,
    /// The export stream failed.
    StreamFailed,
    /// The sink took the chunk.
    WriteDone,
    /// The sink refused the chunk: the client is gone.
    WriteFailed,
    /// The sink has been closed.
    SinkClosed,
}

/// What the bridge asks of its driver.
#[derive(Debug, PartialEq, Eq)]
pub enum Action {
    /// Ask the export stream for its next item.
    Pull,
    /// Write this chunk to the sink.
    Write(Vec<u8>),
    /// Close the sink cleanly: the body is complete.
    Close,
    /// Close the sink abruptly, leaving the body truncated, and report
    /// `SinkClosed`.
    Abort,
    /// Stop: there is nothing left to do.
    Stop,
}

/// An event as a mathematical value.
pub enum EventView {
    Chunk(Seq<u8>),
    EndOfData,
    StreamFailed,
    WriteDone,
    WriteFailed,
    SinkClosed,
}

/// An action as a mathematical value.
pub enum ActionView {
    Pull,
    Write(Seq<u8>),
    Close,
    Abort,
    Stop,
}

impl View for Event {
    type V = EventView;

    open spec fn view(&self) -> EventView {
        match self {
            Event::Chunk(bytes) => EventView::Chunk(bytes@),
            Event::EndOfData => EventView::EndOfData,
            Event::StreamFailed => EventView::StreamFailed,
            Event::WriteDone => EventView::WriteDone,
            Event::WriteFailed => EventView::WriteFailed,
            Event::SinkClosed => EventView::SinkClosed,
        }
    }
}

impl View for Action {
    type V = ActionView;

    open spec fn view(&self) -> ActionView {
        match self {
            Action::Pull => ActionView::Pull,
            Action::Write(bytes) => ActionView::Write(bytes@),
            Action::Close => ActionView::Close,
            Action::Abort => ActionView::Abort,
            Action::Stop => ActionView::Stop,
        }
    }
}

/// Whether `event` is one that the bridge awaits in `state`: an item of the
/// export stream while waiting, the fate of the write while writing, the
/// closing of the sink while draining, and nothing once closed.
pub open spec fn awaited(state: State, event: EventView) -> bool {
    match state {
        State::Waiting => event is Chunk || event is EndOfData || event is StreamFailed,
        State::Writing => event is WriteDone || event is WriteFailed,
        State::Draining(_) => event is SinkClosed,
        State::Closed => false,
    }
}

/// The transition of the bridge: the state that follows `state` on `event`,
/// and what the driver is to do next.
///
/// While waiting, a chunk goes to the sink, the end of the data closes the
/// sink cleanly, and a failure of the stream drains the bridge with
/// `StreamTerminatedEarly`. While writing, a finished write asks for the next
/// item, and a failed write closes the bridge at once. An event that is not
/// awaited ends the export: before the bridge is drained or closed it aborts
/// the sink, afterwards it changes nothing.
pub open spec fn next(state: State, event: EventView) -> (State, ActionView) {
    match state {
        State::Waiting => match event {
            EventView::Chunk(bytes) => (State::Writing, ActionView::Write(bytes)),
            EventView::EndOfData => (State::Closed, ActionView::Close),
            EventView::StreamFailed => (
                State::Draining(ErrorKind::StreamTerminatedEarly),
                ActionView::Abort,
            ),
            _ => (State::Draining(ErrorKind::StreamTerminatedEarly), ActionView::Abort),
        },
        State::Writing => match event {
            EventView::WriteDone => (State::Waiting, ActionView::Pull),
            EventView::WriteFailed => (State::Closed, ActionView::Stop),
            _ => (State::Draining(ErrorKind::StreamTerminatedEarly), ActionView::Abort),
        },
        State::Draining(_) => (State::Closed, ActionView::Stop),
        State::Closed => (State::Closed, ActionView::Stop),
    }
}

/// Where every bridge begins: waiting, with the first item asked for.
pub fn start() -> (r: (State, Action))
    ensures
        r.0 == State::Waiting,
        r.1@ == ActionView::Pull,
{
    (State::Waiting, Action::Pull)
}

/// Takes one step of the bridge.
pub fn step(state: State, event: Event) -> (r: (State, Action))
    ensures
        (r.0, r.1@) == next(state, event@),
{
    match state {
        State::Waiting => match event {
            Event::Chunk(bytes) => (State::Writing, Action::Write(bytes)),
            Event::EndOfData => (State::Closed, Action::Close),
            Event::StreamFailed => (State::Draining(ErrorKind::StreamTerminatedEarly), Action::Abort),
            _ => (State::Draining(ErrorKind::StreamTerminatedEarly), Action::Abort),
        },
        State::Writing => match event {
            Event::WriteDone => (State::Waiting, Action::Pull),
            Event::WriteFailed => (State::Closed, Action::Stop),
            _ => (State::Draining(ErrorKind::StreamTerminatedEarly), Action::Abort),
        },
        State::Draining(_) => (State::Closed, Action::Stop),
        State::Closed => (State::Closed, Action::Stop),
    }
}

} // verus!
