//! Runs of the stream bridge, and what holds of every one of them.
//!
//! A run is the bridge started afresh and fed a sequence of events. The laws
//! below hold of every sequence, whether or not the driver that reports the
//! events keeps to the order that the bridge asks for.

use crate::bridge::{awaited, next, ActionView, EventView, State};
use crate::error::ErrorKind;
use vstd::prelude::*;

verus! {

/// The state that the bridge reaches from its start on `events`, and every
/// action it has asked for on the way, the first `Pull` included.
pub open spec fn run(events: Seq<EventView>) -> (State, Seq<ActionView>)
    decreases events.len(),
{
    if events.len() == 0 {
        (State::Waiting, seq![ActionView::Pull])
    } else {
        let before = run(events.drop_last());
        let step = next(before.0, events.last());
        (step.0, before.1.push(step.1))
    }
}

/// The chunks that the export stream yielded, in the order of their arrival.
pub open spec fn offered(events: Seq<EventView>) -> Seq<Seq<u8>>
    decreases events.len(),
{
    if events.len() == 0 {
        Seq::empty()
    } else {
        match events.last() {
            EventView::Chunk(bytes) => offered(events.drop_last()).push(bytes),
            _ => offered(events.drop_last()),
        }
    }
}

/// How many writes the sink has finished.
pub open spec fn writes_done(events: Seq<EventView>) -> nat
    decreases events.len(),
{
    if events.len() == 0 {
        0
    } else if events.last() is WriteDone {
        writes_done(events.drop_last()) + 1
    } else {
        writes_done(events.drop_last())
    }
}

/// The chunks that the bridge handed to the sink, in the order of the
/// `Write` actions.
pub open spec fn sent(actions: Seq<ActionView>) -> Seq<Seq<u8>>
    decreases actions.len(),
{
    if actions.len() == 0 {
        Seq::empty()
    } else {
        match actions.last() {
            ActionView::Write(bytes) => sent(actions.drop_last()).push(bytes),
            _ => sent(actions.drop_last()),
        }
    }
}

/// How many items the bridge has asked the export stream for.
pub open spec fn pulls(actions: Seq<ActionView>) -> nat
    decreases actions.len(),
{
    if actions.len() == 0 {
        0
    } else if actions.last() is Pull {
        pulls(actions.drop_last()) + 1
    } else {
        pulls(actions.drop_last())
    }
}

/// What holds after every run: the bookkeeping from which the laws follow.
spec fn settled(events: Seq<EventView>) -> bool {
    let (state, actions) = run(events);
    let sent = sent(actions);
    let pulls = pulls(actions);
    &&& sent.is_prefix_of(offered(events))
    &&& sent.len() <= pulls <= sent.len() + 1
    &&& pulls <= writes_done(events) + 1
    &&& state is Waiting ==> sent == offered(events) && pulls == sent.len() + 1
    &&& state is Writing ==> sent == offered(events) && pulls == sent.len()
    &&& state is Draining ==> state == State::Draining(ErrorKind::StreamTerminatedEarly)
}

proof fn lemma_settled(events: Seq<EventView>)
    ensures
        settled(events),
    decreases events.len(),
{
    if events.len() == 0 {
        let actions = seq![ActionView::Pull];
        assert(sent(actions.drop_last()) =~= Seq::<Seq<u8>>::empty());
        assert(pulls(actions.drop_last()) == 0);
    } else {
        let earlier = events.drop_last();
        lemma_settled(earlier);
        let before = run(earlier);
        let step = next(before.0, events.last());
        assert(before.1.push(step.1).drop_last() =~= before.1);
    }
}

/// Chunks reach the sink in the order in which the export stream yielded
/// them: whatever the events, the chunks handed to the sink are the first
/// chunks that the stream yielded, none left out, none repeated, none made
/// up. While the bridge is waiting or writing they are all of them.
pub proof fn chunks_keep_their_order(events: Seq<EventView>)
    ensures
        sent(run(events).1).is_prefix_of(offered(events)),
        run(events).0 is Waiting || run(events).0 is Writing ==> sent(run(events).1) == offered(
            events,
        ),
{
    lemma_settled(events);
}

/// The bridge holds at most one chunk: it asks the export stream for another
/// item only after the sink has finished the write before, and it hands the
/// sink no chunk that it has not asked for.
pub proof fn one_chunk_in_flight(events: Seq<EventView>)
    ensures
        pulls(run(events).1) <= writes_done(events) + 1,
        sent(run(events).1).len() <= pulls(run(events).1),
        sent(run(events).1).len() <= writes_done(events) + 1,
{
    lemma_settled(events);
}

/// An event that the bridge did not await moves no chunk and asks for none:
/// it ends the export.
pub proof fn unawaited_event_ends_the_export(state: State, event: EventView)
    requires
        !awaited(state, event),
    ensures
        next(state, event).0 is Draining || next(state, event).0 is Closed,
        next(state, event).1 is Abort || next(state, event).1 is Stop,
{
}

/// The only error that a bridge ever drains with is `StreamTerminatedEarly`.
pub proof fn draining_names_the_early_end(events: Seq<EventView>)
    ensures
        run(events).0 is Draining ==> run(events).0 == State::Draining(
            ErrorKind::StreamTerminatedEarly,
        ),
{
    lemma_settled(events);
}

/// Once the bridge is draining or closed it asks for no more chunks and
/// writes none, whatever is reported to it, and it ends up closed.
pub proof fn nothing_follows_the_end(events: Seq<EventView>, more: Seq<EventView>)
    requires
        run(events).0 is Draining || run(events).0 is Closed,
    ensures
        sent(run(events + more).1) == sent(run(events).1),
        pulls(run(events + more).1) == pulls(run(events).1),
        more.len() > 0 ==> run(events + more).0 is Closed,
    decreases more.len(),
{
    if more.len() > 0 {
        let earlier = more.drop_last();
        nothing_follows_the_end(events, earlier);
        assert((events + more).drop_last() =~= events + earlier);
        let before = run(events + earlier);
        let step = next(before.0, more.last());
        assert(before.1.push(step.1).drop_last() =~= before.1);
    }
}

} // verus!
