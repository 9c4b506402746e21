//! Runs: what a stream does with a whole sequence of events.

use vstd::prelude::*;
use crate::file::FileView;
use crate::protocol::{ActionView, Event, Request};
use crate::stream::StreamState;

verus! {

/// The state of a stream that started in `start` and was handed `events`.
pub open spec fn state_after(start: StreamState, events: Seq<Event>) -> StreamState
    decreases events.len(),
{
    if events.len() == 0 {
        start
    } else {
        state_after(start, events.drop_last()).step(events.last()).0
    }
}

/// The actions that a stream handed back, one for each of `events`.
pub open spec fn actions(start: StreamState, events: Seq<Event>) -> Seq<ActionView>
    decreases events.len(),
{
    if events.len() == 0 {
        Seq::empty()
    } else {
        actions(start, events.drop_last()).push(
            state_after(start, events.drop_last()).step(events.last()).1,
        )
    }
}

/// The records among the actions, in the order in which they were yielded.
pub open spec fn records(actions: Seq<ActionView>) -> Seq<FileView>
    decreases actions.len(),
{
    if actions.len() == 0 {
        Seq::empty()
    } else {
        match actions.last() {
            ActionView::Yield(file) => records(actions.drop_last()).push(file),
            _ => records(actions.drop_last()),
        }
    }
}

/// How often `request` was asked for among the actions.
pub open spec fn asked(actions: Seq<ActionView>, request: Request) -> nat
    decreases actions.len(),
{
    if actions.len() == 0 {
        0
    } else if actions.last() == ActionView::Ask(request) {
        asked(actions.drop_last(), request) + 1
    } else {
        asked(actions.drop_last(), request)
    }
}

/// How often the stream told the consumer that it failed.
pub open spec fn failures(actions: Seq<ActionView>) -> nat
    decreases actions.len(),
{
    if actions.len() == 0 {
        0
    } else if actions.last() is Fail {
        failures(actions.drop_last()) + 1
    } else {
        failures(actions.drop_last())
    }
}

/// How often the consumer went away.
pub open spec fn cancels(events: Seq<Event>) -> nat
    decreases events.len(),
{
    if events.len() == 0 {
        0
    } else if events.last() is Cancel {
        cancels(events.drop_last()) + 1
    } else {
        cancels(events.drop_last())
    }
}

/// How often the consumer pulled.
pub open spec fn pulls(events: Seq<Event>) -> nat
    decreases events.len(),
{
    if events.len() == 0 {
        0
    } else if events.last() is Pull {
        pulls(events.drop_last()) + 1
    } else {
        pulls(events.drop_last())
    }
}

pub(crate) proof fn lemma_run_push(start: StreamState, events: Seq<Event>, event: Event)
    ensures
        state_after(start, events.push(event)) == state_after(start, events).step(event).0,
        actions(start, events.push(event)) == actions(start, events).push(
            state_after(start, events).step(event).1,
        ),
{
    assert(events.push(event).drop_last() =~= events);
}

pub(crate) proof fn lemma_records_push(actions: Seq<ActionView>, action: ActionView)
    ensures
        records(actions.push(action)) == match action {
            ActionView::Yield(file) => records(actions).push(file),
            _ => records(actions),
        },
{
    assert(actions.push(action).drop_last() =~= actions);
}

pub(crate) proof fn lemma_asked_push(
    actions: Seq<ActionView>,
    action: ActionView,
    request: Request,
)
    ensures
        asked(actions.push(action), request) == asked(actions, request) + if action
            == ActionView::Ask(request) {
            1nat
        } else {
            0nat
        },
{
    assert(actions.push(action).drop_last() =~= actions);
}

} // verus!
