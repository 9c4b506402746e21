//! The session of a run: how it is opened, torn down and ended.

use vstd::prelude::*;
use crate::error::SevenZipError;
use crate::laws::records::lemma_in_order;
use crate::laws::run::{actions, asked, failures, lemma_asked_push, lemma_run_push, state_after};
use crate::protocol::{ActionView, Event, Request, INPUT_BUF_SIZE};
use crate::stream::{Outcome, Phase, StreamState};

verus! {

/// How the requests of a run that open and close the session are counted
/// against the phase that the stream has reached. The input buffer is asked
/// for exactly when the input was bound, so that request counts the bound
/// inputs.
spec fn accounted(state: StreamState, actions: Seq<ActionView>) -> bool {
    let bind = asked(actions, Request::BindInput { handle: state.handle });
    let bound = asked(actions, Request::AllocateInputBuffer { size: INPUT_BUF_SIZE });
    let index = asked(actions, Request::OpenIndex);
    let free_index = asked(actions, Request::FreeIndex);
    let free_buffer = asked(actions, Request::FreeBuffer);
    let close = asked(actions, Request::CloseInput);
    &&& close <= free_buffer <= free_index <= bound <= bind <= 1
    &&& index <= bound
    &&& match state.phase {
        Phase::Idle => bind == 0,
        Phase::Binding => bind == 1 && bound == 0,
        Phase::Allocating => bound == 1 && index == 0 && free_index == 0,
        Phase::Opening | Phase::Streaming => index == 1 && free_index == 0,
        Phase::FreeingIndex => free_index == 1 && free_buffer == 0,
        Phase::FreeingBuffer => free_buffer == 1 && close == 0,
        Phase::ClosingInput => close == 1,
        Phase::Closed => close == bound,
    }
}

proof fn lemma_accounted(handle: i32, events: Seq<Event>)
    ensures
        state_after(StreamState::idle(handle), events).handle == handle,
        accounted(
            state_after(StreamState::idle(handle), events),
            actions(StreamState::idle(handle), events),
        ),
    decreases events.len(),
{
    let start = StreamState::idle(handle);
    if events.len() > 0 {
        let before = events.drop_last();
        let event = events.last();
        lemma_accounted(handle, before);
        assert(events =~= before.push(event));
        lemma_run_push(start, before, event);
        let state = state_after(start, before);
        let done = actions(start, before);
        let action = state.step(event).1;
        lemma_asked_push(done, action, Request::BindInput { handle });
        lemma_asked_push(done, action, Request::AllocateInputBuffer { size: INPUT_BUF_SIZE });
        lemma_asked_push(done, action, Request::OpenIndex);
        lemma_asked_push(done, action, Request::FreeIndex);
        lemma_asked_push(done, action, Request::FreeBuffer);
        lemma_asked_push(done, action, Request::CloseInput);
    }
}

/// Over any run, the session is opened at most once and torn down at most
/// once, in a fixed order: the index is freed only for an input that was
/// bound, the scratch buffers only after the index, and the input stream is
/// closed only after the buffers. Once the stream is closed, every input
/// that was bound has been closed: nothing is released twice and nothing is
/// left behind, however the stream came to its end.
pub proof fn lemma_teardown_once_in_order(handle: i32, events: Seq<Event>)
    ensures
        ({
            let end = state_after(StreamState::idle(handle), events);
            let done = actions(StreamState::idle(handle), events);
            let bind = asked(done, Request::BindInput { handle });
            let bound = asked(done, Request::AllocateInputBuffer { size: INPUT_BUF_SIZE });
            let index = asked(done, Request::OpenIndex);
            let free_index = asked(done, Request::FreeIndex);
            let free_buffer = asked(done, Request::FreeBuffer);
            let close = asked(done, Request::CloseInput);
            &&& close <= free_buffer <= free_index <= bound <= bind <= 1
            &&& index <= bound
            &&& end.phase == Phase::Closed ==> close == bound
            &&& end.winding_down() ==> free_index == bound
            &&& !end.winding_down() ==> free_index == 0
        }),
{
    lemma_accounted(handle, events);
}

/// Until the consumer pulls, the stream asks for nothing and yields
/// nothing: no handle is duplicated and no decoder context is made.
pub proof fn lemma_nothing_before_first_pull(handle: i32, events: Seq<Event>)
    requires
        forall|i: int| 0 <= i < events.len() ==> !(#[trigger] events[i] is Pull),
    ensures
        ({
            let end = state_after(StreamState::idle(handle), events);
            let done = actions(StreamState::idle(handle), events);
            &&& end.phase == Phase::Idle || end.phase == Phase::Closed
            &&& done.len() == events.len()
            &&& forall|i: int|
                0 <= i < done.len() ==> (#[trigger] done[i]) == ActionView::Finish || done[i]
                    == ActionView::Ignored
        }),
    decreases events.len(),
{
    let start = StreamState::idle(handle);
    if events.len() > 0 {
        let before = events.drop_last();
        lemma_nothing_before_first_pull(handle, before);
        assert(events =~= before.push(events.last()));
        lemma_run_push(start, before, events.last());
    }
}

/// When the consumer goes away, teardown begins at once, unless the bind of
/// the input is still unanswered; a stream that was never pulled has nothing
/// to release and is closed on the spot.
pub proof fn lemma_cancel_begins_teardown(state: StreamState)
    requires
        state.phase != Phase::Binding,
    ensures
        ({
            let (next, action) = state.step(Event::Cancel);
            &&& next.winding_down()
            &&& !state.winding_down() ==> next.outcome == Outcome::Cancelled
            &&& !state.winding_down() && state.phase != Phase::Idle ==> action == ActionView::Ask(
                Request::FreeIndex,
            )
            &&& state.phase == Phase::Idle ==> next.phase == Phase::Closed && action
                == ActionView::Finish
        }),
{
}

/// Once teardown has begun, the stream yields no record and asks for
/// nothing but the remaining releases; what the consumer hears at the end is
/// the failure that began teardown, or else the end of the stream. A failure
/// to close the input stream is kept apart and changes neither.
pub proof fn lemma_teardown_is_final(state: StreamState, event: Event)
    requires
        state.winding_down(),
    ensures
        ({
            let (next, action) = state.step(event);
            &&& next.winding_down()
            &&& next.outcome == state.outcome
            &&& next.iterator == state.iterator
            &&& action == ActionView::Ask(Request::FreeBuffer) || action == ActionView::Ask(
                Request::CloseInput,
            ) || action == ActionView::Ignored || action == ActionView::Finish || (
            state.outcome matches Outcome::Failed(error) && action == ActionView::Fail(error))
            &&& state.phase == Phase::ClosingInput ==> (event matches Event::CloseFailed { code }
                ==> next.close_error == Some(SevenZipError::Close { code }))
            &&& state.phase == Phase::ClosingInput && (event is CloseFailed || event
                is InputClosed) ==> action == match state.outcome {
                Outcome::Failed(error) => ActionView::Fail(error),
                _ => ActionView::Finish,
            }
        }),
{
}

/// What the consumer hears as the failure of a stream is never a failure to
/// close the input stream, and what is kept as the failure to close never is
/// anything else.
pub proof fn lemma_close_failure_kept_apart(handle: i32, events: Seq<Event>)
    ensures
        ({
            let end = state_after(StreamState::idle(handle), events);
            let done = actions(StreamState::idle(handle), events);
            &&& forall|i: int|
                0 <= i < done.len() ==> (#[trigger] done[i] matches ActionView::Fail(error)
                    ==> !(error is Close))
            &&& end.close_error matches Some(error) ==> error is Close
        }),
    decreases events.len(),
{
    let start = StreamState::idle(handle);
    lemma_in_order(handle, events);
    if events.len() > 0 {
        let before = events.drop_last();
        lemma_close_failure_kept_apart(handle, before);
        lemma_in_order(handle, before);
        assert(events =~= before.push(events.last()));
        lemma_run_push(start, before, events.last());
    }
}

/// The consumer hears of a failure or of the end only when the stream is
/// closed, and a closed stream says nothing but that it is over.
pub proof fn lemma_end_is_final(state: StreamState, event: Event)
    ensures
        ({
            let (next, action) = state.step(event);
            &&& action is Fail || action == ActionView::Finish ==> next.phase == Phase::Closed
            &&& action is Yield ==> next.phase == Phase::Streaming
            &&& state.phase == Phase::Closed ==> next == state && action == ActionView::Finish
        }),
{
}

/// A stream fails at most once, and it fails only for good: nothing is tried
/// again, and after the failure the stream is closed.
pub proof fn lemma_at_most_one_failure(handle: i32, events: Seq<Event>)
    ensures
        ({
            let end = state_after(StreamState::idle(handle), events);
            let done = actions(StreamState::idle(handle), events);
            &&& failures(done) <= 1
            &&& failures(done) == 1 ==> end.phase == Phase::Closed && end.outcome is Failed
        }),
    decreases events.len(),
{
    let start = StreamState::idle(handle);
    if events.len() > 0 {
        let before = events.drop_last();
        lemma_at_most_one_failure(handle, before);
        lemma_in_order(handle, before);
        assert(events =~= before.push(events.last()));
        lemma_run_push(start, before, events.last());
        let action = state_after(start, before).step(events.last()).1;
        assert(actions(start, before).push(action).drop_last() =~= actions(start, before));
    }
}

} // verus!
