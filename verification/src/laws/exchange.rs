//! The exchange of requests and answers, and the buffers that go with it.

use vstd::prelude::*;
use crate::archive::SolidBlockCache;
use crate::iterator::{IteratorState, Stage};
use crate::protocol::{ActionView, Event, Request};
use crate::stream::{Phase, StreamState};

verus! {

/// What the stream asks for is what it then waits on, every answer to the
/// request that it waits on is taken, and an event that it ignores changes
/// nothing.
pub proof fn lemma_requests_and_answers(state: StreamState, event: Event)
    ensures
        ({
            let (next, action) = state.step(event);
            &&& action matches ActionView::Ask(request) ==> next.outstanding() == Some(request)
            &&& state.outstanding() matches Some(request) ==> (request.answered_by(event)
                ==> action != ActionView::Ignored)
            &&& action == ActionView::Ignored ==> next == state
        }),
{
}

/// A pull is taken whenever the stream waits on nothing and is not closed,
/// and it is the only event that makes an idle stream ask for anything.
pub proof fn lemma_pull_is_taken(state: StreamState)
    requires
        state.outstanding() is None,
        state.phase != Phase::Closed,
    ensures
        state.step(Event::Pull).1 != ActionView::Ignored,
{
}

/// An upper bound on the answers that the stream still needs before the
/// consumer hears from it: the longest way leads from the bind through the
/// index and one entry into teardown.
pub open spec fn answers_left(state: StreamState) -> nat {
    match state.phase {
        Phase::Idle => 0,
        Phase::Binding => 11,
        Phase::Allocating => 10,
        Phase::Opening => 9,
        Phase::Streaming => match state.iterator.stage {
            Stage::Ready => 0,
            Stage::Directory => 8,
            Stage::NameLength => 7,
            Stage::Growing => 6,
            Stage::Decoding => 5,
            Stage::Extracting => 4,
        },
        Phase::FreeingIndex => 3,
        Phase::FreeingBuffer => 2,
        Phase::ClosingInput => 1,
        Phase::Closed => 0,
    }
}

/// Every pull is served. Each answer to the request that the stream waits
/// on either gives the consumer a record, a failure or the end, or leads to
/// a next request with fewer answers left to go: with a decoder that answers,
/// the consumer hears from the stream after at most eleven native operations.
pub proof fn lemma_every_pull_is_served(state: StreamState, event: Event)
    requires
        state.iterator.wf(),
        state.outstanding() matches Some(request) && request.answered_by(event),
    ensures
        ({
            let (next, action) = state.step(event);
            ||| action is Yield
            ||| action is Fail
            ||| action == ActionView::Finish
            ||| action is Ask && answers_left(next) < answers_left(state)
        }),
{
}

/// The iterator keeps itself well formed, whatever it is handed.
pub proof fn lemma_iterator_stays_well_formed(state: IteratorState, event: Event)
    requires
        state.wf(),
    ensures
        state.next(event).0.wf(),
{
}

/// The name buffer never shrinks, and the decoder is asked to write a name
/// only into a buffer that holds it.
pub proof fn lemma_name_fits_its_buffer(state: IteratorState, event: Event)
    requires
        state.wf(),
    ensures
        ({
            let (next, action) = state.next(event);
            &&& next.archive.name_buffer.capacity >= state.archive.name_buffer.capacity
            &&& action is Ask && action->Ask_0 is DecodeName ==> next.name_length
                <= next.archive.name_buffer.capacity
        }),
{
}

/// The cache state goes round unchanged: every extraction is asked for with
/// the state that the decoder reported after the last one, or with the empty
/// cache before the first, and nothing else touches it.
pub proof fn lemma_cache_is_threaded(state: IteratorState, event: Event)
    ensures
        ({
            let (next, action) = state.next(event);
            &&& action matches ActionView::Ask(
                Request::ExtractBlock { position, block_index, out_buffer_size },
            ) ==> position == state.current_pos && block_index == state.archive.cache.block_index
                && out_buffer_size == state.archive.cache.out_buffer_size
            &&& next.archive.cache == if state.stage == Stage::Extracting {
                match event {
                    Event::Extracted { block_index, out_buffer, offset, length } => if offset
                        + length <= out_buffer@.len() {
                        SolidBlockCache {
                            block_index,
                            out_buffer_size: out_buffer@.len() as usize,
                        }
                    } else {
                        state.archive.cache
                    },
                    _ => state.archive.cache,
                }
            } else {
                state.archive.cache
            }
        }),
{
}

} // verus!
