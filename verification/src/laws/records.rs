//! The records of a run: their order, their number and what they hold.

use vstd::prelude::*;
use crate::archive::OpenedArchive;
use crate::error::SevenZipError;
use crate::file::FileView;
use crate::iterator::{IteratorState, Stage};
use crate::laws::run::{
    actions, cancels, lemma_records_push, lemma_run_push, pulls, records, state_after,
};
use crate::name::resolved_name;
use crate::protocol::{ActionView, Event};
use crate::stream::{Outcome, Phase, StreamState};

verus! {

/// What ties the records of a run to the cursor of the stream.
pub(crate) open spec fn in_order(state: StreamState, out: Seq<FileView>) -> bool {
    &&& state.iterator.wf()
    &&& out.len() == state.iterator.current_pos
    &&& forall|i: int| 0 <= i < out.len() ==> (#[trigger] out[i]).pos == i && out[i].wf()
    &&& state.outcome == Outcome::Completed ==> out.len() == state.iterator.archive.files_count
    &&& state.outcome == Outcome::Completed ==> state.winding_down()
    &&& state.phase == Phase::Streaming ==> state.outcome != Outcome::Completed
    &&& state.outcome == Outcome::Running <==> !state.winding_down()
    &&& state.outcome matches Outcome::Failed(error) ==> !(error is Close)
    &&& state.close_error matches Some(error) ==> error is Close
    &&& state.phase == Phase::Idle || state.phase == Phase::Binding || state.phase
        == Phase::Allocating || state.phase == Phase::Opening ==> state.iterator
        == IteratorState::start(OpenedArchive::fresh(0))
}

pub(crate) proof fn lemma_in_order_step(state: StreamState, out: Seq<FileView>, event: Event)
    requires
        in_order(state, out),
    ensures
        in_order(
            state.step(event).0,
            match state.step(event).1 {
                ActionView::Yield(file) => out.push(file),
                _ => out,
            },
        ),
{
}

pub(crate) proof fn lemma_in_order(handle: i32, events: Seq<Event>)
    ensures
        in_order(
            state_after(StreamState::idle(handle), events),
            records(actions(StreamState::idle(handle), events)),
        ),
    decreases events.len(),
{
    let start = StreamState::idle(handle);
    if events.len() > 0 {
        let before = events.drop_last();
        lemma_in_order(handle, before);
        assert(events =~= before.push(events.last()));
        lemma_run_push(start, before, events.last());
        lemma_records_push(
            actions(start, before),
            state_after(start, before).step(events.last()).1,
        );
        lemma_in_order_step(
            state_after(start, before),
            records(actions(start, before)),
            events.last(),
        );
    }
}

/// The records of a run come in the order of the entry table, each position
/// once: the record at place `i` is that of position `i`. There are never
/// more of them than the archive has entries, and a stream that completed
/// has handed out one for every entry.
pub proof fn lemma_records_in_position_order(handle: i32, events: Seq<Event>)
    ensures
        ({
            let end = state_after(StreamState::idle(handle), events);
            let out = records(actions(StreamState::idle(handle), events));
            &&& forall|i: int| 0 <= i < out.len() ==> (#[trigger] out[i]).pos == i
            &&& out.len() == end.iterator.current_pos
            &&& out.len() <= end.iterator.archive.files_count
            &&& end.outcome == Outcome::Completed ==> out.len()
                == end.iterator.archive.files_count
        }),
{
    lemma_in_order(handle, events);
}

/// Every record of a run carries content exactly when it is not a
/// directory.
pub proof fn lemma_records_well_formed(handle: i32, events: Seq<Event>)
    ensures
        ({
            let out = records(actions(StreamState::idle(handle), events));
            forall|i: int| 0 <= i < out.len() ==> (#[trigger] out[i]).wf()
        }),
{
    lemma_in_order(handle, events);
}

proof fn lemma_cancelled_by_consumer(handle: i32, events: Seq<Event>)
    ensures
        state_after(StreamState::idle(handle), events).outcome == Outcome::Cancelled ==> cancels(
            events,
        ) > 0,
    decreases events.len(),
{
    let start = StreamState::idle(handle);
    if events.len() > 0 {
        let before = events.drop_last();
        lemma_cancelled_by_consumer(handle, before);
        assert(events =~= before.push(events.last()));
        lemma_run_push(start, before, events.last());
    }
}

/// A consumer that never goes away and sees the stream close without a
/// failure has got a record for every entry of the archive: a stream ends
/// early only by failing or by being cancelled.
pub proof fn lemma_drained_stream_is_complete(handle: i32, events: Seq<Event>)
    requires
        cancels(events) == 0,
    ensures
        ({
            let end = state_after(StreamState::idle(handle), events);
            let out = records(actions(StreamState::idle(handle), events));
            end.phase == Phase::Closed && !(end.outcome is Failed) ==> end.outcome
                == Outcome::Completed && out.len() == end.iterator.archive.files_count
        }),
{
    lemma_in_order(handle, events);
    lemma_cancelled_by_consumer(handle, events);
}

/// What an archive holds for one entry, as its decoder reports it.
pub struct EntryModel {
    /// The directory flag in the entry index.
    pub is_dir: bool,
    /// The units that the decoder writes for the name, terminator included.
    pub name_units: Seq<u16>,
    /// The bytes of the entry.
    pub content: Seq<u8>,
}

/// Whether `event`, arriving in `state`, says what `archive` holds: the
/// number of its entries when the index is opened, and the flag, the name
/// and the bytes of the entry under the cursor when they are asked for.
pub open spec fn truthful(archive: Seq<EntryModel>, state: StreamState, event: Event) -> bool {
    match (state.phase, event) {
        (Phase::Opening, Event::IndexOpened { entry_count }) => entry_count == archive.len(),
        (Phase::Streaming, _) => state.iterator.current_pos < archive.len() ==> {
            let entry = archive[state.iterator.current_pos as int];
            match (state.iterator.stage, event) {
                (Stage::Directory, Event::Directory { is_dir }) => is_dir == entry.is_dir,
                (Stage::Decoding, Event::NameDecoded { units }) => units@ == entry.name_units,
                (Stage::Extracting, Event::Extracted { out_buffer, offset, length, .. }) => offset
                    + length <= out_buffer@.len() && out_buffer@.subrange(
                    offset as int,
                    offset + length,
                ) == entry.content,
                _ => true,
            }
        },
        _ => true,
    }
}

/// Whether every event of a run says what `archive` holds.
pub open spec fn faithful(archive: Seq<EntryModel>, start: StreamState, events: Seq<Event>) -> bool
    decreases events.len(),
{
    events.len() > 0 ==> faithful(archive, start, events.drop_last()) && truthful(
        archive,
        state_after(start, events.drop_last()),
        events.last(),
    )
}

/// Whether `file` is the record of entry `position` of `archive`.
pub open spec fn record_of(archive: Seq<EntryModel>, position: int, file: FileView) -> bool {
    let entry = archive[position];
    &&& file.pos == position
    &&& file.is_dir == entry.is_dir
    &&& resolved_name(entry.name_units) == Ok::<Seq<char>, SevenZipError>(file.name)
    &&& file.content == if entry.is_dir {
        None
    } else {
        Some(entry.content)
    }
}

/// What ties the records of a faithful run to the archive.
spec fn mirrors(archive: Seq<EntryModel>, state: StreamState, out: Seq<FileView>) -> bool {
    let cursor = state.iterator;
    let entry = archive[cursor.current_pos as int];
    &&& in_order(state, out)
    &&& cursor.archive.files_count == archive.len() || (cursor.archive.files_count == 0
        && state.outcome != Outcome::Completed && state.phase != Phase::Streaming)
    &&& forall|i: int| 0 <= i < out.len() ==> record_of(archive, i, #[trigger] out[i])
    &&& state.phase == Phase::Streaming && (cursor.stage == Stage::NameLength || cursor.stage
        == Stage::Growing || cursor.stage == Stage::Decoding || cursor.stage
        == Stage::Extracting) ==> cursor.is_dir == entry.is_dir
    &&& state.phase == Phase::Streaming && cursor.stage == Stage::Extracting ==> !cursor.is_dir
        && resolved_name(entry.name_units) == Ok::<Seq<char>, SevenZipError>(cursor.name)
}

proof fn lemma_mirrors_step(
    archive: Seq<EntryModel>,
    state: StreamState,
    out: Seq<FileView>,
    event: Event,
)
    requires
        mirrors(archive, state, out),
        truthful(archive, state, event),
    ensures
        mirrors(
            archive,
            state.step(event).0,
            match state.step(event).1 {
                ActionView::Yield(file) => out.push(file),
                _ => out,
            },
        ),
{
    lemma_in_order_step(state, out, event);
}

proof fn lemma_mirrors(archive: Seq<EntryModel>, handle: i32, events: Seq<Event>)
    requires
        faithful(archive, StreamState::idle(handle), events),
    ensures
        mirrors(
            archive,
            state_after(StreamState::idle(handle), events),
            records(actions(StreamState::idle(handle), events)),
        ),
    decreases events.len(),
{
    let start = StreamState::idle(handle);
    if events.len() > 0 {
        let before = events.drop_last();
        lemma_mirrors(archive, handle, before);
        assert(events =~= before.push(events.last()));
        lemma_run_push(start, before, events.last());
        lemma_records_push(
            actions(start, before),
            state_after(start, before).step(events.last()).1,
        );
        lemma_mirrors_step(
            archive,
            state_after(start, before),
            records(actions(start, before)),
            events.last(),
        );
    } else {
        lemma_in_order(handle, events);
    }
}

/// Where every event says what the archive holds, the records of a run are
/// the entries of the archive from the first on, in order: each with its
/// position, the directory flag of the index whatever its name is, the text
/// of its name, and its bytes unless it is a directory. A stream that
/// completed has handed out a record for every entry of the archive.
pub proof fn lemma_records_mirror_archive(
    archive: Seq<EntryModel>,
    handle: i32,
    events: Seq<Event>,
)
    requires
        faithful(archive, StreamState::idle(handle), events),
    ensures
        ({
            let end = state_after(StreamState::idle(handle), events);
            let out = records(actions(StreamState::idle(handle), events));
            &&& out.len() <= archive.len()
            &&& forall|i: int| 0 <= i < out.len() ==> record_of(archive, i, #[trigger] out[i])
            &&& end.outcome == Outcome::Completed ==> out.len() == archive.len()
        }),
{
    lemma_mirrors(archive, handle, events);
}

/// Whether the stream owes the consumer the answer to a pull.
spec fn serving(state: StreamState) -> bool {
    ||| state.phase == Phase::Binding
    ||| state.phase == Phase::Allocating
    ||| state.phase == Phase::Opening
    ||| state.phase == Phase::Streaming && state.iterator.stage != Stage::Ready
}

proof fn lemma_on_demand(handle: i32, events: Seq<Event>)
    ensures
        ({
            let end = state_after(StreamState::idle(handle), events);
            let out = records(actions(StreamState::idle(handle), events));
            out.len() + if serving(end) {
                1nat
            } else {
                0nat
            } <= pulls(events)
        }),
    decreases events.len(),
{
    let start = StreamState::idle(handle);
    if events.len() > 0 {
        let before = events.drop_last();
        lemma_on_demand(handle, before);
        assert(events =~= before.push(events.last()));
        lemma_run_push(start, before, events.last());
        lemma_records_push(
            actions(start, before),
            state_after(start, before).step(events.last()).1,
        );
    }
}

/// Records are produced on demand, never ahead of it: a run has yielded at
/// most as many records as the consumer has pulled.
pub proof fn lemma_one_record_per_pull(handle: i32, events: Seq<Event>)
    ensures
        records(actions(StreamState::idle(handle), events)).len() <= pulls(events),
{
    lemma_on_demand(handle, events);
}

/// A record that was yielded stays what it was: the records of a run that
/// goes on begin with the records of the run so far, whatever is extracted
/// next.
pub proof fn lemma_records_are_stable(start: StreamState, events: Seq<Event>, event: Event)
    ensures
        records(actions(start, events)).is_prefix_of(records(actions(start, events.push(event)))),
{
    lemma_run_push(start, events, event);
    lemma_records_push(actions(start, events), state_after(start, events).step(event).1);
}

/// The cursor moves with the records and only with them: a record is that of
/// the entry under the cursor, carries content exactly when it is not a
/// directory, and moves the cursor on by one; a failure, like anything else,
/// leaves the cursor where it is.
pub proof fn lemma_cursor_moves_with_records(state: IteratorState, event: Event)
    requires
        state.wf(),
    ensures
        ({
            let (next, action) = state.next(event);
            &&& next.archive.files_count == state.archive.files_count
            &&& action matches ActionView::Yield(file) ==> file.pos == state.current_pos
                && file.wf() && next.current_pos == state.current_pos + 1
            &&& !(action is Yield) ==> next.current_pos == state.current_pos
            &&& action is Fail || action is Yield || action == ActionView::Finish
                ==> next.stage == Stage::Ready
            &&& action == ActionView::Finish <==> state.stage == Stage::Ready && event is Pull
                && state.current_pos == state.archive.files_count
        }),
{
}

/// Resolving a name is repeatable. What comes of the units that the decoder
/// wrote depends on them alone, not on the cursor's buffers or cache: two
/// iterators on the same entry that get the same units fail alike, or yield
/// the same directory record, or keep the same name for the record to come.
pub proof fn lemma_name_resolution_repeatable(
    first: IteratorState,
    second: IteratorState,
    units: Seq<u16>,
)
    requires
        first.current_pos == second.current_pos,
        first.is_dir == second.is_dir,
    ensures
        ({
            let (a, x) = first.on_name_decoded(units);
            let (b, y) = second.on_name_decoded(units);
            &&& x is Fail ==> y == x
            &&& x is Yield ==> y == x
            &&& x is Ask ==> y is Ask && a.name == b.name
            &&& resolved_name(units) matches Ok(name) ==> (x matches ActionView::Yield(file)
                ==> file.name == name) && (x is Ask ==> a.name == name)
        }),
{
}

} // verus!
