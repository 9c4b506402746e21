//! The stream of records of one archive, from the input handle to teardown.
//!
//! Nothing is done until the first pull. The first pull binds the input and
//! builds the entry index; after that each pull resolves one entry. When the
//! entries are exhausted, an entry fails or the consumer goes away, the
//! session is torn down in a fixed order (index, scratch buffers, input
//! stream) before the consumer hears of the end.

use vstd::prelude::*;
use crate::archive::OpenedArchive;
use crate::error::SevenZipError;
use crate::iterator::{ArchiveIterator, IteratorState};
use crate::protocol::{Action, ActionView, Event, Request, INPUT_BUF_SIZE};
use crate::status::{sz_error_mem, SZ_ERROR_MEM};

verus! {

/// Where a stream is in its life.
#[derive(Clone, Copy, Debug, PartialEq, Eq)]
pub enum Phase {
    /// Nothing was done yet.
    Idle,
    /// The bind of the input was asked for.
    Binding,
    /// The look-ahead buffer was asked for.
    Allocating,
    /// The entry index was asked for.
    Opening,
    /// The archive is open and its entries are being handed out.
    Streaming,
    /// Teardown: the release of the index was asked for.
    FreeingIndex,
    /// Teardown: the release of the scratch buffers was asked for.
    FreeingBuffer,
    /// Teardown: the close of the input stream was asked for.
    ClosingInput,
    /// All is over.
    Closed,
}

/// How a stream came to its end.
#[derive(Clone, Copy, Debug, PartialEq, Eq)]
pub enum Outcome {
    /// It has not ended.
    Running,
    /// Every entry was handed out.
    Completed,
    /// Opening the archive or resolving an entry failed.
    Failed(SevenZipError),
    /// The consumer went away.
    Cancelled,
}

/// The state of an [`ArchiveStream`].
pub struct StreamState {
    /// The input handle that the stream was made for.
    pub handle: i32,
    /// Where the stream is in its life.
    pub phase: Phase,
    /// The iterator over the entries; meaningful once the archive is open.
    pub iterator: IteratorState,
    /// How the stream ended.
    pub outcome: Outcome,
    /// The failure to close the input stream, if there was one.
    pub close_error: Option<SevenZipError>,
}

impl StreamState {
    /// The stream over the archive behind `handle`, before the first pull.
    pub open spec fn idle(handle: i32) -> StreamState {
        StreamState {
            handle,
            phase: Phase::Idle,
            iterator: IteratorState::start(OpenedArchive::fresh(0)),
            outcome: Outcome::Running,
            close_error: None,
        }
    }

    /// Whether teardown has begun or is over.
    pub open spec fn winding_down(self) -> bool {
        self.phase == Phase::FreeingIndex || self.phase == Phase::FreeingBuffer || self.phase
            == Phase::ClosingInput || self.phase == Phase::Closed
    }

    /// The request that the stream waits on, if there is one.
    pub open spec fn outstanding(self) -> Option<Request> {
        match self.phase {
            Phase::Idle => None,
            Phase::Binding => Some(Request::BindInput { handle: self.handle }),
            Phase::Allocating => Some(Request::AllocateInputBuffer { size: INPUT_BUF_SIZE }),
            Phase::Opening => Some(Request::OpenIndex),
            Phase::Streaming => self.iterator.outstanding(),
            Phase::FreeingIndex => Some(Request::FreeIndex),
            Phase::FreeingBuffer => Some(Request::FreeBuffer),
            Phase::ClosingInput => Some(Request::CloseInput),
            Phase::Closed => None,
        }
    }

    /// Begins teardown, remembering why: the index is released first.
    pub open spec fn teardown(self, outcome: Outcome) -> (StreamState, ActionView) {
        (
            StreamState { phase: Phase::FreeingIndex, outcome, ..self },
            ActionView::Ask(Request::FreeIndex),
        )
    }

    /// Ends teardown. The consumer hears of the failure that began it, or
    /// else of the end of the stream; a failure to close the input stream is
    /// kept apart and replaces neither.
    pub open spec fn closed(self, close_error: Option<SevenZipError>) -> (StreamState, ActionView) {
        (
            StreamState { phase: Phase::Closed, close_error, ..self },
            match self.outcome {
                Outcome::Failed(error) => ActionView::Fail(error),
                _ => ActionView::Finish,
            },
        )
    }

    /// Hands an event to the iterator. Records and requests pass through;
    /// a failure or the end of the entries begins teardown.
    pub open spec fn forward(self, event: Event) -> (StreamState, ActionView) {
        let (iterator, action) = self.iterator.next(event);
        let stream = StreamState { iterator, ..self };
        match action {
            ActionView::Fail(error) => stream.teardown(Outcome::Failed(error)),
            ActionView::Finish => stream.teardown(Outcome::Completed),
            _ => (stream, action),
        }
    }

    /// The index was built: start the iterator and serve the pull that
    /// caused the archive to be opened.
    pub open spec fn opened(self, entry_count: u32) -> (StreamState, ActionView) {
        StreamState {
            phase: Phase::Streaming,
            iterator: IteratorState::start(OpenedArchive::fresh(entry_count)),
            ..self
        }.forward(Event::Pull)
    }

    /// What the stream does with an event: the transition of its state and
    /// the action that it hands back.
    pub open spec fn step(self, event: Event) -> (StreamState, ActionView) {
        match (self.phase, event) {
            (Phase::Idle, Event::Pull) => (
                StreamState { phase: Phase::Binding, ..self },
                ActionView::Ask(Request::BindInput { handle: self.handle }),
            ),
            (Phase::Idle, Event::Cancel) => (
                StreamState { phase: Phase::Closed, outcome: Outcome::Cancelled, ..self },
                ActionView::Finish,
            ),
            (Phase::Binding, Event::InputBound) => (
                StreamState { phase: Phase::Allocating, ..self },
                ActionView::Ask(Request::AllocateInputBuffer { size: INPUT_BUF_SIZE }),
            ),
            (Phase::Binding, Event::InputRejected) => (
                StreamState {
                    phase: Phase::Closed,
                    outcome: Outcome::Failed(SevenZipError::Open { status: None }),
                    ..self
                },
                ActionView::Fail(SevenZipError::Open { status: None }),
            ),
            (Phase::Allocating, Event::Allocated) => (
                StreamState { phase: Phase::Opening, ..self },
                ActionView::Ask(Request::OpenIndex),
            ),
            (Phase::Allocating, Event::OutOfMemory) => self.teardown(
                Outcome::Failed(SevenZipError::Open { status: Some(SZ_ERROR_MEM) }),
            ),
            (Phase::Allocating, Event::Cancel) => self.teardown(Outcome::Cancelled),
            (Phase::Opening, Event::IndexOpened { entry_count }) => self.opened(entry_count),
            (Phase::Opening, Event::IndexFailed { native_code }) => self.teardown(
                Outcome::Failed(SevenZipError::Open { status: Some(native_code) }),
            ),
            (Phase::Opening, Event::Cancel) => self.teardown(Outcome::Cancelled),
            (Phase::Streaming, Event::Cancel) => self.teardown(Outcome::Cancelled),
            (Phase::Streaming, _) => self.forward(event),
            (Phase::FreeingIndex, Event::Released) => (
                StreamState { phase: Phase::FreeingBuffer, ..self },
                ActionView::Ask(Request::FreeBuffer),
            ),
            (Phase::FreeingBuffer, Event::Released) => (
                StreamState { phase: Phase::ClosingInput, ..self },
                ActionView::Ask(Request::CloseInput),
            ),
            (Phase::ClosingInput, Event::InputClosed) => self.closed(None),
            (Phase::ClosingInput, Event::CloseFailed { code }) => self.closed(
                Some(SevenZipError::Close { code }),
            ),
            (Phase::Closed, _) => (self, ActionView::Finish),
            _ => (self, ActionView::Ignored),
        }
    }
}

/// A 7z archive behind an input handle: the starting point for streaming its
/// entries.
#[derive(Debug, Copy, Clone)]
pub struct SevenZipArchive(i32);

impl View for SevenZipArchive {
    type V = i32;

    closed spec fn view(&self) -> i32 {
        self.0
    }
}

impl SevenZipArchive {
    /// The archive that is read through the handle `fd`.
    pub fn new(fd: i32) -> (archive: SevenZipArchive)
        ensures
            archive@ == fd,
    {
        SevenZipArchive(fd)
    }

    /// A stream over all entries of the archive. Making it does nothing to
    /// the handle: the archive is opened on the first pull.
    pub fn stream_files(&self) -> (stream: ArchiveStream)
        ensures
            stream@ == StreamState::idle(self@),
    {
        ArchiveStream {
            handle: self.0,
            phase: Phase::Idle,
            iterator: OpenedArchive::new(0).into_iter(),
            outcome: Outcome::Running,
            close_error: None,
        }
    }
}

/// The lazily started stream of the records of one archive.
#[derive(Debug)]
pub struct ArchiveStream {
    handle: i32,
    phase: Phase,
    iterator: ArchiveIterator,
    outcome: Outcome,
    close_error: Option<SevenZipError>,
}

impl View for ArchiveStream {
    type V = StreamState;

    closed spec fn view(&self) -> StreamState {
        StreamState {
            handle: self.handle,
            phase: self.phase,
            iterator: self.iterator@,
            outcome: self.outcome,
            close_error: self.close_error,
        }
    }
}

impl ArchiveStream {
    /// Where the stream is in its life.
    pub fn phase(&self) -> (phase: Phase)
        ensures
            phase == self@.phase,
    {
        self.phase
    }

    /// How the stream ended, if it has.
    pub fn outcome(&self) -> (outcome: Outcome)
        ensures
            outcome == self@.outcome,
    {
        self.outcome
    }

    /// The failure to close the input stream, if teardown met one.
    pub fn close_error(&self) -> (error: Option<SevenZipError>)
        ensures
            error == self@.close_error,
    {
        self.close_error
    }

    fn teardown(&mut self, outcome: Outcome) -> (action: Action)
        ensures
            (final(self)@, action@) == old(self)@.teardown(outcome),
    {
        self.phase = Phase::FreeingIndex;
        self.outcome = outcome;
        Action::Ask(Request::FreeIndex)
    }

    fn closed(&mut self, close_error: Option<SevenZipError>) -> (action: Action)
        ensures
            (final(self)@, action@) == old(self)@.closed(close_error),
    {
        self.phase = Phase::Closed;
        self.close_error = close_error;
        match self.outcome {
            Outcome::Failed(error) => Action::Fail(error),
            _ => Action::Finish,
        }
    }

    fn forward(&mut self, event: Event<'_>) -> (action: Action)
        ensures
            (final(self)@, action@) == old(self)@.forward(event),
    {
        match self.iterator.next(event) {
            Action::Fail(error) => self.teardown(Outcome::Failed(error)),
            Action::Finish => self.teardown(Outcome::Completed),
            action => action,
        }
    }

    /// Takes one event and says what to do next.
    pub fn step(&mut self, event: Event<'_>) -> (action: Action)
        ensures
            (final(self)@, action@) == old(self)@.step(event),
    {
        match (self.phase, event) {
            (Phase::Idle, Event::Pull) => {
                self.phase = Phase::Binding;
                Action::Ask(Request::BindInput { handle: self.handle })
            },
            (Phase::Idle, Event::Cancel) => {
                self.phase = Phase::Closed;
                self.outcome = Outcome::Cancelled;
                Action::Finish
            },
            (Phase::Binding, Event::InputBound) => {
                self.phase = Phase::Allocating;
                Action::Ask(Request::AllocateInputBuffer { size: INPUT_BUF_SIZE })
            },
            (Phase::Binding, Event::InputRejected) => {
                let error = SevenZipError::Open { status: None };
                self.phase = Phase::Closed;
                self.outcome = Outcome::Failed(error);
                Action::Fail(error)
            },
            (Phase::Allocating, Event::Allocated) => {
                self.phase = Phase::Opening;
                Action::Ask(Request::OpenIndex)
            },
            (Phase::Allocating, Event::OutOfMemory) => {
                let status = Some(sz_error_mem());
                self.teardown(Outcome::Failed(SevenZipError::Open { status }))
            },
            (Phase::Allocating, Event::Cancel) => self.teardown(Outcome::Cancelled),
            (Phase::Opening, Event::IndexOpened { entry_count }) => {
                self.phase = Phase::Streaming;
                self.iterator = OpenedArchive::new(entry_count).into_iter();
                self.forward(Event::Pull)
            },
            (Phase::Opening, Event::IndexFailed { native_code }) => {
                self.teardown(Outcome::Failed(SevenZipError::Open { status: Some(native_code) }))
            },
            (Phase::Opening, Event::Cancel) => self.teardown(Outcome::Cancelled),
            (Phase::Streaming, Event::Cancel) => self.teardown(Outcome::Cancelled),
            (Phase::Streaming, _) => self.forward(event),
            (Phase::FreeingIndex, Event::Released) => {
                self.phase = Phase::FreeingBuffer;
                Action::Ask(Request::FreeBuffer)
            },
            (Phase::FreeingBuffer, Event::Released) => {
                self.phase = Phase::ClosingInput;
                Action::Ask(Request::CloseInput)
            },
            (Phase::ClosingInput, Event::InputClosed) => self.closed(None),
            (Phase::ClosingInput, Event::CloseFailed { code }) => {
                self.closed(Some(SevenZipError::Close { code }))
            },
            (Phase::Closed, _) => Action::Finish,
            _ => Action::Ignored,
        }
    }
}

} // verus!
