//! What passes between the engine and the code that drives the decoder.
//!
//! The engine never touches the decoder. It returns an [`Action`]; where that
//! is a [`Request`], the caller performs it and hands the outcome back as an
//! [`Event`]. The consumer's own wishes, to get the next record or to stop,
//! are events too.

use vstd::prelude::*;
use crate::error::SevenZipError;
use crate::file::{ArchiveFile, FileView};

verus! {

/// Size of the look-ahead buffer through which the decoder reads its input:
/// 256 KiB.
pub const INPUT_BUF_SIZE: usize = 262144;

/// The block index that stands for "no block decoded yet".
pub const NO_BLOCK: u32 = 0xFFFF_FFFF;

/// A native operation that the engine wants performed.
#[derive(Clone, Copy, Debug, PartialEq, Eq)]
pub enum Request {
    /// Duplicate the input handle and bind a read stream to the copy.
    BindInput { handle: i32 },
    /// Allocate the look-ahead buffer through which the decoder reads the
    /// bound stream.
    AllocateInputBuffer { size: usize },
    /// Create the decoder context over the bound stream and build the entry
    /// index.
    OpenIndex,
    /// Look up the directory flag of an entry.
    IsDirectory { position: u32 },
    /// Ask how many wide characters the name of an entry takes, terminator
    /// included.
    NameLength { position: u32 },
    /// Replace the name buffer by one of the given length.
    GrowNameBuffer { length: usize },
    /// Write the name of an entry into the name buffer.
    DecodeName { position: u32 },
    /// Extract an entry, handing the decoder the cache state of the last
    /// extraction so that it can reuse an already decoded block.
    ExtractBlock { position: u32, block_index: u32, out_buffer_size: usize },
    /// Free the entry index.
    FreeIndex,
    /// Free the scratch buffers.
    FreeBuffer,
    /// Close the input stream.
    CloseInput,
}

impl Request {
    /// Whether `event` is an answer to this request.
    pub open spec fn answered_by(self, event: Event) -> bool {
        match self {
            Request::BindInput { .. } => event is InputBound || event is InputRejected,
            Request::AllocateInputBuffer { .. } => event is Allocated || event is OutOfMemory,
            Request::OpenIndex => event is IndexOpened || event is IndexFailed,
            Request::IsDirectory { .. } => event is Directory,
            Request::NameLength { .. } => event is NameLength,
            Request::GrowNameBuffer { .. } => event is Allocated || event is OutOfMemory,
            Request::DecodeName { .. } => event is NameDecoded,
            Request::ExtractBlock { .. } => event is Extracted || event is ExtractFailed,
            Request::FreeIndex => event is Released,
            Request::FreeBuffer => event is Released,
            Request::CloseInput => event is InputClosed || event is CloseFailed,
        }
    }
}

/// Something that happened outside the engine.
#[derive(Clone, Copy, Debug)]
pub enum Event<'a> {
    /// The consumer wants the next record.
    Pull,
    /// The consumer has gone away.
    Cancel,
    /// The input handle was bound.
    InputBound,
    /// The input handle could not be bound.
    InputRejected,
    /// The entry index was built.
    IndexOpened { entry_count: u32 },
    /// The entry index could not be built.
    IndexFailed { native_code: i32 },
    /// The directory flag of the entry asked for.
    Directory { is_dir: bool },
    /// The length of the name asked for.
    NameLength { length: usize },
    /// The buffer asked for was allocated.
    Allocated,
    /// There was no memory for the buffer asked for.
    OutOfMemory,
    /// The units that the decoder wrote for the name, terminator included.
    NameDecoded { units: &'a [u16] },
    /// The entry was extracted: the block that the decoder's buffer now
    /// holds, the buffer itself, which is valid until the next extraction,
    /// and where in it the entry's bytes lie.
    Extracted { block_index: u32, out_buffer: &'a [u8], offset: usize, length: usize },
    /// The entry could not be extracted.
    ExtractFailed { native_code: i32 },
    /// The index or the buffers were freed.
    Released,
    /// The input stream was closed.
    InputClosed,
    /// The input stream could not be closed.
    CloseFailed { code: i32 },
}

/// What the engine hands back after an event.
#[derive(Clone, Debug, PartialEq, Eq)]
pub enum Action {
    /// Perform the request and come back with its outcome.
    Ask(Request),
    /// Hand the record to the consumer.
    Yield(ArchiveFile),
    /// Tell the consumer that the stream failed.
    Fail(SevenZipError),
    /// Tell the consumer that the stream is over.
    Finish,
    /// The event was not one that the engine could take; nothing changed.
    Ignored,
}

/// An [`Action`] as mathematical values.
pub enum ActionView {
    Ask(Request),
    Yield(FileView),
    Fail(SevenZipError),
    Finish,
    Ignored,
}

impl View for Action {
    type V = ActionView;

    open spec fn view(&self) -> ActionView {
        match *self {
            Action::Ask(request) => ActionView::Ask(request),
            Action::Yield(file) => ActionView::Yield(file@),
            Action::Fail(error) => ActionView::Fail(error),
            Action::Finish => ActionView::Finish,
            Action::Ignored => ActionView::Ignored,
        }
    }
}

} // verus!
