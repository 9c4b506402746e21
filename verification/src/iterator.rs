//! The cursor over the entries of an opened archive.
//!
//! Resolving one entry takes up to five native operations: the directory
//! flag, the length of the name, a larger name buffer where the name does not
//! fit, the name itself and, for a regular entry, its bytes. The iterator
//! asks for them one at a time and yields the record once it has them all.

use vstd::prelude::*;
use crate::archive::{OpenedArchive, SolidBlockCache};
use crate::error::SevenZipError;
use crate::file::{ArchiveFile, FileView};
use crate::name::{name_from_utf16, name_units, resolved_name, string_from_utf16};
use crate::protocol::{Action, ActionView, Event, Request};
use crate::status::{sz_error_fail, SZ_ERROR_FAIL};

verus! {

/// How far the iterator has got with the entry under the cursor.
#[derive(Clone, Copy, Debug, PartialEq, Eq)]
pub enum Stage {
    /// Nothing is outstanding; the next pull starts on the entry.
    Ready,
    /// The directory flag was asked for.
    Directory,
    /// The length of the name was asked for.
    NameLength,
    /// A larger name buffer was asked for.
    Growing,
    /// The name was asked for.
    Decoding,
    /// The bytes were asked for.
    Extracting,
}

/// The state of an [`ArchiveIterator`].
pub struct IteratorState {
    /// The archive's bookkeeping.
    pub archive: OpenedArchive,
    /// Position of the entry under the cursor.
    pub current_pos: u32,
    /// Progress on that entry.
    pub stage: Stage,
    /// Its directory flag, once known.
    pub is_dir: bool,
    /// The length of its name, once known.
    pub name_length: usize,
    /// Its name, while its bytes are being extracted.
    pub name: Seq<char>,
}

impl IteratorState {
    /// The iterator over a freshly opened archive, before the first entry.
    pub open spec fn start(archive: OpenedArchive) -> IteratorState {
        IteratorState {
            archive,
            current_pos: 0,
            stage: Stage::Ready,
            is_dir: false,
            name_length: 0,
            name: Seq::empty(),
        }
    }

    /// The cursor never passes the end, and it is on an entry while that
    /// entry is being resolved. The name is asked for only once it fits the
    /// name buffer, and it is held only during extraction.
    pub open spec fn wf(self) -> bool {
        &&& self.current_pos <= self.archive.files_count
        &&& self.stage != Stage::Ready ==> self.current_pos < self.archive.files_count
        &&& self.stage == Stage::Decoding ==> !self.archive.name_buffer.too_small(
            self.name_length,
        )
        &&& self.stage != Stage::Extracting ==> self.name == Seq::<char>::empty()
    }

    /// The state after the entry under the cursor was given up or handed out.
    pub open spec fn rest(self) -> IteratorState {
        IteratorState { stage: Stage::Ready, name: Seq::empty(), ..self }
    }

    /// The state after the entry under the cursor was handed out.
    pub open spec fn advanced(self) -> IteratorState {
        IteratorState { current_pos: (self.current_pos + 1) as u32, ..self.rest() }
    }

    /// The request for the bytes of the entry under the cursor.
    pub open spec fn extract_request(self) -> Request {
        Request::ExtractBlock {
            position: self.current_pos,
            block_index: self.archive.cache.block_index,
            out_buffer_size: self.archive.cache.out_buffer_size,
        }
    }

    /// The request that the iterator waits on, if there is one.
    pub open spec fn outstanding(self) -> Option<Request> {
        match self.stage {
            Stage::Ready => None,
            Stage::Directory => Some(Request::IsDirectory { position: self.current_pos }),
            Stage::NameLength => Some(Request::NameLength { position: self.current_pos }),
            Stage::Growing => Some(Request::GrowNameBuffer { length: self.name_length }),
            Stage::Decoding => Some(Request::DecodeName { position: self.current_pos }),
            Stage::Extracting => Some(self.extract_request()),
        }
    }

    /// A pull while nothing is outstanding: the end of the stream where the
    /// cursor has reached the entry count, else the first question about the
    /// entry under the cursor.
    pub open spec fn on_pull(self) -> (IteratorState, ActionView) {
        if self.current_pos == self.archive.files_count {
            (self, ActionView::Finish)
        } else {
            (
                IteratorState { stage: Stage::Directory, ..self },
                ActionView::Ask(Request::IsDirectory { position: self.current_pos }),
            )
        }
    }

    /// The directory flag arrived: keep it and ask for the name's length.
    pub open spec fn on_directory(self, is_dir: bool) -> (IteratorState, ActionView) {
        (
            IteratorState { stage: Stage::NameLength, is_dir, ..self },
            ActionView::Ask(Request::NameLength { position: self.current_pos }),
        )
    }

    /// The name's length arrived: ask for a larger buffer where the name
    /// does not fit, else for the name.
    pub open spec fn on_name_length(self, length: usize) -> (IteratorState, ActionView) {
        if self.archive.name_buffer.too_small(length) {
            (
                IteratorState { stage: Stage::Growing, name_length: length, ..self },
                ActionView::Ask(Request::GrowNameBuffer { length }),
            )
        } else {
            (
                IteratorState { stage: Stage::Decoding, name_length: length, ..self },
                ActionView::Ask(Request::DecodeName { position: self.current_pos }),
            )
        }
    }

    /// The larger buffer arrived: note its size and ask for the name.
    pub open spec fn on_buffer_grown(self) -> (IteratorState, ActionView) {
        (
            IteratorState {
                stage: Stage::Decoding,
                archive: OpenedArchive {
                    name_buffer: self.archive.name_buffer.grown(self.name_length),
                    ..self.archive
                },
                ..self
            },
            ActionView::Ask(Request::DecodeName { position: self.current_pos }),
        )
    }

    /// The name arrived. Where it is not valid text the entry is given up.
    /// A directory is handed out at once, without content; for a regular
    /// entry the name is kept and the bytes are asked for.
    pub open spec fn on_name_decoded(self, units: Seq<u16>) -> (IteratorState, ActionView) {
        match resolved_name(units) {
            Err(error) => (self.rest(), ActionView::Fail(error)),
            Ok(name) => if self.is_dir {
                (
                    self.advanced(),
                    ActionView::Yield(FileView::directory(self.current_pos as usize, name)),
                )
            } else {
                (
                    IteratorState { stage: Stage::Extracting, name, ..self },
                    ActionView::Ask(self.extract_request()),
                )
            },
        }
    }

    /// The entry could not be extracted: it is given up.
    pub open spec fn on_extract_failed(self, native_code: i32) -> (IteratorState, ActionView) {
        (
            self.rest(),
            ActionView::Fail(
                SevenZipError::Extract { position: self.current_pos as usize, native_code },
            ),
        )
    }

    /// The decoder's buffer arrived, with the place of the entry's bytes in
    /// it. The block index and the size of the buffer are kept as the cache
    /// state for the next extraction, and the record is handed out with a
    /// copy of the bytes. A place that does not lie within the buffer is a
    /// failed extraction.
    pub open spec fn on_extracted(
        self,
        block_index: u32,
        out_buffer: Seq<u8>,
        offset: usize,
        length: usize,
    ) -> (IteratorState, ActionView) {
        if offset + length <= out_buffer.len() {
            let cache = SolidBlockCache { block_index, out_buffer_size: out_buffer.len() as usize };
            (
                IteratorState {
                    archive: OpenedArchive { cache, ..self.archive },
                    ..self.advanced()
                },
                ActionView::Yield(
                    FileView::regular(
                        self.current_pos as usize,
                        self.name,
                        out_buffer.subrange(offset as int, offset + length),
                    ),
                ),
            )
        } else {
            self.on_extract_failed(SZ_ERROR_FAIL)
        }
    }

    /// What the iterator does with an event: the transition of its state
    /// and the action that it hands back. An event that does not answer the
    /// outstanding request changes nothing.
    pub open spec fn next(self, event: Event) -> (IteratorState, ActionView) {
        match (self.stage, event) {
            (Stage::Ready, Event::Pull) => self.on_pull(),
            (Stage::Directory, Event::Directory { is_dir }) => self.on_directory(is_dir),
            (Stage::NameLength, Event::NameLength { length }) => self.on_name_length(length),
            (Stage::Growing, Event::Allocated) => self.on_buffer_grown(),
            (Stage::Growing, Event::OutOfMemory) => (
                self.rest(),
                ActionView::Fail(SevenZipError::Alloc),
            ),
            (Stage::Decoding, Event::NameDecoded { units }) => self.on_name_decoded(units@),
            (Stage::Extracting, Event::Extracted { block_index, out_buffer, offset, length }) => {
                self.on_extracted(block_index, out_buffer@, offset, length)
            },
            (Stage::Extracting, Event::ExtractFailed { native_code }) => self.on_extract_failed(
                native_code,
            ),
            _ => (self, ActionView::Ignored),
        }
    }
}

/// Iterator over the entries of an opened archive, in the order of the
/// archive's entry table.
#[derive(Debug)]
pub struct ArchiveIterator {
    archive: OpenedArchive,
    current_pos: u32,
    stage: Stage,
    is_dir: bool,
    name_length: usize,
    name: String,
}

impl View for ArchiveIterator {
    type V = IteratorState;

    closed spec fn view(&self) -> IteratorState {
        IteratorState {
            archive: self.archive,
            current_pos: self.current_pos,
            stage: self.stage,
            is_dir: self.is_dir,
            name_length: self.name_length,
            name: self.name@,
        }
    }
}

impl OpenedArchive {
    /// The iterator over this archive, before its first entry.
    pub fn into_iter(self) -> (iterator: ArchiveIterator)
        ensures
            iterator@ == IteratorState::start(self),
            iterator@.wf(),
    {
        ArchiveIterator {
            archive: self,
            current_pos: 0,
            stage: Stage::Ready,
            is_dir: false,
            name_length: 0,
            name: String::new(),
        }
    }
}

impl ArchiveIterator {
    #[verifier::type_invariant]
    spec fn inv(self) -> bool {
        self@.wf()
    }

    /// Decodes the name of an entry from the units that the decoder wrote
    /// for it, terminator included. Fails with [`SevenZipError::Encoding`]
    /// exactly where the units before the terminator are not valid UTF-16.
    pub fn read_file_name(units: &[u16]) -> (name: Result<String, SevenZipError>)
        ensures
            match name {
                Ok(text) => resolved_name(units@) == Ok::<Seq<char>, SevenZipError>(text@),
                Err(e) => resolved_name(units@) == Err::<Seq<char>, SevenZipError>(e),
            },
    {
        let len = units.len();
        let before_terminator = if len == 0 {
            units
        } else {
            vstd::slice::slice_subrange(units, 0, len - 1)
        };
        assert(before_terminator@ =~= name_units(units@));
        name_from_utf16(string_from_utf16(before_terminator))
    }

    /// The bytes of an entry in the decoder's buffer: the `length` bytes from
    /// `offset` on, borrowed from the buffer, or nothing where they would
    /// not lie within it.
    pub fn read_file(out_buffer: &[u8], offset: usize, length: usize) -> (view: Option<&[u8]>)
        ensures
            match view {
                Some(bytes) => offset + length <= out_buffer@.len() && bytes@
                    == out_buffer@.subrange(offset as int, offset + length),
                None => offset + length > out_buffer@.len(),
            },
    {
        if offset <= out_buffer.len() && length <= out_buffer.len() - offset {
            Some(vstd::slice::slice_subrange(out_buffer, offset, offset + length))
        } else {
            None
        }
    }

    fn extract_failed(&mut self, native_code: i32) -> (action: Action)
        requires
            old(self)@.stage == Stage::Extracting,
        ensures
            (final(self)@, action@) == old(self)@.on_extract_failed(native_code),
    {
        proof {
            use_type_invariant(&*self);
        }
        let position = self.current_pos as usize;
        self.name = String::new();
        self.stage = Stage::Ready;
        Action::Fail(SevenZipError::Extract { position, native_code })
    }

    /// Bounds on the number of records still to come: none may come, and at
    /// most as many as the archive has entries.
    pub fn size_hint(&self) -> (hint: (usize, Option<usize>))
        ensures
            hint == (0usize, Some(self@.archive.files_count as usize)),
    {
        (0, Some(self.archive.files_count()))
    }

    /// Position of the entry under the cursor.
    pub fn position(&self) -> (pos: usize)
        ensures
            pos == self@.current_pos,
    {
        self.current_pos as usize
    }

    /// Takes one event and says what to do next.
    pub fn next(&mut self, event: Event<'_>) -> (action: Action)
        ensures
            (final(self)@, action@) == old(self)@.next(event),
            old(self)@.wf(),
            final(self)@.wf(),
    {
        proof {
            use_type_invariant(&*self);
        }
        match (self.stage, event) {
            (Stage::Ready, Event::Pull) => {
                if self.current_pos == self.archive.files_count {
                    Action::Finish
                } else {
                    self.stage = Stage::Directory;
                    Action::Ask(Request::IsDirectory { position: self.current_pos })
                }
            },
            (Stage::Directory, Event::Directory { is_dir }) => {
                self.is_dir = is_dir;
                self.stage = Stage::NameLength;
                Action::Ask(Request::NameLength { position: self.current_pos })
            },
            (Stage::NameLength, Event::NameLength { length }) => {
                self.name_length = length;
                if self.archive.name_buffer.needs_growth(length) {
                    self.stage = Stage::Growing;
                    Action::Ask(Request::GrowNameBuffer { length })
                } else {
                    self.stage = Stage::Decoding;
                    Action::Ask(Request::DecodeName { position: self.current_pos })
                }
            },
            (Stage::Growing, Event::Allocated) => {
                self.archive.name_buffer = self.archive.name_buffer.grow(self.name_length);
                self.stage = Stage::Decoding;
                Action::Ask(Request::DecodeName { position: self.current_pos })
            },
            (Stage::Growing, Event::OutOfMemory) => {
                self.stage = Stage::Ready;
                Action::Fail(SevenZipError::Alloc)
            },
            (Stage::Decoding, Event::NameDecoded { units }) => {
                match Self::read_file_name(units) {
                    Err(error) => {
                        self.stage = Stage::Ready;
                        Action::Fail(error)
                    },
                    Ok(name) => {
                        if self.is_dir {
                            let pos = self.current_pos as usize;
                            self.stage = Stage::Ready;
                            self.current_pos = self.current_pos + 1;
                            Action::Yield(ArchiveFile::directory(pos, name))
                        } else {
                            self.stage = Stage::Extracting;
                            self.name = name;
                            Action::Ask(
                                Request::ExtractBlock {
                                    position: self.current_pos,
                                    block_index: self.archive.cache.block_index,
                                    out_buffer_size: self.archive.cache.out_buffer_size,
                                },
                            )
                        }
                    },
                }
            },
            (Stage::Extracting, Event::Extracted { block_index, out_buffer, offset, length }) => {
                match Self::read_file(out_buffer, offset, length) {
                    Some(view) => {
                        let pos = self.current_pos as usize;
                        let mut name = String::new();
                        core::mem::swap(&mut self.name, &mut name);
                        self.archive.cache = SolidBlockCache {
                            block_index,
                            out_buffer_size: out_buffer.len(),
                        };
                        self.stage = Stage::Ready;
                        self.current_pos = self.current_pos + 1;
                        Action::Yield(ArchiveFile::regular(pos, name, view))
                    },
                    None => self.extract_failed(sz_error_fail()),
                }
            },
            (Stage::Extracting, Event::ExtractFailed { native_code }) => {
                self.extract_failed(native_code)
            },
            _ => Action::Ignored,
        }
    }
}

} // verus!
