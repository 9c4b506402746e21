//! The ways in which reading an archive can fail.

use vstd::prelude::*;

verus! {

/// A failure of the extraction engine.
#[derive(Clone, Copy, Debug, PartialEq, Eq)]
pub enum SevenZipError {
    /// The input handle could not be bound to a read stream (`status` is
    /// `None`), or the entry index could not be built from it (`status` holds
    /// the decoder's status code). No record is produced.
    Open { status: Option<i32> },
    /// The content of the entry at `position` could not be decoded.
    Extract { position: usize, native_code: i32 },
    /// The name buffer could not be grown.
    Alloc,
    /// An entry name is not valid UTF-16.
    Encoding,
    /// The input stream could not be released during teardown.
    Close { code: i32 },
}

} // verus!
