//! Bookkeeping for one opened archive: the entry count and the state of the
//! two scratch buffers that the decoder reuses between calls.

use vstd::prelude::*;
use crate::protocol::NO_BLOCK;

verus! {

/// Identity and size of the most recently decoded solid block. The decoder
/// gets this state back with every extraction and skips decoding when the
/// next entry lies in the same block.
#[derive(Clone, Copy, Debug, PartialEq, Eq)]
pub struct SolidBlockCache {
    /// Index of the block that the buffer holds; [`NO_BLOCK`] before the
    /// first extraction.
    pub block_index: u32,
    /// Size of the decoder's buffer; 0 before the first extraction.
    pub out_buffer_size: usize,
}

impl SolidBlockCache {
    /// The cache before any extraction.
    pub open spec fn empty() -> SolidBlockCache {
        SolidBlockCache { block_index: NO_BLOCK, out_buffer_size: 0 }
    }

    /// The cache before any extraction: no block, no buffer.
    pub fn new() -> (cache: SolidBlockCache)
        ensures
            cache == SolidBlockCache::empty(),
    {
        SolidBlockCache { block_index: NO_BLOCK, out_buffer_size: 0 }
    }
}

/// Capacity of the buffer that receives entry names, in wide characters.
#[derive(Clone, Copy, Debug, PartialEq, Eq)]
pub struct NameBuffer {
    pub capacity: usize,
}

impl NameBuffer {
    /// Whether a name of `length` units does not fit.
    pub open spec fn too_small(self, length: usize) -> bool {
        length > self.capacity
    }

    /// The buffer after it was made to hold `length` units: it grows to the
    /// longest name seen and never shrinks.
    pub open spec fn grown(self, length: usize) -> NameBuffer {
        if length > self.capacity {
            NameBuffer { capacity: length }
        } else {
            self
        }
    }

    /// A buffer that holds nothing yet.
    pub fn new() -> (buffer: NameBuffer)
        ensures
            buffer.capacity == 0,
    {
        NameBuffer { capacity: 0 }
    }

    /// Whether the buffer must be replaced before a name of `length` units
    /// can be written to it.
    pub fn needs_growth(&self, length: usize) -> (needed: bool)
        ensures
            needed == self.too_small(length),
    {
        length > self.capacity
    }

    /// The buffer once it holds at least `length` units.
    pub fn grow(self, length: usize) -> (buffer: NameBuffer)
        ensures
            buffer == self.grown(length),
            buffer.capacity >= self.capacity,
            buffer.capacity >= length,
    {
        if length > self.capacity {
            NameBuffer { capacity: length }
        } else {
            self
        }
    }
}

/// An archive whose entry index has been built.
#[derive(Clone, Copy, Debug, PartialEq, Eq)]
pub struct OpenedArchive {
    /// Number of entries in the index.
    pub files_count: u32,
    /// The buffer for entry names.
    pub name_buffer: NameBuffer,
    /// The solid-block cache.
    pub cache: SolidBlockCache,
}

impl OpenedArchive {
    /// The bookkeeping of a freshly opened archive of `files_count` entries.
    pub open spec fn fresh(files_count: u32) -> OpenedArchive {
        OpenedArchive {
            files_count,
            name_buffer: NameBuffer { capacity: 0 },
            cache: SolidBlockCache::empty(),
        }
    }

    /// A freshly opened archive: no name buffer yet, and an empty cache.
    pub fn new(files_count: u32) -> (archive: OpenedArchive)
        ensures
            archive == OpenedArchive::fresh(files_count),
    {
        OpenedArchive { files_count, name_buffer: NameBuffer::new(), cache: SolidBlockCache::new() }
    }

    /// Number of entries in the archive.
    pub fn files_count(&self) -> (count: usize)
        ensures
            count == self.files_count,
    {
        self.files_count as usize
    }
}

} // verus!
