//! The record that the engine produces for each archive entry.

use vstd::prelude::*;

verus! {

/// One entry of an archive, as handed to the consumer.
#[derive(Clone, Debug, PartialEq, Eq)]
pub struct ArchiveFile {
    /// Index of the entry in the archive's entry table, starting at 0.
    pub pos: usize,
    /// Path of the entry inside the archive.
    pub name: String,
    /// Whether the entry is a directory.
    pub is_dir: bool,
    /// The entry's bytes; absent for a directory.
    pub content: Option<Vec<u8>>,
}

/// What an [`ArchiveFile`] holds, as mathematical values.
pub struct FileView {
    pub pos: usize,
    pub name: Seq<char>,
    pub is_dir: bool,
    pub content: Option<Seq<u8>>,
}

impl FileView {
    /// A record carries content exactly when it is not a directory.
    pub open spec fn wf(self) -> bool {
        self.content.is_some() == !self.is_dir
    }

    /// The record of a directory entry.
    pub open spec fn directory(pos: usize, name: Seq<char>) -> FileView {
        FileView { pos, name, is_dir: true, content: None }
    }

    /// The record of a regular entry with the given bytes.
    pub open spec fn regular(pos: usize, name: Seq<char>, bytes: Seq<u8>) -> FileView {
        FileView { pos, name, is_dir: false, content: Some(bytes) }
    }
}

impl View for ArchiveFile {
    type V = FileView;

    open spec fn view(&self) -> FileView {
        FileView {
            pos: self.pos,
            name: self.name@,
            is_dir: self.is_dir,
            content: match self.content {
                Some(bytes) => Some(bytes@),
                None => None,
            },
        }
    }
}

impl ArchiveFile {
    /// Builds the record of a directory entry.
    pub fn directory(pos: usize, name: String) -> (file: ArchiveFile)
        ensures
            file@ == FileView::directory(pos, name@),
            file@.wf(),
    {
        ArchiveFile { pos, name, is_dir: true, content: None }
    }

    /// Builds the record of a regular entry, copying the borrowed bytes so
    /// that the record stays valid when the decoder reuses its buffer.
    pub fn regular(pos: usize, name: String, bytes: &[u8]) -> (file: ArchiveFile)
        ensures
            file@ == FileView::regular(pos, name@, bytes@),
            file@.wf(),
    {
        let content = vstd::slice::slice_to_vec(bytes);
        ArchiveFile { pos, name, is_dir: false, content: Some(content) }
    }
}

} // verus!
