//! A streaming extraction engine for 7z archives.
//!
//! The engine turns an index-based native decoder, which extracts one entry
//! at a time out of a solid-compressed container, into a lazily produced
//! sequence of `(name, is_directory, content)` records. It performs no I/O
//! itself: every native operation is a [`protocol::Request`] handed to the
//! caller, whose answer comes back as a [`protocol::Event`].

pub mod archive;
pub mod error;
pub mod file;
pub mod iterator;
pub mod laws;
pub mod name;
pub mod protocol;
pub mod status;
pub mod stream;
