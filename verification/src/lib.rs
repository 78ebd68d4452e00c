//! A reader over a clipboard-like content source that is organised as a list
//! of items, each offering named formats whose payloads are fetched through an
//! asynchronous, callback-driven foreign interface.
//!
//! The crate holds the decisions of such a reader: the table of outstanding
//! requests keyed by handle, the decoding of what a completion callback
//! carries, the reader's answers about items, formats and data, and the file
//! name suggested by a URI-list payload. The foreign calls themselves, the
//! run loop and the futures are made by the embedding program, which hands
//! their outcomes to the functions of this crate.

pub mod error;
pub mod value;
pub mod pending;
pub mod dispatch;
pub mod suggested_name;
pub mod reader;
