//! WAL redo: reconstruct an 8 KiB page image by applying a sequence of
//! write-ahead-log records over an optional base image.
//!
//! Non-relation pages (CLOG transaction status, multixact offsets and
//! members) are replayed in process by verified code. Relation pages are
//! replayed by an external `postgres --wal-redo` child process; the framed
//! protocol messages and the decisions of the pipe loop that drives the
//! child are verified here, while the process plumbing itself lives with
//! the embedding application.

pub mod page;
pub mod relish;
pub mod record;
pub mod slru;
pub mod codec;
pub mod apply;
pub mod session;
pub mod manager;
pub mod laws;
