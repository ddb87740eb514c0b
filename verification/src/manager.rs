//! The redo manager interface: one entry point that takes a page
//! identity, an optional base image and the records to apply, and
//! returns the reconstructed page. Implementations route each request
//! either to the verified in-process replay or to an external process.

use vstd::prelude::*;

use crate::codec::BufferTag;
use crate::page::{base_view, BLCKSZ};
use crate::record::{Lsn, WalRecord};
use crate::relish::RelishTag;
use crate::session::{IoErrorCause, PipeId};

verus! {

/// An error of WAL redo. `IoError` covers every failure of the external
/// process transport; `InvalidState` means the manager cannot serve at
/// all; `InvalidRequest` means the request reached a path that cannot
/// handle its tag.
#[derive(Debug, PartialEq, Eq, Clone, Copy, Structural)]
pub enum WalRedoError {
    IoError(IoErrorCause),
    InvalidState,
    InvalidRequest,
}

/// WAL redo managers replay WAL records: the caller passes the page
/// identity, an optional base image and the records to apply over it,
/// and receives the resulting page image.
///
/// Every implementation returns a full page on success; what else it
/// guarantees is stated by its own `redo_req` and `redo_ens`.
pub trait WalRedoManager: Send + Sync {
    /// What the implementation requires of a request.
    spec fn redo_req(
        &self,
        rel: RelishTag,
        blknum: u32,
        lsn: Lsn,
        base_img: &Option<Vec<u8>>,
        records: Seq<(Lsn, WalRecord)>,
    ) -> bool;

    /// What the implementation guarantees of the result.
    spec fn redo_ens(
        &self,
        rel: RelishTag,
        blknum: u32,
        lsn: Lsn,
        base_img: Option<Seq<u8>>,
        records: Seq<(Lsn, WalRecord)>,
        r: Result<Vec<u8>, WalRedoError>,
    ) -> bool;

    /// Apply `records` over `base_img` (or over the implicit zero page)
    /// and return the resulting page image for `(rel, blknum)`.
    fn request_redo(
        &self,
        rel: RelishTag,
        blknum: u32,
        lsn: Lsn,
        base_img: Option<Vec<u8>>,
        records: Vec<(Lsn, WalRecord)>,
    ) -> (r: Result<Vec<u8>, WalRedoError>)
        requires
            self.redo_req(rel, blknum, lsn, &base_img, records@),
        ensures
            (r matches Ok(page) ==> page@.len() == BLCKSZ),
            self.redo_ens(rel, blknum, lsn, base_view(&base_img), records@, r),
    ;
}

impl WalRedoError {
    /// The description of each error, as it reads in logs.
    pub open spec fn message_spec(&self) -> Seq<char> {
        match self {
            WalRedoError::IoError(IoErrorCause::Timeout) => "WAL redo timed out"@,
            WalRedoError::IoError(IoErrorCause::BrokenPipe(PipeId::Stdin)) =>
                "WAL redo process closed its stdin unexpectedly"@,
            WalRedoError::IoError(IoErrorCause::BrokenPipe(PipeId::Stdout)) =>
                "WAL redo process closed its stdout unexpectedly"@,
            WalRedoError::IoError(IoErrorCause::BrokenPipe(PipeId::Stderr)) =>
                "WAL redo process closed its stderr unexpectedly"@,
            WalRedoError::IoError(IoErrorCause::Other) => "WAL redo I/O error"@,
            WalRedoError::InvalidState => "cannot perform WAL redo now"@,
            WalRedoError::InvalidRequest => "cannot perform WAL redo for this request"@,
        }
    }

    /// The human-readable description of this error.
    pub fn message(&self) -> (r: String)
        ensures
            r@ == self.message_spec(),
    {
        match self {
            WalRedoError::IoError(IoErrorCause::Timeout) => String::from_str(
                "WAL redo timed out",
            ),
            WalRedoError::IoError(IoErrorCause::BrokenPipe(PipeId::Stdin)) => String::from_str(
                "WAL redo process closed its stdin unexpectedly",
            ),
            WalRedoError::IoError(IoErrorCause::BrokenPipe(PipeId::Stdout)) => String::from_str(
                "WAL redo process closed its stdout unexpectedly",
            ),
            WalRedoError::IoError(IoErrorCause::BrokenPipe(PipeId::Stderr)) => String::from_str(
                "WAL redo process closed its stderr unexpectedly",
            ),
            WalRedoError::IoError(IoErrorCause::Other) => String::from_str("WAL redo I/O error"),
            WalRedoError::InvalidState => String::from_str("cannot perform WAL redo now"),
            WalRedoError::InvalidRequest => String::from_str(
                "cannot perform WAL redo for this request",
            ),
        }
    }
}

/// The external-process path serves relation pages only: give such a
/// request its wire identity, and reject any other tag that reached the
/// path as an invalid request.
pub fn relation_buffer_tag(rel: RelishTag, blknum: u32) -> (r: Result<BufferTag, WalRedoError>)
    ensures
        r == (match rel {
            RelishTag::Relation(rt) => Ok::<BufferTag, WalRedoError>(BufferTag { rel: rt, blknum }),
            _ => Err::<BufferTag, WalRedoError>(WalRedoError::InvalidRequest),
        }),
{
    match rel {
        RelishTag::Relation(rt) => Ok(BufferTag { rel: rt, blknum }),
        _ => Err(WalRedoError::InvalidRequest),
    }
}

/// A redo manager that cannot replay anything: every request fails with
/// `InvalidState`. Used while bootstrapping, before an external process
/// may be launched.
pub struct DummyRedoManager {}

impl WalRedoManager for DummyRedoManager {
    open spec fn redo_req(
        &self,
        rel: RelishTag,
        blknum: u32,
        lsn: Lsn,
        base_img: &Option<Vec<u8>>,
        records: Seq<(Lsn, WalRecord)>,
    ) -> bool {
        true
    }

    open spec fn redo_ens(
        &self,
        rel: RelishTag,
        blknum: u32,
        lsn: Lsn,
        base_img: Option<Seq<u8>>,
        records: Seq<(Lsn, WalRecord)>,
        r: Result<Vec<u8>, WalRedoError>,
    ) -> bool {
        r matches Err(WalRedoError::InvalidState)
    }

    fn request_redo(
        &self,
        rel: RelishTag,
        blknum: u32,
        lsn: Lsn,
        base_img: Option<Vec<u8>>,
        records: Vec<(Lsn, WalRecord)>,
    ) -> (r: Result<Vec<u8>, WalRedoError>) {
        Err(WalRedoError::InvalidState)
    }
}

} // verus!
