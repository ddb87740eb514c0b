//! WAL records as the redo manager receives them. The record bodies of
//! the two families replayed in process arrive already decoded: the WAL
//! decoder is a collaborator of this library, and redo consumes its typed
//! results. The raw bytes ride along for the external-process protocol,
//! which forwards records verbatim.

use vstd::prelude::*;

verus! {

/// A 64-bit log sequence number: a position in the WAL stream.
#[derive(Debug, PartialEq, Eq, PartialOrd, Ord, Clone, Copy, Structural)]
pub struct Lsn(pub u64);

/// One member of a multixact: a transaction id and its status flags.
/// The flags occupy the low eight bits.
#[derive(Debug, PartialEq, Eq, Clone, Copy, Structural)]
pub struct MultiXactMember {
    pub xid: u32,
    pub status: u32,
}

/// Decoded body of a multixact-create record: the new multixact id, the
/// starting offset of its member list, and the members themselves.
#[derive(Debug, Clone)]
pub struct XlMultiXactCreate {
    pub mid: u32,
    pub moff: u32,
    pub nmembers: u32,
    pub members: Vec<MultiXactMember>,
}

impl XlMultiXactCreate {
    /// What the decoder guarantees of a create record: the member list
    /// has exactly `nmembers` entries, member offsets stay within the
    /// 32-bit offset space, and each status fits its eight-bit field.
    pub open spec fn wf(&self) -> bool {
        &&& self.members@.len() == self.nmembers as nat
        &&& self.moff + self.nmembers <= u32::MAX
        &&& forall|i: int|
            0 <= i < self.members@.len() ==> (#[trigger] self.members@[i]).status < 256
    }
}

/// Decoded body of a transaction commit or abort record: the main
/// transaction id, the operation bits of the record's info byte, and the
/// subtransactions committed or aborted along with it.
#[derive(Debug, Clone)]
pub struct XlXactParsedRecord {
    pub xid: u32,
    pub info: u8,
    pub subxacts: Vec<u32>,
}

/// The decoder's typed view of one record body. `Xact` is a record of
/// the transaction resource manager, `MultiXactCreate` a multixact-create
/// record; records of every other resource manager are `Other` and are
/// ignored by in-process redo.
#[derive(Debug, Clone)]
pub enum ParsedRecord {
    Xact(XlXactParsedRecord),
    MultiXactCreate(XlMultiXactCreate),
    Other,
}

/// One WAL record as handed to the redo manager: the raw bytes, sent
/// verbatim to the external process, and the decoder's typed view of the
/// body, consumed by in-process redo.
#[derive(Debug, Clone)]
pub struct WalRecord {
    pub rec: Vec<u8>,
    pub parsed: ParsedRecord,
}

} // verus!
