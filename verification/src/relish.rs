//! Tags naming the page families a redo request can target: ordinary
//! relation pages, which are replayed by the external process, and the
//! non-relation stores (SLRUs and a few singletons), which are replayed
//! in process.

use vstd::prelude::*;

verus! {

/// Identity of one relation fork: tablespace, database, relation and
/// fork number.
#[derive(Debug, PartialEq, Eq, PartialOrd, Ord, Clone, Copy, Structural)]
pub struct RelTag {
    pub forknum: u8,
    pub spcnode: u32,
    pub dbnode: u32,
    pub relnode: u32,
}

/// The SLRU families whose pages in-process redo can materialize.
#[derive(Debug, PartialEq, Eq, PartialOrd, Ord, Clone, Copy, Structural)]
pub enum SlruKind {
    Clog,
    MultiXactMembers,
    MultiXactOffsets,
}

/// The family of the page a redo request targets. `Relation` pages go to
/// the external process; every other variant is handled in process.
#[derive(Debug, PartialEq, Eq, PartialOrd, Ord, Clone, Copy, Structural)]
pub enum RelishTag {
    Relation(RelTag),
    Slru { slru: SlruKind, segno: u32 },
    FileNodeMap { spcnode: u32, dbnode: u32 },
    TwoPhase { xid: u32 },
    Checkpoint,
    ControlFile,
}

} // verus!
