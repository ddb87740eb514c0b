//! In-process replay of the two record families the service interprets
//! itself: transaction commit/abort records against commit-log pages,
//! and multixact-create records against the multixact offsets and
//! members stores. The working page starts from the base image, or from
//! the all-zero page, and each record mutates it in order.

use vstd::prelude::*;
use vstd::pervasive::unreached;

use crate::manager::WalRedoError;
use crate::page::{
    base_view, copy_page, initial_page, put_le32, write_le32_at, zeroed_page, BLCKSZ,
};
use crate::record::{Lsn, ParsedRecord, WalRecord, XlXactParsedRecord};
use crate::relish::{RelishTag, SlruKind};
use crate::slru::{
    clog_set_status, clog_xid_on_page, mx_apply_member, mx_member_on_page, mx_offsets_slot,
    transaction_id_set_status, mx_set_member, lemma_mx_offsets_slot_bound,
    CLOG_XACTS_PER_PAGE, SLRU_PAGES_PER_SEGMENT, MULTIXACT_MEMBERS_PER_PAGE,
    MULTIXACT_OFFSETS_PER_PAGE, TRANSACTION_STATUS_ABORTED, TRANSACTION_STATUS_COMMITTED,
    XLOG_XACT_ABORT, XLOG_XACT_ABORT_PREPARED, XLOG_XACT_COMMIT, XLOG_XACT_COMMIT_PREPARED,
};

verus! {

/// The status a transaction record sets, by the operation bits of its
/// info byte, or `None` for operations redo ignores.
pub open spec fn xact_status(info: u8) -> Option<u8> {
    if info == XLOG_XACT_COMMIT || info == XLOG_XACT_COMMIT_PREPARED {
        Some(TRANSACTION_STATUS_COMMITTED)
    } else if info == XLOG_XACT_ABORT || info == XLOG_XACT_ABORT_PREPARED {
        Some(TRANSACTION_STATUS_ABORTED)
    } else {
        None
    }
}

/// The page after the first `n` subtransactions of a record have been
/// applied. A subtransaction's status is written only when its slot lies
/// on the requested page `(segno, blknum)`.
pub open spec fn clog_apply_subxacts(
    page: Seq<u8>,
    subxacts: Seq<u32>,
    n: nat,
    status: u8,
    segno: u32,
    blknum: u32,
) -> Seq<u8>
    decreases n,
{
    if n == 0 {
        page
    } else {
        let prev = clog_apply_subxacts(page, subxacts, (n - 1) as nat, status, segno, blknum);
        let sx = subxacts[n - 1];
        if clog_xid_on_page(sx, segno, blknum) {
            clog_set_status(prev, sx, status)
        } else {
            prev
        }
    }
}

/// The page after one transaction record: the main transaction's status
/// is set unconditionally (the caller routes the record to the page the
/// main id lives on), then each in-page subtransaction's.
pub open spec fn apply_xact_record(
    page: Seq<u8>,
    x: XlXactParsedRecord,
    segno: u32,
    blknum: u32,
) -> Seq<u8> {
    match xact_status(x.info) {
        Some(status) => clog_apply_subxacts(
            clog_set_status(page, x.xid, status),
            x.subxacts@,
            x.subxacts@.len(),
            status,
            segno,
            blknum,
        ),
        None => page,
    }
}

/// The members page after the first `n` members of a create record have
/// been recorded. Member `i` lands at member offset `moff + i`; it is
/// written only when its slots lie on the requested page.
pub open spec fn mx_apply_members(
    page: Seq<u8>,
    moff: u32,
    members: Seq<crate::record::MultiXactMember>,
    n: nat,
    segno: u32,
    blknum: u32,
) -> Seq<u8>
    decreases n,
{
    if n == 0 {
        page
    } else {
        let prev = mx_apply_members(page, moff, members, (n - 1) as nat, segno, blknum);
        let i = (n - 1) as u32;
        if mx_member_on_page(i, segno, blknum) {
            mx_set_member(prev, (moff + i) as u32, members[n - 1].xid, members[n - 1].status)
        } else {
            prev
        }
    }
}

/// The page after one multixact-create record. On the members store the
/// record's members are recorded; on the offsets store the new
/// multixact's starting offset is written into its four-byte slot.
pub open spec fn apply_mx_create(
    page: Seq<u8>,
    m: crate::record::XlMultiXactCreate,
    rel: RelishTag,
    blknum: u32,
) -> Seq<u8> {
    match rel {
        RelishTag::Slru { slru: SlruKind::MultiXactMembers, segno } => mx_apply_members(
            page,
            m.moff,
            m.members@,
            m.nmembers as nat,
            segno,
            blknum,
        ),
        RelishTag::Slru { slru: SlruKind::MultiXactOffsets, segno: _ } => write_le32_at(
            page,
            mx_offsets_slot(m.mid),
            m.moff,
        ),
        _ => page,
    }
}

/// The page after one record. Records of resource managers other than
/// the two interpreted families leave the page unchanged.
pub open spec fn apply_record(rel: RelishTag, blknum: u32, page: Seq<u8>, rec: ParsedRecord) -> Seq<
    u8,
> {
    match rec {
        ParsedRecord::Xact(x) => match rel {
            RelishTag::Slru { slru: SlruKind::Clog, segno } => apply_xact_record(
                page,
                x,
                segno,
                blknum,
            ),
            _ => page,
        },
        ParsedRecord::MultiXactCreate(m) => apply_mx_create(page, m, rel, blknum),
        ParsedRecord::Other => page,
    }
}

/// The page after the first `n` records, applied in order.
pub open spec fn apply_records(
    rel: RelishTag,
    blknum: u32,
    page: Seq<u8>,
    records: Seq<(Lsn, WalRecord)>,
    n: nat,
) -> Seq<u8>
    decreases n,
{
    if n == 0 {
        page
    } else {
        apply_record(
            rel,
            blknum,
            apply_records(rel, blknum, page, records, (n - 1) as nat),
            records[n - 1].1.parsed,
        )
    }
}

/// The page image in-process redo returns: every record applied in
/// order over the base image or the zero page.
pub open spec fn redo_result(
    rel: RelishTag,
    blknum: u32,
    base: Option<Seq<u8>>,
    records: Seq<(Lsn, WalRecord)>,
) -> Seq<u8> {
    apply_records(rel, blknum, initial_page(base), records, records.len())
}

/// Which tags a record family may arrive under. A transaction record is
/// only ever routed to a commit-log page, a multixact-create record only
/// to a multixact offsets or members page; the caller routing a record
/// elsewhere is a programming error.
pub open spec fn wf_record(rel: RelishTag, rec: ParsedRecord) -> bool {
    match rec {
        ParsedRecord::Xact(x) => rel matches RelishTag::Slru { slru: SlruKind::Clog, .. },
        ParsedRecord::MultiXactCreate(m) => {
            &&& m.wf()
            &&& match rel {
                RelishTag::Slru { slru: SlruKind::MultiXactMembers, .. } => true,
                RelishTag::Slru { slru: SlruKind::MultiXactOffsets, .. } => true,
                _ => false,
            }
        },
        ParsedRecord::Other => true,
    }
}

/// Every record of the request fits the requested tag.
pub open spec fn wf_records(rel: RelishTag, records: Seq<(Lsn, WalRecord)>) -> bool {
    forall|i: int| 0 <= i < records.len() ==> wf_record(rel, (#[trigger] records[i]).1.parsed)
}

/// One redo request: the page identity, the WAL position it is
/// materialized at, an optional base image, and the records to apply,
/// in order.
pub struct WalRedoRequest {
    pub rel: RelishTag,
    pub blknum: u32,
    pub lsn: Lsn,
    pub base_img: Option<Vec<u8>>,
    pub records: Vec<(Lsn, WalRecord)>,
}

impl WalRedoRequest {
    /// What in-process replay requires: a non-relation tag, a full-size
    /// base image if any, and records routed to tags their family
    /// belongs to.
    pub open spec fn wf_in_process(&self) -> bool {
        &&& !(self.rel matches RelishTag::Relation(_))
        &&& (self.base_img matches Some(b) ==> b@.len() == BLCKSZ)
        &&& wf_records(self.rel, self.records@)
    }

    /// Whether this request can be served in process, or must be passed
    /// to the external wal-redo process: only relation pages need the
    /// latter.
    pub fn can_apply_in_process(&self) -> (r: bool)
        ensures
            r == !(self.rel matches RelishTag::Relation(_)),
    {
        !matches!(self.rel, RelishTag::Relation(_))
    }
}

/// Apply the subtransactions of one transaction record, writing only
/// the ones whose commit-log slot lies on the requested page.
fn apply_clog_subxacts(
    page: &mut Vec<u8>,
    subxacts: &Vec<u32>,
    status: u8,
    segno: u32,
    blknum: u32,
)
    requires
        old(page)@.len() == BLCKSZ,
        status <= 3,
    ensures
        final(page)@ == clog_apply_subxacts(
            old(page)@,
            subxacts@,
            subxacts@.len(),
            status,
            segno,
            blknum,
        ),
        final(page)@.len() == BLCKSZ,
{
    let ghost page0 = page@;
    let n = subxacts.len();
    let mut j: usize = 0;
    while j < n
        invariant
            j <= n,
            n == subxacts@.len(),
            status <= 3,
            page@.len() == BLCKSZ,
            page@ == clog_apply_subxacts(page0, subxacts@, j as nat, status, segno, blknum),
        decreases n - j,
    {
        let sx = subxacts[j];
        let pageno = sx / CLOG_XACTS_PER_PAGE;
        let rec_segno = pageno / SLRU_PAGES_PER_SEGMENT;
        let rpageno = pageno % SLRU_PAGES_PER_SEGMENT;
        // only update xids on the requested page
        if rec_segno == segno && rpageno == blknum {
            transaction_id_set_status(sx, status, page);
        }
        j = j + 1;
    }
}

/// Replay one request in process. The working page starts from the base
/// image, or from zeros, and each record of the two interpreted
/// families mutates it; records of other resource managers are ignored.
pub fn apply_in_process(request: &WalRedoRequest) -> (r: Result<Vec<u8>, WalRedoError>)
    requires
        request.wf_in_process(),
    ensures
        r matches Ok(page) && page@ == redo_result(
            request.rel,
            request.blknum,
            base_view(&request.base_img),
            request.records@,
        ) && page@.len() == BLCKSZ,
{
    let rel = request.rel;
    let blknum = request.blknum;
    let mut page: Vec<u8> = match &request.base_img {
        Some(fpi) => copy_page(fpi),
        None => zeroed_page(),
    };
    let ghost init = page@;
    assert(init == initial_page(base_view(&request.base_img)));

    let n = request.records.len();
    let mut i: usize = 0;
    while i < n
        invariant
            i <= n,
            n == request.records@.len(),
            request.wf_in_process(),
            rel == request.rel,
            blknum == request.blknum,
            page@.len() == BLCKSZ,
            page@ == apply_records(rel, blknum, init, request.records@, i as nat),
        decreases n - i,
    {
        let ghost prev = page@;
        let pair = &request.records[i];
        let record = &pair.1;
        assert(wf_record(rel, record.parsed));
        match &record.parsed {
            ParsedRecord::Xact(x) => {
                let rec_segno = match rel {
                    RelishTag::Slru { slru: SlruKind::Clog, segno } => segno,
                    _ => unreached(),
                };
                if x.info == XLOG_XACT_COMMIT || x.info == XLOG_XACT_COMMIT_PREPARED {
                    transaction_id_set_status(x.xid, TRANSACTION_STATUS_COMMITTED, &mut page);
                    apply_clog_subxacts(
                        &mut page,
                        &x.subxacts,
                        TRANSACTION_STATUS_COMMITTED,
                        rec_segno,
                        blknum,
                    );
                } else if x.info == XLOG_XACT_ABORT || x.info == XLOG_XACT_ABORT_PREPARED {
                    transaction_id_set_status(x.xid, TRANSACTION_STATUS_ABORTED, &mut page);
                    apply_clog_subxacts(
                        &mut page,
                        &x.subxacts,
                        TRANSACTION_STATUS_ABORTED,
                        rec_segno,
                        blknum,
                    );
                }
                assert(page@ == apply_record(rel, blknum, prev, record.parsed));
            },
            ParsedRecord::MultiXactCreate(m) => {
                match rel {
                    RelishTag::Slru { slru: SlruKind::MultiXactMembers, segno } => {
                        let ghost before = page@;
                        let nmembers = m.nmembers;
                        let mut k: u32 = 0;
                        while k < nmembers
                            invariant
                                k <= nmembers,
                                m.wf(),
                                nmembers == m.nmembers,
                                page@.len() == BLCKSZ,
                                page@ == mx_apply_members(
                                    before,
                                    m.moff,
                                    m.members@,
                                    k as nat,
                                    segno,
                                    blknum,
                                ),
                            decreases nmembers - k,
                        {
                            let pageno = k / MULTIXACT_MEMBERS_PER_PAGE;
                            let rec_segno = pageno / SLRU_PAGES_PER_SEGMENT;
                            let rpageno = pageno % SLRU_PAGES_PER_SEGMENT;
                            if rec_segno == segno && rpageno == blknum {
                                // update only the target block
                                let offset = m.moff + k;
                                let member = &m.members[k as usize];
                                mx_apply_member(&mut page, offset, member.xid, member.status);
                            }
                            k = k + 1;
                        }
                    },
                    RelishTag::Slru { slru: SlruKind::MultiXactOffsets, segno: _ } => {
                        proof {
                            lemma_mx_offsets_slot_bound(m.mid);
                        }
                        let offs = ((m.mid % MULTIXACT_OFFSETS_PER_PAGE) * 4) as usize;
                        put_le32(&mut page, offs, m.moff);
                    },
                    _ => unreached(),
                }
                assert(page@ == apply_record(rel, blknum, prev, record.parsed));
            },
            ParsedRecord::Other => {},
        }
        i = i + 1;
    }
    Ok(page)
}


} // verus!
