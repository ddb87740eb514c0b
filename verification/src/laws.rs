//! Properties of the redo model, stated and proved once for all inputs:
//! redo with no records passes its starting page through; a commit-log
//! record touches only the status bytes it names; a written status reads
//! back as written; a memberless multixact-create is a no-op; an
//! offsets-store write lands in exactly its four-byte slot.

use vstd::prelude::*;

use crate::apply::{
    apply_mx_create, apply_record, apply_records, apply_xact_record, clog_apply_subxacts,
    mx_apply_members, redo_result, xact_status,
};
use crate::page::{read_le32_at, write_le32_at, zero_page, BLCKSZ,
    lemma_write_le32_frame, lemma_write_le32_read,
};
use crate::record::{Lsn, WalRecord, XlMultiXactCreate, XlXactParsedRecord};
use crate::relish::{RelishTag, SlruKind};
use crate::slru::{
    clog_bshift, clog_byteno, clog_get_status, clog_set_status, clog_xid_on_page,
    lemma_clog_byteno_bound, lemma_mx_offsets_bound, lemma_mx_offsets_slot_bound,
    mx_offsets_slot, CLOG_XACT_BITMASK,
};

verus! {

/// With zero records and no base image, redo yields the all-zero page.
pub proof fn lemma_redo_empty_no_base(rel: RelishTag, blknum: u32)
    ensures
        redo_result(rel, blknum, None, Seq::<(Lsn, WalRecord)>::empty()) == zero_page(),
{
}

/// With zero records, redo returns the base image unchanged.
pub proof fn lemma_redo_empty_base(rel: RelishTag, blknum: u32, base: Seq<u8>)
    ensures
        redo_result(rel, blknum, Some(base), Seq::<(Lsn, WalRecord)>::empty()) == base,
{
}

/// Applying subtransactions never changes the page length.
pub proof fn lemma_clog_subxacts_len(
    page: Seq<u8>,
    subxacts: Seq<u32>,
    n: nat,
    status: u8,
    segno: u32,
    blknum: u32,
)
    requires
        page.len() == BLCKSZ,
    ensures
        clog_apply_subxacts(page, subxacts, n, status, segno, blknum).len() == BLCKSZ,
    decreases n,
{
    if n > 0 {
        lemma_clog_subxacts_len(page, subxacts, (n - 1) as nat, status, segno, blknum);
        lemma_clog_byteno_bound(subxacts[n - 1]);
    }
}

/// Recording members never changes the page length.
pub proof fn lemma_mx_members_len(
    page: Seq<u8>,
    moff: u32,
    members: Seq<crate::record::MultiXactMember>,
    n: nat,
    segno: u32,
    blknum: u32,
)
    requires
        page.len() == BLCKSZ,
    ensures
        mx_apply_members(page, moff, members, n, segno, blknum).len() == BLCKSZ,
    decreases n,
{
    if n > 0 {
        lemma_mx_members_len(page, moff, members, (n - 1) as nat, segno, blknum);
        lemma_mx_offsets_bound((moff + (n - 1) as u32) as u32);
    }
}

/// One record never changes the page length.
pub proof fn lemma_apply_record_len(
    rel: RelishTag,
    blknum: u32,
    page: Seq<u8>,
    rec: crate::record::ParsedRecord,
)
    requires
        page.len() == BLCKSZ,
    ensures
        apply_record(rel, blknum, page, rec).len() == BLCKSZ,
{
    match rec {
        crate::record::ParsedRecord::Xact(x) => match rel {
            RelishTag::Slru { slru: SlruKind::Clog, segno } => {
                match xact_status(x.info) {
                    Some(status) => {
                        lemma_clog_byteno_bound(x.xid);
                        lemma_clog_subxacts_len(
                            clog_set_status(page, x.xid, status),
                            x.subxacts@,
                            x.subxacts@.len(),
                            status,
                            segno,
                            blknum,
                        );
                    },
                    None => {},
                }
            },
            _ => {},
        },
        crate::record::ParsedRecord::MultiXactCreate(m) => match rel {
            RelishTag::Slru { slru: SlruKind::MultiXactMembers, segno } => {
                lemma_mx_members_len(page, m.moff, m.members@, m.nmembers as nat, segno, blknum);
            },
            RelishTag::Slru { slru: SlruKind::MultiXactOffsets, segno: _ } => {
                lemma_mx_offsets_slot_bound(m.mid);
            },
            _ => {},
        },
        crate::record::ParsedRecord::Other => {},
    }
}

/// Redo preserves the page length across any record sequence.
pub proof fn lemma_apply_records_len(
    rel: RelishTag,
    blknum: u32,
    page: Seq<u8>,
    records: Seq<(Lsn, WalRecord)>,
    n: nat,
)
    requires
        page.len() == BLCKSZ,
    ensures
        apply_records(rel, blknum, page, records, n).len() == BLCKSZ,
    decreases n,
{
    if n > 0 {
        lemma_apply_records_len(rel, blknum, page, records, (n - 1) as nat);
        lemma_apply_record_len(
            rel,
            blknum,
            apply_records(rel, blknum, page, records, (n - 1) as nat),
            records[n - 1].1.parsed,
        );
    }
}

/// The page redo returns always has page size.
pub proof fn lemma_redo_result_len(
    rel: RelishTag,
    blknum: u32,
    base: Option<Seq<u8>>,
    records: Seq<(Lsn, WalRecord)>,
)
    requires
        (base matches Some(b) ==> b.len() == BLCKSZ),
    ensures
        redo_result(rel, blknum, base, records).len() == BLCKSZ,
{
    lemma_apply_records_len(
        rel,
        blknum,
        crate::page::initial_page(base),
        records,
        records.len(),
    );
}

/// A byte that is no on-page subtransaction's status byte is untouched
/// by the subtransaction pass.
pub proof fn lemma_clog_subxacts_frame(
    page: Seq<u8>,
    subxacts: Seq<u32>,
    n: nat,
    status: u8,
    segno: u32,
    blknum: u32,
    j: int,
)
    requires
        page.len() == BLCKSZ,
        0 <= j < BLCKSZ,
        forall|k: int|
            0 <= k < n ==> !(clog_xid_on_page(#[trigger] subxacts[k], segno, blknum)
                && clog_byteno(subxacts[k]) == j),
    ensures
        clog_apply_subxacts(page, subxacts, n, status, segno, blknum)[j] == page[j],
    decreases n,
{
    if n > 0 {
        lemma_clog_subxacts_frame(page, subxacts, (n - 1) as nat, status, segno, blknum, j);
        lemma_clog_subxacts_len(page, subxacts, (n - 1) as nat, status, segno, blknum);
        lemma_clog_byteno_bound(subxacts[n - 1]);
    }
}

/// The only bytes a commit-log record modifies are the status byte of
/// its main transaction and the status bytes of subtransactions lying on
/// the requested page: every other byte is returned unchanged.
pub proof fn lemma_clog_record_frame(
    page: Seq<u8>,
    x: XlXactParsedRecord,
    segno: u32,
    blknum: u32,
    j: int,
)
    requires
        page.len() == BLCKSZ,
        0 <= j < BLCKSZ,
        j != clog_byteno(x.xid),
        forall|k: int|
            0 <= k < x.subxacts@.len() ==> !(clog_xid_on_page(
                #[trigger] x.subxacts@[k],
                segno,
                blknum,
            ) && clog_byteno(x.subxacts@[k]) == j),
    ensures
        apply_xact_record(page, x, segno, blknum)[j] == page[j],
{
    match xact_status(x.info) {
        Some(status) => {
            lemma_clog_byteno_bound(x.xid);
            let p1 = clog_set_status(page, x.xid, status);
            lemma_clog_subxacts_frame(
                p1,
                x.subxacts@,
                x.subxacts@.len(),
                status,
                segno,
                blknum,
                j,
            );
        },
        None => {},
    }
}

/// Subtransactions that all lie on other pages leave the page alone.
pub proof fn lemma_clog_subxacts_off_page(
    page: Seq<u8>,
    subxacts: Seq<u32>,
    n: nat,
    status: u8,
    segno: u32,
    blknum: u32,
)
    requires
        forall|k: int| 0 <= k < n ==> !clog_xid_on_page(#[trigger] subxacts[k], segno, blknum),
    ensures
        clog_apply_subxacts(page, subxacts, n, status, segno, blknum) == page,
    decreases n,
{
    if n > 0 {
        lemma_clog_subxacts_off_page(page, subxacts, (n - 1) as nat, status, segno, blknum);
    }
}

/// A record whose subtransactions all lie on other pages changes the
/// page only at the main transaction's slot (and not at all when its
/// operation is one redo ignores).
pub proof fn lemma_clog_record_off_page_subxacts(
    page: Seq<u8>,
    x: XlXactParsedRecord,
    segno: u32,
    blknum: u32,
)
    requires
        forall|k: int|
            0 <= k < x.subxacts@.len() ==> !clog_xid_on_page(
                #[trigger] x.subxacts@[k],
                segno,
                blknum,
            ),
    ensures
        apply_xact_record(page, x, segno, blknum) == (match xact_status(x.info) {
            Some(status) => clog_set_status(page, x.xid, status),
            None => page,
        }),
{
    match xact_status(x.info) {
        Some(status) => {
            lemma_clog_subxacts_off_page(
                clog_set_status(page, x.xid, status),
                x.subxacts@,
                x.subxacts@.len(),
                status,
                segno,
                blknum,
            );
        },
        None => {},
    }
}

/// Setting a status field and reading it back yields the status.
pub proof fn lemma_clog_set_then_get(page: Seq<u8>, xid: u32, status: u8)
    requires
        page.len() == BLCKSZ,
        status <= 3,
    ensures
        clog_get_status(clog_set_status(page, xid, status), xid) == status,
{
    lemma_clog_byteno_bound(xid);
    let b = page[clog_byteno(xid)];
    let s = clog_bshift(xid);
    assert(s <= 6 && status <= 3 ==> (((b & !(CLOG_XACT_BITMASK << s)) | (status << s)) >> s)
        & CLOG_XACT_BITMASK == status) by (bit_vector);
}

/// The status shift of any transaction is even.
proof fn lemma_clog_bshift_even(xid: u32)
    ensures
        clog_bshift(xid) & 1 == 0,
{
    assert((((xid % 4) * 2) as u8) & 1 == 0) by (bit_vector);
}

/// Writing another transaction's status field with the same status
/// leaves an already-written field reading back unchanged.
proof fn lemma_clog_set_preserves_get(page: Seq<u8>, xid: u32, sx: u32, status: u8)
    requires
        page.len() == BLCKSZ,
        status <= 3,
        clog_get_status(page, xid) == status,
    ensures
        clog_get_status(clog_set_status(page, sx, status), xid) == status,
{
    lemma_clog_byteno_bound(xid);
    lemma_clog_byteno_bound(sx);
    if clog_byteno(sx) == clog_byteno(xid) {
        let b = page[clog_byteno(xid)];
        let s1 = clog_bshift(xid);
        let s2 = clog_bshift(sx);
        lemma_clog_bshift_even(xid);
        lemma_clog_bshift_even(sx);
        assert((s1 <= 6 && s2 <= 6 && (s1 & 1) == 0 && (s2 & 1) == 0 && status <= 3 && ((b >> s1)
            & CLOG_XACT_BITMASK) == status) ==> ((((b & !(CLOG_XACT_BITMASK << s2)) | (status
            << s2)) >> s1) & CLOG_XACT_BITMASK) == status) by (bit_vector);
    }
}

/// The subtransaction pass, writing the same status throughout, keeps an
/// already-written field reading back unchanged.
proof fn lemma_clog_subxacts_preserve_get(
    page: Seq<u8>,
    subxacts: Seq<u32>,
    n: nat,
    status: u8,
    segno: u32,
    blknum: u32,
    xid: u32,
)
    requires
        page.len() == BLCKSZ,
        status <= 3,
        clog_get_status(page, xid) == status,
    ensures
        clog_get_status(clog_apply_subxacts(page, subxacts, n, status, segno, blknum), xid)
            == status,
    decreases n,
{
    if n > 0 {
        lemma_clog_subxacts_preserve_get(
            page,
            subxacts,
            (n - 1) as nat,
            status,
            segno,
            blknum,
            xid,
        );
        lemma_clog_subxacts_len(page, subxacts, (n - 1) as nat, status, segno, blknum);
        lemma_clog_set_preserves_get(
            clog_apply_subxacts(page, subxacts, (n - 1) as nat, status, segno, blknum),
            xid,
            subxacts[n - 1],
            status,
        );
    }
}

/// After a commit record, the main transaction's two-bit field reads
/// back as committed; after an abort record, as aborted; a record of an
/// ignored operation leaves the page unchanged.
pub proof fn lemma_clog_record_readback(
    page: Seq<u8>,
    x: XlXactParsedRecord,
    segno: u32,
    blknum: u32,
)
    requires
        page.len() == BLCKSZ,
    ensures
        match xact_status(x.info) {
            Some(status) => clog_get_status(apply_xact_record(page, x, segno, blknum), x.xid)
                == status,
            None => apply_xact_record(page, x, segno, blknum) == page,
        },
{
    match xact_status(x.info) {
        Some(status) => {
            lemma_clog_set_then_get(page, x.xid, status);
            lemma_clog_byteno_bound(x.xid);
            lemma_clog_subxacts_preserve_get(
                clog_set_status(page, x.xid, status),
                x.subxacts@,
                x.subxacts@.len(),
                status,
                segno,
                blknum,
                x.xid,
            );
        },
        None => {},
    }
}

/// A multixact-create record with no members leaves a members page
/// unchanged.
pub proof fn lemma_mx_create_no_members(
    page: Seq<u8>,
    m: XlMultiXactCreate,
    segno: u32,
    blknum: u32,
)
    requires
        m.nmembers == 0,
    ensures
        apply_mx_create(
            page,
            m,
            RelishTag::Slru { slru: SlruKind::MultiXactMembers, segno },
            blknum,
        ) == page,
{
}

/// On the offsets store, a create record writes the new multixact's
/// starting offset into exactly the four bytes of its slot: the slot
/// reads back as the offset and every byte outside it is unchanged.
pub proof fn lemma_mx_offsets_write(page: Seq<u8>, m: XlMultiXactCreate, segno: u32, blknum: u32)
    requires
        page.len() == BLCKSZ,
    ensures
        ({
            let slot = mx_offsets_slot(m.mid);
            let result = apply_mx_create(
                page,
                m,
                RelishTag::Slru { slru: SlruKind::MultiXactOffsets, segno },
                blknum,
            );
            &&& 0 <= slot
            &&& slot + 4 <= BLCKSZ
            &&& result.len() == BLCKSZ
            &&& read_le32_at(result, slot) == m.moff
            &&& forall|j: int| 0 <= j < BLCKSZ && !(slot <= j < slot + 4) ==> result[j] == page[j]
        }),
{
    let slot = mx_offsets_slot(m.mid);
    lemma_mx_offsets_slot_bound(m.mid);
    lemma_write_le32_read(page, slot, m.moff);
    assert forall|j: int| 0 <= j < BLCKSZ && !(slot <= j < slot + 4) implies write_le32_at(
        page,
        slot,
        m.moff,
    )[j] == page[j] by {
        lemma_write_le32_frame(page, slot, m.moff, j);
    }
}

} // verus!
