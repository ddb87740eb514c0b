//! The on-disk layout of the SLRU stores that in-process redo mutates:
//! two status bits per transaction in the commit log, four-byte offset
//! slots in the multixact-offsets store, and twenty-byte member groups
//! (four flag bytes, then four member ids) in the multixact-members
//! store. All multi-byte fields are little-endian.

use vstd::prelude::*;

use crate::page::{read_le32_at, write_le32_at, get_le32, put_le32, BLCKSZ};

verus! {

// Commit-log layout: two status bits per transaction, so four
// transactions per byte and 8192 * 4 per page.
pub const CLOG_BITS_PER_XACT: u32 = 2;

pub const CLOG_XACTS_PER_BYTE: u32 = 4;

pub const CLOG_XACTS_PER_PAGE: u32 = 32768;

pub const CLOG_XACT_BITMASK: u8 = 3;

// Every SLRU segment file holds 32 pages.
pub const SLRU_PAGES_PER_SEGMENT: u32 = 32;

// The two-bit transaction statuses stored in the commit log.
pub const TRANSACTION_STATUS_IN_PROGRESS: u8 = 0;

pub const TRANSACTION_STATUS_COMMITTED: u8 = 1;

pub const TRANSACTION_STATUS_ABORTED: u8 = 2;

pub const TRANSACTION_STATUS_SUB_COMMITTED: u8 = 3;

// Operation bits of a transaction record's info byte.
pub const XLOG_XACT_COMMIT: u8 = 0x00;

pub const XLOG_XACT_ABORT: u8 = 0x20;

pub const XLOG_XACT_COMMIT_PREPARED: u8 = 0x30;

pub const XLOG_XACT_ABORT_PREPARED: u8 = 0x40;

// Multixact-offsets layout: one four-byte offset per multixact id.
pub const MULTIXACT_OFFSETS_PER_PAGE: u32 = 2048;

// Multixact-members layout: groups of four members, each group laid out
// as four flag bytes followed by four four-byte member ids.
pub const MULTIXACT_MEMBERS_PER_MEMBERGROUP: u32 = 4;

pub const MULTIXACT_FLAGBYTES_PER_GROUP: u32 = 4;

pub const MULTIXACT_MEMBERGROUP_SIZE: u32 = 20;

pub const MULTIXACT_MEMBERGROUPS_PER_PAGE: u32 = 409;

pub const MULTIXACT_MEMBERS_PER_PAGE: u32 = 1636;

pub const MXACT_MEMBER_BITS_PER_XACT: u32 = 8;

/// The page-local byte that holds `xid`'s two status bits.
pub open spec fn clog_byteno(xid: u32) -> int {
    ((xid % CLOG_XACTS_PER_PAGE) / CLOG_XACTS_PER_BYTE) as int
}

/// The bit position of `xid`'s status field within its byte.
pub open spec fn clog_bshift(xid: u32) -> u8 {
    ((xid % CLOG_XACTS_PER_BYTE) * CLOG_BITS_PER_XACT) as u8
}

/// `b` with `xid`'s two-bit field replaced by `status`.
pub open spec fn clog_set_byte(b: u8, xid: u32, status: u8) -> u8 {
    (b & !(CLOG_XACT_BITMASK << clog_bshift(xid))) | (status << clog_bshift(xid))
}

/// The page with `xid`'s two-bit status field set to `status` and every
/// other bit unchanged.
pub open spec fn clog_set_status(page: Seq<u8>, xid: u32, status: u8) -> Seq<u8> {
    page.update(clog_byteno(xid), clog_set_byte(page[clog_byteno(xid)], xid, status))
}

/// The two-bit status stored for `xid` on the page.
pub open spec fn clog_get_status(page: Seq<u8>, xid: u32) -> u8 {
    (page[clog_byteno(xid)] >> clog_bshift(xid)) & CLOG_XACT_BITMASK
}

/// The commit-log page number `xid`'s status lives on.
pub open spec fn clog_xid_pageno(xid: u32) -> u32 {
    xid / CLOG_XACTS_PER_PAGE
}

/// Whether `xid`'s status byte lies on commit-log page `blknum` of
/// segment `segno`.
pub open spec fn clog_xid_on_page(xid: u32, segno: u32, blknum: u32) -> bool {
    &&& clog_xid_pageno(xid) / SLRU_PAGES_PER_SEGMENT == segno
    &&& clog_xid_pageno(xid) % SLRU_PAGES_PER_SEGMENT == blknum
}

/// The status byte of any transaction lies within a page.
pub proof fn lemma_clog_byteno_bound(xid: u32)
    ensures
        0 <= clog_byteno(xid) < BLCKSZ,
        clog_bshift(xid) <= 6,
{
}

/// Set the two-bit status of `xid` on the page, as commit-log redo does
/// for the main transaction id and for each in-page subtransaction.
pub fn transaction_id_set_status(xid: u32, status: u8, page: &mut Vec<u8>)
    requires
        old(page)@.len() == BLCKSZ,
        status <= 3,
    ensures
        final(page)@ == clog_set_status(old(page)@, xid, status),
{
    let byteno: usize = ((xid % CLOG_XACTS_PER_PAGE) / CLOG_XACTS_PER_BYTE) as usize;
    let bshift: u8 = ((xid % CLOG_XACTS_PER_BYTE) * CLOG_BITS_PER_XACT) as u8;
    proof {
        lemma_clog_byteno_bound(xid);
    }
    let b = page[byteno];
    page.set(byteno, (b & !(CLOG_XACT_BITMASK << bshift)) | (status << bshift));
}

/// Read the two-bit status of `xid` from the page.
pub fn transaction_id_get_status(xid: u32, page: &Vec<u8>) -> (r: u8)
    requires
        page@.len() == BLCKSZ,
    ensures
        r == clog_get_status(page@, xid),
{
    let byteno: usize = ((xid % CLOG_XACTS_PER_PAGE) / CLOG_XACTS_PER_BYTE) as usize;
    let bshift: u8 = ((xid % CLOG_XACTS_PER_BYTE) * CLOG_BITS_PER_XACT) as u8;
    proof {
        lemma_clog_byteno_bound(xid);
    }
    (page[byteno] >> bshift) & CLOG_XACT_BITMASK
}

/// Byte offset of the flag bytes of the member group that member
/// offset `off` belongs to.
pub open spec fn mx_flags_offset(off: u32) -> int {
    ((off as int / MULTIXACT_MEMBERS_PER_MEMBERGROUP as int)
        % MULTIXACT_MEMBERGROUPS_PER_PAGE as int) * MULTIXACT_MEMBERGROUP_SIZE as int
}

/// Byte offset of the member id slot for member offset `off`.
pub open spec fn mx_member_offset(off: u32) -> int {
    mx_flags_offset(off) + MULTIXACT_FLAGBYTES_PER_GROUP as int + (off as int
        % MULTIXACT_MEMBERS_PER_MEMBERGROUP as int) * 4
}

/// Bit position of the member's flags within the group's flag word.
pub open spec fn mx_flags_bitshift(off: u32) -> u32 {
    ((off % MULTIXACT_MEMBERS_PER_MEMBERGROUP) * MXACT_MEMBER_BITS_PER_XACT) as u32
}

/// Both slots of any member offset lie within a page.
pub proof fn lemma_mx_offsets_bound(off: u32)
    ensures
        0 <= mx_flags_offset(off),
        mx_flags_offset(off) + 4 <= BLCKSZ,
        mx_flags_offset(off) < mx_member_offset(off),
        mx_member_offset(off) + 4 <= BLCKSZ,
        mx_flags_bitshift(off) <= 24,
{
}

/// Byte offset of the flag bytes of `off`'s member group.
pub fn mx_offset_to_flags_offset(off: u32) -> (r: usize)
    ensures
        r == mx_flags_offset(off),
        r + 4 <= BLCKSZ,
{
    proof {
        lemma_mx_offsets_bound(off);
    }
    ((off / MULTIXACT_MEMBERS_PER_MEMBERGROUP) % MULTIXACT_MEMBERGROUPS_PER_PAGE
        * MULTIXACT_MEMBERGROUP_SIZE) as usize
}

/// Bit position of `off`'s flags within the group's flag word.
pub fn mx_offset_to_flags_bitshift(off: u32) -> (r: u32)
    ensures
        r == mx_flags_bitshift(off),
        r <= 24,
{
    off % MULTIXACT_MEMBERS_PER_MEMBERGROUP * MXACT_MEMBER_BITS_PER_XACT
}

/// Byte offset of `off`'s member id slot.
pub fn mx_offset_to_member_offset(off: u32) -> (r: usize)
    ensures
        r == mx_member_offset(off),
        r + 4 <= BLCKSZ,
{
    proof {
        lemma_mx_offsets_bound(off);
    }
    mx_offset_to_flags_offset(off) + (MULTIXACT_FLAGBYTES_PER_GROUP as usize) + ((off
        % MULTIXACT_MEMBERS_PER_MEMBERGROUP) as usize) * 4
}

/// The page after recording one multixact member at member offset `off`:
/// the member's eight-bit flags replace its field in the group's flag
/// word, and its transaction id is stored in its member slot.
pub open spec fn mx_set_member(page: Seq<u8>, off: u32, xid: u32, status: u32) -> Seq<u8> {
    let fo = mx_flags_offset(off);
    let bshift = mx_flags_bitshift(off);
    let flagsval = read_le32_at(page, fo);
    let mask = ((1u32 << MXACT_MEMBER_BITS_PER_XACT) - 1) as u32;
    let newflags = (flagsval & !(mask << bshift)) | (status << bshift);
    write_le32_at(write_le32_at(page, fo, newflags), mx_member_offset(off), xid)
}

/// Record one multixact member on the page.
pub fn mx_apply_member(page: &mut Vec<u8>, off: u32, xid: u32, status: u32)
    requires
        old(page)@.len() == BLCKSZ,
    ensures
        final(page)@ == mx_set_member(old(page)@, off, xid, status),
{
    let flagsoff = mx_offset_to_flags_offset(off);
    let bshift = mx_offset_to_flags_bitshift(off);
    let memberoff = mx_offset_to_member_offset(off);
    let flagsval = get_le32(page, flagsoff);
    proof {
        assert(1u32 << MXACT_MEMBER_BITS_PER_XACT == 0x100) by (bit_vector);
    }
    let mask = (1u32 << MXACT_MEMBER_BITS_PER_XACT) - 1;
    let newflags = (flagsval & !(mask << bshift)) | (status << bshift);
    put_le32(page, flagsoff, newflags);
    put_le32(page, memberoff, xid);
}

/// The members-store page number that member index `i` of a create
/// record falls on.
pub open spec fn mx_member_pageno(i: u32) -> u32 {
    i / MULTIXACT_MEMBERS_PER_PAGE
}

/// Whether member index `i` falls on members page `blknum` of segment
/// `segno`.
pub open spec fn mx_member_on_page(i: u32, segno: u32, blknum: u32) -> bool {
    &&& mx_member_pageno(i) / SLRU_PAGES_PER_SEGMENT == segno
    &&& mx_member_pageno(i) % SLRU_PAGES_PER_SEGMENT == blknum
}

/// The byte offset of the four-byte slot for multixact id `mid` on its
/// offsets page.
pub open spec fn mx_offsets_slot(mid: u32) -> int {
    (mid % MULTIXACT_OFFSETS_PER_PAGE) as int * 4
}

/// The offsets slot of any multixact id lies within a page.
pub proof fn lemma_mx_offsets_slot_bound(mid: u32)
    ensures
        0 <= mx_offsets_slot(mid),
        mx_offsets_slot(mid) + 4 <= BLCKSZ,
{
}

} // verus!
