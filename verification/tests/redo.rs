//! End-to-end checks of in-process redo: empty requests, commit-log
//! records, multixact records, and the manager's routing decisions.

use walredo::apply::{apply_in_process, WalRedoRequest};
use walredo::codec::BufferTag;
use walredo::manager::{relation_buffer_tag, DummyRedoManager, WalRedoError, WalRedoManager};
use walredo::record::{
    Lsn, MultiXactMember, ParsedRecord, WalRecord, XlMultiXactCreate, XlXactParsedRecord,
};
use walredo::relish::{RelTag, RelishTag, SlruKind};
use walredo::slru::{
    transaction_id_get_status, transaction_id_set_status, TRANSACTION_STATUS_ABORTED,
    TRANSACTION_STATUS_COMMITTED, XLOG_XACT_ABORT, XLOG_XACT_COMMIT, XLOG_XACT_COMMIT_PREPARED,
};

fn xact_record(xid: u32, info: u8, subxacts: Vec<u32>) -> (Lsn, WalRecord) {
    (
        Lsn(0),
        WalRecord {
            rec: Vec::new(),
            parsed: ParsedRecord::Xact(XlXactParsedRecord { xid, info, subxacts }),
        },
    )
}

fn mx_create_record(mid: u32, moff: u32, members: Vec<MultiXactMember>) -> (Lsn, WalRecord) {
    let nmembers = members.len() as u32;
    (
        Lsn(0),
        WalRecord {
            rec: Vec::new(),
            parsed: ParsedRecord::MultiXactCreate(XlMultiXactCreate {
                mid,
                moff,
                nmembers,
                members,
            }),
        },
    )
}

fn redo(
    rel: RelishTag,
    blknum: u32,
    base_img: Option<Vec<u8>>,
    records: Vec<(Lsn, WalRecord)>,
) -> Vec<u8> {
    apply_in_process(&WalRedoRequest {
        rel,
        blknum,
        lsn: Lsn(0),
        base_img,
        records,
    })
    .unwrap()
}

#[test]
fn empty_zero_page() {
    let page = redo(
        RelishTag::Slru { slru: SlruKind::MultiXactOffsets, segno: 0 },
        0,
        None,
        Vec::new(),
    );
    assert_eq!(page.len(), 8192);
    assert!(page.iter().all(|b| *b == 0));
}

#[test]
fn base_passthrough() {
    let base = vec![0xABu8; 8192];
    let page = redo(
        RelishTag::Slru { slru: SlruKind::Clog, segno: 0 },
        0,
        Some(base.clone()),
        Vec::new(),
    );
    assert_eq!(page, base);
}

#[test]
fn clog_commit_sets_two_bits() {
    let page = redo(
        RelishTag::Slru { slru: SlruKind::Clog, segno: 0 },
        0,
        Some(vec![0u8; 8192]),
        vec![xact_record(5, XLOG_XACT_COMMIT, vec![])],
    );
    // xid 5 lives in byte 1, bit position 2: 0b0100.
    let mut expected = vec![0u8; 8192];
    expected[1] = 0b0100;
    assert_eq!(page, expected);
    assert_eq!(transaction_id_get_status(5, &page), TRANSACTION_STATUS_COMMITTED);
}

#[test]
fn clog_abort_readback() {
    let page = redo(
        RelishTag::Slru { slru: SlruKind::Clog, segno: 0 },
        0,
        None,
        vec![xact_record(10, XLOG_XACT_ABORT, vec![])],
    );
    // xid 10 lives in byte 2, bit position 4.
    let mut expected = vec![0u8; 8192];
    expected[2] = (TRANSACTION_STATUS_ABORTED) << 4;
    assert_eq!(page, expected);
    assert_eq!(transaction_id_get_status(10, &page), TRANSACTION_STATUS_ABORTED);
}

#[test]
fn clog_commit_prepared_counts_as_commit() {
    let page = redo(
        RelishTag::Slru { slru: SlruKind::Clog, segno: 0 },
        0,
        None,
        vec![xact_record(5, XLOG_XACT_COMMIT_PREPARED, vec![])],
    );
    assert_eq!(transaction_id_get_status(5, &page), TRANSACTION_STATUS_COMMITTED);
}

#[test]
fn clog_ignored_operation_leaves_page() {
    // 0x10 is the prepare operation, which redo ignores.
    let base = vec![0x5Au8; 8192];
    let page = redo(
        RelishTag::Slru { slru: SlruKind::Clog, segno: 0 },
        0,
        Some(base.clone()),
        vec![xact_record(5, 0x10, vec![])],
    );
    assert_eq!(page, base);
}

#[test]
fn clog_subxact_filter() {
    // Subxact 7 lies on the requested page (byte 1, bit 6); subxact
    // 32770 lies on commit-log page 1, not page 0, and must be skipped.
    let page = redo(
        RelishTag::Slru { slru: SlruKind::Clog, segno: 0 },
        0,
        Some(vec![0u8; 8192]),
        vec![xact_record(5, XLOG_XACT_COMMIT, vec![7, 32770])],
    );
    let mut expected = vec![0u8; 8192];
    expected[1] = 0b0100_0100;
    assert_eq!(page, expected);
}

#[test]
fn clog_subxact_on_later_block() {
    // Subxact 32770 lies on commit-log page 1; a request for block 1 of
    // segment 0 updates it, while the main xid's slot is written
    // unconditionally into the working page.
    let page = redo(
        RelishTag::Slru { slru: SlruKind::Clog, segno: 0 },
        1,
        None,
        vec![xact_record(5, XLOG_XACT_COMMIT, vec![32770])],
    );
    // 32770 % 32768 == 2: byte 0, bit position 4; xid 5: byte 1, bit 2.
    let mut expected = vec![0u8; 8192];
    expected[0] = 0b0001_0000;
    expected[1] = 0b0100;
    assert_eq!(page, expected);
}

#[test]
fn multixact_offsets_slot() {
    let page = redo(
        RelishTag::Slru { slru: SlruKind::MultiXactOffsets, segno: 0 },
        0,
        Some(vec![0u8; 8192]),
        vec![mx_create_record(3, 0xDEADBEEF, vec![])],
    );
    let mut expected = vec![0u8; 8192];
    expected[12..16].copy_from_slice(&[0xEF, 0xBE, 0xAD, 0xDE]);
    assert_eq!(page, expected);
}

#[test]
fn multixact_offsets_first_slot() {
    // mid 2048 wraps to slot 0 of its page: bytes 0..4.
    let page = redo(
        RelishTag::Slru { slru: SlruKind::MultiXactOffsets, segno: 0 },
        0,
        None,
        vec![mx_create_record(2048, 0x01020304, vec![])],
    );
    let mut expected = vec![0u8; 8192];
    expected[0..4].copy_from_slice(&[0x04, 0x03, 0x02, 0x01]);
    assert_eq!(page, expected);
}

#[test]
fn multixact_offsets_last_slot() {
    // mid 2047 is the last slot of its page: bytes 8188..8192.
    let page = redo(
        RelishTag::Slru { slru: SlruKind::MultiXactOffsets, segno: 0 },
        0,
        None,
        vec![mx_create_record(2047, 0x01020304, vec![])],
    );
    let mut expected = vec![0u8; 8192];
    expected[8188..8192].copy_from_slice(&[0x04, 0x03, 0x02, 0x01]);
    assert_eq!(page, expected);
}

#[test]
fn multixact_members_empty_record() {
    let base = vec![0xCDu8; 8192];
    let page = redo(
        RelishTag::Slru { slru: SlruKind::MultiXactMembers, segno: 0 },
        0,
        Some(base.clone()),
        vec![mx_create_record(9, 100, vec![])],
    );
    assert_eq!(page, base);
}

#[test]
fn multixact_members_writes_flags_and_xid() {
    // Member offset 0: flags word at byte 0, member id at byte 4.
    let page = redo(
        RelishTag::Slru { slru: SlruKind::MultiXactMembers, segno: 0 },
        0,
        None,
        vec![mx_create_record(
            9,
            0,
            vec![MultiXactMember { xid: 0x01020304, status: 0xAB }],
        )],
    );
    let mut expected = vec![0u8; 8192];
    expected[0..4].copy_from_slice(&[0xAB, 0x00, 0x00, 0x00]);
    expected[4..8].copy_from_slice(&[0x04, 0x03, 0x02, 0x01]);
    assert_eq!(page, expected);
}

#[test]
fn multixact_members_second_in_group() {
    // Member offset 1 shares the group's flags word (bits 8..16) and
    // lands in the second member slot, bytes 8..12.
    let page = redo(
        RelishTag::Slru { slru: SlruKind::MultiXactMembers, segno: 0 },
        0,
        None,
        vec![mx_create_record(
            9,
            1,
            vec![MultiXactMember { xid: 0x11223344, status: 0x07 }],
        )],
    );
    let mut expected = vec![0u8; 8192];
    expected[0..4].copy_from_slice(&[0x00, 0x07, 0x00, 0x00]);
    expected[8..12].copy_from_slice(&[0x44, 0x33, 0x22, 0x11]);
    assert_eq!(page, expected);
}

#[test]
fn multixact_members_off_page_skipped() {
    // The single member has index 0, which lies on members page 0, not
    // on the requested block 1: the page stays untouched.
    let base = vec![0x33u8; 8192];
    let page = redo(
        RelishTag::Slru { slru: SlruKind::MultiXactMembers, segno: 0 },
        1,
        Some(base.clone()),
        vec![mx_create_record(
            9,
            0,
            vec![MultiXactMember { xid: 42, status: 1 }],
        )],
    );
    assert_eq!(page, base);
}

#[test]
fn other_records_ignored() {
    let page = redo(
        RelishTag::Checkpoint,
        0,
        None,
        vec![(Lsn(7), WalRecord { rec: vec![1, 2, 3], parsed: ParsedRecord::Other })],
    );
    assert!(page.iter().all(|b| *b == 0));
}

#[test]
fn records_apply_in_order() {
    // Two records against the same slot: the later one wins.
    let page = redo(
        RelishTag::Slru { slru: SlruKind::Clog, segno: 0 },
        0,
        None,
        vec![
            xact_record(5, XLOG_XACT_COMMIT, vec![]),
            xact_record(5, XLOG_XACT_ABORT, vec![]),
        ],
    );
    assert_eq!(transaction_id_get_status(5, &page), TRANSACTION_STATUS_ABORTED);
}

#[test]
fn set_status_helper_roundtrip() {
    let mut page = vec![0u8; 8192];
    transaction_id_set_status(12345, TRANSACTION_STATUS_COMMITTED, &mut page);
    assert_eq!(
        transaction_id_get_status(12345, &page),
        TRANSACTION_STATUS_COMMITTED
    );
}

#[test]
fn dummy_manager_refuses() {
    let mgr = DummyRedoManager {};
    let r = mgr.request_redo(
        RelishTag::Slru { slru: SlruKind::Clog, segno: 0 },
        0,
        Lsn(0),
        None,
        Vec::new(),
    );
    assert!(matches!(r, Err(WalRedoError::InvalidState)));
    assert_eq!(
        WalRedoError::InvalidState.message(),
        "cannot perform WAL redo now"
    );
}

#[test]
fn relation_routing() {
    let rt = RelTag { forknum: 0, spcnode: 1663, dbnode: 12345, relnode: 16384 };
    let r = relation_buffer_tag(RelishTag::Relation(rt), 7);
    assert_eq!(r, Ok(BufferTag { rel: rt, blknum: 7 }));
    let bad = relation_buffer_tag(RelishTag::Slru { slru: SlruKind::Clog, segno: 0 }, 0);
    assert_eq!(bad, Err(WalRedoError::InvalidRequest));
    assert_eq!(
        WalRedoError::InvalidRequest.message(),
        "cannot perform WAL redo for this request"
    );
}

#[test]
fn can_apply_in_process_by_tag() {
    let rt = RelTag { forknum: 0, spcnode: 1, dbnode: 2, relnode: 3 };
    let relation = WalRedoRequest {
        rel: RelishTag::Relation(rt),
        blknum: 0,
        lsn: Lsn(0),
        base_img: None,
        records: Vec::new(),
    };
    assert!(!relation.can_apply_in_process());
    let slru = WalRedoRequest {
        rel: RelishTag::Slru { slru: SlruKind::Clog, segno: 0 },
        blknum: 0,
        lsn: Lsn(0),
        base_img: None,
        records: Vec::new(),
    };
    assert!(slru.can_apply_in_process());
}
