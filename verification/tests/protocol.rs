//! Checks of the external-process protocol: the wire layout of each
//! message, the buffer-tag round trip, and the decisions of the pipe
//! loop driving one transaction.

use walredo::codec::{
    build_apply_record_msg, build_begin_redo_for_block_msg, build_get_page_msg,
    build_push_page_msg, BufferTag,
};
use walredo::manager::WalRedoError;
use walredo::record::{Lsn, ParsedRecord, WalRecord};
use walredo::relish::RelTag;
use walredo::session::{
    IoErrorCause, PipeId, PollDecision, PollOutcome, RedoTransaction, StdinDecision,
    StdoutDecision, TIMEOUT_MS,
};

fn sample_tag() -> BufferTag {
    BufferTag {
        rel: RelTag { forknum: 1, spcnode: 0x01020304, dbnode: 0x05060708, relnode: 0x090A0B0C },
        blknum: 0x0D0E0F10,
    }
}

fn sample_record() -> (Lsn, WalRecord) {
    (
        Lsn(0x1122334455667788),
        WalRecord { rec: vec![0x99, 0x88, 0x77], parsed: ParsedRecord::Other },
    )
}

fn quiet_poll() -> PollOutcome {
    PollOutcome {
        timeout: false,
        stdout_ready: false,
        stdout_hup: false,
        stderr_ready: false,
        stderr_hup: false,
        stdin_ready: false,
        stdin_hup: false,
    }
}

#[test]
fn buffer_tag_roundtrip() {
    let t = sample_tag();
    let mut buf = Vec::new();
    t.ser_into(&mut buf);
    assert_eq!(buf.len(), 20);
    assert_eq!(BufferTag::des(&buf), Some(t));
}

#[test]
fn buffer_tag_wire_layout() {
    let t = sample_tag();
    let mut buf = Vec::new();
    t.ser_into(&mut buf);
    // Five little-endian fields: spcNode, dbNode, relNode, forkNumber, blockNumber.
    assert_eq!(
        buf,
        vec![
            0x04, 0x03, 0x02, 0x01, //
            0x08, 0x07, 0x06, 0x05, //
            0x0C, 0x0B, 0x0A, 0x09, //
            0x01, 0x00, 0x00, 0x00, //
            0x10, 0x0F, 0x0E, 0x0D,
        ]
    );
}

#[test]
fn buffer_tag_des_rejects_bad_input() {
    assert_eq!(BufferTag::des(&vec![0u8; 19]), None);
    // A forkNumber field that does not fit one byte is no encoding.
    let mut buf = Vec::new();
    sample_tag().ser_into(&mut buf);
    buf[13] = 0x01;
    assert_eq!(BufferTag::des(&buf), None);
}

#[test]
fn begin_msg_layout() {
    let t = sample_tag();
    let mut buf = Vec::new();
    build_begin_redo_for_block_msg(t, &mut buf);
    assert_eq!(buf.len(), 25);
    assert_eq!(buf[0], b'B');
    assert_eq!(&buf[1..5], &[0, 0, 0, 24]);
    let mut tag_bytes = Vec::new();
    t.ser_into(&mut tag_bytes);
    assert_eq!(&buf[5..25], tag_bytes.as_slice());
}

#[test]
fn get_page_msg_layout() {
    let t = sample_tag();
    let mut buf = Vec::new();
    build_get_page_msg(t, &mut buf);
    assert_eq!(buf.len(), 25);
    assert_eq!(buf[0], b'G');
    assert_eq!(&buf[1..5], &[0, 0, 0, 24]);
}

#[test]
fn push_page_msg_layout() {
    let t = sample_tag();
    let img = vec![0x11u8; 8192];
    let mut buf = Vec::new();
    build_push_page_msg(t, &img, &mut buf);
    assert_eq!(buf.len(), 1 + 4 + 20 + 8192);
    assert_eq!(buf[0], b'P');
    // Length 8216, big-endian.
    assert_eq!(&buf[1..5], &[0x00, 0x00, 0x20, 0x18]);
    assert_eq!(&buf[25..], img.as_slice());
}

#[test]
fn apply_record_msg_layout() {
    let (lsn, rec) = sample_record();
    let mut buf = Vec::new();
    build_apply_record_msg(lsn, &rec.rec, &mut buf);
    assert_eq!(buf[0], b'A');
    // Length 4 + 8 + 3 = 15, big-endian.
    assert_eq!(&buf[1..5], &[0, 0, 0, 15]);
    // The record's end position, big-endian.
    assert_eq!(
        &buf[5..13],
        &[0x11, 0x22, 0x33, 0x44, 0x55, 0x66, 0x77, 0x88]
    );
    assert_eq!(&buf[13..], &[0x99, 0x88, 0x77]);
}

#[test]
fn transaction_stream_shape() {
    let t = sample_tag();
    let img = vec![0x11u8; 8192];
    let (lsn, rec) = sample_record();
    let tx = RedoTransaction::new(t, &Some(img.clone()), &vec![(lsn, rec.clone())]);

    let mut expected = Vec::new();
    build_begin_redo_for_block_msg(t, &mut expected);
    build_push_page_msg(t, &img, &mut expected);
    build_apply_record_msg(lsn, &rec.rec, &mut expected);
    build_get_page_msg(t, &mut expected);
    assert_eq!(tx.writebuf, expected);
    assert_eq!(tx.nwrite, 0);
    assert_eq!(tx.nresult, 0);
}

#[test]
fn transaction_without_base_has_no_push_page() {
    let t = sample_tag();
    let tx = RedoTransaction::new(t, &None, &Vec::new());
    let mut expected = Vec::new();
    build_begin_redo_for_block_msg(t, &mut expected);
    build_get_page_msg(t, &mut expected);
    assert_eq!(tx.writebuf, expected);
}

#[test]
fn session_echo_roundtrip() {
    // A child that answers the pushed base image verbatim: after the
    // outgoing bytes are written and 8192 bytes have been read back, the
    // transaction is done and yields the echoed page.
    let img = vec![0x11u8; 8192];
    let mut tx = RedoTransaction::new(sample_tag(), &Some(img.clone()), &vec![sample_record()]);

    let total = tx.writebuf.len();
    assert!(tx.wants_write());
    tx.note_wrote(total - 10);
    assert!(tx.wants_write());
    tx.note_wrote(10);
    assert!(!tx.wants_write());

    assert!(!tx.done());
    tx.note_read(&img[..8000].to_vec());
    assert!(!tx.done());
    tx.note_read(&img[8000..].to_vec());
    assert!(tx.done());
    assert_eq!(tx.into_page(), img);
}

#[test]
fn session_timeout_decision() {
    let tx = RedoTransaction::new(sample_tag(), &None, &Vec::new());
    let ev = PollOutcome { timeout: true, ..quiet_poll() };
    assert_eq!(
        tx.poll_decision(&ev),
        PollDecision::Fail(IoErrorCause::Timeout)
    );
    assert_eq!(TIMEOUT_MS, 20000);
    assert_eq!(
        WalRedoError::IoError(IoErrorCause::Timeout).message(),
        "WAL redo timed out"
    );
}

#[test]
fn session_stdout_hup_is_broken_pipe() {
    // The child closed stdout after fewer than 8192 bytes.
    let mut tx = RedoTransaction::new(sample_tag(), &None, &Vec::new());
    tx.note_read(&vec![0u8; 100]);
    assert!(!tx.done());
    let ev = PollOutcome { stdout_hup: true, ..quiet_poll() };
    assert_eq!(
        tx.stdout_decision(&ev),
        StdoutDecision::Fail(IoErrorCause::BrokenPipe(PipeId::Stdout))
    );
    assert_eq!(
        WalRedoError::IoError(IoErrorCause::BrokenPipe(PipeId::Stdout)).message(),
        "WAL redo process closed its stdout unexpectedly"
    );
}

#[test]
fn session_stderr_has_priority() {
    let tx = RedoTransaction::new(sample_tag(), &None, &Vec::new());
    let ev = PollOutcome { stderr_ready: true, stdout_ready: true, ..quiet_poll() };
    assert_eq!(tx.poll_decision(&ev), PollDecision::DrainStderr);
}

#[test]
fn session_stderr_hup_is_broken_pipe() {
    let tx = RedoTransaction::new(sample_tag(), &None, &Vec::new());
    let ev = PollOutcome { stderr_hup: true, ..quiet_poll() };
    assert_eq!(
        tx.poll_decision(&ev),
        PollDecision::Fail(IoErrorCause::BrokenPipe(PipeId::Stderr))
    );
}

#[test]
fn session_stdin_decisions() {
    let mut tx = RedoTransaction::new(sample_tag(), &None, &Vec::new());
    let hup = PollOutcome { stdin_hup: true, ..quiet_poll() };
    // With bytes still unwritten, a hung-up stdin is a failure.
    assert_eq!(
        tx.stdin_decision(&hup),
        StdinDecision::Fail(IoErrorCause::BrokenPipe(PipeId::Stdin))
    );
    let writable = PollOutcome { stdin_ready: true, ..quiet_poll() };
    assert_eq!(tx.stdin_decision(&writable), StdinDecision::Write);
    // Once everything is written, stdin is left alone.
    let total = tx.writebuf.len();
    tx.note_wrote(total);
    assert_eq!(tx.stdin_decision(&hup), StdinDecision::Idle);
    assert_eq!(tx.stdin_decision(&writable), StdinDecision::Idle);
}

#[test]
fn session_quiet_cycle_proceeds() {
    let tx = RedoTransaction::new(sample_tag(), &None, &Vec::new());
    let ev = quiet_poll();
    assert_eq!(tx.poll_decision(&ev), PollDecision::HandleStreams);
    assert_eq!(tx.stdout_decision(&ev), StdoutDecision::Idle);
    let ready = PollOutcome { stdout_ready: true, ..quiet_poll() };
    assert_eq!(tx.stdout_decision(&ready), StdoutDecision::Read);
}
