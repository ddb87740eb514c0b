//! The framed messages of the external-process protocol. Every message
//! is a tag byte followed by a big-endian 32-bit length that counts the
//! length field itself and everything after it, but not the tag byte.
//! Page identities travel as buffer tags: five little-endian 32-bit
//! fields. One redo transaction is `B`, an optional `P`, zero or more
//! `A`, then `G`; the child answers with a raw 8192-byte page.

use vstd::prelude::*;

use crate::page::BLCKSZ;
use crate::record::{Lsn, WalRecord};
use crate::relish::RelTag;

verus! {

/// `RelTag` plus block number: the identity of one page in the cluster,
/// as the external protocol addresses it.
#[derive(Debug, PartialEq, Eq, PartialOrd, Ord, Clone, Copy, Structural)]
pub struct BufferTag {
    pub rel: RelTag,
    pub blknum: u32,
}

/// The four little-endian bytes of a 32-bit value.
pub open spec fn le32_bytes(x: u32) -> Seq<u8> {
    seq![
        (x & 0xff) as u8,
        ((x >> 8) & 0xff) as u8,
        ((x >> 16) & 0xff) as u8,
        ((x >> 24) & 0xff) as u8,
    ]
}

/// The four big-endian bytes of a 32-bit value.
pub open spec fn be32_bytes(x: u32) -> Seq<u8> {
    seq![
        ((x >> 24) & 0xff) as u8,
        ((x >> 16) & 0xff) as u8,
        ((x >> 8) & 0xff) as u8,
        (x & 0xff) as u8,
    ]
}

/// The eight big-endian bytes of a 64-bit value.
pub open spec fn be64_bytes(x: u64) -> Seq<u8> {
    seq![
        ((x >> 56) & 0xff) as u8,
        ((x >> 48) & 0xff) as u8,
        ((x >> 40) & 0xff) as u8,
        ((x >> 32) & 0xff) as u8,
        ((x >> 24) & 0xff) as u8,
        ((x >> 16) & 0xff) as u8,
        ((x >> 8) & 0xff) as u8,
        (x & 0xff) as u8,
    ]
}

/// The 20 wire bytes of a buffer tag.
pub open spec fn buffer_tag_bytes(t: BufferTag) -> Seq<u8> {
    le32_bytes(t.rel.spcnode) + le32_bytes(t.rel.dbnode) + le32_bytes(t.rel.relnode) + le32_bytes(
        t.rel.forknum as u32,
    ) + le32_bytes(t.blknum)
}

/// The buffer tag encoded in 20 wire bytes, or `None` where the bytes
/// are no encoding: a wrong length, or a fork number outside one byte.
pub open spec fn buffer_tag_of_bytes(b: Seq<u8>) -> Option<BufferTag> {
    if b.len() == 20 && crate::page::read_le32_at(b, 12) < 256 {
        Some(
            BufferTag {
                rel: RelTag {
                    spcnode: crate::page::read_le32_at(b, 0),
                    dbnode: crate::page::read_le32_at(b, 4),
                    relnode: crate::page::read_le32_at(b, 8),
                    forknum: crate::page::read_le32_at(b, 12) as u8,
                },
                blknum: crate::page::read_le32_at(b, 16),
            },
        )
    } else {
        None
    }
}

/// Append the four little-endian bytes of `x`.
fn push_le32(buf: &mut Vec<u8>, x: u32)
    ensures
        final(buf)@ == old(buf)@ + le32_bytes(x),
{
    buf.push(#[verifier::truncate] ((x & 0xff) as u8));
    buf.push(#[verifier::truncate] (((x >> 8) & 0xff) as u8));
    buf.push(#[verifier::truncate] (((x >> 16) & 0xff) as u8));
    buf.push(#[verifier::truncate] (((x >> 24) & 0xff) as u8));
    proof {
        assert(buf@ =~= old(buf)@ + le32_bytes(x));
    }
}

/// Append the four big-endian bytes of `x`.
fn push_be32(buf: &mut Vec<u8>, x: u32)
    ensures
        final(buf)@ == old(buf)@ + be32_bytes(x),
{
    buf.push(#[verifier::truncate] (((x >> 24) & 0xff) as u8));
    buf.push(#[verifier::truncate] (((x >> 16) & 0xff) as u8));
    buf.push(#[verifier::truncate] (((x >> 8) & 0xff) as u8));
    buf.push(#[verifier::truncate] ((x & 0xff) as u8));
    proof {
        assert(buf@ =~= old(buf)@ + be32_bytes(x));
    }
}

/// Append the eight big-endian bytes of `x`.
fn push_be64(buf: &mut Vec<u8>, x: u64)
    ensures
        final(buf)@ == old(buf)@ + be64_bytes(x),
{
    buf.push(#[verifier::truncate] (((x >> 56) & 0xff) as u8));
    buf.push(#[verifier::truncate] (((x >> 48) & 0xff) as u8));
    buf.push(#[verifier::truncate] (((x >> 40) & 0xff) as u8));
    buf.push(#[verifier::truncate] (((x >> 32) & 0xff) as u8));
    buf.push(#[verifier::truncate] (((x >> 24) & 0xff) as u8));
    buf.push(#[verifier::truncate] (((x >> 16) & 0xff) as u8));
    buf.push(#[verifier::truncate] (((x >> 8) & 0xff) as u8));
    buf.push(#[verifier::truncate] ((x & 0xff) as u8));
    proof {
        assert(buf@ =~= old(buf)@ + be64_bytes(x));
    }
}

/// Append every byte of `src`.
fn push_bytes(buf: &mut Vec<u8>, src: &Vec<u8>)
    ensures
        final(buf)@ == old(buf)@ + src@,
{
    let n = src.len();
    let mut i: usize = 0;
    while i < n
        invariant
            i <= n,
            n == src@.len(),
            buf@ =~= old(buf)@ + src@.take(i as int),
        decreases n - i,
    {
        buf.push(src[i]);
        i = i + 1;
    }
    proof {
        assert(buf@ =~= old(buf)@ + src@);
    }
}

impl BufferTag {
    /// Append the canonical 20-byte wire encoding of this tag.
    pub fn ser_into(&self, buf: &mut Vec<u8>)
        ensures
            final(buf)@ == old(buf)@ + buffer_tag_bytes(*self),
    {
        push_le32(buf, self.rel.spcnode);
        push_le32(buf, self.rel.dbnode);
        push_le32(buf, self.rel.relnode);
        push_le32(buf, self.rel.forknum as u32);
        push_le32(buf, self.blknum);
        proof {
            assert(buf@ =~= old(buf)@ + buffer_tag_bytes(*self));
        }
    }

    /// Decode a tag from its 20 wire bytes.
    pub fn des(buf: &Vec<u8>) -> (r: Option<BufferTag>)
        ensures
            r == buffer_tag_of_bytes(buf@),
    {
        if buf.len() != 20 {
            return None;
        }
        let spcnode = crate::page::get_le32(buf, 0);
        let dbnode = crate::page::get_le32(buf, 4);
        let relnode = crate::page::get_le32(buf, 8);
        let forknum = crate::page::get_le32(buf, 12);
        let blknum = crate::page::get_le32(buf, 16);
        if forknum >= 256 {
            return None;
        }
        Some(
            BufferTag {
                rel: RelTag { spcnode, dbnode, relnode, forknum: forknum as u8 },
                blknum,
            },
        )
    }
}

/// Decoding the encoding of any tag yields the tag again.
pub proof fn lemma_buffer_tag_roundtrip(t: BufferTag)
    ensures
        buffer_tag_of_bytes(buffer_tag_bytes(t)) == Some(t),
{
    let b = buffer_tag_bytes(t);
    assert(b.len() == 20);
    lemma_le32_bytes_read(t.rel.spcnode);
    assert(crate::page::read_le32_at(b, 0) == t.rel.spcnode);
    lemma_le32_bytes_read(t.rel.dbnode);
    assert(crate::page::read_le32_at(b, 4) == t.rel.dbnode);
    lemma_le32_bytes_read(t.rel.relnode);
    assert(crate::page::read_le32_at(b, 8) == t.rel.relnode);
    lemma_le32_bytes_read(t.rel.forknum as u32);
    assert(crate::page::read_le32_at(b, 12) == t.rel.forknum as u32);
    lemma_le32_bytes_read(t.blknum);
    assert(crate::page::read_le32_at(b, 16) == t.blknum);
    assert((t.rel.forknum as u32) < 256);
}

/// Recombining the four little-endian bytes of `x` yields `x`.
proof fn lemma_le32_bytes_read(x: u32)
    ensures
        crate::page::le32(
            (x & 0xff) as u8,
            ((x >> 8) & 0xff) as u8,
            ((x >> 16) & 0xff) as u8,
            ((x >> 24) & 0xff) as u8,
        ) == x,
{
    crate::page::lemma_le32_roundtrip(x);
}

// Protocol message tags, as ASCII bytes.
/// `B`
pub const MSG_BEGIN_REDO: u8 = 0x42;

/// `P`
pub const MSG_PUSH_PAGE: u8 = 0x50;

/// `A`
pub const MSG_APPLY_RECORD: u8 = 0x41;

/// `G`
pub const MSG_GET_PAGE: u8 = 0x47;

/// The `B` message: begin redo for one block.
pub open spec fn begin_redo_msg_bytes(tag: BufferTag) -> Seq<u8> {
    seq![MSG_BEGIN_REDO] + be32_bytes(24) + buffer_tag_bytes(tag)
}

/// The `P` message: push the base page image.
pub open spec fn push_page_msg_bytes(tag: BufferTag, base_img: Seq<u8>) -> Seq<u8> {
    seq![MSG_PUSH_PAGE] + be32_bytes((24 + BLCKSZ) as u32) + buffer_tag_bytes(tag) + base_img
}

/// The `A` message: apply one raw WAL record ending at `endlsn`.
pub open spec fn apply_record_msg_bytes(endlsn: Lsn, rec: Seq<u8>) -> Seq<u8> {
    seq![MSG_APPLY_RECORD] + be32_bytes((12 + rec.len()) as u32) + be64_bytes(endlsn.0) + rec
}

/// The `G` message: request the resulting page image.
pub open spec fn get_page_msg_bytes(tag: BufferTag) -> Seq<u8> {
    seq![MSG_GET_PAGE] + be32_bytes(24) + buffer_tag_bytes(tag)
}

/// Append a `B` message.
pub fn build_begin_redo_for_block_msg(tag: BufferTag, buf: &mut Vec<u8>)
    ensures
        final(buf)@ == old(buf)@ + begin_redo_msg_bytes(tag),
{
    let len: u32 = 4 + 20;
    buf.push(MSG_BEGIN_REDO);
    push_be32(buf, len);
    tag.ser_into(buf);
    proof {
        assert(buf@ =~= old(buf)@ + begin_redo_msg_bytes(tag));
    }
}

/// Append a `P` message carrying the 8192-byte base image.
pub fn build_push_page_msg(tag: BufferTag, base_img: &Vec<u8>, buf: &mut Vec<u8>)
    requires
        base_img@.len() == BLCKSZ,
    ensures
        final(buf)@ == old(buf)@ + push_page_msg_bytes(tag, base_img@),
{
    let len: u32 = 4 + 20 + 8192;
    buf.push(MSG_PUSH_PAGE);
    push_be32(buf, len);
    tag.ser_into(buf);
    push_bytes(buf, base_img);
    proof {
        assert(buf@ =~= old(buf)@ + push_page_msg_bytes(tag, base_img@));
    }
}

/// Append an `A` message carrying one raw record.
pub fn build_apply_record_msg(endlsn: Lsn, rec: &Vec<u8>, buf: &mut Vec<u8>)
    requires
        12 + rec@.len() <= u32::MAX,
    ensures
        final(buf)@ == old(buf)@ + apply_record_msg_bytes(endlsn, rec@),
{
    let len: u32 = 4 + 8 + (rec.len() as u32);
    buf.push(MSG_APPLY_RECORD);
    push_be32(buf, len);
    push_be64(buf, endlsn.0);
    push_bytes(buf, rec);
    proof {
        assert(buf@ =~= old(buf)@ + apply_record_msg_bytes(endlsn, rec@));
    }
}

/// Append a `G` message.
pub fn build_get_page_msg(tag: BufferTag, buf: &mut Vec<u8>)
    ensures
        final(buf)@ == old(buf)@ + get_page_msg_bytes(tag),
{
    let len: u32 = 4 + 20;
    buf.push(MSG_GET_PAGE);
    push_be32(buf, len);
    tag.ser_into(buf);
    proof {
        assert(buf@ =~= old(buf)@ + get_page_msg_bytes(tag));
    }
}

/// The `A` messages of the first `n` records, in order.
pub open spec fn apply_record_msgs_bytes(records: Seq<(Lsn, WalRecord)>, n: nat) -> Seq<u8>
    decreases n,
{
    if n == 0 {
        Seq::empty()
    } else {
        apply_record_msgs_bytes(records, (n - 1) as nat) + apply_record_msg_bytes(
            records[n - 1].0,
            records[n - 1].1.rec@,
        )
    }
}

/// Every record's `A` message fits the 32-bit length field.
pub open spec fn wf_wire_records(records: Seq<(Lsn, WalRecord)>) -> bool {
    forall|i: int| 0 <= i < records.len() ==> 12 + (#[trigger] records[i]).1.rec@.len() <= u32::MAX
}

/// The complete outgoing byte stream of one redo transaction: `B`, the
/// optional `P`, one `A` per record, then `G`.
pub open spec fn transaction_bytes(
    tag: BufferTag,
    base: Option<Seq<u8>>,
    records: Seq<(Lsn, WalRecord)>,
) -> Seq<u8> {
    begin_redo_msg_bytes(tag) + (match base {
        Some(img) => push_page_msg_bytes(tag, img),
        None => Seq::empty(),
    }) + apply_record_msgs_bytes(records, records.len()) + get_page_msg_bytes(tag)
}

/// Assemble the outgoing byte stream of one redo transaction.
pub fn build_transaction_buf(
    tag: BufferTag,
    base_img: &Option<Vec<u8>>,
    records: &Vec<(Lsn, WalRecord)>,
) -> (buf: Vec<u8>)
    requires
        (base_img matches Some(b) ==> b@.len() == BLCKSZ),
        wf_wire_records(records@),
    ensures
        buf@ == transaction_bytes(tag, crate::page::base_view(base_img), records@),
{
    let mut buf: Vec<u8> = Vec::new();
    build_begin_redo_for_block_msg(tag, &mut buf);
    match base_img {
        Some(img) => {
            build_push_page_msg(tag, img, &mut buf);
        },
        None => {},
    }
    let ghost head = buf@;
    let n = records.len();
    let mut i: usize = 0;
    while i < n
        invariant
            i <= n,
            n == records@.len(),
            wf_wire_records(records@),
            buf@ == head + apply_record_msgs_bytes(records@, i as nat),
        decreases n - i,
    {
        let pair = &records[i];
        build_apply_record_msg(pair.0, &pair.1.rec, &mut buf);
        i = i + 1;
    }
    build_get_page_msg(tag, &mut buf);
    proof {
        assert(buf@ =~= transaction_bytes(tag, crate::page::base_view(base_img), records@));
    }
    buf
}

} // verus!
