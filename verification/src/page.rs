//! The page model: fixed 8192-byte buffers and little-endian 32-bit
//! accesses into them. SLRU page contents are little-endian on disk
//! regardless of the host, so the byte order is spelled out here.

use vstd::prelude::*;

verus! {

/// Size of one page, in bytes.
pub const BLCKSZ: usize = 8192;

/// The all-zero page, the starting point of redo when no base image is given.
pub open spec fn zero_page() -> Seq<u8> {
    Seq::new(BLCKSZ as nat, |i: int| 0u8)
}

/// The value of four bytes read as a little-endian 32-bit integer.
pub open spec fn le32(b0: u8, b1: u8, b2: u8, b3: u8) -> u32 {
    (b0 as u32) | ((b1 as u32) << 8) | ((b2 as u32) << 16) | ((b3 as u32) << 24)
}

/// A little-endian 32-bit read at byte offset `off`.
pub open spec fn read_le32_at(page: Seq<u8>, off: int) -> u32 {
    le32(page[off], page[off + 1], page[off + 2], page[off + 3])
}

/// The page with the little-endian encoding of `x` in bytes `off .. off + 4`
/// and every other byte unchanged.
pub open spec fn write_le32_at(page: Seq<u8>, off: int, x: u32) -> Seq<u8> {
    page.update(off, (x & 0xff) as u8)
        .update(off + 1, ((x >> 8) & 0xff) as u8)
        .update(off + 2, ((x >> 16) & 0xff) as u8)
        .update(off + 3, ((x >> 24) & 0xff) as u8)
}

/// Reading back the four bytes written for `x` yields `x` again.
pub proof fn lemma_le32_roundtrip(x: u32)
    ensures
        le32((x & 0xff) as u8, ((x >> 8) & 0xff) as u8, ((x >> 16) & 0xff) as u8, (
        (x >> 24) & 0xff) as u8) == x,
{
    assert(((x & 0xff) as u8 as u32) | (((x >> 8) & 0xff) as u8 as u32) << 8 | (((x >> 16)
        & 0xff) as u8 as u32) << 16 | (((x >> 24) & 0xff) as u8 as u32) << 24 == x)
        by (bit_vector);
}

/// Writing at `off` touches no byte outside `off .. off + 4`.
pub proof fn lemma_write_le32_frame(page: Seq<u8>, off: int, x: u32, j: int)
    requires
        0 <= off,
        off + 4 <= page.len(),
        0 <= j < page.len(),
        !(off <= j < off + 4),
    ensures
        write_le32_at(page, off, x)[j] == page[j],
{
}

/// Reading at `off` after writing `x` at `off` yields `x`.
pub proof fn lemma_write_le32_read(page: Seq<u8>, off: int, x: u32)
    requires
        0 <= off,
        off + 4 <= page.len(),
    ensures
        read_le32_at(write_le32_at(page, off, x), off) == x,
{
    lemma_le32_roundtrip(x);
}

/// Little-endian 32-bit read from a page buffer.
pub fn get_le32(page: &Vec<u8>, off: usize) -> (r: u32)
    requires
        off + 4 <= page@.len(),
    ensures
        r == read_le32_at(page@, off as int),
{
    let n = page.len();
    let b0 = page[off];
    let b1 = page[off + 1];
    let b2 = page[off + 2];
    let b3 = page[off + 3];
    (b0 as u32) | ((b1 as u32) << 8) | ((b2 as u32) << 16) | ((b3 as u32) << 24)
}

/// Little-endian 32-bit write into a page buffer.
pub fn put_le32(page: &mut Vec<u8>, off: usize, x: u32)
    requires
        off + 4 <= old(page)@.len(),
    ensures
        final(page)@ == write_le32_at(old(page)@, off as int, x),
{
    let n = page.len();
    page.set(off, #[verifier::truncate] ((x & 0xff) as u8));
    page.set(off + 1, #[verifier::truncate] (((x >> 8) & 0xff) as u8));
    page.set(off + 2, #[verifier::truncate] (((x >> 16) & 0xff) as u8));
    page.set(off + 3, #[verifier::truncate] (((x >> 24) & 0xff) as u8));
}

/// The views of an optional base image.
pub open spec fn base_view(base: &Option<Vec<u8>>) -> Option<Seq<u8>> {
    match base {
        Some(b) => Some(b@),
        None => None,
    }
}

/// The page redo starts from: the base image when one is given, the
/// all-zero page otherwise.
pub open spec fn initial_page(base: Option<Seq<u8>>) -> Seq<u8> {
    match base {
        Some(b) => b,
        None => zero_page(),
    }
}

/// A byte-for-byte copy of a page buffer.
pub fn copy_page(src: &Vec<u8>) -> (r: Vec<u8>)
    ensures
        r@ == src@,
{
    let mut v: Vec<u8> = Vec::new();
    let n = src.len();
    let mut i: usize = 0;
    while i < n
        invariant
            i <= n,
            n == src@.len(),
            v@ =~= src@.take(i as int),
        decreases n - i,
    {
        v.push(src[i]);
        i = i + 1;
    }
    proof {
        assert(v@ =~= src@);
    }
    v
}

/// A fresh all-zero page buffer.
pub fn zeroed_page() -> (r: Vec<u8>)
    ensures
        r@ == zero_page(),
{
    let mut v: Vec<u8> = Vec::new();
    let mut i: usize = 0;
    while i < BLCKSZ
        invariant
            i <= BLCKSZ,
            v@.len() == i,
            forall|j: int| 0 <= j < i ==> v@[j] == 0u8,
        decreases BLCKSZ - i,
    {
        v.push(0u8);
        i = i + 1;
    }
    proof {
        assert(v@ =~= zero_page());
    }
    v
}

} // verus!
