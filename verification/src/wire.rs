//! Little-endian encoding of the integers that travel in device messages.
use vstd::prelude::*;

verus! {

/// The two little-endian bytes of `x`.
pub open spec fn le16(x: u16) -> Seq<u8> {
    seq![(x % 256) as u8, (x / 256) as u8]
}

/// The four little-endian bytes of `x`.
pub open spec fn le32(x: u32) -> Seq<u8> {
    seq![
        (x % 256) as u8,
        ((x / 256) % 256) as u8,
        ((x / 65536) % 256) as u8,
        (x / 16777216) as u8,
    ]
}

/// The eight little-endian bytes of `x`.
pub open spec fn le64(x: u64) -> Seq<u8> {
    le32((x % 4294967296) as u32) + le32((x / 4294967296) as u32)
}

/// The 16-bit number at `off` in `s`.
pub open spec fn u16_at(s: Seq<u8>, off: int) -> u16 {
    (s[off] + 256 * s[off + 1]) as u16
}

/// The 32-bit number at `off` in `s`.
pub open spec fn u32_at(s: Seq<u8>, off: int) -> u32 {
    (s[off] + 256 * s[off + 1] + 65536 * s[off + 2] + 16777216 * s[off + 3]) as u32
}

/// The 64-bit number at `off` in `s`.
pub open spec fn u64_at(s: Seq<u8>, off: int) -> u64 {
    (u32_at(s, off) + 4294967296 * u32_at(s, off + 4)) as u64
}

/// `n` zero bytes.
pub open spec fn zeros(n: nat) -> Seq<u8> {
    Seq::new(n, |i: int| 0u8)
}

/// The little-endian bytes of a list of 32-bit numbers, one after another.
pub open spec fn le32_list(xs: Seq<u32>) -> Seq<u8> {
    Seq::new(4 * xs.len(), |i: int| le32(xs[i / 4])[i % 4])
}

/// Reading back a 32-bit number gives what was written.
pub proof fn lemma_le32_round_trip(x: u32)
    ensures
        le32(x).len() == 4,
        u32_at(le32(x), 0) == x,
{
}

/// Reading back a 64-bit number gives what was written.
pub proof fn lemma_le64_round_trip(x: u64)
    ensures
        le64(x).len() == 8,
        u64_at(le64(x), 0) == x,
{
    let lo: u32 = (x % 4294967296) as u32;
    let hi: u32 = (x / 4294967296) as u32;
    lemma_le32_round_trip(lo);
    lemma_le32_round_trip(hi);
    assert(u32_at(le64(x), 0) == u32_at(le32(lo), 0));
    assert(u32_at(le64(x), 4) == u32_at(le32(hi), 0));
}

/// The number at `off` lies in the four bytes from there.
pub proof fn lemma_u32_at_subrange(b: Seq<u8>, off: int)
    requires
        0 <= off,
        off + 4 <= b.len(),
    ensures
        u32_at(b, off) == u32_at(b.subrange(off, off + 4), 0),
{
}

/// The number at `off` lies in the eight bytes from there.
pub proof fn lemma_u64_at_subrange(b: Seq<u8>, off: int)
    requires
        0 <= off,
        off + 8 <= b.len(),
    ensures
        u64_at(b, off) == u64_at(b.subrange(off, off + 8), 0),
{
}

/// Appends the bytes of `x`.
pub fn push_u16(out: &mut Vec<u8>, x: u16)
    ensures
        final(out)@ == old(out)@ + le16(x),
{
    out.push((x % 256) as u8);
    out.push((x / 256) as u8);
    assert(out@ =~= old(out)@ + le16(x));
}

/// Appends the bytes of `x`.
pub fn push_u32(out: &mut Vec<u8>, x: u32)
    ensures
        final(out)@ == old(out)@ + le32(x),
{
    out.push((x % 256) as u8);
    out.push(((x / 256) % 256) as u8);
    out.push(((x / 65536) % 256) as u8);
    out.push((x / 16777216) as u8);
    assert(out@ =~= old(out)@ + le32(x));
}

/// Appends the bytes of `x`.
pub fn push_u64(out: &mut Vec<u8>, x: u64)
    ensures
        final(out)@ == old(out)@ + le64(x),
{
    push_u32(out, (x % 4294967296) as u32);
    push_u32(out, (x / 4294967296) as u32);
    assert(out@ =~= old(out)@ + le64(x));
}

/// Appends `n` zero bytes.
pub fn push_zeros(out: &mut Vec<u8>, n: usize)
    ensures
        final(out)@ == old(out)@ + zeros(n as nat),
{
    let mut i: usize = 0;
    assert(out@ =~= old(out)@ + zeros(0));
    while i < n
        invariant
            i <= n,
            out@ == old(out)@ + zeros(i as nat),
        decreases n - i,
    {
        out.push(0);
        i = i + 1;
        assert(out@ =~= old(out)@ + zeros(i as nat));
    }
}

/// Appends `bytes`.
pub fn push_bytes(out: &mut Vec<u8>, bytes: &[u8])
    ensures
        final(out)@ == old(out)@ + bytes@,
{
    let mut i: usize = 0;
    assert(out@ =~= old(out)@ + bytes@.take(0));
    while i < bytes.len()
        invariant
            i <= bytes@.len(),
            out@ == old(out)@ + bytes@.take(i as int),
        decreases bytes@.len() - i,
    {
        out.push(bytes[i]);
        i = i + 1;
        assert(out@ =~= old(out)@ + bytes@.take(i as int));
    }
    assert(bytes@.take(i as int) =~= bytes@);
}

/// Appends the bytes of each number of `xs`.
pub fn push_u32_list(out: &mut Vec<u8>, xs: &[u32])
    ensures
        final(out)@ == old(out)@ + le32_list(xs@),
{
    let mut i: usize = 0;
    assert(out@ =~= old(out)@ + le32_list(xs@.take(0)));
    while i < xs.len()
        invariant
            i <= xs@.len(),
            out@ == old(out)@ + le32_list(xs@.take(i as int)),
        decreases xs@.len() - i,
    {
        push_u32(out, xs[i]);
        i = i + 1;
        assert(out@ =~= old(out)@ + le32_list(xs@.take(i as int)));
    }
    assert(xs@.take(i as int) =~= xs@);
}

/// Reads the 16-bit number at `off`.
pub fn read_u16(bytes: &[u8], off: usize) -> (x: u16)
    requires
        off + 2 <= bytes@.len(),
    ensures
        x == u16_at(bytes@, off as int),
{
    bytes[off] as u16 + 256 * (bytes[off + 1] as u16)
}

/// Reads the 32-bit number at `off`.
pub fn read_u32(bytes: &[u8], off: usize) -> (x: u32)
    requires
        off + 4 <= bytes@.len(),
    ensures
        x == u32_at(bytes@, off as int),
{
    bytes[off] as u32 + 256 * (bytes[off + 1] as u32) + 65536 * (bytes[off + 2] as u32) + 16777216
        * (bytes[off + 3] as u32)
}

/// Reads the 64-bit number at `off`.
pub fn read_u64(bytes: &[u8], off: usize) -> (x: u64)
    requires
        off + 8 <= bytes@.len(),
    ensures
        x == u64_at(bytes@, off as int),
{
    let len: usize = bytes.len();
    assert(off + 8 <= len);
    read_u32(bytes, off) as u64 + 4294967296 * (read_u32(bytes, off + 4) as u64)
}

/// Copies `n` bytes from `off`.
pub fn copy_bytes(bytes: &[u8], off: usize, n: usize) -> (out: Vec<u8>)
    requires
        off + n <= bytes@.len(),
    ensures
        out@ == bytes@.subrange(off as int, off + n),
{
    let len: usize = bytes.len();
    let mut out: Vec<u8> = Vec::new();
    let mut i: usize = 0;
    while i < n
        invariant
            i <= n,
            off + n <= len,
            len == bytes@.len(),
            out@ == bytes@.subrange(off as int, off + i),
        decreases n - i,
    {
        out.push(bytes[off + i]);
        i = i + 1;
        assert(out@ =~= bytes@.subrange(off as int, off + i));
    }
    out
}

/// The least byte of a number comes first, in what is written and in what is read.
pub proof fn least_byte_comes_first(x: u32, y: u64, s: Seq<u8>, off: int)
    ensures
        le32(x).len() == 4,
        le32(x)[0] + 0x100 * le32(x)[1] + 0x1_0000 * le32(x)[2] + 0x100_0000 * le32(x)[3] == x,
        le64(y).len() == 8,
        le64(y)[0] == y % 0x100,
        u32_at(le64(y), 0) == y % 0x1_0000_0000,
        u32_at(le64(y), 4) == y / 0x1_0000_0000,
        u16_at(s, off) == s[off] + 0x100 * s[off + 1],
        u32_at(s, off) == s[off] + 0x100 * s[off + 1] + 0x1_0000 * s[off + 2] + 0x100_0000 * s[off
            + 3],
        u64_at(s, off) == u32_at(s, off) + 0x1_0000_0000 * u32_at(s, off + 4),
{
    let lo: u32 = (y % 4294967296) as u32;
    let hi: u32 = (y / 4294967296) as u32;
    lemma_le32_round_trip(lo);
    lemma_le32_round_trip(hi);
    assert(u32_at(le64(y), 0) == u32_at(le32(lo), 0));
    assert(u32_at(le64(y), 4) == u32_at(le32(hi), 0));
}

/// A number of a list is read back where it was written.
pub proof fn listed_number_is_read_back(xs: Seq<u32>, i: int)
    requires
        0 <= i < xs.len(),
    ensures
        le32_list(xs).len() == 4 * xs.len(),
        u32_at(le32_list(xs), 4 * i) == xs[i],
{
    let l = le32_list(xs);
    lemma_le32_round_trip(xs[i]);
    assert(l[4 * i] == le32(xs[i])[0]);
    assert(l[4 * i + 1] == le32(xs[i])[1]);
    assert(l[4 * i + 2] == le32(xs[i])[2]);
    assert(l[4 * i + 3] == le32(xs[i])[3]);
}

} // verus!
