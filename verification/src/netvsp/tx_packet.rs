//! RNDIS packet messages, with which the guest sends Ethernet frames.
use crate::netvsp::error::WorkerError;
use crate::netvsp::packet::{GuestRun, PacketRange};
use crate::netvsp::stats::QueueStats;
use crate::wire::{copy_bytes, push_bytes, read_u32, u32_at};
use vstd::prelude::*;

verus! {

/// Per-packet information about checksums.
pub const PPI_TCP_IP_CHECKSUM: u32 = 0;

/// Per-packet information about TCP segmentation.
pub const PPI_LSO: u32 = 2;

/// The guest memory that holds RNDIS messages.
#[derive(Debug)]
pub struct PacketMemory {
    /// The bytes.
    pub bytes: Vec<u8>,
    /// Where the paged ranges end. Headers do not cross such an end.
    pub range_ends: Vec<usize>,
    /// Where the bytes lie.
    pub runs: Vec<GuestRun>,
}

/// The byte length of runs.
pub open spec fn runs_len(runs: Seq<GuestRun>) -> int
    decreases runs.len(),
{
    if runs.len() == 0 {
        0
    } else {
        runs_len(runs.drop_last()) + runs.last().len
    }
}

impl PacketRange {
    /// The runs cover the bytes and end within the address space.
    pub open spec fn wf(self) -> bool {
        &&& runs_len(self.runs@) == self.bytes@.len()
        &&& forall|i: int|
            0 <= i < self.runs@.len() ==> ((#[trigger] self.runs@[i]).gpa matches Some(gpa) ==> gpa
                + self.runs@[i].len <= u64::MAX)
    }
}

/// All bytes of ranges.
pub open spec fn all_bytes(ranges: Seq<PacketRange>) -> Seq<u8>
    decreases ranges.len(),
{
    if ranges.len() == 0 {
        Seq::empty()
    } else {
        all_bytes(ranges.drop_last()) + ranges.last().bytes@
    }
}

/// All runs of ranges.
pub open spec fn all_runs(ranges: Seq<PacketRange>) -> Seq<GuestRun>
    decreases ranges.len(),
{
    if ranges.len() == 0 {
        Seq::empty()
    } else {
        all_runs(ranges.drop_last()) + ranges.last().runs@
    }
}

impl PacketMemory {
    /// The runs cover the bytes and end within the address space, and the last
    /// range ends with the last byte.
    pub open spec fn wf(&self) -> bool {
        &&& runs_len(self.runs@) == self.bytes@.len()
        &&& forall|i: int|
            0 <= i < self.runs@.len() ==> ((#[trigger] self.runs@[i]).gpa matches Some(gpa) ==> gpa
                + self.runs@[i].len <= u64::MAX)
        &&& forall|i: int|
            0 <= i < self.range_ends@.len() ==> #[trigger] self.range_ends@[i] <= self.bytes@.len()
        &&& self.bytes@.len() > 0 ==> self.range_ends@.len() > 0 && self.range_ends@.last()
            == self.bytes@.len()
    }

    /// Joins ranges.
    pub fn new(ranges: &Vec<PacketRange>) -> (m: PacketMemory)
        requires
            all_bytes(ranges@).len() <= usize::MAX,
            forall|i: int| 0 <= i < ranges@.len() ==> (#[trigger] ranges@[i]).wf(),
        ensures
            m.wf(),
            m.bytes@ == all_bytes(ranges@),
            m.runs@ == all_runs(ranges@),
            m.range_ends@ == Seq::new(
                ranges@.len(),
                |i: int| all_bytes(ranges@.take(i + 1)).len() as usize,
            ),
    {
        let mut bytes: Vec<u8> = Vec::new();
        let mut runs: Vec<GuestRun> = Vec::new();
        let mut range_ends: Vec<usize> = Vec::new();
        let mut i: usize = 0;
        assert(ranges@.take(0) =~= Seq::empty());
        while i < ranges.len()
            invariant
                i <= ranges@.len(),
                forall|k: int| 0 <= k < ranges@.len() ==> (#[trigger] ranges@[k]).wf(),
                bytes@ == all_bytes(ranges@.take(i as int)),
                runs@ == all_runs(ranges@.take(i as int)),
                runs_len(runs@) == bytes@.len(),
                range_ends@ == Seq::new(
                    i as nat,
                    |k: int| all_bytes(ranges@.take(k + 1)).len() as usize,
                ),
                i > 0 ==> range_ends@.last() == bytes@.len(),
                forall|k: int|
                    0 <= k < range_ends@.len() ==> #[trigger] range_ends@[k] <= bytes@.len(),
                i == 0 ==> bytes@.len() == 0,
                forall|k: int|
                    0 <= k < runs@.len() ==> ((#[trigger] runs@[k]).gpa matches Some(gpa) ==> gpa
                        + runs@[k].len <= u64::MAX),
            decreases ranges@.len() - i,
        {
            let range = &ranges[i];
            assert(ranges@[i as int].wf());
            assert(ranges@.take(i + 1).drop_last() =~= ranges@.take(i as int));
            assert(ranges@.take(i + 1).last() == *range);
            let ghost before_runs = runs@;
            push_bytes(&mut bytes, range.bytes.as_slice());
            append_runs(&mut runs, &range.runs);
            proof {
                lemma_runs_len_append(before_runs, range.runs@);
                assert forall|k: int| 0 <= k < runs@.len() implies ((#[trigger] runs@[k]).gpa matches Some(
                    gpa,
                ) ==> gpa + runs@[k].len <= u64::MAX) by {
                    if k >= before_runs.len() {
                        assert(runs@[k] == range.runs@[k - before_runs.len()]);
                    } else {
                        assert(runs@[k] == before_runs[k]);
                    }
                }
            }
            range_ends.push(bytes.len());
            i = i + 1;
            assert(range_ends@ =~= Seq::new(
                i as nat,
                |k: int| all_bytes(ranges@.take(k + 1)).len() as usize,
            ));
        }
        assert(ranges@.take(i as int) =~= ranges@);
        PacketMemory { bytes, range_ends, runs }
    }
}

fn append_runs(out: &mut Vec<GuestRun>, more: &Vec<GuestRun>)
    ensures
        final(out)@ == old(out)@ + more@,
{
    let mut i: usize = 0;
    assert(out@ =~= old(out)@ + more@.take(0));
    while i < more.len()
        invariant
            i <= more@.len(),
            out@ == old(out)@ + more@.take(i as int),
        decreases more@.len() - i,
    {
        out.push(more[i]);
        i = i + 1;
        assert(out@ =~= old(out)@ + more@.take(i as int));
    }
    assert(more@.take(i as int) =~= more@);
}

proof fn lemma_runs_len_append(a: Seq<GuestRun>, b: Seq<GuestRun>)
    ensures
        runs_len(a + b) == runs_len(a) + runs_len(b),
    decreases b.len(),
{
    if b.len() == 0 {
        assert(a + b =~= a);
    } else {
        assert((a + b).drop_last() =~= a + b.drop_last());
        lemma_runs_len_append(a, b.drop_last());
    }
}

/// Layer 3 protocol.
#[derive(Debug, Clone, Copy, PartialEq, Eq, Structural)]
pub enum L3Protocol {
    /// Unknown.
    Unknown,
    /// IPv4.
    Ipv4,
    /// IPv6.
    Ipv6,
}

/// What the endpoint has to know about a frame.
#[derive(Debug, Clone, Copy, PartialEq, Eq, Structural)]
pub struct TxMetadata {
    /// The slot of the RNDIS packet.
    pub id: u32,
    /// The number of segments.
    pub segment_count: usize,
    /// The length of the frame.
    pub len: usize,
    /// The endpoint computes the IPv4 header checksum.
    pub offload_ip_header_checksum: bool,
    /// The endpoint computes the TCP checksum.
    pub offload_tcp_checksum: bool,
    /// The endpoint computes the UDP checksum.
    pub offload_udp_checksum: bool,
    /// The endpoint cuts the frame into TCP segments.
    pub offload_tcp_segmentation: bool,
    /// The layer 3 protocol.
    pub l3_protocol: L3Protocol,
    /// The length of the Ethernet header.
    pub l2_len: u8,
    /// The length of the IP header.
    pub l3_len: u16,
    /// The length of the TCP header.
    pub l4_len: u8,
    /// The largest TCP segment.
    pub max_tcp_segment_size: u16,
}

/// Whether a segment starts a frame.
#[derive(Debug, Clone, Copy, PartialEq, Eq, Structural)]
pub enum TxSegmentType {
    /// It does.
    Head(TxMetadata),
    /// It continues one.
    Tail,
}

/// A piece of a frame in guest memory.
#[derive(Debug, Clone, Copy, PartialEq, Eq, Structural)]
pub struct TxSegment {
    /// Whether it starts a frame.
    pub ty: TxSegmentType,
    /// Its address.
    pub gpa: u64,
    /// Its length.
    pub len: u32,
}

impl TxMetadata {
    /// A frame of `len` bytes without offloads.
    pub open spec fn plain(id: u32, len: usize) -> TxMetadata {
        TxMetadata {
            id,
            segment_count: 0,
            len,
            offload_ip_header_checksum: false,
            offload_tcp_checksum: false,
            offload_udp_checksum: false,
            offload_tcp_segmentation: false,
            l3_protocol: L3Protocol::Unknown,
            l2_len: 0,
            l3_len: 0,
            l4_len: 0,
            max_tcp_segment_size: 0,
        }
    }
}

/// Bit `n` of `x`, where `pow` is two to the power of `n`.
pub open spec fn bit(x: u32, pow: u32) -> bool {
    (x / pow) % 2 == 1
}

/// The header length, in bytes, in the high half of a byte.
pub open spec fn nibble_len(x: u8) -> u8 {
    ((x / 16) * 4) as u8
}

/// Checksum information `n`: bits for IPv4, IPv6, TCP, UDP and the IP header,
/// and the offset of the TCP header from bit 16 on.
pub open spec fn with_checksum(m: TxMetadata, n: u32, frame: Seq<u8>) -> Result<
    TxMetadata,
    WorkerError,
> {
    let is_ipv4 = bit(n, 1);
    let is_ipv6 = bit(n, 2);
    let tcp = (is_ipv4 || is_ipv6) && bit(n, 4);
    let udp = (is_ipv4 || is_ipv6) && !bit(n, 4) && bit(n, 8);
    let tcp_header_offset = (n / 65536) % 1024;
    let next = TxMetadata {
        offload_tcp_checksum: tcp,
        offload_udp_checksum: udp,
        offload_ip_header_checksum: is_ipv4 && bit(n, 16),
        l3_protocol: if is_ipv4 {
            L3Protocol::Ipv4
        } else if is_ipv6 {
            L3Protocol::Ipv6
        } else {
            L3Protocol::Unknown
        },
        l2_len: 14,
        ..m
    };
    if !(tcp || udp) {
        Ok(next)
    } else if tcp_header_offset >= 14 {
        Ok(TxMetadata { l3_len: (tcp_header_offset - 14) as u16, ..next })
    } else if is_ipv4 {
        if frame.len() < 15 {
            Err(WorkerError::Access)
        } else {
            Ok(TxMetadata { l3_len: nibble_len(frame[14]) as u16, ..next })
        }
    } else {
        // Hope there are no extensions.
        Ok(TxMetadata { l3_len: 40, ..next })
    }
}

/// Segmentation information `n`: the segment size in 20 bits, the offset of the
/// TCP header in ten, and the IP version in the highest bit.
pub open spec fn with_lso(m: TxMetadata, n: u32, frame: Seq<u8>) -> Result<
    TxMetadata,
    WorkerError,
> {
    let is_ipv4 = !bit(n, 0x8000_0000);
    let tcp_header_offset = (n / 0x10_0000) % 1024;
    if tcp_header_offset < 14 {
        Err(WorkerError::InvalidTcpHeaderOffset)
    } else if frame.len() < tcp_header_offset + 13 {
        Err(WorkerError::Access)
    } else {
        Ok(
            TxMetadata {
                offload_tcp_segmentation: true,
                offload_tcp_checksum: true,
                offload_ip_header_checksum: is_ipv4,
                l3_protocol: if is_ipv4 {
                    L3Protocol::Ipv4
                } else {
                    L3Protocol::Ipv6
                },
                l2_len: 14,
                l3_len: (tcp_header_offset - 14) as u16,
                l4_len: nibble_len(frame[tcp_header_offset + 12]),
                max_tcp_segment_size: (n % 65536) as u16,
                ..m
            },
        )
    }
}

/// What the first piece of the per-packet information `ppi` says about a frame,
/// and its size. Each piece has its size, its type and the offset of its value.
#[verifier::opaque]
pub open spec fn with_piece(m: TxMetadata, ppi: Seq<u8>, frame: Seq<u8>) -> Result<
    (TxMetadata, int),
    WorkerError,
> {
    let size = u32_at(ppi, 0) as int;
    let typ = u32_at(ppi, 4);
    let offset = u32_at(ppi, 8) as int;
    if ppi.len() < 12 {
        Err(WorkerError::Access)
    } else if size == 0 || size > ppi.len() || offset > size {
        Err(WorkerError::RndisMessageTooSmall)
    } else if typ != PPI_TCP_IP_CHECKSUM && typ != PPI_LSO {
        Ok((m, size))
    } else if size - offset < 4 {
        Err(WorkerError::Access)
    } else {
        let next = if typ == PPI_TCP_IP_CHECKSUM {
            with_checksum(m, u32_at(ppi, offset), frame)
        } else {
            with_lso(m, u32_at(ppi, offset), frame)
        };
        match next {
            Ok(m) => Ok((m, size)),
            Err(err) => Err(err),
        }
    }
}

/// What the per-packet information `ppi` says about a frame.
pub open spec fn with_ppi(m: TxMetadata, ppi: Seq<u8>, frame: Seq<u8>) -> Result<
    TxMetadata,
    WorkerError,
>
    decreases ppi.len(),
{
    if ppi.len() == 0 {
        Ok(m)
    } else {
        match with_piece(m, ppi, frame) {
            Err(err) => Err(err),
            Ok((next, size)) => if 0 < size <= ppi.len() {
                with_ppi(next, ppi.skip(size), frame)
            } else {
                Err(WorkerError::RndisMessageTooSmall)
            },
        }
    }
}

fn apply_checksum(m: TxMetadata, n: u32, frame: &Vec<u8>) -> (r: Result<TxMetadata, WorkerError>)
    ensures
        r == with_checksum(m, n, frame@),
{
    let is_ipv4 = n % 2 == 1;
    let is_ipv6 = (n / 2) % 2 == 1;
    let tcp_checksum = (n / 4) % 2 == 1;
    let udp_checksum = (n / 8) % 2 == 1;
    let ip_header_checksum = (n / 16) % 2 == 1;
    let tcp_header_offset: u32 = (n / 65536) % 1024;
    let mut m = m;
    m.offload_tcp_checksum = (is_ipv4 || is_ipv6) && tcp_checksum;
    m.offload_udp_checksum = (is_ipv4 || is_ipv6) && !tcp_checksum && udp_checksum;
    m.offload_ip_header_checksum = is_ipv4 && ip_header_checksum;
    m.l3_protocol = if is_ipv4 {
        L3Protocol::Ipv4
    } else if is_ipv6 {
        L3Protocol::Ipv6
    } else {
        L3Protocol::Unknown
    };
    m.l2_len = 14;
    if m.offload_tcp_checksum || m.offload_udp_checksum {
        m.l3_len = if tcp_header_offset >= 14 {
            (tcp_header_offset - 14) as u16
        } else if is_ipv4 {
            if frame.len() < 15 {
                return Err(WorkerError::Access);
            }
            (frame[14] / 16) as u16 * 4
        } else {
            // Hope there are no extensions.
            40
        };
    }
    Ok(m)
}

fn apply_lso(m: TxMetadata, n: u32, frame: &Vec<u8>) -> (r: Result<TxMetadata, WorkerError>)
    ensures
        r == with_lso(m, n, frame@),
{
    let is_ipv4 = !((n / 0x8000_0000) % 2 == 1);
    let tcp_header_offset: u32 = (n / 0x10_0000) % 1024;
    if tcp_header_offset < 14 {
        return Err(WorkerError::InvalidTcpHeaderOffset);
    }
    let at: usize = tcp_header_offset as usize + 12;
    if frame.len() <= at {
        return Err(WorkerError::Access);
    }
    let mut m = m;
    m.offload_tcp_segmentation = true;
    m.offload_tcp_checksum = true;
    m.offload_ip_header_checksum = is_ipv4;
    m.l3_protocol = if is_ipv4 {
        L3Protocol::Ipv4
    } else {
        L3Protocol::Ipv6
    };
    m.l2_len = 14;
    m.l3_len = (tcp_header_offset - 14) as u16;
    m.l4_len = (frame[at] / 16) * 4;
    m.max_tcp_segment_size = (n % 65536) as u16;
    Ok(m)
}

fn apply_piece(m: TxMetadata, ppi: &Vec<u8>, at: usize, frame: &Vec<u8>) -> (r: Result<
    (TxMetadata, usize),
    WorkerError,
>)
    requires
        at <= ppi@.len(),
    ensures
        match with_piece(m, ppi@.skip(at as int), frame@) {
            Ok((next, size)) => {
                &&& r is Ok
                &&& r->Ok_0.0 == next
                &&& r->Ok_0.1 == size
                &&& 0 < size <= ppi@.len() - at
            },
            Err(err) => r == Err::<(TxMetadata, usize), WorkerError>(err),
        },
{
    reveal(with_piece);
    let ghost rest = ppi@.skip(at as int);
    let left: usize = ppi.len() - at;
    if left < 12 {
        return Err(WorkerError::Access);
    }
    let size: u32 = read_u32(ppi.as_slice(), at);
    let typ: u32 = read_u32(ppi.as_slice(), at + 4);
    let offset: u32 = read_u32(ppi.as_slice(), at + 8);
    assert(size == u32_at(rest, 0));
    assert(typ == u32_at(rest, 4));
    assert(offset == u32_at(rest, 8));
    if size == 0 || size as usize > left || offset > size {
        return Err(WorkerError::RndisMessageTooSmall);
    }
    if typ != PPI_TCP_IP_CHECKSUM && typ != PPI_LSO {
        return Ok((m, size as usize));
    }
    if size - offset < 4 {
        return Err(WorkerError::Access);
    }
    let n: u32 = read_u32(ppi.as_slice(), at + offset as usize);
    assert(n == u32_at(rest, offset as int));
    let r = if typ == PPI_TCP_IP_CHECKSUM {
        apply_checksum(m, n, frame)
    } else {
        apply_lso(m, n, frame)
    };
    match r {
        Ok(next) => Ok((next, size as usize)),
        Err(err) => Err(err),
    }
}

fn apply_ppi(m: TxMetadata, ppi: &Vec<u8>, frame: &Vec<u8>) -> (r: Result<TxMetadata, WorkerError>)
    ensures
        r == with_ppi(m, ppi@, frame@),
{
    let mut now = m;
    let mut at: usize = 0;
    assert(ppi@.skip(0) =~= ppi@);
    while at < ppi.len()
        invariant
            at <= ppi@.len(),
            with_ppi(m, ppi@, frame@) == with_ppi(now, ppi@.skip(at as int), frame@),
        decreases ppi@.len() - at,
    {
        match apply_piece(now, ppi, at, frame) {
            Ok((next, size)) => {
                assert(ppi@.skip(at as int).skip(size as int) =~= ppi@.skip(at + size));
                now = next;
                at = at + size;
            },
            Err(err) => return Err(err),
        }
    }
    Ok(now)
}

/// The pieces of the bytes from `lo` to `hi`, as far as they lie in the first
/// runs, or `None` if one of them is invalid.
pub open spec fn pieces(runs: Seq<GuestRun>, lo: int, hi: int) -> Option<Seq<TxSegment>>
    decreases runs.len(),
{
    if runs.len() == 0 {
        Some(Seq::empty())
    } else {
        let at = runs_len(runs.drop_last());
        let end = at + runs.last().len;
        let from = if at < lo {
            lo
        } else {
            at
        };
        let to = if hi < end {
            hi
        } else {
            end
        };
        match pieces(runs.drop_last(), lo, hi) {
            None => None,
            Some(s) => if from >= to {
                Some(s)
            } else {
                match runs.last().gpa {
                    None => None,
                    Some(gpa) => Some(
                        s.push(
                            TxSegment {
                                ty: TxSegmentType::Tail,
                                gpa: (gpa + (from - at)) as u64,
                                len: (to - from) as u32,
                            },
                        ),
                    ),
                }
            },
        }
    }
}

/// A piece that is invalid stays so.
proof fn lemma_pieces_none(runs: Seq<GuestRun>, n: int, lo: int, hi: int)
    requires
        0 <= n <= runs.len(),
        pieces(runs.take(n), lo, hi) is None,
    ensures
        pieces(runs, lo, hi) is None,
    decreases runs.len(),
{
    if n == runs.len() {
        assert(runs.take(n) =~= runs);
    } else {
        assert(runs.drop_last().take(n) =~= runs.take(n));
        lemma_pieces_none(runs.drop_last(), n, lo, hi);
    }
}

/// As long as some bytes are asked for, there is a piece.
proof fn lemma_pieces_nonempty(runs: Seq<GuestRun>, lo: int, hi: int)
    requires
        0 <= lo < hi,
        lo < runs_len(runs),
        pieces(runs, lo, hi) is Some,
    ensures
        pieces(runs, lo, hi)->0.len() > 0,
    decreases runs.len(),
{
    if lo < runs_len(runs.drop_last()) {
        lemma_pieces_nonempty(runs.drop_last(), lo, hi);
    }
}

fn find_pieces(runs: &Vec<GuestRun>, lo: usize, hi: usize) -> (r: Option<Vec<TxSegment>>)
    requires
        runs_len(runs@) <= usize::MAX,
        forall|i: int|
            0 <= i < runs@.len() ==> ((#[trigger] runs@[i]).gpa matches Some(gpa) ==> gpa
                + runs@[i].len <= u64::MAX),
    ensures
        match pieces(runs@, lo as int, hi as int) {
            Some(s) => r is Some && r->0@ == s,
            None => r is None,
        },
{
    let mut out: Vec<TxSegment> = Vec::new();
    let mut at: usize = 0;
    let mut i: usize = 0;
    assert(runs@.take(0) =~= Seq::empty());
    while i < runs.len()
        invariant
            i <= runs@.len(),
            runs_len(runs@) <= usize::MAX,
            at == runs_len(runs@.take(i as int)),
            pieces(runs@.take(i as int), lo as int, hi as int) == Some(out@),
            forall|k: int|
                0 <= k < runs@.len() ==> ((#[trigger] runs@[k]).gpa matches Some(gpa) ==> gpa
                    + runs@[k].len <= u64::MAX),
        decreases runs@.len() - i,
    {
        let run = runs[i];
        assert(runs@[i as int] == run);
        assert(runs@.take(i + 1).drop_last() =~= runs@.take(i as int));
        assert(runs@.take(i + 1).last() == run);
        proof {
            lemma_runs_len_take(runs@, i + 1);
        }
        let end: usize = at + run.len as usize;
        let from: usize = if at < lo {
            lo
        } else {
            at
        };
        let to: usize = if hi < end {
            hi
        } else {
            end
        };
        if from < to {
            match run.gpa {
                None => {
                    proof {
                        lemma_pieces_none(runs@, i + 1, lo as int, hi as int);
                    }
                    return None;
                },
                Some(gpa) => {
                    out.push(
                        TxSegment {
                            ty: TxSegmentType::Tail,
                            gpa: gpa + (from - at) as u64,
                            len: (to - from) as u32,
                        },
                    );
                },
            }
        }
        at = end;
        i = i + 1;
    }
    assert(runs@.take(i as int) =~= runs@);
    Some(out)
}

proof fn lemma_runs_len_take(runs: Seq<GuestRun>, n: int)
    requires
        0 <= n <= runs.len(),
    ensures
        0 <= runs_len(runs.take(n)) <= runs_len(runs),
    decreases runs.len(),
{
    if n == runs.len() {
        assert(runs.take(n) =~= runs);
        if n > 0 {
            lemma_runs_len_take(runs.drop_last(), n - 1);
        }
    } else {
        assert(runs.drop_last().take(n) =~= runs.take(n));
        lemma_runs_len_take(runs.drop_last(), n);
    }
}

/// The end of the first range that goes beyond `pos`.
pub open spec fn header_end(ends: Seq<usize>, pos: int) -> int
    decreases ends.len(),
{
    if ends.len() == 0 {
        pos
    } else if ends[0] > pos {
        ends[0] as int
    } else {
        header_end(ends.drop_first(), pos)
    }
}

fn find_header_end(ends: &Vec<usize>, pos: usize) -> (r: usize)
    ensures
        r == header_end(ends@, pos as int),
{
    let mut i: usize = 0;
    assert(ends@.skip(0) =~= ends@);
    while i < ends.len()
        invariant
            i <= ends@.len(),
            header_end(ends@, pos as int) == header_end(ends@.skip(i as int), pos as int),
        decreases ends@.len() - i,
    {
        assert(ends@.skip(i as int)[0] == ends@[i as int]);
        if ends[i] > pos {
            return ends[i];
        }
        assert(ends@.skip(i as int).drop_first() =~= ends@.skip(i + 1));
        i = i + 1;
    }
    pos
}

proof fn lemma_header_end(ends: Seq<usize>, pos: int, n: int)
    requires
        0 <= pos <= n,
        forall|i: int| 0 <= i < ends.len() ==> #[trigger] ends[i] <= n,
    ensures
        pos <= header_end(ends, pos) <= n,
        ends.len() > 0 && ends.last() > pos ==> header_end(ends, pos) > pos,
    decreases ends.len(),
{
    if ends.len() > 0 && ends[0] <= pos {
        assert forall|i: int| 0 <= i < ends.drop_first().len() implies #[trigger] ends.drop_first()[i]
            <= n by {
            assert(ends.drop_first()[i] == ends[i + 1]);
        }
        lemma_header_end(ends.drop_first(), pos, n);
    }
}

/// The frame that an RNDIS packet message carries: what the endpoint has to know
/// about it, and the bytes from `lo` to `hi` of the memory.
pub struct Frame {
    /// What the endpoint has to know.
    pub metadata: TxMetadata,
    /// The first byte.
    pub lo: int,
    /// Behind the last byte.
    pub hi: int,
}

/// The frame of the message whose fields start at `pos`.
pub open spec fn frame_at(bytes: Seq<u8>, ends: Seq<usize>, pos: int, id: u32) -> Result<
    Frame,
    WorkerError,
> {
    let h = bytes.subrange(pos, header_end(ends, pos));
    let left = bytes.len() - pos;
    let data_offset = u32_at(h, 0);
    let data_length = u32_at(h, 4);
    let ppi_offset = u32_at(h, 20);
    let ppi_length = u32_at(h, 24);
    if left <= 0 {
        Err(WorkerError::RndisMessageTooSmall)
    } else if h.len() < 36 {
        Err(WorkerError::Access)
    } else if u32_at(h, 8) != 0 || u32_at(h, 12) != 0 || u32_at(h, 16) != 0 || u32_at(h, 28) != 0 {
        // Out-of-band data or a virtual circuit.
        Err(WorkerError::UnsupportedRndisBehavior)
    } else if left < data_offset + data_length || data_length == 0 {
        Err(WorkerError::RndisMessageTooSmall)
    } else {
        let lo = pos + data_offset;
        let hi = lo + data_length;
        let plain = TxMetadata::plain(id, data_length as usize);
        if ppi_length == 0 {
            Ok(Frame { metadata: plain, lo, hi })
        } else if ppi_offset + ppi_length > h.len() {
            Err(WorkerError::RndisMessageTooSmall)
        } else {
            match with_ppi(
                plain,
                h.subrange(ppi_offset as int, ppi_offset + ppi_length),
                bytes.subrange(lo, hi),
            ) {
                Ok(metadata) => Ok(Frame { metadata, lo, hi }),
                Err(err) => Err(err),
            }
        }
    }
}

fn find_frame(m: &PacketMemory, pos: usize, id: u32) -> (r: Result<
    (TxMetadata, usize, usize),
    WorkerError,
>)
    requires
        m.wf(),
        pos <= m.bytes@.len(),
    ensures
        match frame_at(m.bytes@, m.range_ends@, pos as int, id) {
            Ok(f) => {
                &&& r is Ok
                &&& r->Ok_0.0 == f.metadata
                &&& r->Ok_0.1 == f.lo
                &&& r->Ok_0.2 == f.hi
                &&& f.lo < f.hi <= m.bytes@.len()
            },
            Err(err) => r == Err::<(TxMetadata, usize, usize), WorkerError>(err),
        },
{
    let left: usize = m.bytes.len() - pos;
    if left == 0 {
        return Err(WorkerError::RndisMessageTooSmall);
    }
    // Headers are guaranteed to be in a single range.
    let end: usize = find_header_end(&m.range_ends, pos);
    proof {
        lemma_header_end(m.range_ends@, pos as int, m.bytes@.len() as int);
    }
    let header = copy_bytes(m.bytes.as_slice(), pos, end - pos);
    let h = header.as_slice();
    if h.len() < 36 {
        return Err(WorkerError::Access);
    }
    let data_offset: u32 = read_u32(h, 0);
    let data_length: u32 = read_u32(h, 4);
    let ppi_offset: u32 = read_u32(h, 20);
    let ppi_length: u32 = read_u32(h, 24);
    if read_u32(h, 16) != 0 || read_u32(h, 12) != 0 || read_u32(h, 8) != 0 || read_u32(h, 28) != 0 {
        return Err(WorkerError::UnsupportedRndisBehavior);
    }
    if left < data_offset as usize || left - (data_offset as usize) < data_length as usize
        || data_length == 0 {
        return Err(WorkerError::RndisMessageTooSmall);
    }
    let lo: usize = pos + data_offset as usize;
    let hi: usize = lo + data_length as usize;
    let plain = TxMetadata {
        id,
        segment_count: 0,
        len: data_length as usize,
        offload_ip_header_checksum: false,
        offload_tcp_checksum: false,
        offload_udp_checksum: false,
        offload_tcp_segmentation: false,
        l3_protocol: L3Protocol::Unknown,
        l2_len: 0,
        l3_len: 0,
        l4_len: 0,
        max_tcp_segment_size: 0,
    };
    if ppi_length == 0 {
        return Ok((plain, lo, hi));
    }
    if ppi_offset as u64 + ppi_length as u64 > h.len() as u64 {
        return Err(WorkerError::RndisMessageTooSmall);
    }
    let ppi = copy_bytes(h, ppi_offset as usize, ppi_length as usize);
    let frame = copy_bytes(m.bytes.as_slice(), lo, hi - lo);
    match apply_ppi(plain, &ppi, &frame) {
        Ok(metadata) => Ok((metadata, lo, hi)),
        Err(err) => Err(err),
    }
}

/// The segments of a frame: its pieces, the first of which starts it.
pub open spec fn frame_segments(runs: Seq<GuestRun>, f: Frame) -> Option<Seq<TxSegment>> {
    match pieces(runs, f.lo, f.hi) {
        None => None,
        Some(s) => Some(
            s.update(
                0,
                TxSegment {
                    ty: TxSegmentType::Head(
                        TxMetadata { segment_count: s.len() as usize, ..f.metadata },
                    ),
                    ..s[0]
                },
            ),
        ),
    }
}

/// What an RNDIS packet message does: the segments that it adds, or why the
/// channel stops.
pub open spec fn packet_segments(
    bytes: Seq<u8>,
    ends: Seq<usize>,
    runs: Seq<GuestRun>,
    pos: int,
    id: u32,
) -> Result<Seq<TxSegment>, WorkerError> {
    match frame_at(bytes, ends, pos, id) {
        Err(err) => Err(err),
        Ok(f) => match frame_segments(runs, f) {
            None => Err(WorkerError::InvalidGpadl),
            Some(s) => Ok(s),
        },
    }
}

/// Handles an RNDIS packet message whose fields start at `pos`: appends the
/// segments of its frame and counts it.
pub fn handle_rndis_packet_message(
    m: &PacketMemory,
    pos: usize,
    id: u32,
    segments: &mut Vec<TxSegment>,
    stats: &mut QueueStats,
) -> (r: Result<(), WorkerError>)
    requires
        m.wf(),
        pos <= m.bytes@.len(),
    ensures
        match packet_segments(m.bytes@, m.range_ends@, m.runs@, pos as int, id) {
            Ok(s) => {
                &&& r is Ok
                &&& final(segments)@ == old(segments)@ + s
                &&& s.len() > 0
                &&& s[0].ty is Head
                &&& s[0].ty->Head_0.id == id
                &&& *final(stats) == old(stats).with_frame(s[0].ty->Head_0)
            },
            Err(err) => {
                &&& r == Err::<(), WorkerError>(err)
                &&& final(segments)@ == old(segments)@
                &&& *final(stats) == *old(stats)
            },
        },
{
    let (metadata, lo, hi) = match find_frame(m, pos, id) {
        Ok(f) => f,
        Err(err) => return Err(err),
    };
    let mut new = match find_pieces(&m.runs, lo, hi) {
        Some(s) => s,
        None => return Err(WorkerError::InvalidGpadl),
    };
    proof {
        lemma_pieces_nonempty(m.runs@, lo as int, hi as int);
        lemma_metadata_id(m.bytes@, m.range_ends@, pos as int, id);
    }
    let first = new[0];
    let mut metadata = metadata;
    metadata.segment_count = new.len();
    stats.count_frame(&metadata);
    new.set(0, TxSegment { ty: TxSegmentType::Head(metadata), gpa: first.gpa, len: first.len });
    let mut i: usize = 0;
    assert(segments@ =~= old(segments)@ + new@.take(0));
    while i < new.len()
        invariant
            i <= new@.len(),
            segments@ == old(segments)@ + new@.take(i as int),
        decreases new@.len() - i,
    {
        segments.push(new[i]);
        i = i + 1;
        assert(segments@ =~= old(segments)@ + new@.take(i as int));
    }
    assert(new@.take(i as int) =~= new@);
    Ok(())
}

proof fn lemma_ppi_id(m: TxMetadata, ppi: Seq<u8>, frame: Seq<u8>)
    ensures
        with_ppi(m, ppi, frame) matches Ok(next) ==> next.id == m.id && next.len == m.len,
    decreases ppi.len(),
{
    if ppi.len() > 0 {
        if let Ok((next, size)) = with_piece(m, ppi, frame) {
            reveal(with_piece);
            if 0 < size <= ppi.len() {
                lemma_ppi_id(next, ppi.skip(size), frame);
            }
        }
    }
}

proof fn lemma_metadata_id(bytes: Seq<u8>, ends: Seq<usize>, pos: int, id: u32)
    ensures
        frame_at(bytes, ends, pos, id) matches Ok(f) ==> f.metadata.id == id,
{
    let h = bytes.subrange(pos, header_end(ends, pos));
    let lo = pos + u32_at(h, 0);
    let hi = lo + u32_at(h, 4);
    lemma_ppi_id(
        TxMetadata::plain(id, u32_at(h, 4) as usize),
        h.subrange(u32_at(h, 20) as int, u32_at(h, 20) + u32_at(h, 24)),
        bytes.subrange(lo, hi),
    );
}

/// The byte length of segments.
pub open spec fn segments_len(s: Seq<TxSegment>) -> int
    decreases s.len(),
{
    if s.len() == 0 {
        0
    } else {
        segments_len(s.drop_last()) + s.last().len
    }
}

/// The pieces of a byte range cover it: together they are as long as the range,
/// as far as there are runs.
pub proof fn pieces_cover_range(runs: Seq<GuestRun>, lo: int, hi: int)
    requires
        0 <= lo <= hi,
        pieces(runs, lo, hi) is Some,
    ensures
        segments_len(pieces(runs, lo, hi)->0) == ({
            let end = if hi < runs_len(runs) {
                hi
            } else {
                runs_len(runs)
            };
            if end < lo {
                0
            } else {
                end - lo
            }
        }),
    decreases runs.len(),
{
    if runs.len() > 0 {
        pieces_cover_range(runs.drop_last(), lo, hi);
        lemma_runs_len_take(runs, runs.len() - 1);
        assert(runs.take(runs.len() - 1) =~= runs.drop_last());
        let s = pieces(runs.drop_last(), lo, hi)->0;
        let t = pieces(runs, lo, hi)->0;
        if t.len() > s.len() {
            assert(t.drop_last() =~= s);
        }
    }
}

/// Where the per-packet information of the message starts, whose fields start at `pos`.
pub open spec fn info_start(bytes: Seq<u8>, pos: int) -> int {
    pos + u32_at(bytes, pos + 20)
}

/// Whether all per-packet information of the message is one piece of type `typ`, and what
/// that piece says is `n`.
pub open spec fn has_single_info(bytes: Seq<u8>, pos: int, typ: u32, n: u32) -> bool {
    let at = info_start(bytes, pos);
    &&& u32_at(bytes, pos + 24) > 0
    &&& u32_at(bytes, at) == u32_at(bytes, pos + 24)
    &&& u32_at(bytes, at + 4) == typ
    &&& u32_at(bytes, at + u32_at(bytes, at + 8)) == n
}

proof fn lemma_u32_in(bytes: Seq<u8>, from: int, to: int, k: int)
    requires
        0 <= from <= to <= bytes.len(),
        0 <= k,
        k + 4 <= to - from,
    ensures
        u32_at(bytes.subrange(from, to), k) == u32_at(bytes, from + k),
{
}

/// What is known of the header of a message that is accepted.
proof fn lemma_accepted(bytes: Seq<u8>, ends: Seq<usize>, runs: Seq<GuestRun>, pos: int, id: u32)
    requires
        0 <= pos <= bytes.len(),
        forall|i: int| 0 <= i < ends.len() ==> #[trigger] ends[i] <= bytes.len(),
        packet_segments(bytes, ends, runs, pos, id) is Ok,
        runs_len(runs) == bytes.len(),
    ensures
        ({
            let end = header_end(ends, pos);
            let h = bytes.subrange(pos, end);
            let s = packet_segments(bytes, ends, runs, pos, id)->Ok_0;
            let f = frame_at(bytes, ends, pos, id)->Ok_0;
            &&& pos + 36 <= end <= bytes.len()
            &&& u32_at(h, 0) == u32_at(bytes, pos)
            &&& u32_at(h, 4) == u32_at(bytes, pos + 4)
            &&& u32_at(h, 20) == u32_at(bytes, pos + 20)
            &&& u32_at(h, 24) == u32_at(bytes, pos + 24)
            &&& frame_at(bytes, ends, pos, id) is Ok
            &&& f.lo == pos + u32_at(bytes, pos)
            &&& f.hi == f.lo + u32_at(bytes, pos + 4)
            &&& f.lo < f.hi <= bytes.len()
            &&& pieces(runs, f.lo, f.hi) is Some
            &&& s.len() == pieces(runs, f.lo, f.hi)->0.len()
            &&& s.len() > 0
            &&& s[0].ty == TxSegmentType::Head(
                TxMetadata { segment_count: s.len() as usize, ..f.metadata },
            )
        }),
{
    lemma_header_end(ends, pos, bytes.len() as int);
    let end = header_end(ends, pos);
    let f = frame_at(bytes, ends, pos, id)->Ok_0;
    lemma_u32_in(bytes, pos, end, 0);
    lemma_u32_in(bytes, pos, end, 4);
    lemma_u32_in(bytes, pos, end, 20);
    lemma_u32_in(bytes, pos, end, 24);
    lemma_pieces_nonempty(runs, f.lo, f.hi);
}

/// What a single piece of information says of the frame.
proof fn lemma_single_info(
    bytes: Seq<u8>,
    ends: Seq<usize>,
    runs: Seq<GuestRun>,
    pos: int,
    id: u32,
    typ: u32,
    n: u32,
)
    requires
        0 <= pos <= bytes.len(),
        forall|i: int| 0 <= i < ends.len() ==> #[trigger] ends[i] <= bytes.len(),
        packet_segments(bytes, ends, runs, pos, id) is Ok,
        runs_len(runs) == bytes.len(),
        typ == PPI_TCP_IP_CHECKSUM || typ == PPI_LSO,
        has_single_info(bytes, pos, typ, n),
    ensures
        ({
            let f = frame_at(bytes, ends, pos, id)->Ok_0;
            let frame = bytes.subrange(f.lo, f.hi);
            let plain = TxMetadata::plain(id, u32_at(bytes, pos + 4) as usize);
            let m = if typ == PPI_LSO {
                with_lso(plain, n, frame)
            } else {
                with_checksum(plain, n, frame)
            };
            m == Ok::<TxMetadata, WorkerError>(f.metadata)
        }),
{
    lemma_accepted(bytes, ends, runs, pos, id);
    let end = header_end(ends, pos);
    let h = bytes.subrange(pos, end);
    let o = u32_at(h, 20) as int;
    let l = u32_at(h, 24) as int;
    let ppi = h.subrange(o, o + l);
    let f = frame_at(bytes, ends, pos, id)->Ok_0;
    let frame = bytes.subrange(f.lo, f.hi);
    let plain = TxMetadata::plain(id, u32_at(bytes, pos + 4) as usize);
    let at = info_start(bytes, pos);
    assert(ppi =~= bytes.subrange(at, at + l));
    reveal(with_piece);
    assert(ppi.len() >= 12);
    lemma_u32_in(bytes, at, at + l, 0);
    lemma_u32_in(bytes, at, at + l, 4);
    lemma_u32_in(bytes, at, at + l, 8);
    lemma_u32_in(bytes, at, at + l, u32_at(ppi, 8) as int);
    assert(ppi.skip(l).len() == 0);
    reveal_with_fuel(with_ppi, 2);
}

/// A frame that is to be cut into segments: a message whose only per-packet information is
/// the large-send value `n` leads to a head segment that asks for segmentation, and for the
/// TCP checksum. The frame is IPv4 exactly if the highest bit of the value is clear, else
/// IPv6, and only IPv4 has a header checksum. The lengths of the Ethernet and the IP header
/// add up to the offset of the TCP header, which the frame itself gives the length of.
pub proof fn large_send_is_described(
    bytes: Seq<u8>,
    ends: Seq<usize>,
    runs: Seq<GuestRun>,
    pos: int,
    id: u32,
    n: u32,
)
    requires
        0 <= pos <= bytes.len(),
        forall|i: int| 0 <= i < ends.len() ==> #[trigger] ends[i] <= bytes.len(),
        runs_len(runs) == bytes.len(),
        packet_segments(bytes, ends, runs, pos, id) is Ok,
        has_single_info(bytes, pos, 2, n),
    ensures
        ({
            let s = packet_segments(bytes, ends, runs, pos, id)->Ok_0;
            let m = s[0].ty->Head_0;
            let frame = pos + u32_at(bytes, pos);
            let tcp = (n / 0x10_0000) % 1024;
            &&& s[0].ty is Head
            &&& m.id == id
            &&& m.len == u32_at(bytes, pos + 4)
            &&& m.segment_count == s.len() as usize
            &&& (m.l3_protocol == L3Protocol::Ipv4) == (n < 0x8000_0000)
            &&& (m.l3_protocol == L3Protocol::Ipv6) == (n >= 0x8000_0000)
            &&& m.offload_ip_header_checksum == (m.l3_protocol == L3Protocol::Ipv4)
            &&& m.offload_tcp_segmentation
            &&& m.offload_tcp_checksum
            &&& !m.offload_udp_checksum
            &&& m.l2_len == 14
            &&& m.l2_len + m.l3_len == tcp
            &&& tcp + 13 <= m.len
            &&& m.l4_len == 4 * (bytes[frame + tcp + 12] / 16)
            &&& m.max_tcp_segment_size == n % 0x1_0000
        }),
{
    lemma_accepted(bytes, ends, runs, pos, id);
    lemma_single_info(bytes, ends, runs, pos, id, PPI_LSO, n);
    let f = frame_at(bytes, ends, pos, id)->Ok_0;
    let tcp = (n / 0x10_0000) % 1024;
    assert(bytes.subrange(f.lo, f.hi)[tcp + 12] == bytes[f.lo + tcp + 12]);
}

/// A frame whose checksums the endpoint computes: a message whose only per-packet
/// information is the checksum value `n` leads to a head segment that asks for the
/// checksums of its bits. TCP goes before UDP, none is computed of a frame that is not IP,
/// and only IPv4 has a header checksum. Nothing is cut into segments.
pub proof fn checksum_offload_is_described(
    bytes: Seq<u8>,
    ends: Seq<usize>,
    runs: Seq<GuestRun>,
    pos: int,
    id: u32,
    n: u32,
)
    requires
        0 <= pos <= bytes.len(),
        forall|i: int| 0 <= i < ends.len() ==> #[trigger] ends[i] <= bytes.len(),
        runs_len(runs) == bytes.len(),
        packet_segments(bytes, ends, runs, pos, id) is Ok,
        has_single_info(bytes, pos, 0, n),
    ensures
        ({
            let s = packet_segments(bytes, ends, runs, pos, id)->Ok_0;
            let m = s[0].ty->Head_0;
            let frame = pos + u32_at(bytes, pos);
            let tcp = (n / 0x1_0000) % 1024;
            let ipv4 = n % 2 == 1;
            let ipv6 = n % 2 == 0 && (n / 2) % 2 == 1;
            &&& s[0].ty is Head
            &&& m.id == id
            &&& m.len == u32_at(bytes, pos + 4)
            &&& (m.l3_protocol == L3Protocol::Ipv4) == ipv4
            &&& (m.l3_protocol == L3Protocol::Ipv6) == ipv6
            &&& m.offload_tcp_checksum == ((ipv4 || ipv6) && (n / 4) % 2 == 1)
            &&& m.offload_udp_checksum == ((ipv4 || ipv6) && (n / 4) % 2 == 0 && (n / 8) % 2 == 1)
            &&& m.offload_ip_header_checksum == (ipv4 && (n / 16) % 2 == 1)
            &&& !m.offload_tcp_segmentation
            &&& m.l2_len == 14
            &&& m.l4_len == 0
            &&& m.max_tcp_segment_size == 0
            &&& m.offload_tcp_checksum || m.offload_udp_checksum ==> {
                if tcp >= 14 {
                    m.l2_len + m.l3_len == tcp
                } else if ipv4 {
                    m.l3_len == 4 * (bytes[frame + 14] / 16)
                } else {
                    m.l3_len == 40
                }
            }
            &&& !m.offload_tcp_checksum && !m.offload_udp_checksum ==> m.l3_len == 0
        }),
{
    lemma_accepted(bytes, ends, runs, pos, id);
    lemma_single_info(bytes, ends, runs, pos, id, PPI_TCP_IP_CHECKSUM, n);
    let f = frame_at(bytes, ends, pos, id)->Ok_0;
    let frame = bytes.subrange(f.lo, f.hi);
    lemma_checksum_value(TxMetadata::plain(id, u32_at(bytes, pos + 4) as usize), n, frame);
    if f.hi - f.lo >= 15 {
        assert(frame[14] == bytes[f.lo + 14]);
    }
}

proof fn lemma_checksum_value(plain: TxMetadata, n: u32, frame: Seq<u8>)
    requires
        with_checksum(plain, n, frame) is Ok,
        plain.l3_len == 0,
    ensures
        ({
            let m = with_checksum(plain, n, frame)->Ok_0;
            let tcp = (n / 0x1_0000) % 1024;
            let ipv4 = n % 2 == 1;
            let ipv6 = n % 2 == 0 && (n / 2) % 2 == 1;
            &&& m == (TxMetadata {
                offload_tcp_checksum: (ipv4 || ipv6) && (n / 4) % 2 == 1,
                offload_udp_checksum: (ipv4 || ipv6) && (n / 4) % 2 == 0 && (n / 8) % 2 == 1,
                offload_ip_header_checksum: ipv4 && (n / 16) % 2 == 1,
                l3_protocol: m.l3_protocol,
                l2_len: 14,
                l3_len: m.l3_len,
                ..plain
            })
            &&& (m.l3_protocol == L3Protocol::Ipv4) == ipv4
            &&& (m.l3_protocol == L3Protocol::Ipv6) == ipv6
            &&& m.offload_tcp_checksum || m.offload_udp_checksum ==> {
                if tcp >= 14 {
                    14 + m.l3_len == tcp
                } else if ipv4 {
                    frame.len() >= 15 && m.l3_len == 4 * (frame[14] / 16)
                } else {
                    m.l3_len == 40
                }
            }
            &&& !m.offload_tcp_checksum && !m.offload_udp_checksum ==> m.l3_len == 0
        }),
{
}

/// A message without per-packet information leads to a frame without offloads.
pub proof fn plain_frame_has_no_offloads(
    bytes: Seq<u8>,
    ends: Seq<usize>,
    runs: Seq<GuestRun>,
    pos: int,
    id: u32,
)
    requires
        0 <= pos <= bytes.len(),
        forall|i: int| 0 <= i < ends.len() ==> #[trigger] ends[i] <= bytes.len(),
        runs_len(runs) == bytes.len(),
        packet_segments(bytes, ends, runs, pos, id) is Ok,
        u32_at(bytes, pos + 24) == 0,
    ensures
        ({
            let s = packet_segments(bytes, ends, runs, pos, id)->Ok_0;
            let m = s[0].ty->Head_0;
            &&& s[0].ty is Head
            &&& m.id == id
            &&& m.len == u32_at(bytes, pos + 4)
            &&& !m.offload_ip_header_checksum
            &&& !m.offload_tcp_checksum
            &&& !m.offload_udp_checksum
            &&& !m.offload_tcp_segmentation
            &&& m.l3_protocol == L3Protocol::Unknown
            &&& m.l2_len == 0 && m.l3_len == 0 && m.l4_len == 0
            &&& m.max_tcp_segment_size == 0
        }),
{
    lemma_accepted(bytes, ends, runs, pos, id);
}

/// The guest address of byte `k` of runs.
pub open spec fn run_address(runs: Seq<GuestRun>, k: int) -> Option<int>
    decreases runs.len(),
{
    if runs.len() == 0 {
        None
    } else if k < runs[0].len {
        match runs[0].gpa {
            Some(gpa) => Some(gpa + k),
            None => None,
        }
    } else {
        run_address(runs.drop_first(), k - runs[0].len)
    }
}

/// The guest address of byte `k` of segments.
pub open spec fn segment_address(s: Seq<TxSegment>, k: int) -> Option<int>
    decreases s.len(),
{
    if s.len() == 0 {
        None
    } else if k < s[0].len {
        Some(s[0].gpa + k)
    } else {
        segment_address(s.drop_first(), k - s[0].len)
    }
}

proof fn lemma_run_address_push(runs: Seq<GuestRun>, k: int)
    requires
        runs.len() > 0,
        0 <= k,
    ensures
        run_address(runs, k) == if k < runs_len(runs.drop_last()) {
            run_address(runs.drop_last(), k)
        } else if k - runs_len(runs.drop_last()) < runs.last().len {
            match runs.last().gpa {
                Some(gpa) => Some(gpa + (k - runs_len(runs.drop_last()))),
                None => None,
            }
        } else {
            None
        },
    decreases runs.len(),
{
    let init = runs.drop_last();
    if runs.len() == 1 {
        assert(runs.drop_first() =~= Seq::empty());
        assert(init =~= Seq::empty());
    } else {
        let rest = runs.drop_first();
        assert(rest.drop_last() =~= init.drop_first());
        lemma_runs_len_first(init);
        lemma_runs_len_take(init, 0);
        lemma_runs_len_take(rest.drop_last(), 0);
        if k >= runs[0].len {
            lemma_run_address_push(rest, k - runs[0].len);
        }
    }
}

proof fn lemma_runs_len_first(runs: Seq<GuestRun>)
    requires
        runs.len() > 0,
    ensures
        runs_len(runs) == runs[0].len + runs_len(runs.drop_first()),
        runs_len(runs.drop_first()) >= 0,
{
    assert(seq![runs[0]] + runs.drop_first() =~= runs);
    lemma_runs_len_append(seq![runs[0]], runs.drop_first());
    assert(seq![runs[0]].drop_last() =~= Seq::empty());
    reveal_with_fuel(runs_len, 2);
    lemma_runs_len_take(runs.drop_first(), 0);
}

proof fn lemma_segments_len_first(s: Seq<TxSegment>)
    requires
        s.len() > 0,
    ensures
        segments_len(s) == s[0].len + segments_len(s.drop_first()),
        segments_len(s.drop_first()) >= 0,
    decreases s.len(),
{
    if s.len() == 1 {
        assert(s.drop_last() =~= Seq::empty());
        assert(s.drop_first() =~= Seq::empty());
    } else {
        lemma_segments_len_first(s.drop_last());
        assert(s.drop_first().drop_last() =~= s.drop_last().drop_first());
    }
}

proof fn lemma_segment_address_push(s: Seq<TxSegment>, k: int)
    requires
        s.len() > 0,
        0 <= k,
    ensures
        segment_address(s, k) == if k < segments_len(s.drop_last()) {
            segment_address(s.drop_last(), k)
        } else if k - segments_len(s.drop_last()) < s.last().len {
            Some(s.last().gpa + (k - segments_len(s.drop_last())))
        } else {
            None
        },
    decreases s.len(),
{
    let init = s.drop_last();
    if s.len() == 1 {
        assert(s.drop_first() =~= Seq::empty());
        assert(init =~= Seq::empty());
    } else {
        let rest = s.drop_first();
        assert(rest.drop_last() =~= init.drop_first());
        lemma_segments_len_first(init);
        if k >= s[0].len {
            lemma_segment_address_push(rest, k - s[0].len);
        }
    }
}

/// The pieces of a byte range lie where the bytes are: byte `k` of them is at the guest
/// address of byte `lo + k` of the runs.
pub proof fn pieces_keep_addresses(runs: Seq<GuestRun>, lo: int, hi: int, k: int)
    requires
        0 <= lo <= hi <= runs_len(runs),
        0 <= k < hi - lo,
        pieces(runs, lo, hi) is Some,
        forall|i: int|
            0 <= i < runs.len() ==> ((#[trigger] runs[i]).gpa matches Some(gpa) ==> gpa
                + runs[i].len <= u64::MAX),
    ensures
        segment_address(pieces(runs, lo, hi)->0, k) is Some,
        segment_address(pieces(runs, lo, hi)->0, k) == run_address(runs, lo + k),
    decreases runs.len(),
{
    let init = runs.drop_last();
    let at = runs_len(init);
    lemma_runs_len_take(init, 0);
    lemma_run_address_push(runs, lo + k);
    assert forall|i: int| 0 <= i < init.len() implies ((#[trigger] init[i]).gpa matches Some(gpa)
        ==> gpa + init[i].len <= u64::MAX) by {
        assert(init[i] == runs[i]);
    }
    let s = pieces(runs, lo, hi)->0;
    let t = pieces(init, lo, hi)->0;
    pieces_cover_range(init, lo, hi);
    if lo + k < at {
        let cut = if hi < at {
            hi
        } else {
            at
        };
        if at <= hi {
            lemma_pieces_cut(init, lo, hi);
        }
        pieces_keep_addresses(init, lo, cut, k);
    }
    if s.len() > t.len() {
        assert(s.drop_last() =~= t);
        lemma_segment_address_push(s, k);
    }
}

/// Bytes behind the last run do not matter.
proof fn lemma_pieces_cut(runs: Seq<GuestRun>, lo: int, hi: int)
    requires
        runs_len(runs) <= hi,
    ensures
        pieces(runs, lo, hi) == pieces(runs, lo, runs_len(runs)),
    decreases runs.len(),
{
    lemma_pieces_beyond(runs, lo, hi, runs_len(runs));
}

proof fn lemma_pieces_beyond(runs: Seq<GuestRun>, lo: int, hi: int, other: int)
    requires
        runs_len(runs) <= hi,
        runs_len(runs) <= other,
    ensures
        pieces(runs, lo, hi) == pieces(runs, lo, other),
    decreases runs.len(),
{
    if runs.len() > 0 {
        lemma_runs_len_take(runs, runs.len() - 1);
        assert(runs.take(runs.len() - 1) =~= runs.drop_last());
        lemma_pieces_beyond(runs.drop_last(), lo, hi, other);
    }
}

/// The segments of a message are the bytes of its frame: together they are as long as the
/// frame, byte `k` of them is at the guest address of byte `k` of the frame, and only the
/// first one is a head.
pub proof fn segments_are_the_frame(
    bytes: Seq<u8>,
    ends: Seq<usize>,
    runs: Seq<GuestRun>,
    pos: int,
    id: u32,
    k: int,
)
    requires
        0 <= pos <= bytes.len(),
        forall|i: int| 0 <= i < ends.len() ==> #[trigger] ends[i] <= bytes.len(),
        runs_len(runs) == bytes.len(),
        forall|i: int|
            0 <= i < runs.len() ==> ((#[trigger] runs[i]).gpa matches Some(gpa) ==> gpa
                + runs[i].len <= u64::MAX),
        packet_segments(bytes, ends, runs, pos, id) is Ok,
    ensures
        ({
            let s = packet_segments(bytes, ends, runs, pos, id)->Ok_0;
            &&& segments_len(s) == u32_at(bytes, pos + 4)
            &&& 0 <= k < u32_at(bytes, pos + 4) ==> segment_address(s, k) is Some
                && segment_address(s, k) == run_address(runs, pos + u32_at(bytes, pos) + k)
            &&& s.len() > 0 && s[0].ty is Head
            &&& forall|i: int| 0 < i < s.len() ==> (#[trigger] s[i]).ty is Tail
        }),
{
    lemma_accepted(bytes, ends, runs, pos, id);
    let f = frame_at(bytes, ends, pos, id)->Ok_0;
    let s = packet_segments(bytes, ends, runs, pos, id)->Ok_0;
    let p = pieces(runs, f.lo, f.hi)->0;
    pieces_cover_range(runs, f.lo, f.hi);
    lemma_same_places(s, p, k);
    lemma_pieces_tails(runs, f.lo, f.hi);
    if 0 <= k < f.hi - f.lo {
        pieces_keep_addresses(runs, f.lo, f.hi, k);
    }
}

proof fn lemma_pieces_tails(runs: Seq<GuestRun>, lo: int, hi: int)
    requires
        pieces(runs, lo, hi) is Some,
    ensures
        forall|i: int|
            0 <= i < pieces(runs, lo, hi)->0.len() ==> (#[trigger] pieces(
                runs,
                lo,
                hi,
            )->0[i]).ty is Tail,
    decreases runs.len(),
{
    if runs.len() > 0 {
        lemma_pieces_tails(runs.drop_last(), lo, hi);
    }
}

proof fn lemma_same_places(s: Seq<TxSegment>, p: Seq<TxSegment>, k: int)
    requires
        s.len() == p.len(),
        forall|i: int|
            0 <= i < s.len() ==> (#[trigger] s[i]).gpa == p[i].gpa && s[i].len == p[i].len,
    ensures
        segments_len(s) == segments_len(p),
        segment_address(s, k) == segment_address(p, k),
    decreases s.len(),
{
    if s.len() > 0 {
        assert forall|i: int| 0 <= i < s.len() - 1 implies (#[trigger] s.drop_first()[i]).gpa
            == p.drop_first()[i].gpa && s.drop_first()[i].len == p.drop_first()[i].len by {
            assert(s[i + 1].gpa == p[i + 1].gpa);
        }
        lemma_same_places(s.drop_first(), p.drop_first(), k - s[0].len);
        lemma_segments_len_first(s);
        lemma_segments_len_first(p);
    }
}

/// Information of a type that is not known changes nothing, and each piece is applied to
/// what the pieces before it say.
pub proof fn unknown_information_is_skipped(m: TxMetadata, ppi: Seq<u8>, frame: Seq<u8>)
    requires
        ppi.len() >= 12,
        u32_at(ppi, 4) != 0,
        u32_at(ppi, 4) != 2,
        0 < u32_at(ppi, 0) <= ppi.len(),
        u32_at(ppi, 8) <= u32_at(ppi, 0),
    ensures
        with_ppi(m, ppi, frame) == with_ppi(m, ppi.skip(u32_at(ppi, 0) as int), frame),
{
    reveal(with_piece);
}

/// What is refused of a message whose header is there: anything but a frame within the
/// message, out-of-band data, and a large send whose TCP header would start within the
/// Ethernet header.
pub proof fn bad_messages_are_refused(
    bytes: Seq<u8>,
    ends: Seq<usize>,
    runs: Seq<GuestRun>,
    pos: int,
    id: u32,
)
    requires
        0 <= pos,
        pos + 36 <= header_end(ends, pos) <= bytes.len(),
    ensures
        ({
            let r = packet_segments(bytes, ends, runs, pos, id);
            let oob = u32_at(bytes, pos + 8) != 0 || u32_at(bytes, pos + 12) != 0 || u32_at(
                bytes,
                pos + 16,
            ) != 0 || u32_at(bytes, pos + 28) != 0;
            let beyond = u32_at(bytes, pos + 4) == 0 || pos + u32_at(bytes, pos) + u32_at(
                bytes,
                pos + 4,
            ) > bytes.len();
            &&& oob ==> r == Err::<Seq<TxSegment>, WorkerError>(
                WorkerError::UnsupportedRndisBehavior,
            )
            &&& !oob && beyond ==> r == Err::<Seq<TxSegment>, WorkerError>(
                WorkerError::RndisMessageTooSmall,
            )
            &&& !oob && !beyond && u32_at(bytes, pos + 24) == 0 && pieces(
                runs,
                pos + u32_at(bytes, pos),
                pos + u32_at(bytes, pos) + u32_at(bytes, pos + 4),
            ) is Some ==> r is Ok
        }),
{
    let end = header_end(ends, pos);
    lemma_u32_in(bytes, pos, end, 0);
    lemma_u32_in(bytes, pos, end, 4);
    lemma_u32_in(bytes, pos, end, 8);
    lemma_u32_in(bytes, pos, end, 12);
    lemma_u32_in(bytes, pos, end, 16);
    lemma_u32_in(bytes, pos, end, 20);
    lemma_u32_in(bytes, pos, end, 24);
    lemma_u32_in(bytes, pos, end, 28);
}

/// A large send whose TCP header would start within the Ethernet header, or whose TCP
/// header is not within the frame, is refused; any other one is not.
pub proof fn large_send_is_refused(m: TxMetadata, n: u32, frame: Seq<u8>)
    ensures
        ({
            let tcp = (n / 0x10_0000) % 1024;
            &&& with_lso(m, n, frame) is Ok <==> 14 <= tcp && tcp + 13 <= frame.len()
            &&& tcp < 14 ==> with_lso(m, n, frame) == Err::<TxMetadata, WorkerError>(
                WorkerError::InvalidTcpHeaderOffset,
            )
            &&& tcp >= 14 && tcp + 13 > frame.len() ==> with_lso(m, n, frame) == Err::<
                TxMetadata,
                WorkerError,
            >(WorkerError::Access)
        }),
{
}

} // verus!
