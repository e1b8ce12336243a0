//! Transmission and reception on the queues of a port.
use crate::gdma::hwc::HwcError;
use crate::gdma::slots::{
    free_keys, one_taken, slab_get, slab_insert, slab_new, slab_set, slab_try_remove, slots,
    RxPacket, Segment, Slot,
};
use crate::gdma_defs::bnic::{
    ManaCqeHeader, ManaRxcompOob, ManaRxcompOobFlags, ManaRxcompPerpktInfo, ManaTxCompOob,
    ManaTxCompOobOffsets, ManaTxShortOob, CQE_RX_OKAY, CQE_TX_GDMA_ERR, CQE_TX_OKAY,
    MANA_CQE_COMPLETION,
};
use crate::wire::{
    copy_bytes, le32, lemma_le32_round_trip, read_u64, u16_at, u32_at, u64_at,
};
use slab::Slab;
use vstd::prelude::*;

verus! {

/// The most receive buffers that wait at the endpoint.
pub const MAX_RX_BUF: u32 = 256;

/// The longest header of a packet that is cut into segments.
pub const MAX_LSO_HEADER: u32 = 256;

/// What the endpoint has to know about a frame.
#[derive(Debug, Clone, Copy, PartialEq, Eq, Structural)]
pub struct TxMetadata {
    /// The number of segments.
    pub segment_count: u8,
    /// The length of the frame.
    pub len: u32,
    /// The endpoint computes the IPv4 header checksum.
    pub offload_ip_header_checksum: bool,
    /// The endpoint computes the TCP checksum.
    pub offload_tcp_checksum: bool,
    /// The endpoint computes the UDP checksum.
    pub offload_udp_checksum: bool,
    /// The endpoint cuts the frame into TCP segments.
    pub offload_tcp_segmentation: bool,
    /// It is IPv4.
    pub is_ipv4: bool,
    /// It is IPv6.
    pub is_ipv6: bool,
    /// The length of the Ethernet header.
    pub l2_len: u8,
    /// The length of the IP header.
    pub l3_len: u16,
    /// The length of the TCP header.
    pub l4_len: u8,
    /// The largest TCP segment.
    pub max_tcp_segment_size: u16,
}

/// A work queue entry of the driver.
#[derive(Debug)]
pub struct Sqe {
    /// What goes with it.
    pub oob: Vec<u8>,
    /// The pieces of the frame.
    pub sgl: Vec<Segment>,
    /// Whether the first piece is the header of a frame to be cut into segments.
    pub client_oob_in_sgl: bool,
    /// The largest TCP segment.
    pub gd_client_unit_data: u16,
}

/// The length of all pieces.
pub open spec fn sgl_len(sgl: Seq<Segment>) -> int
    decreases sgl.len(),
{
    if sgl.len() == 0 {
        0
    } else {
        sgl_len(sgl.drop_last()) + sgl.last().len
    }
}

/// What becomes of a work queue entry.
#[derive(Debug, Clone, Copy, PartialEq, Eq, Structural)]
pub enum SqeOutcome {
    /// Its pieces are handed to the endpoint as one frame.
    Transmit(TxMetadata),
    /// It is completed with an error.
    Error,
}

/// The length of the IP header, of which the end is at `trans_off`: at most 241.
pub open spec fn ip_header_len(trans_off: int) -> int {
    if trans_off < 14 {
        0
    } else if trans_off > 255 {
        241
    } else {
        trans_off - 14
    }
}

/// The metadata of a frame.
pub open spec fn frame_metadata(sqe: Sqe) -> TxMetadata {
    let s = u64_at(sqe.oob@, 0) as int;
    let is_ipv4 = (s / 4) % 2 == 1;
    let l3_len = ip_header_len((s / 0x1_0000_0000) % 1024);
    let header = sqe.sgl@[0].len - 14 - l3_len;
    TxMetadata {
        segment_count: sqe.sgl@.len() as u8,
        len: sgl_len(sqe.sgl@) as u32,
        offload_ip_header_checksum: (s / 16) % 2 == 1,
        offload_tcp_checksum: (s / 32) % 2 == 1,
        offload_udp_checksum: (s / 64) % 2 == 1,
        offload_tcp_segmentation: sqe.client_oob_in_sgl,
        is_ipv4,
        is_ipv6: (s / 8) % 2 == 1 && !is_ipv4,
        l2_len: 14,
        l3_len: l3_len as u16,
        l4_len: if !sqe.client_oob_in_sgl || header < 0 {
            0
        } else {
            header as u8
        },
        max_tcp_segment_size: if sqe.client_oob_in_sgl {
            sqe.gd_client_unit_data
        } else {
            0
        },
    }
}

/// What becomes of a work queue entry. A frame that is cut into segments must
/// have its header, of at most 256 bytes, in the first of at least two pieces.
pub open spec fn sqe_outcome(sqe: Sqe) -> Result<SqeOutcome, HwcError> {
    if sqe.oob@.len() < 8 || sqe.sgl@.len() == 0 {
        Err(HwcError::Access)
    } else if sqe.client_oob_in_sgl && (sqe.sgl@.len() < 2 || sqe.sgl@[0].len > MAX_LSO_HEADER) {
        Ok(SqeOutcome::Error)
    } else {
        Ok(SqeOutcome::Transmit(frame_metadata(sqe)))
    }
}

proof fn lemma_sgl_len_take(sgl: Seq<Segment>, n: int)
    requires
        0 <= n <= sgl.len(),
    ensures
        0 <= sgl_len(sgl.take(n)) <= sgl_len(sgl),
    decreases sgl.len(),
{
    if n == sgl.len() {
        assert(sgl.take(n) =~= sgl);
        if n > 0 {
            lemma_sgl_len_take(sgl.drop_last(), n - 1);
        }
    } else {
        assert(sgl.drop_last().take(n) =~= sgl.take(n));
        lemma_sgl_len_take(sgl.drop_last(), n);
    }
}

fn total_len(sgl: &Vec<Segment>) -> (n: u32)
    requires
        sgl_len(sgl@) <= u32::MAX,
    ensures
        n == sgl_len(sgl@),
{
    let mut n: u32 = 0;
    let mut i: usize = 0;
    assert(sgl@.take(0) =~= Seq::empty());
    while i < sgl.len()
        invariant
            i <= sgl@.len(),
            sgl_len(sgl@) <= u32::MAX,
            n == sgl_len(sgl@.take(i as int)),
        decreases sgl@.len() - i,
    {
        assert(sgl@.take(i + 1).drop_last() =~= sgl@.take(i as int));
        assert(sgl@.take(i + 1).last() == sgl@[i as int]);
        proof {
            lemma_sgl_len_take(sgl@, i + 1);
        }
        n = n + sgl[i].len;
        i = i + 1;
    }
    assert(sgl@.take(i as int) =~= sgl@);
    n
}

/// Decides what becomes of a work queue entry.
pub fn process_sqe(sqe: &Sqe) -> (r: Result<SqeOutcome, HwcError>)
    requires
        sqe.sgl@.len() <= 255,
        sgl_len(sqe.sgl@) <= u32::MAX,
    ensures
        r == sqe_outcome(*sqe),
{
    if sqe.oob.len() < 8 {
        return Err(HwcError::Access);
    }
    if sqe.sgl.len() == 0 {
        return Err(HwcError::Access);
    }
    let s_oob = ManaTxShortOob(read_u64(sqe.oob.as_slice(), 0));
    let first: u32 = sqe.sgl[0].len;
    let trans_off: u16 = s_oob.trans_off();
    let l3_len: u16 = if trans_off < 14 {
        0
    } else if trans_off > 255 {
        241
    } else {
        trans_off - 14
    };
    let mut l4_len: u8 = 0;
    let mut max_tcp_segment_size: u16 = 0;
    if sqe.client_oob_in_sgl {
        let header: u32 = first.saturating_sub(14 + l3_len as u32);
        #[verifier::truncate]
        let header8: u8 = header as u8;
        l4_len = header8;
        max_tcp_segment_size = sqe.gd_client_unit_data;
        if sqe.sgl.len() < 2 {
            return Ok(SqeOutcome::Error);
        }
        if first > MAX_LSO_HEADER {
            return Ok(SqeOutcome::Error);
        }
    }
    let is_ipv4 = s_oob.is_outer_ipv4();
    let metadata = TxMetadata {
        segment_count: sqe.sgl.len() as u8,
        len: total_len(&sqe.sgl),
        offload_ip_header_checksum: s_oob.comp_iphdr_csum(),
        offload_tcp_checksum: s_oob.comp_tcp_csum(),
        offload_udp_checksum: s_oob.comp_udp_csum(),
        offload_tcp_segmentation: sqe.client_oob_in_sgl,
        is_ipv4,
        is_ipv6: s_oob.is_outer_ipv6() && !is_ipv4,
        l2_len: 14,
        l3_len,
        l4_len,
        max_tcp_segment_size,
    };
    Ok(SqeOutcome::Transmit(metadata))
}

/// The completion of a transmission: type and client in the first byte.
pub open spec fn tx_completion(cqe_type: u8) -> Seq<u8> {
    seq![(cqe_type + 64 * MANA_CQE_COMPLETION) as u8] + crate::wire::zeros(59)
}

fn tx_completion_bytes(cqe_type: u8) -> (r: Vec<u8>)
    requires
        cqe_type < 64,
    ensures
        r@ == tx_completion(cqe_type),
{
    let cqe_hdr = ManaCqeHeader::new().with_client_type(MANA_CQE_COMPLETION).with_cqe_type(
        cqe_type,
    );
    let tx_oob = ManaTxCompOob {
        cqe_hdr,
        tx_data_offset: 0,
        offsets: ManaTxCompOobOffsets::new(),
        reserved: [0, 0, 0, 0, 0, 0, 0, 0, 0, 0, 0, 0],
    };
    let mut out: Vec<u8> = Vec::new();
    tx_oob.push_to(&mut out);
    assert(out@ =~= tx_completion(cqe_type));
    out
}

/// The completion of a frame that was sent.
pub fn post_tx_completion() -> (r: Vec<u8>)
    ensures
        r@ == tx_completion(CQE_TX_OKAY),
{
    tx_completion_bytes(CQE_TX_OKAY)
}

/// The completion of an entry that was refused.
pub fn post_tx_completion_error() -> (r: Vec<u8>)
    ensures
        r@ == tx_completion(CQE_TX_GDMA_ERR),
{
    tx_completion_bytes(CQE_TX_GDMA_ERR)
}

/// Whether a frame is completed at once: the endpoint has sent it, or has not
/// taken it.
pub fn completes_at_once(sync: bool, count: usize) -> (b: bool)
    ensures
        b == (sync || count == 0),
{
    sync || count == 0
}

/// The result of a checksum verification.
#[derive(Debug, Clone, Copy, PartialEq, Eq, Structural)]
pub enum RxChecksumState {
    /// Not known.
    Unknown,
    /// Correct.
    Good,
    /// Wrong.
    Bad,
    /// Validated, but to be recomputed.
    ValidatedButWrong,
}

/// Layer 4 protocol.
#[derive(Debug, Clone, Copy, PartialEq, Eq, Structural)]
pub enum L4Protocol {
    /// Unknown.
    Unknown,
    /// TCP.
    Tcp,
    /// UDP.
    Udp,
}

/// What the endpoint has found out about a packet.
#[derive(Debug, Clone, Copy, PartialEq, Eq, Structural)]
pub struct RxMetadata {
    /// Its length.
    pub len: usize,
    /// The IP header checksum.
    pub ip_checksum: RxChecksumState,
    /// The layer 4 protocol.
    pub l4_protocol: L4Protocol,
    /// The layer 4 checksum.
    pub l4_checksum: RxChecksumState,
}

/// Bit values of the flags that tell of checksums: each a bit for success and the
/// next one for failure.
pub open spec fn checksum_flag(state: RxChecksumState, good: int) -> int {
    match state {
        RxChecksumState::Good => good,
        RxChecksumState::Bad => 2 * good,
        _ => 0,
    }
}

/// The flags of a packet: IP from bit 25, TCP from bit 27 and UDP from bit 29.
pub open spec fn rx_flags(m: RxMetadata) -> int {
    checksum_flag(m.ip_checksum, 0x200_0000) + match m.l4_protocol {
        L4Protocol::Unknown => 0,
        L4Protocol::Tcp => checksum_flag(m.l4_checksum, 0x800_0000),
        L4Protocol::Udp => checksum_flag(m.l4_checksum, 0x2000_0000),
    }
}

fn get_rx_flags(m: &RxMetadata) -> (f: ManaRxcompOobFlags)
    ensures
        f.0 == rx_flags(*m),
{
    let mut flags = ManaRxcompOobFlags::new();
    match m.ip_checksum {
        RxChecksumState::Good => {
            flags = flags.with_rx_iphdr_csum_succeed(true);
        },
        RxChecksumState::Bad => {
            flags = flags.with_rx_iphdr_csum_fail(true);
        },
        _ => {},
    }
    match m.l4_protocol {
        L4Protocol::Unknown => {},
        L4Protocol::Tcp => match m.l4_checksum {
            RxChecksumState::Good => {
                flags = flags.with_rx_tcp_csum_succeed(true);
            },
            RxChecksumState::Bad => {
                flags = flags.with_rx_tcp_csum_fail(true);
            },
            _ => {},
        },
        L4Protocol::Udp => match m.l4_checksum {
            RxChecksumState::Good => {
                flags = flags.with_rx_udp_csum_succeed(true);
            },
            RxChecksumState::Bad => {
                flags = flags.with_rx_udp_csum_fail(true);
            },
            _ => {},
        },
    }
    flags
}

/// The receive buffers of a port.
pub struct GuestBuffers {
    /// The buffers, by ID.
    pub rx_packets: Slab<Slot>,
    /// How many of them wait at the endpoint.
    pub rx_buf_count: u32,
}

/// An empty completion.
pub open spec fn is_empty_oob(oob: ManaRxcompOob) -> bool {
    &&& oob.cqe_hdr.0 == 0
    &&& oob.flags.0 == 0
    &&& oob.rx_wqe_offset == 0
    &&& forall|i: int|
        0 <= i < 4 ==> (#[trigger] oob.ppi@[i]) == (ManaRxcompPerpktInfo {
            pkt_len: 0,
            reserved1: 0,
            reserved2: 0,
            pkt_hash: 0,
        })
}

/// The completion of a packet of `len` bytes.
pub open spec fn is_rx_oob(oob: ManaRxcompOob, m: RxMetadata, wqe_offset: u32) -> bool {
    &&& oob.cqe_hdr.0 == CQE_RX_OKAY + 64 * MANA_CQE_COMPLETION
    &&& oob.flags.0 == rx_flags(m)
    &&& oob.rx_wqe_offset == wqe_offset
    &&& oob.ppi@[0] == (ManaRxcompPerpktInfo {
        pkt_len: m.len as u16,
        reserved1: 0,
        reserved2: 0,
        pkt_hash: 0,
    })
    &&& forall|i: int|
        1 <= i < 4 ==> (#[trigger] oob.ppi@[i]) == (ManaRxcompPerpktInfo {
            pkt_len: 0,
            reserved1: 0,
            reserved2: 0,
            pkt_hash: 0,
        })
}

fn empty_info() -> (i: ManaRxcompPerpktInfo)
    ensures
        i == (ManaRxcompPerpktInfo { pkt_len: 0, reserved1: 0, reserved2: 0, pkt_hash: 0 }),
{
    ManaRxcompPerpktInfo { pkt_len: 0, reserved1: 0, reserved2: 0, pkt_hash: 0 }
}

impl GuestBuffers {
    /// The buffers, by ID.
    pub open spec fn packets(&self) -> Map<usize, Slot> {
        slots(self.rx_packets)
    }

    /// The IDs of the buffers to come; the last one is the next.
    pub open spec fn ids(&self) -> Seq<usize> {
        free_keys(self.rx_packets)
    }

    /// All slots are receive buffers.
    pub open spec fn wf(&self) -> bool {
        forall|key: usize| #[trigger]
            self.packets().contains_key(key) ==> self.packets()[key] is Rx
    }

    /// No buffers.
    pub fn new() -> (b: GuestBuffers)
        ensures
            b.wf(),
            b.rx_buf_count == 0,
            forall|key: usize| !(#[trigger] b.packets().contains_key(key)),
            b.ids() == seq![0usize],
    {
        GuestBuffers { rx_packets: slab_new(), rx_buf_count: 0 }
    }

    /// Whether another buffer is taken from the receive queue.
    pub fn wants_rqe(&self) -> (b: bool)
        ensures
            b == (self.rx_buf_count < MAX_RX_BUF),
    {
        self.rx_buf_count < MAX_RX_BUF
    }

    /// Takes a buffer from the receive queue, and returns the ID under which the
    /// endpoint gets it.
    pub fn process_rqe(&mut self, sgl: Vec<Segment>, wqe_offset: u32) -> (id: usize)
        requires
            old(self).wf(),
            old(self).rx_buf_count < MAX_RX_BUF,
            sgl_len(sgl@) <= u32::MAX,
        ensures
            final(self).wf(),
            final(self).rx_buf_count == old(self).rx_buf_count + 1,
            old(self).ids().len() >= 1 && id == old(self).ids().last(),
            final(self).ids() == one_taken(old(self).ids()),
            !old(self).packets().contains_key(id),
            final(self).packets() == old(self).packets().insert(id, final(self).packets()[id]),
            final(self).packets()[id] is Rx,
            ({
                let p = final(self).packets()[id]->Rx_0;
                &&& p.segments == sgl
                &&& p.len == sgl_len(sgl@)
                &&& p.wqe_offset == wqe_offset
                &&& is_empty_oob(p.oob)
            }),
    {
        let len: u32 = total_len(&sgl);
        let e = empty_info();
        let oob = ManaRxcompOob {
            cqe_hdr: ManaCqeHeader::new(),
            flags: ManaRxcompOobFlags::new(),
            ppi: [e, e, e, e],
            rx_wqe_offset: 0,
        };
        let packet = RxPacket { segments: sgl, len, wqe_offset, oob };
        self.rx_buf_count = self.rx_buf_count + 1;
        slab_insert(&mut self.rx_packets, Slot::Rx(packet))
    }

    /// The length of buffer `id`.
    pub fn capacity(&self, id: usize) -> (n: u32)
        requires
            self.wf(),
            self.packets().contains_key(id),
        ensures
            n == self.packets()[id]->Rx_0.len,
    {
        match slab_get(&self.rx_packets, id) {
            Some(Slot::Rx(packet)) => packet.len,
            _ => 0,
        }
    }

    /// Where buffer `id` is.
    pub fn guest_addresses(&self, id: usize) -> (s: Vec<Segment>)
        requires
            self.wf(),
            self.packets().contains_key(id),
        ensures
            s@ == self.packets()[id]->Rx_0.segments@,
    {
        let mut out: Vec<Segment> = Vec::new();
        if let Some(Slot::Rx(packet)) = slab_get(&self.rx_packets, id) {
            let mut i: usize = 0;
            while i < packet.segments.len()
                invariant
                    i <= packet.segments@.len(),
                    out@ == packet.segments@.take(i as int),
                decreases packet.segments@.len() - i,
            {
                out.push(packet.segments[i]);
                i = i + 1;
                assert(out@ =~= packet.segments@.take(i as int));
            }
            assert(packet.segments@.take(i as int) =~= packet.segments@);
        }
        out
    }

    /// Prepares the completion of buffer `id`, which holds a packet.
    pub fn write_header(&mut self, id: usize, m: &RxMetadata)
        requires
            old(self).wf(),
            old(self).packets().contains_key(id),
        ensures
            final(self).wf(),
            final(self).rx_buf_count == old(self).rx_buf_count,
            final(self).ids() == old(self).ids(),
            ({
                let before = old(self).packets()[id]->Rx_0;
                let after = final(self).packets()[id]->Rx_0;
                &&& final(self).packets() == old(self).packets().insert(id, Slot::Rx(after))
                &&& after.segments@ == before.segments@
                &&& after.len == before.len
                &&& after.wqe_offset == before.wqe_offset
                &&& is_rx_oob(after.oob, *m, before.wqe_offset)
                &&& has_bit(after.oob.flags.0, 0x800_0000) == (m.l4_protocol == L4Protocol::Tcp
                    && m.l4_checksum == RxChecksumState::Good)
                &&& has_bit(after.oob.flags.0, 0x1000_0000) == (m.l4_protocol == L4Protocol::Tcp
                    && m.l4_checksum == RxChecksumState::Bad)
                &&& has_bit(after.oob.flags.0, 0x2000_0000) == (m.l4_protocol == L4Protocol::Udp
                    && m.l4_checksum == RxChecksumState::Good)
                &&& has_bit(after.oob.flags.0, 0x4000_0000) == (m.l4_protocol == L4Protocol::Udp
                    && m.l4_checksum == RxChecksumState::Bad)
                &&& has_bit(after.oob.flags.0, 0x200_0000) == (m.ip_checksum
                    == RxChecksumState::Good)
                &&& has_bit(after.oob.flags.0, 0x400_0000) == (m.ip_checksum
                    == RxChecksumState::Bad)
            }),
    {
        let segments = self.guest_addresses(id);
        let (len, wqe_offset): (u32, u32) = match slab_get(&self.rx_packets, id) {
            Some(Slot::Rx(packet)) => (packet.len, packet.wqe_offset),
            _ => (0, 0),
        };
        #[verifier::truncate]
        let pkt_len: u16 = m.len as u16;
        let e = empty_info();
        let first = ManaRxcompPerpktInfo { pkt_len, reserved1: 0, reserved2: 0, pkt_hash: 0 };
        let oob = ManaRxcompOob {
            cqe_hdr: ManaCqeHeader::new().with_cqe_type(CQE_RX_OKAY).with_client_type(
                MANA_CQE_COMPLETION,
            ),
            flags: get_rx_flags(m),
            ppi: [first, e, e, e],
            rx_wqe_offset: wqe_offset,
        };
        let _ = slab_set(
            &mut self.rx_packets,
            id,
            Slot::Rx(RxPacket { segments, len, wqe_offset, oob }),
        );
        assert(self.packets()[id]->Rx_0.oob == oob);
        proof {
            completion_tells_checksums(oob, *m, wqe_offset);
        }
    }

    /// Gives buffer `id`, which the endpoint has filled, back to the driver.
    /// Returns the completion.
    pub fn process_rx(&mut self, id: usize) -> (r: Result<Vec<u8>, HwcError>)
        requires
            old(self).wf(),
            old(self).rx_buf_count >= 1,
        ensures
            final(self).wf(),
            if old(self).packets().contains_key(id) {
                &&& r is Ok
                &&& r->Ok_0@ == old(self).packets()[id]->Rx_0.oob.bytes()
                &&& final(self).rx_buf_count == old(self).rx_buf_count - 1
                &&& final(self).packets() == old(self).packets().remove(id)
                &&& final(self).ids() == old(self).ids().push(id)
            } else {
                &&& r == Err::<Vec<u8>, HwcError>(HwcError::NoQueue)
                &&& final(self).rx_buf_count == old(self).rx_buf_count
                &&& final(self).packets() == old(self).packets()
                &&& final(self).ids() == old(self).ids()
            },
    {
        match slab_try_remove(&mut self.rx_packets, id) {
            Some(Slot::Rx(packet)) => {
                let mut out: Vec<u8> = Vec::new();
                packet.oob.push_to(&mut out);
                assert(out@ =~= packet.oob.bytes());
                self.rx_buf_count = self.rx_buf_count - 1;
                Ok(out)
            },
            _ => Err(HwcError::NoQueue),
        }
    }
}

/// A write to guest memory.
#[derive(Debug)]
pub struct GuestWrite {
    /// Where.
    pub gpa: u64,
    /// What.
    pub data: Vec<u8>,
}

/// All bytes of writes, in order.
pub open spec fn written_bytes(writes: Seq<GuestWrite>) -> Seq<u8>
    decreases writes.len(),
{
    if writes.len() == 0 {
        Seq::empty()
    } else {
        written_bytes(writes.drop_last()) + writes.last().data@
    }
}

/// Spreads the data of a packet over the pieces of its buffer: each write goes to
/// the start of a piece, in order, and fills it unless the data ends there.
pub fn write_data(segments: &Vec<Segment>, data: &[u8]) -> (writes: Vec<GuestWrite>)
    requires
        data@.len() <= sgl_len(segments@),
    ensures
        written_bytes(writes@) == data@,
        writes@.len() <= segments@.len(),
        forall|i: int|
            0 <= i < writes@.len() ==> {
                &&& (#[trigger] writes@[i]).gpa == segments@[i].gpa
                &&& writes@[i].data@.len() <= segments@[i].len
                &&& i + 1 < writes@.len() ==> writes@[i].data@.len() == segments@[i].len
            },
{
    let mut writes: Vec<GuestWrite> = Vec::new();
    let mut pos: usize = 0;
    let n: usize = data.len();
    assert(segments@.take(0) =~= Seq::empty());
    assert(written_bytes(writes@) =~= data@.take(0));
    while pos < n
        invariant
            pos <= n,
            n == data@.len(),
            n <= sgl_len(segments@),
            writes@.len() <= segments@.len(),
            written_bytes(writes@) == data@.take(pos as int),
            pos < n ==> pos == sgl_len(segments@.take(writes@.len() as int)),
            forall|i: int|
                0 <= i < writes@.len() ==> {
                    &&& (#[trigger] writes@[i]).gpa == segments@[i].gpa
                    &&& writes@[i].data@.len() <= segments@[i].len
                    &&& i + 1 < writes@.len() || pos < n ==> writes@[i].data@.len()
                        == segments@[i].len
                },
        decreases n - pos, segments@.len() - writes@.len(),
    {
        let k: usize = writes.len();
        if k >= segments.len() {
            assert(segments@.take(k as int) =~= segments@);
            return writes;
        }
        let seg = segments[k];
        assert(segments@.take(k + 1).drop_last() =~= segments@.take(k as int));
        assert(segments@.take(k + 1).last() == seg);
        let left: usize = n - pos;
        let len: usize = if left < seg.len as usize {
            left
        } else {
            seg.len as usize
        };
        let ghost before = writes@;
        let piece = copy_bytes(data, pos, len);
        writes.push(GuestWrite { gpa: seg.gpa, data: piece });
        assert(writes@.drop_last() =~= before);
        assert(data@.take(pos as int) + piece@ =~= data@.take(pos + len));
        pos = pos + len;
    }
    assert(data@.take(pos as int) =~= data@);
    writes
}

/// Bit `n` of flags, where `pow` is two to the power of `n`.
pub open spec fn has_bit(flags: u32, pow: int) -> bool {
    (flags as int / pow) % 2 == 1
}

/// The completion of a received packet tells of each checksum what the endpoint found: success
/// exactly if it is good, failure exactly if it is bad, and of TCP and UDP only the one that
/// the packet has. It says so in the bytes that the driver gets, with the length of the
/// packet and the place of its buffer in the queue.
pub proof fn completion_tells_checksums(oob: ManaRxcompOob, m: RxMetadata, wqe_offset: u32)
    requires
        is_rx_oob(oob, m, wqe_offset),
    ensures
        ({
            let f = oob.flags.0;
            &&& has_bit(f, 0x200_0000) == (m.ip_checksum == RxChecksumState::Good)
            &&& has_bit(f, 0x400_0000) == (m.ip_checksum == RxChecksumState::Bad)
            &&& has_bit(f, 0x800_0000) == (m.l4_protocol == L4Protocol::Tcp && m.l4_checksum
                == RxChecksumState::Good)
            &&& has_bit(f, 0x1000_0000) == (m.l4_protocol == L4Protocol::Tcp && m.l4_checksum
                == RxChecksumState::Bad)
            &&& has_bit(f, 0x2000_0000) == (m.l4_protocol == L4Protocol::Udp && m.l4_checksum
                == RxChecksumState::Good)
            &&& has_bit(f, 0x4000_0000) == (m.l4_protocol == L4Protocol::Udp && m.l4_checksum
                == RxChecksumState::Bad)
            &&& f % 0x200_0000 == 0
            &&& f < 0x8000_0000
        }),
        oob.bytes().len() == 60,
        u32_at(oob.bytes(), 4) == oob.flags.0,
        oob.bytes()[0] == 1 + 64 * 1,
        u32_at(oob.bytes(), 0) < 0x100,
        u16_at(oob.bytes(), 8) == m.len as u16,
        u32_at(oob.bytes(), 56) == wqe_offset,
{
    let b = oob.bytes();
    lemma_le32_round_trip(oob.cqe_hdr.0);
    lemma_le32_round_trip(oob.flags.0);
    lemma_le32_round_trip(oob.rx_wqe_offset);
    assert(u32_at(b, 0) == u32_at(le32(oob.cqe_hdr.0), 0));
    assert(u32_at(b, 4) == u32_at(le32(oob.flags.0), 0));
    assert(b[8] == oob.ppi[0].bytes()[0]);
    assert(b[9] == oob.ppi[0].bytes()[1]);
    assert(u32_at(b, 56) == u32_at(le32(oob.rx_wqe_offset), 0));
}

/// A frame that is handed to the endpoint is the one that the entry describes: all of its
/// pieces, with the offloads of its bits. A frame is IPv4 or IPv6 but not both, its headers add
/// up to the transport header's offset, and only a frame with a separate header is cut into
/// segments, of the size that the entry gives.
pub proof fn entry_becomes_its_frame(sqe: Sqe)
    requires
        sqe.sgl@.len() <= 255,
        0 <= sgl_len(sqe.sgl@) <= u32::MAX,
        sqe_outcome(sqe) matches Ok(SqeOutcome::Transmit(_)),
    ensures
        ({
            let m = sqe_outcome(sqe)->Ok_0->Transmit_0;
            let lo = u32_at(sqe.oob@, 0);
            let trans_off = u32_at(sqe.oob@, 4) % 1024;
            &&& sqe.oob@.len() >= 8
            &&& m.segment_count == sqe.sgl@.len() > 0
            &&& m.len == sgl_len(sqe.sgl@)
            &&& m.is_ipv4 == ((lo / 4) % 2 == 1)
            &&& m.is_ipv6 == ((lo / 8) % 2 == 1 && (lo / 4) % 2 == 0)
            &&& !(m.is_ipv4 && m.is_ipv6)
            &&& m.offload_ip_header_checksum == ((lo / 16) % 2 == 1)
            &&& m.offload_tcp_checksum == ((lo / 32) % 2 == 1)
            &&& m.offload_udp_checksum == ((lo / 64) % 2 == 1)
            &&& m.offload_tcp_segmentation == sqe.client_oob_in_sgl
            &&& m.l2_len == 14
            &&& 14 <= trans_off <= 255 ==> m.l2_len + m.l3_len == trans_off
            &&& trans_off < 14 ==> m.l3_len == 0
            &&& trans_off > 255 ==> m.l2_len + m.l3_len == 255
            &&& !sqe.client_oob_in_sgl ==> m.l4_len == 0 && m.max_tcp_segment_size == 0
            &&& sqe.client_oob_in_sgl ==> {
                &&& sqe.sgl@.len() >= 2
                &&& sqe.sgl@[0].len <= 256
                &&& m.max_tcp_segment_size == sqe.gd_client_unit_data
                &&& m.l2_len + m.l3_len <= sqe.sgl@[0].len ==> m.l2_len + m.l3_len + m.l4_len
                    == sqe.sgl@[0].len
                &&& m.l2_len + m.l3_len > sqe.sgl@[0].len ==> m.l4_len == 0
            }
        }),
{
    lemma_lower_bits(u32_at(sqe.oob@, 0), u32_at(sqe.oob@, 4));
}

proof fn lemma_lower_bits(lo: u32, hi: u32)
    ensures
        ({
            let s = lo + 0x1_0000_0000 * hi;
            &&& s <= u64::MAX
            &&& s / 0x1_0000_0000 == hi
            &&& (s / 4) % 2 == (lo / 4) % 2
            &&& (s / 8) % 2 == (lo / 8) % 2
            &&& (s / 16) % 2 == (lo / 16) % 2
            &&& (s / 32) % 2 == (lo / 32) % 2
            &&& (s / 64) % 2 == (lo / 64) % 2
        }),
{
    let s = lo + 0x1_0000_0000 * hi;
    assert(s / 4 == lo / 4 + 2 * (0x2000_0000 * hi));
    assert(s / 8 == lo / 8 + 2 * (0x1000_0000 * hi));
    assert(s / 16 == lo / 16 + 2 * (0x800_0000 * hi));
    assert(s / 32 == lo / 32 + 2 * (0x400_0000 * hi));
    assert(s / 64 == lo / 64 + 2 * (0x200_0000 * hi));
}

/// An entry without pieces, or without the first eight bytes that go with it, cannot be read;
/// one that wants segments but has no header of its own, of at most 256 bytes, is completed
/// with an error; and any other one is transmitted.
pub proof fn bad_entries_are_not_sent(sqe: Sqe)
    ensures
        sqe_outcome(sqe) == Err::<SqeOutcome, HwcError>(HwcError::Access) <==> sqe.oob@.len() < 8
            || sqe.sgl@.len() == 0,
        sqe_outcome(sqe) == Ok::<SqeOutcome, HwcError>(SqeOutcome::Error) <==> sqe.oob@.len() >= 8
            && sqe.client_oob_in_sgl && (sqe.sgl@.len() == 1 || (sqe.sgl@.len() > 1
            && sqe.sgl@[0].len > 256)),
{
}

/// The completion of a transmission says whether it was sent, in its lowest six bits, and is
/// 60 bytes long.
pub proof fn transmission_outcome_is_told()
    ensures
        tx_completion(CQE_TX_OKAY).len() == 60,
        tx_completion(CQE_TX_GDMA_ERR).len() == 60,
        tx_completion(CQE_TX_OKAY)[0] % 64 == 32,
        tx_completion(CQE_TX_GDMA_ERR)[0] % 64 == 42,
        tx_completion(CQE_TX_OKAY)[0] / 64 == 1,
        tx_completion(CQE_TX_GDMA_ERR)[0] / 64 == 1,
        forall|i: int| 1 <= i < 60 ==> #[trigger] tx_completion(CQE_TX_OKAY)[i] == 0,
{
}

} // verus!
