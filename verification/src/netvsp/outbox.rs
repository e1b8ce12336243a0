//! What a channel sends to the guest.
use crate::netvsp::protocol::{OutgoingPacket, OutgoingPacketType, PacketTypeView, PacketView};
use crate::netvsp::error::WorkerError;
use vstd::prelude::*;

verus! {

/// Something that becomes visible to the guest.
#[derive(Debug)]
pub enum Effect {
    /// A packet on the outgoing ring.
    Send(OutgoingPacket),
    /// Bytes at the start of a suballocation of the receive buffer.
    WriteReceiveBuffer {
        /// The suballocation.
        id: u32,
        /// The bytes.
        bytes: Vec<u8>,
    },
}

/// What an [`Effect`] says.
pub enum EffectView {
    /// A packet on the outgoing ring.
    Send(PacketView),
    /// Bytes at the start of a suballocation of the receive buffer.
    WriteReceiveBuffer {
        /// The suballocation.
        id: u32,
        /// The bytes.
        bytes: Seq<u8>,
    },
}

impl View for Effect {
    type V = EffectView;

    open spec fn view(&self) -> EffectView {
        match self {
            Effect::Send(p) => EffectView::Send(p@),
            Effect::WriteReceiveBuffer { id, bytes } => EffectView::WriteReceiveBuffer {
                id: *id,
                bytes: bytes@,
            },
        }
    }
}

/// The outgoing side of a channel: the room that is left on the ring, and what
/// is to be carried out, in order.
#[derive(Debug)]
pub struct Outbox {
    /// The number of bytes that still fit on the ring.
    pub free: usize,
    /// What is to be carried out.
    pub effects: Vec<Effect>,
}

/// What an [`Outbox`] holds.
pub struct OutboxView {
    /// The number of bytes that still fit on the ring.
    pub free: int,
    /// What is to be carried out.
    pub log: Seq<EffectView>,
}

impl View for Outbox {
    type V = OutboxView;

    open spec fn view(&self) -> OutboxView {
        OutboxView {
            free: self.free as int,
            log: self.effects@.map_values(|e: Effect| e@),
        }
    }
}

/// `n` rounded up to a multiple of eight.
pub open spec fn round8(n: int) -> int {
    (n + 7) / 8 * 8
}

/// The number of bytes that a packet takes on the ring: a descriptor of 16
/// bytes, for transfer pages a header of eight bytes and eight bytes for each
/// range, the payload rounded up to eight bytes, and a trailer of eight bytes.
pub open spec fn ring_size(p: PacketView) -> int {
    24 + round8(p.payload.len() as int) + match p.packet_type {
        PacketTypeView::TransferPages(_, ranges) => 8 + 8 * ranges.len(),
        _ => 0,
    }
}

impl OutboxView {
    /// Whether the packet fits on the ring.
    pub open spec fn fits(self, p: PacketView) -> bool {
        ring_size(p) <= self.free
    }

    /// The outbox after `p` was sent.
    pub open spec fn sent(self, p: PacketView) -> OutboxView {
        OutboxView { free: self.free - ring_size(p), log: self.log.push(EffectView::Send(p)) }
    }

    /// The outbox after `bytes` were written to suballocation `id`.
    pub open spec fn wrote(self, id: u32, bytes: Seq<u8>) -> OutboxView {
        OutboxView {
            free: self.free,
            log: self.log.push(EffectView::WriteReceiveBuffer { id, bytes }),
        }
    }

    /// The outbox after `p` was sent if it fits.
    pub open spec fn sent_if_fits(self, p: PacketView) -> OutboxView {
        if self.fits(p) {
            self.sent(p)
        } else {
            self
        }
    }
}

/// The most payload bytes, and eight times the ranges, that a packet has.
pub const MAX_PACKET_PART: usize = 0x100_0000;

impl Outbox {
    /// An empty outbox for a ring with room for `free` bytes.
    pub fn new(free: usize) -> (o: Outbox)
        ensures
            o@ == (OutboxView { free: free as int, log: Seq::empty() }),
    {
        let o = Outbox { free, effects: Vec::new() };
        assert(o@.log =~= Seq::<EffectView>::empty());
        o
    }

    /// Whether `n` bytes fit on the ring.
    pub fn can_write(&self, n: usize) -> (b: bool)
        ensures
            b == (n <= self@.free),
    {
        n <= self.free
    }

    /// Sends a packet if it fits; otherwise reports how much room it needs.
    pub fn try_write(&mut self, p: OutgoingPacket) -> (r: Result<(), usize>)
        requires
            p.payload@.len() <= MAX_PACKET_PART,
            p.packet_type matches OutgoingPacketType::TransferPages(_, ranges) ==> ranges@.len()
                <= MAX_PACKET_PART,
        ensures
            old(self)@.fits(p@) ==> r is Ok && final(self)@ == old(self)@.sent(p@),
            !old(self)@.fits(p@) ==> r is Err && r->Err_0 == ring_size(p@) && final(self)@ == old(
                self,
            )@,
    {
        let payload_len: usize = (p.payload.len() + 7) / 8 * 8;
        let extra: usize = match &p.packet_type {
            OutgoingPacketType::TransferPages(_, ranges) => 8 + 8 * ranges.len(),
            _ => 0,
        };
        let size: usize = 24 + payload_len + extra;
        if size <= self.free {
            self.free = self.free - size;
            self.effects.push(Effect::Send(p));
            assert(self@.log =~= old(self)@.sent(p@).log);
            Ok(())
        } else {
            Err(size)
        }
    }

    /// Writes to a suballocation of the receive buffer.
    pub fn write_buffer(&mut self, id: u32, bytes: Vec<u8>)
        ensures
            final(self)@ == old(self)@.wrote(id, bytes@),
    {
        self.effects.push(Effect::WriteReceiveBuffer { id, bytes });
        assert(self@.log =~= old(self)@.wrote(id, bytes@).log);
    }
}

/// The completion of the transaction `id`.
pub open spec fn completion(id: u64, payload: Seq<u8>) -> PacketView {
    PacketView { transaction_id: id, packet_type: PacketTypeView::Completion, payload }
}

/// Whether a completion can be sent: nothing is needed where the guest did not
/// ask for one.
pub open spec fn can_complete(o: OutboxView, id: Option<u64>, payload: Seq<u8>) -> bool {
    id is Some ==> o.fits(completion(id->0, payload))
}

/// The outbox after a completion, where the guest asked for one and it fits.
pub open spec fn completed(o: OutboxView, id: Option<u64>, payload: Seq<u8>) -> OutboxView {
    match id {
        Some(id) => o.sent_if_fits(completion(id, payload)),
        None => o,
    }
}

/// Completes a transaction of the guest, if it asked for that.
pub fn send_completion(out: &mut Outbox, transaction_id: Option<u64>, payload: Vec<u8>) -> (r:
    Result<(), WorkerError>)
    requires
        payload@.len() <= MAX_PACKET_PART,
    ensures
        final(out)@ == completed(old(out)@, transaction_id, payload@),
        r == if can_complete(old(out)@, transaction_id, payload@) {
            Ok::<(), WorkerError>(())
        } else {
            Err::<(), WorkerError>(WorkerError::OutOfSpace)
        },
{
    match transaction_id {
        None => Ok(()),
        Some(transaction_id) => {
            let p = OutgoingPacket {
                transaction_id,
                packet_type: OutgoingPacketType::Completion,
                payload,
            };
            assert(p@ == completion(transaction_id, payload@));
            match out.try_write(p) {
                Ok(()) => Ok(()),
                Err(_) => Err(WorkerError::OutOfSpace),
            }
        },
    }
}

/// A packet is sent whole or not at all: what is sent takes its bytes off the room, and the
/// room never runs out. What was to be carried out before stays, in order.
pub proof fn sending_takes_room(o: OutboxView, p: PacketView)
    requires
        o.free >= 0,
    ensures
        ({
            let next = o.sent_if_fits(p);
            &&& next.free >= 0
            &&& ring_size(p) <= o.free ==> next.log == o.log.push(EffectView::Send(p)) && next.free
                == o.free - ring_size(p)
            &&& ring_size(p) > o.free ==> next.log == o.log && next.free == o.free
        }),
        ring_size(p) >= 24 + p.payload.len(),
        ring_size(p) % 8 == 0,
        !(p.packet_type is TransferPages) ==> ring_size(p) < 32 + p.payload.len(),
        p.packet_type is TransferPages ==> {
            let n = p.packet_type->TransferPages_1.len();
            32 + p.payload.len() + 8 * n <= ring_size(p) < 40 + p.payload.len() + 8 * n
        },
{
}

/// A transaction that asked for it is completed once, with its own ID; one that did not is
/// not.
pub proof fn completion_answers_transaction(o: OutboxView, id: Option<u64>, payload: Seq<u8>)
    ensures
        id is None ==> completed(o, id, payload) == o && can_complete(o, id, payload),
        id is Some && can_complete(o, id, payload) ==> completed(o, id, payload).log == o.log.push(
            EffectView::Send(
                PacketView {
                    transaction_id: id->0,
                    packet_type: PacketTypeView::Completion,
                    payload,
                },
            ),
        ),
        id is Some && !can_complete(o, id, payload) ==> completed(o, id, payload) == o,
        id is Some && o.free >= 32 + payload.len() ==> can_complete(o, id, payload),
        id is Some && o.free < 24 + payload.len() ==> !can_complete(o, id, payload),
{
}

} // verus!
