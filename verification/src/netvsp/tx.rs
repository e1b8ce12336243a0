//! Packets of the guest and their completion.
use crate::netvsp::control::{ChannelView, NetChannel};
use crate::netvsp::control_queue::{
    queue_control_message, queue_error, CONTROL_MESSAGE_MAX_QUEUED_BYTES,
};
use crate::netvsp::error::WorkerError;
use crate::netvsp::outbox::{completion, ring_size};
use crate::netvsp::protocol::{
    fields, message, message_bytes, OutgoingPacket, OutgoingPacketType, PacketView,
    MESSAGE1_TYPE_SEND_RNDIS_PACKET_COMPLETE, PACKET_SIZE_V61, STATUS_SUCCESS,
};
use crate::netvsp::rndis::{MESSAGE_TYPE_HALT_MSG, MESSAGE_TYPE_PACKET_MSG};
use crate::netvsp::state::{
    primary_view, total_len, ActiveState, ActiveView, ControlMessageView, PendingTxCompletion,
    PendingTxPacket, PrimaryChannelState, PrimaryView,
};
use crate::netvsp::stats::{lemma_plus_plus, plus, QueueStats};
use crate::netvsp::tx_packet::{
    handle_rndis_packet_message, packet_segments, PacketMemory, TxSegment, TxSegmentType,
};
use crate::wire::{copy_bytes, le32_list, u32_at};
use vstd::prelude::*;

verus! {

/// The completion of a packet of the guest.
pub open spec fn tx_completion(packet_size: usize, transaction_id: u64) -> PacketView {
    completion(
        transaction_id,
        message_bytes(
            packet_size as int,
            MESSAGE1_TYPE_SEND_RNDIS_PACKET_COMPLETE,
            le32_list(seq![STATUS_SUCCESS]),
        ),
    )
}

/// The channel after a completion was tried, and whether it was sent. If not, the
/// channel waits for the room.
pub open spec fn tx_completion_tried(c: ChannelView, transaction_id: u64) -> (ChannelView, bool) {
    let p = tx_completion(c.packet_size, transaction_id);
    if c.out.fits(p) {
        (c.with_out(c.out.sent(p)), true)
    } else {
        (ChannelView { pending_send_size: ring_size(p) as usize, ..c }, false)
    }
}

/// The channel and its state after all frames of the packet in slot `id` were
/// completed: the completion is sent and the slot is free, or both wait.
pub open spec fn tx_completed(c: ChannelView, a: ActiveView, id: u32) -> (ChannelView, ActiveView) {
    let transaction_id = a.pending_tx_packets[id as int].transaction_id;
    let tried = tx_completion_tried(c, transaction_id);
    if c.pending_send_size == 0 && tried.1 {
        (tried.0, ActiveView { free_tx_packets: a.free_tx_packets.push(id), ..a })
    } else {
        (
            if c.pending_send_size == 0 {
                tried.0
            } else {
                c
            },
            ActiveView {
                pending_tx_completions: a.pending_tx_completions.push(
                    PendingTxCompletion { transaction_id, tx_id: Some(id) },
                ),
                ..a
            },
        )
    }
}

/// The waiting completions are sent, oldest first, as far as there is room.
pub open spec fn pending_sent(c: ChannelView, a: ActiveView) -> (ChannelView, ActiveView)
    decreases a.pending_tx_completions.len(),
{
    if a.pending_tx_completions.len() == 0 {
        (ChannelView { pending_send_size: 0, ..c }, a)
    } else {
        let first = a.pending_tx_completions[0];
        let tried = tx_completion_tried(c, first.transaction_id);
        if tried.1 {
            pending_sent(
                tried.0,
                ActiveView {
                    pending_tx_completions: a.pending_tx_completions.drop_first(),
                    free_tx_packets: match first.tx_id {
                        Some(id) => a.free_tx_packets.push(id),
                        None => a.free_tx_packets,
                    },
                    ..a
                },
            )
        } else {
            (tried.0, a)
        }
    }
}

impl NetChannel {
    /// Completes a packet of the guest, if there is room on the ring.
    pub fn try_send_tx_packet(&mut self, transaction_id: u64) -> (sent: bool)
        requires
            old(self).packet_size <= PACKET_SIZE_V61,
        ensures
            (final(self)@, sent) == tx_completion_tried(old(self)@, transaction_id),
    {
        let a: [u32; 1] = [STATUS_SUCCESS];
        assert(a@ =~= seq![STATUS_SUCCESS]);
        let m = message(self.packet_size, MESSAGE1_TYPE_SEND_RNDIS_PACKET_COMPLETE, fields(&a));
        let p = OutgoingPacket {
            transaction_id,
            packet_type: OutgoingPacketType::Completion,
            payload: m.payload(),
        };
        match self.out.try_write(p) {
            Ok(()) => true,
            Err(n) => {
                self.pending_send_size = n;
                false
            },
        }
    }

    /// Completes the packet in slot `id`, all frames of which are done.
    pub fn complete_tx_packet(&mut self, state: &mut ActiveState, id: u32)
        requires
            old(self).packet_size <= PACKET_SIZE_V61,
            id < old(state)@.pending_tx_packets.len(),
            old(state)@.pending_tx_packets[id as int].pending_packet_count == 0,
        ensures
            (final(self)@, final(state)@) == tx_completed(old(self)@, old(state)@, id),
            final(state).primary == old(state).primary,
    {
        let transaction_id: u64 = state.pending_tx_packets[id as usize].transaction_id;
        if self.pending_send_size == 0 && self.try_send_tx_packet(transaction_id) {
            state.free_tx_packets.push(id);
        } else {
            state.pending_tx_completions.push_back(
                PendingTxCompletion { transaction_id, tx_id: Some(id) },
            );
        }
    }

    /// Sends the waiting completions as far as there is room. Returns whether
    /// any was sent.
    pub fn send_pending_packets(&mut self, state: &mut ActiveState) -> (did_some_work: bool)
        requires
            old(self).packet_size <= PACKET_SIZE_V61,
        ensures
            (final(self)@, final(state)@) == pending_sent(old(self)@, old(state)@),
            final(state).primary == old(state).primary,
            did_some_work == (final(state)@.pending_tx_completions.len() < old(
                state,
            )@.pending_tx_completions.len()),
    {
        let mut did_some_work = false;
        while state.pending_tx_completions.len() > 0
            invariant
                self.packet_size <= PACKET_SIZE_V61,
                pending_sent(old(self)@, old(state)@) == pending_sent(self@, state@),
                state.primary == old(state).primary,
                state@.pending_tx_completions.len() <= old(state)@.pending_tx_completions.len(),
                did_some_work == (state@.pending_tx_completions.len() < old(
                    state,
                )@.pending_tx_completions.len()),
            decreases state@.pending_tx_completions.len(),
        {
            let pending = state.pending_tx_completions[0];
            if !self.try_send_tx_packet(pending.transaction_id) {
                return did_some_work;
            }
            did_some_work = true;
            if let Some(id) = pending.tx_id {
                state.free_tx_packets.push(id);
            }
            let _ = state.pending_tx_completions.pop_front();
        }
        self.pending_send_size = 0;
        did_some_work
    }
}

/// The number of frames that begin in `s`.
pub open spec fn heads(s: Seq<TxSegment>) -> nat
    decreases s.len(),
{
    if s.len() == 0 {
        0
    } else {
        heads(s.drop_last()) + (if s.last().ty is Head {
            1nat
        } else {
            0nat
        })
    }
}

/// Counts the frames that begin in the first `n` segments.
pub fn packet_count(segments: &Vec<TxSegment>, n: usize) -> (count: usize)
    requires
        n <= segments@.len(),
    ensures
        count == heads(segments@.take(n as int)),
{
    let mut count: usize = 0;
    let mut i: usize = 0;
    while i < n
        invariant
            i <= n,
            n <= segments@.len(),
            count == heads(segments@.take(i as int)),
            count <= i,
        decreases n - i,
    {
        assert(segments@.take(i + 1).drop_last() =~= segments@.take(i as int));
        assert(segments@.take(i + 1).last() == segments@[i as int]);
        if let TxSegmentType::Head(_) = segments[i].ty {
            count = count + 1;
        }
        i = i + 1;
    }
    count
}

/// The state after the endpoint has taken frames: if it has completed them at
/// once, they are no longer in flight.
pub open spec fn frames_taken(a: ActiveView, id: u32, packets_sent: nat, sync: bool) -> ActiveView {
    let slot = a.pending_tx_packets[id as int];
    if sync {
        ActiveView {
            pending_tx_packets: a.pending_tx_packets.update(
                id as int,
                PendingTxPacket {
                    pending_packet_count: (slot.pending_packet_count - packets_sent) as usize,
                    ..slot
                },
            ),
            ..a
        }
    } else {
        a
    }
}

/// How many frames the endpoint has taken with the first `segments_sent`
/// segments.
pub open spec fn frames_sent(
    segments: Seq<TxSegment>,
    segments_sent: int,
    num_packets: nat,
) -> nat {
    if segments_sent == segments.len() {
        num_packets
    } else {
        heads(segments.take(segments_sent))
    }
}

/// The channel and its state after the endpoint has taken frames of the packet in slot
/// `id`: a packet without frames in flight is completed.
pub open spec fn transmitted(
    c: ChannelView,
    a: ActiveView,
    id: u32,
    packets_sent: nat,
    sync: bool,
) -> (ChannelView, ActiveView) {
    let taken = frames_taken(a, id, packets_sent, sync);
    if taken.pending_tx_packets[id as int].pending_packet_count == 0 {
        tx_completed(c, taken, id)
    } else {
        (c, taken)
    }
}

impl NetChannel {
    /// Takes note of what the endpoint has taken of the packet in slot `id`,
    /// which has `num_packets` frames: the first `segments_sent` segments, and
    /// whether it has completed them at once. Returns the number of frames that
    /// were taken.
    pub fn transmit_segments(
        &mut self,
        state: &mut ActiveState,
        segments: &mut Vec<TxSegment>,
        id: u32,
        num_packets: usize,
        sync: bool,
        segments_sent: usize,
    ) -> (packets_sent: usize)
        requires
            old(self).packet_size <= PACKET_SIZE_V61,
            id < old(state)@.pending_tx_packets.len(),
            segments_sent <= old(segments)@.len(),
            sync ==> frames_sent(old(segments)@, segments_sent as int, num_packets as nat) <= old(
                state,
            )@.pending_tx_packets[id as int].pending_packet_count,
        ensures
            packets_sent == frames_sent(
                old(segments)@,
                segments_sent as int,
                num_packets as nat,
            ),
            final(segments)@ == old(segments)@.skip(segments_sent as int),
            final(state).primary == old(state).primary,
            (final(self)@, final(state)@) == transmitted(
                old(self)@,
                old(state)@,
                id,
                packets_sent as nat,
                sync,
            ),
    {
        let packets_sent: usize = if segments_sent == segments.len() {
            num_packets
        } else {
            packet_count(segments, segments_sent)
        };
        let rest = segments.split_off(segments_sent);
        *segments = rest;
        assert(segments@ =~= old(segments)@.skip(segments_sent as int));
        let slot = state.pending_tx_packets[id as usize];
        if sync {
            state.pending_tx_packets.set(
                id as usize,
                PendingTxPacket {
                    pending_packet_count: slot.pending_packet_count - packets_sent,
                    transaction_id: slot.transaction_id,
                },
            );
        }
        if state.pending_tx_packets[id as usize].pending_packet_count == 0 {
            self.complete_tx_packet(state, id);
        }
        packets_sent
    }

    /// Takes note of what the endpoint did with the frames of a packet that was just taken
    /// from the ring. If it did not take all, the queue is stalled.
    pub fn transmit_packet(
        &mut self,
        state: &mut ActiveState,
        segments: &mut Vec<TxSegment>,
        id: u32,
        num_packets: usize,
        sync: bool,
        segments_sent: usize,
    ) -> (packets_sent: usize)
        requires
            old(self).packet_size <= PACKET_SIZE_V61,
            id < old(state)@.pending_tx_packets.len(),
            segments_sent <= old(segments)@.len(),
            sync ==> frames_sent(old(segments)@, segments_sent as int, num_packets as nat) <= old(
                state,
            )@.pending_tx_packets[id as int].pending_packet_count,
        ensures
            packets_sent == frames_sent(
                old(segments)@,
                segments_sent as int,
                num_packets as nat,
            ),
            final(segments)@ == old(segments)@.skip(segments_sent as int),
            final(state).primary == old(state).primary,
            ({
                let t = transmitted(old(self)@, old(state)@, id, packets_sent as nat, sync);
                &&& final(self)@ == t.0
                &&& final(state)@ == if packets_sent < num_packets {
                    ActiveView { stats: t.1.stats.with_stall(), ..t.1 }
                } else {
                    t.1
                }
            }),
    {
        let packets_sent: usize = self.transmit_segments(
            state,
            segments,
            id,
            num_packets,
            sync,
            segments_sent,
        );
        state.stats.count_transmit(packets_sent, num_packets);
        packets_sent
    }

    /// Takes note of what the endpoint did with segments that had waited. That counts as
    /// work if it took all.
    pub fn transmit_pending_segments(
        &mut self,
        state: &mut ActiveState,
        segments: &mut Vec<TxSegment>,
        id: u32,
        num_packets: usize,
        sync: bool,
        segments_sent: usize,
    ) -> (did_some_work: bool)
        requires
            old(self).packet_size <= PACKET_SIZE_V61,
            id < old(state)@.pending_tx_packets.len(),
            segments_sent <= old(segments)@.len(),
            sync ==> frames_sent(old(segments)@, segments_sent as int, num_packets as nat) <= old(
                state,
            )@.pending_tx_packets[id as int].pending_packet_count,
        ensures
            final(segments)@ == old(segments)@.skip(segments_sent as int),
            final(state).primary == old(state).primary,
            ({
                let sent = frames_sent(
                    old(segments)@,
                    segments_sent as int,
                    num_packets as nat,
                );
                &&& did_some_work == (sent == num_packets)
                &&& (final(self)@, final(state)@) == transmitted(
                    old(self)@,
                    old(state)@,
                    id,
                    sent,
                    sync,
                )
            }),
    {
        let packets_sent: usize = self.transmit_segments(
            state,
            segments,
            id,
            num_packets,
            sync,
            segments_sent,
        );
        packets_sent == num_packets
    }
}

/// What is left to transmit: the slot of the first segment and the number of its
/// frames that are in flight.
pub fn pending_transmit(state: &ActiveState, segments: &Vec<TxSegment>) -> (r: Option<(u32, usize)>)
    requires
        segments@.len() > 0 ==> segments@[0].ty is Head && segments@[0].ty->Head_0.id
            < state@.pending_tx_packets.len(),
    ensures
        r == if segments@.len() == 0 {
            None::<(u32, usize)>
        } else {
            let id = segments@[0].ty->Head_0.id;
            Some((id, state@.pending_tx_packets[id as int].pending_packet_count))
        },
{
    if segments.len() == 0 {
        return None;
    }
    match segments[0].ty {
        TxSegmentType::Head(metadata) => Some(
            (metadata.id, state.pending_tx_packets[metadata.id as usize].pending_packet_count),
        ),
        TxSegmentType::Tail => None,
    }
}

/// The slot of a frame that the endpoint has completed has one in flight.
pub open spec fn tx_done_valid(packets: Seq<PendingTxPacket>, id: u32) -> bool {
    id < packets.len() && packets[id as int].pending_packet_count > 0
}

/// One frame of the packet in slot `id` was completed by the endpoint.
pub open spec fn tx_done_one(c: ChannelView, a: ActiveView, id: u32) -> (ChannelView, ActiveView) {
    let done = frames_taken(a, id, 1, true);
    if done.pending_tx_packets[id as int].pending_packet_count == 0 {
        tx_completed(c, done, id)
    } else {
        (c, done)
    }
}

/// Frames were completed by the endpoint, one after another.
pub open spec fn tx_done_all(c: ChannelView, a: ActiveView, ids: Seq<u32>) -> (
    ChannelView,
    ActiveView,
)
    decreases ids.len(),
{
    if ids.len() == 0 {
        (c, a)
    } else {
        let before = tx_done_all(c, a, ids.drop_last());
        tx_done_one(before.0, before.1, ids.last())
    }
}

/// Each frame that the endpoint completes is in flight.
pub open spec fn tx_done_all_valid(c: ChannelView, a: ActiveView, ids: Seq<u32>) -> bool {
    forall|i: int|
        0 <= i < ids.len() ==> tx_done_valid(
            tx_done_all(c, a, ids.take(i)).1.pending_tx_packets,
            #[trigger] ids[i],
        )
}

/// What the endpoint says of its transmits.
#[derive(Debug)]
pub enum TxPoll {
    /// These slots have a frame that is done.
    Done(Vec<u32>),
    /// The queues have to be restarted.
    TryRestart,
    /// The endpoint has failed.
    Fatal,
}

/// The completions of all packets in flight.
pub open spec fn inflight_completions(packets: Seq<PendingTxPacket>) -> Seq<PendingTxCompletion>
    decreases packets.len(),
{
    if packets.len() == 0 {
        Seq::empty()
    } else if packets.last().pending_packet_count > 0 {
        inflight_completions(packets.drop_last()).push(
            PendingTxCompletion {
                transaction_id: packets.last().transaction_id,
                tx_id: Some((packets.len() - 1) as u32),
            },
        )
    } else {
        inflight_completions(packets.drop_last())
    }
}

/// The slots with nothing in flight.
pub open spec fn all_landed(packets: Seq<PendingTxPacket>) -> Seq<PendingTxPacket> {
    packets.map_values(|p: PendingTxPacket| PendingTxPacket { pending_packet_count: 0, ..p })
}

impl NetChannel {
    /// Takes note of what the endpoint says of its transmits. Before the queues
    /// are restarted, all packets in flight are completed.
    pub fn process_endpoint_tx(&mut self, state: &mut ActiveState, poll: TxPoll) -> (r: Result<
        bool,
        WorkerError,
    >)
        requires
            old(self).packet_size <= PACKET_SIZE_V61,
            old(state)@.pending_tx_packets.len() <= u32::MAX,
            poll matches TxPoll::Done(ids) ==> tx_done_all_valid(old(self)@, old(state)@, ids@),
        ensures
            final(state).primary == old(state).primary,
            match poll {
                TxPoll::Done(ids) => {
                    &&& r == Ok::<bool, WorkerError>(ids@.len() > 0)
                    &&& (final(self)@, final(state)@) == tx_done_all(old(self)@, old(state)@, ids@)
                },
                TxPoll::TryRestart => {
                    &&& r == Err::<bool, WorkerError>(WorkerError::EndpointRequiresQueueRestart)
                    &&& final(self)@ == old(self)@
                    &&& final(state)@ == (ActiveView {
                        pending_tx_packets: all_landed(old(state)@.pending_tx_packets),
                        pending_tx_completions: old(state)@.pending_tx_completions
                            + inflight_completions(old(state)@.pending_tx_packets),
                        ..old(state)@
                    })
                },
                TxPoll::Fatal => {
                    &&& r == Err::<bool, WorkerError>(WorkerError::Endpoint)
                    &&& *final(self) == *old(self)
                    &&& *final(state) == *old(state)
                },
            },
    {
        match poll {
            TxPoll::Done(ids) => {
                let mut i: usize = 0;
                while i < ids.len()
                    invariant
                        i <= ids@.len(),
                        self.packet_size <= PACKET_SIZE_V61,
                        state.primary == old(state).primary,
                        tx_done_all_valid(old(self)@, old(state)@, ids@),
                        (self@, state@) == tx_done_all(
                            old(self)@,
                            old(state)@,
                            ids@.take(i as int),
                        ),
                    decreases ids@.len() - i,
                {
                    let id: u32 = ids[i];
                    assert(id == ids@[i as int]);
                    assert(ids@.take(i + 1).drop_last() =~= ids@.take(i as int));
                    assert(ids@.take(i + 1).last() == id);
                    let slot = state.pending_tx_packets[id as usize];
                    let left: usize = slot.pending_packet_count - 1;
                    state.pending_tx_packets.set(
                        id as usize,
                        PendingTxPacket {
                            pending_packet_count: left,
                            transaction_id: slot.transaction_id,
                        },
                    );
                    if left == 0 {
                        self.complete_tx_packet(state, id);
                    }
                    i = i + 1;
                }
                assert(ids@.take(i as int) =~= ids@);
                Ok(ids.len() > 0)
            },
            TxPoll::TryRestart => {
                let ghost packets = state@.pending_tx_packets;
                let mut i: usize = 0;
                assert(packets.take(0) =~= Seq::empty());
                assert(state@.pending_tx_completions =~= old(state)@.pending_tx_completions
                    + inflight_completions(packets.take(0)));
                while i < state.pending_tx_packets.len()
                    invariant
                        i <= packets.len(),
                        packets.len() <= u32::MAX,
                        state.primary == old(state).primary,
                        state@.pending_tx_packets.len() == packets.len(),
                        forall|k: int|
                            0 <= k < i ==> #[trigger] state@.pending_tx_packets[k] == (
                            PendingTxPacket { pending_packet_count: 0, ..packets[k] }),
                        forall|k: int|
                            i <= k < packets.len() ==> #[trigger] state@.pending_tx_packets[k]
                                == packets[k],
                        state@ == (ActiveView {
                            pending_tx_packets: state@.pending_tx_packets,
                            pending_tx_completions: old(state)@.pending_tx_completions
                                + inflight_completions(packets.take(i as int)),
                            ..old(state)@
                        }),
                    decreases packets.len() - i,
                {
                    let slot = state.pending_tx_packets[i];
                    assert(packets.take(i + 1).drop_last() =~= packets.take(i as int));
                    assert(packets.take(i + 1).last() == slot);
                    if slot.pending_packet_count > 0 {
                        state.pending_tx_packets.set(
                            i,
                            PendingTxPacket {
                                pending_packet_count: 0,
                                transaction_id: slot.transaction_id,
                            },
                        );
                        state.pending_tx_completions.push_back(
                            PendingTxCompletion {
                                transaction_id: slot.transaction_id,
                                tx_id: Some(i as u32),
                            },
                        );
                    }
                    i = i + 1;
                    assert(state@.pending_tx_completions =~= old(state)@.pending_tx_completions
                        + inflight_completions(packets.take(i as int)));
                }
                assert(packets.take(i as int) =~= packets);
                assert(state@.pending_tx_packets =~= all_landed(packets));
                Err(WorkerError::EndpointRequiresQueueRestart)
            },
            TxPoll::Fatal => Err(WorkerError::Endpoint),
        }
    }
}

/// What the handling of RNDIS messages works on.
pub struct RndisRun {
    /// State of the primary channel, if this is it.
    pub primary: Option<PrimaryView>,
    /// The segments to transmit.
    pub segments: Seq<TxSegment>,
    /// The number of frames so far.
    pub packets: nat,
    /// What was counted so far.
    pub stats: QueueStats,
    /// Where the next message starts.
    pub pos: int,
}

/// What one RNDIS message does, apart from moving on: a packet message adds a
/// frame, a halt nothing, and any other is queued, on the primary channel.
pub open spec fn rndis_message_handled(
    bytes: Seq<u8>,
    ends: Seq<usize>,
    runs: Seq<crate::netvsp::packet::GuestRun>,
    id: u32,
    s: RndisRun,
) -> Result<RndisRun, WorkerError> {
    let typ = u32_at(bytes, s.pos);
    if typ == MESSAGE_TYPE_PACKET_MSG {
        match packet_segments(bytes, ends, runs, s.pos + 8, id) {
            Ok(more) => Ok(
                RndisRun {
                    segments: s.segments + more,
                    packets: s.packets + 1,
                    stats: s.stats.with_frame(more[0].ty->Head_0),
                    ..s
                },
            ),
            Err(err) => Err(err),
        }
    } else if typ == MESSAGE_TYPE_HALT_MSG {
        Ok(s)
    } else {
        match s.primary {
            None => Err(WorkerError::NotSupportedOnSubChannel(typ)),
            Some(p) => match queue_error(p, bytes.skip(s.pos + 8)) {
                Some(err) => Err(err),
                None => Ok(
                    RndisRun {
                        primary: Some(
                            PrimaryView {
                                control_messages: p.control_messages.push(
                                    ControlMessageView {
                                        message_type: typ,
                                        data: bytes.skip(s.pos + 8),
                                    },
                                ),
                                ..p
                            },
                        ),
                        ..s
                    },
                ),
            },
        }
    }
}

/// How many more control bytes may be queued.
pub open spec fn queue_room(p: Option<PrimaryView>) -> int {
    match p {
        Some(p) => CONTROL_MESSAGE_MAX_QUEUED_BYTES - total_len(p.control_messages),
        None => 0,
    }
}

/// All messages from `s.pos` on: there may be several, one after another. The
/// second part is the error that ends them. A frame or a halt that claims to take
/// no bytes is malformed.
pub open spec fn rndis_run(
    bytes: Seq<u8>,
    ends: Seq<usize>,
    runs: Seq<crate::netvsp::packet::GuestRun>,
    id: u32,
    s: RndisRun,
) -> (RndisRun, Option<WorkerError>)
    decreases bytes.len() - s.pos, queue_room(s.primary),
{
    if s.pos >= bytes.len() {
        (s, None)
    } else if bytes.len() - s.pos < 8 {
        (s, Some(WorkerError::Access))
    } else {
        let len = u32_at(bytes, s.pos + 4) as int;
        match rndis_message_handled(bytes, ends, runs, id, s) {
            Err(err) => (s, Some(err)),
            Ok(t) => if len > bytes.len() - s.pos {
                (t, Some(WorkerError::Access))
            } else if len > 0 || (0 <= queue_room(t.primary) < queue_room(s.primary)) {
                rndis_run(bytes, ends, runs, id, RndisRun { pos: s.pos + len, ..t })
            } else {
                (t, Some(WorkerError::RndisMessageTooSmall))
            },
        }
    }
}

/// Each frame is counted once, also if an error ends the messages: the counter of frames
/// grows by the number of frames. Those with offloads are among them, and nothing else is
/// counted.
pub proof fn frames_are_counted(
    bytes: Seq<u8>,
    ends: Seq<usize>,
    runs: Seq<crate::netvsp::packet::GuestRun>,
    id: u32,
    s: RndisRun,
)
    ensures
        ({
            let t = rndis_run(bytes, ends, runs, id, s).0;
            &&& s.packets <= t.packets
            &&& t.stats.tx_packets == plus(s.stats.tx_packets, t.packets - s.packets)
            &&& exists|lso: int|
                0 <= lso <= t.packets - s.packets && t.stats.tx_lso_packets == #[trigger] plus(
                    s.stats.tx_lso_packets,
                    lso,
                )
            &&& exists|checksum: int|
                0 <= checksum <= t.packets - s.packets && t.stats.tx_checksum_packets
                    == #[trigger] plus(s.stats.tx_checksum_packets, checksum)
            &&& t.stats == (QueueStats {
                tx_packets: t.stats.tx_packets,
                tx_lso_packets: t.stats.tx_lso_packets,
                tx_checksum_packets: t.stats.tx_checksum_packets,
                ..s.stats
            })
        }),
    decreases bytes.len() - s.pos, queue_room(s.primary),
{
    let t = rndis_run(bytes, ends, runs, id, s).0;
    assert(plus(s.stats.tx_packets, 0) == s.stats.tx_packets);
    assert(plus(s.stats.tx_lso_packets, 0) == s.stats.tx_lso_packets);
    assert(plus(s.stats.tx_checksum_packets, 0) == s.stats.tx_checksum_packets);
    assert(plus(s.stats.tx_lso_packets, 1) <= u64::MAX);
    assert(plus(s.stats.tx_checksum_packets, 1) <= u64::MAX);
    if s.pos < bytes.len() && bytes.len() - s.pos >= 8 {
        let len = u32_at(bytes, s.pos + 4) as int;
        if let Ok(u) = rndis_message_handled(bytes, ends, runs, id, s) {
            if len <= bytes.len() - s.pos && (len > 0 || (0 <= queue_room(u.primary) < queue_room(
                s.primary,
            ))) {
                let next = RndisRun { pos: s.pos + len, ..u };
                frames_are_counted(bytes, ends, runs, id, next);
                let lso = choose|lso: int|
                    0 <= lso <= t.packets - next.packets && t.stats.tx_lso_packets
                        == #[trigger] plus(next.stats.tx_lso_packets, lso);
                let checksum = choose|checksum: int|
                    0 <= checksum <= t.packets - next.packets && t.stats.tx_checksum_packets
                        == #[trigger] plus(next.stats.tx_checksum_packets, checksum);
                if u.packets > s.packets {
                    lemma_plus_plus(s.stats.tx_packets, 1, t.packets - u.packets);
                    lemma_plus_plus(s.stats.tx_lso_packets, 1, lso);
                    lemma_plus_plus(s.stats.tx_checksum_packets, 1, checksum);
                }
                assert(t.stats.tx_lso_packets == plus(s.stats.tx_lso_packets, lso)
                    || t.stats.tx_lso_packets == plus(s.stats.tx_lso_packets, 1 + lso));
                assert(t.stats.tx_checksum_packets == plus(s.stats.tx_checksum_packets, checksum)
                    || t.stats.tx_checksum_packets == plus(
                    s.stats.tx_checksum_packets,
                    1 + checksum,
                ));
            }
        }
    }
}

/// Handles one RNDIS message, whose type is `message_type` and whose fields start
/// at `pos`. Returns whether it is a frame.
pub fn handle_rndis_message(
    primary: &mut Option<PrimaryChannelState>,
    id: u32,
    message_type: u32,
    m: &PacketMemory,
    pos: usize,
    segments: &mut Vec<TxSegment>,
    stats: &mut QueueStats,
) -> (r: Result<bool, WorkerError>)
    requires
        m.wf(),
        8 <= pos <= m.bytes@.len(),
        message_type == u32_at(m.bytes@, pos - 8),
        *old(primary) matches Some(p) ==> p.wf() && p.control_messages_len
            <= CONTROL_MESSAGE_MAX_QUEUED_BYTES,
    ensures
        *final(primary) matches Some(p) ==> p.wf() && p.control_messages_len
            <= CONTROL_MESSAGE_MAX_QUEUED_BYTES,
        (*final(primary) is Some) == (*old(primary) is Some),
        forall|packets: nat|
            match #[trigger] rndis_message_handled(
                m.bytes@,
                m.range_ends@,
                m.runs@,
                id,
                RndisRun {
                    primary: primary_view(*old(primary)),
                    segments: old(segments)@,
                    packets,
                    stats: *old(stats),
                    pos: pos - 8,
                },
            ) {
                Ok(t) => {
                    &&& r == Ok::<bool, WorkerError>(t.packets != packets)
                    &&& primary_view(*final(primary)) == t.primary
                    &&& final(segments)@ == t.segments
                    &&& *final(stats) == t.stats
                },
                Err(err) => {
                    &&& r == Err::<bool, WorkerError>(err)
                    &&& primary_view(*final(primary)) == primary_view(*old(primary))
                    &&& final(segments)@ == old(segments)@
                    &&& *final(stats) == *old(stats)
                },
            },
{
    if message_type == MESSAGE_TYPE_PACKET_MSG {
        match handle_rndis_packet_message(m, pos, id, segments, stats) {
            Ok(()) => Ok(true),
            Err(err) => Err(err),
        }
    } else if message_type == MESSAGE_TYPE_HALT_MSG {
        Ok(false)
    } else {
        let data = copy_bytes(m.bytes.as_slice(), pos, m.bytes.len() - pos);
        assert(data@ =~= m.bytes@.skip(pos as int));
        match primary.take() {
            None => Err(WorkerError::NotSupportedOnSubChannel(message_type)),
            Some(p) => {
                let mut p = p;
                let r = queue_control_message(&mut p, message_type, data.as_slice());
                *primary = Some(p);
                match r {
                    Ok(()) => Ok(false),
                    Err(err) => Err(err),
                }
            },
        }
    }
}

/// The completion of a packet says that it was sent, under the transaction ID with which the
/// guest has sent it.
pub proof fn completion_reports_success(packet_size: usize, transaction_id: u64)
    ensures
        ({
            let p = tx_completion(packet_size, transaction_id);
            &&& p.transaction_id == transaction_id
            &&& p.packet_type is Completion
            &&& u32_at(p.payload, 0) == 108
            &&& u32_at(p.payload, 4) == 1
        }),
{
    crate::netvsp::protocol::message_is_read_back(
        packet_size as int,
        MESSAGE1_TYPE_SEND_RNDIS_PACKET_COMPLETE,
        seq![STATUS_SUCCESS],
        0,
    );
}

/// A packet that is done is completed at once if nothing waits and the ring has room for it.
/// Its slot is free then. Otherwise it goes to the end of those that wait, with its slot, and
/// nothing is sent: no packet overtakes another.
pub proof fn done_packet_is_completed_in_turn(c: ChannelView, a: ActiveView, id: u32)
    requires
        id < a.pending_tx_packets.len(),
        c.packet_size <= PACKET_SIZE_V61,
    ensures
        ({
            let transaction_id = a.pending_tx_packets[id as int].transaction_id;
            let p = tx_completion(c.packet_size, transaction_id);
            let r = tx_completed(c, a, id);
            if c.pending_send_size == 0 && ring_size(p) <= c.out.free {
                &&& r.0.out.log == c.out.log.push(crate::netvsp::outbox::EffectView::Send(p))
                &&& r.0.out.free == c.out.free - ring_size(p)
                &&& r.0.pending_send_size == 0
                &&& r.1.free_tx_packets.len() == a.free_tx_packets.len() + 1
                &&& r.1.free_tx_packets.last() == id
                &&& r.1.free_tx_packets.drop_last() == a.free_tx_packets
                &&& r.1.pending_tx_completions == a.pending_tx_completions
            } else {
                &&& r.0.out == c.out
                &&& r.0.pending_send_size > 0
                &&& c.pending_send_size == 0 ==> r.0.pending_send_size == ring_size(p)
                &&& r.1.free_tx_packets == a.free_tx_packets
                &&& r.1.pending_tx_completions.len() == a.pending_tx_completions.len() + 1
                &&& r.1.pending_tx_completions.drop_last() == a.pending_tx_completions
                &&& r.1.pending_tx_completions.last().transaction_id == transaction_id
                &&& r.1.pending_tx_completions.last().tx_id == Some(id)
            }
        }),
        tx_completed(c, a, id).1.pending_tx_packets == a.pending_tx_packets,
        tx_completed(c, a, id).1.primary == a.primary,
        tx_completed(c, a, id).1.rx_groups == a.rx_groups,
        tx_completed(c, a, id).1.stats == a.stats,
        tx_completed(c, a, id).0.restart == c.restart,
{
    let transaction_id = a.pending_tx_packets[id as int].transaction_id;
    assert(a.free_tx_packets.push(id).drop_last() =~= a.free_tx_packets);
    assert(a.pending_tx_completions.push(
        PendingTxCompletion { transaction_id, tx_id: Some(id) },
    ).drop_last() =~= a.pending_tx_completions);
    assert(le32_list(seq![STATUS_SUCCESS]).len() == 4);
}

/// Whether the first `n` waiting completions of `a` went out one after another, each under its
/// own transaction ID, and gave their slots back.
pub open spec fn first_went_out(
    c: ChannelView,
    a: ActiveView,
    after: (ChannelView, ActiveView),
    n: int,
) -> bool {
    &&& 0 <= n <= a.pending_tx_completions.len()
    &&& after.1.pending_tx_completions == a.pending_tx_completions.skip(n)
    &&& after.0.out.log.len() == c.out.log.len() + n
    &&& forall|i: int| 0 <= i < c.out.log.len() ==> #[trigger] after.0.out.log[i] == c.out.log[i]
    &&& forall|i: int|
        0 <= i < n ==> after.0.out.log[c.out.log.len() + i] == crate::netvsp::outbox::EffectView::Send(
            tx_completion(c.packet_size, (#[trigger] a.pending_tx_completions[i]).transaction_id),
        )
    &&& forall|i: int|
        0 <= i < a.free_tx_packets.len() ==> #[trigger] after.1.free_tx_packets[i]
            == a.free_tx_packets[i]
    &&& forall|id: u32|
        #[trigger] after.1.free_tx_packets.contains(id) <==> a.free_tx_packets.contains(id)
            || exists|i: int|
            0 <= i < n && (#[trigger] a.pending_tx_completions[i]).tx_id == Some(id)
    &&& after.1.free_tx_packets.len() >= a.free_tx_packets.len()
}

/// Completions that wait are sent oldest first, until the ring is full or none is left. Each
/// frees its slot. If some are left the channel waits for the room that the first of them
/// takes, and otherwise it no longer waits.
pub proof fn waiting_completions_go_out_in_order(c: ChannelView, a: ActiveView)
    requires
        c.packet_size <= PACKET_SIZE_V61,
    ensures
        ({
            let r = pending_sent(c, a);
            &&& exists|n: int| #[trigger] first_went_out(c, a, r, n)
            &&& r.1.pending_tx_completions.len() == 0 ==> r.0.pending_send_size == 0
            &&& r.1.pending_tx_completions.len() > 0 ==> {
                let next = tx_completion(
                    c.packet_size,
                    r.1.pending_tx_completions[0].transaction_id,
                );
                r.0.out.free < ring_size(next) && r.0.pending_send_size == ring_size(next)
            }
            &&& r.1.pending_tx_packets == a.pending_tx_packets
            &&& r.1.primary == a.primary
            &&& r.1.rx_groups == a.rx_groups
            &&& r.0.packet_size == c.packet_size
        }),
    decreases a.pending_tx_completions.len(),
{
    let r = pending_sent(c, a);
    let waiting = a.pending_tx_completions;
    assert(le32_list(seq![STATUS_SUCCESS]).len() == 4);
    if waiting.len() == 0 || !tx_completion_tried(c, waiting[0].transaction_id).1 {
        assert(waiting.skip(0) =~= waiting);
        assert(first_went_out(c, a, r, 0));
    } else {
        let first = waiting[0];
        let d = tx_completion_tried(c, first.transaction_id).0;
        let b = ActiveView {
            pending_tx_completions: waiting.drop_first(),
            free_tx_packets: match first.tx_id {
                Some(id) => a.free_tx_packets.push(id),
                None => a.free_tx_packets,
            },
            ..a
        };
        waiting_completions_go_out_in_order(d, b);
        let m = choose|m: int| #[trigger] first_went_out(d, b, r, m);
        assert(waiting.drop_first().skip(m) =~= waiting.skip(m + 1));
        assert forall|i: int| 0 <= i < c.out.log.len() implies #[trigger] r.0.out.log[i]
            == c.out.log[i] by {
            assert(d.out.log[i] == c.out.log[i]);
        }
        assert forall|i: int| 0 <= i < m + 1 implies r.0.out.log[c.out.log.len() + i]
            == crate::netvsp::outbox::EffectView::Send(
            tx_completion(c.packet_size, (#[trigger] waiting[i]).transaction_id),
        ) by {
            if i == 0 {
                assert(r.0.out.log[c.out.log.len() as int] == d.out.log[c.out.log.len() as int]);
            } else {
                assert(b.pending_tx_completions[i - 1] == waiting[i]);
                assert(r.0.out.log[d.out.log.len() + (i - 1)] == r.0.out.log[c.out.log.len() + i]);
            }
        }
        assert forall|i: int| 0 <= i < a.free_tx_packets.len() implies #[trigger] r.1.free_tx_packets[i]
            == a.free_tx_packets[i] by {
            assert(b.free_tx_packets[i] == a.free_tx_packets[i]);
        }
        assert forall|id: u32| #[trigger] r.1.free_tx_packets.contains(id)
            <==> a.free_tx_packets.contains(id) || exists|i: int|
            0 <= i < m + 1 && (#[trigger] waiting[i]).tx_id == Some(id) by {
            assert(r.1.free_tx_packets.contains(id) <==> b.free_tx_packets.contains(id)
                || exists|i: int|
                0 <= i < m && (#[trigger] b.pending_tx_completions[i]).tx_id == Some(id));
            if b.free_tx_packets.contains(id) {
                let k = choose|k: int| 0 <= k < b.free_tx_packets.len() && b.free_tx_packets[k] == id;
                if k < a.free_tx_packets.len() {
                    assert(a.free_tx_packets[k] == id);
                } else {
                    assert(waiting[0].tx_id == Some(id));
                }
            }
            if a.free_tx_packets.contains(id) {
                let k = choose|k: int| 0 <= k < a.free_tx_packets.len() && a.free_tx_packets[k] == id;
                assert(b.free_tx_packets[k] == id);
            }
            if exists|i: int| 0 <= i < m && (#[trigger] b.pending_tx_completions[i]).tx_id == Some(id) {
                let i = choose|i: int|
                    0 <= i < m && (#[trigger] b.pending_tx_completions[i]).tx_id == Some(id);
                assert(waiting[i + 1].tx_id == Some(id));
            }
            if exists|i: int| 0 <= i < m + 1 && (#[trigger] waiting[i]).tx_id == Some(id) {
                let i = choose|i: int| 0 <= i < m + 1 && (#[trigger] waiting[i]).tx_id == Some(id);
                if i == 0 {
                    assert(b.free_tx_packets[a.free_tx_packets.len() as int] == id);
                } else {
                    assert(b.pending_tx_completions[i - 1].tx_id == Some(id));
                }
            }
        }
        assert(first_went_out(c, a, r, m + 1));
    }
}

/// Frames are counted by their first segments.
pub proof fn heads_are_counted(s: Seq<TxSegment>)
    ensures
        heads(s) == s.filter(|x: TxSegment| x.ty is Head).len(),
    decreases s.len(),
{
    reveal(Seq::filter);
    if s.len() > 0 {
        heads_are_counted(s.drop_last());
    }
}

/// The endpoint is credited with the frames that begin in what it took: all of them if it took
/// everything.
pub proof fn taken_frames_are_counted(segments: Seq<TxSegment>, n: int)
    requires
        0 <= n <= segments.len(),
    ensures
        frames_sent(segments, n, heads(segments)) == segments.take(n).filter(
            |x: TxSegment| x.ty is Head,
        ).len(),
        frames_sent(segments, n, heads(segments)) <= heads(segments),
    decreases segments.len() - n,
{
    heads_are_counted(segments.take(n));
    assert(segments.take(segments.len() as int) =~= segments);
    if n < segments.len() {
        taken_frames_are_counted(segments, n + 1);
        assert(segments.take(n + 1).drop_last() =~= segments.take(n));
    }
}

/// Frames that the endpoint has completed at once are no longer in flight, and no others. A
/// packet none of whose frames is in flight is completed, and any other is not.
pub proof fn taken_frames_leave_flight(
    c: ChannelView,
    a: ActiveView,
    id: u32,
    n: nat,
    sync: bool,
)
    requires
        id < a.pending_tx_packets.len(),
        sync ==> n <= a.pending_tx_packets[id as int].pending_packet_count,
    ensures
        ({
            let before = a.pending_tx_packets[id as int];
            let left = before.pending_packet_count - (if sync {
                n as int
            } else {
                0
            });
            let t = transmitted(c, a, id, n, sync);
            &&& t.1.pending_tx_packets.len() == a.pending_tx_packets.len()
            &&& t.1.pending_tx_packets[id as int].pending_packet_count == left
            &&& t.1.pending_tx_packets[id as int].transaction_id == before.transaction_id
            &&& forall|k: int|
                0 <= k < a.pending_tx_packets.len() && k != id
                    ==> #[trigger] t.1.pending_tx_packets[k] == a.pending_tx_packets[k]
            &&& left > 0 ==> t.0 == c && t.1.free_tx_packets == a.free_tx_packets
                && t.1.pending_tx_completions == a.pending_tx_completions
            &&& left == 0 ==> t.1.free_tx_packets.len() + t.1.pending_tx_completions.len()
                == a.free_tx_packets.len() + a.pending_tx_completions.len() + 1
        }),
{
}

/// How often `id` occurs in `ids`.
pub open spec fn times_in(ids: Seq<u32>, id: u32) -> nat {
    ids.filter(|x: u32| x == id).len()
}

/// The endpoint completes frames one by one: each takes one off what is in flight of its
/// packet. A packet is completed when its last frame is.
pub proof fn completed_frames_leave_flight(
    c: ChannelView,
    a: ActiveView,
    ids: Seq<u32>,
    k: int,
)
    requires
        tx_done_all_valid(c, a, ids),
        a.pending_tx_packets.len() <= u32::MAX,
        0 <= k < a.pending_tx_packets.len(),
    ensures
        ({
            let t = tx_done_all(c, a, ids).1;
            &&& t.pending_tx_packets.len() == a.pending_tx_packets.len()
            &&& t.pending_tx_packets[k].pending_packet_count + times_in(ids, k as u32)
                == a.pending_tx_packets[k].pending_packet_count
            &&& t.pending_tx_packets[k].transaction_id == a.pending_tx_packets[k].transaction_id
        }),
    decreases ids.len(),
{
    reveal(Seq::filter);
    if ids.len() > 0 {
        let n = ids.len() - 1;
        let rest = ids.drop_last();
        assert(rest =~= ids.take(n));
        assert forall|i: int| 0 <= i < rest.len() implies tx_done_valid(
            tx_done_all(c, a, rest.take(i)).1.pending_tx_packets,
            #[trigger] rest[i],
        ) by {
            assert(rest.take(i) =~= ids.take(i));
            assert(rest[i] == ids[i]);
        }
        completed_frames_leave_flight(c, a, rest, k);
        assert(tx_done_valid(tx_done_all(c, a, ids.take(n)).1.pending_tx_packets, ids[n]));
    }
}

/// One completed frame: its packet is completed if and only if it was the last in flight.
pub proof fn last_frame_completes_packet(c: ChannelView, a: ActiveView, id: u32)
    requires
        id < a.pending_tx_packets.len(),
        a.pending_tx_packets[id as int].pending_packet_count > 0,
    ensures
        ({
            let t = tx_done_one(c, a, id);
            &&& a.pending_tx_packets[id as int].pending_packet_count > 1 ==> t.0 == c
                && t.1.free_tx_packets == a.free_tx_packets && t.1.pending_tx_completions
                == a.pending_tx_completions
            &&& a.pending_tx_packets[id as int].pending_packet_count == 1 ==> (
            t.1.free_tx_packets.last() == id && t.1.free_tx_packets.len() == a.free_tx_packets.len()
                + 1) || (t.1.pending_tx_completions.len() == a.pending_tx_completions.len() + 1
                && t.1.pending_tx_completions.last().tx_id == Some(id)
                && t.1.pending_tx_completions.last().transaction_id
                == a.pending_tx_packets[id as int].transaction_id)
        }),
{
}

/// When the endpoint is restarted, each packet in flight is completed once, in the order of
/// the slots, under its own transaction ID, and no other is.
pub proof fn restart_completes_all_in_flight(packets: Seq<PendingTxPacket>)
    requires
        packets.len() <= u32::MAX,
    ensures
        ({
            let s = inflight_completions(packets);
            &&& forall|j: int|
                0 <= j < s.len() ==> {
                    &&& (#[trigger] s[j]).tx_id is Some
                    &&& s[j].tx_id->0 < packets.len()
                    &&& packets[s[j].tx_id->0 as int].pending_packet_count > 0
                    &&& packets[s[j].tx_id->0 as int].transaction_id == s[j].transaction_id
                }
            &&& forall|i: int, j: int|
                0 <= i < j < s.len() ==> (#[trigger] s[i]).tx_id->0 < (#[trigger] s[j]).tx_id->0
            &&& s.len() == packets.filter(|p: PendingTxPacket| p.pending_packet_count > 0).len()
            &&& forall|i: int|
                0 <= i < packets.len() ==> (#[trigger] all_landed(packets)[i]).pending_packet_count
                    == 0 && all_landed(packets)[i].transaction_id == packets[i].transaction_id
        }),
    decreases packets.len(),
{
    reveal(Seq::filter);
    if packets.len() > 0 {
        let rest = packets.drop_last();
        restart_completes_all_in_flight(rest);
        let t = inflight_completions(rest);
        let s = inflight_completions(packets);
        assert forall|j: int| 0 <= j < s.len() implies {
            &&& (#[trigger] s[j]).tx_id is Some
            &&& s[j].tx_id->0 < packets.len()
            &&& packets[s[j].tx_id->0 as int].pending_packet_count > 0
            &&& packets[s[j].tx_id->0 as int].transaction_id == s[j].transaction_id
        } by {
            if j < t.len() {
                assert(s[j] == t[j]);
                assert(rest[t[j].tx_id->0 as int] == packets[t[j].tx_id->0 as int]);
            }
        }
        assert forall|i: int, j: int| 0 <= i < j < s.len() implies (#[trigger] s[i]).tx_id->0 < (
        #[trigger] s[j]).tx_id->0 by {
            assert(s[i] == t[i]);
            if j < t.len() {
                assert(s[j] == t[j]);
            }
        }
    }
}

/// The type of an RNDIS message decides what it does. Type 1 is a frame: its segments are sent
/// behind those before it. Type 3 is a halt, which asks for nothing. Any other is for the control
/// queue, with its type and what follows its header, and is refused on a subchannel.
pub proof fn message_type_decides(
    bytes: Seq<u8>,
    ends: Seq<usize>,
    runs: Seq<crate::netvsp::packet::GuestRun>,
    id: u32,
    s: RndisRun,
)
    requires
        0 <= s.pos,
        s.pos + 8 <= bytes.len(),
    ensures
        ({
            let typ = u32_at(bytes, s.pos);
            let r = rndis_message_handled(bytes, ends, runs, id, s);
            let frame = packet_segments(bytes, ends, runs, s.pos + 8, id);
            &&& typ == 1 && frame is Ok ==> {
                &&& r is Ok
                &&& r->Ok_0.packets == s.packets + 1
                &&& r->Ok_0.segments.len() == s.segments.len() + frame->Ok_0.len()
                &&& r->Ok_0.segments.take(s.segments.len() as int) == s.segments
                &&& r->Ok_0.segments.skip(s.segments.len() as int) == frame->Ok_0
                &&& r->Ok_0.primary == s.primary
                &&& r->Ok_0.pos == s.pos
            }
            &&& typ == 1 && frame is Err ==> r is Err && r->Err_0 == frame->Err_0
            &&& typ == 3 ==> r is Ok && r->Ok_0 == s
            &&& typ != 1 && typ != 3 && s.primary is None ==> r is Err && r->Err_0
                == WorkerError::NotSupportedOnSubChannel(typ)
            &&& typ != 1 && typ != 3 && s.primary is Some && r is Ok ==> {
                let before = s.primary->0.control_messages;
                let after = r->Ok_0.primary->0.control_messages;
                &&& r->Ok_0.primary is Some
                &&& after.len() == before.len() + 1
                &&& after.drop_last() == before
                &&& after.last().message_type == typ
                &&& after.last().data == bytes.subrange(s.pos + 8, bytes.len() as int)
                &&& r->Ok_0.segments == s.segments
                &&& r->Ok_0.packets == s.packets
                &&& r->Ok_0.stats == s.stats
            }
        }),
{
    let typ = u32_at(bytes, s.pos);
    if typ == 1 {
        if let Ok(more) = packet_segments(bytes, ends, runs, s.pos + 8, id) {
            let all = s.segments + more;
            assert(all.take(s.segments.len() as int) =~= s.segments);
            assert(all.skip(s.segments.len() as int) =~= more);
        }
    } else if typ != 3 && s.primary is Some {
        let p = s.primary->0;
        let m = ControlMessageView { message_type: typ, data: bytes.skip(s.pos + 8) };
        assert(p.control_messages.push(m).drop_last() =~= p.control_messages);
        assert(bytes.skip(s.pos + 8) =~= bytes.subrange(s.pos + 8, bytes.len() as int));
    }
}

/// RNDIS messages follow one another: the next starts as many bytes behind a message as its
/// length says, and the last ends with the packet. A header or a message that reaches beyond
/// the packet is an error, and so is what the message itself does wrong.
pub proof fn messages_follow_each_other(
    bytes: Seq<u8>,
    ends: Seq<usize>,
    runs: Seq<crate::netvsp::packet::GuestRun>,
    id: u32,
    s: RndisRun,
)
    requires
        0 <= s.pos <= bytes.len(),
    ensures
        ({
            let r = rndis_run(bytes, ends, runs, id, s);
            let left = bytes.len() - s.pos;
            let one = rndis_message_handled(bytes, ends, runs, id, s);
            let len = u32_at(bytes, s.pos + 4);
            &&& left == 0 ==> r == (s, None::<WorkerError>)
            &&& 0 < left < 8 ==> r.1 == Some(WorkerError::Access)
            &&& left >= 8 && one is Err ==> r == (s, Some(one->Err_0))
            &&& left >= 8 && one is Ok && len > left ==> r == (one->Ok_0, Some(WorkerError::Access))
            &&& left >= 8 && one is Ok && 0 < len <= left ==> r == rndis_run(
                bytes,
                ends,
                runs,
                id,
                RndisRun { pos: s.pos + len, ..one->Ok_0 },
            )
        }),
{
}

} // verus!
