//! What a channel does with the packets of the ring and of the endpoint.
use crate::netvsp::control::{buffers_wf, ChannelView, NetChannel};
use crate::netvsp::control_queue::CONTROL_MESSAGE_MAX_QUEUED_BYTES;
use crate::netvsp::error::{PacketOrderError, WorkerError};
use crate::netvsp::guest_vf::{switch_data_path, switch_is_queued, CoordinatorMessage, PrimaryChannelGuestVfState};
use crate::netvsp::outbox::{can_complete, completed, send_completion};
use crate::netvsp::packet::PacketData;
use crate::netvsp::protocol::{
    fields, message, message_bytes, TransferPageRange, DATA_CHANNEL_TYPE, DATA_PATH_VF,
    MESSAGE5_TYPE_OID_QUERY_EX_COMPLETE, MESSAGE5_TYPE_SUB_CHANNEL, PACKET_SIZE_V61,
    STATUS_FAILURE, STATUS_SUCCESS, SUBCHANNEL_OPERATION_ALLOCATE,
};
use crate::netvsp::rndis::STATUS_NOT_SUPPORTED;
use crate::netvsp::rx::{
    first_conflict, group_of, RxBufferRange, RX_BATCH_SIZE, RX_RESERVED_CONTROL_BUFFERS,
};
use crate::netvsp::state::{ActiveState, ActiveView, ChannelBuffers, PendingTxPacket, PrimaryView};
use crate::netvsp::tx::{
    handle_rndis_message, queue_room, rndis_message_handled, rndis_run, tx_completed, RndisRun,
};
use crate::netvsp::tx_packet::{PacketMemory, TxSegment};
use crate::wire::{le32_list, read_u32};
use vstd::prelude::*;

verus! {

/// The state of a channel in which RNDIS messages can be handled: what waits is
/// tracked and within bounds.
pub open spec fn primary_ok(state: &ActiveState) -> bool {
    state.primary matches Some(p) ==> p.wf() && p.control_messages_len
        <= CONTROL_MESSAGE_MAX_QUEUED_BYTES
}

/// What the messages of a packet in slot `id` lead to: the state, the segments,
/// and the number of frames or the error.
pub open spec fn rndis_handled(
    m: &PacketMemory,
    a: ActiveView,
    segments: Seq<TxSegment>,
    id: u32,
    transaction_id: Option<u64>,
    accessible: bool,
) -> (ActiveView, Seq<TxSegment>, Result<nat, WorkerError>) {
    match transaction_id {
        None => (a, segments, Err(WorkerError::MissingTransactionId)),
        Some(transaction_id) => {
            let slot = a.pending_tx_packets[id as int];
            let started = ActiveView {
                pending_tx_packets: a.pending_tx_packets.update(
                    id as int,
                    PendingTxPacket { transaction_id, ..slot },
                ),
                ..a
            };
            if !accessible {
                (started, segments, Err(WorkerError::GpaDirectError))
            } else {
                let run = rndis_run(
                    m.bytes@,
                    m.range_ends@,
                    m.runs@,
                    id,
                    RndisRun {
                        primary: a.primary,
                        segments,
                        packets: 0,
                        stats: a.stats,
                        pos: 0,
                    },
                );
                (
                    ActiveView { primary: run.0.primary, stats: run.0.stats, ..started },
                    run.0.segments,
                    match run.1 {
                        None => Ok(run.0.packets),
                        Some(err) => Err(err),
                    },
                )
            }
        },
    }
}

/// Handles the RNDIS messages of a packet that takes slot `id`. `accessible`
/// tells whether the guest has the memory that the packet refers to.
pub fn handle_rndis(
    state: &mut ActiveState,
    m: &PacketMemory,
    segments: &mut Vec<TxSegment>,
    id: u32,
    transaction_id: Option<u64>,
    accessible: bool,
) -> (r: Result<usize, WorkerError>)
    requires
        m.wf(),
        primary_ok(old(state)),
        id < old(state)@.pending_tx_packets.len(),
    ensures
        primary_ok(final(state)),
        ({
            let h = rndis_handled(
                m,
                old(state)@,
                old(segments)@,
                id,
                transaction_id,
                accessible,
            );
            &&& final(state)@ == h.0
            &&& final(segments)@ == h.1
            &&& match h.2 {
                Ok(n) => r is Ok && r->Ok_0 == n && n <= m.bytes@.len(),
                Err(err) => r == Err::<usize, WorkerError>(err),
            }
        }),
{
    let tid: u64 = match transaction_id {
        Some(tid) => tid,
        None => return Err(WorkerError::MissingTransactionId),
    };
    let slot = state.pending_tx_packets[id as usize];
    state.pending_tx_packets.set(
        id as usize,
        PendingTxPacket {
            pending_packet_count: slot.pending_packet_count,
            transaction_id: tid,
        },
    );
    let ghost started = state@;
    // Accesses that are out of bounds are caught before any message is handled.
    if !accessible {
        return Err(WorkerError::GpaDirectError);
    }
    let mut packets: usize = 0;
    let mut pos: usize = 0;
    let ghost start = RndisRun {
        primary: state@.primary,
        segments: segments@,
        packets: 0,
        stats: state.stats,
        pos: 0,
    };
    while pos < m.bytes.len()
        invariant
            m.wf(),
            pos <= m.bytes@.len(),
            packets <= pos,
            primary_ok(state),
            state@ == (ActiveView { primary: state@.primary, stats: state.stats, ..started }),
            rndis_run(m.bytes@, m.range_ends@, m.runs@, id, start) == rndis_run(
                m.bytes@,
                m.range_ends@,
                m.runs@,
                id,
                RndisRun {
                    primary: state@.primary,
                    segments: segments@,
                    packets: packets as nat,
                    stats: state.stats,
                    pos: pos as int,
                },
            ),
            started == (ActiveView {
                pending_tx_packets: old(state)@.pending_tx_packets.update(
                    id as int,
                    PendingTxPacket {
                        transaction_id: tid,
                        ..old(state)@.pending_tx_packets[id as int]
                    },
                ),
                ..old(state)@
            }),
            start == (RndisRun {
                primary: old(state)@.primary,
                segments: old(segments)@,
                packets: 0,
                stats: old(state)@.stats,
                pos: 0,
            }),
            accessible,
            transaction_id == Some(tid),
        decreases m.bytes@.len() - pos, queue_room(state@.primary),
    {
        let ghost now = RndisRun {
            primary: state@.primary,
            segments: segments@,
            packets: packets as nat,
            stats: state.stats,
            pos: pos as int,
        };
        let left: usize = m.bytes.len() - pos;
        if left < 8 {
            return Err(WorkerError::Access);
        }
        let message_type: u32 = read_u32(m.bytes.as_slice(), pos);
        let message_length: u32 = read_u32(m.bytes.as_slice(), pos + 4);
        let before: usize = match &state.primary {
            Some(p) => p.control_messages_len,
            None => 0,
        };
        let ghost handled = rndis_message_handled(m.bytes@, m.range_ends@, m.runs@, id, now);
        let r = handle_rndis_message(
            &mut state.primary,
            id,
            message_type,
            m,
            pos + 8,
            segments,
            &mut state.stats,
        );
        let is_packet = match r {
            Ok(is_packet) => is_packet,
            Err(err) => {
                return Err(err);
            },
        };
        let after: usize = match &state.primary {
            Some(p) => p.control_messages_len,
            None => 0,
        };
        assert(before == CONTROL_MESSAGE_MAX_QUEUED_BYTES - queue_room(now.primary)
            || now.primary is None);
        if message_length as usize > left {
            return Err(WorkerError::Access);
        }
        if message_length == 0 && after <= before {
            return Err(WorkerError::RndisMessageTooSmall);
        }
        if is_packet {
            packets = packets + 1;
        }
        pos = pos + message_length as usize;
    }
    Ok(packets)
}

/// Buffers that the guest has returned.
#[derive(Debug)]
pub struct Returned {
    /// The buffers that this queue can use again.
    pub done: Vec<u32>,
    /// The buffers that belong to another active queue, with that queue.
    pub remote: Vec<(u32, u32)>,
}

/// What a [`Returned`] says, with the control buffers that became free.
pub struct ReturnedView {
    /// The buffers that this queue can use again.
    pub done: Seq<u32>,
    /// The buffers that belong to another active queue, with that queue.
    pub remote: Seq<(u32, u32)>,
    /// The control buffers that became free.
    pub control: Seq<u32>,
}

/// Where the returned buffers `ids` go.
pub open spec fn sorted_out(range: RxBufferRange, ids: Seq<u32>) -> ReturnedView
    decreases ids.len(),
{
    if ids.len() == 0 {
        ReturnedView { done: Seq::empty(), remote: Seq::empty(), control: Seq::empty() }
    } else {
        let before = sorted_out(range, ids.drop_last());
        let id = ids.last();
        if !range.keeps(id) {
            ReturnedView { remote: before.remote.push((range.owner(id) as u32, id)), ..before }
        } else if id >= RX_RESERVED_CONTROL_BUFFERS {
            ReturnedView { done: before.done.push(id), ..before }
        } else {
            ReturnedView { control: before.control.push(id), ..before }
        }
    }
}

/// Whether the guest may complete the transaction: it holds buffers under that
/// ID, and control buffers are only returned to the primary channel.
pub open spec fn release_valid(a: ActiveView, range: RxBufferRange, transaction_id: u64) -> bool {
    &&& transaction_id <= u32::MAX
    &&& group_of(a.rx_groups, transaction_id as u32, 0) < a.rx_groups.len()
    &&& a.primary is None ==> sorted_out(
        range,
        a.rx_groups[group_of(a.rx_groups, transaction_id as u32, 0)],
    ).control.len() == 0
}

/// The state after the guest has returned buffers that it must not return: control
/// buffers on a subchannel are no longer in use, and any others were not.
pub open spec fn release_refused(a: ActiveView, transaction_id: u64) -> ActiveView {
    let g = group_of(a.rx_groups, transaction_id as u32, 0);
    if transaction_id <= u32::MAX && g < a.rx_groups.len() {
        ActiveView { rx_groups: a.rx_groups.remove(g), ..a }
    } else {
        a
    }
}

/// The state after the guest has returned the buffers of a transaction.
pub open spec fn released(a: ActiveView, range: RxBufferRange, transaction_id: u64) -> ActiveView {
    let g = group_of(a.rx_groups, transaction_id as u32, 0);
    ActiveView {
        rx_groups: a.rx_groups.remove(g),
        primary: match a.primary {
            Some(p) => Some(
                PrimaryView {
                    free_control_buffers: p.free_control_buffers + sorted_out(
                        range,
                        a.rx_groups[g],
                    ).control,
                    ..p
                },
            ),
            None => None,
        },
        ..a
    }
}

/// Takes back the receive buffers of a transaction that the guest has completed.
/// `None` if the guest may not complete it. The transaction ID is the first
/// buffer.
pub fn release_recv_buffers(
    state: &mut ActiveState,
    transaction_id: u64,
    range: &RxBufferRange,
) -> (r: Option<Returned>)
    requires
        primary_ok(old(state)),
        range.ranges.queue_count >= 1,
        range.ranges.buffers_per_queue >= 1,
    ensures
        primary_ok(final(state)),
        (final(state).primary is Some) == (old(state).primary is Some),
        r is Some <==> release_valid(old(state)@, *range, transaction_id),
        r matches Some(returned) ==> {
            let g = group_of(old(state)@.rx_groups, transaction_id as u32, 0);
            let sorted = sorted_out(*range, old(state)@.rx_groups[g]);
            &&& returned.done@ == sorted.done
            &&& returned.remote@ == sorted.remote
            &&& final(state)@ == released(old(state)@, *range, transaction_id)
        },
        r is None ==> final(state)@ == release_refused(old(state)@, transaction_id),
{
    if transaction_id > 0xffff_ffff {
        return None;
    }
    let first_id: u32 = transaction_id as u32;
    let ids = match state.rx_bufs.free(first_id) {
        Some(ids) => ids,
        None => return None,
    };
    let ghost group = ids@;
    let mut done: Vec<u32> = Vec::new();
    let mut remote: Vec<(u32, u32)> = Vec::new();
    let mut control: Vec<u32> = Vec::new();
    let mut i: usize = 0;
    assert(ids@.take(0) =~= Seq::empty());
    while i < ids.len()
        invariant
            i <= ids@.len(),
            range.ranges.queue_count >= 1,
            range.ranges.buffers_per_queue >= 1,
            ({
                let sorted = sorted_out(*range, ids@.take(i as int));
                &&& done@ == sorted.done
                &&& remote@ == sorted.remote
                &&& control@ == sorted.control
            }),
        decreases ids@.len() - i,
    {
        let id: u32 = ids[i];
        assert(ids@.take(i + 1).drop_last() =~= ids@.take(i as int));
        assert(ids@.take(i + 1).last() == id);
        match range.send_if_remote(id) {
            Some(queue) => {
                remote.push((queue, id));
            },
            None => {
                if id >= RX_RESERVED_CONTROL_BUFFERS {
                    done.push(id);
                } else {
                    control.push(id);
                }
            },
        }
        i = i + 1;
    }
    assert(ids@.take(i as int) =~= ids@);
    match state.primary.take() {
        Some(p) => {
            let mut p = p;
            p.free_control_buffers.append(&mut control);
            state.primary = Some(p);
            Some(Returned { done, remote })
        },
        None => if control.len() > 0 {
            None
        } else {
            Some(Returned { done, remote })
        },
    }
}

/// What became of packets that the endpoint has received.
#[derive(Debug, Clone, Copy, PartialEq, Eq, Structural)]
pub enum RxOutcome {
    /// There were none.
    Idle,
    /// They were handed to the guest.
    Sent,
    /// The ring was full: they were dropped, and the endpoint gets the buffers
    /// back.
    Dropped,
}

/// The full suballocations of received packets. The message length is not
/// tracked.
pub open spec fn rx_ranges(b: ChannelBuffers, ids: Seq<u32>) -> Seq<TransferPageRange> {
    ids.map_values(
        |id: u32|
            b.recv_buffer.spec_transfer_page_range(
                id,
                b.recv_buffer.sub_allocation_size as int,
            ),
    )
}

impl NetChannel {
    /// Hands packets that the endpoint has received into the buffers `ids` to
    /// the guest.
    pub fn process_endpoint_rx(
        &mut self,
        buffers: &ChannelBuffers,
        state: &mut ActiveState,
        ids: Vec<u32>,
    ) -> (r: RxOutcome)
        requires
            buffers_wf(old(self).packet_size, *buffers),
            old(state)@.rx_count == buffers.recv_buffer.count,
            ids@.len() <= RX_BATCH_SIZE,
            first_conflict(old(state)@.rx_count, old(state)@.rx_groups, ids@, 0) >= ids@.len(),
            ids@.len() > 0 ==> group_of(old(state)@.rx_groups, ids@[0], 0)
                >= old(state)@.rx_groups.len(),
        ensures
            final(state).primary == old(state).primary,
            ({
                let p = old(self)@.rndis_packet(
                    *buffers,
                    ids@[0] as u64,
                    DATA_CHANNEL_TYPE,
                    rx_ranges(*buffers, ids@),
                );
                if ids@.len() == 0 {
                    &&& r == RxOutcome::Idle
                    &&& final(self)@ == old(self)@
                    &&& final(state)@ == old(state)@
                } else if old(self)@.out.fits(p) {
                    &&& r == RxOutcome::Sent
                    &&& final(self)@ == old(self)@.with_out(old(self)@.out.sent(p))
                    &&& final(state)@ == (ActiveView {
                        rx_groups: old(state)@.rx_groups.push(ids@),
                        stats: old(state)@.stats.with_received(ids@.len() as u64),
                        ..old(state)@
                    })
                } else {
                    &&& r == RxOutcome::Dropped
                    &&& final(self)@ == old(self)@
                    &&& final(state)@ == (ActiveView {
                        stats: old(state)@.stats.with_dropped(ids@.len() as u64),
                        ..old(state)@
                    })
                }
            }),
    {
        if ids.len() == 0 {
            return RxOutcome::Idle;
        }
        let first: u32 = ids[0];
        let n: u64 = ids.len() as u64;
        let mut transfer_pages: Vec<TransferPageRange> = Vec::new();
        let len: usize = buffers.recv_buffer.sub_allocation_size as usize;
        proof {
            crate::netvsp::rx::allocation_takes_free_ids(
                state@.rx_count,
                state@.rx_groups,
                ids@,
            );
        }
        let mut i: usize = 0;
        while i < ids.len()
            invariant
                i <= ids@.len(),
                buffers.recv_buffer.wf(),
                len == buffers.recv_buffer.sub_allocation_size,
                forall|k: int| 0 <= k < ids@.len() ==> #[trigger] ids@[k] < buffers.recv_buffer.count,
                transfer_pages@ == rx_ranges(*buffers, ids@.take(i as int)),
            decreases ids@.len() - i,
        {
            let id: u32 = ids[i];
            assert(ids@[i as int] == id);
            transfer_pages.push(buffers.recv_buffer.transfer_page_range(id, len));
            i = i + 1;
            assert(transfer_pages@ =~= rx_ranges(*buffers, ids@.take(i as int)));
        }
        assert(ids@.take(i as int) =~= ids@);
        let ghost groups = state@.rx_groups;
        let ghost group = ids@;
        let allocated = state.rx_bufs.allocate(ids);
        assert(allocated is Ok);
        match self.try_send_rndis_message(
            buffers,
            first as u64,
            DATA_CHANNEL_TYPE,
            transfer_pages,
        ) {
            Ok(()) => {
                state.stats.count_received(n, true);
                RxOutcome::Sent
            },
            Err(_) => {
                // The ring is full. Drop the packets and free the buffers.
                proof {
                    lemma_group_of_pushed(groups, group, 0);
                }
                let freed = state.rx_bufs.free(first);
                assert(groups.push(group).remove(groups.len() as int) =~= groups);
                state.stats.count_received(n, false);
                RxOutcome::Dropped
            },
        }
    }
}

proof fn lemma_group_of_pushed(groups: Seq<Seq<u32>>, group: Seq<u32>, from: int)
    requires
        0 <= from <= groups.len(),
        group.len() > 0,
        group_of(groups, group[0], from) >= groups.len(),
    ensures
        group_of(groups.push(group), group[0], from) == groups.len(),
    decreases groups.len() - from,
{
    if from < groups.len() {
        assert(groups.push(group)[from] == groups[from]);
        lemma_group_of_pushed(groups, group, from + 1);
    } else {
        assert(groups.push(group)[from] == group);
    }
}

/// What has to be done with the endpoint after a packet of the ring.
#[derive(Debug)]
pub enum RingAction {
    /// Nothing.
    Idle,
    /// Hand the segments, which are the frames of the packet in slot `id`, to
    /// the endpoint.
    Transmit {
        /// The slot.
        id: u32,
        /// The number of frames.
        num_packets: usize,
    },
    /// Hand receive buffers back to the endpoint or to other queues.
    RxAvail(Returned),
}

/// Whether another packet is taken from the ring: not before the segments of the
/// last one are with the endpoint, nor without a free slot.
pub fn wants_packet(state: &ActiveState, segments: &Vec<TxSegment>) -> (b: bool)
    ensures
        b == (state@.free_tx_packets.len() > 0 && segments@.len() == 0),
{
    state.free_tx_packets.len() > 0 && segments.len() == 0
}

/// The answer to a request for subchannels.
pub open spec fn subchannel_complete(packet_size: usize, status: u32, count: u32) -> Seq<u8> {
    message_bytes(
        packet_size as int,
        MESSAGE5_TYPE_SUB_CHANNEL,
        le32_list(seq![status, count]),
    )
}

/// The answer to an extended query, which is not supported.
pub open spec fn oid_query_complete(packet_size: usize) -> Seq<u8> {
    message_bytes(
        packet_size as int,
        MESSAGE5_TYPE_OID_QUERY_EX_COMPLETE,
        le32_list(seq![STATUS_NOT_SUPPORTED, 0u32]),
    )
}

/// How many subchannels the guest gets.
pub open spec fn granted_subchannels(max_queues: u16, operation: u32, requested: u32) -> Option<
    u32,
> {
    if operation == SUBCHANNEL_OPERATION_ALLOCATE && requested <= max_queues {
        Some(requested)
    } else {
        None
    }
}

impl NetChannel {
    /// Handles a request for subchannels. If the guest gets any, the queues are
    /// restarted.
    pub fn handle_subchannel_request(
        &mut self,
        state: &mut ActiveState,
        operation: u32,
        num_sub_channels: u32,
        transaction_id: Option<u64>,
    ) -> (r: Result<(), WorkerError>)
        requires
            old(self).packet_size <= PACKET_SIZE_V61,
            old(self).adapter.max_queues < u16::MAX,
            old(state).primary is Some,
            primary_ok(old(state)),
        ensures
            primary_ok(final(state)),
            final(state).primary is Some,
            ({
                let granted = granted_subchannels(
                    old(self).adapter.max_queues,
                    operation,
                    num_sub_channels,
                );
                let payload = match granted {
                    Some(n) => subchannel_complete(old(self).packet_size, STATUS_SUCCESS, n),
                    None => subchannel_complete(old(self).packet_size, STATUS_FAILURE, 0),
                };
                let out = completed(old(self)@.out, transaction_id, payload);
                if !can_complete(old(self)@.out, transaction_id, payload) {
                    &&& r == Err::<(), WorkerError>(WorkerError::OutOfSpace)
                    &&& final(self)@ == old(self)@
                    &&& final(state)@ == old(state)@
                } else if granted is Some && granted->0 > 0 {
                    &&& r is Ok
                    &&& final(self)@ == (ChannelView {
                        out,
                        restart: Some(CoordinatorMessage::Restart),
                        ..old(self)@
                    })
                    &&& final(state)@ == (ActiveView {
                        primary: Some(
                            PrimaryView {
                                requested_num_queues: (granted->0 + 1) as u16,
                                tx_spread_sent: false,
                                ..old(state)@.primary->0
                            },
                        ),
                        ..old(state)@
                    })
                } else {
                    &&& r is Ok
                    &&& final(self)@ == old(self)@.with_out(out)
                    &&& final(state)@ == old(state)@
                }
            }),
    {
        let mut subchannel_count: u32 = 0;
        let status: u32 = if operation == SUBCHANNEL_OPERATION_ALLOCATE && num_sub_channels
            <= self.adapter.max_queues as u32 {
            subchannel_count = num_sub_channels;
            STATUS_SUCCESS
        } else {
            STATUS_FAILURE
        };
        let a: [u32; 2] = [status, subchannel_count];
        assert(a@ =~= seq![status, subchannel_count]);
        let m = message(self.packet_size, MESSAGE5_TYPE_SUB_CHANNEL, fields(&a));
        match send_completion(&mut self.out, transaction_id, m.payload()) {
            Ok(()) => {},
            Err(err) => return Err(err),
        }
        if subchannel_count > 0 {
            match state.primary.take() {
                Some(p) => {
                    let mut p = p;
                    p.requested_num_queues = subchannel_count as u16 + 1;
                    p.tx_spread_sent = false;
                    state.primary = Some(p);
                },
                None => {},
            }
            self.restart = Some(CoordinatorMessage::Restart);
        }
        Ok(())
    }

    /// Handles a packet with RNDIS messages: takes a slot for it, and either
    /// asks for its frames to be transmitted or completes it.
    pub fn handle_rndis_packet(
        &mut self,
        state: &mut ActiveState,
        m: &PacketMemory,
        segments: &mut Vec<TxSegment>,
        transaction_id: Option<u64>,
        accessible: bool,
    ) -> (r: Result<RingAction, WorkerError>)
        requires
            old(self).packet_size <= PACKET_SIZE_V61,
            m.wf(),
            primary_ok(old(state)),
            old(segments)@.len() == 0,
            old(state)@.free_tx_packets.len() > 0,
            old(state)@.free_tx_packets.last() < old(state)@.pending_tx_packets.len(),
            old(state)@.pending_tx_packets[old(
                state,
            )@.free_tx_packets.last() as int].pending_packet_count == 0,
        ensures
            primary_ok(final(state)),
            ({
                let id = old(state)@.free_tx_packets.last();
                let taken = ActiveView {
                    free_tx_packets: old(state)@.free_tx_packets.drop_last(),
                    ..old(state)@
                };
                let h = rndis_handled(
                    m,
                    taken,
                    Seq::empty(),
                    id,
                    transaction_id,
                    accessible,
                );
                &&& final(segments)@ == h.1
                &&& match h.2 {
                    Err(err) => {
                        &&& r == Err::<RingAction, WorkerError>(err)
                        &&& final(self)@ == old(self)@
                        &&& final(state)@ == h.0
                    },
                    Ok(n) if n == 0 => {
                        &&& r matches Ok(RingAction::Idle)
                        &&& (final(self)@, final(state)@) == tx_completed(old(self)@, h.0, id)
                    },
                    Ok(n) => {
                        &&& r == Ok::<RingAction, WorkerError>(
                            RingAction::Transmit { id, num_packets: n as usize },
                        )
                        &&& final(self)@ == old(self)@
                        &&& final(state)@ == (ActiveView {
                            pending_tx_packets: h.0.pending_tx_packets.update(
                                id as int,
                                PendingTxPacket {
                                    pending_packet_count: n as usize,
                                    ..h.0.pending_tx_packets[id as int]
                                },
                            ),
                            ..h.0
                        })
                    },
                }
            }),
    {
        let id: u32 = match state.free_tx_packets.pop() {
            Some(id) => id,
            None => return Ok(RingAction::Idle),
        };
        assert(segments@ =~= Seq::empty());
        let n: usize = match handle_rndis(state, m, segments, id, transaction_id, accessible) {
            Ok(n) => n,
            Err(err) => return Err(err),
        };
        let slot = state.pending_tx_packets[id as usize];
        if n != 0 {
            state.pending_tx_packets.set(
                id as usize,
                PendingTxPacket { pending_packet_count: n, transaction_id: slot.transaction_id },
            );
            Ok(RingAction::Transmit { id, num_packets: n })
        } else {
            self.complete_tx_packet(state, id);
            Ok(RingAction::Idle)
        }
    }

    /// Handles a packet of the ring that carries no RNDIS messages of its own.
    pub fn handle_other_packet(
        &mut self,
        state: &mut ActiveState,
        range: &RxBufferRange,
        data: PacketData,
        transaction_id: Option<u64>,
    ) -> (r: Result<RingAction, WorkerError>)
        requires
            old(self).packet_size <= PACKET_SIZE_V61,
            old(self).adapter.max_queues < u16::MAX,
            primary_ok(old(state)),
            !(data is RndisPacket),
            data is RndisPacketComplete ==> transaction_id is Some,
            range.ranges.queue_count >= 1,
            range.ranges.buffers_per_queue >= 1,
        ensures
            primary_ok(final(state)),
            match data {
                PacketData::RndisPacketComplete { .. } => {
                    &&& final(self)@ == old(self)@
                    &&& if release_valid(old(state)@, *range, transaction_id->0) {
                        let g = group_of(old(state)@.rx_groups, transaction_id->0 as u32, 0);
                        let sorted = sorted_out(*range, old(state)@.rx_groups[g]);
                        &&& r matches Ok(RingAction::RxAvail(returned))
                        &&& r->Ok_0->RxAvail_0.done@ == sorted.done
                        &&& r->Ok_0->RxAvail_0.remote@ == sorted.remote
                        &&& final(state)@ == released(old(state)@, *range, transaction_id->0)
                    } else {
                        &&& r == Err::<RingAction, WorkerError>(
                            WorkerError::InvalidRndisPacketCompletion,
                        )
                        &&& final(state)@ == release_refused(old(state)@, transaction_id->0)
                    }
                },
                PacketData::OidQueryEx { .. } => {
                    let payload = oid_query_complete(old(self).packet_size);
                    &&& final(state)@ == old(state)@
                    &&& final(self)@ == old(self)@.with_out(
                        completed(old(self)@.out, transaction_id, payload),
                    )
                    &&& if can_complete(old(self)@.out, transaction_id, payload) {
                        r matches Ok(RingAction::Idle)
                    } else {
                        r == Err::<RingAction, WorkerError>(WorkerError::OutOfSpace)
                    }
                },
                PacketData::SubChannelRequest { operation, num_sub_channels } if old(
                    state,
                ).primary is Some => {
                    let granted = granted_subchannels(
                        old(self).adapter.max_queues,
                        operation,
                        num_sub_channels,
                    );
                    let n = if granted is Some {
                        granted->0
                    } else {
                        0
                    };
                    let payload = subchannel_complete(
                        old(self).packet_size,
                        if granted is Some {
                            STATUS_SUCCESS
                        } else {
                            STATUS_FAILURE
                        },
                        n,
                    );
                    &&& final(state)@ == if r is Ok && n > 0 {
                        ActiveView {
                            primary: Some(
                                PrimaryView {
                                    requested_num_queues: (n + 1) as u16,
                                    tx_spread_sent: false,
                                    ..old(state)@.primary->0
                                },
                            ),
                            ..old(state)@
                        }
                    } else {
                        old(state)@
                    }
                    &&& final(self)@ == (ChannelView {
                        out: completed(old(self)@.out, transaction_id, payload),
                        restart: if r is Ok && n > 0 {
                            Some(CoordinatorMessage::Restart)
                        } else {
                            old(self)@.restart
                        },
                        ..old(self)@
                    })
                    &&& if can_complete(old(self)@.out, transaction_id, payload) {
                        r matches Ok(RingAction::Idle)
                    } else {
                        r == Err::<RingAction, WorkerError>(WorkerError::OutOfSpace)
                    }
                },
                PacketData::SwitchDataPath { active_data_path } if old(state).primary is Some => {
                    let p = old(state)@.primary->0;
                    let use_guest_vf = active_data_path == DATA_PATH_VF;
                    if switch_is_queued(p.guest_vf_state, p.is_data_path_switched, use_guest_vf) {
                        &&& r matches Ok(RingAction::Idle)
                        &&& final(self)@ == (ChannelView {
                            restart: if old(self)@.restart is None {
                                Some(CoordinatorMessage::UpdateGuestVfState)
                            } else {
                                old(self)@.restart
                            },
                            ..old(self)@
                        })
                        &&& final(state)@ == (ActiveView {
                            primary: Some(
                                PrimaryView {
                                    guest_vf_state:
                                        PrimaryChannelGuestVfState::DataPathSwitchPending {
                                        to_guest: use_guest_vf,
                                        id: transaction_id,
                                        result: None,
                                    },
                                    ..p
                                },
                            ),
                            ..old(state)@
                        })
                    } else {
                        &&& final(state)@ == old(state)@
                        &&& final(self)@ == old(self)@.with_out(
                            completed(old(self)@.out, transaction_id, Seq::empty()),
                        )
                        &&& if can_complete(old(self)@.out, transaction_id, Seq::empty()) {
                            r matches Ok(RingAction::Idle)
                        } else {
                            r == Err::<RingAction, WorkerError>(WorkerError::OutOfSpace)
                        }
                    }
                },
                PacketData::RevokeReceiveBuffer { .. } if old(state).primary is Some => {
                    &&& r == Err::<RingAction, WorkerError>(WorkerError::BufferRevoked)
                    &&& final(self)@ == old(self)@
                    &&& final(state)@ == old(state)@
                },
                PacketData::RevokeSendBuffer { .. } if old(state).primary is Some => {
                    &&& r == Err::<RingAction, WorkerError>(WorkerError::BufferRevoked)
                    &&& final(self)@ == old(self)@
                    &&& final(state)@ == old(state)@
                },
                PacketData::SendVfAssociationCompletion if old(state).primary is Some => {
                    &&& r matches Ok(RingAction::Idle)
                    &&& final(self)@ == old(self)@
                    &&& final(state)@ == old(state)@
                },
                PacketData::SwitchDataPathCompletion if old(state).primary is Some => {
                    &&& r matches Ok(RingAction::Idle)
                    &&& final(self)@ == old(self)@
                    &&& final(state)@ == old(state)@
                },
                _ => {
                    &&& r == Err::<RingAction, WorkerError>(
                        WorkerError::UnexpectedPacketOrder(
                            PacketOrderError::SwitchDataPathCompletionPrimaryChannelState,
                        ),
                    )
                    &&& final(self)@ == old(self)@
                    &&& final(state)@ == old(state)@
                },
            },
    {
        let unexpected: Result<RingAction, WorkerError> = Err(
            WorkerError::UnexpectedPacketOrder(
                PacketOrderError::SwitchDataPathCompletionPrimaryChannelState,
            ),
        );
        match data {
            PacketData::RndisPacketComplete { .. } => {
                let tid: u64 = match transaction_id {
                    Some(tid) => tid,
                    None => 0,
                };
                match release_recv_buffers(state, tid, range) {
                    Some(returned) => Ok(RingAction::RxAvail(returned)),
                    None => Err(WorkerError::InvalidRndisPacketCompletion),
                }
            },
            PacketData::OidQueryEx { .. } => {
                let a: [u32; 2] = [STATUS_NOT_SUPPORTED, 0];
                assert(a@ =~= seq![STATUS_NOT_SUPPORTED, 0u32]);
                let m = message(self.packet_size, MESSAGE5_TYPE_OID_QUERY_EX_COMPLETE, fields(&a));
                match send_completion(&mut self.out, transaction_id, m.payload()) {
                    Ok(()) => Ok(RingAction::Idle),
                    Err(err) => Err(err),
                }
            },
            PacketData::SubChannelRequest { operation, num_sub_channels } => {
                if state.primary.is_none() {
                    return unexpected;
                }
                match self.handle_subchannel_request(
                    state,
                    operation,
                    num_sub_channels,
                    transaction_id,
                ) {
                    Ok(()) => Ok(RingAction::Idle),
                    Err(err) => Err(err),
                }
            },
            PacketData::SwitchDataPath { active_data_path } => {
                if state.primary.is_none() {
                    return unexpected;
                }
                match state.primary.take() {
                    Some(p) => {
                        let mut p = p;
                        let mut guest_vf_state = p.guest_vf_state;
                        let r = switch_data_path(
                            &mut self.out,
                            &mut guest_vf_state,
                            p.is_data_path_switched,
                            &mut self.restart,
                            active_data_path == DATA_PATH_VF,
                            transaction_id,
                        );
                        p.guest_vf_state = guest_vf_state;
                        state.primary = Some(p);
                        match r {
                            Ok(()) => Ok(RingAction::Idle),
                            Err(err) => Err(err),
                        }
                    },
                    None => Ok(RingAction::Idle),
                }
            },
            PacketData::RevokeReceiveBuffer { .. } | PacketData::RevokeSendBuffer { .. } => {
                if state.primary.is_none() {
                    return unexpected;
                }
                Err(WorkerError::BufferRevoked)
            },
            PacketData::SendVfAssociationCompletion | PacketData::SwitchDataPathCompletion => {
                if state.primary.is_none() {
                    return unexpected;
                }
                Ok(RingAction::Idle)
            },
            _ => unexpected,
        }
    }
}

/// The guest is told whether it gets the subchannels it asked for: all of them if it asked to
/// allocate them and there are that many queues, and otherwise none.
pub proof fn subchannels_are_granted_or_refused(max_queues: u16, operation: u32, requested: u32)
    ensures
        granted_subchannels(max_queues, operation, requested) is Some <==> operation == 1
            && requested <= max_queues,
        granted_subchannels(max_queues, operation, requested) matches Some(n) ==> n == requested,
{
}

/// The answer to a request for subchannels is read back as its status and how many there are.
pub proof fn subchannel_answer_is_read_back(packet_size: usize, status: u32, count: u32)
    ensures
        ({
            let b = subchannel_complete(packet_size, status, count);
            &&& crate::wire::u32_at(b, 0) == 133
            &&& crate::wire::u32_at(b, 4) == status
            &&& crate::wire::u32_at(b, 8) == count
        }),
{
    let xs = seq![status, count];
    crate::netvsp::protocol::message_is_read_back(
        packet_size as int,
        MESSAGE5_TYPE_SUB_CHANNEL,
        xs,
        0,
    );
    crate::netvsp::protocol::message_is_read_back(
        packet_size as int,
        MESSAGE5_TYPE_SUB_CHANNEL,
        xs,
        1,
    );
}

/// An extended query is answered: it is not supported, and there is no data.
pub proof fn extended_query_is_refused(packet_size: usize)
    ensures
        ({
            let b = oid_query_complete(packet_size);
            &&& crate::wire::u32_at(b, 0) == 132
            &&& crate::wire::u32_at(b, 4) == 0xC00000BB
            &&& crate::wire::u32_at(b, 8) == 0
        }),
{
    let xs = seq![STATUS_NOT_SUPPORTED, 0u32];
    crate::netvsp::protocol::message_is_read_back(
        packet_size as int,
        MESSAGE5_TYPE_OID_QUERY_EX_COMPLETE,
        xs,
        0,
    );
    crate::netvsp::protocol::message_is_read_back(
        packet_size as int,
        MESSAGE5_TYPE_OID_QUERY_EX_COMPLETE,
        xs,
        1,
    );
}

/// Buffers that the guest returns are sorted out by their numbers, in their order. The first
/// 16 are control buffers, those in the range of this queue go to its endpoint, and the others
/// to the queues that own them.
pub proof fn returned_buffers_are_sorted_out(range: RxBufferRange, ids: Seq<u32>)
    ensures
        ({
            let r = sorted_out(range, ids);
            let away = ids.filter(|id: u32| id >= 16 && !(range.start <= id < range.end));
            &&& r.control == ids.filter(|id: u32| id < 16)
            &&& r.done == ids.filter(|id: u32| id >= 16 && range.start <= id < range.end)
            &&& r.remote.len() == away.len()
            &&& forall|i: int|
                0 <= i < away.len() ==> (#[trigger] r.remote[i]).1 == away[i] && r.remote[i].0
                    == range.owner(away[i]) as u32
        }),
    decreases ids.len(),
{
    reveal(Seq::filter);
    if ids.len() > 0 {
        returned_buffers_are_sorted_out(range, ids.drop_last());
        let before = sorted_out(range, ids.drop_last());
        let r = sorted_out(range, ids);
        let away = ids.filter(|id: u32| id >= 16 && !(range.start <= id < range.end));
        assert forall|i: int| 0 <= i < away.len() implies (#[trigger] r.remote[i]).1 == away[i]
            && r.remote[i].0 == range.owner(away[i]) as u32 by {
            if i < before.remote.len() {
                assert(before.remote[i] == r.remote[i]);
            }
        }
    }
}

/// The guest returns buffers by the first of them. It is believed if it holds buffers that
/// start with that one, and on a subchannel no control buffer is among them. They leave the
/// guest, and the control buffers among them can be used again.
pub proof fn returned_group_leaves_guest(a: ActiveView, range: RxBufferRange, transaction_id: u64, g: int)
    requires
        0 <= g < a.rx_groups.len(),
        a.rx_groups[g].len() > 0,
        a.rx_groups[g][0] == transaction_id,
        forall|k: int|
            0 <= k < g ==> (#[trigger] a.rx_groups[k]).len() == 0 || a.rx_groups[k][0]
                != transaction_id,
    ensures
        a.primary is Some ==> release_valid(a, range, transaction_id),
        release_valid(a, range, transaction_id) <==> a.primary is Some || forall|i: int|
            0 <= i < a.rx_groups[g].len() ==> #[trigger] a.rx_groups[g][i] >= 16,
        ({
            let t = released(a, range, transaction_id);
            &&& t.rx_groups == a.rx_groups.remove(g)
            &&& a.primary is None ==> t.primary is None
            &&& a.primary matches Some(p) ==> t.primary is Some
                && t.primary->0.free_control_buffers == p.free_control_buffers
                + a.rx_groups[g].filter(|id: u32| id < 16)
            &&& a.primary matches Some(p) ==> t.primary->0.control_messages == p.control_messages
                && t.primary->0.guest_vf_state == p.guest_vf_state
            &&& t.pending_tx_packets == a.pending_tx_packets
            &&& t.free_tx_packets == a.free_tx_packets
            &&& t.pending_tx_completions == a.pending_tx_completions
            &&& t.stats == a.stats
        }),
        release_refused(a, transaction_id).rx_groups == a.rx_groups.remove(g),
        release_refused(a, transaction_id).primary == a.primary,
{
    crate::netvsp::rx::group_is_found_by_first_id(a.rx_groups, transaction_id as u32);
    let found = group_of(a.rx_groups, transaction_id as u32, 0);
    assert(found == g) by {
        if found < g {
            assert(a.rx_groups[found].len() > 0);
        }
        if g < found {
            assert(a.rx_groups[g].len() == 0 || a.rx_groups[g][0] != transaction_id as u32);
        }
    }
    let ids = a.rx_groups[g];
    returned_buffers_are_sorted_out(range, ids);
    lemma_nothing_kept(ids);
}

proof fn lemma_nothing_kept(ids: Seq<u32>)
    ensures
        ids.filter(|id: u32| id < 16).len() == 0 <==> forall|i: int|
            0 <= i < ids.len() ==> #[trigger] ids[i] >= 16,
    decreases ids.len(),
{
    reveal(Seq::filter);
    if ids.len() > 0 {
        let rest = ids.drop_last();
        lemma_nothing_kept(rest);
        if forall|i: int| 0 <= i < rest.len() ==> #[trigger] rest[i] >= 16 {
            assert forall|i: int| 0 <= i < ids.len() && ids.last() >= 16 implies #[trigger] ids[i]
                >= 16 by {
                if i < rest.len() {
                    assert(rest[i] >= 16);
                }
            }
        } else {
            let i = choose|i: int| 0 <= i < rest.len() && rest[i] < 16;
            assert(ids[i] < 16);
        }
    }
}

/// Buffers that the guest does not hold cannot be returned.
pub proof fn unknown_group_is_refused(a: ActiveView, range: RxBufferRange, transaction_id: u64)
    requires
        forall|k: int|
            0 <= k < a.rx_groups.len() ==> (#[trigger] a.rx_groups[k]).len() == 0
                || a.rx_groups[k][0] != transaction_id,
    ensures
        !release_valid(a, range, transaction_id),
        release_refused(a, transaction_id) == a,
{
    crate::netvsp::rx::group_is_found_by_first_id(a.rx_groups, transaction_id as u32);
}

/// Received packets are handed to the guest where they lie: each in its suballocation, in
/// their order, with the whole length of one.
pub proof fn received_packets_are_located(b: ChannelBuffers, ids: Seq<u32>, i: int)
    requires
        b.recv_buffer.wf(),
        0 <= i < ids.len(),
        ids[i] < b.recv_buffer.count,
    ensures
        rx_ranges(b, ids).len() == ids.len(),
        rx_ranges(b, ids)[i].byte_offset == ids[i] * b.recv_buffer.sub_allocation_size,
        rx_ranges(b, ids)[i].byte_count == b.recv_buffer.sub_allocation_size,
{
    let size = b.recv_buffer.sub_allocation_size as int;
    assert(0 <= ids[i] * size <= b.recv_buffer.count * size) by (nonlinear_arith)
        requires
            0 <= ids[i] < b.recv_buffer.count,
            size >= 1,
    ;
}

/// A packet without a transaction ID is refused and changes nothing, since it could not be
/// completed. Any other is known by its transaction ID from then on, and the other slots stay.
/// One whose memory is not there has no messages.
pub proof fn packet_takes_transaction(
    m: &PacketMemory,
    a: ActiveView,
    segments: Seq<TxSegment>,
    id: u32,
    transaction_id: Option<u64>,
    accessible: bool,
)
    requires
        id < a.pending_tx_packets.len(),
    ensures
        ({
            let h = rndis_handled(m, a, segments, id, transaction_id, accessible);
            &&& transaction_id is None ==> h.0 == a && h.1 == segments && h.2
                == Err::<nat, WorkerError>(WorkerError::MissingTransactionId)
            &&& transaction_id matches Some(t) ==> {
                &&& h.0.pending_tx_packets.len() == a.pending_tx_packets.len()
                &&& h.0.pending_tx_packets[id as int].transaction_id == t
                &&& h.0.pending_tx_packets[id as int].pending_packet_count
                    == a.pending_tx_packets[id as int].pending_packet_count
                &&& forall|k: int|
                    0 <= k < a.pending_tx_packets.len() && k != id
                        ==> #[trigger] h.0.pending_tx_packets[k] == a.pending_tx_packets[k]
                &&& !accessible ==> h.1 == segments && h.0.primary == a.primary && h.2
                    == Err::<nat, WorkerError>(WorkerError::GpaDirectError)
                &&& accessible && m.bytes@.len() == 0 ==> h.1 == segments && h.0.primary
                    == a.primary && h.2 == Ok::<nat, WorkerError>(0)
            }
            &&& h.0.free_tx_packets == a.free_tx_packets
            &&& h.0.pending_tx_completions == a.pending_tx_completions
            &&& h.0.rx_groups == a.rx_groups
        }),
{
}

} // verus!
