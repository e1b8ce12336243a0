//! The loop of a channel.
use crate::netvsp::control::{buffers_wf, status_message, ChannelView, NetChannel};
use crate::netvsp::control_queue::{control_buffers_free, lemma_still_free};
use crate::netvsp::error::WorkerError;
use crate::netvsp::guest_vf::{
    handle_state_change, needs_state_change, state_change, steps_left, CoordinatorMessage,
    Negotiated,
};
use crate::netvsp::protocol::{
    OutgoingPacket, OutgoingPacketType, PacketTypeView, PacketView, Version,
    MESSAGE5_TYPE_SEND_INDIRECTION_TABLE, SEND_INDIRECTION_TABLE_ENTRIES,
};
use crate::netvsp::rndis::{STATUS_MEDIA_CONNECT, STATUS_MEDIA_DISCONNECT};
use crate::netvsp::rx::{first_conflict, in_groups, RX_RESERVED_CONTROL_BUFFERS};
use crate::netvsp::state::{
    ActiveState, ActiveView, ChannelBuffers, PendingLinkAction, PrimaryView,
};
use crate::wire::{le32, le32_list, push_u32, push_u32_list};
use vstd::prelude::*;

verus! {

/// Linux guests are known to not act on link state changes that happen in quick
/// succession.
pub const LINK_DELAY_MS: u64 = 5000;

/// The send indirection table: the channels in turn.
pub open spec fn send_indirection_table(num_channels: u32) -> Seq<u32> {
    Seq::new(16, |i: int| (i % num_channels as int) as u32)
}

/// The message that tells the guest on which channels to send. The table starts
/// behind the header of four and the two fields of eight bytes.
pub open spec fn indirection_message(num_channels: u32) -> PacketView {
    PacketView {
        transaction_id: 0,
        packet_type: PacketTypeView::InBandNoCompletion,
        payload: le32(MESSAGE5_TYPE_SEND_INDIRECTION_TABLE) + le32_list(
            seq![SEND_INDIRECTION_TABLE_ENTRIES, 12u32] + send_indirection_table(num_channels),
        ),
    }
}

impl NetChannel {
    /// Tells the guest on which channels to send, if its version knows of that.
    /// The message is dropped if the ring is full.
    pub fn guest_send_indirection_table(&mut self, version: Version, num_channels_opened: u32)
        requires
            num_channels_opened >= 1,
        ensures
            final(self)@ == if version.number() < Version::V5.number() {
                old(self)@
            } else {
                old(self)@.with_out(
                    old(self)@.out.sent_if_fits(indirection_message(num_channels_opened)),
                )
            },
    {
        if !version.at_least(Version::V5) {
            return;
        }
        let mut words: Vec<u32> = Vec::new();
        words.push(SEND_INDIRECTION_TABLE_ENTRIES);
        words.push(12);
        let ghost head = seq![SEND_INDIRECTION_TABLE_ENTRIES, 12u32];
        let ghost table = send_indirection_table(num_channels_opened);
        let mut i: u32 = 0;
        assert(words@ =~= head + table.take(0));
        while i < SEND_INDIRECTION_TABLE_ENTRIES
            invariant
                i <= SEND_INDIRECTION_TABLE_ENTRIES,
                num_channels_opened >= 1,
                table == send_indirection_table(num_channels_opened),
                words@ == head + table.take(i as int),
            decreases SEND_INDIRECTION_TABLE_ENTRIES - i,
        {
            words.push(i % num_channels_opened);
            i = i + 1;
            assert(words@ =~= head + table.take(i as int));
        }
        assert(table.take(16) =~= table);
        let mut payload: Vec<u8> = Vec::new();
        push_u32(&mut payload, MESSAGE5_TYPE_SEND_INDIRECTION_TABLE);
        assert(payload@ =~= le32(MESSAGE5_TYPE_SEND_INDIRECTION_TABLE));
        push_u32_list(&mut payload, words.as_slice());
        let p = OutgoingPacket {
            transaction_id: 0,
            packet_type: OutgoingPacketType::InBandNoCompletion,
            payload,
        };
        assert(p@ == indirection_message(num_channels_opened));
        let _ = self.out.try_write(p);
    }
}

/// Whether the guest is told on which channels to send: once all channels that
/// it has asked for are open.
pub open spec fn wants_spread(p: PrimaryView, num_channels_opened: int) -> bool {
    p.requested_num_queues > 1 && !p.tx_spread_sent && num_channels_opened
        == p.requested_num_queues
}

/// The link state that the guest is told of: the new one if it differs from what
/// the guest believes. Otherwise there were two changes, and the guest first gets
/// the opposite, and the new one after a delay.
pub open spec fn link_to_send(p: PrimaryView, up: bool) -> (bool, PendingLinkAction) {
    if p.guest_link_up != up {
        (up, PendingLinkAction::Default)
    } else {
        (!p.guest_link_up, PendingLinkAction::Delay(p.guest_link_up))
    }
}

/// What telling the guest of the link state does.
pub open spec fn link_sent(c: ChannelView, b: ChannelBuffers, a: ActiveView, up: bool) -> (
    ChannelView,
    ActiveView,
    Result<Option<CoordinatorMessage>, WorkerError>,
) {
    let p = a.primary->0;
    let timer = CoordinatorMessage::StartTimer { delay_ms: LINK_DELAY_MS };
    if p.free_control_buffers.len() == 0 {
        (
            c,
            ActiveView {
                primary: Some(
                    PrimaryView { pending_link_action: PendingLinkAction::Delay(up), ..p },
                ),
                ..a
            },
            Ok(Some(timer)),
        )
    } else {
        let id = p.free_control_buffers.last();
        let (connect, action) = link_to_send(p, up);
        let reply = c.replied(
            b,
            id,
            status_message(
                if connect {
                    STATUS_MEDIA_CONNECT
                } else {
                    STATUS_MEDIA_DISCONNECT
                },
                Seq::empty(),
            ),
        );
        let taken = PrimaryView {
            free_control_buffers: p.free_control_buffers.drop_last(),
            pending_link_action: action,
            ..p
        };
        (
            reply.0,
            ActiveView {
                primary: Some(
                    PrimaryView {
                        guest_link_up: if reply.1 {
                            connect
                        } else {
                            p.guest_link_up
                        },
                        ..taken
                    },
                ),
                rx_groups: a.rx_groups.push(seq![id]),
                ..a
            },
            if !reply.1 {
                Err(WorkerError::OutOfSpace)
            } else if action is Delay {
                Ok(Some(timer))
            } else {
                Ok(None)
            },
        )
    }
}

impl NetChannel {
    /// Tells the guest on which channels to send, if it is time for that. There
    /// must be room on the ring for a state change.
    pub fn send_tx_spread(
        &mut self,
        buffers: &ChannelBuffers,
        state: &mut ActiveState,
        num_channels_opened: u16,
    ) -> (sent: bool)
        requires
            old(state).primary is Some,
            old(state).primary->0.wf(),
        ensures
            final(state).primary is Some,
            final(state).primary->0.wf(),
            final(state).primary->0.control_messages_len == old(
                state,
            ).primary->0.control_messages_len,
            sent == wants_spread(old(state)@.primary->0, num_channels_opened as int),
            if sent {
                &&& final(self)@ == if buffers.version.number() < Version::V5.number() {
                    old(self)@
                } else {
                    old(self)@.with_out(
                        old(self)@.out.sent_if_fits(
                            indirection_message(num_channels_opened as u32),
                        ),
                    )
                }
                &&& final(state)@ == (ActiveView {
                    primary: Some(
                        PrimaryView { tx_spread_sent: true, ..old(state)@.primary->0 },
                    ),
                    ..old(state)@
                })
            } else {
                final(self)@ == old(self)@ && final(state)@ == old(state)@
            },
    {
        let mut p = match state.primary.take() {
            Some(p) => p,
            None => return false,
        };
        let sent = p.requested_num_queues > 1 && !p.tx_spread_sent && num_channels_opened
            == p.requested_num_queues;
        if sent {
            self.guest_send_indirection_table(buffers.version, num_channels_opened as u32);
            p.tx_spread_sent = true;
        }
        state.primary = Some(p);
        sent
    }

    /// Tells the guest of a change of the link state, if one is pending. Returns
    /// what the coordinator has to do before the channel goes on. There must be
    /// room on the ring for a state change.
    pub fn send_link_status(&mut self, buffers: &ChannelBuffers, state: &mut ActiveState) -> (r:
        Result<Option<CoordinatorMessage>, WorkerError>)
        requires
            buffers_wf(old(self).packet_size, *buffers),
            old(state)@.rx_count == buffers.recv_buffer.count,
            old(state).primary is Some,
            old(state).primary->0.wf(),
            control_buffers_free(
                old(state)@.primary->0.free_control_buffers,
                old(state)@.rx_groups,
            ),
        ensures
            final(state).primary is Some,
            final(state).primary->0.wf(),
            final(state).primary->0.control_messages_len == old(
                state,
            ).primary->0.control_messages_len,
            control_buffers_free(
                final(state)@.primary->0.free_control_buffers,
                final(state)@.rx_groups,
            ),
            match old(state)@.primary->0.pending_link_action {
                PendingLinkAction::Active(up) => (final(self)@, final(state)@, r) == link_sent(
                    old(self)@,
                    *buffers,
                    old(state)@,
                    up,
                ),
                _ => {
                    &&& r == Ok::<Option<CoordinatorMessage>, WorkerError>(None)
                    &&& final(self)@ == old(self)@
                    &&& final(state)@ == old(state)@
                },
            },
    {
        let mut p = match state.primary.take() {
            Some(p) => p,
            None => return Ok(None),
        };
        let up = match p.pending_link_action {
            PendingLinkAction::Active(up) => up,
            _ => {
                state.primary = Some(p);
                return Ok(None);
            },
        };
        let timer = CoordinatorMessage::StartTimer { delay_ms: LINK_DELAY_MS };
        let ghost free = p@.free_control_buffers;
        let ghost groups = state@.rx_groups;
        let id: u32 = match p.free_control_buffers.pop() {
            Some(id) => id,
            None => {
                p.pending_link_action = PendingLinkAction::Delay(up);
                state.primary = Some(p);
                return Ok(Some(timer));
            },
        };
        let connect: bool;
        let delayed: bool;
        if p.guest_link_up != up {
            p.pending_link_action = PendingLinkAction::Default;
            connect = up;
            delayed = false;
        } else {
            p.pending_link_action = PendingLinkAction::Delay(p.guest_link_up);
            connect = !p.guest_link_up;
            delayed = true;
        }
        // Mark the receive buffer in use to allow the guest to release it.
        let mut ids: Vec<u32> = Vec::new();
        ids.push(id);
        assert(ids@ =~= seq![id]);
        proof {
            assert(id == free[free.len() - 1]);
            assert(!in_groups(groups, id));
            reveal_with_fuel(first_conflict, 2);
            assert(!seq![id].take(0).contains(id));
            lemma_still_free(free, groups);
        }
        let allocated = state.rx_bufs.allocate(ids);
        assert(allocated is Ok);
        let empty: Vec<u8> = Vec::new();
        assert(empty@ =~= Seq::empty());
        let r = self.indicate_status(
            buffers,
            id,
            if connect {
                STATUS_MEDIA_CONNECT
            } else {
                STATUS_MEDIA_DISCONNECT
            },
            &empty,
        );
        match r {
            Ok(()) => {
                p.guest_link_up = connect;
                state.primary = Some(p);
                if delayed {
                    Ok(Some(timer))
                } else {
                    Ok(None)
                }
            },
            Err(err) => {
                state.primary = Some(p);
                Err(err)
            },
        }
    }

    /// Sends the messages that the VF state of the primary channel calls for.
    /// There must be room on the ring for a state change.
    pub fn send_vf_state(&mut self, buffers: &ChannelBuffers, state: &mut ActiveState) -> (r:
        Result<Option<CoordinatorMessage>, WorkerError>)
        requires
            buffers_wf(old(self).packet_size, *buffers),
            old(state).primary is Some,
            old(state).primary->0.wf(),
            old(state)@.primary->0.guest_vf_state.is_settled(),
        ensures
            final(state).primary is Some,
            final(state).primary->0.wf(),
            final(state).primary->0.control_messages_len == old(
                state,
            ).primary->0.control_messages_len,
            ({
                let p = old(state)@.primary->0;
                let change = state_change(
                    old(self)@.negotiated(*buffers),
                    p.rndis_state,
                    old(self)@.out,
                    p.guest_vf_state,
                );
                &&& final(self)@ == old(self)@.with_out(change.0)
                &&& final(state)@ == (ActiveView {
                    primary: Some(PrimaryView { guest_vf_state: change.1, ..p }),
                    ..old(state)@
                })
                &&& r == change.2
            }),
    {
        let mut p = match state.primary.take() {
            Some(p) => p,
            None => return Ok(None),
        };
        let n = Negotiated {
            adapter: self.adapter,
            packet_size: self.packet_size,
            version: buffers.version,
            ndis_config: buffers.ndis_config,
        };
        let mut guest_vf_state = p.guest_vf_state;
        let r = handle_state_change(&mut self.out, &n, p.rndis_state, &mut guest_vf_state);
        p.guest_vf_state = guest_vf_state;
        state.primary = Some(p);
        r
    }
}

/// What the primary channel tells the guest before it handles packets. The
/// variants are in the order in which the guest is told.
#[derive(Debug, Clone, Copy, PartialEq, Eq, Structural)]
pub enum Announcement {
    /// On which channels to send.
    TxSpread,
    /// The link state.
    LinkStatus,
    /// The state of the VF.
    VfState,
}

impl Announcement {
    /// Whether it is time for it.
    pub open spec fn is_due(self, p: PrimaryView, num_channels_opened: int) -> bool {
        match self {
            Announcement::TxSpread => wants_spread(p, num_channels_opened),
            Announcement::LinkStatus => p.pending_link_action is Active,
            Announcement::VfState => p.guest_vf_state is Available || steps_left(p.guest_vf_state)
                > 0,
        }
    }

    /// Its place in the order.
    pub open spec fn place(self) -> int {
        match self {
            Announcement::TxSpread => 0,
            Announcement::LinkStatus => 1,
            Announcement::VfState => 2,
        }
    }
}

/// Whether `a` comes after what is done.
pub open spec fn comes_after(done: Option<Announcement>, a: Announcement) -> bool {
    match done {
        Some(d) => a.place() > d.place(),
        None => true,
    }
}

/// What the guest is told next: the first announcement after `done` that is due.
/// Before it is made, there has to be room for a state change on the ring.
pub fn next_announcement(
    done: Option<Announcement>,
    state: &ActiveState,
    num_channels_opened: u16,
) -> (r: Option<Announcement>)
    ensures
        match r {
            Some(a) => {
                &&& state@.primary is Some
                &&& comes_after(done, a)
                &&& a.is_due(state@.primary->0, num_channels_opened as int)
                &&& forall|b: Announcement|
                    comes_after(done, b) && b.place() < a.place() ==> !(#[trigger] b.is_due(
                        state@.primary->0,
                        num_channels_opened as int,
                    ))
            },
            None => state@.primary is Some ==> forall|b: Announcement|
                comes_after(done, b) ==> !(#[trigger] b.is_due(
                    state@.primary->0,
                    num_channels_opened as int,
                )),
        },
{
    let p = match &state.primary {
        Some(p) => p,
        None => return None,
    };
    if done.is_none() && p.requested_num_queues > 1 && !p.tx_spread_sent && num_channels_opened
        == p.requested_num_queues {
        return Some(Announcement::TxSpread);
    }
    let link = match done {
        None => true,
        Some(Announcement::TxSpread) => true,
        _ => false,
    };
    if link {
        if let PendingLinkAction::Active(_) = p.pending_link_action {
            return Some(Announcement::LinkStatus);
        }
    }
    let vf = match done {
        Some(Announcement::VfState) => false,
        _ => true,
    };
    if vf && needs_state_change(p.guest_vf_state) {
        return Some(Announcement::VfState);
    }
    None
}

impl NetChannel {
    /// Makes an announcement. Returns what the coordinator has to do before the
    /// channel goes on.
    pub fn announce(
        &mut self,
        a: Announcement,
        buffers: &ChannelBuffers,
        state: &mut ActiveState,
        num_channels_opened: u16,
    ) -> (r: Result<Option<CoordinatorMessage>, WorkerError>)
        requires
            buffers_wf(old(self).packet_size, *buffers),
            old(state)@.rx_count == buffers.recv_buffer.count,
            old(state).primary is Some,
            old(state).primary->0.wf(),
            control_buffers_free(
                old(state)@.primary->0.free_control_buffers,
                old(state)@.rx_groups,
            ),
            a is VfState ==> old(state)@.primary->0.guest_vf_state.is_settled(),
            a.is_due(old(state)@.primary->0, num_channels_opened as int),
        ensures
            final(state).primary is Some,
            final(state).primary->0.wf(),
            control_buffers_free(
                final(state)@.primary->0.free_control_buffers,
                final(state)@.rx_groups,
            ),
            ({
                let p = old(state)@.primary->0;
                match a {
                    Announcement::TxSpread => {
                        &&& r == Ok::<Option<CoordinatorMessage>, WorkerError>(None)
                        &&& final(self)@ == if buffers.version.number() < Version::V5.number() {
                            old(self)@
                        } else {
                            old(self)@.with_out(
                                old(self)@.out.sent_if_fits(
                                    indirection_message(num_channels_opened as u32),
                                ),
                            )
                        }
                        &&& final(state)@ == (ActiveView {
                            primary: Some(PrimaryView { tx_spread_sent: true, ..p }),
                            ..old(state)@
                        })
                    },
                    Announcement::LinkStatus => (final(self)@, final(state)@, r) == link_sent(
                        old(self)@,
                        *buffers,
                        old(state)@,
                        p.pending_link_action->Active_0,
                    ),
                    Announcement::VfState => {
                        let change = state_change(
                            old(self)@.negotiated(*buffers),
                            p.rndis_state,
                            old(self)@.out,
                            p.guest_vf_state,
                        );
                        &&& final(self)@ == old(self)@.with_out(change.0)
                        &&& final(state)@ == (ActiveView {
                            primary: Some(PrimaryView { guest_vf_state: change.1, ..p }),
                            ..old(state)@
                        })
                        &&& r == change.2
                    },
                }
            }),
    {
        match a {
            Announcement::TxSpread => {
                let _ = self.send_tx_spread(buffers, state, num_channels_opened);
                Ok(None)
            },
            Announcement::LinkStatus => self.send_link_status(buffers, state),
            Announcement::VfState => self.send_vf_state(buffers, state),
        }
    }
}

/// The room on the outgoing ring below which the endpoint is not polled: dropping
/// packets is left to it.
pub fn ring_spare_capacity(capacity: usize, can_use_ring_size_opt: bool, ring_size_limit: usize) -> (r:
    usize)
    requires
        capacity >= 2048,
        can_use_ring_size_opt ==> ring_size_limit <= capacity,
    ensures
        r == if can_use_ring_size_opt && ring_size_limit != 0 {
            capacity - ring_size_limit
        } else {
            2048
        },
{
    let mut limit: usize = if can_use_ring_size_opt {
        ring_size_limit
    } else {
        0
    };
    if limit == 0 {
        limit = capacity - 2048;
    }
    capacity - limit
}

/// A part of a round of a channel.
#[derive(Debug, Clone, Copy, PartialEq, Eq, Structural)]
pub enum Phase {
    /// Packets from the endpoint go to the guest.
    EndpointRx,
    /// Packets from the guest are read.
    Ring,
    /// Transmissions that the endpoint has completed are completed.
    EndpointTx,
    /// Packets that wait for the endpoint are transmitted.
    Transmit,
    /// Completions that wait for the ring are sent.
    Completions,
    /// Control messages are answered, now that buffers may have come back.
    ControlMessages,
    /// The channel looks for work, and waits if there is none.
    Sleep,
}

/// The round of a channel. If the outgoing ring is almost full, the endpoint is
/// left alone: it is more efficient to let it drop packets.
pub open spec fn round(ring_full: bool) -> Seq<Phase> {
    if ring_full {
        seq![
            Phase::Ring,
            Phase::Transmit,
            Phase::Completions,
            Phase::ControlMessages,
            Phase::Sleep,
        ]
    } else {
        seq![
            Phase::EndpointRx,
            Phase::Ring,
            Phase::EndpointTx,
            Phase::Transmit,
            Phase::Completions,
            Phase::ControlMessages,
            Phase::Sleep,
        ]
    }
}

/// The first phase of a round.
pub fn first_phase(ring_full: bool) -> (r: Phase)
    ensures
        r == round(ring_full)[0],
{
    if ring_full {
        Phase::Ring
    } else {
        Phase::EndpointRx
    }
}

/// The phase after `phase` in a round; `None` after the last one.
pub fn next_phase(phase: Phase, ring_full: bool) -> (r: Option<Phase>)
    requires
        round(ring_full).contains(phase),
    ensures
        forall|i: int|
            0 <= i < round(ring_full).len() && #[trigger] round(ring_full)[i] == phase ==> r
                == if i + 1 < round(ring_full).len() {
                Some(round(ring_full)[i + 1])
            } else {
                None
            },
{
    match phase {
        Phase::EndpointRx => Some(Phase::Ring),
        Phase::Ring => Some(
            if ring_full {
                Phase::Transmit
            } else {
                Phase::EndpointTx
            },
        ),
        Phase::EndpointTx => Some(Phase::Transmit),
        Phase::Transmit => Some(Phase::Completions),
        Phase::Completions => Some(Phase::ControlMessages),
        Phase::ControlMessages => Some(Phase::Sleep),
        Phase::Sleep => None,
    }
}

/// What a channel can see when it has nothing to do.
#[derive(Debug, Clone, Copy, PartialEq, Eq, Structural)]
pub struct PollInput {
    /// The outgoing ring is almost full.
    pub ring_full: bool,
    /// The endpoint has something to say.
    pub endpoint_ready: bool,
    /// The incoming ring has a packet.
    pub incoming_ready: bool,
    /// The room on the outgoing ring.
    pub outgoing_room: usize,
    /// The room that is wanted there while it is almost full.
    pub ring_spare_capacity: usize,
    /// How many slots must be free before the incoming ring is polled.
    pub free_tx_packet_threshold: usize,
}

/// What a channel does next.
#[derive(Debug, Clone, Copy, PartialEq, Eq, Structural)]
pub enum Wake {
    /// There is work.
    Ready,
    /// The coordinator has to do something first.
    Restart(CoordinatorMessage),
    /// Nothing.
    Pending,
}

/// Whether there is work. While the outgoing ring is almost full, the endpoint
/// is not waited for.
pub open spec fn has_work(
    c: ChannelView,
    a: ActiveView,
    segments_waiting: bool,
    input: PollInput,
) -> bool {
    let wanted = if input.ring_full {
        input.ring_spare_capacity
    } else {
        c.pending_send_size
    };
    ||| !input.ring_full && input.endpoint_ready
    ||| a.free_tx_packets.len() >= input.free_tx_packet_threshold && !segments_waiting
        && input.incoming_ready
    ||| wanted != 0 && input.outgoing_room >= wanted
}

impl NetChannel {
    /// Looks for work. What the coordinator has to do is handed over once.
    pub fn poll(&mut self, state: &ActiveState, segments_waiting: bool, input: PollInput) -> (w:
        Wake)
        ensures
            ({
                let work = has_work(old(self)@, state@, segments_waiting, input);
                if work {
                    w == Wake::Ready && final(self)@ == old(self)@
                } else {
                    &&& w == match old(self)@.restart {
                        Some(m) => Wake::Restart(m),
                        None => Wake::Pending,
                    }
                    &&& final(self)@ == (ChannelView { restart: None, ..old(self)@ })
                }
            }),
    {
        if !input.ring_full && input.endpoint_ready {
            return Wake::Ready;
        }
        if state.free_tx_packets.len() >= input.free_tx_packet_threshold && !segments_waiting
            && input.incoming_ready {
            return Wake::Ready;
        }
        let wanted: usize = if input.ring_full {
            input.ring_spare_capacity
        } else {
            self.pending_send_size
        };
        if wanted != 0 && input.outgoing_room >= wanted {
            return Wake::Ready;
        }
        match self.restart.take() {
            Some(m) => Wake::Restart(m),
            None => Wake::Pending,
        }
    }
}

/// The reserved ones of `ids`.
pub open spec fn reserved(ids: Seq<u32>) -> Seq<u32>
    decreases ids.len(),
{
    if ids.len() == 0 {
        Seq::empty()
    } else if ids.last() < RX_RESERVED_CONTROL_BUFFERS {
        reserved(ids.drop_last()).push(ids.last())
    } else {
        reserved(ids.drop_last())
    }
}

/// The ones of `ids` that are not reserved.
pub open spec fn unreserved(ids: Seq<u32>) -> Seq<u32>
    decreases ids.len(),
{
    if ids.len() == 0 {
        Seq::empty()
    } else if ids.last() < RX_RESERVED_CONTROL_BUFFERS {
        unreserved(ids.drop_last())
    } else {
        unreserved(ids.drop_last()).push(ids.last())
    }
}

/// Collects receive buffers of this queue that another channel got back. This
/// only happens when buffers move between queues while some are in use. Returns
/// the ones for the endpoint.
pub fn collect_remote_buffers(state: &mut ActiveState, ids: &Vec<u32>) -> (r: Vec<u32>)
    requires
        reserved(ids@).len() > 0 ==> old(state).primary is Some,
    ensures
        r@ == unreserved(ids@),
        final(state)@ == (ActiveView {
            primary: match old(state)@.primary {
                Some(p) => Some(
                    PrimaryView {
                        free_control_buffers: p.free_control_buffers + reserved(ids@),
                        ..p
                    },
                ),
                None => None,
            },
            ..old(state)@
        }),
{
    let mut rx: Vec<u32> = Vec::new();
    let mut control: Vec<u32> = Vec::new();
    let mut i: usize = 0;
    assert(ids@.take(0) =~= Seq::empty());
    while i < ids.len()
        invariant
            i <= ids@.len(),
            rx@ == unreserved(ids@.take(i as int)),
            control@ == reserved(ids@.take(i as int)),
        decreases ids@.len() - i,
    {
        let id: u32 = ids[i];
        assert(ids@.take(i + 1).drop_last() =~= ids@.take(i as int));
        assert(ids@.take(i + 1).last() == id);
        if id >= RX_RESERVED_CONTROL_BUFFERS {
            rx.push(id);
        } else {
            control.push(id);
        }
        i = i + 1;
    }
    assert(ids@.take(i as int) =~= ids@);
    match state.primary.take() {
        Some(p) => {
            let mut p = p;
            p.free_control_buffers.append(&mut control);
            state.primary = Some(p);
        },
        None => {},
    }
    rx
}

/// The announcements end: each is made at most once before packets are handled,
/// in their order.
pub proof fn announcements_end(done: Option<Announcement>, a: Announcement, b: Announcement)
    requires
        comes_after(done, a),
        comes_after(Some(a), b),
    ensures
        comes_after(done, b),
        a != b,
        !comes_after(Some(b), a),
        !(exists|c: Announcement| comes_after(Some(Announcement::VfState), c)),
{
}

/// Two link changes in a row reach the guest as two: after the first message the
/// guest believes the opposite of what it believed, and the second, which is
/// still pending, brings it back.
pub proof fn link_change_is_not_lost(c: ChannelView, b: ChannelBuffers, a: ActiveView, up: bool)
    requires
        a.primary is Some,
        link_sent(c, b, a, up).2 is Ok,
    ensures
        ({
            let p = link_sent(c, b, a, up).1.primary->0;
            match p.pending_link_action {
                PendingLinkAction::Default => p.guest_link_up == up,
                PendingLinkAction::Delay(later) => later == up,
                PendingLinkAction::Active(_) => false,
            }
        }),
{
}

/// The guest is told to send on the channels in turn: the table names each of its 16 entries,
/// the first entry the primary channel.
pub proof fn indirection_table_is_read_back(num_channels: u32, i: int)
    requires
        num_channels >= 1,
        0 <= i < 16,
    ensures
        ({
            let p = indirection_message(num_channels);
            &&& p.packet_type is InBandNoCompletion
            &&& crate::wire::u32_at(p.payload, 0) == 134
            &&& crate::wire::u32_at(p.payload, 4) == 16
            &&& crate::wire::u32_at(p.payload, 8) == 12
            &&& crate::wire::u32_at(p.payload, 12 + 4 * i) == i % (num_channels as int)
            &&& p.payload.len() == 76
        }),
{
    let table = send_indirection_table(num_channels);
    let xs = seq![SEND_INDIRECTION_TABLE_ENTRIES, 12u32] + table;
    crate::netvsp::protocol::message_is_read_back(0, MESSAGE5_TYPE_SEND_INDIRECTION_TABLE, xs, 0);
    crate::netvsp::protocol::message_is_read_back(0, MESSAGE5_TYPE_SEND_INDIRECTION_TABLE, xs, 1);
    crate::netvsp::protocol::message_is_read_back(
        0,
        MESSAGE5_TYPE_SEND_INDIRECTION_TABLE,
        xs,
        2 + i,
    );
    let b = crate::netvsp::protocol::message_bytes(
        0,
        MESSAGE5_TYPE_SEND_INDIRECTION_TABLE,
        le32_list(xs),
    );
    assert(b =~= le32(MESSAGE5_TYPE_SEND_INDIRECTION_TABLE) + le32_list(xs));
    assert(xs[2 + i] == table[i]);
    assert(0 <= i % (num_channels as int) <= i) by (nonlinear_arith)
        requires
            0 <= i,
            num_channels >= 1,
    ;
}

/// The guest is told on which channels to send once, when all of the channels it asked for are
/// open, and only if it asked for more than one.
pub proof fn spread_is_told_once(p: PrimaryView, opened: int)
    ensures
        wants_spread(p, opened) <==> p.requested_num_queues >= 2 && opened
            == p.requested_num_queues && !p.tx_spread_sent,
        !wants_spread(PrimaryView { tx_spread_sent: true, ..p }, opened),
{
}

/// What the guest is told of the link is what it then believes: the message in the buffer says
/// that the link is up if and only if the guest is taken to believe so. The buffer is with the
/// guest until it returns it.
pub proof fn link_message_is_believed(c: ChannelView, b: ChannelBuffers, a: ActiveView, up: bool)
    requires
        a.primary is Some,
        a.primary->0.free_control_buffers.len() > 0,
        link_sent(c, b, a, up).2 is Ok,
    ensures
        ({
            let t = link_sent(c, b, a, up);
            let p = a.primary->0;
            let q = t.1.primary->0;
            let id = p.free_control_buffers.last();
            let n = c.out.log.len() as int;
            &&& t.0.out.log.len() == n + 2
            &&& t.0.out.log[n] matches crate::netvsp::outbox::EffectView::WriteReceiveBuffer {
                id: written,
                bytes,
            } && written == id && crate::wire::u32_at(bytes, 0) == 7 && crate::wire::u32_at(bytes, 8)
                == if q.guest_link_up {
                0x4001000Bu32
            } else {
                0x4001000Cu32
            }
            &&& t.1.rx_groups == a.rx_groups.push(seq![id])
            &&& q.free_control_buffers == p.free_control_buffers.drop_last()
            // The guest learns something new, and a second change is told after five seconds.
            &&& q.guest_link_up != p.guest_link_up
            &&& p.guest_link_up != up ==> t.2 == Ok::<Option<CoordinatorMessage>, WorkerError>(None)
                && q.pending_link_action == PendingLinkAction::Default
            &&& p.guest_link_up == up ==> t.2 == Ok::<Option<CoordinatorMessage>, WorkerError>(
                Some(CoordinatorMessage::StartTimer { delay_ms: 5000 }),
            ) && q.pending_link_action == PendingLinkAction::Delay(up)
        }),
{
    let p = a.primary->0;
    let connect = p.guest_link_up != up && up || p.guest_link_up == up && !up;
    crate::netvsp::control::reported_status_is_read_back(
        if connect {
            STATUS_MEDIA_CONNECT
        } else {
            STATUS_MEDIA_DISCONNECT
        },
        Seq::empty(),
    );
}

/// Without a buffer the guest cannot be told of the link: that is tried again five seconds
/// later. If the ring is full it is an error.
pub proof fn link_message_waits_for_buffer(c: ChannelView, b: ChannelBuffers, a: ActiveView, up: bool)
    requires
        a.primary is Some,
    ensures
        a.primary->0.free_control_buffers.len() == 0 ==> {
            let t = link_sent(c, b, a, up);
            &&& t.0 == c
            &&& t.1.rx_groups == a.rx_groups
            &&& t.1.primary->0.pending_link_action == PendingLinkAction::Delay(up)
            &&& t.1.primary->0.guest_link_up == a.primary->0.guest_link_up
            &&& t.2 == Ok::<Option<CoordinatorMessage>, WorkerError>(
                Some(CoordinatorMessage::StartTimer { delay_ms: 5000 }),
            )
        },
        link_sent(c, b, a, up).2 matches Err(e) ==> e == WorkerError::OutOfSpace
            && link_sent(c, b, a, up).1.primary->0.guest_link_up == a.primary->0.guest_link_up,
{
}

/// A channel has work if the endpoint has something to say, unless the ring is almost full; if
/// there is a packet on the ring that can be taken; or if the ring has the room that the channel
/// waits for. Otherwise it has none.
pub proof fn work_is_noticed(
    c: ChannelView,
    a: ActiveView,
    segments_waiting: bool,
    input: PollInput,
)
    ensures
        ({
            let work = has_work(c, a, segments_waiting, input);
            &&& input.endpoint_ready && !input.ring_full ==> work
            &&& input.incoming_ready && !segments_waiting && a.free_tx_packets.len()
                >= input.free_tx_packet_threshold ==> work
            &&& !input.ring_full && 0 < c.pending_send_size <= input.outgoing_room ==> work
            &&& input.ring_full && 0 < input.ring_spare_capacity <= input.outgoing_room ==> work
            &&& (input.ring_full || !input.endpoint_ready) && (!input.incoming_ready
                || segments_waiting || a.free_tx_packets.len() < input.free_tx_packet_threshold)
                && input.outgoing_room == 0 ==> !work
            &&& (input.ring_full || !input.endpoint_ready) && !input.incoming_ready
                && !input.ring_full && c.pending_send_size == 0 ==> !work
            &&& (input.ring_full || !input.endpoint_ready) && !input.incoming_ready
                && !input.ring_full && input.outgoing_room < c.pending_send_size ==> !work
            &&& input.ring_full && !input.incoming_ready && input.outgoing_room
                < input.ring_spare_capacity ==> !work
        }),
{
}

/// Each round goes over the ring, transmits what waits, sends completions and answers control
/// messages before the channel sleeps. The endpoint is heard first, and again behind the ring,
/// unless the ring is almost full.
pub proof fn round_goes_over_everything(ring_full: bool)
    ensures
        ({
            let r = round(ring_full);
            let n = r.len() as int;
            &&& n == if ring_full {
                5int
            } else {
                7
            }
            &&& r[n - 5] == if ring_full {
                Phase::Ring
            } else {
                Phase::EndpointTx
            }
            &&& r[n - 4] == Phase::Transmit
            &&& r[n - 3] == Phase::Completions
            &&& r[n - 2] == Phase::ControlMessages
            &&& r[n - 1] == Phase::Sleep
            &&& !ring_full ==> r[0] == Phase::EndpointRx && r[1] == Phase::Ring
        }),
{
}

/// Buffers that another channel got back are sorted out by their numbers, in their order: the
/// first 16 are control buffers, and the others go to the endpoint.
pub proof fn collected_buffers_are_sorted_out(ids: Seq<u32>)
    ensures
        reserved(ids) == ids.filter(|id: u32| id < 16),
        unreserved(ids) == ids.filter(|id: u32| id >= 16),
    decreases ids.len(),
{
    reveal(Seq::filter);
    if ids.len() > 0 {
        collected_buffers_are_sorted_out(ids.drop_last());
    }
}

/// The guest is told of the channels first, then of the link, then of the VF.
pub proof fn announcements_are_due_in_order(p: PrimaryView, opened: int)
    ensures
        Announcement::TxSpread.place() < Announcement::LinkStatus.place()
            < Announcement::VfState.place(),
        Announcement::LinkStatus.is_due(p, opened) <==> p.pending_link_action is Active,
        Announcement::TxSpread.is_due(p, opened) <==> p.requested_num_queues >= 2 && opened
            == p.requested_num_queues && !p.tx_spread_sent,
        p.guest_vf_state is Available ==> Announcement::VfState.is_due(p, opened),
{
}

} // verus!
