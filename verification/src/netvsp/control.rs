//! RNDIS control messages.
use crate::netvsp::adapter::Adapter;
use crate::netvsp::error::WorkerError;
use crate::netvsp::guest_vf::{
    guest_vf_is_available, CoordinatorMessage, Negotiated, PrimaryChannelGuestVfState, RndisState,
};
use crate::netvsp::negotiate::MIN_MTU;
use crate::netvsp::oid::{handle_oid_query, oid_answer, ETHERNET_HEADER_LEN};
use crate::netvsp::oid_set::{handle_oid_set, oid_set};
use crate::netvsp::outbox::{ring_size, EffectView, Outbox, OutboxView, MAX_PACKET_PART};
use crate::netvsp::protocol::{
    fields, message, message_bytes, message_is_read_back, OutgoingPacket, OutgoingPacketType, PacketTypeView, PacketView,
    TransferPageRange, CONTROL_CHANNEL_TYPE, MESSAGE1_TYPE_SEND_RNDIS_PACKET,
    NO_SEND_BUFFER_SECTION, PACKET_SIZE_V61,
};
use crate::netvsp::rndis::{
    MESSAGE_TYPE_INDICATE_STATUS_MSG, MESSAGE_TYPE_INITIALIZE_CMPLT, MESSAGE_TYPE_INITIALIZE_MSG,
    MESSAGE_TYPE_KEEPALIVE_CMPLT, MESSAGE_TYPE_KEEPALIVE_MSG, MESSAGE_TYPE_QUERY_CMPLT,
    MESSAGE_TYPE_QUERY_MSG, MESSAGE_TYPE_RESET_MSG, MESSAGE_TYPE_SET_CMPLT,
    MESSAGE_TYPE_SET_EX_MSG, MESSAGE_TYPE_SET_MSG, OID_GEN_RECEIVE_SCALE_PARAMETERS,
    STATUS_SUCCESS,
};
use crate::netvsp::rx::RX_RESERVED_CONTROL_BUFFERS;
use crate::netvsp::state::{ChannelBuffers, PrimaryChannelState, PrimaryView};
use crate::wire::{
    copy_bytes, le32, le32_list, lemma_le32_round_trip, listed_number_is_read_back, push_bytes,
    push_u32, read_u32, u32_at,
};
use vstd::prelude::*;

verus! {

/// The ring space that is required to handle a control message. Most only send
/// one packet, but there has to be room for a VF association message too.
pub const MIN_CONTROL_RING_SIZE: usize = 144;

/// A channel.
#[derive(Debug)]
pub struct NetChannel {
    /// The adapter.
    pub adapter: Adapter,
    /// The byte length of a packet.
    pub packet_size: usize,
    /// What is sent to the guest.
    pub out: Outbox,
    /// What the coordinator has to do before the channel goes on.
    pub restart: Option<CoordinatorMessage>,
    /// The ring space that the channel waits for; zero if it does not.
    pub pending_send_size: usize,
}

/// What a [`NetChannel`] says.
pub struct ChannelView {
    /// The adapter.
    pub adapter: Adapter,
    /// The byte length of a packet.
    pub packet_size: usize,
    /// What is sent to the guest.
    pub out: OutboxView,
    /// What the coordinator has to do before the channel goes on.
    pub restart: Option<CoordinatorMessage>,
    /// The ring space that the channel waits for; zero if it does not.
    pub pending_send_size: usize,
}

impl View for NetChannel {
    type V = ChannelView;

    open spec fn view(&self) -> ChannelView {
        ChannelView {
            adapter: self.adapter,
            packet_size: self.packet_size,
            out: self.out@,
            restart: self.restart,
            pending_send_size: self.pending_send_size,
        }
    }
}

/// The channel works on buffers that were negotiated: suballocations hold at
/// least a packet of the smallest MTU, and there are the reserved ones.
pub open spec fn buffers_wf(packet_size: usize, b: ChannelBuffers) -> bool {
    &&& packet_size <= PACKET_SIZE_V61
    &&& b.recv_buffer.wf()
    &&& b.recv_buffer.sub_allocation_size >= MIN_MTU
    &&& b.recv_buffer.count >= RX_RESERVED_CONTROL_BUFFERS
    &&& b.ndis_config.mtu >= ETHERNET_HEADER_LEN
}

impl ChannelView {
    /// What has been negotiated with the guest.
    pub open spec fn negotiated(self, b: ChannelBuffers) -> Negotiated {
        Negotiated {
            adapter: self.adapter,
            packet_size: self.packet_size,
            version: b.version,
            ndis_config: b.ndis_config,
        }
    }

    /// The packet that hands ranges of the receive buffer to the guest.
    pub open spec fn rndis_packet(
        self,
        b: ChannelBuffers,
        transaction_id: u64,
        channel_type: u32,
        ranges: Seq<TransferPageRange>,
    ) -> PacketView {
        PacketView {
            transaction_id,
            packet_type: PacketTypeView::TransferPages(b.recv_buffer.id, ranges),
            payload: message_bytes(
                self.packet_size as int,
                MESSAGE1_TYPE_SEND_RNDIS_PACKET,
                le32_list(seq![channel_type, NO_SEND_BUFFER_SECTION, 0u32]),
            ),
        }
    }

    /// The packet that hands a control message of `len` bytes, which lies in
    /// suballocation `id`, to the guest.
    pub open spec fn control_packet(self, b: ChannelBuffers, id: u32, len: int) -> PacketView {
        self.rndis_packet(
            b,
            id as u64,
            CONTROL_CHANNEL_TYPE,
            seq![b.recv_buffer.spec_transfer_page_range(id, len)],
        )
    }

    /// The channel with another outbox.
    pub open spec fn with_out(self, out: OutboxView) -> ChannelView {
        ChannelView { out, ..self }
    }

    /// The channel after `bytes` were sent to the guest by way of suballocation
    /// `id`, and whether there was room on the ring.
    pub open spec fn replied(self, b: ChannelBuffers, id: u32, bytes: Seq<u8>) -> (
        ChannelView,
        bool,
    ) {
        let p = self.control_packet(b, id, bytes.len() as int);
        (self.with_out(self.out.wrote(id, bytes).sent_if_fits(p)), self.out.fits(p))
    }
}

/// The bytes of an RNDIS message.
pub open spec fn rndis_message(message_type: u32, payload: Seq<u8>, extra: Seq<u8>) -> Seq<u8> {
    le32(message_type) + le32((8 + payload.len() + extra.len()) as u32) + payload + extra
}

/// Builds an RNDIS message.
pub fn write_rndis_message(message_type: u32, payload: &Vec<u8>, extra: &Vec<u8>) -> (r: Vec<u8>)
    requires
        8 + payload@.len() + extra@.len() <= u32::MAX,
    ensures
        r@ == rndis_message(message_type, payload@, extra@),
{
    let mut out: Vec<u8> = Vec::new();
    push_u32(&mut out, message_type);
    assert(out@ =~= le32(message_type));
    push_u32(&mut out, (8 + payload.len() + extra.len()) as u32);
    push_bytes(&mut out, payload.as_slice());
    push_bytes(&mut out, extra.as_slice());
    out
}

impl NetChannel {
    /// Hands ranges of the receive buffer to the guest; otherwise reports how
    /// much room that needs on the ring.
    pub fn try_send_rndis_message(
        &mut self,
        buffers: &ChannelBuffers,
        transaction_id: u64,
        channel_type: u32,
        transfer_pages: Vec<TransferPageRange>,
    ) -> (r: Result<(), usize>)
        requires
            old(self).packet_size <= PACKET_SIZE_V61,
            transfer_pages@.len() <= MAX_PACKET_PART,
        ensures
            ({
                let p = old(self)@.rndis_packet(
                    *buffers,
                    transaction_id,
                    channel_type,
                    transfer_pages@,
                );
                &&& final(self)@ == old(self)@.with_out(old(self)@.out.sent_if_fits(p))
                &&& old(self)@.out.fits(p) ==> r is Ok
                &&& !old(self)@.out.fits(p) ==> r is Err && r->Err_0 == ring_size(p)
            }),
    {
        let a: [u32; 3] = [channel_type, NO_SEND_BUFFER_SECTION, 0];
        assert(a@ =~= seq![channel_type, NO_SEND_BUFFER_SECTION, 0u32]);
        let m = message(self.packet_size, MESSAGE1_TYPE_SEND_RNDIS_PACKET, fields(&a));
        let p = OutgoingPacket {
            transaction_id,
            packet_type: OutgoingPacketType::TransferPages(buffers.recv_buffer.id, transfer_pages),
            payload: m.payload(),
        };
        self.out.try_write(p)
    }

    /// Sends `bytes` to the guest by way of suballocation `id`. The ring size is
    /// checked before control messages are processed, so failure to write is
    /// unexpected.
    pub fn send_rndis_control_message(
        &mut self,
        buffers: &ChannelBuffers,
        id: u32,
        bytes: Vec<u8>,
    ) -> (r: Result<(), WorkerError>)
        requires
            buffers_wf(old(self).packet_size, *buffers),
            id < buffers.recv_buffer.count,
            bytes@.len() <= buffers.recv_buffer.sub_allocation_size,
        ensures
            final(self)@ == old(self)@.replied(*buffers, id, bytes@).0,
            r == if old(self)@.replied(*buffers, id, bytes@).1 {
                Ok::<(), WorkerError>(())
            } else {
                Err::<(), WorkerError>(WorkerError::OutOfSpace)
            },
    {
        let range = buffers.recv_buffer.transfer_page_range(id, bytes.len());
        self.out.write_buffer(id, bytes);
        let mut ranges: Vec<TransferPageRange> = Vec::new();
        ranges.push(range);
        assert(ranges@ =~= seq![range]);
        match self.try_send_rndis_message(buffers, id as u64, CONTROL_CHANNEL_TYPE, ranges) {
            Ok(()) => Ok(()),
            Err(_) => Err(WorkerError::OutOfSpace),
        }
    }
}

/// The message that reports a status.
pub open spec fn status_message(status: u32, payload: Seq<u8>) -> Seq<u8> {
    rndis_message(
        MESSAGE_TYPE_INDICATE_STATUS_MSG,
        le32_list(
            seq![
                status,
                payload.len() as u32,
                if payload.len() == 0 {
                    0u32
                } else {
                    12u32
                },
            ],
        ),
        payload,
    )
}

impl NetChannel {
    /// Reports a status to the guest by way of suballocation `id`.
    pub fn indicate_status(
        &mut self,
        buffers: &ChannelBuffers,
        id: u32,
        status: u32,
        payload: &Vec<u8>,
    ) -> (r: Result<(), WorkerError>)
        requires
            buffers_wf(old(self).packet_size, *buffers),
            id < buffers.recv_buffer.count,
            20 + payload@.len() <= buffers.recv_buffer.sub_allocation_size,
        ensures
            final(self)@ == old(self)@.replied(*buffers, id, status_message(status, payload@)).0,
            r == if old(self)@.replied(*buffers, id, status_message(status, payload@)).1 {
                Ok::<(), WorkerError>(())
            } else {
                Err::<(), WorkerError>(WorkerError::OutOfSpace)
            },
    {
        let a: [u32; 3] = [
            status,
            payload.len() as u32,
            if payload.len() == 0 {
                0
            } else {
                12
            },
        ];
        assert(a@ =~= seq![
            status,
            payload@.len() as u32,
            if payload@.len() == 0 {
                0u32
            } else {
                12u32
            },
        ]);
        let bytes = write_rndis_message(MESSAGE_TYPE_INDICATE_STATUS_MSG, &fields(&a), payload);
        self.send_rndis_control_message(buffers, id, bytes)
    }
}

/// The answer to an initialization: version 1.0, connectionless Ethernet.
pub open spec fn initialize_complete(request_id: u32) -> Seq<u8> {
    rndis_message(
        MESSAGE_TYPE_INITIALIZE_CMPLT,
        le32_list(
            seq![
                request_id,
                STATUS_SUCCESS,
                1u32,
                0u32,
                1u32,
                0u32,
                8u32,
                0xEFFFFFFFu32,
                3u32,
                0u32,
                0u32,
            ],
        ),
        Seq::empty(),
    )
}

/// The answer to a query.
pub open spec fn query_complete(request_id: u32, status: u32, answer: Seq<u8>) -> Seq<u8> {
    rndis_message(
        MESSAGE_TYPE_QUERY_CMPLT,
        le32_list(seq![request_id, status, 16u32, answer.len() as u32]),
        answer,
    )
}

/// The answer to a setting or a keepalive.
pub open spec fn status_complete(message_type: u32, request_id: u32, status: u32) -> Seq<u8> {
    rndis_message(message_type, le32_list(seq![request_id, status]), Seq::empty())
}

/// What a control message does: the channel, the primary state and the result.
pub struct ControlOutcome {
    /// The channel.
    pub channel: ChannelView,
    /// The primary state.
    pub primary: PrimaryView,
    /// The result.
    pub result: Result<(), WorkerError>,
}

/// The result of something that needs room on the ring.
pub open spec fn fit_result(fits: bool) -> Result<(), WorkerError> {
    if fits {
        Ok(())
    } else {
        Err(WorkerError::OutOfSpace)
    }
}

/// If a VF is waiting, the guest is told of it.
pub open spec fn vf_announced(c: ChannelView, b: ChannelBuffers, p: PrimaryView) -> ControlOutcome {
    let n = c.negotiated(b);
    let association = n.vf_association(Some(p.guest_vf_state->Available_vfid));
    if !(p.guest_vf_state is Available) || !n.wants_vf() {
        ControlOutcome { channel: c, primary: p, result: Ok(()) }
    } else if c.out.fits(association) {
        ControlOutcome {
            channel: ChannelView {
                out: c.out.sent(association),
                restart: if c.restart is None {
                    Some(CoordinatorMessage::UpdateGuestVfState)
                } else {
                    c.restart
                },
                ..c
            },
            primary: PrimaryView {
                guest_vf_state: PrimaryChannelGuestVfState::AvailableAdvertised,
                ..p
            },
            result: Ok(()),
        }
    } else {
        ControlOutcome { channel: c, primary: p, result: Err(WorkerError::OutOfSpace) }
    }
}

/// What an initialization does.
pub open spec fn initialized(
    c: ChannelView,
    b: ChannelBuffers,
    p: PrimaryView,
    data: Seq<u8>,
    id: u32,
) -> ControlOutcome {
    let operational = PrimaryView { rndis_state: RndisState::Operational, ..p };
    let reply = c.replied(b, id, initialize_complete(u32_at(data, 0)));
    if p.rndis_state != RndisState::Initializing {
        ControlOutcome { channel: c, primary: p, result: Err(WorkerError::InvalidRndisState) }
    } else if data.len() < 16 {
        ControlOutcome { channel: c, primary: p, result: Err(WorkerError::Access) }
    } else if !reply.1 {
        ControlOutcome {
            channel: reply.0,
            primary: operational,
            result: Err(WorkerError::OutOfSpace),
        }
    } else {
        vf_announced(reply.0, b, operational)
    }
}

/// What a query does.
pub open spec fn queried(
    c: ChannelView,
    b: ChannelBuffers,
    p: PrimaryView,
    data: Seq<u8>,
    id: u32,
) -> ControlOutcome {
    if data.len() < 20 {
        ControlOutcome { channel: c, primary: p, result: Err(WorkerError::Access) }
    } else {
        let answer = oid_answer(
            c.adapter,
            b.ndis_version,
            b.ndis_config.mtu,
            p.offload_config,
            u32_at(data, 4),
            b.recv_buffer.sub_allocation_size - 24,
        );
        let reply = c.replied(
            b,
            id,
            match answer {
                Ok(bytes) => query_complete(u32_at(data, 0), STATUS_SUCCESS, bytes),
                Err(err) => query_complete(u32_at(data, 0), err.spec_status(), Seq::empty()),
            },
        );
        ControlOutcome { channel: reply.0, primary: p, result: fit_result(reply.1) }
    }
}

/// What a setting does.
pub open spec fn was_set(
    c: ChannelView,
    b: ChannelBuffers,
    p: PrimaryView,
    data: Seq<u8>,
    id: u32,
) -> ControlOutcome {
    if data.len() < 20 {
        ControlOutcome { channel: c, primary: p, result: Err(WorkerError::Access) }
    } else {
        let oid = u32_at(data, 4);
        match oid_set(c.adapter, p, oid, data.skip(20)) {
            Ok(next) => {
                // The endpoint is restarted if a critical property has changed.
                let c = if oid == OID_GEN_RECEIVE_SCALE_PARAMETERS {
                    ChannelView { restart: Some(CoordinatorMessage::Restart), ..c }
                } else {
                    c
                };
                let reply = c.replied(
                    b,
                    id,
                    status_complete(MESSAGE_TYPE_SET_CMPLT, u32_at(data, 0), STATUS_SUCCESS),
                );
                ControlOutcome { channel: reply.0, primary: next, result: fit_result(reply.1) }
            },
            Err(err) => {
                let reply = c.replied(
                    b,
                    id,
                    status_complete(MESSAGE_TYPE_SET_CMPLT, u32_at(data, 0), err.spec_status()),
                );
                ControlOutcome { channel: reply.0, primary: p, result: fit_result(reply.1) }
            },
        }
    }
}

/// What a control message does.
pub open spec fn control_outcome(
    c: ChannelView,
    b: ChannelBuffers,
    p: PrimaryView,
    message_type: u32,
    data: Seq<u8>,
    id: u32,
) -> ControlOutcome {
    if message_type == MESSAGE_TYPE_INITIALIZE_MSG {
        initialized(c, b, p, data, id)
    } else if message_type == MESSAGE_TYPE_QUERY_MSG {
        queried(c, b, p, data, id)
    } else if message_type == MESSAGE_TYPE_SET_MSG {
        was_set(c, b, p, data, id)
    } else if message_type == MESSAGE_TYPE_KEEPALIVE_MSG {
        if data.len() < 4 {
            ControlOutcome { channel: c, primary: p, result: Err(WorkerError::Access) }
        } else {
            let reply = c.replied(
                b,
                id,
                status_complete(MESSAGE_TYPE_KEEPALIVE_CMPLT, u32_at(data, 0), STATUS_SUCCESS),
            );
            ControlOutcome { channel: reply.0, primary: p, result: fit_result(reply.1) }
        }
    } else if message_type == MESSAGE_TYPE_RESET_MSG || message_type
        == MESSAGE_TYPE_INDICATE_STATUS_MSG || message_type == MESSAGE_TYPE_SET_EX_MSG {
        ControlOutcome {
            channel: c,
            primary: p,
            result: Err(WorkerError::RndisMessageTypeNotImplemented),
        }
    } else {
        ControlOutcome {
            channel: c,
            primary: p,
            result: Err(WorkerError::UnknownRndisMessageType(message_type)),
        }
    }
}

impl NetChannel {
    fn send_completion_message(
        &mut self,
        buffers: &ChannelBuffers,
        id: u32,
        message_type: u32,
        request_id: u32,
        status: u32,
    ) -> (r: Result<(), WorkerError>)
        requires
            buffers_wf(old(self).packet_size, *buffers),
            id < buffers.recv_buffer.count,
        ensures
            ({
                let reply = old(self)@.replied(
                    *buffers,
                    id,
                    status_complete(message_type, request_id, status),
                );
                &&& final(self)@ == reply.0
                &&& r == fit_result(reply.1)
            }),
    {
        let a: [u32; 2] = [request_id, status];
        assert(a@ =~= seq![request_id, status]);
        let empty: Vec<u8> = Vec::new();
        assert(empty@ =~= Seq::empty());
        let bytes = write_rndis_message(message_type, &fields(&a), &empty);
        self.send_rndis_control_message(buffers, id, bytes)
    }

    fn send_initialize_complete(
        &mut self,
        buffers: &ChannelBuffers,
        id: u32,
        request_id: u32,
    ) -> (r: Result<(), WorkerError>)
        requires
            buffers_wf(old(self).packet_size, *buffers),
            id < buffers.recv_buffer.count,
        ensures
            ({
                let reply = old(self)@.replied(*buffers, id, initialize_complete(request_id));
                &&& final(self)@ == reply.0
                &&& r == fit_result(reply.1)
            }),
    {
        let a: [u32; 11] = [request_id, STATUS_SUCCESS, 1, 0, 1, 0, 8, 0xEFFFFFFF, 3, 0, 0];
        assert(a@ =~= seq![
            request_id,
            STATUS_SUCCESS,
            1u32,
            0u32,
            1u32,
            0u32,
            8u32,
            0xEFFFFFFFu32,
            3u32,
            0u32,
            0u32,
        ]);
        let empty: Vec<u8> = Vec::new();
        assert(empty@ =~= Seq::empty());
        let bytes = write_rndis_message(MESSAGE_TYPE_INITIALIZE_CMPLT, &fields(&a), &empty);
        self.send_rndis_control_message(buffers, id, bytes)
    }

    fn announce_vf(&mut self, primary: &mut PrimaryChannelState, buffers: &ChannelBuffers) -> (r:
        Result<(), WorkerError>)
        requires
            old(self).packet_size <= PACKET_SIZE_V61,
        ensures
            ({
                let outcome = vf_announced(old(self)@, *buffers, old(primary)@);
                &&& final(self)@ == outcome.channel
                &&& final(primary)@ == outcome.primary
                &&& r == outcome.result
            }),
            old(primary).wf() ==> final(primary).wf(),
            final(primary).control_messages_len == old(primary).control_messages_len,
    {
        if let PrimaryChannelGuestVfState::Available { vfid } = primary.guest_vf_state {
            let n = Negotiated {
                adapter: self.adapter,
                packet_size: self.packet_size,
                version: buffers.version,
                ndis_config: buffers.ndis_config,
            };
            match guest_vf_is_available(&mut self.out, &n, Some(vfid)) {
                Ok(true) => {
                    // Ideally the VF would not be presented to the guest until
                    // the completion packet has arrived, so that the guest is
                    // prepared. But the Linux driver does not send one.
                    primary.guest_vf_state = PrimaryChannelGuestVfState::AvailableAdvertised;
                    // A restart also adds the VF based on the state.
                    if self.restart.is_none() {
                        self.restart = Some(CoordinatorMessage::UpdateGuestVfState);
                    }
                },
                Ok(false) => {},
                Err(err) => return Err(err),
            }
        }
        Ok(())
    }

    fn handle_initialize(
        &mut self,
        primary: &mut PrimaryChannelState,
        buffers: &ChannelBuffers,
        data: &[u8],
        id: u32,
    ) -> (r: Result<(), WorkerError>)
        requires
            buffers_wf(old(self).packet_size, *buffers),
            id < buffers.recv_buffer.count,
        ensures
            ({
                let outcome = initialized(old(self)@, *buffers, old(primary)@, data@, id);
                &&& final(self)@ == outcome.channel
                &&& final(primary)@ == outcome.primary
                &&& r == outcome.result
            }),
            old(primary).wf() ==> final(primary).wf(),
            final(primary).control_messages_len == old(primary).control_messages_len,
    {
        match primary.rndis_state {
            RndisState::Initializing => {},
            _ => return Err(WorkerError::InvalidRndisState),
        }
        if data.len() < 16 {
            return Err(WorkerError::Access);
        }
        let request_id: u32 = read_u32(data, 0);
        primary.rndis_state = RndisState::Operational;
        match self.send_initialize_complete(buffers, id, request_id) {
            Ok(()) => {},
            Err(err) => return Err(err),
        }
        self.announce_vf(primary, buffers)
    }

    fn handle_query(
        &mut self,
        primary: &PrimaryChannelState,
        buffers: &ChannelBuffers,
        data: &[u8],
        id: u32,
    ) -> (r: Result<(), WorkerError>)
        requires
            buffers_wf(old(self).packet_size, *buffers),
            id < buffers.recv_buffer.count,
        ensures
            ({
                let outcome = queried(old(self)@, *buffers, primary@, data@, id);
                &&& final(self)@ == outcome.channel
                &&& r == outcome.result
            }),
    {
        if data.len() < 20 {
            return Err(WorkerError::Access);
        }
        let request_id: u32 = read_u32(data, 0);
        let oid: u32 = read_u32(data, 4);
        let available: usize = buffers.recv_buffer.sub_allocation_size as usize - 24;
        let (status, answer): (u32, Vec<u8>) = match handle_oid_query(
            &self.adapter,
            buffers.ndis_version,
            buffers.ndis_config.mtu,
            &primary.offload_config,
            oid,
            available,
        ) {
            Ok(bytes) => (STATUS_SUCCESS, bytes),
            Err(err) => (err.as_status(), Vec::new()),
        };
        assert(answer@.len() == 0 ==> answer@ =~= Seq::empty());
        let a: [u32; 4] = [request_id, status, 16, answer.len() as u32];
        assert(a@ =~= seq![request_id, status, 16u32, answer@.len() as u32]);
        let bytes = write_rndis_message(MESSAGE_TYPE_QUERY_CMPLT, &fields(&a), &answer);
        self.send_rndis_control_message(buffers, id, bytes)
    }

    fn handle_set(
        &mut self,
        primary: &mut PrimaryChannelState,
        buffers: &ChannelBuffers,
        data: &[u8],
        id: u32,
    ) -> (r: Result<(), WorkerError>)
        requires
            buffers_wf(old(self).packet_size, *buffers),
            id < buffers.recv_buffer.count,
        ensures
            ({
                let outcome = was_set(old(self)@, *buffers, old(primary)@, data@, id);
                &&& final(self)@ == outcome.channel
                &&& final(primary)@ == outcome.primary
                &&& r == outcome.result
            }),
            old(primary).wf() ==> final(primary).wf(),
            final(primary).control_messages_len == old(primary).control_messages_len,
    {
        if data.len() < 20 {
            return Err(WorkerError::Access);
        }
        let request_id: u32 = read_u32(data, 0);
        let oid: u32 = read_u32(data, 4);
        let value = copy_bytes(data, 20, data.len() - 20);
        assert(value@ =~= data@.skip(20));
        let status: u32 = match handle_oid_set(&self.adapter, primary, oid, value.as_slice()) {
            Ok(restart_endpoint) => {
                if restart_endpoint {
                    self.restart = Some(CoordinatorMessage::Restart);
                }
                STATUS_SUCCESS
            },
            Err(err) => err.as_status(),
        };
        self.send_completion_message(buffers, id, MESSAGE_TYPE_SET_CMPLT, request_id, status)
    }

    /// Handles a control message; the answer goes to suballocation `id`.
    pub fn handle_rndis_control_message(
        &mut self,
        primary: &mut PrimaryChannelState,
        buffers: &ChannelBuffers,
        message_type: u32,
        data: &[u8],
        id: u32,
    ) -> (r: Result<(), WorkerError>)
        requires
            buffers_wf(old(self).packet_size, *buffers),
            id < buffers.recv_buffer.count,
        ensures
            ({
                let outcome = control_outcome(
                    old(self)@,
                    *buffers,
                    old(primary)@,
                    message_type,
                    data@,
                    id,
                );
                &&& final(self)@ == outcome.channel
                &&& final(primary)@ == outcome.primary
                &&& r == outcome.result
            }),
            old(primary).wf() ==> final(primary).wf(),
            final(primary).control_messages_len == old(primary).control_messages_len,
    {
        if message_type == MESSAGE_TYPE_INITIALIZE_MSG {
            self.handle_initialize(primary, buffers, data, id)
        } else if message_type == MESSAGE_TYPE_QUERY_MSG {
            self.handle_query(primary, buffers, data, id)
        } else if message_type == MESSAGE_TYPE_SET_MSG {
            self.handle_set(primary, buffers, data, id)
        } else if message_type == MESSAGE_TYPE_KEEPALIVE_MSG {
            if data.len() < 4 {
                return Err(WorkerError::Access);
            }
            let request_id: u32 = read_u32(data, 0);
            self.send_completion_message(
                buffers,
                id,
                MESSAGE_TYPE_KEEPALIVE_CMPLT,
                request_id,
                STATUS_SUCCESS,
            )
        } else if message_type == MESSAGE_TYPE_RESET_MSG || message_type
            == MESSAGE_TYPE_INDICATE_STATUS_MSG || message_type == MESSAGE_TYPE_SET_EX_MSG {
            Err(WorkerError::RndisMessageTypeNotImplemented)
        } else {
            Err(WorkerError::UnknownRndisMessageType(message_type))
        }
    }
}

/// The ring space that is made sure of before a control message is handled is
/// enough for what it sends.
pub proof fn control_message_fits(
    c: ChannelView,
    b: ChannelBuffers,
    p: PrimaryView,
    message_type: u32,
    data: Seq<u8>,
    id: u32,
)
    requires
        buffers_wf(c.packet_size, b),
        c.out.free >= MIN_CONTROL_RING_SIZE,
    ensures
        control_outcome(c, b, p, message_type, data, id).result != Err::<(), WorkerError>(
            WorkerError::OutOfSpace,
        ),
{
    assert forall|c2: ChannelView, len: int| c2.packet_size == c.packet_size implies ring_size(
        #[trigger] c2.control_packet(b, id, len),
    ) <= 80 by {
        assert(c2.control_packet(b, id, len).payload.len() <= 40);
    }
    if p.guest_vf_state is Available {
        assert(ring_size(
            c.negotiated(b).vf_association(Some(p.guest_vf_state->Available_vfid)),
        ) <= 64);
    }
}

/// What is sent to the guest by way of a suballocation reaches it: the bytes are written there
/// first, and then a packet on the control channel names that suballocation, as many of its
/// bytes, and the suballocation again as its transaction.
pub proof fn answer_reaches_guest(c: ChannelView, b: ChannelBuffers, id: u32, bytes: Seq<u8>)
    requires
        buffers_wf(c.packet_size, b),
        c.out.free >= 80,
    ensures
        ({
            let (next, ok) = c.replied(b, id, bytes);
            let n = c.out.log.len() as int;
            let p = next.out.log[n + 1]->Send_0;
            &&& ok
            &&& next.out.log.len() == n + 2
            &&& next.out.log.take(n) == c.out.log
            &&& next.out.log[n] == (EffectView::WriteReceiveBuffer { id, bytes })
            &&& next.out.log[n + 1] is Send
            &&& p.transaction_id == id
            &&& p.packet_type == PacketTypeView::TransferPages(
                b.recv_buffer.id,
                seq![
                    TransferPageRange {
                        byte_offset: (id * b.recv_buffer.sub_allocation_size) as u32,
                        byte_count: bytes.len() as u32,
                    },
                ],
            )
            &&& u32_at(p.payload, 0) == 107
            &&& u32_at(p.payload, 4) == 1
            &&& u32_at(p.payload, 8) == 0xffffffff
            &&& u32_at(p.payload, 12) == 0
            &&& next.out.free >= c.out.free - 80
            &&& next == c.with_out(next.out)
        }),
{
    let xs = seq![CONTROL_CHANNEL_TYPE, NO_SEND_BUFFER_SECTION, 0u32];
    message_is_read_back(c.packet_size as int, MESSAGE1_TYPE_SEND_RNDIS_PACKET, xs, 0);
    message_is_read_back(c.packet_size as int, MESSAGE1_TYPE_SEND_RNDIS_PACKET, xs, 1);
    message_is_read_back(c.packet_size as int, MESSAGE1_TYPE_SEND_RNDIS_PACKET, xs, 2);
    let p = c.control_packet(b, id, bytes.len() as int);
    assert(p.payload.len() <= 40);
    assert(ring_size(p) <= 80);
    let (next, ok) = c.replied(b, id, bytes);
    assert(next.out.log.take(c.out.log.len() as int) =~= c.out.log);
}

/// An RNDIS message is read back as it was written: its type, its length, its fields and what
/// follows them.
pub proof fn rndis_message_is_read_back(message_type: u32, xs: Seq<u32>, extra: Seq<u8>, i: int)
    requires
        0 <= i < xs.len(),
        8 + 4 * xs.len() + extra.len() <= u32::MAX,
    ensures
        ({
            let m = rndis_message(message_type, le32_list(xs), extra);
            &&& m.len() == 8 + 4 * xs.len() + extra.len()
            &&& u32_at(m, 0) == message_type
            &&& u32_at(m, 4) == m.len()
            &&& u32_at(m, 8 + 4 * i) == xs[i]
            &&& m.skip(8 + 4 * xs.len() as int) == extra
        }),
{
    let l = le32_list(xs);
    let m = rndis_message(message_type, l, extra);
    let len = (8 + l.len() + extra.len()) as u32;
    lemma_le32_round_trip(message_type);
    lemma_le32_round_trip(len);
    listed_number_is_read_back(xs, i);
    assert(u32_at(m, 0) == u32_at(le32(message_type), 0));
    assert(u32_at(m, 4) == u32_at(le32(len), 0));
    assert(m[8 + 4 * i] == l[4 * i]);
    assert(m[8 + 4 * i + 1] == l[4 * i + 1]);
    assert(m[8 + 4 * i + 2] == l[4 * i + 2]);
    assert(m[8 + 4 * i + 3] == l[4 * i + 3]);
    assert(m.skip(8 + 4 * xs.len() as int) =~= extra);
}

/// How many bytes of a control request are read at least.
pub open spec fn request_len(message_type: u32) -> int {
    if message_type == 2 {
        16
    } else if message_type == 8 {
        4
    } else {
        20
    }
}

proof fn lemma_answer_bytes(request_id: u32, status: u32, answer: Seq<u8>, message_type: u32)
    requires
        answer.len() <= 0x1000_0000,
    ensures
        ({
            let q = query_complete(request_id, status, answer);
            let s = status_complete(message_type, request_id, status);
            let i = initialize_complete(request_id);
            &&& u32_at(q, 0) == 0x8000_0004
            &&& u32_at(q, 4) == q.len()
            &&& u32_at(q, 8) == request_id
            &&& u32_at(q, 12) == status
            &&& u32_at(q, 16) == 16
            &&& u32_at(q, 20) == answer.len()
            &&& q.skip(24) == answer
            &&& u32_at(s, 0) == message_type
            &&& u32_at(s, 4) == s.len()
            &&& s.len() == 16
            &&& u32_at(s, 8) == request_id
            &&& u32_at(s, 12) == status
            &&& u32_at(i, 0) == 0x8000_0002
            &&& u32_at(i, 4) == i.len()
            &&& i.len() == 52
            &&& u32_at(i, 8) == request_id
            &&& u32_at(i, 12) == 0
            &&& u32_at(i, 16) == 1
            &&& u32_at(i, 20) == 0
            &&& u32_at(i, 24) == 1
            &&& u32_at(i, 28) == 0
            &&& u32_at(i, 32) == 8
            &&& u32_at(i, 36) == 0xefffffff
            &&& u32_at(i, 40) == 3
        }),
{
    let qs = seq![request_id, status, 16u32, answer.len() as u32];
    rndis_message_is_read_back(MESSAGE_TYPE_QUERY_CMPLT, qs, answer, 0);
    rndis_message_is_read_back(MESSAGE_TYPE_QUERY_CMPLT, qs, answer, 1);
    rndis_message_is_read_back(MESSAGE_TYPE_QUERY_CMPLT, qs, answer, 2);
    rndis_message_is_read_back(MESSAGE_TYPE_QUERY_CMPLT, qs, answer, 3);
    let ss = seq![request_id, status];
    rndis_message_is_read_back(message_type, ss, Seq::empty(), 0);
    rndis_message_is_read_back(message_type, ss, Seq::empty(), 1);
    let is = seq![
        request_id,
        STATUS_SUCCESS,
        1u32,
        0u32,
        1u32,
        0u32,
        8u32,
        0xEFFFFFFFu32,
        3u32,
        0u32,
        0u32,
    ];
    rndis_message_is_read_back(MESSAGE_TYPE_INITIALIZE_CMPLT, is, Seq::empty(), 0);
    rndis_message_is_read_back(MESSAGE_TYPE_INITIALIZE_CMPLT, is, Seq::empty(), 1);
    rndis_message_is_read_back(MESSAGE_TYPE_INITIALIZE_CMPLT, is, Seq::empty(), 2);
    rndis_message_is_read_back(MESSAGE_TYPE_INITIALIZE_CMPLT, is, Seq::empty(), 3);
    rndis_message_is_read_back(MESSAGE_TYPE_INITIALIZE_CMPLT, is, Seq::empty(), 4);
    rndis_message_is_read_back(MESSAGE_TYPE_INITIALIZE_CMPLT, is, Seq::empty(), 5);
    rndis_message_is_read_back(MESSAGE_TYPE_INITIALIZE_CMPLT, is, Seq::empty(), 6);
    rndis_message_is_read_back(MESSAGE_TYPE_INITIALIZE_CMPLT, is, Seq::empty(), 7);
    rndis_message_is_read_back(MESSAGE_TYPE_INITIALIZE_CMPLT, is, Seq::empty(), 8);
}

/// Whether the request was answered in the suballocation that it was given, with `bytes`: the
/// answer has the type of the request with the highest bit set, its own length and the ID of
/// the request. It is the first thing that was sent.
pub open spec fn is_answered(
    before: ChannelView,
    o: ControlOutcome,
    message_type: u32,
    data: Seq<u8>,
    id: u32,
    bytes: Seq<u8>,
) -> bool {
    let n = before.out.log.len() as int;
    &&& o.result is Ok
    &&& o.channel.out.log.len() >= n + 2
    &&& o.channel.out.log.take(n) == before.out.log
    &&& o.channel.out.log[n] == (EffectView::WriteReceiveBuffer { id, bytes })
    &&& o.channel.out.log[n + 1] is Send
    &&& u32_at(bytes, 0) == message_type + 0x8000_0000
    &&& u32_at(bytes, 4) == bytes.len()
    &&& u32_at(bytes, 8) == u32_at(data, 0)
}

/// The bytes of the answer.
pub open spec fn answer_of(before: ChannelView, o: ControlOutcome) -> Seq<u8> {
    o.channel.out.log[before.out.log.len() as int]->WriteReceiveBuffer_bytes
}

/// A keepalive is answered with success, and changes nothing.
pub proof fn keepalive_is_answered(
    c: ChannelView,
    b: ChannelBuffers,
    p: PrimaryView,
    data: Seq<u8>,
    id: u32,
)
    requires
        buffers_wf(c.packet_size, b),
        c.out.free >= MIN_CONTROL_RING_SIZE,
        data.len() >= 4,
    ensures
        ({
            let o = control_outcome(c, b, p, 8, data, id);
            let bytes = answer_of(c, o);
            &&& is_answered(c, o, 8, data, id, bytes)
            &&& u32_at(bytes, 12) == 0
            &&& o.primary == p
            &&& o.channel == c.with_out(o.channel.out)
            &&& o.channel.out.log.len() == c.out.log.len() + 2
        }),
{
    let request_id = u32_at(data, 0);
    lemma_answer_bytes(request_id, STATUS_SUCCESS, Seq::empty(), MESSAGE_TYPE_KEEPALIVE_CMPLT);
    answer_reaches_guest(
        c,
        b,
        id,
        status_complete(MESSAGE_TYPE_KEEPALIVE_CMPLT, request_id, STATUS_SUCCESS),
    );
}

/// A query is answered with what its OID has, or with the status of the error, and changes
/// nothing.
pub proof fn query_is_answered(
    c: ChannelView,
    b: ChannelBuffers,
    p: PrimaryView,
    data: Seq<u8>,
    id: u32,
)
    requires
        buffers_wf(c.packet_size, b),
        c.out.free >= MIN_CONTROL_RING_SIZE,
        data.len() >= 20,
        b.recv_buffer.sub_allocation_size <= 0x1000_0000,
    ensures
        ({
            let o = control_outcome(c, b, p, 4, data, id);
            let bytes = answer_of(c, o);
            let query = oid_answer(
                c.adapter,
                b.ndis_version,
                b.ndis_config.mtu,
                p.offload_config,
                u32_at(data, 4),
                b.recv_buffer.sub_allocation_size - 24,
            );
            &&& is_answered(c, o, 4, data, id, bytes)
            &&& o.primary == p
            &&& o.channel == c.with_out(o.channel.out)
            &&& o.channel.out.log.len() == c.out.log.len() + 2
            &&& u32_at(bytes, 16) == 16
            &&& u32_at(bytes, 20) == bytes.len() - 24
            &&& query matches Ok(answer) ==> u32_at(bytes, 12) == 0 && bytes.skip(24) == answer
            &&& query matches Err(err) ==> u32_at(bytes, 12) == err.spec_status() && bytes.len()
                == 24
        }),
{
    let query = oid_answer(
        c.adapter,
        b.ndis_version,
        b.ndis_config.mtu,
        p.offload_config,
        u32_at(data, 4),
        b.recv_buffer.sub_allocation_size - 24,
    );
    let (status, answer) = match query {
        Ok(answer) => (STATUS_SUCCESS, answer),
        Err(err) => (err.spec_status(), Seq::empty()),
    };
    let q = query_complete(u32_at(data, 0), status, answer);
    let o = control_outcome(c, b, p, 4, data, id);
    let sent = lemma_query_reply(c, b, p, id, q);
    assert(o == sent);
    lemma_answer_bytes(u32_at(data, 0), status, answer, 0);
}

/// What sending `q` leads to.
proof fn lemma_query_reply(
    c: ChannelView,
    b: ChannelBuffers,
    p: PrimaryView,
    id: u32,
    q: Seq<u8>,
) -> (o: ControlOutcome)
    requires
        buffers_wf(c.packet_size, b),
        c.out.free >= MIN_CONTROL_RING_SIZE,
    ensures
        o == (ControlOutcome {
            channel: c.replied(b, id, q).0,
            primary: p,
            result: fit_result(c.replied(b, id, q).1),
        }),
        o.result is Ok,
        o.channel == c.with_out(o.channel.out),
        o.channel.out.log.len() == c.out.log.len() + 2,
        o.channel.out.log.take(c.out.log.len() as int) == c.out.log,
        o.channel.out.log[c.out.log.len() as int] == (EffectView::WriteReceiveBuffer {
            id,
            bytes: q,
        }),
        o.channel.out.log[c.out.log.len() as int + 1] is Send,
{
    answer_reaches_guest(c, b, id, q);
    ControlOutcome {
        channel: c.replied(b, id, q).0,
        primary: p,
        result: fit_result(c.replied(b, id, q).1),
    }
}

/// A setting that is accepted is answered with success and takes effect; the endpoint is restarted
/// exactly if it is about receive side scaling. Any other one is answered with the status of
/// the error, and changes nothing.
pub proof fn setting_is_answered(
    c: ChannelView,
    b: ChannelBuffers,
    p: PrimaryView,
    data: Seq<u8>,
    id: u32,
)
    requires
        buffers_wf(c.packet_size, b),
        c.out.free >= MIN_CONTROL_RING_SIZE,
        data.len() >= 20,
    ensures
        ({
            let o = control_outcome(c, b, p, 5, data, id);
            let bytes = answer_of(c, o);
            let set = oid_set(c.adapter, p, u32_at(data, 4), data.skip(20));
            &&& is_answered(c, o, 5, data, id, bytes)
            &&& o.channel.out.log.len() == c.out.log.len() + 2
            &&& set matches Ok(next) ==> u32_at(bytes, 12) == 0 && o.primary == next
                && o.channel.restart == if u32_at(data, 4) == 0x10204 {
                Some(CoordinatorMessage::Restart)
            } else {
                c.restart
            }
            &&& set matches Err(err) ==> u32_at(bytes, 12) == err.spec_status() && o.primary == p
                && o.channel.restart == c.restart
        }),
{
    let request_id = u32_at(data, 0);
    let set = oid_set(c.adapter, p, u32_at(data, 4), data.skip(20));
    let status = match set {
        Ok(_) => STATUS_SUCCESS,
        Err(err) => err.spec_status(),
    };
    let c2 = if set is Ok && u32_at(data, 4) == OID_GEN_RECEIVE_SCALE_PARAMETERS {
        ChannelView { restart: Some(CoordinatorMessage::Restart), ..c }
    } else {
        c
    };
    lemma_answer_bytes(request_id, status, Seq::empty(), MESSAGE_TYPE_SET_CMPLT);
    answer_reaches_guest(c2, b, id, status_complete(MESSAGE_TYPE_SET_CMPLT, request_id, status));
}

/// An initialization is answered with success, version 1.0 and connectionless Ethernet, and makes
/// RNDIS operational. A VF that waits for that is announced to a guest that can use it.
pub proof fn initialization_is_answered(
    c: ChannelView,
    b: ChannelBuffers,
    p: PrimaryView,
    data: Seq<u8>,
    id: u32,
)
    requires
        buffers_wf(c.packet_size, b),
        c.out.free >= MIN_CONTROL_RING_SIZE,
        data.len() >= 16,
        p.rndis_state == RndisState::Initializing,
    ensures
        ({
            let o = control_outcome(c, b, p, 2, data, id);
            let bytes = answer_of(c, o);
            let n = c.out.log.len() as int;
            &&& is_answered(c, o, 2, data, id, bytes)
            &&& u32_at(bytes, 12) == 0
            &&& u32_at(bytes, 16) == 1
            &&& u32_at(bytes, 20) == 0
            &&& u32_at(bytes, 24) == 1
            &&& u32_at(bytes, 28) == 0
            &&& u32_at(bytes, 32) == 8
            &&& u32_at(bytes, 36) == 0xefffffff
            &&& u32_at(bytes, 40) == 3
            &&& o.primary == (PrimaryView {
                rndis_state: RndisState::Operational,
                guest_vf_state: o.primary.guest_vf_state,
                ..p
            })
            &&& if p.guest_vf_state is Available && c.negotiated(b).wants_vf() {
                &&& o.primary.guest_vf_state is AvailableAdvertised
                &&& o.channel.restart is Some
                &&& o.channel.out.log.len() == n + 3
                &&& o.channel.out.log[n + 2] == EffectView::Send(
                    c.negotiated(b).vf_association(Some(p.guest_vf_state->Available_vfid)),
                )
            } else {
                &&& o.primary.guest_vf_state == p.guest_vf_state
                &&& o.channel.restart == c.restart
                &&& o.channel.out.log.len() == n + 2
            }
        }),
{
    let n = c.out.log.len() as int;
    let bytes = initialize_complete(u32_at(data, 0));
    let reply = lemma_query_reply(c, b, p, id, bytes);
    let c2 = reply.channel;
    let operational = PrimaryView { rndis_state: RndisState::Operational, ..p };
    answer_reaches_guest(c, b, id, bytes);
    lemma_vf_reply(c2, b, operational);
    let o = control_outcome(c, b, p, 2, data, id);
    assert(o == vf_announced(c2, b, operational));
    assert(c.negotiated(b) == c2.negotiated(b));
    assert(o.channel.out.log.take(n) =~= c2.out.log.take(n));
    assert(o.channel.out.log[n] == c2.out.log[n]);
    assert(o.channel.out.log[n + 1] == c2.out.log[n + 1]);
    lemma_answer_bytes(u32_at(data, 0), 0, Seq::empty(), 0);
}

/// What becomes of a VF that waits for RNDIS.
proof fn lemma_vf_reply(c: ChannelView, b: ChannelBuffers, p: PrimaryView)
    requires
        buffers_wf(c.packet_size, b),
        c.out.free >= 64,
    ensures
        ({
            let o = vf_announced(c, b, p);
            let n = c.out.log.len() as int;
            &&& o.result is Ok
            &&& o.primary == (PrimaryView { guest_vf_state: o.primary.guest_vf_state, ..p })
            &&& if p.guest_vf_state is Available && c.negotiated(b).wants_vf() {
                &&& o.primary.guest_vf_state is AvailableAdvertised
                &&& o.channel.restart is Some
                &&& o.channel.out.log == c.out.log.push(
                    EffectView::Send(
                        c.negotiated(b).vf_association(Some(p.guest_vf_state->Available_vfid)),
                    ),
                )
            } else {
                &&& o.primary == p
                &&& o.channel == c
            }
        }),
{
    if p.guest_vf_state is Available {
        assert(ring_size(
            c.negotiated(b).vf_association(Some(p.guest_vf_state->Available_vfid)),
        ) <= 64);
    }
}

/// A request that is not understood ends the channel and changes nothing: one that is too
/// short, an initialization of an initialized protocol, and one of a type that is not known or
/// not implemented.
pub proof fn bad_control_request_is_refused(
    c: ChannelView,
    b: ChannelBuffers,
    p: PrimaryView,
    message_type: u32,
    data: Seq<u8>,
    id: u32,
)
    requires
        !(message_type == 2 || message_type == 4 || message_type == 5 || message_type == 8)
            || data.len() < request_len(message_type) || (message_type == 2 && p.rndis_state
            != RndisState::Initializing),
    ensures
        ({
            let o = control_outcome(c, b, p, message_type, data, id);
            let known = message_type == 2 || message_type == 4 || message_type == 5 || message_type
                == 8;
            &&& o.channel == c
            &&& o.primary == p
            &&& o.result == if message_type == 2 && p.rndis_state != RndisState::Initializing {
                Err::<(), WorkerError>(WorkerError::InvalidRndisState)
            } else if known {
                Err::<(), WorkerError>(WorkerError::Access)
            } else if message_type == 6 || message_type == 7 || message_type == 9 {
                Err::<(), WorkerError>(WorkerError::RndisMessageTypeNotImplemented)
            } else {
                Err::<(), WorkerError>(WorkerError::UnknownRndisMessageType(message_type))
            }
        }),
{
}

/// A status that is reported has its code, and its payload right behind the header.
pub proof fn reported_status_is_read_back(status: u32, payload: Seq<u8>)
    requires
        payload.len() <= 0x1000_0000,
    ensures
        ({
            let m = status_message(status, payload);
            &&& u32_at(m, 0) == 7
            &&& u32_at(m, 4) == m.len()
            &&& m.len() == 20 + payload.len()
            &&& u32_at(m, 8) == status
            &&& u32_at(m, 12) == payload.len()
            &&& payload.len() > 0 ==> m.skip(8 + u32_at(m, 16)) == payload
            &&& payload.len() == 0 ==> u32_at(m, 16) == 0
        }),
{
    let xs = seq![
        status,
        payload.len() as u32,
        if payload.len() == 0 {
            0u32
        } else {
            12u32
        },
    ];
    rndis_message_is_read_back(MESSAGE_TYPE_INDICATE_STATUS_MSG, xs, payload, 0);
    rndis_message_is_read_back(MESSAGE_TYPE_INDICATE_STATUS_MSG, xs, payload, 1);
    rndis_message_is_read_back(MESSAGE_TYPE_INDICATE_STATUS_MSG, xs, payload, 2);
}

/// A VF that came before the guest was ready is announced when it is, once: the guest has it
/// then, and the coordinator has to look, unless it has to do something else first. Without room
/// for the message nothing changes.
pub proof fn waiting_vf_is_announced(c: ChannelView, b: ChannelBuffers, p: PrimaryView)
    ensures
        ({
            let o = vf_announced(c, b, p);
            let n = c.negotiated(b);
            let told = n.vf_association(Some(p.guest_vf_state->Available_vfid));
            let waits = p.guest_vf_state is Available && n.wants_vf();
            &&& !waits ==> o.channel == c && o.primary == p && o.result is Ok
            &&& waits && ring_size(told) <= c.out.free ==> {
                &&& o.result is Ok
                &&& o.primary.guest_vf_state is AvailableAdvertised
                &&& o.channel.out.log == c.out.log.push(EffectView::Send(told))
                &&& c.restart is None ==> o.channel.restart == Some(
                    CoordinatorMessage::UpdateGuestVfState,
                )
                &&& c.restart is Some ==> o.channel.restart == c.restart
                &&& o.primary.rndis_state == p.rndis_state
            }
            &&& waits && ring_size(told) > c.out.free ==> o.channel == c && o.primary == p
                && o.result == Err::<(), WorkerError>(WorkerError::OutOfSpace)
        }),
{
}

} // verus!
