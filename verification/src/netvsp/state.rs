//! The state of the channels.
use crate::netvsp::adapter::TX_PACKET_QUOTA;
use crate::netvsp::error::BufferError;
use crate::netvsp::guest_vf::{GuestVfState, NdisConfig, PrimaryChannelGuestVfState, RndisState};
use crate::netvsp::offload::OffloadConfig;
use crate::netvsp::protocol::{TransferPageRange, Version};
use crate::netvsp::rx::{
    first_conflict, in_groups, RxBuffers, SubAllocationInUse, RX_RESERVED_CONTROL_BUFFERS,
};
use crate::netvsp::saved::{
    IncomingControlMessage, NetRestoreError, SavedChannel, SavedReceiveBuffer, SavedRss,
};
use crate::netvsp::stats::QueueStats;
use std::collections::VecDeque;
use vstd::prelude::*;

verus! {

/// The NDIS version of the guest.
#[derive(Debug, Clone, Copy, PartialEq, Eq, Structural)]
pub struct NdisVersion {
    /// Major version.
    pub major: u32,
    /// Minor version.
    pub minor: u32,
}

/// Guest memory that the guest has shared under an ID.
#[derive(Debug, Clone, Copy, PartialEq, Eq, Structural)]
pub struct Gpadl {
    /// The ID.
    pub id: u32,
    /// The number of bytes; `None` unless the memory is contiguous and aligned.
    pub contiguous_len: Option<u64>,
}

/// The memory that is known by `id`.
pub open spec fn mapped(map: Seq<Gpadl>, id: u32) -> Option<Gpadl>
    decreases map.len(),
{
    if map.len() == 0 {
        None
    } else if map[0].id == id {
        Some(map[0])
    } else {
        mapped(map.drop_first(), id)
    }
}

/// Finds the memory that is known by `id`.
pub fn map_gpadl(map: &Vec<Gpadl>, id: u32) -> (r: Option<Gpadl>)
    ensures
        r == mapped(map@, id),
{
    let mut i: usize = 0;
    assert(map@.skip(0) =~= map@);
    while i < map.len()
        invariant
            i <= map@.len(),
            mapped(map@, id) == mapped(map@.skip(i as int), id),
        decreases map@.len() - i,
    {
        if map[i].id == id {
            return Some(map[i]);
        }
        assert(map@.skip(i as int).drop_first() =~= map@.skip(i + 1));
        i = i + 1;
    }
    None
}

/// The buffer into which the guest wants packets to be placed.
#[derive(Debug, Clone, Copy, PartialEq, Eq, Structural)]
pub struct ReceiveBuffer {
    /// Its memory.
    pub gpadl_id: u32,
    /// Its ID.
    pub id: u16,
    /// The number of suballocations.
    pub count: u32,
    /// The byte length of a suballocation.
    pub sub_allocation_size: u32,
}

impl ReceiveBuffer {
    /// The receive buffer on the memory `gpadl_id`, or why there is none.
    /// Suballocations are at least `min_size` bytes long.
    pub open spec fn made(
        map: Seq<Gpadl>,
        gpadl_id: u32,
        id: u16,
        sub_allocation_size: u32,
        min_size: u32,
    ) -> Result<ReceiveBuffer, BufferError> {
        if sub_allocation_size < min_size {
            Err(BufferError::UnsupportedSuballocationSize(sub_allocation_size))
        } else {
            match mapped(map, gpadl_id) {
                None => Err(BufferError::UnknownGpadlId),
                Some(gpadl) => match gpadl.contiguous_len {
                    None => Err(BufferError::UnalignedGpadl),
                    Some(len) => {
                        let count = (len as u32) as int / sub_allocation_size as int;
                        if count == 0 {
                            Err(BufferError::UnsupportedSuballocationSize(sub_allocation_size))
                        } else {
                            Ok(
                                ReceiveBuffer {
                                    gpadl_id,
                                    id,
                                    count: count as u32,
                                    sub_allocation_size,
                                },
                            )
                        }
                    },
                },
            }
        }
    }

    /// The suballocations lie within 32 bits of offset.
    pub open spec fn wf(self) -> bool {
        &&& self.sub_allocation_size >= 1
        &&& self.count >= 1
        &&& self.count * self.sub_allocation_size <= u32::MAX
    }

    /// Cuts the memory `gpadl_id` into suballocations of at least `min_size`
    /// bytes, which is what the smallest MTU needs.
    pub fn new(
        map: &Vec<Gpadl>,
        gpadl_id: u32,
        id: u16,
        sub_allocation_size: u32,
        min_size: u32,
    ) -> (r: Result<ReceiveBuffer, BufferError>)
        requires
            min_size >= 1,
        ensures
            r == ReceiveBuffer::made(map@, gpadl_id, id, sub_allocation_size, min_size),
            r is Ok ==> r->Ok_0.wf(),
    {
        if sub_allocation_size < min_size {
            return Err(BufferError::UnsupportedSuballocationSize(sub_allocation_size));
        }
        let gpadl = match map_gpadl(map, gpadl_id) {
            Some(gpadl) => gpadl,
            None => return Err(BufferError::UnknownGpadlId),
        };
        let len: u64 = match gpadl.contiguous_len {
            Some(len) => len,
            None => return Err(BufferError::UnalignedGpadl),
        };
        #[verifier::truncate]
        let len32: u32 = len as u32;
        let count: u32 = len32 / sub_allocation_size;
        if count == 0 {
            return Err(BufferError::UnsupportedSuballocationSize(sub_allocation_size));
        }
        assert(count * sub_allocation_size <= len32) by (nonlinear_arith)
            requires
                count == len32 / sub_allocation_size,
                sub_allocation_size >= 1,
        ;
        Ok(ReceiveBuffer { gpadl_id, id, count, sub_allocation_size })
    }

    /// The bytes of suballocation `index`, as offset and length.
    pub fn range(&self, index: u32) -> (r: (u32, u32))
        requires
            self.wf(),
            index < self.count,
        ensures
            r == ((index * self.sub_allocation_size) as u32, self.sub_allocation_size),
            r.0 + r.1 <= self.count * self.sub_allocation_size,
    {
        assert((index + 1) * self.sub_allocation_size <= self.count * self.sub_allocation_size)
            by (nonlinear_arith)
            requires
                index < self.count,
                self.sub_allocation_size >= 1,
        ;
        assert((index + 1) * self.sub_allocation_size == index * self.sub_allocation_size
            + self.sub_allocation_size) by (nonlinear_arith);
        (index * self.sub_allocation_size, self.sub_allocation_size)
    }

    /// The first `len` bytes of suballocation `index`.
    pub open spec fn spec_transfer_page_range(self, index: u32, len: int) -> TransferPageRange {
        TransferPageRange {
            byte_offset: (index * self.sub_allocation_size) as u32,
            byte_count: len as u32,
        }
    }

    /// The first `len` bytes of suballocation `index`, as they are handed to the
    /// guest.
    pub fn transfer_page_range(&self, index: u32, len: usize) -> (r: TransferPageRange)
        requires
            self.wf(),
            index < self.count,
            len <= self.sub_allocation_size,
        ensures
            r == self.spec_transfer_page_range(index, len as int),
    {
        let (byte_offset, _) = self.range(index);
        TransferPageRange { byte_offset, byte_count: len as u32 }
    }

    /// What is kept of the buffer when the adapter is saved.
    pub fn saved_state(&self) -> (s: SavedReceiveBuffer)
        ensures
            s == self.spec_saved(),
    {
        SavedReceiveBuffer {
            gpadl_id: self.gpadl_id,
            id: self.id,
            sub_allocation_size: self.sub_allocation_size,
        }
    }

    /// What is kept of the buffer when the adapter is saved.
    pub open spec fn spec_saved(self) -> SavedReceiveBuffer {
        SavedReceiveBuffer {
            gpadl_id: self.gpadl_id,
            id: self.id,
            sub_allocation_size: self.sub_allocation_size,
        }
    }
}

/// The buffer from which the guest sends small packets.
#[derive(Debug, Clone, Copy, PartialEq, Eq, Structural)]
pub struct SendBuffer {
    /// Its memory.
    pub gpadl_id: u32,
    /// Its length in bytes.
    pub len: u64,
}

impl SendBuffer {
    /// The send buffer on the memory `gpadl_id`, or why there is none.
    pub open spec fn made(map: Seq<Gpadl>, gpadl_id: u32) -> Result<SendBuffer, BufferError> {
        match mapped(map, gpadl_id) {
            None => Err(BufferError::UnknownGpadlId),
            Some(gpadl) => match gpadl.contiguous_len {
                None => Err(BufferError::UnalignedGpadl),
                Some(len) => Ok(SendBuffer { gpadl_id, len }),
            },
        }
    }

    /// Uses the memory `gpadl_id` as send buffer.
    pub fn new(map: &Vec<Gpadl>, gpadl_id: u32) -> (r: Result<SendBuffer, BufferError>)
        ensures
            r == SendBuffer::made(map@, gpadl_id),
    {
        match map_gpadl(map, gpadl_id) {
            None => Err(BufferError::UnknownGpadlId),
            Some(gpadl) => match gpadl.contiguous_len {
                None => Err(BufferError::UnalignedGpadl),
                Some(len) => Ok(SendBuffer { gpadl_id, len }),
            },
        }
    }
}

/// What a negotiated channel works on.
#[derive(Debug, Clone, Copy, PartialEq, Eq, Structural)]
pub struct ChannelBuffers {
    /// The protocol version.
    pub version: Version,
    /// The receive buffer.
    pub recv_buffer: ReceiveBuffer,
    /// The send buffer.
    pub send_buffer: Option<SendBuffer>,
    /// The NDIS version.
    pub ndis_version: NdisVersion,
    /// The guest configuration.
    pub ndis_config: NdisConfig,
}

/// A channel that has negotiated a version, but not everything else.
#[derive(Debug, Clone, Copy, PartialEq, Eq, Structural)]
pub struct InitState {
    /// The protocol version.
    pub version: Version,
    /// The guest configuration.
    pub ndis_config: Option<NdisConfig>,
    /// The NDIS version.
    pub ndis_version: Option<NdisVersion>,
    /// The receive buffer.
    pub recv_buffer: Option<ReceiveBuffer>,
    /// The send buffer.
    pub send_buffer: Option<SendBuffer>,
}

/// A control message that waits to be answered.
#[derive(Debug)]
pub struct ControlMessage {
    /// The RNDIS message type.
    pub message_type: u32,
    /// The message behind the header.
    pub data: Vec<u8>,
}

/// What a [`ControlMessage`] says.
pub struct ControlMessageView {
    /// The RNDIS message type.
    pub message_type: u32,
    /// The message behind the header.
    pub data: Seq<u8>,
}

impl View for ControlMessage {
    type V = ControlMessageView;

    open spec fn view(&self) -> ControlMessageView {
        ControlMessageView { message_type: self.message_type, data: self.data@ }
    }
}

/// The byte length of all messages.
pub open spec fn total_len(messages: Seq<ControlMessageView>) -> int
    decreases messages.len(),
{
    if messages.len() == 0 {
        0
    } else {
        messages[0].data.len() + total_len(messages.drop_first())
    }
}

/// Receive side scaling: how packets are spread over the queues.
#[derive(Debug)]
pub struct RssState {
    /// The hash key, of 40 bytes.
    pub key: Vec<u8>,
    /// The queue for each hash value.
    pub indirection_table: Vec<u16>,
}

/// What an [`RssState`] says.
pub struct RssView {
    /// The hash key.
    pub key: Seq<u8>,
    /// The queue for each hash value.
    pub indirection_table: Seq<u16>,
}

impl View for RssState {
    type V = RssView;

    open spec fn view(&self) -> RssView {
        RssView { key: self.key@, indirection_table: self.indirection_table@ }
    }
}

/// A change of the link state that the guest has not been told of.
#[derive(Debug, Clone, Copy, PartialEq, Eq, Structural)]
pub enum PendingLinkAction {
    /// None.
    Default,
    /// Tell the guest that the link is up (or down).
    Active(bool),
    /// Tell it after a delay.
    Delay(bool),
}

/// State that only the primary channel has.
#[derive(Debug)]
pub struct PrimaryChannelState {
    /// What the guest knows of the VF.
    pub guest_vf_state: PrimaryChannelGuestVfState,
    /// Whether packets travel through the VF, where it is known.
    pub is_data_path_switched: Option<bool>,
    /// The control messages that wait to be answered.
    pub control_messages: VecDeque<ControlMessage>,
    /// Their byte length.
    pub control_messages_len: usize,
    /// The receive buffers that are free to answer them.
    pub free_control_buffers: Vec<u32>,
    /// Receive side scaling, if the guest has set it up.
    pub rss_state: Option<RssState>,
    /// The number of queues that the guest wants.
    pub requested_num_queues: u16,
    /// State of the RNDIS protocol.
    pub rndis_state: RndisState,
    /// The offloads in effect.
    pub offload_config: OffloadConfig,
    /// Whether the guest has to be told of them.
    pub pending_offload_change: bool,
    /// Whether the guest knows on which channels to send.
    pub tx_spread_sent: bool,
    /// Whether the guest believes that the link is up.
    pub guest_link_up: bool,
    /// The link state that the guest has to be told of.
    pub pending_link_action: PendingLinkAction,
}

/// What a [`PrimaryChannelState`] says.
pub struct PrimaryView {
    /// What the guest knows of the VF.
    pub guest_vf_state: PrimaryChannelGuestVfState,
    /// Whether packets travel through the VF, where it is known.
    pub is_data_path_switched: Option<bool>,
    /// The control messages that wait to be answered.
    pub control_messages: Seq<ControlMessageView>,
    /// The receive buffers that are free to answer them.
    pub free_control_buffers: Seq<u32>,
    /// Receive side scaling, if the guest has set it up.
    pub rss_state: Option<RssView>,
    /// The number of queues that the guest wants.
    pub requested_num_queues: u16,
    /// State of the RNDIS protocol.
    pub rndis_state: RndisState,
    /// The offloads in effect.
    pub offload_config: OffloadConfig,
    /// Whether the guest has to be told of them.
    pub pending_offload_change: bool,
    /// Whether the guest knows on which channels to send.
    pub tx_spread_sent: bool,
    /// Whether the guest believes that the link is up.
    pub guest_link_up: bool,
    /// The link state that the guest has to be told of.
    pub pending_link_action: PendingLinkAction,
}

/// What an optional [`RssState`] says.
pub open spec fn rss_view(rss: Option<RssState>) -> Option<RssView> {
    match rss {
        Some(rss) => Some(rss@),
        None => None,
    }
}

impl View for PrimaryChannelState {
    type V = PrimaryView;

    open spec fn view(&self) -> PrimaryView {
        PrimaryView {
            guest_vf_state: self.guest_vf_state,
            is_data_path_switched: self.is_data_path_switched,
            control_messages: self.control_messages@.map_values(|m: ControlMessage| m@),
            free_control_buffers: self.free_control_buffers@,
            rss_state: rss_view(self.rss_state),
            requested_num_queues: self.requested_num_queues,
            rndis_state: self.rndis_state,
            offload_config: self.offload_config,
            pending_offload_change: self.pending_offload_change,
            tx_spread_sent: self.tx_spread_sent,
            guest_link_up: self.guest_link_up,
            pending_link_action: self.pending_link_action,
        }
    }
}

/// The reserved receive buffers that the guest does not hold, in order.
pub open spec fn free_reserved(groups: Seq<Seq<u32>>, n: u32) -> Seq<u32>
    decreases n,
{
    if n == 0 {
        Seq::empty()
    } else if in_groups(groups, (n - 1) as u32) {
        free_reserved(groups, (n - 1) as u32)
    } else {
        free_reserved(groups, (n - 1) as u32).push((n - 1) as u32)
    }
}

impl PrimaryChannelState {
    /// The length of the waiting messages is tracked, and RSS keys have 40
    /// bytes.
    pub open spec fn wf(&self) -> bool {
        &&& self.control_messages_len == total_len(self@.control_messages)
        &&& self.rss_state is Some ==> self.rss_state->0.key@.len() == 40
    }

    /// A primary channel that has just been negotiated.
    pub open spec fn spec_new(offload_config: OffloadConfig) -> PrimaryView {
        PrimaryView {
            guest_vf_state: PrimaryChannelGuestVfState::Initializing,
            is_data_path_switched: None,
            control_messages: Seq::empty(),
            free_control_buffers: Seq::new(16, |i: int| i as u32),
            rss_state: None,
            requested_num_queues: 1,
            rndis_state: RndisState::Initializing,
            offload_config,
            pending_offload_change: false,
            tx_spread_sent: false,
            guest_link_up: true,
            pending_link_action: PendingLinkAction::Default,
        }
    }

    /// A primary channel that has just been negotiated.
    pub fn new(offload_config: OffloadConfig) -> (p: PrimaryChannelState)
        ensures
            p@ == PrimaryChannelState::spec_new(offload_config),
            p.wf(),
    {
        let mut free_control_buffers: Vec<u32> = Vec::new();
        let mut id: u32 = 0;
        while id < RX_RESERVED_CONTROL_BUFFERS
            invariant
                id <= RX_RESERVED_CONTROL_BUFFERS,
                free_control_buffers@ == Seq::new(id as nat, |i: int| i as u32),
            decreases RX_RESERVED_CONTROL_BUFFERS - id,
        {
            free_control_buffers.push(id);
            id = id + 1;
            assert(free_control_buffers@ =~= Seq::new(id as nat, |i: int| i as u32));
        }
        let p = PrimaryChannelState {
            guest_vf_state: PrimaryChannelGuestVfState::Initializing,
            is_data_path_switched: None,
            control_messages: VecDeque::new(),
            control_messages_len: 0,
            free_control_buffers,
            rss_state: None,
            requested_num_queues: 1,
            rndis_state: RndisState::Initializing,
            offload_config,
            pending_offload_change: false,
            tx_spread_sent: false,
            guest_link_up: true,
            pending_link_action: PendingLinkAction::Default,
        };
        assert(p@.control_messages =~= Seq::empty());
        p
    }

    /// The primary channel that was saved, or why it cannot be restored.
    pub open spec fn spec_restore(
        guest_vf_state: GuestVfState,
        rndis_state: RndisState,
        offload_config: OffloadConfig,
        pending_offload_change: bool,
        num_queues: u16,
        indirection_table_size: u16,
        rx_groups: Seq<Seq<u32>>,
        control_messages: Seq<ControlMessageView>,
        rss_state: Option<RssView>,
        tx_spread_sent: bool,
        guest_link_down: bool,
        pending_link_action: Option<bool>,
    ) -> Result<PrimaryView, NetRestoreError> {
        if rss_state is Some && rss_state->0.indirection_table.len() != indirection_table_size {
            Err(NetRestoreError::MismatchedIndirectionTableSize)
        } else if rss_state is Some && rss_state->0.key.len() != 40 {
            Err(NetRestoreError::InvalidRssKeySize)
        } else {
            Ok(
                PrimaryView {
                    guest_vf_state: PrimaryChannelGuestVfState::Restoring(guest_vf_state),
                    is_data_path_switched: None,
                    control_messages,
                    free_control_buffers: free_reserved(rx_groups, RX_RESERVED_CONTROL_BUFFERS),
                    rss_state,
                    requested_num_queues: num_queues,
                    rndis_state,
                    offload_config,
                    pending_offload_change,
                    tx_spread_sent,
                    guest_link_up: !guest_link_down,
                    pending_link_action: match pending_link_action {
                        Some(pending) => PendingLinkAction::Active(pending),
                        None => PendingLinkAction::Default,
                    },
                },
            )
        }
    }

    /// Restores the primary channel.
    pub fn restore(
        guest_vf_state: GuestVfState,
        rndis_state: RndisState,
        offload_config: OffloadConfig,
        pending_offload_change: bool,
        num_queues: u16,
        indirection_table_size: u16,
        rx_bufs: &RxBuffers,
        control_messages: Vec<IncomingControlMessage>,
        rss_state: Option<SavedRss>,
        tx_spread_sent: bool,
        guest_link_down: bool,
        pending_link_action: Option<bool>,
    ) -> (r: Result<PrimaryChannelState, NetRestoreError>)
        requires
            total_len(
                control_messages@.map_values(|m: IncomingControlMessage| m@),
            ) <= usize::MAX,
        ensures
            match PrimaryChannelState::spec_restore(
                guest_vf_state,
                rndis_state,
                offload_config,
                pending_offload_change,
                num_queues,
                indirection_table_size,
                rx_bufs.spec_groups(),
                control_messages@.map_values(|m: IncomingControlMessage| m@),
                crate::netvsp::saved::saved_rss_view(rss_state),
                tx_spread_sent,
                guest_link_down,
                pending_link_action,
            ) {
                Ok(p) => r is Ok && r->Ok_0@ == p && r->Ok_0.wf(),
                Err(err) => r == Err::<PrimaryChannelState, NetRestoreError>(err),
            },
    {
        let (messages, control_messages_len) = restore_messages(control_messages);

        let free_control_buffers = find_free_reserved(rx_bufs);
        let rss_state = match rss_state {
            Some(rss) => {
                if rss.indirection_table.len() != indirection_table_size as usize {
                    return Err(NetRestoreError::MismatchedIndirectionTableSize);
                }
                if rss.key.len() != 40 {
                    return Err(NetRestoreError::InvalidRssKeySize);
                }
                Some(RssState { key: rss.key, indirection_table: rss.indirection_table })
            },
            None => None,
        };

        let pending_link_action = match pending_link_action {
            Some(pending) => PendingLinkAction::Active(pending),
            None => PendingLinkAction::Default,
        };

        Ok(
            PrimaryChannelState {
                guest_vf_state: PrimaryChannelGuestVfState::Restoring(guest_vf_state),
                is_data_path_switched: None,
                control_messages: messages,
                control_messages_len,
                free_control_buffers,
                rss_state,
                requested_num_queues: num_queues,
                rndis_state,
                offload_config,
                pending_offload_change,
                tx_spread_sent,
                guest_link_up: !guest_link_down,
                pending_link_action,
            },
        )
    }
}

/// Turns saved control messages into waiting ones, and adds up their length.
fn restore_messages(control_messages: Vec<IncomingControlMessage>) -> (r: (
    VecDeque<ControlMessage>,
    usize,
))
    requires
        total_len(control_messages@.map_values(|m: IncomingControlMessage| m@)) <= usize::MAX,
    ensures
        r.0@.map_values(|m: ControlMessage| m@) == control_messages@.map_values(
            |m: IncomingControlMessage| m@,
        ),
        r.1 == total_len(control_messages@.map_values(|m: IncomingControlMessage| m@)),
{
    let ghost all = control_messages@.map_values(|m: IncomingControlMessage| m@);
    let mut source = control_messages;
    let mut messages: VecDeque<ControlMessage> = VecDeque::new();
    let mut control_messages_len: usize = 0;
    assert(all.skip(0) =~= all);
    while source.len() > 0
        invariant
            messages@.len() <= all.len(),
            source@.len() == all.len() - messages@.len(),
            forall|i: int|
                0 <= i < messages@.len() ==> (#[trigger] messages@[i])@ == all[i],
            forall|i: int|
                0 <= i < source@.len() ==> (#[trigger] source@[i])@ == all[i
                    + messages@.len()],
            control_messages_len + total_len(all.skip(messages@.len() as int)) == total_len(
                all,
            ),
            total_len(all) <= usize::MAX,
        decreases source@.len(),
    {
        let ghost n = messages@.len() as int;
        let msg = source.remove(0);
        assert(msg@ == all[n]);
        assert(all.skip(n)[0] == all[n]);
        assert(all.skip(n).drop_first() =~= all.skip(n + 1));
        proof {
            lemma_total_len_nonneg(all.skip(n + 1));
        }
        control_messages_len = control_messages_len + msg.data.len();
        messages.push_back(ControlMessage { message_type: msg.message_type, data: msg.data });
        assert(messages@[n]@ == all[n]);
    }
    assert(messages@.map_values(|m: ControlMessage| m@) =~= all);
    assert(all.skip(messages@.len() as int) =~= Seq::empty());
    (messages, control_messages_len)
}

/// Finds the reserved receive buffers that the guest does not hold.
fn find_free_reserved(rx_bufs: &RxBuffers) -> (r: Vec<u32>)
    ensures
        r@ == free_reserved(rx_bufs.spec_groups(), RX_RESERVED_CONTROL_BUFFERS),
{
    let mut free_control_buffers: Vec<u32> = Vec::new();
    let mut id: u32 = 0;
    while id < RX_RESERVED_CONTROL_BUFFERS
        invariant
            id <= RX_RESERVED_CONTROL_BUFFERS,
            free_control_buffers@ == free_reserved(rx_bufs.spec_groups(), id),
        decreases RX_RESERVED_CONTROL_BUFFERS - id,
    {
        if rx_bufs.is_free(id) {
            free_control_buffers.push(id);
        }
        id = id + 1;
    }
    free_control_buffers
}

/// Lengths are not negative.
pub proof fn lemma_total_len_nonneg(messages: Seq<ControlMessageView>)
    ensures
        total_len(messages) >= 0,
    decreases messages.len(),
{
    if messages.len() > 0 {
        lemma_total_len_nonneg(messages.drop_first());
    }
}

/// A message at the end adds its length.
pub proof fn lemma_total_len_push(messages: Seq<ControlMessageView>, m: ControlMessageView)
    ensures
        total_len(messages.push(m)) == total_len(messages) + m.data.len(),
    decreases messages.len(),
{
    if messages.len() > 0 {
        assert(messages.push(m).drop_first() =~= messages.drop_first().push(m));
        lemma_total_len_push(messages.drop_first(), m);
    } else {
        assert(messages.push(m).drop_first() =~= messages);
    }
}

/// An RNDIS packet that is in flight.
#[derive(Debug, Clone, Copy, PartialEq, Eq, Structural)]
pub struct PendingTxPacket {
    /// How many of its Ethernet frames the endpoint has not completed.
    pub pending_packet_count: usize,
    /// The transaction ID of the packet.
    pub transaction_id: u64,
}

/// A completion that waits for room on the ring.
#[derive(Debug, Clone, Copy, PartialEq, Eq, Structural)]
pub struct PendingTxCompletion {
    /// The transaction ID of the packet.
    pub transaction_id: u64,
    /// The slot that becomes free with it.
    pub tx_id: Option<u32>,
}

/// Mutable state of a channel that has finished negotiation.
#[derive(Debug)]
pub struct ActiveState {
    /// State of the primary channel, if this is it.
    pub primary: Option<PrimaryChannelState>,
    /// The slots for packets in flight.
    pub pending_tx_packets: Vec<PendingTxPacket>,
    /// The slots that are free.
    pub free_tx_packets: Vec<u32>,
    /// The completions that wait for room on the ring.
    pub pending_tx_completions: VecDeque<PendingTxCompletion>,
    /// The receive buffers that the guest holds.
    pub rx_bufs: RxBuffers,
    /// What was counted so far.
    pub stats: QueueStats,
}

/// What an [`ActiveState`] says.
pub struct ActiveView {
    /// State of the primary channel, if this is it.
    pub primary: Option<PrimaryView>,
    /// The slots for packets in flight.
    pub pending_tx_packets: Seq<PendingTxPacket>,
    /// The slots that are free.
    pub free_tx_packets: Seq<u32>,
    /// The completions that wait for room on the ring.
    pub pending_tx_completions: Seq<PendingTxCompletion>,
    /// The number of receive buffers.
    pub rx_count: u32,
    /// The receive buffers that the guest holds.
    pub rx_groups: Seq<Seq<u32>>,
    /// What was counted so far.
    pub stats: QueueStats,
}

/// What an optional [`PrimaryChannelState`] says.
pub open spec fn primary_view(p: Option<PrimaryChannelState>) -> Option<PrimaryView> {
    match p {
        Some(p) => Some(p@),
        None => None,
    }
}

impl View for ActiveState {
    type V = ActiveView;

    open spec fn view(&self) -> ActiveView {
        ActiveView {
            primary: primary_view(self.primary),
            pending_tx_packets: self.pending_tx_packets@,
            free_tx_packets: self.free_tx_packets@,
            pending_tx_completions: self.pending_tx_completions@,
            rx_count: self.rx_bufs.spec_count(),
            rx_groups: self.rx_bufs.spec_groups(),
            stats: self.stats,
        }
    }
}

/// The first receive buffer that cannot be handed out, when the groups from
/// `from` on are handed out one after another.
pub open spec fn group_conflict(count: u32, groups: Seq<Seq<u32>>, from: int) -> Option<u32>
    decreases groups.len() - from,
{
    if from < 0 || from >= groups.len() {
        None
    } else {
        let bad = first_conflict(count, groups.take(from), groups[from], 0);
        if bad < groups[from].len() {
            Some(groups[from][bad])
        } else {
            group_conflict(count, groups, from + 1)
        }
    }
}

/// The smaller of two lengths.
pub open spec fn quota_used(n: nat) -> nat {
    if n < TX_PACKET_QUOTA {
        n
    } else {
        TX_PACKET_QUOTA as nat
    }
}

impl ActiveView {
    /// A channel that has just been negotiated.
    pub open spec fn fresh(primary: Option<PrimaryView>, recv_buffer_count: u32) -> ActiveView {
        ActiveView {
            primary,
            pending_tx_packets: Seq::new(
                1024,
                |i: int| PendingTxPacket { pending_packet_count: 0, transaction_id: 0 },
            ),
            free_tx_packets: Seq::new(1024, |i: int| (1023 - i) as u32),
            pending_tx_completions: Seq::empty(),
            rx_count: recv_buffer_count,
            rx_groups: Seq::empty(),
            stats: QueueStats::zero(),
        }
    }

    /// A channel with the given completions to send and receive buffers with the
    /// guest. Completions take slots as long as there are any; if there are not
    /// enough the others are still sent, since the number of slots might change
    /// from release to release.
    pub open spec fn restored(
        recv_buffer_count: u32,
        completions: Seq<u64>,
        in_use_rx: Seq<Seq<u32>>,
    ) -> ActiveView {
        ActiveView {
            primary: None,
            pending_tx_packets: Seq::new(
                1024,
                |i: int|
                    PendingTxPacket {
                        pending_packet_count: 0,
                        transaction_id: if i < completions.len() {
                            completions[i]
                        } else {
                            0
                        },
                    },
            ),
            free_tx_packets: Seq::new(
                (1024 - quota_used(completions.len())) as nat,
                |i: int| (1023 - i) as u32,
            ),
            pending_tx_completions: Seq::new(
                completions.len(),
                |i: int|
                    PendingTxCompletion {
                        transaction_id: completions[i],
                        tx_id: if i < 1024 {
                            Some(i as u32)
                        } else {
                            None
                        },
                    },
            ),
            rx_count: recv_buffer_count,
            rx_groups: in_use_rx,
            stats: QueueStats::zero(),
        }
    }
}

impl ActiveState {
    /// A channel that has just been negotiated.
    pub fn new(primary: Option<PrimaryChannelState>, recv_buffer_count: u32) -> (a: ActiveState)
        ensures
            a@ == ActiveView::fresh(primary_view(primary), recv_buffer_count),
            a.primary == primary,
    {
        let mut pending_tx_packets: Vec<PendingTxPacket> = Vec::new();
        let mut free_tx_packets: Vec<u32> = Vec::new();
        let mut i: u32 = 0;
        while i < 1024
            invariant
                i <= 1024,
                pending_tx_packets@ == Seq::new(
                    i as nat,
                    |k: int| PendingTxPacket { pending_packet_count: 0, transaction_id: 0 },
                ),
                free_tx_packets@ == Seq::new(i as nat, |k: int| (1023 - k) as u32),
            decreases 1024 - i,
        {
            pending_tx_packets.push(PendingTxPacket { pending_packet_count: 0, transaction_id: 0 });
            free_tx_packets.push(1023 - i);
            i = i + 1;
            assert(pending_tx_packets@ =~= Seq::new(
                i as nat,
                |k: int| PendingTxPacket { pending_packet_count: 0, transaction_id: 0 },
            ));
            assert(free_tx_packets@ =~= Seq::new(i as nat, |k: int| (1023 - k) as u32));
        }
        let a = ActiveState {
            primary,
            pending_tx_packets,
            free_tx_packets,
            pending_tx_completions: VecDeque::new(),
            rx_bufs: RxBuffers::new(recv_buffer_count),
            stats: QueueStats::new(),
        };
        assert(a@.pending_tx_packets =~= ActiveView::fresh(
            primary_view(primary),
            recv_buffer_count,
        ).pending_tx_packets);
        assert(a@.free_tx_packets =~= ActiveView::fresh(
            primary_view(primary),
            recv_buffer_count,
        ).free_tx_packets);
        assert(a@.pending_tx_completions =~= Seq::empty());
        a
    }

    /// Restores a channel.
    pub fn restore(channel: &SavedChannel, recv_buffer_count: u32) -> (r: Result<
        ActiveState,
        NetRestoreError,
    >)
        ensures
            match group_conflict(recv_buffer_count, channel@.in_use_rx, 0) {
                Some(id) => r == Err::<ActiveState, NetRestoreError>(
                    NetRestoreError::SuballocationMisconfigured(SubAllocationInUse(id)),
                ),
                None => {
                    &&& r is Ok
                    &&& r->Ok_0.primary is None
                    &&& r->Ok_0@ == ActiveView::restored(
                        recv_buffer_count,
                        channel@.pending_tx_completions,
                        channel@.in_use_rx,
                    )
                },
            },
    {
        let mut active = ActiveState::new(None, recv_buffer_count);
        let ghost groups = channel@.in_use_rx;
        let ghost ids = channel@.pending_tx_completions;
        let ghost fresh = active@;
        let mut g: usize = 0;
        assert(groups.take(0) =~= Seq::empty());
        while g < channel.in_use_rx.len()
            invariant
                g <= channel.in_use_rx@.len(),
                groups == channel@.in_use_rx,
                active@ == (ActiveView { rx_groups: groups.take(g as int), ..fresh }),
                active.primary is None,
                fresh.rx_count == recv_buffer_count,
                group_conflict(recv_buffer_count, groups, 0) == group_conflict(
                    recv_buffer_count,
                    groups,
                    g as int,
                ),
            decreases channel.in_use_rx@.len() - g,
        {
            assert(groups[g as int] == channel.in_use_rx@[g as int]@);
            let buffers = crate::netvsp::rx::copy_ids(&channel.in_use_rx[g]);
            match active.rx_bufs.allocate(buffers) {
                Ok(()) => {},
                Err(err) => return Err(NetRestoreError::SuballocationMisconfigured(err)),
            }
            assert(groups.take(g as int).push(groups[g as int]) =~= groups.take(g + 1));
            g = g + 1;
        }
        assert(groups.take(g as int) =~= groups);

        let mut i: usize = 0;
        assert(active@.pending_tx_packets =~= ActiveView::restored(
            recv_buffer_count,
            ids.take(0),
            groups,
        ).pending_tx_packets);
        assert(active@.free_tx_packets =~= ActiveView::restored(
            recv_buffer_count,
            ids.take(0),
            groups,
        ).free_tx_packets);
        assert(active@.pending_tx_completions =~= ActiveView::restored(
            recv_buffer_count,
            ids.take(0),
            groups,
        ).pending_tx_completions);
        while i < channel.pending_tx_completions.len()
            invariant
                i <= channel.pending_tx_completions@.len(),
                ids == channel.pending_tx_completions@,
                active.primary is None,
                active@ == ActiveView::restored(recv_buffer_count, ids.take(i as int), groups),
            decreases channel.pending_tx_completions@.len() - i,
        {
            let transaction_id: u64 = channel.pending_tx_completions[i];
            let ghost before = active@;
            let tx_id = active.free_tx_packets.pop();
            if let Some(id) = tx_id {
                assert(id == i);
                // This shouldn't be referenced, but set it in case it is in the
                // future.
                let slot = active.pending_tx_packets[id as usize];
                active.pending_tx_packets.set(
                    id as usize,
                    PendingTxPacket {
                        pending_packet_count: slot.pending_packet_count,
                        transaction_id,
                    },
                );
            }
            active.pending_tx_completions.push_back(PendingTxCompletion { transaction_id, tx_id });
            let ghost want = ActiveView::restored(recv_buffer_count, ids.take(i + 1), groups);
            assert(ids.take(i + 1) =~= ids.take(i as int).push(transaction_id));
            assert(active@.pending_tx_packets =~= want.pending_tx_packets);
            assert(active@.free_tx_packets =~= want.free_tx_packets);
            assert(active@.pending_tx_completions =~= want.pending_tx_completions);
            i = i + 1;
        }
        assert(ids.take(i as int) =~= ids);
        Ok(active)
    }
}

/// A channel that is ready to carry packets.
#[derive(Debug)]
pub struct ReadyState {
    /// What it works on.
    pub buffers: ChannelBuffers,
    /// Its state.
    pub state: ActiveState,
}

/// How far a channel has got.
#[derive(Debug)]
pub enum WorkerState {
    /// It is being negotiated; `None` before there is a version.
    Init(Option<InitState>),
    /// It is ready.
    Ready(ReadyState),
}

/// An adapter whose primary channel is open.
#[derive(Debug)]
pub struct OpenNic {
    /// The channels, the primary one first; `None` where a channel is closed.
    pub workers: Vec<Option<WorkerState>>,
    /// The number of queues in use.
    pub num_queues: u16,
}

impl OpenNic {
    /// The primary channel is open, and if it is ready it has its own state;
    /// there are at least as many channels as queues.
    pub open spec fn wf(&self) -> bool {
        &&& self.workers@.len() > 0
        &&& 1 <= self.num_queues <= self.workers@.len()
        &&& self.workers@[0] is Some
        &&& self.workers@[0]->0 matches WorkerState::Ready(ready) ==> ready.state.primary is Some
    }
}

/// Guest memory is found by its ID: what is found has it, and nothing with that ID comes
/// before. If nothing is found, no memory has it.
pub proof fn memory_is_found_by_id(map: Seq<Gpadl>, id: u32)
    ensures
        match mapped(map, id) {
            Some(g) => g.id == id && exists|i: int|
                0 <= i < map.len() && #[trigger] map[i] == g && forall|k: int|
                    0 <= k < i ==> (#[trigger] map[k]).id != id,
            None => forall|i: int| 0 <= i < map.len() ==> (#[trigger] map[i]).id != id,
        },
    decreases map.len(),
{
    if map.len() > 0 {
        let rest = map.drop_first();
        memory_is_found_by_id(rest, id);
        if map[0].id == id {
            assert(map[0] == mapped(map, id)->0);
        } else {
            match mapped(rest, id) {
                Some(g) => {
                    let i = choose|i: int|
                        0 <= i < rest.len() && #[trigger] rest[i] == g && forall|k: int|
                            0 <= k < i ==> (#[trigger] rest[k]).id != id;
                    assert(map[i + 1] == g);
                    assert forall|k: int| 0 <= k < i + 1 implies (#[trigger] map[k]).id != id by {
                        if k > 0 {
                            assert(rest[k - 1] == map[k]);
                        }
                    }
                },
                None => {
                    assert forall|k: int| 0 <= k < map.len() implies (#[trigger] map[k]).id
                        != id by {
                        if k > 0 {
                            assert(rest[k - 1] == map[k]);
                        }
                    }
                },
            }
        }
    }
}

/// The receive buffer is cut into as many suballocations as fit. The buffer is refused for a
/// size below the smallest, unknown or unaligned memory, or memory in which none fits.
pub proof fn receive_buffer_is_cut_up(
    map: Seq<Gpadl>,
    gpadl_id: u32,
    id: u16,
    size: u32,
    min_size: u32,
)
    requires
        min_size >= 1,
        mapped(map, gpadl_id) matches Some(g) ==> (g.contiguous_len matches Some(len) ==> len
            <= u32::MAX),
    ensures
        ({
            let r = ReceiveBuffer::made(map, gpadl_id, id, size, min_size);
            let m = mapped(map, gpadl_id);
            &&& r is Ok <==> size >= min_size && m is Some && m->0.contiguous_len is Some
                && m->0.contiguous_len->0 >= size
            &&& r matches Ok(b) ==> {
                &&& b.gpadl_id == gpadl_id
                &&& b.id == id
                &&& b.sub_allocation_size == size
                &&& b.count * size <= m->0.contiguous_len->0 < (b.count + 1) * size
                &&& b.wf()
            }
            &&& r matches Err(e) ==> {
                &&& size < min_size ==> e == BufferError::UnsupportedSuballocationSize(size)
                &&& size >= min_size && m is None ==> e == BufferError::UnknownGpadlId
                &&& size >= min_size && m is Some && m->0.contiguous_len is None ==> e
                    == BufferError::UnalignedGpadl
                &&& size >= min_size && m is Some && m->0.contiguous_len is Some ==> e
                    == BufferError::UnsupportedSuballocationSize(size)
            }
        }),
{
    if size >= min_size {
        if let Some(g) = mapped(map, gpadl_id) {
            if let Some(len) = g.contiguous_len {
                let count = len as int / size as int;
                assert(count * size <= len < (count + 1) * size && 0 <= count <= len) by (
                nonlinear_arith)
                    requires
                        count == len as int / size as int,
                        size >= 1,
                        len >= 0,
                ;
                assert(len >= size <==> count >= 1) by (nonlinear_arith)
                    requires
                        count * size <= len < (count + 1) * size,
                        size >= 1,
                        count >= 0,
                ;
            }
        }
    }
}

/// The suballocations lie one behind the other, in the order of their numbers, within the
/// buffer.
pub proof fn suballocations_lie_side_by_side(b: ReceiveBuffer, i: u32, j: u32, len: int)
    requires
        b.wf(),
        i < j < b.count,
        0 <= len <= b.sub_allocation_size,
    ensures
        b.spec_transfer_page_range(i, len).byte_offset == i * b.sub_allocation_size,
        b.spec_transfer_page_range(i, len).byte_count == len,
        b.spec_transfer_page_range(i, len).byte_offset + b.sub_allocation_size
            <= b.spec_transfer_page_range(j, len).byte_offset,
        b.spec_transfer_page_range(j, len).byte_offset + b.sub_allocation_size <= b.count
            * b.sub_allocation_size,
{
    let size = b.sub_allocation_size as int;
    assert(i * size + size <= j * size && j * size + size <= b.count * size) by (nonlinear_arith)
        requires
            i < j < b.count,
            size >= 1,
    ;
    assert(0 <= i * size) by (nonlinear_arith)
        requires
            0 <= i,
            size >= 1,
    ;
}

/// The send buffer is the memory that the guest names, from end to end.
pub proof fn send_buffer_is_whole_memory(map: Seq<Gpadl>, gpadl_id: u32)
    ensures
        match mapped(map, gpadl_id) {
            None => SendBuffer::made(map, gpadl_id) == Err::<SendBuffer, BufferError>(
                BufferError::UnknownGpadlId,
            ),
            Some(g) => if g.contiguous_len is None {
                SendBuffer::made(map, gpadl_id) == Err::<SendBuffer, BufferError>(
                    BufferError::UnalignedGpadl,
                )
            } else {
                SendBuffer::made(map, gpadl_id) matches Ok(b) && b.gpadl_id == gpadl_id && b.len
                    == g.contiguous_len->0
            },
        },
{
}

/// The length of the waiting control messages is that of all of them together.
pub proof fn lengths_add_up(a: Seq<ControlMessageView>, m: ControlMessageView)
    ensures
        total_len(Seq::<ControlMessageView>::empty()) == 0,
        total_len(a.push(m)) == total_len(a) + m.data.len(),
{
    assert(a.push(m).drop_last() =~= a);
    lemma_total_len_push(a, m);
}

/// A reserved buffer is free if and only if the guest does not hold it, and each is listed
/// once, the smallest first.
pub proof fn free_reserved_buffers_are_listed(groups: Seq<Seq<u32>>, n: u32)
    ensures
        ({
            let s = free_reserved(groups, n);
            &&& forall|id: u32| #[trigger] s.contains(id) <==> id < n && !in_groups(groups, id)
            &&& forall|i: int, j: int| 0 <= i < j < s.len() ==> s[i] < s[j]
        }),
    decreases n,
{
    if n > 0 {
        let m = (n - 1) as u32;
        free_reserved_buffers_are_listed(groups, m);
        let before = free_reserved(groups, m);
        let s = free_reserved(groups, n);
        assert forall|id: u32| #[trigger] s.contains(id) <==> id < n && !in_groups(groups, id) by {
            assert(before.contains(id) <==> id < m && !in_groups(groups, id));
            if s.contains(id) {
                let i = choose|i: int| 0 <= i < s.len() && s[i] == id;
                if i < before.len() {
                    assert(before[i] == id);
                }
            }
            if before.contains(id) {
                let i = choose|i: int| 0 <= i < before.len() && before[i] == id;
                assert(s[i] == id);
            }
            if id == m && !in_groups(groups, id) {
                assert(s[before.len() as int] == id);
            }
        }
        assert forall|i: int, j: int| 0 <= i < j < s.len() implies s[i] < s[j] by {
            assert(before.contains(before[i]));
        }
    }
}

/// A channel starts idle: 1024 slots, all free, nothing to complete, and no buffer with the
/// guest. The slots are taken from the first on.
pub proof fn channel_starts_idle(primary: Option<PrimaryView>, recv_buffer_count: u32)
    ensures
        ({
            let a = ActiveView::fresh(primary, recv_buffer_count);
            &&& a.primary == primary
            &&& a.rx_count == recv_buffer_count
            &&& a.pending_tx_packets.len() == 1024
            &&& forall|i: int|
                0 <= i < 1024 ==> (#[trigger] a.pending_tx_packets[i]).pending_packet_count == 0
            &&& a.free_tx_packets.len() == 1024
            &&& forall|i: int| 0 <= i < 1024 ==> #[trigger] a.free_tx_packets[i] == 1023 - i
            &&& a.free_tx_packets.last() == 0
            &&& a.pending_tx_completions.len() == 0
            &&& a.rx_groups.len() == 0
        }),
{
}

/// The primary channel starts with all 16 reserved buffers, one queue, the link up as far as
/// the guest knows, and nothing negotiated of RNDIS, RSS or a VF.
pub proof fn primary_channel_starts_idle(offload_config: OffloadConfig)
    ensures
        ({
            let p = PrimaryChannelState::spec_new(offload_config);
            &&& p.guest_vf_state is Initializing
            &&& p.is_data_path_switched is None
            &&& p.control_messages.len() == 0
            &&& p.free_control_buffers.len() == 16
            &&& forall|i: int| 0 <= i < 16 ==> #[trigger] p.free_control_buffers[i] == i
            &&& p.rss_state is None
            &&& p.requested_num_queues == 1
            &&& p.rndis_state is Initializing
            &&& p.offload_config == offload_config
            &&& !p.pending_offload_change
            &&& !p.tx_spread_sent
            &&& p.guest_link_up
            &&& p.pending_link_action == PendingLinkAction::Default
        }),
{
}

/// A restored channel owes the guest each saved completion, in order. A completion with a slot
/// of its own keeps it, and the other slots are free.
pub proof fn restored_channel_owes_completions(
    count: u32,
    completions: Seq<u64>,
    in_use_rx: Seq<Seq<u32>>,
)
    ensures
        ({
            let a = ActiveView::restored(count, completions, in_use_rx);
            &&& a.primary is None
            &&& a.rx_count == count
            &&& a.rx_groups == in_use_rx
            &&& a.pending_tx_completions.len() == completions.len()
            &&& forall|i: int|
                0 <= i < completions.len() ==> (#[trigger] a.pending_tx_completions[i]).transaction_id
                    == completions[i] && a.pending_tx_completions[i].tx_id == if i < 1024 {
                    Some(i as u32)
                } else {
                    None
                }
            &&& a.pending_tx_packets.len() == 1024
            &&& forall|i: int|
                0 <= i < 1024 ==> (#[trigger] a.pending_tx_packets[i]).pending_packet_count == 0
            &&& forall|i: int|
                0 <= i < 1024 && i < completions.len() ==> (
                #[trigger] a.pending_tx_packets[i]).transaction_id == completions[i]
            &&& forall|id: u32|
                #[trigger] a.free_tx_packets.contains(id) <==> completions.len() <= id < 1024
            &&& completions.len() <= 1024 ==> a.free_tx_packets.len() + completions.len() == 1024
        }),
{
    let a = ActiveView::restored(count, completions, in_use_rx);
    let n = a.free_tx_packets.len();
    assert forall|id: u32| completions.len() <= id < 1024 implies a.free_tx_packets.contains(id) by {
        assert(a.free_tx_packets[1023 - id] == id);
    }
}

/// The primary channel is restored as it was saved, with the reserved buffers that the guest
/// does not hold. What the guest was last told of the link is kept, and a change that it was
/// not told of is told at once. It is refused for an RSS table or key of another size.
pub proof fn primary_channel_is_restored(
    guest_vf_state: GuestVfState,
    rndis_state: RndisState,
    offload_config: OffloadConfig,
    pending_offload_change: bool,
    num_queues: u16,
    indirection_table_size: u16,
    rx_groups: Seq<Seq<u32>>,
    control_messages: Seq<ControlMessageView>,
    rss_state: Option<RssView>,
    tx_spread_sent: bool,
    guest_link_down: bool,
    pending_link_action: Option<bool>,
)
    ensures
        ({
            let r = PrimaryChannelState::spec_restore(
                guest_vf_state,
                rndis_state,
                offload_config,
                pending_offload_change,
                num_queues,
                indirection_table_size,
                rx_groups,
                control_messages,
                rss_state,
                tx_spread_sent,
                guest_link_down,
                pending_link_action,
            );
            &&& r is Err <==> rss_state is Some && (rss_state->0.indirection_table.len()
                != indirection_table_size || rss_state->0.key.len() != 40)
            &&& r matches Err(e) ==> (e == NetRestoreError::MismatchedIndirectionTableSize
                <==> rss_state->0.indirection_table.len() != indirection_table_size) && (e
                == NetRestoreError::InvalidRssKeySize || e
                == NetRestoreError::MismatchedIndirectionTableSize)
            &&& r matches Ok(p) ==> {
                &&& p.guest_vf_state == PrimaryChannelGuestVfState::Restoring(guest_vf_state)
                &&& p.is_data_path_switched is None
                &&& p.control_messages == control_messages
                &&& p.rss_state == rss_state
                &&& p.requested_num_queues == num_queues
                &&& p.rndis_state == rndis_state
                &&& p.offload_config == offload_config
                &&& p.pending_offload_change == pending_offload_change
                &&& p.tx_spread_sent == tx_spread_sent
                &&& p.guest_link_up != guest_link_down
                &&& p.pending_link_action == match pending_link_action {
                    Some(up) => PendingLinkAction::Active(up),
                    None => PendingLinkAction::Default,
                }
                &&& forall|id: u32|
                    #[trigger] p.free_control_buffers.contains(id) <==> id < 16 && !in_groups(
                        rx_groups,
                        id,
                    )
            }
        }),
{
    free_reserved_buffers_are_listed(rx_groups, 16);
}

/// Groups of buffers are handed out again after a restore if and only if every buffer exists
/// and none is in two places.
pub proof fn restored_groups_are_checked(count: u32, groups: Seq<Seq<u32>>, from: int)
    requires
        0 <= from <= groups.len(),
    ensures
        match group_conflict(count, groups, from) {
            Some(id) => exists|g: int|
                from <= g < groups.len() && (#[trigger] groups[g]).contains(id),
            None => forall|g: int|
                from <= g < groups.len() ==> first_conflict(
                    count,
                    groups.take(g),
                    #[trigger] groups[g],
                    0,
                ) >= groups[g].len(),
        },
    decreases groups.len() - from,
{
    if from < groups.len() {
        restored_groups_are_checked(count, groups, from + 1);
        let bad = first_conflict(count, groups.take(from), groups[from], 0);
        crate::netvsp::rx::allocation_is_refused_for_first_conflict(
            count,
            groups.take(from),
            groups[from],
        );
        if bad < groups[from].len() {
            assert(groups[from].contains(groups[from][bad]));
        }
    }
}

} // verus!
