//! What is kept of an adapter when it is saved, and how it is restored.
use crate::netvsp::error::BufferError;
use crate::netvsp::guest_vf::{
    GuestVfState, NdisConfig, PrimaryChannelGuestVfState, RndisState,
};
use crate::netvsp::offload::OffloadConfig;
use crate::netvsp::protocol::{check_version, version_with, Version};
use crate::netvsp::rx::{groups_ok, lemma_group_fits, SubAllocationInUse};
use crate::netvsp::state::{
    group_conflict, total_len, ActiveState, ActiveView, ChannelBuffers, ControlMessage,
    ControlMessageView, Gpadl, InitState, NdisVersion, OpenNic, PendingLinkAction,
    PendingTxCompletion, PendingTxPacket, PrimaryChannelState, PrimaryView, ReadyState,
    ReceiveBuffer, RssState, RssView, SendBuffer, WorkerState,
};
use vstd::prelude::*;

verus! {

/// Why an adapter cannot be restored.
#[derive(Debug, Clone, Copy, PartialEq, Eq, Structural)]
pub enum NetRestoreError {
    /// The protocol version is unknown.
    UnsupportedVersion(u32),
    /// A buffer of the guest cannot be used.
    ReceiveBuffer(BufferError),
    /// A receive buffer was saved twice.
    SuballocationMisconfigured(SubAllocationInUse),
    /// The RSS key does not have 40 bytes.
    InvalidRssKeySize,
    /// The RSS indirection table does not have the length that the endpoint
    /// has.
    MismatchedIndirectionTableSize,
}

/// A saved receive buffer.
#[derive(Debug, Clone, Copy, PartialEq, Eq, Structural)]
pub struct SavedReceiveBuffer {
    /// Its memory.
    pub gpadl_id: u32,
    /// Its ID.
    pub id: u16,
    /// The byte length of a suballocation.
    pub sub_allocation_size: u32,
}

/// A saved send buffer.
#[derive(Debug, Clone, Copy, PartialEq, Eq, Structural)]
pub struct SavedSendBuffer {
    /// Its memory.
    pub gpadl_id: u32,
}

/// A saved control message.
#[derive(Debug)]
pub struct IncomingControlMessage {
    /// The RNDIS message type.
    pub message_type: u32,
    /// The message behind the header.
    pub data: Vec<u8>,
}

impl View for IncomingControlMessage {
    type V = ControlMessageView;

    open spec fn view(&self) -> ControlMessageView {
        ControlMessageView { message_type: self.message_type, data: self.data@ }
    }
}

/// Saved receive side scaling.
#[derive(Debug)]
pub struct SavedRss {
    /// The hash key.
    pub key: Vec<u8>,
    /// The queue for each hash value.
    pub indirection_table: Vec<u16>,
}

impl View for SavedRss {
    type V = RssView;

    open spec fn view(&self) -> RssView {
        RssView { key: self.key@, indirection_table: self.indirection_table@ }
    }
}

/// What an optional [`SavedRss`] says.
pub open spec fn saved_rss_view(rss: Option<SavedRss>) -> Option<RssView> {
    match rss {
        Some(rss) => Some(rss@),
        None => None,
    }
}

/// A saved channel.
#[derive(Debug)]
pub struct SavedChannel {
    /// The transactions that have to be completed.
    pub pending_tx_completions: Vec<u64>,
    /// The receive buffers that the guest holds.
    pub in_use_rx: Vec<Vec<u32>>,
}

/// What a [`SavedChannel`] says.
pub struct SavedChannelView {
    /// The transactions that have to be completed.
    pub pending_tx_completions: Seq<u64>,
    /// The receive buffers that the guest holds.
    pub in_use_rx: Seq<Seq<u32>>,
}

impl View for SavedChannel {
    type V = SavedChannelView;

    open spec fn view(&self) -> SavedChannelView {
        SavedChannelView {
            pending_tx_completions: self.pending_tx_completions@,
            in_use_rx: self.in_use_rx@.map_values(|g: Vec<u32>| g@),
        }
    }
}

/// A primary channel that was saved during negotiation.
#[derive(Debug, Clone, Copy, PartialEq, Eq, Structural)]
pub struct InitPrimary {
    /// The number of the protocol version.
    pub version: u32,
    /// The guest configuration.
    pub ndis_config: Option<NdisConfig>,
    /// The NDIS version.
    pub ndis_version: Option<NdisVersion>,
    /// The receive buffer.
    pub receive_buffer: Option<SavedReceiveBuffer>,
    /// The send buffer.
    pub send_buffer: Option<SavedSendBuffer>,
}

/// A primary channel that was saved after negotiation.
#[derive(Debug)]
pub struct ReadyPrimary {
    /// The number of the protocol version.
    pub version: u32,
    /// The receive buffer.
    pub receive_buffer: SavedReceiveBuffer,
    /// The send buffer.
    pub send_buffer: Option<SavedSendBuffer>,
    /// The control messages that wait to be answered.
    pub control_messages: Vec<IncomingControlMessage>,
    /// Receive side scaling, if the guest has set it up.
    pub rss_state: Option<SavedRss>,
    /// The channels, the primary one first; `None` where a channel is closed.
    pub channels: Vec<Option<SavedChannel>>,
    /// The NDIS version.
    pub ndis_version: NdisVersion,
    /// The guest configuration.
    pub ndis_config: NdisConfig,
    /// State of the RNDIS protocol.
    pub rndis_state: RndisState,
    /// What the guest knows of the VF.
    pub guest_vf_state: GuestVfState,
    /// The offloads in effect.
    pub offload_config: OffloadConfig,
    /// Whether the guest has to be told of them.
    pub pending_offload_change: bool,
    /// Whether the guest knows on which channels to send.
    pub tx_spread_sent: bool,
    /// Whether the guest believes that the link is down.
    pub guest_link_down: bool,
    /// The link state that the guest has to be told of.
    pub pending_link_action: Option<bool>,
}

/// A saved primary channel.
#[derive(Debug)]
pub enum Primary {
    /// No version had been negotiated.
    Version,
    /// The negotiation was not done.
    Init(InitPrimary),
    /// The negotiation was done.
    Ready(ReadyPrimary),
}

/// A saved adapter.
#[derive(Debug)]
pub struct SavedState {
    /// The primary channel, if it was open.
    pub open: Option<Primary>,
}

/// What a [`ReadyPrimary`] says.
pub struct ReadyPrimaryView {
    /// The number of the protocol version.
    pub version: u32,
    /// The receive buffer.
    pub receive_buffer: SavedReceiveBuffer,
    /// The send buffer.
    pub send_buffer: Option<SavedSendBuffer>,
    /// The control messages that wait to be answered.
    pub control_messages: Seq<ControlMessageView>,
    /// Receive side scaling, if the guest has set it up.
    pub rss_state: Option<RssView>,
    /// The channels.
    pub channels: Seq<Option<SavedChannelView>>,
    /// The NDIS version.
    pub ndis_version: NdisVersion,
    /// The guest configuration.
    pub ndis_config: NdisConfig,
    /// State of the RNDIS protocol.
    pub rndis_state: RndisState,
    /// What the guest knows of the VF.
    pub guest_vf_state: GuestVfState,
    /// The offloads in effect.
    pub offload_config: OffloadConfig,
    /// Whether the guest has to be told of them.
    pub pending_offload_change: bool,
    /// Whether the guest knows on which channels to send.
    pub tx_spread_sent: bool,
    /// Whether the guest believes that the link is down.
    pub guest_link_down: bool,
    /// The link state that the guest has to be told of.
    pub pending_link_action: Option<bool>,
}

/// What a [`Primary`] says.
pub enum SavedView {
    /// No version had been negotiated.
    Version,
    /// The negotiation was not done.
    Init(InitPrimary),
    /// The negotiation was done.
    Ready(ReadyPrimaryView),
}

/// What an optional [`SavedChannel`] says.
pub open spec fn channel_view(c: Option<SavedChannel>) -> Option<SavedChannelView> {
    match c {
        Some(c) => Some(c@),
        None => None,
    }
}

impl View for ReadyPrimary {
    type V = ReadyPrimaryView;

    open spec fn view(&self) -> ReadyPrimaryView {
        ReadyPrimaryView {
            version: self.version,
            receive_buffer: self.receive_buffer,
            send_buffer: self.send_buffer,
            control_messages: self.control_messages@.map_values(|m: IncomingControlMessage| m@),
            rss_state: saved_rss_view(self.rss_state),
            channels: self.channels@.map_values(|c: Option<SavedChannel>| channel_view(c)),
            ndis_version: self.ndis_version,
            ndis_config: self.ndis_config,
            rndis_state: self.rndis_state,
            guest_vf_state: self.guest_vf_state,
            offload_config: self.offload_config,
            pending_offload_change: self.pending_offload_change,
            tx_spread_sent: self.tx_spread_sent,
            guest_link_down: self.guest_link_down,
            pending_link_action: self.pending_link_action,
        }
    }
}

impl View for Primary {
    type V = SavedView;

    open spec fn view(&self) -> SavedView {
        match self {
            Primary::Version => SavedView::Version,
            Primary::Init(init) => SavedView::Init(*init),
            Primary::Ready(ready) => SavedView::Ready(ready@),
        }
    }
}

/// What a [`WorkerState`] says.
pub enum WorkerView {
    /// It is being negotiated.
    Init(Option<InitState>),
    /// It is ready.
    Ready(ChannelBuffers, ActiveView),
}

impl View for WorkerState {
    type V = WorkerView;

    open spec fn view(&self) -> WorkerView {
        match self {
            WorkerState::Init(init) => WorkerView::Init(*init),
            WorkerState::Ready(ready) => WorkerView::Ready(ready.buffers, ready.state@),
        }
    }
}

/// What an optional [`WorkerState`] says.
pub open spec fn worker_view(w: Option<WorkerState>) -> Option<WorkerView> {
    match w {
        Some(w) => Some(w@),
        None => None,
    }
}

/// What an [`OpenNic`] says.
pub struct NicView {
    /// The channels.
    pub workers: Seq<Option<WorkerView>>,
    /// The number of queues in use.
    pub num_queues: u16,
}

impl View for OpenNic {
    type V = NicView;

    open spec fn view(&self) -> NicView {
        NicView {
            workers: self.workers@.map_values(|w: Option<WorkerState>| worker_view(w)),
            num_queues: self.num_queues,
        }
    }
}

/// The transactions of completions.
pub open spec fn completion_ids(completions: Seq<PendingTxCompletion>) -> Seq<u64> {
    completions.map_values(|c: PendingTxCompletion| c.transaction_id)
}

/// The transactions of the packets that are in flight.
pub open spec fn inflight_ids(packets: Seq<PendingTxPacket>) -> Seq<u64>
    decreases packets.len(),
{
    if packets.len() == 0 {
        Seq::empty()
    } else if packets.last().pending_packet_count > 0 {
        inflight_ids(packets.drop_last()).push(packets.last().transaction_id)
    } else {
        inflight_ids(packets.drop_last())
    }
}

/// What is kept of a channel. Packets in flight count as dropped, but are still
/// completed to the guest.
pub open spec fn saved_channel(w: WorkerView) -> SavedChannelView {
    match w {
        WorkerView::Ready(_, active) => SavedChannelView {
            pending_tx_completions: completion_ids(active.pending_tx_completions) + inflight_ids(
                active.pending_tx_packets,
            ),
            in_use_rx: active.rx_groups,
        },
        WorkerView::Init(_) => SavedChannelView {
            pending_tx_completions: Seq::empty(),
            in_use_rx: Seq::empty(),
        },
    }
}

/// What is kept of an optional channel.
pub open spec fn saved_worker(w: Option<WorkerView>) -> Option<SavedChannelView> {
    match w {
        Some(w) => Some(saved_channel(w)),
        None => None,
    }
}

/// What is kept of a link state change.
pub open spec fn saved_link_action(action: PendingLinkAction) -> Option<bool> {
    match action {
        PendingLinkAction::Default => None,
        PendingLinkAction::Active(up) => Some(up),
        PendingLinkAction::Delay(up) => Some(up),
    }
}

/// What is kept of a channel that is ready.
pub open spec fn saved_ready(
    buffers: ChannelBuffers,
    primary: PrimaryView,
    channels: Seq<Option<SavedChannelView>>,
) -> ReadyPrimaryView {
    ReadyPrimaryView {
        version: buffers.version.number(),
        receive_buffer: buffers.recv_buffer.spec_saved(),
        send_buffer: match buffers.send_buffer {
            Some(b) => Some(SavedSendBuffer { gpadl_id: b.gpadl_id }),
            None => None,
        },
        control_messages: primary.control_messages,
        rss_state: primary.rss_state,
        channels,
        ndis_version: buffers.ndis_version,
        ndis_config: buffers.ndis_config,
        rndis_state: primary.rndis_state,
        guest_vf_state: primary.guest_vf_state.spec_saved(),
        offload_config: primary.offload_config,
        pending_offload_change: primary.pending_offload_change,
        tx_spread_sent: primary.tx_spread_sent,
        guest_link_down: !primary.guest_link_up,
        pending_link_action: saved_link_action(primary.pending_link_action),
    }
}

/// What is kept of a channel that is being negotiated.
pub open spec fn saved_init(init: InitState) -> InitPrimary {
    InitPrimary {
        version: init.version.number(),
        ndis_config: init.ndis_config,
        ndis_version: init.ndis_version,
        receive_buffer: match init.recv_buffer {
            Some(b) => Some(b.spec_saved()),
            None => None,
        },
        send_buffer: match init.send_buffer {
            Some(b) => Some(SavedSendBuffer { gpadl_id: b.gpadl_id }),
            None => None,
        },
    }
}

/// What is kept of an adapter.
pub open spec fn saved_nic(nic: NicView) -> SavedView {
    match nic.workers[0]->0 {
        WorkerView::Init(None) => SavedView::Version,
        WorkerView::Init(Some(init)) => SavedView::Init(saved_init(init)),
        WorkerView::Ready(buffers, active) => SavedView::Ready(
            saved_ready(
                buffers,
                active.primary->0,
                nic.workers.take(nic.num_queues as int).map_values(
                    |w: Option<WorkerView>| saved_worker(w),
                ),
            ),
        ),
    }
}

fn save_channel(w: &WorkerState) -> (c: SavedChannel)
    ensures
        c@ == saved_channel(w@),
{
    match w {
        WorkerState::Ready(ready) => {
            let mut ids: Vec<u64> = Vec::new();
            let completions = &ready.state.pending_tx_completions;
            let packets = &ready.state.pending_tx_packets;
            let mut i: usize = 0;
            while i < completions.len()
                invariant
                    i <= completions@.len(),
                    ids@ == completion_ids(completions@.take(i as int)),
                decreases completions@.len() - i,
            {
                ids.push(completions[i].transaction_id);
                i = i + 1;
                assert(ids@ =~= completion_ids(completions@.take(i as int)));
            }
            assert(completions@.take(i as int) =~= completions@);
            let ghost head = ids@;
            let mut k: usize = 0;
            assert(packets@.take(0) =~= Seq::empty());
            assert(ids@ =~= head + inflight_ids(packets@.take(0)));
            while k < packets.len()
                invariant
                    k <= packets@.len(),
                    ids@ == head + inflight_ids(packets@.take(k as int)),
                decreases packets@.len() - k,
            {
                let p = packets[k];
                if p.pending_packet_count > 0 {
                    ids.push(p.transaction_id);
                }
                k = k + 1;
                assert(packets@.take(k as int).drop_last() =~= packets@.take(k - 1));
                assert(packets@.take(k as int).last() == p);
                assert(ids@ =~= head + inflight_ids(packets@.take(k as int)));
            }
            assert(packets@.take(k as int) =~= packets@);
            SavedChannel {
                pending_tx_completions: ids,
                in_use_rx: ready.state.rx_bufs.allocated(),
            }
        },
        WorkerState::Init(_) => {
            let c = SavedChannel { pending_tx_completions: Vec::new(), in_use_rx: Vec::new() };
            assert(c@.in_use_rx =~= Seq::empty());
            c
        },
    }
}

fn save_messages(messages: &std::collections::VecDeque<ControlMessage>) -> (r: Vec<
    IncomingControlMessage,
>)
    ensures
        r@.map_values(|m: IncomingControlMessage| m@) == messages@.map_values(
            |m: ControlMessage| m@,
        ),
{
    let mut out: Vec<IncomingControlMessage> = Vec::new();
    let mut i: usize = 0;
    while i < messages.len()
        invariant
            i <= messages@.len(),
            out@.len() == i,
            forall|k: int| 0 <= k < i ==> (#[trigger] out@[k])@ == messages@[k]@,
        decreases messages@.len() - i,
    {
        let m = &messages[i];
        out.push(
            IncomingControlMessage {
                message_type: m.message_type,
                data: crate::wire::copy_bytes(m.data.as_slice(), 0, m.data.len()),
            },
        );
        assert(m.data@.subrange(0, m.data@.len() as int) =~= m.data@);
        assert(out@[i as int]@ == messages@[i as int]@);
        i = i + 1;
    }
    assert(out@.map_values(|m: IncomingControlMessage| m@) =~= messages@.map_values(
        |m: ControlMessage| m@,
    ));
    out
}

fn save_rss(rss: &Option<RssState>) -> (r: Option<SavedRss>)
    ensures
        saved_rss_view(r) == crate::netvsp::state::rss_view(*rss),
{
    match rss {
        Some(rss) => {
            let key = crate::wire::copy_bytes(rss.key.as_slice(), 0, rss.key.len());
            assert(rss.key@.subrange(0, rss.key@.len() as int) =~= rss.key@);
            let mut table: Vec<u16> = Vec::new();
            let mut i: usize = 0;
            while i < rss.indirection_table.len()
                invariant
                    i <= rss.indirection_table@.len(),
                    table@ == rss.indirection_table@.take(i as int),
                decreases rss.indirection_table@.len() - i,
            {
                table.push(rss.indirection_table[i]);
                i = i + 1;
                assert(table@ =~= rss.indirection_table@.take(i as int));
            }
            assert(rss.indirection_table@.take(i as int) =~= rss.indirection_table@);
            Some(SavedRss { key, indirection_table: table })
        },
        None => None,
    }
}

fn save_ready(ready: &ReadyState, primary: &PrimaryChannelState, channels: Vec<
    Option<SavedChannel>,
>) -> (r: ReadyPrimary)
    ensures
        r@ == saved_ready(
            ready.buffers,
            primary@,
            channels@.map_values(|c: Option<SavedChannel>| channel_view(c)),
        ),
{
    ReadyPrimary {
        version: ready.buffers.version.as_u32(),
        receive_buffer: ready.buffers.recv_buffer.saved_state(),
        send_buffer: match ready.buffers.send_buffer {
            Some(b) => Some(SavedSendBuffer { gpadl_id: b.gpadl_id }),
            None => None,
        },
        control_messages: save_messages(&primary.control_messages),
        rss_state: save_rss(&primary.rss_state),
        channels,
        ndis_version: ready.buffers.ndis_version,
        ndis_config: ready.buffers.ndis_config,
        rndis_state: primary.rndis_state,
        guest_vf_state: primary.guest_vf_state.saved(),
        offload_config: primary.offload_config,
        pending_offload_change: primary.pending_offload_change,
        tx_spread_sent: primary.tx_spread_sent,
        guest_link_down: !primary.guest_link_up,
        pending_link_action: match primary.pending_link_action {
            PendingLinkAction::Default => None,
            PendingLinkAction::Active(up) => Some(up),
            PendingLinkAction::Delay(up) => Some(up),
        },
    }
}

/// Saves the adapter; `None` when its primary channel is closed.
pub fn saved_state(nic: &Option<OpenNic>) -> (s: SavedState)
    requires
        nic matches Some(nic) ==> nic.wf(),
    ensures
        match nic {
            Some(nic) => s.open is Some && s.open->0@ == saved_nic(nic@),
            None => s.open is None,
        },
{
    let nic = match nic {
        Some(nic) => nic,
        None => return SavedState { open: None },
    };
    let worker = match &nic.workers[0] {
        Some(worker) => worker,
        None => return SavedState { open: None },
    };
    assert(nic@.workers[0] == Some(worker@));
    let primary = match worker {
        WorkerState::Init(None) => Primary::Version,
        WorkerState::Init(Some(init)) => Primary::Init(
            InitPrimary {
                version: init.version.as_u32(),
                ndis_config: init.ndis_config,
                ndis_version: init.ndis_version,
                receive_buffer: match init.recv_buffer {
                    Some(b) => Some(b.saved_state()),
                    None => None,
                },
                send_buffer: match init.send_buffer {
                    Some(b) => Some(SavedSendBuffer { gpadl_id: b.gpadl_id }),
                    None => None,
                },
            },
        ),
        WorkerState::Ready(ready) => {
            let primary = match &ready.state.primary {
                Some(primary) => primary,
                None => return SavedState { open: None },
            };
            let mut channels: Vec<Option<SavedChannel>> = Vec::new();
            let n: usize = nic.num_queues as usize;
            let mut i: usize = 0;
            while i < n
                invariant
                    i <= n,
                    n <= nic.workers@.len(),
                    channels@.len() == i,
                    forall|k: int|
                        0 <= k < i ==> channel_view(#[trigger] channels@[k]) == saved_worker(
                            worker_view(nic.workers@[k]),
                        ),
                decreases n - i,
            {
                match &nic.workers[i] {
                    Some(w) => {
                        channels.push(Some(save_channel(w)));
                    },
                    None => {
                        channels.push(None);
                    },
                }
                assert(channel_view(channels@[i as int]) == saved_worker(
                    worker_view(nic.workers@[i as int]),
                ));
                i = i + 1;
            }
            assert(channels@.map_values(|c: Option<SavedChannel>| channel_view(c))
                =~= nic@.workers.take(nic.num_queues as int).map_values(
                |w: Option<WorkerView>| saved_worker(w),
            ));
            Primary::Ready(save_ready(ready, primary, channels))
        },
    };
    SavedState { open: Some(primary) }
}

/// What a restore depends on besides the saved state.
pub struct RestoreEnv {
    /// The length of the RSS indirection table of the endpoint.
    pub indirection_table_size: u16,
    /// The smallest suballocation of a receive buffer.
    pub min_sub_allocation_size: u32,
}

/// A saved receive buffer that is used again.
pub open spec fn restored_receive_buffer(
    map: Seq<Gpadl>,
    env: RestoreEnv,
    b: SavedReceiveBuffer,
) -> Result<ReceiveBuffer, BufferError> {
    ReceiveBuffer::made(map, b.gpadl_id, b.id, b.sub_allocation_size, env.min_sub_allocation_size)
}

/// An optional part: an error only where there is one.
pub open spec fn restored_init(map: Seq<Gpadl>, env: RestoreEnv, init: InitPrimary) -> Result<
    InitState,
    NetRestoreError,
> {
    match version_with(init.version) {
        None => Err(NetRestoreError::UnsupportedVersion(init.version)),
        Some(version) => {
            let recv = match init.receive_buffer {
                Some(b) => Some(restored_receive_buffer(map, env, b)),
                None => None,
            };
            let send = match init.send_buffer {
                Some(b) => Some(SendBuffer::made(map, b.gpadl_id)),
                None => None,
            };
            match (recv, send) {
                (Some(Err(err)), _) => Err(NetRestoreError::ReceiveBuffer(err)),
                (_, Some(Err(err))) => Err(NetRestoreError::ReceiveBuffer(err)),
                _ => Ok(
                    InitState {
                        version,
                        ndis_config: init.ndis_config,
                        ndis_version: init.ndis_version,
                        recv_buffer: match recv {
                            Some(r) => Some(r->Ok_0),
                            None => None,
                        },
                        send_buffer: match send {
                            Some(s) => Some(s->Ok_0),
                            None => None,
                        },
                    },
                ),
            }
        },
    }
}

/// The buffers of a channel that was ready.
pub open spec fn restored_buffers(
    map: Seq<Gpadl>,
    env: RestoreEnv,
    ready: ReadyPrimaryView,
) -> Result<ChannelBuffers, NetRestoreError> {
    let init = restored_init(
        map,
        env,
        InitPrimary {
            version: ready.version,
            ndis_config: Some(ready.ndis_config),
            ndis_version: Some(ready.ndis_version),
            receive_buffer: Some(ready.receive_buffer),
            send_buffer: ready.send_buffer,
        },
    );
    match init {
        Err(err) => Err(err),
        Ok(init) => Ok(
            ChannelBuffers {
                version: init.version,
                recv_buffer: init.recv_buffer->0,
                send_buffer: init.send_buffer,
                ndis_version: ready.ndis_version,
                ndis_config: ready.ndis_config,
            },
        ),
    }
}

/// The channel `i` of an adapter that was ready.
pub open spec fn restored_channel(
    env: RestoreEnv,
    ready: ReadyPrimaryView,
    buffers: ChannelBuffers,
    i: int,
) -> Result<Option<WorkerView>, NetRestoreError> {
    match ready.channels[i] {
        None => Ok(None),
        Some(channel) => match group_conflict(buffers.recv_buffer.count, channel.in_use_rx, 0) {
            Some(id) => Err(NetRestoreError::SuballocationMisconfigured(SubAllocationInUse(id))),
            None => {
                let active = ActiveView::restored(
                    buffers.recv_buffer.count,
                    channel.pending_tx_completions,
                    channel.in_use_rx,
                );
                if i == 0 {
                    match PrimaryChannelState::spec_restore(
                        ready.guest_vf_state,
                        ready.rndis_state,
                        ready.offload_config,
                        ready.pending_offload_change,
                        ready.channels.len() as u16,
                        env.indirection_table_size,
                        channel.in_use_rx,
                        ready.control_messages,
                        ready.rss_state,
                        ready.tx_spread_sent,
                        ready.guest_link_down,
                        ready.pending_link_action,
                    ) {
                        Err(err) => Err(err),
                        Ok(primary) => Ok(
                            Some(
                                WorkerView::Ready(
                                    buffers,
                                    ActiveView { primary: Some(primary), ..active },
                                ),
                            ),
                        ),
                    }
                } else {
                    Ok(Some(WorkerView::Ready(buffers, active)))
                }
            },
        },
    }
}

/// The first `n` channels, or the first error.
pub open spec fn restored_channels(
    env: RestoreEnv,
    ready: ReadyPrimaryView,
    buffers: ChannelBuffers,
    n: nat,
) -> Result<Seq<Option<WorkerView>>, NetRestoreError>
    decreases n,
{
    if n == 0 {
        Ok(Seq::empty())
    } else {
        match restored_channels(env, ready, buffers, (n - 1) as nat) {
            Err(err) => Err(err),
            Ok(s) => match restored_channel(env, ready, buffers, n - 1) {
                Err(err) => Err(err),
                Ok(w) => Ok(s.push(w)),
            },
        }
    }
}

/// The adapter that was saved, or why it cannot be restored.
pub open spec fn restored_nic(map: Seq<Gpadl>, env: RestoreEnv, saved: SavedView) -> Result<
    NicView,
    NetRestoreError,
> {
    match saved {
        SavedView::Version => Ok(
            NicView { workers: seq![Some(WorkerView::Init(None))], num_queues: 1 },
        ),
        SavedView::Init(init) => match restored_init(map, env, init) {
            Err(err) => Err(err),
            Ok(init) => Ok(
                NicView { workers: seq![Some(WorkerView::Init(Some(init)))], num_queues: 1 },
            ),
        },
        SavedView::Ready(ready) => match restored_buffers(map, env, ready) {
            Err(err) => Err(err),
            Ok(buffers) => match restored_channels(env, ready, buffers, ready.channels.len()) {
                Err(err) => Err(err),
                Ok(workers) => Ok(
                    NicView { workers, num_queues: ready.channels.len() as u16 },
                ),
            },
        },
    }
}

/// Which channels have to be opened to restore a saved adapter.
pub fn open_channels(saved: &SavedState) -> (open: Vec<bool>)
    ensures
        open@ == match saved.open {
            None => seq![false],
            Some(Primary::Ready(ready)) => ready@.channels.map_values(
                |c: Option<SavedChannelView>| c is Some,
            ),
            Some(_) => seq![true],
        },
{
    let mut open: Vec<bool> = Vec::new();
    match &saved.open {
        None => {
            open.push(false);
            assert(open@ =~= seq![false]);
        },
        Some(Primary::Ready(ready)) => {
            let mut i: usize = 0;
            while i < ready.channels.len()
                invariant
                    i <= ready.channels@.len(),
                    open@.len() == i,
                    forall|k: int| 0 <= k < i ==> open@[k] == ready.channels@[k] is Some,
                decreases ready.channels@.len() - i,
            {
                open.push(ready.channels[i].is_some());
                i = i + 1;
            }
            assert(open@ =~= ready@.channels.map_values(|c: Option<SavedChannelView>| c is Some));
        },
        Some(_) => {
            open.push(true);
            assert(open@ =~= seq![true]);
        },
    }
    open
}

fn restore_init(map: &Vec<Gpadl>, env: &RestoreEnv, init: InitPrimary) -> (r: Result<
    InitState,
    NetRestoreError,
>)
    requires
        env.min_sub_allocation_size >= 1,
    ensures
        r == restored_init(map@, *env, init),
{
    let version = match check_version(init.version) {
        Some(version) => version,
        None => return Err(NetRestoreError::UnsupportedVersion(init.version)),
    };
    let recv_buffer = match init.receive_buffer {
        Some(b) => match ReceiveBuffer::new(
            map,
            b.gpadl_id,
            b.id,
            b.sub_allocation_size,
            env.min_sub_allocation_size,
        ) {
            Ok(b) => Some(b),
            Err(err) => return Err(NetRestoreError::ReceiveBuffer(err)),
        },
        None => None,
    };
    let send_buffer = match init.send_buffer {
        Some(b) => match SendBuffer::new(map, b.gpadl_id) {
            Ok(b) => Some(b),
            Err(err) => return Err(NetRestoreError::ReceiveBuffer(err)),
        },
        None => None,
    };
    Ok(
        InitState {
            version,
            ndis_config: init.ndis_config,
            ndis_version: init.ndis_version,
            recv_buffer,
            send_buffer,
        },
    )
}

/// The saved adapter fits in memory, and its primary channel was open.
pub open spec fn restorable(saved: SavedView) -> bool {
    match saved {
        SavedView::Ready(ready) => {
            &&& 1 <= ready.channels.len() <= u16::MAX
            &&& ready.channels[0] is Some
            &&& total_len(ready.control_messages) <= usize::MAX
        },
        _ => true,
    }
}

fn restore_ready(map: &Vec<Gpadl>, env: &RestoreEnv, ready: ReadyPrimary) -> (r: Result<
    OpenNic,
    NetRestoreError,
>)
    requires
        env.min_sub_allocation_size >= 1,
        restorable(SavedView::Ready(ready@)),
    ensures
        match restored_nic(map@, *env, SavedView::Ready(ready@)) {
            Ok(nic) => r is Ok && r->Ok_0@ == nic && r->Ok_0.wf(),
            Err(err) => r == Err::<OpenNic, NetRestoreError>(err),
        },
{
    let ghost view = ready@;
    let init = match restore_init(
        map,
        env,
        InitPrimary {
            version: ready.version,
            ndis_config: Some(ready.ndis_config),
            ndis_version: Some(ready.ndis_version),
            receive_buffer: Some(ready.receive_buffer),
            send_buffer: ready.send_buffer,
        },
    ) {
        Ok(init) => init,
        Err(err) => return Err(err),
    };
    let recv_buffer = match init.recv_buffer {
        Some(recv_buffer) => recv_buffer,
        None => return Err(NetRestoreError::ReceiveBuffer(BufferError::UnknownGpadlId)),
    };
    let buffers = ChannelBuffers {
        version: init.version,
        recv_buffer,
        send_buffer: init.send_buffer,
        ndis_version: ready.ndis_version,
        ndis_config: ready.ndis_config,
    };
    proof {
        assert(Ok::<ChannelBuffers, NetRestoreError>(buffers) == restored_buffers(
            map@,
            *env,
            view,
        ));
        lemma_error_persists(*env, view, buffers, 1, view.channels.len());
    }
    let ReadyPrimary {
        control_messages,
        rss_state,
        channels,
        rndis_state,
        guest_vf_state,
        offload_config,
        pending_offload_change,
        tx_spread_sent,
        guest_link_down,
        pending_link_action,
        ..
    } = ready;
    let mut workers: Vec<Option<WorkerState>> = Vec::new();
    assert(view.channels[0] == channel_view(channels@[0]));
    reveal_with_fuel(restored_channels, 2);
    let first = match &channels[0] {
        Some(first) => first,
        None => return Err(NetRestoreError::InvalidRssKeySize),
    };
    let mut active = match ActiveState::restore(first, buffers.recv_buffer.count) {
        Ok(active) => active,
        Err(err) => return Err(err),
    };
    let primary = match PrimaryChannelState::restore(
        guest_vf_state,
        rndis_state,
        offload_config,
        pending_offload_change,
        channels.len() as u16,
        env.indirection_table_size,
        &active.rx_bufs,
        control_messages,
        rss_state,
        tx_spread_sent,
        guest_link_down,
        pending_link_action,
    ) {
        Ok(primary) => primary,
        Err(err) => return Err(err),
    };
    active.primary = Some(primary);
    workers.push(Some(WorkerState::Ready(ReadyState { buffers, state: active })));
    assert(workers@.map_values(|w: Option<WorkerState>| worker_view(w)) =~= restored_channels(
        *env,
        view,
        buffers,
        1,
    )->Ok_0);
    let mut i: usize = 1;
    while i < channels.len()
        invariant
            1 <= i <= channels@.len(),
            view == ready@,
            view.channels == channels@.map_values(|c: Option<SavedChannel>| channel_view(c)),
            workers@.len() == i,
            workers@[0] is Some,
            workers@[0]->0 matches WorkerState::Ready(ready) && ready.state.primary is Some,
            restored_channels(*env, view, buffers, i as nat) == Ok::<
                Seq<Option<WorkerView>>,
                NetRestoreError,
            >(workers@.map_values(|w: Option<WorkerState>| worker_view(w))),
            match restored_channels(*env, view, buffers, channels@.len()) {
                Ok(_) => true,
                Err(err) => restored_nic(map@, *env, SavedView::Ready(view)) == Err::<
                    NicView,
                    NetRestoreError,
                >(err),
            },
        decreases channels@.len() - i,
    {
        assert(view.channels[i as int] == channel_view(channels@[i as int]));
        let ghost before = workers@;
        proof {
            lemma_error_persists(*env, view, buffers, (i + 1) as nat, channels@.len());
        }
        match &channels[i] {
            Some(channel) => {
                match ActiveState::restore(channel, buffers.recv_buffer.count) {
                    Ok(state) => {
                        workers.push(Some(WorkerState::Ready(ReadyState { buffers, state })));
                    },
                    Err(err) => return Err(err),
                }
            },
            None => {
                workers.push(None);
            },
        }
        assert(workers@.map_values(|w: Option<WorkerState>| worker_view(w)) =~= before.map_values(
            |w: Option<WorkerState>| worker_view(w),
        ).push(worker_view(workers@[i as int])));
        i = i + 1;
    }
    let num_queues: u16 = channels.len() as u16;
    Ok(OpenNic { workers, num_queues })
}

/// Restores a saved adapter on the memory that the guest has shared; `None`
/// when its primary channel was closed.
pub fn restore_state(map: &Vec<Gpadl>, env: &RestoreEnv, saved: SavedState) -> (r: Result<
    Option<OpenNic>,
    NetRestoreError,
>)
    requires
        env.min_sub_allocation_size >= 1,
        saved.open matches Some(primary) ==> restorable(primary@),
    ensures
        match saved.open {
            None => r == Ok::<Option<OpenNic>, NetRestoreError>(None),
            Some(primary) => match restored_nic(map@, *env, primary@) {
                Ok(nic) => {
                    &&& r is Ok
                    &&& r->Ok_0 is Some
                    &&& r->Ok_0->0@ == nic
                    &&& r->Ok_0->0.wf()
                },
                Err(err) => r == Err::<Option<OpenNic>, NetRestoreError>(err),
            },
        },
{
    let primary = match saved.open {
        None => return Ok(None),
        Some(primary) => primary,
    };
    let mut workers: Vec<Option<WorkerState>> = Vec::new();
    match primary {
        Primary::Version => {
            workers.push(Some(WorkerState::Init(None)));
            let nic = OpenNic { workers, num_queues: 1 };
            assert(nic@.workers =~= seq![Some(WorkerView::Init(None))]);
            Ok(Some(nic))
        },
        Primary::Init(init) => {
            let init = match restore_init(map, env, init) {
                Ok(init) => init,
                Err(err) => return Err(err),
            };
            workers.push(Some(WorkerState::Init(Some(init))));
            let nic = OpenNic { workers, num_queues: 1 };
            assert(nic@.workers =~= seq![Some(WorkerView::Init(Some(init)))]);
            Ok(Some(nic))
        },
        Primary::Ready(ready) => match restore_ready(map, env, ready) {
            Ok(nic) => Ok(Some(nic)),
            Err(err) => Err(err),
        },
    }
}

proof fn lemma_error_persists(
    env: RestoreEnv,
    ready: ReadyPrimaryView,
    buffers: ChannelBuffers,
    n: nat,
    m: nat,
)
    requires
        n <= m,
    ensures
        restored_channels(env, ready, buffers, n) matches Err(err) ==> restored_channels(
            env,
            ready,
            buffers,
            m,
        ) == Err::<Seq<Option<WorkerView>>, NetRestoreError>(err),
    decreases m - n,
{
    if n < m {
        lemma_error_persists(env, ready, buffers, n, (m - 1) as nat);
    }
}

proof fn lemma_restored_channels(
    env: RestoreEnv,
    ready: ReadyPrimaryView,
    buffers: ChannelBuffers,
    n: nat,
)
    requires
        restored_channels(env, ready, buffers, n) is Ok,
    ensures
        ({
            let s = restored_channels(env, ready, buffers, n)->Ok_0;
            &&& s.len() == n
            &&& forall|i: int|
                0 <= i < n ==> restored_channel(env, ready, buffers, i) == Ok::<
                    Option<WorkerView>,
                    NetRestoreError,
                >(#[trigger] s[i])
        }),
    decreases n,
{
    if n > 0 {
        lemma_restored_channels(env, ready, buffers, (n - 1) as nat);
    }
}

proof fn lemma_nothing_inflight(packets: Seq<PendingTxPacket>)
    requires
        forall|i: int| 0 <= i < packets.len() ==> packets[i].pending_packet_count == 0,
    ensures
        inflight_ids(packets) == Seq::<u64>::empty(),
    decreases packets.len(),
{
    if packets.len() > 0 {
        lemma_nothing_inflight(packets.drop_last());
    }
}

/// Nothing is lost or added by a restore: saving a restored adapter gives the
/// state from which it was restored.
pub proof fn save_gives_back_restored_state(map: Seq<Gpadl>, env: RestoreEnv, saved: SavedView)
    requires
        restorable(saved),
        restored_nic(map, env, saved) is Ok,
    ensures
        saved_nic(restored_nic(map, env, saved)->Ok_0) == saved,
{
    let nic = restored_nic(map, env, saved)->Ok_0;
    if let SavedView::Ready(ready) = saved {
        let buffers = restored_buffers(map, env, ready)->Ok_0;
        lemma_restored_channels(env, ready, buffers, ready.channels.len());
        assert(nic.workers.take(nic.num_queues as int) =~= nic.workers);
        assert forall|i: int| 0 <= i < ready.channels.len() implies saved_worker(
            #[trigger] nic.workers[i],
        ) == ready.channels[i] by {
            if let Some(channel) = ready.channels[i] {
                let active = ActiveView::restored(
                    buffers.recv_buffer.count,
                    channel.pending_tx_completions,
                    channel.in_use_rx,
                );
                lemma_nothing_inflight(active.pending_tx_packets);
                assert(completion_ids(active.pending_tx_completions) + inflight_ids(
                    active.pending_tx_packets,
                ) =~= channel.pending_tx_completions);
            }
        }
        assert(nic.workers.map_values(|w: Option<WorkerView>| saved_worker(w))
            =~= ready.channels);
        assert(restored_channel(env, ready, buffers, 0) == Ok::<
            Option<WorkerView>,
            NetRestoreError,
        >(nic.workers[0]));
    }
}

/// Whether the buffers of a channel are what their parts of the guest's memory
/// give, where the adapter is restored.
pub open spec fn buffers_mapped(
    map: Seq<Gpadl>,
    env: RestoreEnv,
    recv_buffer: Option<ReceiveBuffer>,
    send_buffer: Option<SendBuffer>,
) -> bool {
    &&& recv_buffer matches Some(b) ==> restored_receive_buffer(map, env, b.spec_saved()) == Ok::<
        ReceiveBuffer,
        BufferError,
    >(b)
    &&& send_buffer matches Some(b) ==> SendBuffer::made(map, b.gpadl_id) == Ok::<
        SendBuffer,
        BufferError,
    >(b)
}

/// Whether an adapter is in order, and the guest and the endpoint where it is
/// restored are as they were: the same memory is mapped, and the RSS table has the
/// same length.
pub open spec fn unchanged_around(map: Seq<Gpadl>, env: RestoreEnv, nic: NicView) -> bool {
    &&& 1 <= nic.num_queues <= nic.workers.len()
    &&& nic.workers[0] is Some
    &&& match nic.workers[0]->0 {
        WorkerView::Init(None) => true,
        WorkerView::Init(Some(init)) => buffers_mapped(
            map,
            env,
            init.recv_buffer,
            init.send_buffer,
        ),
        WorkerView::Ready(buffers, active) => {
            &&& buffers_mapped(map, env, Some(buffers.recv_buffer), buffers.send_buffer)
            &&& active.primary is Some
            &&& active.primary->0.rss_state matches Some(rss) ==> rss.key.len() == 40
                && rss.indirection_table.len() == env.indirection_table_size
            &&& forall|i: int|
                0 <= i < nic.num_queues ==> (#[trigger] nic.workers[i] matches Some(
                    WorkerView::Ready(_, a),
                ) ==> groups_ok(buffers.recv_buffer.count, a.rx_groups))
        },
    }
}

proof fn lemma_no_group_conflict(count: u32, groups: Seq<Seq<u32>>, from: int)
    requires
        groups_ok(count, groups),
        0 <= from,
    ensures
        group_conflict(count, groups, from) is None,
    decreases groups.len() - from,
{
    if from < groups.len() {
        lemma_group_fits(count, groups, from, 0);
        lemma_no_group_conflict(count, groups, from + 1);
    }
}

proof fn lemma_channels_restored(
    env: RestoreEnv,
    ready: ReadyPrimaryView,
    buffers: ChannelBuffers,
    n: nat,
)
    requires
        n <= ready.channels.len(),
        forall|i: int| 0 <= i < n ==> #[trigger] restored_channel(env, ready, buffers, i) is Ok,
    ensures
        restored_channels(env, ready, buffers, n) is Ok,
    decreases n,
{
    if n > 0 {
        lemma_channels_restored(env, ready, buffers, (n - 1) as nat);
        assert(restored_channel(env, ready, buffers, n - 1) is Ok);
    }
}

/// An adapter survives being saved and restored: where the guest and the endpoint
/// are as they were, the restore succeeds. A negotiation goes on where it was. A
/// channel keeps its buffers, those that the guest holds, and the transactions
/// that are not completed yet; the primary one keeps what was negotiated and what
/// the guest was told.
pub proof fn saved_adapter_is_restored(map: Seq<Gpadl>, env: RestoreEnv, nic: NicView)
    requires
        unchanged_around(map, env, nic),
    ensures
        ({
            let r = restored_nic(map, env, saved_nic(nic));
            &&& r is Ok
            &&& match nic.workers[0]->0 {
                WorkerView::Init(init) => r->Ok_0.workers[0] == Some(WorkerView::Init(init)),
                WorkerView::Ready(buffers, active) => {
                    let p = active.primary->0;
                    &&& r->Ok_0.num_queues == nic.num_queues
                    &&& r->Ok_0.workers.len() == nic.num_queues
                    &&& r->Ok_0.workers[0] matches Some(WorkerView::Ready(_, again)) && {
                        let q = again.primary->0;
                        &&& again.primary is Some
                        &&& q.guest_vf_state == PrimaryChannelGuestVfState::Restoring(
                            p.guest_vf_state.spec_saved(),
                        )
                        &&& q.control_messages == p.control_messages
                        &&& q.rss_state == p.rss_state
                        &&& q.rndis_state == p.rndis_state
                        &&& q.offload_config == p.offload_config
                        &&& q.pending_offload_change == p.pending_offload_change
                        &&& q.tx_spread_sent == p.tx_spread_sent
                        &&& q.guest_link_up == p.guest_link_up
                        &&& saved_link_action(q.pending_link_action) == saved_link_action(
                            p.pending_link_action,
                        )
                    }
                    &&& forall|i: int|
                        0 <= i < nic.num_queues ==> match #[trigger] nic.workers[i] {
                            Some(WorkerView::Ready(_, a)) => {
                                &&& r->Ok_0.workers[i] matches Some(WorkerView::Ready(b, again))
                                &&& b == buffers
                                &&& again.rx_groups == a.rx_groups
                                &&& completion_ids(again.pending_tx_completions)
                                    == completion_ids(a.pending_tx_completions) + inflight_ids(
                                    a.pending_tx_packets,
                                )
                            },
                            Some(WorkerView::Init(_)) => r->Ok_0.workers[i] is Some,
                            None => r->Ok_0.workers[i] is None,
                        }
                },
            }
        }),
{
    if let WorkerView::Ready(buffers, active) = nic.workers[0]->0 {
        let saved = saved_nic(nic);
        let ready = saved->Ready_0;
        assert(restored_buffers(map, env, ready) == Ok::<ChannelBuffers, NetRestoreError>(buffers));
        assert forall|i: int| 0 <= i < nic.num_queues implies #[trigger] restored_channel(
            env,
            ready,
            buffers,
            i,
        ) is Ok by {
            assert(ready.channels[i] == saved_worker(nic.workers[i]));
            match nic.workers[i] {
                Some(WorkerView::Ready(_, a)) => {
                    lemma_no_group_conflict(buffers.recv_buffer.count, a.rx_groups, 0);
                },
                Some(WorkerView::Init(_)) => {
                    lemma_no_group_conflict(buffers.recv_buffer.count, Seq::empty(), 0);
                },
                None => {},
            }
        }
        lemma_channels_restored(env, ready, buffers, ready.channels.len());
        lemma_restored_channels(env, ready, buffers, ready.channels.len());
        let r = restored_nic(map, env, saved)->Ok_0;
        assert forall|i: int| 0 <= i < nic.num_queues implies match #[trigger] nic.workers[i] {
            Some(WorkerView::Ready(_, a)) => {
                &&& r.workers[i] matches Some(WorkerView::Ready(b, again))
                &&& b == buffers
                &&& again.rx_groups == a.rx_groups
                &&& completion_ids(again.pending_tx_completions) == completion_ids(
                    a.pending_tx_completions,
                ) + inflight_ids(a.pending_tx_packets)
            },
            Some(WorkerView::Init(_)) => r.workers[i] is Some,
            None => r.workers[i] is None,
        } by {
            assert(ready.channels[i] == saved_worker(nic.workers[i]));
            assert(restored_channel(env, ready, buffers, i) == Ok::<
                Option<WorkerView>,
                NetRestoreError,
            >(r.workers[i]));
            if let Some(WorkerView::Ready(_, a)) = nic.workers[i] {
                let again = r.workers[i]->0->Ready_1;
                assert(completion_ids(again.pending_tx_completions) =~= completion_ids(
                    a.pending_tx_completions,
                ) + inflight_ids(a.pending_tx_packets));
            }
        }
        assert(ready.channels[0] == saved_worker(nic.workers[0]));
        assert(restored_channel(env, ready, buffers, 0) == Ok::<
            Option<WorkerView>,
            NetRestoreError,
        >(r.workers[0]));
    }
}

/// No packet of the guest stays without a completion: those that wait are kept first, in their
/// order, and then those in flight, in the order of their slots. The buffers that the guest
/// holds are kept as they are. A channel that is being negotiated owes nothing.
pub proof fn save_keeps_completions(
    b: ChannelBuffers,
    a: ActiveView,
    init: Option<InitState>,
    i: int,
)
    ensures
        ({
            let c = saved_channel(WorkerView::Ready(b, a));
            let waiting = a.pending_tx_completions.len() as int;
            let flying = a.pending_tx_packets.filter(
                |p: PendingTxPacket| p.pending_packet_count > 0,
            );
            &&& c.pending_tx_completions.len() == waiting + flying.len()
            &&& 0 <= i < waiting ==> c.pending_tx_completions[i]
                == a.pending_tx_completions[i].transaction_id
            &&& 0 <= i < flying.len() ==> c.pending_tx_completions[waiting + i]
                == flying[i].transaction_id
            &&& c.in_use_rx == a.rx_groups
        }),
        saved_channel(WorkerView::Init(init)).pending_tx_completions.len() == 0,
        saved_channel(WorkerView::Init(init)).in_use_rx.len() == 0,
{
    lemma_inflight_ids(a.pending_tx_packets);
}

proof fn lemma_inflight_ids(packets: Seq<PendingTxPacket>)
    ensures
        ({
            let flying = packets.filter(|p: PendingTxPacket| p.pending_packet_count > 0);
            &&& inflight_ids(packets).len() == flying.len()
            &&& forall|i: int|
                0 <= i < flying.len() ==> #[trigger] inflight_ids(packets)[i]
                    == flying[i].transaction_id
        }),
    decreases packets.len(),
{
    reveal(Seq::filter);
    if packets.len() > 0 {
        lemma_inflight_ids(packets.drop_last());
        let flying = packets.filter(|p: PendingTxPacket| p.pending_packet_count > 0);
        let before = inflight_ids(packets.drop_last());
        assert forall|i: int| 0 <= i < flying.len() implies #[trigger] inflight_ids(packets)[i]
            == flying[i].transaction_id by {
            if i < before.len() {
                assert(inflight_ids(packets)[i] == before[i]);
            }
        }
    }
}

/// What is kept of a channel that is ready: what was negotiated, the queued control messages,
/// and what the guest was told. A change of the link that the guest does not know of yet is
/// kept, delayed or not.
pub proof fn save_keeps_negotiation(
    b: ChannelBuffers,
    p: PrimaryView,
    channels: Seq<Option<SavedChannelView>>,
    up: bool,
)
    ensures
        ({
            let s = saved_ready(b, p, channels);
            &&& s.version == b.version.number()
            &&& s.receive_buffer.gpadl_id == b.recv_buffer.gpadl_id
            &&& s.receive_buffer.id == b.recv_buffer.id
            &&& s.receive_buffer.sub_allocation_size == b.recv_buffer.sub_allocation_size
            &&& s.send_buffer is Some <==> b.send_buffer is Some
            &&& b.send_buffer matches Some(x) ==> s.send_buffer->0.gpadl_id == x.gpadl_id
            &&& s.control_messages == p.control_messages
            &&& s.rss_state == p.rss_state
            &&& s.channels == channels
            &&& s.ndis_version == b.ndis_version
            &&& s.ndis_config == b.ndis_config
            &&& s.rndis_state == p.rndis_state
            &&& s.offload_config == p.offload_config
            &&& s.pending_offload_change == p.pending_offload_change
            &&& s.tx_spread_sent == p.tx_spread_sent
            &&& s.guest_link_down != p.guest_link_up
            &&& p.pending_link_action == PendingLinkAction::Default ==> s.pending_link_action is None
            &&& p.pending_link_action == PendingLinkAction::Active(up) ==> s.pending_link_action
                == Some(up)
            &&& p.pending_link_action == PendingLinkAction::Delay(up) ==> s.pending_link_action
                == Some(up)
        }),
{
}

/// What is kept of a channel that is being negotiated is what was negotiated so far.
pub proof fn save_keeps_half_negotiation(init: InitState)
    ensures
        ({
            let s = saved_init(init);
            &&& s.version == init.version.number()
            &&& s.ndis_config == init.ndis_config
            &&& s.ndis_version == init.ndis_version
            &&& s.receive_buffer is Some <==> init.recv_buffer is Some
            &&& init.recv_buffer matches Some(b) ==> s.receive_buffer->0.gpadl_id == b.gpadl_id
                && s.receive_buffer->0.id == b.id && s.receive_buffer->0.sub_allocation_size
                == b.sub_allocation_size
            &&& s.send_buffer is Some <==> init.send_buffer is Some
            &&& init.send_buffer matches Some(b) ==> s.send_buffer->0.gpadl_id == b.gpadl_id
        }),
{
}

/// A saved adapter is refused for an unknown version, or for a buffer whose memory does not
/// serve any more. Otherwise it is where it was, on the same memory.
pub proof fn negotiation_is_restored(map: Seq<Gpadl>, env: RestoreEnv, init: InitPrimary)
    ensures
        ({
            let r = restored_init(map, env, init);
            let known = version_with(init.version);
            let recv_ok = init.receive_buffer matches Some(b) ==> ReceiveBuffer::made(
                map,
                b.gpadl_id,
                b.id,
                b.sub_allocation_size,
                env.min_sub_allocation_size,
            ) is Ok;
            let send_ok = init.send_buffer matches Some(b) ==> SendBuffer::made(
                map,
                b.gpadl_id,
            ) is Ok;
            &&& r is Ok <==> known is Some && recv_ok && send_ok
            &&& known is None ==> r == Err::<InitState, NetRestoreError>(
                NetRestoreError::UnsupportedVersion(init.version),
            )
            &&& known is Some && r is Err ==> r->Err_0 is ReceiveBuffer
            &&& r matches Ok(s) ==> {
                &&& Some(s.version) == known
                &&& s.ndis_config == init.ndis_config
                &&& s.ndis_version == init.ndis_version
                &&& s.recv_buffer is Some <==> init.receive_buffer is Some
                &&& s.send_buffer is Some <==> init.send_buffer is Some
                &&& init.receive_buffer matches Some(b) ==> s.recv_buffer->0.gpadl_id
                    == b.gpadl_id && s.recv_buffer->0.id == b.id
                    && s.recv_buffer->0.sub_allocation_size == b.sub_allocation_size
                &&& init.send_buffer matches Some(b) ==> s.send_buffer->0.gpadl_id == b.gpadl_id
            }
        }),
{
}

} // verus!
