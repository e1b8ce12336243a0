//! Negotiation of a primary channel.
use crate::netvsp::error::{PacketOrderError, WorkerError};
use crate::netvsp::guest_vf::NdisConfig;
use crate::netvsp::offload::OffloadConfig;
use crate::netvsp::outbox::{can_complete, completed, send_completion, Outbox};
use crate::netvsp::packet::PacketData;
use crate::netvsp::protocol::{
    check_version, fields, message, message_bytes, version_with, Version, INVALID_PROTOCOL_VERSION,
    MESSAGE1_TYPE_SEND_RECEIVE_BUFFER_COMPLETE, MESSAGE1_TYPE_SEND_SEND_BUFFER_COMPLETE,
    MESSAGE_TYPE_INIT_COMPLETE, PACKET_SIZE_V1, PACKET_SIZE_V61, SEND_BUFFER_SECTION_SIZE,
    STATUS_NONE, STATUS_SUCCESS,
};
use crate::netvsp::state::{
    ActiveState, ActiveView, ChannelBuffers, Gpadl, InitState, NdisVersion, PrimaryChannelState,
    ReceiveBuffer, SendBuffer,
};
use crate::wire::le32_list;
use vstd::prelude::*;

verus! {

/// The MTU, with the Ethernet header, of a guest that does not say otherwise.
pub const DEFAULT_MTU: u32 = 1514;

/// The smallest MTU.
pub const MIN_MTU: u32 = 1514;

/// The largest MTU.
pub const MAX_MTU: u32 = 9216;

/// How far the negotiation has got.
#[derive(Debug, Clone, Copy, PartialEq, Eq, Structural)]
pub struct Negotiation {
    /// What has been negotiated; `None` before there is a version.
    pub state: Option<InitState>,
    /// Whether the guest has sent its first RNDIS message.
    pub has_init_packet_arrived: bool,
    /// The byte length of a packet.
    pub packet_size: usize,
}

/// Whether everything has been negotiated that is needed. A guest that has begun
/// to send RNDIS messages may leave out the send buffer.
pub open spec fn ready_to_initialize(init: InitState, allow_missing_send_buffer: bool) -> bool {
    &&& init.ndis_config is Some || init.version.number() < Version::V2.number()
    &&& init.ndis_version is Some
    &&& init.send_buffer is Some || allow_missing_send_buffer
    &&& init.recv_buffer is Some
}

/// The MTU that is used when the guest asks for `mtu`.
pub open spec fn effective_mtu(mtu: u32) -> u32 {
    if MIN_MTU <= mtu <= MAX_MTU {
        mtu
    } else {
        DEFAULT_MTU
    }
}

/// The MTU that the suballocations of the receive buffer are made for.
pub open spec fn buffer_mtu(init: InitState) -> Result<u32, WorkerError> {
    if init.recv_buffer is Some {
        Err(WorkerError::UnexpectedPacketOrder(PacketOrderError::SendReceiveBufferExists))
    } else if init.ndis_config is Some {
        Ok(init.ndis_config->0.mtu)
    } else if init.version.number() < Version::V2.number() {
        Ok(DEFAULT_MTU)
    } else {
        Err(WorkerError::UnexpectedPacketOrder(PacketOrderError::SendReceiveBufferMissingMTU))
    }
}

impl Negotiation {
    /// Packets have one of the two sizes, an RNDIS message is only taken once
    /// the rest is there, and the MTU is in range.
    pub open spec fn wf(self) -> bool {
        &&& self.packet_size == PACKET_SIZE_V1 || self.packet_size == PACKET_SIZE_V61
        &&& self.has_init_packet_arrived ==> self.state is Some && ready_to_initialize(
            self.state->0,
            true,
        )
        &&& self.state matches Some(init) ==> {
            &&& init.ndis_config matches Some(config) ==> MIN_MTU <= config.mtu <= MAX_MTU
            &&& init.recv_buffer matches Some(buffer) ==> buffer.wf()
        }
    }

    /// Whether the negotiation is done.
    pub open spec fn spec_done(self) -> bool {
        self.state matches Some(init) && (ready_to_initialize(init, false)
            || self.has_init_packet_arrived)
    }

    /// The beginning: no version, and packets of the first size.
    pub fn new() -> (n: Negotiation)
        ensures
            n == (Negotiation {
                state: None,
                has_init_packet_arrived: false,
                packet_size: PACKET_SIZE_V1,
            }),
            n.wf(),
    {
        Negotiation { state: None, has_init_packet_arrived: false, packet_size: PACKET_SIZE_V1 }
    }
}

/// Whether everything has been negotiated that is needed.
pub fn is_ready_to_initialize(init: &InitState, allow_missing_send_buffer: bool) -> (b: bool)
    ensures
        b == ready_to_initialize(*init, allow_missing_send_buffer),
{
    (init.ndis_config.is_some() || !init.version.at_least(Version::V2))
        && init.ndis_version.is_some() && (init.send_buffer.is_some() || allow_missing_send_buffer)
        && init.recv_buffer.is_some()
}

/// The MTU that the suballocations of the receive buffer are made for.
pub fn receive_buffer_mtu(init: &InitState) -> (r: Result<u32, WorkerError>)
    ensures
        r == buffer_mtu(*init),
{
    if init.recv_buffer.is_some() {
        return Err(WorkerError::UnexpectedPacketOrder(PacketOrderError::SendReceiveBufferExists));
    }
    match init.ndis_config {
        Some(config) => Ok(config.mtu),
        None => if !init.version.at_least(Version::V2) {
            Ok(DEFAULT_MTU)
        } else {
            Err(WorkerError::UnexpectedPacketOrder(PacketOrderError::SendReceiveBufferMissingMTU))
        },
    }
}

/// The answer to a version request.
pub open spec fn init_complete(packet_size: int, version: Option<Version>) -> Seq<u8> {
    message_bytes(
        packet_size,
        MESSAGE_TYPE_INIT_COMPLETE,
        le32_list(
            seq![
                if version == Some(Version::V1) {
                    Version::V1.number()
                } else {
                    INVALID_PROTOCOL_VERSION
                },
                34u32,
                if version is Some {
                    STATUS_SUCCESS
                } else {
                    STATUS_NONE
                },
            ],
        ),
    )
}

/// The answer to a receive buffer: one section with all suballocations.
pub open spec fn receive_buffer_complete(packet_size: int, b: ReceiveBuffer) -> Seq<u8> {
    message_bytes(
        packet_size,
        MESSAGE1_TYPE_SEND_RECEIVE_BUFFER_COMPLETE,
        le32_list(
            seq![
                STATUS_SUCCESS,
                1u32,
                0u32,
                b.sub_allocation_size,
                b.count,
                (b.sub_allocation_size * b.count) as u32,
            ],
        ),
    )
}

/// The answer to a send buffer.
pub open spec fn send_buffer_complete(packet_size: int) -> Seq<u8> {
    message_bytes(
        packet_size,
        MESSAGE1_TYPE_SEND_SEND_BUFFER_COMPLETE,
        le32_list(seq![STATUS_SUCCESS, SEND_BUFFER_SECTION_SIZE]),
    )
}

/// What one packet does: what has been negotiated behind it, the completion that
/// the guest gets, if any, or why the channel stops.
pub open spec fn negotiated(
    n: Negotiation,
    map: Seq<Gpadl>,
    data: PacketData,
    sub_allocation_size: u32,
    min_sub_allocation_size: u32,
) -> Result<(Negotiation, Option<Seq<u8>>), WorkerError> {
    let size = n.packet_size as int;
    match n.state {
        None => match data {
            PacketData::Init { protocol_version, .. } => match version_with(protocol_version) {
                Some(version) => Ok(
                    (
                        Negotiation {
                            state: Some(
                                InitState {
                                    version,
                                    ndis_config: None,
                                    ndis_version: None,
                                    recv_buffer: None,
                                    send_buffer: None,
                                },
                            ),
                            has_init_packet_arrived: n.has_init_packet_arrived,
                            packet_size: if version == Version::V61 {
                                PACKET_SIZE_V61
                            } else {
                                n.packet_size
                            },
                        },
                        Some(init_complete(size, Some(version))),
                    ),
                ),
                None => Ok((n, Some(init_complete(size, None)))),
            },
            _ => Err(WorkerError::UnexpectedPacketOrder(PacketOrderError::InvalidPacketData)),
        },
        Some(init) => match data {
            PacketData::SendNdisConfig { mtu, capabilities } => if init.ndis_config is Some {
                Err(WorkerError::UnexpectedPacketOrder(PacketOrderError::SendNdisConfigExists))
            } else {
                Ok(
                    (
                        Negotiation {
                            state: Some(
                                InitState {
                                    ndis_config: Some(
                                        NdisConfig { mtu: effective_mtu(mtu), capabilities },
                                    ),
                                    ..init
                                },
                            ),
                            ..n
                        },
                        Some(Seq::empty()),
                    ),
                )
            },
            PacketData::SendNdisVersion { ndis_major_version, ndis_minor_version } =>
                if init.ndis_version is Some {
                Err(WorkerError::UnexpectedPacketOrder(PacketOrderError::SendNdisVersionExists))
            } else {
                Ok(
                    (
                        Negotiation {
                            state: Some(
                                InitState {
                                    ndis_version: Some(
                                        NdisVersion {
                                            major: ndis_major_version,
                                            minor: ndis_minor_version,
                                        },
                                    ),
                                    ..init
                                },
                            ),
                            ..n
                        },
                        Some(Seq::empty()),
                    ),
                )
            },
            PacketData::SendReceiveBuffer { gpadl_handle, id } => match buffer_mtu(init) {
                Err(err) => Err(err),
                Ok(_) => match ReceiveBuffer::made(
                    map,
                    gpadl_handle,
                    id,
                    sub_allocation_size,
                    min_sub_allocation_size,
                ) {
                    Err(err) => Err(WorkerError::Buffer(err)),
                    Ok(b) => Ok(
                        (
                            Negotiation {
                                state: Some(InitState { recv_buffer: Some(b), ..init }),
                                ..n
                            },
                            Some(receive_buffer_complete(size, b)),
                        ),
                    ),
                },
            },
            PacketData::SendSendBuffer { gpadl_handle, .. } => if init.send_buffer is Some {
                Err(WorkerError::UnexpectedPacketOrder(PacketOrderError::SendSendBufferExists))
            } else {
                match SendBuffer::made(map, gpadl_handle) {
                    Err(err) => Err(WorkerError::Buffer(err)),
                    Ok(b) => Ok(
                        (
                            Negotiation {
                                state: Some(InitState { send_buffer: Some(b), ..init }),
                                ..n
                            },
                            Some(send_buffer_complete(size)),
                        ),
                    ),
                }
            },
            // Assumed to be the message that initializes the RNDIS protocol; it
            // is answered later.
            PacketData::RndisPacket { .. } => if ready_to_initialize(init, true) {
                Ok((Negotiation { has_init_packet_arrived: true, ..n }, None))
            } else {
                Err(WorkerError::UnexpectedPacketOrder(PacketOrderError::UnexpectedRndisPacket))
            },
            _ => Err(WorkerError::UnexpectedPacketOrder(PacketOrderError::InvalidPacketData)),
        },
    }
}

/// Handles one packet of the negotiation. `sub_allocation_size` is what the
/// [`receive_buffer_mtu`] needs, and `min_sub_allocation_size` what the smallest
/// MTU needs.
pub fn initialize(
    n: &mut Negotiation,
    out: &mut Outbox,
    map: &Vec<Gpadl>,
    data: PacketData,
    transaction_id: Option<u64>,
    sub_allocation_size: u32,
    min_sub_allocation_size: u32,
) -> (r: Result<(), WorkerError>)
    requires
        old(n).wf(),
        old(n).state is None ==> data is Init,
        min_sub_allocation_size >= 1,
    ensures
        final(n).wf(),
        match negotiated(*old(n), map@, data, sub_allocation_size, min_sub_allocation_size) {
            Err(err) => {
                &&& r == Err::<(), WorkerError>(err)
                &&& *final(n) == *old(n)
                &&& final(out)@ == old(out)@
            },
            Ok((next, None)) => {
                &&& r is Ok
                &&& *final(n) == next
                &&& final(out)@ == old(out)@
            },
            Ok((next, Some(payload))) => {
                &&& final(out)@ == completed(old(out)@, transaction_id, payload)
                &&& if can_complete(old(out)@, transaction_id, payload) {
                    r is Ok && *final(n) == next
                } else {
                    r == Err::<(), WorkerError>(WorkerError::OutOfSpace) && *final(n) == *old(n)
                }
            },
        },
{
    let packet_size: usize = n.packet_size;
    let mut init = match n.state {
        None => {
            let requested_version: u32 = match data {
                PacketData::Init { protocol_version, .. } => protocol_version,
                _ => return Err(
                    WorkerError::UnexpectedPacketOrder(PacketOrderError::InvalidPacketData),
                ),
            };
            let version = check_version(requested_version);
            let mut deprecated: u32 = INVALID_PROTOCOL_VERSION;
            let mut status: u32 = STATUS_NONE;
            if let Some(version) = version {
                if let Version::V1 = version {
                    deprecated = Version::V1.as_u32();
                }
                status = STATUS_SUCCESS;
            }
            let a: [u32; 3] = [deprecated, 34, status];
            assert(a@ =~= seq![deprecated, 34u32, status]);
            let m = message(packet_size, MESSAGE_TYPE_INIT_COMPLETE, fields(&a));
            match send_completion(out, transaction_id, m.payload()) {
                Ok(()) => {},
                Err(err) => return Err(err),
            }
            if let Some(version) = version {
                if let Version::V61 = version {
                    // Padding is appended for picky Windows guests.
                    n.packet_size = PACKET_SIZE_V61;
                }
                n.state = Some(
                    InitState {
                        version,
                        ndis_config: None,
                        ndis_version: None,
                        recv_buffer: None,
                        send_buffer: None,
                    },
                );
            }
            return Ok(());
        },
        Some(init) => init,
    };
    let payload: Vec<u8>;
    match data {
        PacketData::SendNdisConfig { mtu, capabilities } => {
            if init.ndis_config.is_some() {
                return Err(
                    WorkerError::UnexpectedPacketOrder(PacketOrderError::SendNdisConfigExists),
                );
            }
            // If the MTU is invalid then use the default.
            let mtu: u32 = if mtu >= MIN_MTU && mtu <= MAX_MTU {
                mtu
            } else {
                DEFAULT_MTU
            };
            // The UEFI client expects a completion packet, which can be empty.
            payload = Vec::new();
            init.ndis_config = Some(NdisConfig { mtu, capabilities });
        },
        PacketData::SendNdisVersion { ndis_major_version, ndis_minor_version } => {
            if init.ndis_version.is_some() {
                return Err(
                    WorkerError::UnexpectedPacketOrder(PacketOrderError::SendNdisVersionExists),
                );
            }
            // The UEFI client expects a completion packet, which can be empty.
            payload = Vec::new();
            init.ndis_version = Some(
                NdisVersion { major: ndis_major_version, minor: ndis_minor_version },
            );
        },
        PacketData::SendReceiveBuffer { gpadl_handle, id } => {
            match receive_buffer_mtu(&init) {
                Ok(_) => {},
                Err(err) => return Err(err),
            }
            let b = match ReceiveBuffer::new(
                map,
                gpadl_handle,
                id,
                sub_allocation_size,
                min_sub_allocation_size,
            ) {
                Ok(b) => b,
                Err(err) => return Err(WorkerError::Buffer(err)),
            };
            assert(b.sub_allocation_size * b.count == b.count * b.sub_allocation_size)
                by (nonlinear_arith);
            let end_offset: u32 = b.sub_allocation_size * b.count;
            let a: [u32; 6] = [STATUS_SUCCESS, 1, 0, b.sub_allocation_size, b.count, end_offset];
            assert(a@ =~= seq![
                STATUS_SUCCESS,
                1u32,
                0u32,
                b.sub_allocation_size,
                b.count,
                end_offset,
            ]);
            let m = message(
                packet_size,
                MESSAGE1_TYPE_SEND_RECEIVE_BUFFER_COMPLETE,
                fields(&a),
            );
            payload = m.payload();
            init.recv_buffer = Some(b);
        },
        PacketData::SendSendBuffer { gpadl_handle, .. } => {
            if init.send_buffer.is_some() {
                return Err(
                    WorkerError::UnexpectedPacketOrder(PacketOrderError::SendSendBufferExists),
                );
            }
            let b = match SendBuffer::new(map, gpadl_handle) {
                Ok(b) => b,
                Err(err) => return Err(WorkerError::Buffer(err)),
            };
            let a: [u32; 2] = [STATUS_SUCCESS, SEND_BUFFER_SECTION_SIZE];
            assert(a@ =~= seq![STATUS_SUCCESS, SEND_BUFFER_SECTION_SIZE]);
            let m = message(packet_size, MESSAGE1_TYPE_SEND_SEND_BUFFER_COMPLETE, fields(&a));
            payload = m.payload();
            init.send_buffer = Some(b);
        },
        PacketData::RndisPacket { .. } => {
            if !is_ready_to_initialize(&init, true) {
                return Err(
                    WorkerError::UnexpectedPacketOrder(PacketOrderError::UnexpectedRndisPacket),
                );
            }
            n.has_init_packet_arrived = true;
            return Ok(());
        },
        _ => return Err(WorkerError::UnexpectedPacketOrder(PacketOrderError::InvalidPacketData)),
    }
    assert(payload@.len() == 0 ==> payload@ =~= Seq::empty());
    match send_completion(out, transaction_id, payload) {
        Ok(()) => {},
        Err(err) => return Err(err),
    }
    n.state = Some(init);
    Ok(())
}

/// The channel that has been negotiated.
pub open spec fn negotiated_buffers(init: InitState) -> ChannelBuffers {
    ChannelBuffers {
        version: init.version,
        recv_buffer: init.recv_buffer->0,
        send_buffer: init.send_buffer,
        ndis_version: init.ndis_version->0,
        ndis_config: match init.ndis_config {
            Some(config) => config,
            None => NdisConfig { mtu: DEFAULT_MTU, capabilities: 0 },
        },
    }
}

/// Starts the channel, if the negotiation is done.
pub fn finish(n: &Negotiation, offload_support: OffloadConfig) -> (r: Option<
    (ChannelBuffers, ActiveState),
>)
    requires
        n.wf(),
    ensures
        r is Some <==> n.spec_done(),
        r matches Some(done) ==> {
            &&& done.0 == negotiated_buffers(n.state->0)
            &&& done.0.recv_buffer.wf()
            &&& MIN_MTU <= done.0.ndis_config.mtu <= MAX_MTU
            &&& done.1@ == ActiveView::fresh(
                Some(PrimaryChannelState::spec_new(offload_support)),
                done.0.recv_buffer.count,
            )
            &&& done.1.primary is Some
            &&& done.1.primary->0.wf()
        },
{
    let init = match n.state {
        Some(init) => init,
        None => return None,
    };
    if !is_ready_to_initialize(&init, false) && !n.has_init_packet_arrived {
        return None;
    }
    let (recv_buffer, ndis_version) = match (init.recv_buffer, init.ndis_version) {
        (Some(recv_buffer), Some(ndis_version)) => (recv_buffer, ndis_version),
        _ => return None,
    };
    let state = ActiveState::new(
        Some(PrimaryChannelState::new(offload_support)),
        recv_buffer.count,
    );
    let buffers = ChannelBuffers {
        version: init.version,
        recv_buffer,
        send_buffer: init.send_buffer,
        ndis_version,
        ndis_config: match init.ndis_config {
            Some(config) => config,
            None => NdisConfig { mtu: DEFAULT_MTU, capabilities: 0 },
        },
    };
    Some((buffers, state))
}

/// What has been negotiated stays: no packet takes back or changes the version,
/// the configuration or a buffer.
pub proof fn negotiation_only_adds(
    n: Negotiation,
    map: Seq<Gpadl>,
    data: PacketData,
    sub_allocation_size: u32,
    min_sub_allocation_size: u32,
)
    requires
        n.state is Some,
        negotiated(n, map, data, sub_allocation_size, min_sub_allocation_size) is Ok,
    ensures
        ({
            let before = n.state->0;
            let next = negotiated(n, map, data, sub_allocation_size, min_sub_allocation_size)->Ok_0.0;
            &&& next.state is Some
            &&& next.state->0.version == before.version
            &&& before.ndis_config is Some ==> next.state->0.ndis_config == before.ndis_config
            &&& before.ndis_version is Some ==> next.state->0.ndis_version == before.ndis_version
            &&& before.recv_buffer is Some ==> next.state->0.recv_buffer == before.recv_buffer
            &&& before.send_buffer is Some ==> next.state->0.send_buffer == before.send_buffer
            &&& next.packet_size == n.packet_size
        }),
{
}

/// A version request is answered with success if the version is known, and with no status
/// otherwise. Only the first version is told back, and the longest chain of memory pieces is 34.
/// With a known version the negotiation goes on, and only the latest version has longer packets.
pub proof fn version_request_is_answered(
    n: Negotiation,
    map: Seq<Gpadl>,
    protocol_version: u32,
    protocol_version2: u32,
    size: u32,
    min_size: u32,
)
    requires
        n.state is None,
    ensures
        ({
            let r = negotiated(
                n,
                map,
                PacketData::Init { protocol_version, protocol_version2 },
                size,
                min_size,
            );
            let next = r->Ok_0.0;
            let b = r->Ok_0.1->0;
            let known = seq![2u32, 0x30002, 0x40000, 0x50000, 0x60000, 0x60001].contains(
                protocol_version,
            );
            &&& r is Ok
            &&& r->Ok_0.1 is Some
            &&& crate::wire::u32_at(b, 0) == 2
            &&& crate::wire::u32_at(b, 4) == if protocol_version == 2 {
                2u32
            } else {
                0xffff_ffff
            }
            &&& crate::wire::u32_at(b, 8) == 34
            &&& crate::wire::u32_at(b, 12) == if known {
                1u32
            } else {
                0
            }
            &&& !known ==> next == n
            &&& known ==> {
                &&& next.state is Some
                &&& next.state->0.version.number() == protocol_version
                &&& next.state->0.ndis_config is None
                &&& next.state->0.ndis_version is None
                &&& next.state->0.recv_buffer is None
                &&& next.state->0.send_buffer is None
                &&& next.packet_size == if protocol_version == 0x60001 {
                    40usize
                } else {
                    n.packet_size
                }
                &&& next.has_init_packet_arrived == n.has_init_packet_arrived
            }
        }),
{
    let all = seq![2u32, 0x30002, 0x40000, 0x50000, 0x60000, 0x60001];
    assert(all[0] == 2 && all[1] == 0x30002 && all[2] == 0x40000 && all[3] == 0x50000 && all[4]
        == 0x60000 && all[5] == 0x60001);
    let version = version_with(protocol_version);
    let xs = seq![
        if version == Some(Version::V1) {
            Version::V1.number()
        } else {
            INVALID_PROTOCOL_VERSION
        },
        34u32,
        if version is Some {
            STATUS_SUCCESS
        } else {
            STATUS_NONE
        },
    ];
    let size = n.packet_size as int;
    crate::netvsp::protocol::message_is_read_back(size, MESSAGE_TYPE_INIT_COMPLETE, xs, 0);
    crate::netvsp::protocol::message_is_read_back(size, MESSAGE_TYPE_INIT_COMPLETE, xs, 1);
    crate::netvsp::protocol::message_is_read_back(size, MESSAGE_TYPE_INIT_COMPLETE, xs, 2);
}

/// The receive buffer is answered with its one section: how long a suballocation is, how many
/// there are, and where they end. The send buffer is answered with the length of its sections.
pub proof fn buffers_are_answered(packet_size: usize, b: ReceiveBuffer)
    requires
        b.wf(),
    ensures
        ({
            let r = receive_buffer_complete(packet_size as int, b);
            &&& crate::wire::u32_at(r, 0) == 102
            &&& crate::wire::u32_at(r, 4) == 1
            &&& crate::wire::u32_at(r, 8) == 1
            &&& crate::wire::u32_at(r, 12) == 0
            &&& crate::wire::u32_at(r, 16) == b.sub_allocation_size
            &&& crate::wire::u32_at(r, 20) == b.count
            &&& crate::wire::u32_at(r, 24) == b.count * b.sub_allocation_size
        }),
        ({
            let s = send_buffer_complete(packet_size as int);
            &&& crate::wire::u32_at(s, 0) == 105
            &&& crate::wire::u32_at(s, 4) == 1
            &&& crate::wire::u32_at(s, 8) == 6144
        }),
{
    let end = (b.sub_allocation_size * b.count) as u32;
    assert(b.sub_allocation_size * b.count == b.count * b.sub_allocation_size) by (nonlinear_arith);
    assert(0 <= b.count * b.sub_allocation_size) by (nonlinear_arith);
    let xs = seq![STATUS_SUCCESS, 1u32, 0u32, b.sub_allocation_size, b.count, end];
    let size = packet_size as int;
    let t = MESSAGE1_TYPE_SEND_RECEIVE_BUFFER_COMPLETE;
    crate::netvsp::protocol::message_is_read_back(size, t, xs, 0);
    crate::netvsp::protocol::message_is_read_back(size, t, xs, 1);
    crate::netvsp::protocol::message_is_read_back(size, t, xs, 2);
    crate::netvsp::protocol::message_is_read_back(size, t, xs, 3);
    crate::netvsp::protocol::message_is_read_back(size, t, xs, 4);
    crate::netvsp::protocol::message_is_read_back(size, t, xs, 5);
    let ys = seq![STATUS_SUCCESS, SEND_BUFFER_SECTION_SIZE];
    crate::netvsp::protocol::message_is_read_back(
        size,
        MESSAGE1_TYPE_SEND_SEND_BUFFER_COMPLETE,
        ys,
        0,
    );
    crate::netvsp::protocol::message_is_read_back(
        size,
        MESSAGE1_TYPE_SEND_SEND_BUFFER_COMPLETE,
        ys,
        1,
    );
}

/// The guest says each thing once. Its configuration is taken with its MTU, or the default if
/// that is not from 1514 to 9216, and its NDIS version as it is; both are answered with an empty
/// completion.
pub proof fn configuration_is_taken_once(
    n: Negotiation,
    map: Seq<Gpadl>,
    mtu: u32,
    capabilities: u64,
    major: u32,
    minor: u32,
    size: u32,
    min_size: u32,
)
    requires
        n.state is Some,
    ensures
        ({
            let init = n.state->0;
            let c = negotiated(
                n,
                map,
                PacketData::SendNdisConfig { mtu, capabilities },
                size,
                min_size,
            );
            let v = negotiated(
                n,
                map,
                PacketData::SendNdisVersion {
                    ndis_major_version: major,
                    ndis_minor_version: minor,
                },
                size,
                min_size,
            );
            &&& init.ndis_config is Some ==> c == Err::<
                (Negotiation, Option<Seq<u8>>),
                WorkerError,
            >(WorkerError::UnexpectedPacketOrder(PacketOrderError::SendNdisConfigExists))
            &&& init.ndis_config is None ==> {
                &&& c is Ok
                &&& c->Ok_0.1 is Some && c->Ok_0.1->0.len() == 0
                &&& c->Ok_0.0.state->0.ndis_config is Some
                &&& c->Ok_0.0.state->0.ndis_config->0.capabilities == capabilities
                &&& 1514 <= mtu <= 9216 ==> c->Ok_0.0.state->0.ndis_config->0.mtu == mtu
                &&& !(1514 <= mtu <= 9216) ==> c->Ok_0.0.state->0.ndis_config->0.mtu == 1514
                &&& c->Ok_0.0.state->0.ndis_version == init.ndis_version
                &&& c->Ok_0.0.state->0.recv_buffer == init.recv_buffer
                &&& c->Ok_0.0.state->0.send_buffer == init.send_buffer
                &&& c->Ok_0.0.has_init_packet_arrived == n.has_init_packet_arrived
            }
            &&& init.ndis_version is Some ==> v == Err::<
                (Negotiation, Option<Seq<u8>>),
                WorkerError,
            >(WorkerError::UnexpectedPacketOrder(PacketOrderError::SendNdisVersionExists))
            &&& init.ndis_version is None ==> {
                &&& v is Ok
                &&& v->Ok_0.1 is Some && v->Ok_0.1->0.len() == 0
                &&& v->Ok_0.0.state->0.ndis_version is Some
                &&& v->Ok_0.0.state->0.ndis_version->0.major == major
                &&& v->Ok_0.0.state->0.ndis_version->0.minor == minor
                &&& v->Ok_0.0.state->0.ndis_config == init.ndis_config
                &&& v->Ok_0.0.state->0.recv_buffer == init.recv_buffer
                &&& v->Ok_0.0.state->0.send_buffer == init.send_buffer
                &&& v->Ok_0.0.has_init_packet_arrived == n.has_init_packet_arrived
            }
        }),
{
}

/// Each buffer is taken once, and refused for what is wrong with its memory. The receive
/// buffer needs the MTU: a guest of a version that has one must have said it first.
pub proof fn buffers_are_taken_once(
    n: Negotiation,
    map: Seq<Gpadl>,
    gpadl_handle: u32,
    id: u16,
    size: u32,
    min_size: u32,
)
    requires
        n.state is Some,
    ensures
        ({
            let init = n.state->0;
            let r = negotiated(
                n,
                map,
                PacketData::SendReceiveBuffer { gpadl_handle, id },
                size,
                min_size,
            );
            let made = ReceiveBuffer::made(map, gpadl_handle, id, size, min_size);
            &&& init.recv_buffer is Some ==> r is Err && r->Err_0
                == WorkerError::UnexpectedPacketOrder(PacketOrderError::SendReceiveBufferExists)
            &&& init.recv_buffer is None && init.ndis_config is None && init.version.number()
                >= 0x30002 ==> r is Err && r->Err_0 == WorkerError::UnexpectedPacketOrder(
                PacketOrderError::SendReceiveBufferMissingMTU,
            )
            &&& init.recv_buffer is None && (init.ndis_config is Some || init.version.number()
                < 0x30002) ==> {
                &&& made is Err ==> r is Err && r->Err_0 == WorkerError::Buffer(made->Err_0)
                &&& made matches Ok(b) ==> r is Ok && r->Ok_0.0.state->0.recv_buffer == Some(b)
                    && r->Ok_0.1 is Some && crate::wire::u32_at(r->Ok_0.1->0, 0) == 102
                    && r->Ok_0.0.state->0.send_buffer == init.send_buffer
            }
        }),
        ({
            let init = n.state->0;
            let s = negotiated(
                n,
                map,
                PacketData::SendSendBuffer { gpadl_handle, id },
                size,
                min_size,
            );
            let made = SendBuffer::made(map, gpadl_handle);
            &&& init.send_buffer is Some ==> s is Err && s->Err_0
                == WorkerError::UnexpectedPacketOrder(PacketOrderError::SendSendBufferExists)
            &&& init.send_buffer is None && made is Err ==> s is Err && s->Err_0
                == WorkerError::Buffer(made->Err_0)
            &&& init.send_buffer is None && made is Ok ==> s is Ok
                && s->Ok_0.0.state->0.send_buffer == Some(made->Ok_0) && s->Ok_0.1 is Some
                && crate::wire::u32_at(s->Ok_0.1->0, 0) == 105
                && s->Ok_0.0.state->0.recv_buffer == init.recv_buffer
        }),
{
    let size_ = n.packet_size as int;
    if let Ok(b) = ReceiveBuffer::made(map, gpadl_handle, id, size, min_size) {
        let xs = seq![
            STATUS_SUCCESS,
            1u32,
            0u32,
            b.sub_allocation_size,
            b.count,
            (b.sub_allocation_size * b.count) as u32,
        ];
        crate::netvsp::protocol::message_is_read_back(
            size_,
            MESSAGE1_TYPE_SEND_RECEIVE_BUFFER_COMPLETE,
            xs,
            0,
        );
    }
    crate::netvsp::protocol::message_is_read_back(
        size_,
        MESSAGE1_TYPE_SEND_SEND_BUFFER_COMPLETE,
        seq![STATUS_SUCCESS, SEND_BUFFER_SECTION_SIZE],
        0,
    );
}

/// The first RNDIS message ends the negotiation, without an answer, but not before all is there
/// that a channel needs; the send buffer is not among that. Nothing else that is not part of
/// the negotiation is taken.
pub proof fn first_rndis_message_ends_negotiation(
    n: Negotiation,
    map: Seq<Gpadl>,
    channel_type: u32,
    index: u32,
    len: u32,
    other: PacketData,
    size: u32,
    min_size: u32,
)
    requires
        n.state is Some,
        !(other is SendNdisConfig || other is SendNdisVersion || other is SendReceiveBuffer || other
            is SendSendBuffer || other is RndisPacket),
    ensures
        ({
            let init = n.state->0;
            let r = negotiated(
                n,
                map,
                PacketData::RndisPacket {
                    channel_type,
                    send_buffer_section_index: index,
                    send_buffer_section_size: len,
                },
                size,
                min_size,
            );
            let enough = init.ndis_version is Some && init.recv_buffer is Some && (
            init.ndis_config is Some || init.version.number() < 0x30002);
            &&& r is Ok <==> enough
            &&& r is Err ==> r->Err_0 == WorkerError::UnexpectedPacketOrder(
                PacketOrderError::UnexpectedRndisPacket,
            )
            &&& r matches Ok(x) ==> x.0.has_init_packet_arrived && x.0.state == n.state && x.1 is None
                && x.0.spec_done()
            &&& negotiated(n, map, other, size, min_size) is Err
            &&& negotiated(n, map, other, size, min_size)->Err_0
                == WorkerError::UnexpectedPacketOrder(PacketOrderError::InvalidPacketData)
            &&& n.spec_done() <==> n.has_init_packet_arrived || (enough && init.send_buffer is Some)
        }),
{
}

/// The channel starts with what was negotiated. Without a configuration the MTU is the default
/// and there are no capabilities.
pub proof fn channel_starts_as_negotiated(init: InitState)
    requires
        init.recv_buffer is Some,
        init.ndis_version is Some,
    ensures
        ({
            let b = negotiated_buffers(init);
            &&& b.version == init.version
            &&& Some(b.recv_buffer) == init.recv_buffer
            &&& b.send_buffer == init.send_buffer
            &&& Some(b.ndis_version) == init.ndis_version
            &&& init.ndis_config is Some ==> Some(b.ndis_config) == init.ndis_config
            &&& init.ndis_config is None ==> b.ndis_config.mtu == 1514
                && b.ndis_config.capabilities == 0
        }),
{
}

} // verus!
