//! Parsing of the packets that arrive on the ring.
use crate::netvsp::protocol::{
    Version, MESSAGE1_TYPE_REVOKE_RECEIVE_BUFFER, MESSAGE1_TYPE_REVOKE_SEND_BUFFER,
    MESSAGE1_TYPE_SEND_NDIS_VERSION, MESSAGE1_TYPE_SEND_RECEIVE_BUFFER,
    MESSAGE1_TYPE_SEND_RNDIS_PACKET, MESSAGE1_TYPE_SEND_RNDIS_PACKET_COMPLETE,
    MESSAGE1_TYPE_SEND_SEND_BUFFER, MESSAGE2_TYPE_SEND_NDIS_CONFIG, MESSAGE4_TYPE_SWITCH_DATA_PATH,
    MESSAGE5_TYPE_OID_QUERY_EX, MESSAGE5_TYPE_SUB_CHANNEL, MESSAGE_TYPE_INIT,
    NO_SEND_BUFFER_SECTION, SWITCH_DATA_PATH_TRANSACTION_ID,
    VF_ASSOCIATION_TRANSACTION_ID,
};
use crate::wire::{read_u16, read_u32, read_u64, u16_at, u32_at, u64_at};
use vstd::prelude::*;

verus! {

/// A run of contiguous guest memory.
#[derive(Debug, Clone, Copy, PartialEq, Eq, Structural)]
pub struct GuestRun {
    /// The guest physical address; `None` when the page number is invalid.
    pub gpa: Option<u64>,
    /// The length in bytes.
    pub len: u32,
}

/// A paged range of guest memory with its contents.
#[derive(Debug)]
pub struct PacketRange {
    /// Where the bytes lie.
    pub runs: Vec<GuestRun>,
    /// The bytes.
    pub bytes: Vec<u8>,
}

/// A packet as it was read from the ring.
#[derive(Debug)]
#[allow(inconsistent_fields)]
pub enum IncomingPacket {
    /// A message of the guest.
    Data {
        /// The transaction ID, when the guest asks for a completion.
        transaction_id: Option<u64>,
        /// The message.
        payload: Vec<u8>,
        /// The guest memory that goes with it; `None` when its description is
        /// malformed.
        external_data: Option<Vec<PacketRange>>,
    },
    /// The completion of a message that was sent to the guest.
    Completion {
        /// The transaction ID of the message.
        transaction_id: u64,
        /// The contents.
        payload: Vec<u8>,
    },
}

/// The contents of a packet.
#[derive(Debug, Clone, Copy, PartialEq, Eq, Structural)]
pub enum PacketData {
    /// Version negotiation.
    Init {
        /// The requested version.
        protocol_version: u32,
        /// The highest version that the guest speaks.
        protocol_version2: u32,
    },
    /// The NDIS version of the guest.
    SendNdisVersion {
        /// Major version.
        ndis_major_version: u32,
        /// Minor version.
        ndis_minor_version: u32,
    },
    /// The receive buffer.
    SendReceiveBuffer {
        /// Its memory.
        gpadl_handle: u32,
        /// Its ID.
        id: u16,
    },
    /// The send buffer.
    SendSendBuffer {
        /// Its memory.
        gpadl_handle: u32,
        /// Its ID.
        id: u16,
    },
    /// The receive buffer is taken back.
    RevokeReceiveBuffer {
        /// Its ID.
        id: u16,
    },
    /// The send buffer is taken back.
    RevokeSendBuffer {
        /// Its ID.
        id: u16,
    },
    /// RNDIS messages.
    RndisPacket {
        /// Data or control channel.
        channel_type: u32,
        /// The section of the send buffer that holds the messages.
        send_buffer_section_index: u32,
        /// The number of bytes in that section.
        send_buffer_section_size: u32,
    },
    /// RNDIS messages were completed by the guest.
    RndisPacketComplete {
        /// The status.
        status: u32,
    },
    /// The configuration of the guest.
    SendNdisConfig {
        /// The MTU.
        mtu: u32,
        /// The capability bits.
        capabilities: u64,
    },
    /// Switch the data path.
    SwitchDataPath {
        /// The wanted data path.
        active_data_path: u32,
    },
    /// Query an OID.
    OidQueryEx {
        /// The OID.
        oid: u32,
    },
    /// Ask for subchannels.
    SubChannelRequest {
        /// What to do.
        operation: u32,
        /// How many.
        num_sub_channels: u32,
    },
    /// The guest has seen a VF association message.
    SendVfAssociationCompletion,
    /// The guest has seen a data path message.
    SwitchDataPathCompletion,
}

/// Why a packet could not be parsed.
#[derive(Debug, Clone, Copy, PartialEq, Eq, Structural)]
pub enum PacketError {
    /// The message type is unknown, or newer than the negotiated version.
    UnknownType(u32),
    /// The packet is too short.
    Access,
    /// The description of the external data is malformed.
    ExternalData,
    /// The packet refers to a section that the send buffer does not have.
    InvalidSendBufferIndex,
}

/// A byte range of the send buffer.
#[derive(Debug, Clone, Copy, PartialEq, Eq, Structural)]
pub struct SectionRange {
    /// Offset into the send buffer.
    pub offset: u64,
    /// Length in bytes.
    pub len: u64,
}

/// A parsed packet.
#[derive(Debug)]
pub struct Packet {
    /// The contents.
    pub data: PacketData,
    /// The transaction ID.
    pub transaction_id: Option<u64>,
    /// The guest memory that goes with it.
    pub external_data: Vec<PacketRange>,
    /// The part of the send buffer that goes with it.
    pub send_buffer_suballocation: SectionRange,
}

/// The first version that has messages of type `typ`; `None` for the messages
/// that every version has. `Err` for types that no version has.
pub open spec fn introduced_in(typ: u32) -> Result<Option<Version>, ()> {
    if typ == MESSAGE_TYPE_INIT {
        Ok(None)
    } else if typ == MESSAGE1_TYPE_SEND_NDIS_VERSION || typ == MESSAGE1_TYPE_SEND_RECEIVE_BUFFER
        || typ == MESSAGE1_TYPE_REVOKE_RECEIVE_BUFFER || typ == MESSAGE1_TYPE_SEND_SEND_BUFFER
        || typ == MESSAGE1_TYPE_REVOKE_SEND_BUFFER || typ == MESSAGE1_TYPE_SEND_RNDIS_PACKET {
        Ok(Some(Version::V1))
    } else if typ == MESSAGE2_TYPE_SEND_NDIS_CONFIG {
        Ok(Some(Version::V2))
    } else if typ == MESSAGE4_TYPE_SWITCH_DATA_PATH {
        Ok(Some(Version::V4))
    } else if typ == MESSAGE5_TYPE_OID_QUERY_EX || typ == MESSAGE5_TYPE_SUB_CHANNEL {
        Ok(Some(Version::V5))
    } else {
        Err(())
    }
}

/// Whether a guest that has negotiated `version` may send messages of type
/// `typ`.
pub open spec fn accepted(typ: u32, version: Option<Version>) -> bool {
    match introduced_in(typ) {
        Ok(None) => true,
        Ok(Some(first)) => version is Some && version->0.number() >= first.number(),
        Err(_) => false,
    }
}

/// The number of bytes that the fields of a message take.
pub open spec fn fields_len(typ: u32) -> nat {
    if typ == MESSAGE1_TYPE_REVOKE_RECEIVE_BUFFER || typ == MESSAGE1_TYPE_REVOKE_SEND_BUFFER {
        2
    } else if typ == MESSAGE4_TYPE_SWITCH_DATA_PATH {
        4
    } else if typ == MESSAGE1_TYPE_SEND_RNDIS_PACKET {
        12
    } else if typ == MESSAGE2_TYPE_SEND_NDIS_CONFIG {
        16
    } else {
        8
    }
}

/// The message in `b`, whose fields start behind the type.
pub open spec fn decoded(typ: u32, b: Seq<u8>) -> PacketData {
    if typ == MESSAGE_TYPE_INIT {
        PacketData::Init { protocol_version: u32_at(b, 4), protocol_version2: u32_at(b, 8) }
    } else if typ == MESSAGE1_TYPE_SEND_NDIS_VERSION {
        PacketData::SendNdisVersion {
            ndis_major_version: u32_at(b, 4),
            ndis_minor_version: u32_at(b, 8),
        }
    } else if typ == MESSAGE1_TYPE_SEND_RECEIVE_BUFFER {
        PacketData::SendReceiveBuffer { gpadl_handle: u32_at(b, 4), id: u16_at(b, 8) }
    } else if typ == MESSAGE1_TYPE_REVOKE_RECEIVE_BUFFER {
        PacketData::RevokeReceiveBuffer { id: u16_at(b, 4) }
    } else if typ == MESSAGE1_TYPE_SEND_SEND_BUFFER {
        PacketData::SendSendBuffer { gpadl_handle: u32_at(b, 4), id: u16_at(b, 8) }
    } else if typ == MESSAGE1_TYPE_REVOKE_SEND_BUFFER {
        PacketData::RevokeSendBuffer { id: u16_at(b, 4) }
    } else if typ == MESSAGE1_TYPE_SEND_RNDIS_PACKET {
        PacketData::RndisPacket {
            channel_type: u32_at(b, 4),
            send_buffer_section_index: u32_at(b, 8),
            send_buffer_section_size: u32_at(b, 12),
        }
    } else if typ == MESSAGE2_TYPE_SEND_NDIS_CONFIG {
        PacketData::SendNdisConfig { mtu: u32_at(b, 4), capabilities: u64_at(b, 12) }
    } else if typ == MESSAGE4_TYPE_SWITCH_DATA_PATH {
        PacketData::SwitchDataPath { active_data_path: u32_at(b, 4) }
    } else if typ == MESSAGE5_TYPE_OID_QUERY_EX {
        PacketData::OidQueryEx { oid: u32_at(b, 8) }
    } else {
        PacketData::SubChannelRequest { operation: u32_at(b, 4), num_sub_channels: u32_at(b, 8) }
    }
}

/// What a message of the guest says.
pub open spec fn parsed_message(b: Seq<u8>, version: Option<Version>) -> Result<
    PacketData,
    PacketError,
> {
    if b.len() < 4 {
        Err(PacketError::Access)
    } else if !accepted(u32_at(b, 0), version) {
        Err(PacketError::UnknownType(u32_at(b, 0)))
    } else if b.len() < 4 + fields_len(u32_at(b, 0)) {
        Err(PacketError::Access)
    } else {
        Ok(decoded(u32_at(b, 0), b))
    }
}

/// The part of a send buffer of `send_buffer` bytes that `data` refers to.
pub open spec fn section(data: PacketData, send_buffer: Option<u64>) -> Result<
    SectionRange,
    PacketError,
> {
    match data {
        PacketData::RndisPacket {
            send_buffer_section_index,
            send_buffer_section_size,
            ..
        } if send_buffer_section_index != NO_SEND_BUFFER_SECTION => {
            let offset = send_buffer_section_index * 6144;
            if send_buffer is Some && offset + send_buffer_section_size <= send_buffer->0 {
                Ok(SectionRange { offset: offset as u64, len: send_buffer_section_size as u64 })
            } else {
                Err(PacketError::InvalidSendBufferIndex)
            }
        },
        _ => Ok(SectionRange { offset: 0, len: 0 }),
    }
}

/// What a completion says.
pub open spec fn parsed_completion(transaction_id: u64, b: Seq<u8>) -> Result<
    PacketData,
    PacketError,
> {
    if transaction_id == VF_ASSOCIATION_TRANSACTION_ID {
        Ok(PacketData::SendVfAssociationCompletion)
    } else if transaction_id == SWITCH_DATA_PATH_TRANSACTION_ID {
        Ok(PacketData::SwitchDataPathCompletion)
    } else if b.len() < 4 {
        Err(PacketError::Access)
    } else if u32_at(b, 0) != MESSAGE1_TYPE_SEND_RNDIS_PACKET_COMPLETE {
        Err(PacketError::UnknownType(u32_at(b, 0)))
    } else if b.len() < 8 {
        Err(PacketError::Access)
    } else {
        Ok(PacketData::RndisPacketComplete { status: u32_at(b, 4) })
    }
}

/// The error with which `packet` is refused, or its contents and its part of
/// the send buffer.
pub open spec fn parsed(
    packet: IncomingPacket,
    send_buffer: Option<u64>,
    version: Option<Version>,
) -> Result<(PacketData, SectionRange), PacketError> {
    match packet {
        IncomingPacket::Completion { transaction_id, payload } => {
            match parsed_completion(transaction_id, payload@) {
                Ok(data) => Ok((data, SectionRange { offset: 0, len: 0 })),
                Err(err) => Err(err),
            }
        },
        IncomingPacket::Data { payload, external_data, .. } => {
            match parsed_message(payload@, version) {
                Err(err) => Err(err),
                Ok(data) => match section(data, send_buffer) {
                    Err(err) => Err(err),
                    Ok(range) => if external_data is None {
                        Err(PacketError::ExternalData)
                    } else {
                        Ok((data, range))
                    },
                },
            }
        },
    }
}

fn version_at_least(version: Option<Version>, first: Version) -> (b: bool)
    ensures
        b == (version is Some && version->0.number() >= first.number()),
{
    match version {
        Some(version) => version.at_least(first),
        None => false,
    }
}

fn is_accepted(typ: u32, version: Option<Version>) -> (b: bool)
    ensures
        b == accepted(typ, version),
{
    if typ == MESSAGE_TYPE_INIT {
        true
    } else if typ == MESSAGE1_TYPE_SEND_NDIS_VERSION || typ == MESSAGE1_TYPE_SEND_RECEIVE_BUFFER
        || typ == MESSAGE1_TYPE_REVOKE_RECEIVE_BUFFER || typ == MESSAGE1_TYPE_SEND_SEND_BUFFER
        || typ == MESSAGE1_TYPE_REVOKE_SEND_BUFFER || typ == MESSAGE1_TYPE_SEND_RNDIS_PACKET {
        version_at_least(version, Version::V1)
    } else if typ == MESSAGE2_TYPE_SEND_NDIS_CONFIG {
        version_at_least(version, Version::V2)
    } else if typ == MESSAGE4_TYPE_SWITCH_DATA_PATH {
        version_at_least(version, Version::V4)
    } else if typ == MESSAGE5_TYPE_OID_QUERY_EX || typ == MESSAGE5_TYPE_SUB_CHANNEL {
        version_at_least(version, Version::V5)
    } else {
        false
    }
}

fn decode(typ: u32, b: &[u8]) -> (r: Result<PacketData, PacketError>)
    requires
        introduced_in(typ) is Ok,
    ensures
        r == if b@.len() < 4 + fields_len(typ) {
            Err::<PacketData, PacketError>(PacketError::Access)
        } else {
            Ok::<PacketData, PacketError>(decoded(typ, b@))
        },
{
    let len: usize = b.len();
    let needed: usize = if typ == MESSAGE1_TYPE_REVOKE_RECEIVE_BUFFER || typ
        == MESSAGE1_TYPE_REVOKE_SEND_BUFFER {
        2
    } else if typ == MESSAGE4_TYPE_SWITCH_DATA_PATH {
        4
    } else if typ == MESSAGE1_TYPE_SEND_RNDIS_PACKET {
        12
    } else if typ == MESSAGE2_TYPE_SEND_NDIS_CONFIG {
        16
    } else {
        8
    };
    if len < 4 + needed {
        return Err(PacketError::Access);
    }
    let data = if typ == MESSAGE_TYPE_INIT {
        PacketData::Init { protocol_version: read_u32(b, 4), protocol_version2: read_u32(b, 8) }
    } else if typ == MESSAGE1_TYPE_SEND_NDIS_VERSION {
        PacketData::SendNdisVersion {
            ndis_major_version: read_u32(b, 4),
            ndis_minor_version: read_u32(b, 8),
        }
    } else if typ == MESSAGE1_TYPE_SEND_RECEIVE_BUFFER {
        PacketData::SendReceiveBuffer { gpadl_handle: read_u32(b, 4), id: read_u16(b, 8) }
    } else if typ == MESSAGE1_TYPE_REVOKE_RECEIVE_BUFFER {
        PacketData::RevokeReceiveBuffer { id: read_u16(b, 4) }
    } else if typ == MESSAGE1_TYPE_SEND_SEND_BUFFER {
        PacketData::SendSendBuffer { gpadl_handle: read_u32(b, 4), id: read_u16(b, 8) }
    } else if typ == MESSAGE1_TYPE_REVOKE_SEND_BUFFER {
        PacketData::RevokeSendBuffer { id: read_u16(b, 4) }
    } else if typ == MESSAGE1_TYPE_SEND_RNDIS_PACKET {
        PacketData::RndisPacket {
            channel_type: read_u32(b, 4),
            send_buffer_section_index: read_u32(b, 8),
            send_buffer_section_size: read_u32(b, 12),
        }
    } else if typ == MESSAGE2_TYPE_SEND_NDIS_CONFIG {
        PacketData::SendNdisConfig { mtu: read_u32(b, 4), capabilities: read_u64(b, 12) }
    } else if typ == MESSAGE4_TYPE_SWITCH_DATA_PATH {
        PacketData::SwitchDataPath { active_data_path: read_u32(b, 4) }
    } else if typ == MESSAGE5_TYPE_OID_QUERY_EX {
        PacketData::OidQueryEx { oid: read_u32(b, 8) }
    } else {
        PacketData::SubChannelRequest {
            operation: read_u32(b, 4),
            num_sub_channels: read_u32(b, 8),
        }
    };
    Ok(data)
}

fn find_section(data: PacketData, send_buffer: Option<u64>) -> (r: Result<
    SectionRange,
    PacketError,
>)
    ensures
        r == section(data, send_buffer),
{
    match data {
        PacketData::RndisPacket {
            send_buffer_section_index,
            send_buffer_section_size,
            ..
        } if send_buffer_section_index != NO_SEND_BUFFER_SECTION => {
            let offset: u64 = send_buffer_section_index as u64 * 6144;
            match send_buffer {
                Some(total) if offset + send_buffer_section_size as u64 <= total => Ok(
                    SectionRange { offset, len: send_buffer_section_size as u64 },
                ),
                _ => Err(PacketError::InvalidSendBufferIndex),
            }
        },
        _ => Ok(SectionRange { offset: 0, len: 0 }),
    }
}

/// Parses a packet of the ring. `send_buffer` is the length of the send buffer,
/// if there is one, and `version` what has been negotiated so far.
pub fn parse_packet(
    packet: IncomingPacket,
    send_buffer: Option<u64>,
    version: Option<Version>,
) -> (r: Result<Packet, PacketError>)
    ensures
        match parsed(packet, send_buffer, version) {
            Err(err) => r == Err::<Packet, PacketError>(err),
            Ok((data, range)) => {
                &&& r is Ok
                &&& r->Ok_0.data == data
                &&& r->Ok_0.send_buffer_suballocation == range
                &&& match packet {
                    IncomingPacket::Completion { transaction_id, .. } => {
                        &&& r->Ok_0.transaction_id == Some(transaction_id)
                        &&& r->Ok_0.external_data@ == Seq::<PacketRange>::empty()
                    },
                    IncomingPacket::Data { transaction_id, external_data, .. } => {
                        &&& r->Ok_0.transaction_id == transaction_id
                        &&& Some(r->Ok_0.external_data) == external_data
                    },
                }
            },
        },
{
    match packet {
        IncomingPacket::Completion { transaction_id, payload } => {
            let data = if transaction_id == VF_ASSOCIATION_TRANSACTION_ID {
                PacketData::SendVfAssociationCompletion
            } else if transaction_id == SWITCH_DATA_PATH_TRANSACTION_ID {
                PacketData::SwitchDataPathCompletion
            } else {
                if payload.len() < 4 {
                    return Err(PacketError::Access);
                }
                let typ: u32 = read_u32(payload.as_slice(), 0);
                if typ != MESSAGE1_TYPE_SEND_RNDIS_PACKET_COMPLETE {
                    return Err(PacketError::UnknownType(typ));
                }
                if payload.len() < 8 {
                    return Err(PacketError::Access);
                }
                PacketData::RndisPacketComplete { status: read_u32(payload.as_slice(), 4) }
            };
            Ok(
                Packet {
                    data,
                    transaction_id: Some(transaction_id),
                    external_data: Vec::new(),
                    send_buffer_suballocation: SectionRange { offset: 0, len: 0 },
                },
            )
        },
        IncomingPacket::Data { transaction_id, payload, external_data } => {
            if payload.len() < 4 {
                return Err(PacketError::Access);
            }
            let typ: u32 = read_u32(payload.as_slice(), 0);
            if !is_accepted(typ, version) {
                return Err(PacketError::UnknownType(typ));
            }
            let data = match decode(typ, payload.as_slice()) {
                Ok(data) => data,
                Err(err) => return Err(err),
            };
            let range = match find_section(data, send_buffer) {
                Ok(range) => range,
                Err(err) => return Err(err),
            };
            match external_data {
                None => Err(PacketError::ExternalData),
                Some(external_data) => Ok(
                    Packet {
                        data,
                        transaction_id,
                        external_data,
                        send_buffer_suballocation: range,
                    },
                ),
            }
        },
    }
}

/// Before a version is negotiated, the guest can do nothing but negotiate it.
pub proof fn only_init_before_negotiation(b: Seq<u8>)
    ensures
        parsed_message(b, None) is Ok ==> parsed_message(b, None)->Ok_0 is Init,
{
}

/// A message that one version accepts is accepted, with the same meaning, by
/// every later version.
pub proof fn later_versions_accept_more(b: Seq<u8>, version: Version, later: Version)
    requires
        version.number() <= later.number(),
        parsed_message(b, Some(version)) is Ok,
    ensures
        parsed_message(b, Some(later)) == parsed_message(b, Some(version)),
{
}

/// Each kind of message is known by its type, comes with the version that introduced it, has
/// to have its fields, and means what they say. The fields follow the type, the least byte
/// first.
pub proof fn message_means_its_fields(b: Seq<u8>, version: Option<Version>)
    requires
        b.len() >= 4,
    ensures
        ({
            let typ = u32_at(b, 0);
            let n: int = match version {
                None => -1,
                Some(Version::V1) => 1,
                Some(Version::V2) => 2,
                Some(Version::V4) => 4,
                Some(Version::V5) => 5,
                Some(Version::V6) => 6,
                Some(Version::V61) => 6,
            };
            let r = parsed_message(b, version);
            let needs = |first: int, len: int|
                if n < first {
                    r == Err::<PacketData, PacketError>(PacketError::UnknownType(typ))
                } else if b.len() < len {
                    r == Err::<PacketData, PacketError>(PacketError::Access)
                } else {
                    r is Ok
                };
            let word = |k: int| u32_at(b, k);
            &&& typ == 1 ==> needs(-1, 12) && (r matches Ok(data) ==> data matches PacketData::Init {
                protocol_version,
                protocol_version2,
            } && protocol_version == word(4) && protocol_version2 == word(8))
            &&& typ == 100 ==> needs(1, 12) && (r matches Ok(data) ==> data matches PacketData::SendNdisVersion {
                ndis_major_version,
                ndis_minor_version,
            } && ndis_major_version == word(4) && ndis_minor_version == word(8))
            &&& typ == 101 ==> needs(1, 12) && (r matches Ok(data) ==> data matches PacketData::SendReceiveBuffer {
                gpadl_handle,
                id,
            } && gpadl_handle == word(4) && id == u16_at(b, 8))
            &&& typ == 103 ==> needs(1, 6) && (r matches Ok(data) ==> data matches PacketData::RevokeReceiveBuffer {
                id,
            } && id == u16_at(b, 4))
            &&& typ == 104 ==> needs(1, 12) && (r matches Ok(data) ==> data matches PacketData::SendSendBuffer {
                gpadl_handle,
                id,
            } && gpadl_handle == word(4) && id == u16_at(b, 8))
            &&& typ == 106 ==> needs(1, 6) && (r matches Ok(data) ==> data matches PacketData::RevokeSendBuffer {
                id,
            } && id == u16_at(b, 4))
            &&& typ == 107 ==> needs(1, 16) && (r matches Ok(data) ==> data matches PacketData::RndisPacket {
                channel_type,
                send_buffer_section_index,
                send_buffer_section_size,
            } && channel_type == word(4) && send_buffer_section_index == word(8)
                && send_buffer_section_size == word(12))
            &&& typ == 125 ==> needs(2, 20) && (r matches Ok(data) ==> data matches PacketData::SendNdisConfig {
                mtu,
                capabilities,
            } && mtu == word(4) && capabilities == u64_at(b, 12))
            &&& typ == 129 ==> needs(4, 8) && (r matches Ok(data) ==> data matches PacketData::SwitchDataPath {
                active_data_path,
            } && active_data_path == word(4))
            &&& typ == 131 ==> needs(5, 12) && (r matches Ok(data) ==> data matches PacketData::OidQueryEx {
                oid,
            } && oid == word(8))
            &&& typ == 133 ==> needs(5, 12) && (r matches Ok(data) ==> data matches PacketData::SubChannelRequest {
                operation,
                num_sub_channels,
            } && operation == word(4) && num_sub_channels == word(8))
            &&& r is Ok ==> seq![
                1u32,
                100,
                101,
                103,
                104,
                106,
                107,
                125,
                129,
                131,
                133,
            ].contains(typ)
        }),
{
    let types = seq![1u32, 100, 101, 103, 104, 106, 107, 125, 129, 131, 133];
    assert(types[0] == 1 && types[1] == 100 && types[2] == 101 && types[3] == 103 && types[4] == 104
        && types[5] == 106 && types[6] == 107 && types[7] == 125 && types[8] == 129 && types[9]
        == 131 && types[10] == 133);
}

/// A message whose type no version has is refused, with its type, and so is one that is too
/// short to have a type.
pub proof fn unknown_message_is_refused(b: Seq<u8>, version: Option<Version>)
    ensures
        b.len() < 4 ==> parsed_message(b, version) == Err::<PacketData, PacketError>(
            PacketError::Access,
        ),
        b.len() >= 4 && !(seq![1u32, 100, 101, 103, 104, 106, 107, 125, 129, 131, 133].contains(
            u32_at(b, 0),
        )) ==> parsed_message(b, version) == Err::<PacketData, PacketError>(
            PacketError::UnknownType(u32_at(b, 0)),
        ),
{
    let types = seq![1u32, 100, 101, 103, 104, 106, 107, 125, 129, 131, 133];
    assert(types[0] == 1 && types[1] == 100 && types[2] == 101 && types[3] == 103 && types[4] == 104
        && types[5] == 106 && types[6] == 107 && types[7] == 125 && types[8] == 129 && types[9]
        == 131 && types[10] == 133);
}

/// The sections of the send buffer lie one behind the other: what a packet refers to lies
/// within its buffer, two sections do not overlap as long as neither is longer than one, and
/// a packet that would reach beyond the buffer, or has none, is refused. The number with all
/// bits set stands for no section.
pub proof fn sections_lie_side_by_side(
    channel_type: u32,
    index: u32,
    size: u32,
    send_buffer: Option<u64>,
)
    ensures
        ({
            let r = section(
                PacketData::RndisPacket {
                    channel_type,
                    send_buffer_section_index: index,
                    send_buffer_section_size: size,
                },
                send_buffer,
            );
            &&& index == u32::MAX ==> r == Ok::<SectionRange, PacketError>(
                SectionRange { offset: 0, len: 0 },
            )
            &&& index != u32::MAX ==> {
                &&& r is Ok <==> send_buffer is Some && 6144 * index + size <= send_buffer->0
                &&& r is Err ==> r->Err_0 == PacketError::InvalidSendBufferIndex
                &&& r is Ok ==> r->Ok_0.len == size && r->Ok_0.offset == 6144 * index
            }
        }),
{
    assert(index * 6144 == 6144 * index);
}

/// Only RNDIS messages lie in the send buffer.
pub proof fn other_packets_have_no_section(data: PacketData, send_buffer: Option<u64>)
    requires
        !(data is RndisPacket),
    ensures
        section(data, send_buffer) == Ok::<SectionRange, PacketError>(
            SectionRange { offset: 0, len: 0 },
        ),
{
}

/// A completion is told by its transaction ID: the two that are sent with messages about the
/// VF stand for the answers to those, and any other brings the status of RNDIS messages.
pub proof fn completion_is_recognized(transaction_id: u64, b: Seq<u8>)
    ensures
        ({
            let r = parsed_completion(transaction_id, b);
            &&& transaction_id == 0x8000_0000_0000_0000 ==> r == Ok::<PacketData, PacketError>(
                PacketData::SendVfAssociationCompletion,
            )
            &&& transaction_id == 0x8000_0000_0000_0001 ==> r == Ok::<PacketData, PacketError>(
                PacketData::SwitchDataPathCompletion,
            )
            &&& transaction_id < 0x8000_0000_0000_0000 ==> {
                &&& r is Ok <==> b.len() >= 8 && u32_at(b, 0) == 108
                &&& r matches Ok(data) ==> data == PacketData::RndisPacketComplete {
                    status: u32_at(b, 4),
                }
                &&& b.len() >= 4 && u32_at(b, 0) != 108 ==> r == Err::<PacketData, PacketError>(
                    PacketError::UnknownType(u32_at(b, 0)),
                )
                &&& b.len() < 4 || (u32_at(b, 0) == 108 && b.len() < 8) ==> r == Err::<
                    PacketData,
                    PacketError,
                >(PacketError::Access)
            }
        }),
{
}

/// What a packet says does not depend on what comes with it, but guest memory that is
/// described wrongly makes the packet useless. Of several faults the guest is told the one in
/// the message, then the one in the section, then the one in the memory.
pub proof fn packet_faults_are_told_in_order(
    packet: IncomingPacket,
    send_buffer: Option<u64>,
    version: Option<Version>,
)
    ensures
        match packet {
            IncomingPacket::Completion { transaction_id, payload } => {
                match parsed_completion(transaction_id, payload@) {
                    Ok(data) => parsed(packet, send_buffer, version) matches Ok(r) && r.0 == data
                        && r.1.len == 0 && r.1.offset == 0,
                    Err(err) => parsed(packet, send_buffer, version) matches Err(e) && e == err,
                }
            },
            IncomingPacket::Data { payload, external_data, .. } => {
                let m = parsed_message(payload@, version);
                let r = parsed(packet, send_buffer, version);
                &&& m is Err ==> r is Err && r->Err_0 == m->Err_0
                &&& m is Ok && section(m->Ok_0, send_buffer) is Err ==> r is Err && r->Err_0
                    == PacketError::InvalidSendBufferIndex
                &&& m is Ok && section(m->Ok_0, send_buffer) is Ok && external_data is None ==> r
                    is Err && r->Err_0 == PacketError::ExternalData
                &&& m is Ok && section(m->Ok_0, send_buffer) is Ok && external_data is Some ==> r
                    is Ok && r->Ok_0.0 == m->Ok_0 && r->Ok_0.1 == section(m->Ok_0, send_buffer)->Ok_0
            },
        },
{
}

} // verus!
