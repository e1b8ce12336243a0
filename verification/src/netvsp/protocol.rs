//! The messages that are exchanged with the guest over the ring.
use crate::wire::{
    le32, le32_list, lemma_le32_round_trip, listed_number_is_read_back, push_bytes, push_u32,
    push_u32_list, push_zeros, u32_at, zeros,
};
use vstd::prelude::*;

verus! {

/// Asks for a protocol version.
pub const MESSAGE_TYPE_INIT: u32 = 1;

/// Answers [`MESSAGE_TYPE_INIT`].
pub const MESSAGE_TYPE_INIT_COMPLETE: u32 = 2;

/// Tells the NDIS version of the guest.
pub const MESSAGE1_TYPE_SEND_NDIS_VERSION: u32 = 100;

/// Offers the receive buffer.
pub const MESSAGE1_TYPE_SEND_RECEIVE_BUFFER: u32 = 101;

/// Answers [`MESSAGE1_TYPE_SEND_RECEIVE_BUFFER`].
pub const MESSAGE1_TYPE_SEND_RECEIVE_BUFFER_COMPLETE: u32 = 102;

/// Takes the receive buffer back.
pub const MESSAGE1_TYPE_REVOKE_RECEIVE_BUFFER: u32 = 103;

/// Offers the send buffer.
pub const MESSAGE1_TYPE_SEND_SEND_BUFFER: u32 = 104;

/// Answers [`MESSAGE1_TYPE_SEND_SEND_BUFFER`].
pub const MESSAGE1_TYPE_SEND_SEND_BUFFER_COMPLETE: u32 = 105;

/// Takes the send buffer back.
pub const MESSAGE1_TYPE_REVOKE_SEND_BUFFER: u32 = 106;

/// Carries RNDIS messages.
pub const MESSAGE1_TYPE_SEND_RNDIS_PACKET: u32 = 107;

/// Completes RNDIS messages.
pub const MESSAGE1_TYPE_SEND_RNDIS_PACKET_COMPLETE: u32 = 108;

/// Tells the MTU and the capabilities of the guest.
pub const MESSAGE2_TYPE_SEND_NDIS_CONFIG: u32 = 125;

/// Announces or withdraws a virtual function.
pub const MESSAGE4_TYPE_SEND_VF_ASSOCIATION: u32 = 128;

/// Switches the data path.
pub const MESSAGE4_TYPE_SWITCH_DATA_PATH: u32 = 129;

/// Queries an OID.
pub const MESSAGE5_TYPE_OID_QUERY_EX: u32 = 131;

/// Answers [`MESSAGE5_TYPE_OID_QUERY_EX`].
pub const MESSAGE5_TYPE_OID_QUERY_EX_COMPLETE: u32 = 132;

/// Asks for subchannels.
pub const MESSAGE5_TYPE_SUB_CHANNEL: u32 = 133;

/// Tells the guest on which channels to send.
pub const MESSAGE5_TYPE_SEND_INDIRECTION_TABLE: u32 = 134;

/// Byte length of a packet before version 6.1.
pub const PACKET_SIZE_V1: usize = 28;

/// Byte length of a packet since version 6.1.
pub const PACKET_SIZE_V61: usize = 40;

/// The version that stands for "none" in the deprecated field of an answer.
pub const INVALID_PROTOCOL_VERSION: u32 = 0xffffffff;

/// No status.
pub const STATUS_NONE: u32 = 0;

/// The request was carried out.
pub const STATUS_SUCCESS: u32 = 1;

/// The request failed.
pub const STATUS_FAILURE: u32 = 2;

/// Packets travel through the synthetic adapter.
pub const DATA_PATH_SYNTHETIC: u32 = 0;

/// Packets travel through the virtual function.
pub const DATA_PATH_VF: u32 = 1;

/// RNDIS data channel.
pub const DATA_CHANNEL_TYPE: u32 = 0;

/// RNDIS control channel.
pub const CONTROL_CHANNEL_TYPE: u32 = 1;

/// Allocate subchannels.
pub const SUBCHANNEL_OPERATION_ALLOCATE: u32 = 1;

/// A message that does not use the send buffer.
pub const NO_SEND_BUFFER_SECTION: u32 = 0xffffffff;

/// Byte length of one section of the send buffer.
pub const SEND_BUFFER_SECTION_SIZE: u32 = 6144;

/// Number of entries of the send indirection table.
pub const SEND_INDIRECTION_TABLE_ENTRIES: u32 = 16;

/// Transaction ID of VF association messages, by which their completion is
/// recognized.
pub const VF_ASSOCIATION_TRANSACTION_ID: u64 = 0x8000000000000000;

/// Transaction ID of data path messages, by which their completion is
/// recognized.
pub const SWITCH_DATA_PATH_TRANSACTION_ID: u64 = 0x8000000000000001;

/// A protocol version.
#[derive(Debug, Clone, Copy, PartialEq, Eq, Structural)]
pub enum Version {
    /// Version 1.
    V1,
    /// Version 2.
    V2,
    /// Version 4.
    V4,
    /// Version 5.
    V5,
    /// Version 6.
    V6,
    /// Version 6.1.
    V61,
}

impl Version {
    /// The number by which the version is negotiated; later versions have
    /// larger numbers.
    pub open spec fn number(self) -> u32 {
        match self {
            Version::V1 => 0x00002,
            Version::V2 => 0x30002,
            Version::V4 => 0x40000,
            Version::V5 => 0x50000,
            Version::V6 => 0x60000,
            Version::V61 => 0x60001,
        }
    }

    /// The number by which the version is negotiated.
    pub fn as_u32(self) -> (n: u32)
        ensures
            n == self.number(),
    {
        match self {
            Version::V1 => 0x00002,
            Version::V2 => 0x30002,
            Version::V4 => 0x40000,
            Version::V5 => 0x50000,
            Version::V6 => 0x60000,
            Version::V61 => 0x60001,
        }
    }

    /// Whether this version is `other` or later.
    pub fn at_least(self, other: Version) -> (b: bool)
        ensures
            b == (self.number() >= other.number()),
    {
        self.as_u32() >= other.as_u32()
    }
}

/// The version that has the number `n`.
pub open spec fn version_with(n: u32) -> Option<Version> {
    if n == 0x00002 {
        Some(Version::V1)
    } else if n == 0x30002 {
        Some(Version::V2)
    } else if n == 0x40000 {
        Some(Version::V4)
    } else if n == 0x50000 {
        Some(Version::V5)
    } else if n == 0x60000 {
        Some(Version::V6)
    } else if n == 0x60001 {
        Some(Version::V61)
    } else {
        None
    }
}

/// Finds the version that has the number `requested_version`.
pub fn check_version(requested_version: u32) -> (r: Option<Version>)
    ensures
        r == version_with(requested_version),
        match r {
            Some(v) => v.number() == requested_version,
            None => forall|v: Version| #[trigger] v.number() != requested_version,
        },
{
    let supported = [Version::V1, Version::V2, Version::V4, Version::V5, Version::V6, Version::V61];
    let mut i: usize = 0;
    while i < 6
        invariant
            i <= 6,
            supported@ == seq![
                Version::V1,
                Version::V2,
                Version::V4,
                Version::V5,
                Version::V6,
                Version::V61,
            ],
            forall|j: int| 0 <= j < i ==> (#[trigger] supported@[j]).number() != requested_version,
        decreases 6 - i,
    {
        if supported[i].as_u32() == requested_version {
            return Some(supported[i]);
        }
        i = i + 1;
    }
    assert forall|v: Version| #[trigger] v.number() != requested_version by {
        assert(supported@[0].number() != requested_version);
        assert(supported@[1].number() != requested_version);
        assert(supported@[2].number() != requested_version);
        assert(supported@[3].number() != requested_version);
        assert(supported@[4].number() != requested_version);
        assert(supported@[5].number() != requested_version);
    }
    None
}

/// A version survives the way through its number.
pub proof fn version_number_identifies(a: Version, b: Version)
    ensures
        a.number() == b.number() ==> a == b,
{
}

/// A byte range of the receive buffer that is handed to the guest.
#[derive(Debug, Clone, Copy, PartialEq, Eq, Structural)]
pub struct TransferPageRange {
    /// Offset into the receive buffer.
    pub byte_offset: u32,
    /// Length of the range.
    pub byte_count: u32,
}

/// How an outgoing packet is framed on the ring.
#[derive(Debug)]
pub enum OutgoingPacketType {
    /// Completes a packet of the guest.
    Completion,
    /// A message that the guest does not complete.
    InBandNoCompletion,
    /// A message that the guest completes.
    InBandWithCompletion,
    /// A message with ranges of the receive buffer that has this ID.
    TransferPages(u16, Vec<TransferPageRange>),
}

/// A packet for the outgoing ring.
#[derive(Debug)]
pub struct OutgoingPacket {
    /// The transaction ID.
    pub transaction_id: u64,
    /// The framing.
    pub packet_type: OutgoingPacketType,
    /// The message.
    pub payload: Vec<u8>,
}

/// What an [`OutgoingPacketType`] says.
pub enum PacketTypeView {
    /// Completes a packet of the guest.
    Completion,
    /// A message that the guest does not complete.
    InBandNoCompletion,
    /// A message that the guest completes.
    InBandWithCompletion,
    /// A message with ranges of the receive buffer that has this ID.
    TransferPages(u16, Seq<TransferPageRange>),
}

/// What an [`OutgoingPacket`] says.
pub struct PacketView {
    /// The transaction ID.
    pub transaction_id: u64,
    /// The framing.
    pub packet_type: PacketTypeView,
    /// The message.
    pub payload: Seq<u8>,
}

impl View for OutgoingPacketType {
    type V = PacketTypeView;

    open spec fn view(&self) -> PacketTypeView {
        match self {
            OutgoingPacketType::Completion => PacketTypeView::Completion,
            OutgoingPacketType::InBandNoCompletion => PacketTypeView::InBandNoCompletion,
            OutgoingPacketType::InBandWithCompletion => PacketTypeView::InBandWithCompletion,
            OutgoingPacketType::TransferPages(id, ranges) => PacketTypeView::TransferPages(
                *id,
                ranges@,
            ),
        }
    }
}

impl View for OutgoingPacket {
    type V = PacketView;

    open spec fn view(&self) -> PacketView {
        PacketView {
            transaction_id: self.transaction_id,
            packet_type: self.packet_type@,
            payload: self.payload@,
        }
    }
}

/// A message: its type, its fields, and zeros up to the packet size.
#[derive(Debug)]
pub struct NvspMessage {
    /// The message type.
    pub message_type: u32,
    /// The encoded fields.
    pub data: Vec<u8>,
    /// How many zero bytes follow.
    pub padding: usize,
}

/// The zero bytes that round a message up to the packet size.
pub open spec fn padding_len(packet_size: int, data_len: int) -> int {
    if 4 + data_len >= packet_size {
        0
    } else {
        packet_size - 4 - data_len
    }
}

/// The bytes of a message that is padded to `packet_size`.
pub open spec fn message_bytes(packet_size: int, message_type: u32, data: Seq<u8>) -> Seq<u8> {
    le32(message_type) + data + zeros(padding_len(packet_size, data.len() as int) as nat)
}

impl NvspMessage {
    /// The bytes of the message.
    pub open spec fn bytes(self) -> Seq<u8> {
        le32(self.message_type) + self.data@ + zeros(self.padding as nat)
    }

    /// The bytes of the message: header, fields and padding.
    pub fn payload(&self) -> (bytes: Vec<u8>)
        ensures
            bytes@ == self.bytes(),
    {
        let mut out: Vec<u8> = Vec::new();
        push_u32(&mut out, self.message_type);
        assert(out@ =~= le32(self.message_type));
        push_bytes(&mut out, self.data.as_slice());
        push_zeros(&mut out, self.padding);
        out
    }
}

/// The number of zero bytes that round the message up to the packet size. Only
/// Windows guests need them: they are picky about packet sizes.
pub fn padding(packet_size: usize, data: &Vec<u8>) -> (n: usize)
    ensures
        n == padding_len(packet_size as int, data@.len() as int),
{
    let len: usize = data.len();
    if packet_size <= 4 || packet_size - 4 <= len {
        0
    } else {
        packet_size - 4 - len
    }
}

/// Builds a message that is padded to `packet_size`.
pub fn message(packet_size: usize, message_type: u32, data: Vec<u8>) -> (m: NvspMessage)
    ensures
        m.message_type == message_type,
        m.data == data,
        m.bytes() == message_bytes(packet_size as int, message_type, data@),
{
    let padding = padding(packet_size, &data);
    NvspMessage { message_type, data, padding }
}

/// The fields of a list of 32-bit numbers.
pub fn fields(xs: &[u32]) -> (data: Vec<u8>)
    ensures
        data@ == le32_list(xs@),
{
    let mut out: Vec<u8> = Vec::new();
    push_u32_list(&mut out, xs);
    assert(Seq::<u8>::empty() + le32_list(xs@) =~= le32_list(xs@));
    out
}

/// A message is read back as it was written: its type comes first, then its fields, and it
/// fills a packet.
pub proof fn message_is_read_back(packet_size: int, message_type: u32, xs: Seq<u32>, i: int)
    requires
        0 <= packet_size,
        0 <= i < xs.len(),
    ensures
        ({
            let b = message_bytes(packet_size, message_type, le32_list(xs));
            &&& u32_at(b, 0) == message_type
            &&& u32_at(b, 4 + 4 * i) == xs[i]
            &&& b.len() >= packet_size
            &&& b.len() >= 4 + 4 * xs.len()
            &&& b.len() == packet_size || b.len() == 4 + 4 * xs.len()
            &&& forall|k: int| 4 + 4 * xs.len() <= k < b.len() ==> #[trigger] b[k] == 0
        }),
{
    let l = le32_list(xs);
    let b = message_bytes(packet_size, message_type, l);
    lemma_le32_round_trip(message_type);
    listed_number_is_read_back(xs, i);
    assert(u32_at(b, 0) == u32_at(le32(message_type), 0));
    assert(b[4 + 4 * i] == l[4 * i]);
    assert(b[4 + 4 * i + 1] == l[4 * i + 1]);
    assert(b[4 + 4 * i + 2] == l[4 * i + 2]);
    assert(b[4 + 4 * i + 3] == l[4 * i + 3]);
}

/// Later versions have larger numbers: the major version is in the upper half, except that
/// the first two versions count otherwise.
pub proof fn versions_are_ordered()
    ensures
        Version::V1.number() < Version::V2.number() < Version::V4.number()
            < Version::V5.number() < Version::V6.number() < Version::V61.number(),
        Version::V4.number() == 4 * 0x1_0000,
        Version::V5.number() == 5 * 0x1_0000,
        Version::V6.number() == 6 * 0x1_0000,
        Version::V61.number() == 6 * 0x1_0000 + 1,
        Version::V1.number() == 2,
        Version::V2.number() == 3 * 0x1_0000 + 2,
{
}

} // verus!
