//! Queries and settings of the guest.
use crate::netvsp::adapter::Adapter;
use crate::netvsp::offload::{
    OffloadConfig, NDIS_ENCAPSULATION_IEEE_802_3, NDIS_OFFLOAD_SUPPORTED,
};
use crate::netvsp::rndis::{
    OID_802_3_CURRENT_ADDRESS, OID_802_3_MAXIMUM_LIST_SIZE, OID_802_3_MULTICAST_LIST,
    OID_802_3_PERMANENT_ADDRESS, OID_802_3_RCV_ERROR_ALIGNMENT, OID_802_3_XMIT_MORE_COLLISIONS,
    OID_802_3_XMIT_ONE_COLLISION, OID_GEN_BYTES_RCV, OID_GEN_BYTES_XMIT, OID_GEN_CURRENT_LOOKAHEAD,
    OID_GEN_CURRENT_PACKET_FILTER, OID_GEN_DRIVER_VERSION, OID_GEN_FRIENDLY_NAME,
    OID_GEN_HARDWARE_STATUS, OID_GEN_LINK_PARAMETERS, OID_GEN_LINK_SPEED, OID_GEN_LINK_STATE,
    OID_GEN_MAC_OPTIONS, OID_GEN_MAXIMUM_FRAME_SIZE, OID_GEN_MAXIMUM_LOOKAHEAD,
    OID_GEN_MAXIMUM_SEND_PACKETS, OID_GEN_MAXIMUM_TOTAL_SIZE, OID_GEN_MAX_LINK_SPEED,
    OID_GEN_MEDIA_CONNECT_STATUS, OID_GEN_MEDIA_IN_USE, OID_GEN_MEDIA_SUPPORTED,
    OID_GEN_NETWORK_LAYER_ADDRESSES, OID_GEN_PROTOCOL_OPTIONS, OID_GEN_RECEIVE_BLOCK_SIZE,
    OID_GEN_RECEIVE_BUFFER_SPACE, OID_GEN_RECEIVE_SCALE_CAPABILITIES,
    OID_GEN_RECEIVE_SCALE_PARAMETERS, OID_GEN_RNDIS_CONFIG_PARAMETER, OID_GEN_SUPPORTED_LIST,
    OID_GEN_TRANSMIT_BLOCK_SIZE, OID_GEN_TRANSMIT_BUFFER_SPACE, OID_GEN_VENDOR_DESCRIPTION,
    OID_GEN_VENDOR_DRIVER_VERSION, OID_GEN_VENDOR_ID, OID_OFFLOAD_ENCAPSULATION,
    OID_TCP_OFFLOAD_CURRENT_CONFIG, OID_TCP_OFFLOAD_HARDWARE_CAPABILITIES,
    OID_TCP_OFFLOAD_PARAMETERS, STATUS_BAD_VERSION, STATUS_FAILURE, STATUS_INVALID_DATA,
    STATUS_NOT_SUPPORTED,
};
use crate::netvsp::state::NdisVersion;
use crate::wire::{
    le16, le32, le32_list, le64, lemma_le32_round_trip, lemma_le64_round_trip, push_bytes,
    push_u16, push_u32, push_u32_list, push_u64, push_zeros, u16_at, u32_at, u64_at, zeros,
};
use vstd::prelude::*;

verus! {

/// Byte length of an Ethernet header.
pub const ETHERNET_HEADER_LEN: u32 = 14;

/// Object type of objects without a type of their own.
pub const NDIS_OBJECT_TYPE_DEFAULT: u8 = 0x80;

/// Object type of RSS capabilities.
pub const NDIS_OBJECT_TYPE_RSS_CAPABILITIES: u8 = 0x88;

/// Object type of an offload encapsulation.
pub const NDIS_OBJECT_TYPE_OFFLOAD_ENCAPSULATION: u8 = 0xA8;

/// Byte length of an offload encapsulation.
pub const NDIS_SIZEOF_OFFLOAD_ENCAPSULATION_REVISION_1: u16 = 28;

/// Byte length of offload parameters.
pub const NDIS_SIZEOF_OFFLOAD_PARAMETERS_REVISION_1: u16 = 20;

/// Byte length of the second revision of RSS capabilities.
pub const NDIS_SIZEOF_RECEIVE_SCALE_CAPABILITIES_REVISION_2: u16 = 18;

/// RSS hashes of TCP over IPv4 and IPv6, with the Toeplitz function.
pub const RSS_CAPABILITY_FLAGS: u32 = 0x301;

/// A part of a setting that can be wrong.
#[derive(Debug, Clone, Copy, PartialEq, Eq, Structural)]
pub enum OidField {
    /// The length of the RSS key.
    HashSecretKeySize,
    /// The length of the indirection table.
    IndirectionTableSize,
    /// The indirection table.
    IndirectionTable,
    /// The length of a parameter name.
    NameLength,
    /// The length of a parameter value.
    ValueLength,
    /// A parameter name.
    Name,
    /// A parameter value.
    Value,
    /// The object type.
    HeaderObjectType,
    /// The object size.
    HeaderSize,
    /// The object revision.
    HeaderRevision,
}

/// A feature that can be asked for in vain.
#[derive(Debug, Clone, Copy, PartialEq, Eq, Structural)]
pub enum OidFeature {
    /// The first version of TCP segmentation.
    Lsov1,
    /// An IPv4 encapsulation.
    Ipv4Encap,
    /// An IPv6 encapsulation.
    Ipv6Encap,
}

/// Why a query or a setting fails.
#[derive(Debug, Clone, Copy, PartialEq, Eq, Structural)]
pub enum OidError {
    /// The message is too short, or the answer too long.
    Access,
    /// The OID is unknown.
    UnknownOid,
    /// A part of a setting is wrong.
    InvalidInput(OidField),
    /// The NDIS version is not supported.
    BadVersion,
    /// A feature is not supported.
    NotSupported(OidFeature),
}

impl OidError {
    /// The status that the guest gets.
    pub fn as_status(&self) -> (status: u32)
        ensures
            status == self.spec_status(),
    {
        match self {
            OidError::UnknownOid | OidError::NotSupported(_) => STATUS_NOT_SUPPORTED,
            OidError::BadVersion => STATUS_BAD_VERSION,
            OidError::InvalidInput(_) => STATUS_INVALID_DATA,
            OidError::Access => STATUS_FAILURE,
        }
    }

    /// The status that the guest gets.
    pub open spec fn spec_status(self) -> u32 {
        match self {
            OidError::UnknownOid => STATUS_NOT_SUPPORTED,
            OidError::NotSupported(_) => STATUS_NOT_SUPPORTED,
            OidError::BadVersion => STATUS_BAD_VERSION,
            OidError::InvalidInput(_) => STATUS_INVALID_DATA,
            OidError::Access => STATUS_FAILURE,
        }
    }
}

/// The OIDs that every NDIS version has.
pub open spec fn oids_common() -> Seq<u32> {
    seq![
        OID_GEN_SUPPORTED_LIST,
        OID_GEN_HARDWARE_STATUS,
        OID_GEN_MEDIA_SUPPORTED,
        OID_GEN_MEDIA_IN_USE,
        OID_GEN_MAXIMUM_LOOKAHEAD,
        OID_GEN_CURRENT_LOOKAHEAD,
        OID_GEN_MAXIMUM_FRAME_SIZE,
        OID_GEN_MAXIMUM_TOTAL_SIZE,
        OID_GEN_TRANSMIT_BLOCK_SIZE,
        OID_GEN_RECEIVE_BLOCK_SIZE,
        OID_GEN_LINK_SPEED,
        OID_GEN_TRANSMIT_BUFFER_SPACE,
        OID_GEN_RECEIVE_BUFFER_SPACE,
        OID_GEN_VENDOR_ID,
        OID_GEN_VENDOR_DESCRIPTION,
        OID_GEN_VENDOR_DRIVER_VERSION,
        OID_GEN_DRIVER_VERSION,
        OID_GEN_CURRENT_PACKET_FILTER,
        OID_GEN_PROTOCOL_OPTIONS,
        OID_GEN_MAC_OPTIONS,
        OID_GEN_MEDIA_CONNECT_STATUS,
        OID_GEN_MAXIMUM_SEND_PACKETS,
        OID_GEN_NETWORK_LAYER_ADDRESSES,
        OID_GEN_FRIENDLY_NAME,
        OID_802_3_PERMANENT_ADDRESS,
        OID_802_3_CURRENT_ADDRESS,
        OID_802_3_MULTICAST_LIST,
        OID_802_3_MAXIMUM_LIST_SIZE,
        OID_802_3_RCV_ERROR_ALIGNMENT,
        OID_802_3_XMIT_ONE_COLLISION,
        OID_802_3_XMIT_MORE_COLLISIONS,
        OID_GEN_RNDIS_CONFIG_PARAMETER,
    ]
}

/// The OIDs that NDIS 6 adds.
pub open spec fn oids_6() -> Seq<u32> {
    seq![
        OID_GEN_LINK_PARAMETERS,
        OID_GEN_LINK_STATE,
        OID_GEN_MAX_LINK_SPEED,
        OID_GEN_BYTES_RCV,
        OID_GEN_BYTES_XMIT,
        OID_TCP_OFFLOAD_PARAMETERS,
        OID_OFFLOAD_ENCAPSULATION,
        OID_TCP_OFFLOAD_HARDWARE_CAPABILITIES,
        OID_TCP_OFFLOAD_CURRENT_CONFIG,
    ]
}

/// The OIDs that NDIS 6.30 adds.
pub open spec fn oids_63() -> Seq<u32> {
    seq![OID_GEN_RECEIVE_SCALE_CAPABILITIES, OID_GEN_RECEIVE_SCALE_PARAMETERS]
}

/// The OIDs of an NDIS version.
pub open spec fn supported_oids(v: NdisVersion) -> Option<Seq<u32>> {
    if v.major == 5 {
        Some(oids_common())
    } else if v.major == 6 {
        if v.minor >= 30 {
            Some(oids_common() + oids_6() + oids_63())
        } else {
            Some(oids_common() + oids_6())
        }
    } else {
        None
    }
}

fn append_oids(list: &mut Vec<u32>, more: &[u32])
    ensures
        final(list)@ == old(list)@ + more@,
{
    let mut i: usize = 0;
    assert(list@ =~= old(list)@ + more@.take(0));
    while i < more.len()
        invariant
            i <= more@.len(),
            list@ == old(list)@ + more@.take(i as int),
        decreases more@.len() - i,
    {
        list.push(more[i]);
        i = i + 1;
        assert(list@ =~= old(list)@ + more@.take(i as int));
    }
    assert(more@.take(i as int) =~= more@);
}

fn list_common() -> (r: [u32; 32])
    ensures
        r@ == oids_common(),
{
    let r: [u32; 32] = [
        OID_GEN_SUPPORTED_LIST,
        OID_GEN_HARDWARE_STATUS,
        OID_GEN_MEDIA_SUPPORTED,
        OID_GEN_MEDIA_IN_USE,
        OID_GEN_MAXIMUM_LOOKAHEAD,
        OID_GEN_CURRENT_LOOKAHEAD,
        OID_GEN_MAXIMUM_FRAME_SIZE,
        OID_GEN_MAXIMUM_TOTAL_SIZE,
        OID_GEN_TRANSMIT_BLOCK_SIZE,
        OID_GEN_RECEIVE_BLOCK_SIZE,
        OID_GEN_LINK_SPEED,
        OID_GEN_TRANSMIT_BUFFER_SPACE,
        OID_GEN_RECEIVE_BUFFER_SPACE,
        OID_GEN_VENDOR_ID,
        OID_GEN_VENDOR_DESCRIPTION,
        OID_GEN_VENDOR_DRIVER_VERSION,
        OID_GEN_DRIVER_VERSION,
        OID_GEN_CURRENT_PACKET_FILTER,
        OID_GEN_PROTOCOL_OPTIONS,
        OID_GEN_MAC_OPTIONS,
        OID_GEN_MEDIA_CONNECT_STATUS,
        OID_GEN_MAXIMUM_SEND_PACKETS,
        OID_GEN_NETWORK_LAYER_ADDRESSES,
        OID_GEN_FRIENDLY_NAME,
        OID_802_3_PERMANENT_ADDRESS,
        OID_802_3_CURRENT_ADDRESS,
        OID_802_3_MULTICAST_LIST,
        OID_802_3_MAXIMUM_LIST_SIZE,
        OID_802_3_RCV_ERROR_ALIGNMENT,
        OID_802_3_XMIT_ONE_COLLISION,
        OID_802_3_XMIT_MORE_COLLISIONS,
        OID_GEN_RNDIS_CONFIG_PARAMETER,
    ];
    assert(r@ =~= oids_common());
    r
}

fn list_6() -> (r: [u32; 9])
    ensures
        r@ == oids_6(),
{
    let r: [u32; 9] = [
        OID_GEN_LINK_PARAMETERS,
        OID_GEN_LINK_STATE,
        OID_GEN_MAX_LINK_SPEED,
        OID_GEN_BYTES_RCV,
        OID_GEN_BYTES_XMIT,
        OID_TCP_OFFLOAD_PARAMETERS,
        OID_OFFLOAD_ENCAPSULATION,
        OID_TCP_OFFLOAD_HARDWARE_CAPABILITIES,
        OID_TCP_OFFLOAD_CURRENT_CONFIG,
    ];
    assert(r@ =~= oids_6());
    r
}

fn list_63() -> (r: [u32; 2])
    ensures
        r@ == oids_63(),
{
    let r: [u32; 2] = [OID_GEN_RECEIVE_SCALE_CAPABILITIES, OID_GEN_RECEIVE_SCALE_PARAMETERS];
    assert(r@ =~= oids_63());
    r
}

fn list_supported_oids(v: NdisVersion) -> (r: Option<Vec<u32>>)
    ensures
        match supported_oids(v) {
            Some(oids) => r is Some && r->0@ == oids,
            None => r is None,
        },
{
    if v.major != 5 && v.major != 6 {
        return None;
    }
    let mut list: Vec<u32> = Vec::new();
    append_oids(&mut list, &list_common());
    assert(list@ =~= oids_common());
    if v.major == 6 {
        append_oids(&mut list, &list_6());
        if v.minor >= 30 {
            append_oids(&mut list, &list_63());
        }
    }
    Some(list)
}

/// The answer to a query of the link state: up, of unknown duplex state.
pub open spec fn link_state_bytes(link_speed: u64) -> Seq<u8> {
    seq![NDIS_OBJECT_TYPE_DEFAULT, 1u8] + le16(40) + le32(1) + le32(0) + le32(0) + le64(link_speed)
        + le64(link_speed) + le32(0) + le32(0)
}

/// The offload encapsulation: Ethernet, for IPv4 and IPv6.
pub open spec fn encapsulation_bytes() -> Seq<u8> {
    seq![NDIS_OBJECT_TYPE_OFFLOAD_ENCAPSULATION, 1u8] + le16(
        NDIS_SIZEOF_OFFLOAD_ENCAPSULATION_REVISION_1,
    ) + le32(NDIS_OFFLOAD_SUPPORTED) + le32(NDIS_ENCAPSULATION_IEEE_802_3) + le32(
        ETHERNET_HEADER_LEN,
    ) + le32(NDIS_OFFLOAD_SUPPORTED) + le32(NDIS_ENCAPSULATION_IEEE_802_3) + le32(
        ETHERNET_HEADER_LEN,
    )
}

/// The RSS capabilities. The table size is never zero, even if there is only one
/// queue: DPDK gets confused by that.
pub open spec fn rss_capabilities_bytes(max_queues: u16, indirection_table_size: u16) -> Seq<u8> {
    seq![NDIS_OBJECT_TYPE_RSS_CAPABILITIES, 2u8] + le16(
        NDIS_SIZEOF_RECEIVE_SCALE_CAPABILITIES_REVISION_2,
    ) + le32(RSS_CAPABILITY_FLAGS) + le32(1) + le32(max_queues as u32) + le16(
        if indirection_table_size != 0 {
            indirection_table_size
        } else {
            128
        },
    )
}

/// `Network Device` in UTF-16, in a field of 512 bytes.
pub open spec fn friendly_name_bytes() -> Seq<u8> {
    seq![
        78u8, 0, 101, 0, 116, 0, 119, 0, 111, 0, 114, 0, 107, 0, 32, 0, 68, 0, 101, 0, 118, 0, 105,
        0, 99, 0, 101, 0,
    ] + zeros(484)
}

/// `Microsoft Corporation`.
pub open spec fn vendor_description_bytes() -> Seq<u8> {
    seq![
        77u8, 105, 99, 114, 111, 115, 111, 102, 116, 32, 67, 111, 114, 112, 111, 114, 97, 116, 105,
        111, 110,
    ]
}

/// What the guest learns when it queries `oid`, before it is known whether the
/// answer fits.
pub open spec fn oid_value(
    adapter: Adapter,
    ndis_version: NdisVersion,
    mtu: u32,
    offload_config: OffloadConfig,
    oid: u32,
) -> Result<Seq<u8>, OidError> {
    if oid == OID_GEN_SUPPORTED_LIST {
        match supported_oids(ndis_version) {
            Some(oids) => Ok(le32_list(oids)),
            None => Err(OidError::BadVersion),
        }
    } else if oid == OID_GEN_HARDWARE_STATUS || oid == OID_GEN_MEDIA_SUPPORTED || oid
        == OID_GEN_MEDIA_IN_USE || oid == OID_GEN_CURRENT_PACKET_FILTER || oid
        == OID_GEN_MEDIA_CONNECT_STATUS || oid == OID_802_3_MAXIMUM_LIST_SIZE || oid
        == OID_802_3_RCV_ERROR_ALIGNMENT || oid == OID_802_3_XMIT_ONE_COLLISION || oid
        == OID_802_3_XMIT_MORE_COLLISIONS {
        // Ready; Ethernet; no filter; connected; none.
        Ok(le32(0))
    } else if oid == OID_GEN_MAXIMUM_LOOKAHEAD || oid == OID_GEN_CURRENT_LOOKAHEAD || oid
        == OID_GEN_MAXIMUM_FRAME_SIZE {
        Ok(le32((mtu - ETHERNET_HEADER_LEN) as u32))
    } else if oid == OID_GEN_MAXIMUM_TOTAL_SIZE || oid == OID_GEN_TRANSMIT_BLOCK_SIZE || oid
        == OID_GEN_RECEIVE_BLOCK_SIZE {
        Ok(le32(mtu))
    } else if oid == OID_GEN_LINK_SPEED {
        Ok(le32((adapter.link_speed / 100) as u32))
    } else if oid == OID_GEN_TRANSMIT_BUFFER_SPACE || oid == OID_GEN_RECEIVE_BUFFER_SPACE {
        // Meaningless for virtual NICs.
        Ok(le32(262144))
    } else if oid == OID_GEN_VENDOR_ID {
        // The first bytes of Microsoft's MAC address prefix.
        Ok(le32(0x0000155d))
    } else if oid == OID_GEN_VENDOR_DESCRIPTION {
        Ok(vendor_description_bytes())
    } else if oid == OID_GEN_VENDOR_DRIVER_VERSION || oid == OID_GEN_DRIVER_VERSION {
        Ok(le16(0x0100))
    } else if oid == OID_GEN_MAC_OPTIONS {
        // Copies lookahead data, transfers do not pend, no loopback.
        Ok(le32(13))
    } else if oid == OID_GEN_MAXIMUM_SEND_PACKETS {
        Ok(le32(u32::MAX))
    } else if oid == OID_GEN_FRIENDLY_NAME {
        Ok(friendly_name_bytes())
    } else if oid == OID_802_3_PERMANENT_ADDRESS || oid == OID_802_3_CURRENT_ADDRESS {
        Ok(adapter.mac_address@)
    } else if oid == OID_GEN_LINK_STATE {
        Ok(link_state_bytes(adapter.link_speed))
    } else if oid == OID_GEN_MAX_LINK_SPEED {
        Ok(le64(adapter.link_speed) + le64(adapter.link_speed))
    } else if oid == OID_TCP_OFFLOAD_HARDWARE_CAPABILITIES {
        Ok(adapter.offload_support.ndis_offload_bytes())
    } else if oid == OID_TCP_OFFLOAD_CURRENT_CONFIG {
        Ok(offload_config.ndis_offload_bytes())
    } else if oid == OID_OFFLOAD_ENCAPSULATION {
        Ok(encapsulation_bytes())
    } else if oid == OID_GEN_RECEIVE_SCALE_CAPABILITIES {
        Ok(rss_capabilities_bytes(adapter.max_queues, adapter.indirection_table_size))
    } else {
        Err(OidError::UnknownOid)
    }
}

/// What the guest gets when it queries `oid` with room for `available` bytes.
pub open spec fn oid_answer(
    adapter: Adapter,
    ndis_version: NdisVersion,
    mtu: u32,
    offload_config: OffloadConfig,
    oid: u32,
    available: int,
) -> Result<Seq<u8>, OidError> {
    match oid_value(adapter, ndis_version, mtu, offload_config, oid) {
        Ok(bytes) => if bytes.len() <= available {
            Ok(bytes)
        } else {
            Err(OidError::Access)
        },
        Err(err) => Err(err),
    }
}

fn bytes_u32(x: u32) -> (r: Vec<u8>)
    ensures
        r@ == le32(x),
{
    let mut out: Vec<u8> = Vec::new();
    push_u32(&mut out, x);
    assert(out@ =~= le32(x));
    out
}

fn object_header(object_type: u8, revision: u8, size: u16) -> (r: Vec<u8>)
    ensures
        r@ == seq![object_type, revision] + le16(size),
{
    let mut out: Vec<u8> = Vec::new();
    out.push(object_type);
    out.push(revision);
    assert(out@ =~= seq![object_type, revision]);
    push_u16(&mut out, size);
    out
}

fn link_state(link_speed: u64) -> (r: Vec<u8>)
    ensures
        r@ == link_state_bytes(link_speed),
{
    let mut out = object_header(NDIS_OBJECT_TYPE_DEFAULT, 1, 40);
    push_u32(&mut out, 1);
    push_u32(&mut out, 0);
    push_u32(&mut out, 0);
    push_u64(&mut out, link_speed);
    push_u64(&mut out, link_speed);
    push_u32(&mut out, 0);
    push_u32(&mut out, 0);
    out
}

fn encapsulation() -> (r: Vec<u8>)
    ensures
        r@ == encapsulation_bytes(),
{
    let mut out = object_header(
        NDIS_OBJECT_TYPE_OFFLOAD_ENCAPSULATION,
        1,
        NDIS_SIZEOF_OFFLOAD_ENCAPSULATION_REVISION_1,
    );
    push_u32(&mut out, NDIS_OFFLOAD_SUPPORTED);
    push_u32(&mut out, NDIS_ENCAPSULATION_IEEE_802_3);
    push_u32(&mut out, ETHERNET_HEADER_LEN);
    push_u32(&mut out, NDIS_OFFLOAD_SUPPORTED);
    push_u32(&mut out, NDIS_ENCAPSULATION_IEEE_802_3);
    push_u32(&mut out, ETHERNET_HEADER_LEN);
    out
}

fn rss_capabilities(max_queues: u16, indirection_table_size: u16) -> (r: Vec<u8>)
    ensures
        r@ == rss_capabilities_bytes(max_queues, indirection_table_size),
{
    let mut out = object_header(
        NDIS_OBJECT_TYPE_RSS_CAPABILITIES,
        2,
        NDIS_SIZEOF_RECEIVE_SCALE_CAPABILITIES_REVISION_2,
    );
    push_u32(&mut out, RSS_CAPABILITY_FLAGS);
    push_u32(&mut out, 1);
    push_u32(&mut out, max_queues as u32);
    push_u16(
        &mut out,
        if indirection_table_size != 0 {
            indirection_table_size
        } else {
            128
        },
    );
    out
}

fn friendly_name() -> (r: Vec<u8>)
    ensures
        r@ == friendly_name_bytes(),
{
    let name: [u8; 28] = [
        78, 0, 101, 0, 116, 0, 119, 0, 111, 0, 114, 0, 107, 0, 32, 0, 68, 0, 101, 0, 118, 0, 105, 0,
        99, 0, 101, 0,
    ];
    let mut out: Vec<u8> = Vec::new();
    push_bytes(&mut out, &name);
    assert(out@ =~= name@);
    push_zeros(&mut out, 484);
    assert(out@ =~= friendly_name_bytes());
    out
}

fn vendor_description() -> (r: Vec<u8>)
    ensures
        r@ == vendor_description_bytes(),
{
    let name: [u8; 21] = [
        77, 105, 99, 114, 111, 115, 111, 102, 116, 32, 67, 111, 114, 112, 111, 114, 97, 116, 105,
        111, 110,
    ];
    let mut out: Vec<u8> = Vec::new();
    push_bytes(&mut out, &name);
    assert(out@ =~= vendor_description_bytes());
    out
}

/// Answers a query with at most `available` bytes.
pub fn handle_oid_query(
    adapter: &Adapter,
    ndis_version: NdisVersion,
    mtu: u32,
    offload_config: &OffloadConfig,
    oid: u32,
    available: usize,
) -> (r: Result<Vec<u8>, OidError>)
    requires
        oid == OID_GEN_MAXIMUM_LOOKAHEAD || oid == OID_GEN_CURRENT_LOOKAHEAD || oid
            == OID_GEN_MAXIMUM_FRAME_SIZE ==> mtu >= ETHERNET_HEADER_LEN,
    ensures
        match oid_answer(*adapter, ndis_version, mtu, *offload_config, oid, available as int) {
            Ok(bytes) => r is Ok && r->Ok_0@ == bytes,
            Err(err) => r == Err::<Vec<u8>, OidError>(err),
        },
{
    let bytes: Vec<u8> = if oid == OID_GEN_SUPPORTED_LIST {
        match list_supported_oids(ndis_version) {
            Some(oids) => {
                let mut out: Vec<u8> = Vec::new();
                push_u32_list(&mut out, oids.as_slice());
                assert(out@ =~= le32_list(oids@));
                out
            },
            None => return Err(OidError::BadVersion),
        }
    } else if oid == OID_GEN_HARDWARE_STATUS || oid == OID_GEN_MEDIA_SUPPORTED || oid
        == OID_GEN_MEDIA_IN_USE || oid == OID_GEN_CURRENT_PACKET_FILTER || oid
        == OID_GEN_MEDIA_CONNECT_STATUS || oid == OID_802_3_MAXIMUM_LIST_SIZE || oid
        == OID_802_3_RCV_ERROR_ALIGNMENT || oid == OID_802_3_XMIT_ONE_COLLISION || oid
        == OID_802_3_XMIT_MORE_COLLISIONS {
        bytes_u32(0)
    } else if oid == OID_GEN_MAXIMUM_LOOKAHEAD || oid == OID_GEN_CURRENT_LOOKAHEAD || oid
        == OID_GEN_MAXIMUM_FRAME_SIZE {
        bytes_u32(mtu - ETHERNET_HEADER_LEN)
    } else if oid == OID_GEN_MAXIMUM_TOTAL_SIZE || oid == OID_GEN_TRANSMIT_BLOCK_SIZE || oid
        == OID_GEN_RECEIVE_BLOCK_SIZE {
        bytes_u32(mtu)
    } else if oid == OID_GEN_LINK_SPEED {
        #[verifier::truncate]
        let speed: u32 = (adapter.link_speed / 100) as u32;
        bytes_u32(speed)
    } else if oid == OID_GEN_TRANSMIT_BUFFER_SPACE || oid == OID_GEN_RECEIVE_BUFFER_SPACE {
        bytes_u32(262144)
    } else if oid == OID_GEN_VENDOR_ID {
        bytes_u32(0x0000155d)
    } else if oid == OID_GEN_VENDOR_DESCRIPTION {
        vendor_description()
    } else if oid == OID_GEN_VENDOR_DRIVER_VERSION || oid == OID_GEN_DRIVER_VERSION {
        let mut out: Vec<u8> = Vec::new();
        push_u16(&mut out, 0x0100);
        assert(out@ =~= le16(0x0100));
        out
    } else if oid == OID_GEN_MAC_OPTIONS {
        bytes_u32(13)
    } else if oid == OID_GEN_MAXIMUM_SEND_PACKETS {
        bytes_u32(u32::MAX)
    } else if oid == OID_GEN_FRIENDLY_NAME {
        friendly_name()
    } else if oid == OID_802_3_PERMANENT_ADDRESS || oid == OID_802_3_CURRENT_ADDRESS {
        let mut out: Vec<u8> = Vec::new();
        push_bytes(&mut out, &adapter.mac_address);
        assert(out@ =~= adapter.mac_address@);
        out
    } else if oid == OID_GEN_LINK_STATE {
        link_state(adapter.link_speed)
    } else if oid == OID_GEN_MAX_LINK_SPEED {
        let mut out: Vec<u8> = Vec::new();
        push_u64(&mut out, adapter.link_speed);
        assert(out@ =~= le64(adapter.link_speed));
        push_u64(&mut out, adapter.link_speed);
        out
    } else if oid == OID_TCP_OFFLOAD_HARDWARE_CAPABILITIES {
        adapter.offload_support.ndis_offload()
    } else if oid == OID_TCP_OFFLOAD_CURRENT_CONFIG {
        offload_config.ndis_offload()
    } else if oid == OID_OFFLOAD_ENCAPSULATION {
        encapsulation()
    } else if oid == OID_GEN_RECEIVE_SCALE_CAPABILITIES {
        rss_capabilities(adapter.max_queues, adapter.indirection_table_size)
    } else {
        return Err(OidError::UnknownOid);
    };
    if bytes.len() <= available {
        Ok(bytes)
    } else {
        Err(OidError::Access)
    }
}

proof fn lemma_link_bytes(link_speed: u64)
    ensures
        link_state_bytes(link_speed).len() == 40,
        u32_at(link_state_bytes(link_speed), 4) == 1,
        u64_at(link_state_bytes(link_speed), 16) == link_speed,
        u64_at(link_state_bytes(link_speed), 24) == link_speed,
        u64_at(le64(link_speed) + le64(link_speed), 0) == link_speed,
        u64_at(le64(link_speed) + le64(link_speed), 8) == link_speed,
{
    let b = link_state_bytes(link_speed);
    let d = le64(link_speed) + le64(link_speed);
    lemma_le64_round_trip(link_speed);
    lemma_le32_round_trip(1);
    assert(u32_at(b, 4) == u32_at(le32(1), 0));
    assert(u64_at(b, 16) == u64_at(le64(link_speed), 0));
    assert(u64_at(b, 24) == u64_at(le64(link_speed), 0));
    assert(u64_at(d, 0) == u64_at(le64(link_speed), 0));
    assert(u64_at(d, 8) == u64_at(le64(link_speed), 0));
}

/// A query tells the properties of the adapter: frame sizes are the MTU with the Ethernet header,
/// or without it; the speed is that of the link, in hundreds of bits per second or in bits; both
/// addresses are the adapter's; the link is up; and the offloads are those that are supported,
/// or those in effect.
#[verifier::rlimit(60)]
#[verifier::spinoff_prover]
pub proof fn query_tells_adapter_properties(
    adapter: Adapter,
    ndis_version: NdisVersion,
    mtu: u32,
    offload_config: OffloadConfig,
    oid: u32,
)
    requires
        mtu >= 14,
        adapter.link_speed / 100 <= u32::MAX,
    ensures
        ({
            let r = oid_value(adapter, ndis_version, mtu, offload_config, oid);
            let v = r->Ok_0;
            &&& oid == 0x10105 || oid == 0x10106 || oid == 0x1010F ==> r is Ok && v.len() == 4
                && u32_at(v, 0) + 14 == mtu
            &&& oid == 0x1010A || oid == 0x1010B || oid == 0x10111 ==> r is Ok && v.len() == 4
                && u32_at(v, 0) == mtu
            &&& oid == 0x10107 ==> r is Ok && v.len() == 4 && 100 * u32_at(v, 0)
                <= adapter.link_speed < 100 * u32_at(v, 0) + 100
            &&& oid == 0x10207 ==> r is Ok && v.len() == 40 && u32_at(v, 4) == 1 && u64_at(v, 16)
                == adapter.link_speed && u64_at(v, 24) == adapter.link_speed
            &&& oid == 0x10206 ==> r is Ok && v.len() == 16 && u64_at(v, 0) == adapter.link_speed
                && u64_at(v, 8) == adapter.link_speed
            &&& oid == 0x1010101 || oid == 0x1010102 ==> r is Ok && v == adapter.mac_address@
            &&& oid == 0xFC01020B ==> r is Ok && v == offload_config.ndis_offload_bytes()
            &&& oid == 0xFC01020D ==> r is Ok && v == adapter.offload_support.ndis_offload_bytes()
        }),
{
    let r = oid_value(adapter, ndis_version, mtu, offload_config, oid);
    lemma_le32_round_trip((mtu - 14) as u32);
    lemma_le32_round_trip(mtu);
    lemma_le32_round_trip((adapter.link_speed / 100) as u32);
    lemma_link_bytes(adapter.link_speed);
    if oid == 0x10105 || oid == 0x10106 || oid == 0x1010F {
        assert(r == Ok::<Seq<u8>, OidError>(le32((mtu - 14) as u32)));
    } else if oid == 0x1010A || oid == 0x1010B || oid == 0x10111 {
        assert(r == Ok::<Seq<u8>, OidError>(le32(mtu)));
    } else if oid == 0x10107 {
        assert(r == Ok::<Seq<u8>, OidError>(le32((adapter.link_speed / 100) as u32)));
    } else if oid == 0x10207 {
        assert(r == Ok::<Seq<u8>, OidError>(link_state_bytes(adapter.link_speed)));
    } else if oid == 0x10206 {
        assert(r == Ok::<Seq<u8>, OidError>(
            le64(adapter.link_speed) + le64(adapter.link_speed),
        ));
    }
}

/// What a query tells that does not depend on the adapter: it is ready, connected, Ethernet, of
/// Microsoft, and has no limits worth mentioning.
#[verifier::rlimit(60)]
#[verifier::spinoff_prover]
pub proof fn query_tells_constants(
    adapter: Adapter,
    ndis_version: NdisVersion,
    mtu: u32,
    offload_config: OffloadConfig,
    oid: u32,
)
    ensures
        ({
            let r = oid_value(adapter, ndis_version, mtu, offload_config, oid);
            let v = r->Ok_0;
            &&& oid == 0x10115 ==> r is Ok && v.len() == 4 && u32_at(v, 0) == 0xffffffff
            &&& oid == 0x10108 || oid == 0x10109 ==> r is Ok && v.len() == 4 && u32_at(v, 0)
                == 256 * 1024
            &&& oid == 0x1010C ==> r is Ok && v.len() == 4 && u32_at(v, 0) == 0x155d
            &&& oid == 0x10113 ==> r is Ok && v.len() == 4 && u32_at(v, 0) == 1 + 4 + 8
            &&& oid == 0x10110 || oid == 0x10116 ==> r is Ok && v == seq![0u8, 1u8]
            &&& oid == 0x10102 || oid == 0x10103 || oid == 0x10104 || oid == 0x1010E || oid
                == 0x10114 || oid == 0x1010104 || oid == 0x1020101 || oid == 0x1020102 || oid
                == 0x1020103 ==> r is Ok && v.len() == 4 && u32_at(v, 0) == 0
        }),
{
    let r = oid_value(adapter, ndis_version, mtu, offload_config, oid);
    lemma_le32_round_trip(u32::MAX);
    lemma_le32_round_trip(262144);
    lemma_le32_round_trip(0x0000155d);
    lemma_le32_round_trip(13);
    lemma_le32_round_trip(0);
    if oid == 0x10115 {
        assert(r == Ok::<Seq<u8>, OidError>(le32(u32::MAX)));
    } else if oid == 0x10108 || oid == 0x10109 {
        assert(r == Ok::<Seq<u8>, OidError>(le32(262144)));
    } else if oid == 0x1010C {
        assert(r == Ok::<Seq<u8>, OidError>(le32(0x0000155d)));
    } else if oid == 0x10113 {
        assert(r == Ok::<Seq<u8>, OidError>(le32(13)));
    } else if oid == 0x10110 || oid == 0x10116 {
        assert(r == Ok::<Seq<u8>, OidError>(le16(0x0100)));
        assert(le16(0x0100) =~= seq![0u8, 1u8]);
    } else if r is Ok && r->Ok_0 == le32(0) {
        assert(u32_at(r->Ok_0, 0) == 0);
    }
}

/// The capabilities for receive side scaling name the queues of the adapter, and a table that is
/// as long as the endpoint's, but never empty.
pub proof fn query_tells_rss_capabilities(
    adapter: Adapter,
    ndis_version: NdisVersion,
    mtu: u32,
    offload_config: OffloadConfig,
)
    ensures
        ({
            let r = oid_value(adapter, ndis_version, mtu, offload_config, 0x10203);
            let v = r->Ok_0;
            &&& r is Ok
            &&& v.len() == 18
            &&& v[0] == 0x88
            &&& v[1] == 2
            &&& u16_at(v, 2) == v.len()
            &&& u32_at(v, 4) == 0x301
            &&& u32_at(v, 8) == 1
            &&& u32_at(v, 12) == adapter.max_queues
            &&& u16_at(v, 16) > 0
            &&& adapter.indirection_table_size > 0 ==> u16_at(v, 16)
                == adapter.indirection_table_size
            &&& adapter.indirection_table_size == 0 ==> u16_at(v, 16) == 128
        }),
{
    let v = rss_capabilities_bytes(adapter.max_queues, adapter.indirection_table_size);
    lemma_le32_round_trip(RSS_CAPABILITY_FLAGS);
    lemma_le32_round_trip(1);
    lemma_le32_round_trip(adapter.max_queues as u32);
    assert(u32_at(v, 4) == u32_at(le32(RSS_CAPABILITY_FLAGS), 0));
    assert(u32_at(v, 8) == u32_at(le32(1), 0));
    assert(u32_at(v, 12) == u32_at(le32(adapter.max_queues as u32), 0));
}

/// Every OID that can be queried is in the list that a guest of the latest NDIS gets, and the list
/// itself is what that OID answers. Each NDIS version adds to the one before: offloads with 6,
/// receive side scaling with 6.30. Other versions get an error.
pub proof fn supported_oids_are_listed(
    adapter: Adapter,
    v: NdisVersion,
    mtu: u32,
    offload_config: OffloadConfig,
    oid: u32,
)
    ensures
        ({
            let latest = NdisVersion { major: 6, minor: 30 };
            let r = oid_value(adapter, v, mtu, offload_config, oid);
            let list = oid_value(adapter, v, mtu, offload_config, 0x10101);
            &&& r is Ok ==> supported_oids(latest)->0.contains(oid)
            &&& oid != 0x10101 && r is Err ==> r == Err::<Seq<u8>, OidError>(OidError::UnknownOid)
            &&& v.major != 5 && v.major != 6 ==> list == Err::<Seq<u8>, OidError>(
                OidError::BadVersion,
            )
            &&& v.major == 5 || v.major == 6 ==> list is Ok && supported_oids(v) is Some
                && list->Ok_0 == le32_list(supported_oids(v)->0)
            &&& v.major == 5 ==> supported_oids(v)->0.len() == 32 && !supported_oids(v)->0.contains(
                0xFC01020B,
            )
            &&& v.major == 6 ==> supported_oids(v)->0.take(32) == supported_oids(
                NdisVersion { major: 5, minor: 0 },
            )->0 && supported_oids(v)->0.contains(0xFC01020B) && supported_oids(v)->0.contains(
                0xFC01020C,
            )
            &&& v.major == 6 ==> supported_oids(v)->0.contains(0x10203) == (v.minor >= 30)
        }),
{
    lemma_latest_list(oid);
    lemma_answered_oid(adapter, v, mtu, offload_config, oid);
    lemma_lists(v);
}

/// Whether an OID can be queried.
spec fn is_queried(oid: u32) -> bool {
    ||| 0x10101 <= oid <= 0x10111
    ||| 0x10113 <= oid <= 0x10116
    ||| oid == 0x20216
    ||| oid == 0x1010101
    ||| oid == 0x1010102
    ||| oid == 0x1010104
    ||| 0x1020101 <= oid <= 0x1020103
    ||| oid == 0x10206
    ||| oid == 0x10207
    ||| oid == 0x101010A
    ||| oid == 0xFC01020B
    ||| oid == 0xFC01020D
    ||| oid == 0x10203
}

#[verifier::spinoff_prover]
proof fn lemma_answered_oid(
    adapter: Adapter,
    v: NdisVersion,
    mtu: u32,
    offload_config: OffloadConfig,
    oid: u32,
)
    ensures
        oid_value(adapter, v, mtu, offload_config, oid) is Ok ==> is_queried(oid),
        oid != 0x10101 && oid_value(adapter, v, mtu, offload_config, oid) is Err ==> oid_value(
            adapter,
            v,
            mtu,
            offload_config,
            oid,
        ) == Err::<Seq<u8>, OidError>(OidError::UnknownOid),
{
}

#[verifier::spinoff_prover]
proof fn lemma_latest_list(oid: u32)
    ensures
        is_queried(oid) ==> supported_oids(NdisVersion { major: 6, minor: 30 })->0.contains(oid),
{
    let a = oids_common();
    let b = oids_6();
    let c = oids_63();
    let l = supported_oids(NdisVersion { major: 6, minor: 30 })->0;
    assert(l == a + b + c);
    assert(l.len() == 43);
    assert forall|i: int| 0 <= i < 32 implies l.contains(#[trigger] a[i]) by {
        assert(l[i] == a[i]);
    }
    assert forall|i: int| 0 <= i < 9 implies l.contains(#[trigger] b[i]) by {
        assert(l[32 + i] == b[i]);
    }
    assert forall|i: int| 0 <= i < 2 implies l.contains(#[trigger] c[i]) by {
        assert(l[41 + i] == c[i]);
    }
    assert(a[0] == 0x10101 && a[1] == 0x10102 && a[2] == 0x10103 && a[3] == 0x10104);
    assert(a[4] == 0x10105 && a[5] == 0x1010F && a[6] == 0x10106 && a[7] == 0x10111);
    assert(a[8] == 0x1010A && a[9] == 0x1010B && a[10] == 0x10107 && a[11] == 0x10108);
    assert(a[12] == 0x10109 && a[13] == 0x1010C && a[14] == 0x1010D && a[15] == 0x10116);
    assert(a[16] == 0x10110 && a[17] == 0x1010E && a[19] == 0x10113 && a[20] == 0x10114);
    assert(a[21] == 0x10115 && a[23] == 0x20216 && a[24] == 0x1010101 && a[25] == 0x1010102);
    assert(a[27] == 0x1010104 && a[28] == 0x1020101 && a[29] == 0x1020102 && a[30] == 0x1020103);
    assert(b[1] == 0x10207 && b[2] == 0x10206 && b[6] == 0x101010A && b[7] == 0xFC01020D);
    assert(b[8] == 0xFC01020B && c[0] == 0x10203);
}

#[verifier::spinoff_prover]
proof fn lemma_lists(v: NdisVersion)
    ensures
        v.major == 5 ==> supported_oids(v)->0.len() == 32 && !supported_oids(v)->0.contains(
            0xFC01020B,
        ),
        v.major == 6 ==> supported_oids(v)->0.take(32) == supported_oids(
            NdisVersion { major: 5, minor: 0 },
        )->0 && supported_oids(v)->0.contains(0xFC01020B) && supported_oids(v)->0.contains(
            0xFC01020C,
        ),
        v.major == 6 ==> supported_oids(v)->0.contains(0x10203) == (v.minor >= 30),
{
    if v.major == 6 {
        let s = supported_oids(v)->0;
        assert(s.take(32) =~= oids_common());
        assert(s[40] == oids_6()[8]);
        assert(s[37] == oids_6()[5]);
        if v.minor >= 30 {
            assert(s[41] == oids_63()[0]);
        } else {
            assert(s.len() == 41);
            assert forall|i: int| 0 <= i < 41 implies #[trigger] s[i] != 0x10203u32 by {
                if i < 32 {
                    assert(s[i] == oids_common()[i]);
                } else {
                    assert(s[i] == oids_6()[i - 32]);
                }
            }
        }
    }
}

/// An answer is given whole or not at all, and each error has its status.
pub proof fn answers_are_not_cut(
    adapter: Adapter,
    v: NdisVersion,
    mtu: u32,
    offload_config: OffloadConfig,
    oid: u32,
    available: int,
)
    ensures
        ({
            let full = oid_value(adapter, v, mtu, offload_config, oid);
            let r = oid_answer(adapter, v, mtu, offload_config, oid, available);
            &&& full is Err ==> r == full
            &&& full is Ok && full->Ok_0.len() <= available ==> r == full
            &&& full is Ok && full->Ok_0.len() > available ==> r == Err::<Seq<u8>, OidError>(
                OidError::Access,
            )
        }),
        OidError::UnknownOid.spec_status() == 0xC00000BB,
        OidError::BadVersion.spec_status() == 0xC0010004,
        OidError::Access.spec_status() == 0xC0000001,
        forall|f: OidFeature|
            #[trigger] OidError::NotSupported(f).spec_status() == 0xC00000BB,
        forall|f: OidField| #[trigger] OidError::InvalidInput(f).spec_status() == 0xC0010015,
{
}

} // verus!
