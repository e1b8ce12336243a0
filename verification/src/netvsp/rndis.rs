//! Object identifiers of the RNDIS protocol, and its status codes.
use vstd::prelude::*;

verus! {

/// The list of supported OIDs.
pub const OID_GEN_SUPPORTED_LIST: u32 = 0x00010101;

/// The state of the hardware.
pub const OID_GEN_HARDWARE_STATUS: u32 = 0x00010102;

/// The supported media.
pub const OID_GEN_MEDIA_SUPPORTED: u32 = 0x00010103;

/// The media in use.
pub const OID_GEN_MEDIA_IN_USE: u32 = 0x00010104;

/// The most lookahead bytes.
pub const OID_GEN_MAXIMUM_LOOKAHEAD: u32 = 0x00010105;

/// The frame size without header.
pub const OID_GEN_MAXIMUM_FRAME_SIZE: u32 = 0x00010106;

/// The link speed in units of 100 bits per second.
pub const OID_GEN_LINK_SPEED: u32 = 0x00010107;

/// The transmit buffer space.
pub const OID_GEN_TRANSMIT_BUFFER_SPACE: u32 = 0x00010108;

/// The receive buffer space.
pub const OID_GEN_RECEIVE_BUFFER_SPACE: u32 = 0x00010109;

/// The transmit block size.
pub const OID_GEN_TRANSMIT_BLOCK_SIZE: u32 = 0x0001010A;

/// The receive block size.
pub const OID_GEN_RECEIVE_BLOCK_SIZE: u32 = 0x0001010B;

/// The vendor.
pub const OID_GEN_VENDOR_ID: u32 = 0x0001010C;

/// The vendor, as text.
pub const OID_GEN_VENDOR_DESCRIPTION: u32 = 0x0001010D;

/// The packet filter.
pub const OID_GEN_CURRENT_PACKET_FILTER: u32 = 0x0001010E;

/// The lookahead bytes.
pub const OID_GEN_CURRENT_LOOKAHEAD: u32 = 0x0001010F;

/// The NDIS version of the driver.
pub const OID_GEN_DRIVER_VERSION: u32 = 0x00010110;

/// The frame size with header.
pub const OID_GEN_MAXIMUM_TOTAL_SIZE: u32 = 0x00010111;

/// Protocol options.
pub const OID_GEN_PROTOCOL_OPTIONS: u32 = 0x00010112;

/// MAC options.
pub const OID_GEN_MAC_OPTIONS: u32 = 0x00010113;

/// Whether the media is connected.
pub const OID_GEN_MEDIA_CONNECT_STATUS: u32 = 0x00010114;

/// The most packets per send.
pub const OID_GEN_MAXIMUM_SEND_PACKETS: u32 = 0x00010115;

/// The version of the driver.
pub const OID_GEN_VENDOR_DRIVER_VERSION: u32 = 0x00010116;

/// Network layer addresses.
pub const OID_GEN_NETWORK_LAYER_ADDRESSES: u32 = 0x00010118;

/// RSS capabilities.
pub const OID_GEN_RECEIVE_SCALE_CAPABILITIES: u32 = 0x00010203;

/// RSS parameters.
pub const OID_GEN_RECEIVE_SCALE_PARAMETERS: u32 = 0x00010204;

/// The highest link speed.
pub const OID_GEN_MAX_LINK_SPEED: u32 = 0x00010206;

/// The link state.
pub const OID_GEN_LINK_STATE: u32 = 0x00010207;

/// Link parameters.
pub const OID_GEN_LINK_PARAMETERS: u32 = 0x00010208;

/// A named configuration parameter.
pub const OID_GEN_RNDIS_CONFIG_PARAMETER: u32 = 0x0001021B;

/// The display name.
pub const OID_GEN_FRIENDLY_NAME: u32 = 0x00020216;

/// The bytes received.
pub const OID_GEN_BYTES_RCV: u32 = 0x00020219;

/// The bytes sent.
pub const OID_GEN_BYTES_XMIT: u32 = 0x0002021A;

/// The permanent MAC address.
pub const OID_802_3_PERMANENT_ADDRESS: u32 = 0x01010101;

/// The MAC address.
pub const OID_802_3_CURRENT_ADDRESS: u32 = 0x01010102;

/// The multicast list.
pub const OID_802_3_MULTICAST_LIST: u32 = 0x01010103;

/// The longest multicast list.
pub const OID_802_3_MAXIMUM_LIST_SIZE: u32 = 0x01010104;

/// The encapsulation for offloads.
pub const OID_OFFLOAD_ENCAPSULATION: u32 = 0x0101010A;

/// Alignment errors.
pub const OID_802_3_RCV_ERROR_ALIGNMENT: u32 = 0x01020101;

/// Frames with one collision.
pub const OID_802_3_XMIT_ONE_COLLISION: u32 = 0x01020102;

/// Frames with more collisions.
pub const OID_802_3_XMIT_MORE_COLLISIONS: u32 = 0x01020103;

/// The offloads in effect.
pub const OID_TCP_OFFLOAD_CURRENT_CONFIG: u32 = 0xFC01020B;

/// Turns offloads on and off.
pub const OID_TCP_OFFLOAD_PARAMETERS: u32 = 0xFC01020C;

/// The offloads that are supported.
pub const OID_TCP_OFFLOAD_HARDWARE_CAPABILITIES: u32 = 0xFC01020D;

/// The request was carried out.
pub const STATUS_SUCCESS: u32 = 0x00000000;

/// The request failed.
pub const STATUS_FAILURE: u32 = 0xC0000001;

/// The request is not supported.
pub const STATUS_NOT_SUPPORTED: u32 = 0xC00000BB;

/// The NDIS version is not supported.
pub const STATUS_BAD_VERSION: u32 = 0xC0010004;

/// The request is malformed.
pub const STATUS_INVALID_DATA: u32 = 0xC0010015;

/// The link is up.
pub const STATUS_MEDIA_CONNECT: u32 = 0x4001000B;

/// The link is down.
pub const STATUS_MEDIA_DISCONNECT: u32 = 0x4001000C;

/// The offloads have changed.
pub const STATUS_TASK_OFFLOAD_CURRENT_CONFIG: u32 = 0x40020006;

/// An Ethernet frame.
pub const MESSAGE_TYPE_PACKET_MSG: u32 = 0x00000001;

/// Initializes the protocol.
pub const MESSAGE_TYPE_INITIALIZE_MSG: u32 = 0x00000002;

/// Shuts the protocol down.
pub const MESSAGE_TYPE_HALT_MSG: u32 = 0x00000003;

/// Queries an OID.
pub const MESSAGE_TYPE_QUERY_MSG: u32 = 0x00000004;

/// Sets an OID.
pub const MESSAGE_TYPE_SET_MSG: u32 = 0x00000005;

/// Resets the device.
pub const MESSAGE_TYPE_RESET_MSG: u32 = 0x00000006;

/// Reports a status.
pub const MESSAGE_TYPE_INDICATE_STATUS_MSG: u32 = 0x00000007;

/// Asks for a sign of life.
pub const MESSAGE_TYPE_KEEPALIVE_MSG: u32 = 0x00000008;

/// Sets an OID, extended.
pub const MESSAGE_TYPE_SET_EX_MSG: u32 = 0x00000009;

/// Answers an initialization.
pub const MESSAGE_TYPE_INITIALIZE_CMPLT: u32 = 0x80000002;

/// Answers a query.
pub const MESSAGE_TYPE_QUERY_CMPLT: u32 = 0x80000004;

/// Answers a set.
pub const MESSAGE_TYPE_SET_CMPLT: u32 = 0x80000005;

/// Answers a keepalive.
pub const MESSAGE_TYPE_KEEPALIVE_CMPLT: u32 = 0x80000008;

} // verus!
