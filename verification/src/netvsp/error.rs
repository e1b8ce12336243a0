//! Why a channel stops.
use crate::netvsp::packet::PacketError;
use vstd::prelude::*;

verus! {

/// A packet arrived at a time when it is not allowed.
#[derive(Debug, Clone, Copy, PartialEq, Eq, Structural)]
pub enum PacketOrderError {
    /// Only negotiation packets are allowed.
    InvalidPacketData,
    /// RNDIS messages before the negotiation is done.
    UnexpectedRndisPacket,
    /// A second NDIS version.
    SendNdisVersionExists,
    /// A second NDIS configuration.
    SendNdisConfigExists,
    /// A second receive buffer.
    SendReceiveBufferExists,
    /// A receive buffer before the MTU.
    SendReceiveBufferMissingMTU,
    /// A second send buffer.
    SendSendBufferExists,
    /// A packet that only the primary channel handles, or none.
    SwitchDataPathCompletionPrimaryChannelState,
}

/// Why a buffer of the guest cannot be used.
#[derive(Debug, Clone, Copy, PartialEq, Eq, Structural)]
pub enum BufferError {
    /// The suballocations are too small, or the buffer holds none.
    UnsupportedSuballocationSize(u32),
    /// The memory is not contiguous and aligned.
    UnalignedGpadl,
    /// The memory is unknown.
    UnknownGpadlId,
}

/// Why a channel stops.
#[derive(Debug, Clone, Copy, PartialEq, Eq, Structural)]
pub enum WorkerError {
    /// A packet could not be parsed.
    Packet(PacketError),
    /// A packet arrived at the wrong time.
    UnexpectedPacketOrder(PacketOrderError),
    /// An RNDIS message of unknown type.
    UnknownRndisMessageType(u32),
    /// A message is shorter than what is read from it.
    Access,
    /// An RNDIS message is inconsistent with its length.
    RndisMessageTooSmall,
    /// An RNDIS feature that is not supported.
    UnsupportedRndisBehavior,
    /// The guest has queued too many control messages.
    TooManyControlMessages,
    /// The guest has completed a packet that it does not hold.
    InvalidRndisPacketCompletion,
    /// RNDIS messages without a transaction ID.
    MissingTransactionId,
    /// A message refers to an invalid page.
    InvalidGpadl,
    /// A message refers to memory that the guest does not have.
    GpaDirectError,
    /// The endpoint has failed.
    Endpoint,
    /// An RNDIS control message on a subchannel.
    NotSupportedOnSubChannel(u32),
    /// The ring has less room than was made sure of.
    OutOfSpace,
    /// A buffer of the guest cannot be used.
    Buffer(BufferError),
    /// A message that the state of the RNDIS protocol does not allow.
    InvalidRndisState,
    /// An RNDIS message that is not implemented.
    RndisMessageTypeNotImplemented,
    /// The TCP header would lie in the Ethernet header.
    InvalidTcpHeaderOffset,
    /// The guest has taken a buffer back.
    BufferRevoked,
    /// The endpoint asks for its queues to be restarted.
    EndpointRequiresQueueRestart,
}

} // verus!
