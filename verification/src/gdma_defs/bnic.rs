//! Definitions of the basic NIC (BNIC, MANA).
use crate::wire::{
    le16, le32, le32_list, le64, push_bytes, push_u16, push_u32, push_u32_list, push_u64, read_u32,
    read_u64, u16_at, u32_at, u64_at,
};
use vstd::prelude::*;

verus! {

/// Query the device configuration.
pub const MANA_QUERY_DEV_CONFIG: u32 = 0x20001;

/// Query statistics.
pub const MANA_QUERY_STATS: u32 = 0x20002;

/// Set up transmission.
pub const MANA_CONFIG_VPORT_TX: u32 = 0x20003;

/// Create a work queue.
pub const MANA_CREATE_WQ_OBJ: u32 = 0x20004;

/// Destroy a work queue.
pub const MANA_DESTROY_WQ_OBJ: u32 = 0x20005;

/// Fence a receive queue.
pub const MANA_FENCE_RQ: u32 = 0x20006;

/// Set up reception.
pub const MANA_CONFIG_VPORT_RX: u32 = 0x20007;

/// Query the vport configuration.
pub const MANA_QUERY_VPORT_CONFIG: u32 = 0x20008;

/// Set the serial number of a vport.
pub const MANA_VTL2_ASSIGN_SERIAL_NUMBER: u32 = 0x27801;

/// Move the packet filter.
pub const MANA_VTL2_MOVE_FILTER: u32 = 0x27802;

/// Query where the packet filter is.
pub const MANA_VTL2_QUERY_FILTER_STATE: u32 = 0x27803;

/// A message version.
pub const MANA_QUERY_DEV_CONFIG_REQUEST_V1: u16 = 1;

/// A message version.
pub const MANA_QUERY_DEV_CONFIG_RESPONSE_V4: u16 = 4;

/// A message version.
pub const MANA_VTL2_MOVE_FILTER_REQUEST_V2: u16 = 2;

/// A message version.
pub const MANA_VTL2_MOVE_FILTER_RESPONSE_V1: u16 = 1;

/// A message version.
pub const MANA_VTL2_ASSIGN_SERIAL_NUMBER_REQUEST_V1: u16 = 1;

/// A message version.
pub const MANA_VTL2_ASSIGN_SERIAL_NUMBER_RESPONSE_V1: u16 = 1;

/// A message version.
pub const MANA_VTL2_QUERY_FILTER_STATE_REQUEST_V1: u16 = 1;

/// A message version.
pub const MANA_VTL2_QUERY_FILTER_STATE_RESPONSE_V1: u16 = 1;

/// A completion code.
pub const CQE_INVALID: u8 = 0;

/// A completion code.
pub const CQE_RX_OKAY: u8 = 1;

/// A completion code.
pub const CQE_RX_COALESCED_4: u8 = 2;

/// A completion code.
pub const CQE_RX_OBJECT_FENCE: u8 = 3;

/// A completion code.
pub const CQE_RX_TRUNCATED: u8 = 4;

/// A completion code.
pub const CQE_TX_OKAY: u8 = 32;

/// A completion code.
pub const CQE_TX_SA_DROP: u8 = 33;

/// A completion code.
pub const CQE_TX_MTU_DROP: u8 = 34;

/// A completion code.
pub const CQE_TX_INVALID_OOB: u8 = 35;

/// A completion code.
pub const CQE_TX_INVALID_ETH_TYPE: u8 = 36;

/// A completion code.
pub const CQE_TX_HDR_PROCESSING_ERROR: u8 = 37;

/// A completion code.
pub const CQE_TX_VF_DISABLED: u8 = 38;

/// A completion code.
pub const CQE_TX_VPORT_IDX_OUT_OF_RANGE: u8 = 39;

/// A completion code.
pub const CQE_TX_VPORT_DISABLED: u8 = 40;

/// A completion code.
pub const CQE_TX_VLAN_TAGGING_VIOLATION: u8 = 41;

/// A completion code.
pub const CQE_TX_GDMA_ERR: u8 = 42;

/// A completion code.
pub const MANA_CQE_COMPLETION: u8 = 1;

/// A packet format.
pub const MANA_SHORT_PKT_FMT: u8 = 0;

/// A packet format.
pub const MANA_LONG_PKT_FMT: u8 = 1;

/// A statistic.
pub const STATISTICS_FLAGS_IN_DISCARDS_NO_WQE: u64 = 0x0000000000000001;

/// A statistic.
pub const STATISTICS_FLAGS_IN_ERRORS_RX_VPORT_DISABLED: u64 = 0x0000000000000002;

/// A statistic.
pub const STATISTICS_FLAGS_HC_IN_OCTETS: u64 = 0x0000000000000004;

/// A statistic.
pub const STATISTICS_FLAGS_HC_IN_UCAST_PACKETS: u64 = 0x0000000000000008;

/// A statistic.
pub const STATISTICS_FLAGS_HC_IN_UCAST_OCTETS: u64 = 0x0000000000000010;

/// A statistic.
pub const STATISTICS_FLAGS_HC_IN_MCAST_PACKETS: u64 = 0x0000000000000020;

/// A statistic.
pub const STATISTICS_FLAGS_HC_IN_MCAST_OCTETS: u64 = 0x0000000000000040;

/// A statistic.
pub const STATISTICS_FLAGS_HC_IN_BCAST_PACKETS: u64 = 0x0000000000000080;

/// A statistic.
pub const STATISTICS_FLAGS_HC_IN_BCAST_OCTETS: u64 = 0x0000000000000100;

/// A statistic.
pub const STATISTICS_FLAGS_OUT_ERRORS_GF_DISABLED: u64 = 0x0000000000000200;

/// A statistic.
pub const STATISTICS_FLAGS_OUT_ERRORS_VPORT_DISABLED: u64 = 0x0000000000000400;

/// A statistic.
pub const STATISTICS_FLAGS_OUT_ERRORS_INVALID_VPORT_OFFSET_PACKETS: u64 = 0x0000000000000800;

/// A statistic.
pub const STATISTICS_FLAGS_OUT_ERRORS_VLAN_ENFORCEMENT: u64 = 0x0000000000001000;

/// A statistic.
pub const STATISTICS_FLAGS_OUT_ERRORS_ETH_TYPE_ENFORCEMENT: u64 = 0x0000000000002000;

/// A statistic.
pub const STATISTICS_FLAGS_OUT_ERRORS_SA_ENFORCEMENT: u64 = 0x0000000000004000;

/// A statistic.
pub const STATISTICS_FLAGS_OUT_ERRORS_SQPDID_ENFORCEMENT: u64 = 0x0000000000008000;

/// A statistic.
pub const STATISTICS_FLAGS_OUT_ERRORS_CQPDID_ENFORCEMENT: u64 = 0x0000000000010000;

/// A statistic.
pub const STATISTICS_FLAGS_OUT_ERRORS_MTU_VIOLATION: u64 = 0x0000000000020000;

/// A statistic.
pub const STATISTICS_FLAGS_OUT_ERRORS_INVALID_OOB: u64 = 0x0000000000040000;

/// A statistic.
pub const STATISTICS_FLAGS_HC_OUT_OCTETS: u64 = 0x0000000000080000;

/// A statistic.
pub const STATISTICS_FLAGS_HC_OUT_UCAST_PACKETS: u64 = 0x0000000000100000;

/// A statistic.
pub const STATISTICS_FLAGS_HC_OUT_UCAST_OCTETS: u64 = 0x0000000000200000;

/// A statistic.
pub const STATISTICS_FLAGS_HC_OUT_MCAST_PACKETS: u64 = 0x0000000000400000;

/// A statistic.
pub const STATISTICS_FLAGS_HC_OUT_MCAST_OCTETS: u64 = 0x0000000000800000;

/// A statistic.
pub const STATISTICS_FLAGS_HC_OUT_BCAST_PACKETS: u64 = 0x0000000001000000;

/// A statistic.
pub const STATISTICS_FLAGS_HC_OUT_BCAST_OCTETS: u64 = 0x0000000002000000;

/// All statistics.
pub const STATISTICS_FLAGS_ALL: u64 = 0x0000000003ffffff;

/// The type of a queue.
#[derive(Debug, Clone, Copy, PartialEq, Eq, Structural)]
pub struct GdmaQueueType(pub u32);

/// A send queue.
pub const GDMA_SQ: u32 = 1;

/// A receive queue.
pub const GDMA_RQ: u32 = 2;

/// A completion queue.
pub const GDMA_CQ: u32 = 3;

/// An event queue.
pub const GDMA_EQ: u32 = 4;

/// A truth value that may be left as it is.
#[derive(Debug, Clone, Copy, PartialEq, Eq, Structural)]
pub struct Tristate(pub u32);

/// The number of a true [`Tristate`].
pub const TRISTATE_TRUE: u32 = 1;

/// The number of a false [`Tristate`].
pub const TRISTATE_FALSE: u32 = 0;

/// The number of a [`Tristate`] that is left as it is.
pub const TRISTATE_UNKNOWN: u32 = 0xffffffff;

impl vstd::std_specs::convert::FromSpecImpl<Option<bool>> for Tristate {
    open spec fn obeys_from_spec() -> bool {
        true
    }

    open spec fn from_spec(v: Option<bool>) -> Tristate {
        match v {
            Some(true) => Tristate(TRISTATE_TRUE),
            Some(false) => Tristate(TRISTATE_FALSE),
            None => Tristate(TRISTATE_UNKNOWN),
        }
    }
}

impl From<Option<bool>> for Tristate {
    fn from(v: Option<bool>) -> (t: Tristate) {
        match v {
            Some(true) => Tristate(TRISTATE_TRUE),
            Some(false) => Tristate(TRISTATE_FALSE),
            None => Tristate(TRISTATE_UNKNOWN),
        }
    }
}

/// Capabilities of the device, packed from the lowest bit up.
#[derive(Debug, Clone, Copy, PartialEq, Eq, Structural)]
pub struct BasicNicDriverFlags(pub u64);

impl BasicNicDriverFlags {
    /// All bits zero.
    pub fn new() -> (r: BasicNicDriverFlags)
        ensures
            r.0 == 0,
    {
        BasicNicDriverFlags(0)
    }

    /// 1 bit from bit 0.
    pub fn query_link_status(self) -> (r: u8)
        ensures
            r == (self.0 as int / 1) % 2,
    {
        ((self.0 / 1) % 2) as u8
    }

    /// The same with `query_link_status` set.
    pub fn with_query_link_status(self, v: u8) -> (r: BasicNicDriverFlags)
        requires
            v < 2,
        ensures
            r.0 == self.0 - (self.0 as int / 1) % 2 * 1 + v * 1,
    {
        let now: u64 = (self.0 / 1) % 2;
        BasicNicDriverFlags(self.0 - now * 1 + (v as u64) * 1)
    }

    /// 1 bit from bit 1.
    pub fn ethertype_enforcement(self) -> (r: u8)
        ensures
            r == (self.0 as int / 2) % 2,
    {
        ((self.0 / 2) % 2) as u8
    }

    /// The same with `ethertype_enforcement` set.
    pub fn with_ethertype_enforcement(self, v: u8) -> (r: BasicNicDriverFlags)
        requires
            v < 2,
        ensures
            r.0 == self.0 - (self.0 as int / 2) % 2 * 2 + v * 2,
    {
        let now: u64 = (self.0 / 2) % 2;
        BasicNicDriverFlags(self.0 - now * 2 + (v as u64) * 2)
    }

    /// 1 bit from bit 2.
    pub fn query_filter_state(self) -> (r: u8)
        ensures
            r == (self.0 as int / 4) % 2,
    {
        ((self.0 / 4) % 2) as u8
    }

    /// The same with `query_filter_state` set.
    pub fn with_query_filter_state(self, v: u8) -> (r: BasicNicDriverFlags)
        requires
            v < 2,
        ensures
            r.0 == self.0 - (self.0 as int / 4) % 2 * 4 + v * 4,
    {
        let now: u64 = (self.0 / 4) % 2;
        BasicNicDriverFlags(self.0 - now * 4 + (v as u64) * 4)
    }
}

/// The start of a completion, packed from the lowest bit up.
#[derive(Debug, Clone, Copy, PartialEq, Eq, Structural)]
pub struct ManaCqeHeader(pub u32);

impl ManaCqeHeader {
    /// All bits zero.
    pub fn new() -> (r: ManaCqeHeader)
        ensures
            r.0 == 0,
    {
        ManaCqeHeader(0)
    }

    /// 6 bits from bit 0.
    pub fn cqe_type(self) -> (r: u8)
        ensures
            r == (self.0 as int / 1) % 64,
    {
        ((self.0 / 1) % 64) as u8
    }

    /// The same with `cqe_type` set.
    pub fn with_cqe_type(self, v: u8) -> (r: ManaCqeHeader)
        requires
            v < 64,
        ensures
            r.0 == self.0 - (self.0 as int / 1) % 64 * 1 + v * 1,
    {
        let now: u32 = (self.0 / 1) % 64;
        ManaCqeHeader(self.0 - now * 1 + (v as u32) * 1)
    }

    /// 2 bits from bit 6.
    pub fn client_type(self) -> (r: u8)
        ensures
            r == (self.0 as int / 64) % 4,
    {
        ((self.0 / 64) % 4) as u8
    }

    /// The same with `client_type` set.
    pub fn with_client_type(self, v: u8) -> (r: ManaCqeHeader)
        requires
            v < 4,
        ensures
            r.0 == self.0 - (self.0 as int / 64) % 4 * 64 + v * 64,
    {
        let now: u32 = (self.0 / 64) % 4;
        ManaCqeHeader(self.0 - now * 64 + (v as u32) * 64)
    }

    /// 24 bits from bit 8.
    pub fn vendor_err(self) -> (r: u32)
        ensures
            r == (self.0 as int / 256) % 16777216,
    {
        ((self.0 / 256) % 16777216) as u32
    }
}

/// Where a transmission stood in its queue, packed from the lowest bit up.
#[derive(Debug, Clone, Copy, PartialEq, Eq, Structural)]
pub struct ManaTxCompOobOffsets(pub u32);

impl ManaTxCompOobOffsets {
    /// All bits zero.
    pub fn new() -> (r: ManaTxCompOobOffsets)
        ensures
            r.0 == 0,
    {
        ManaTxCompOobOffsets(0)
    }

    /// 5 bits from bit 0.
    pub fn tx_sgl_offset(self) -> (r: u32)
        ensures
            r == (self.0 as int / 1) % 32,
    {
        ((self.0 / 1) % 32) as u32
    }

    /// 27 bits from bit 5.
    pub fn tx_wqe_offset(self) -> (r: u32)
        ensures
            r == (self.0 as int / 32) % 134217728,
    {
        ((self.0 / 32) % 134217728) as u32
    }
}

/// What was found out about received packets, packed from the lowest bit up.
#[derive(Debug, Clone, Copy, PartialEq, Eq, Structural)]
pub struct ManaRxcompOobFlags(pub u32);

impl ManaRxcompOobFlags {
    /// All bits zero.
    pub fn new() -> (r: ManaRxcompOobFlags)
        ensures
            r.0 == 0,
    {
        ManaRxcompOobFlags(0)
    }

    /// 12 bits from bit 0.
    pub fn rx_vlan_id(self) -> (r: u32)
        ensures
            r == (self.0 as int / 1) % 4096,
    {
        ((self.0 / 1) % 4096) as u32
    }

    /// Bit 12.
    pub fn rx_vlantag_present(self) -> (r: bool)
        ensures
            r == ((self.0 as int / 4096) % 2 == 1),
    {
        (self.0 / 4096) % 2 == 1
    }

    /// Bit 13.
    pub fn rx_outer_iphdr_csum_succeed(self) -> (r: bool)
        ensures
            r == ((self.0 as int / 8192) % 2 == 1),
    {
        (self.0 / 8192) % 2 == 1
    }

    /// Bit 14.
    pub fn rx_outer_iphdr_csum_fail(self) -> (r: bool)
        ensures
            r == ((self.0 as int / 16384) % 2 == 1),
    {
        (self.0 / 16384) % 2 == 1
    }

    /// Bit 15.
    pub fn reserved1(self) -> (r: bool)
        ensures
            r == ((self.0 as int / 32768) % 2 == 1),
    {
        (self.0 / 32768) % 2 == 1
    }

    /// 9 bits from bit 16.
    pub fn rx_hashtype(self) -> (r: u16)
        ensures
            r == (self.0 as int / 65536) % 512,
    {
        ((self.0 / 65536) % 512) as u16
    }

    /// Bit 25.
    pub fn rx_iphdr_csum_succeed(self) -> (r: bool)
        ensures
            r == ((self.0 as int / 33554432) % 2 == 1),
    {
        (self.0 / 33554432) % 2 == 1
    }

    /// The same with `rx_iphdr_csum_succeed` set.
    pub fn with_rx_iphdr_csum_succeed(self, v: bool) -> (r: ManaRxcompOobFlags)
        ensures
            r.0 == self.0 - (self.0 as int / 33554432) % 2 * 33554432 + (if v { 1int } else { 0 }) * 33554432,
    {
        let now: u32 = (self.0 / 33554432) % 2;
        ManaRxcompOobFlags(self.0 - now * 33554432 + (if v { 1 } else { 0 }) * 33554432)
    }

    /// Bit 26.
    pub fn rx_iphdr_csum_fail(self) -> (r: bool)
        ensures
            r == ((self.0 as int / 67108864) % 2 == 1),
    {
        (self.0 / 67108864) % 2 == 1
    }

    /// The same with `rx_iphdr_csum_fail` set.
    pub fn with_rx_iphdr_csum_fail(self, v: bool) -> (r: ManaRxcompOobFlags)
        ensures
            r.0 == self.0 - (self.0 as int / 67108864) % 2 * 67108864 + (if v { 1int } else { 0 }) * 67108864,
    {
        let now: u32 = (self.0 / 67108864) % 2;
        ManaRxcompOobFlags(self.0 - now * 67108864 + (if v { 1 } else { 0 }) * 67108864)
    }

    /// Bit 27.
    pub fn rx_tcp_csum_succeed(self) -> (r: bool)
        ensures
            r == ((self.0 as int / 134217728) % 2 == 1),
    {
        (self.0 / 134217728) % 2 == 1
    }

    /// The same with `rx_tcp_csum_succeed` set.
    pub fn with_rx_tcp_csum_succeed(self, v: bool) -> (r: ManaRxcompOobFlags)
        ensures
            r.0 == self.0 - (self.0 as int / 134217728) % 2 * 134217728 + (if v { 1int } else { 0 }) * 134217728,
    {
        let now: u32 = (self.0 / 134217728) % 2;
        ManaRxcompOobFlags(self.0 - now * 134217728 + (if v { 1 } else { 0 }) * 134217728)
    }

    /// Bit 28.
    pub fn rx_tcp_csum_fail(self) -> (r: bool)
        ensures
            r == ((self.0 as int / 268435456) % 2 == 1),
    {
        (self.0 / 268435456) % 2 == 1
    }

    /// The same with `rx_tcp_csum_fail` set.
    pub fn with_rx_tcp_csum_fail(self, v: bool) -> (r: ManaRxcompOobFlags)
        ensures
            r.0 == self.0 - (self.0 as int / 268435456) % 2 * 268435456 + (if v { 1int } else { 0 }) * 268435456,
    {
        let now: u32 = (self.0 / 268435456) % 2;
        ManaRxcompOobFlags(self.0 - now * 268435456 + (if v { 1 } else { 0 }) * 268435456)
    }

    /// Bit 29.
    pub fn rx_udp_csum_succeed(self) -> (r: bool)
        ensures
            r == ((self.0 as int / 536870912) % 2 == 1),
    {
        (self.0 / 536870912) % 2 == 1
    }

    /// The same with `rx_udp_csum_succeed` set.
    pub fn with_rx_udp_csum_succeed(self, v: bool) -> (r: ManaRxcompOobFlags)
        ensures
            r.0 == self.0 - (self.0 as int / 536870912) % 2 * 536870912 + (if v { 1int } else { 0 }) * 536870912,
    {
        let now: u32 = (self.0 / 536870912) % 2;
        ManaRxcompOobFlags(self.0 - now * 536870912 + (if v { 1 } else { 0 }) * 536870912)
    }

    /// Bit 30.
    pub fn rx_udp_csum_fail(self) -> (r: bool)
        ensures
            r == ((self.0 as int / 1073741824) % 2 == 1),
    {
        (self.0 / 1073741824) % 2 == 1
    }

    /// The same with `rx_udp_csum_fail` set.
    pub fn with_rx_udp_csum_fail(self, v: bool) -> (r: ManaRxcompOobFlags)
        ensures
            r.0 == self.0 - (self.0 as int / 1073741824) % 2 * 1073741824 + (if v { 1int } else { 0 }) * 1073741824,
    {
        let now: u32 = (self.0 / 1073741824) % 2;
        ManaRxcompOobFlags(self.0 - now * 1073741824 + (if v { 1 } else { 0 }) * 1073741824)
    }

    /// Bit 31.
    pub fn reserved2(self) -> (r: bool)
        ensures
            r == ((self.0 as int / 2147483648) % 2 == 1),
    {
        (self.0 / 2147483648) % 2 == 1
    }
}

/// The short form of what goes with a transmission, packed from the lowest bit up.
#[derive(Debug, Clone, Copy, PartialEq, Eq, Structural)]
pub struct ManaTxShortOob(pub u64);

impl ManaTxShortOob {
    /// All bits zero.
    pub fn new() -> (r: ManaTxShortOob)
        ensures
            r.0 == 0,
    {
        ManaTxShortOob(0)
    }

    /// 2 bits from bit 0.
    pub fn pkt_fmt(self) -> (r: u8)
        ensures
            r == (self.0 as int / 1) % 4,
    {
        ((self.0 / 1) % 4) as u8
    }

    /// Bit 2.
    pub fn is_outer_ipv4(self) -> (r: bool)
        ensures
            r == ((self.0 as int / 4) % 2 == 1),
    {
        (self.0 / 4) % 2 == 1
    }

    /// Bit 3.
    pub fn is_outer_ipv6(self) -> (r: bool)
        ensures
            r == ((self.0 as int / 8) % 2 == 1),
    {
        (self.0 / 8) % 2 == 1
    }

    /// Bit 4.
    pub fn comp_iphdr_csum(self) -> (r: bool)
        ensures
            r == ((self.0 as int / 16) % 2 == 1),
    {
        (self.0 / 16) % 2 == 1
    }

    /// Bit 5.
    pub fn comp_tcp_csum(self) -> (r: bool)
        ensures
            r == ((self.0 as int / 32) % 2 == 1),
    {
        (self.0 / 32) % 2 == 1
    }

    /// Bit 6.
    pub fn comp_udp_csum(self) -> (r: bool)
        ensures
            r == ((self.0 as int / 64) % 2 == 1),
    {
        (self.0 / 64) % 2 == 1
    }

    /// Bit 7.
    pub fn suppress_txcqe_gen(self) -> (r: bool)
        ensures
            r == ((self.0 as int / 128) % 2 == 1),
    {
        (self.0 / 128) % 2 == 1
    }

    /// 24 bits from bit 8.
    pub fn vcq_num(self) -> (r: u32)
        ensures
            r == (self.0 as int / 256) % 16777216,
    {
        ((self.0 / 256) % 16777216) as u32
    }

    /// 10 bits from bit 32.
    pub fn trans_off(self) -> (r: u16)
        ensures
            r == (self.0 as int / 4294967296) % 1024,
    {
        ((self.0 / 4294967296) % 1024) as u16
    }

    /// 14 bits from bit 42.
    pub fn vsq_frame(self) -> (r: u16)
        ensures
            r == (self.0 as int / 4398046511104) % 16384,
    {
        ((self.0 / 4398046511104) % 16384) as u16
    }

    /// 8 bits from bit 56.
    pub fn short_vp_offset(self) -> (r: u8)
        ensures
            r == (self.0 as int / 72057594037927936) % 256,
    {
        ((self.0 / 72057594037927936) % 256) as u8
    }
}

/// The rest of the long form, packed from the lowest bit up.
#[derive(Debug, Clone, Copy, PartialEq, Eq, Structural)]
pub struct ManaTxLongOob(pub u64);

impl ManaTxLongOob {
    /// All bits zero.
    pub fn new() -> (r: ManaTxLongOob)
        ensures
            r.0 == 0,
    {
        ManaTxLongOob(0)
    }

    /// Bit 0.
    pub fn is_encap(self) -> (r: bool)
        ensures
            r == ((self.0 as int / 1) % 2 == 1),
    {
        (self.0 / 1) % 2 == 1
    }

    /// Bit 1.
    pub fn inner_is_ipv6(self) -> (r: bool)
        ensures
            r == ((self.0 as int / 2) % 2 == 1),
    {
        (self.0 / 2) % 2 == 1
    }

    /// Bit 2.
    pub fn inner_tcp_opt(self) -> (r: bool)
        ensures
            r == ((self.0 as int / 4) % 2 == 1),
    {
        (self.0 / 4) % 2 == 1
    }

    /// Bit 3.
    pub fn inject_vlan_pri_tag(self) -> (r: bool)
        ensures
            r == ((self.0 as int / 8) % 2 == 1),
    {
        (self.0 / 8) % 2 == 1
    }

    /// 12 bits from bit 4.
    pub fn reserved1(self) -> (r: u32)
        ensures
            r == (self.0 as int / 16) % 4096,
    {
        ((self.0 / 16) % 4096) as u32
    }

    /// 3 bits from bit 16.
    pub fn pcp(self) -> (r: u8)
        ensures
            r == (self.0 as int / 65536) % 8,
    {
        ((self.0 / 65536) % 8) as u8
    }

    /// Bit 19.
    pub fn dei(self) -> (r: bool)
        ensures
            r == ((self.0 as int / 524288) % 2 == 1),
    {
        (self.0 / 524288) % 2 == 1
    }

    /// 12 bits from bit 20.
    pub fn vlan_id(self) -> (r: u16)
        ensures
            r == (self.0 as int / 1048576) % 4096,
    {
        ((self.0 / 1048576) % 4096) as u16
    }

    /// 10 bits from bit 32.
    pub fn inner_frame_offset(self) -> (r: u16)
        ensures
            r == (self.0 as int / 4294967296) % 1024,
    {
        ((self.0 / 4294967296) % 1024) as u16
    }

    /// 6 bits from bit 42.
    pub fn inner_ip_rel_offset(self) -> (r: u16)
        ensures
            r == (self.0 as int / 4398046511104) % 64,
    {
        ((self.0 / 4398046511104) % 64) as u16
    }

    /// 12 bits from bit 48.
    pub fn long_vp_offset(self) -> (r: u16)
        ensures
            r == (self.0 as int / 281474976710656) % 4096,
    {
        ((self.0 / 281474976710656) % 4096) as u16
    }

    /// 4 bits from bit 60.
    pub fn reserved2(self) -> (r: u16)
        ensures
            r == (self.0 as int / 1152921504606846976) % 16,
    {
        ((self.0 / 1152921504606846976) % 16) as u16
    }
}

/// Asks for the configuration of the device.
#[derive(Debug, Clone, Copy, PartialEq, Eq, Structural)]
pub struct ManaQueryDeviceCfgReq {
    /// The field `mn_drv_cap_flags1`.
    pub mn_drv_cap_flags1: u64,
    /// The field `mn_drv_cap_flags2`.
    pub mn_drv_cap_flags2: u64,
    /// The field `mn_drv_cap_flags3`.
    pub mn_drv_cap_flags3: u64,
    /// The field `mn_drv_cap_flags4`.
    pub mn_drv_cap_flags4: u64,
    /// The field `proto_major_ver`.
    pub proto_major_ver: u32,
    /// The field `proto_minor_ver`.
    pub proto_minor_ver: u32,
    /// The field `proto_micro_ver`.
    pub proto_micro_ver: u32,
    /// The field `reserved`.
    pub reserved: u32,
}

impl ManaQueryDeviceCfgReq {
    /// The fields one after another, in 48 bytes.
    pub open spec fn bytes(self) -> Seq<u8> {
        le64(self.mn_drv_cap_flags1) + le64(self.mn_drv_cap_flags2) + le64(self.mn_drv_cap_flags3) + le64(self.mn_drv_cap_flags4) + le32(self.proto_major_ver) + le32(self.proto_minor_ver) + le32(self.proto_micro_ver) + le32(self.reserved)
    }

    /// Appends the fields one after another.
    pub fn push_to(&self, out: &mut Vec<u8>)
        ensures
            final(out)@ == old(out)@ + self.bytes(),
    {
        push_u64(out, self.mn_drv_cap_flags1);
        push_u64(out, self.mn_drv_cap_flags2);
        push_u64(out, self.mn_drv_cap_flags3);
        push_u64(out, self.mn_drv_cap_flags4);
        push_u32(out, self.proto_major_ver);
        push_u32(out, self.proto_minor_ver);
        push_u32(out, self.proto_micro_ver);
        push_u32(out, self.reserved);
        assert(out@ =~= old(out)@ + self.bytes());
    }
}

/// The configuration of the device.
#[derive(Debug, Clone, Copy, PartialEq, Eq, Structural)]
pub struct ManaQueryDeviceCfgResp {
    /// The field `pf_cap_flags1`.
    pub pf_cap_flags1: BasicNicDriverFlags,
    /// The field `pf_cap_flags2`.
    pub pf_cap_flags2: u64,
    /// The field `pf_cap_flags3`.
    pub pf_cap_flags3: u64,
    /// The field `pf_cap_flags4`.
    pub pf_cap_flags4: u64,
    /// The field `max_num_vports`.
    pub max_num_vports: u16,
    /// The field `reserved`.
    pub reserved: u16,
    /// The field `max_num_eqs`.
    pub max_num_eqs: u32,
    /// The field `adapter_mtu`.
    pub adapter_mtu: u16,
    /// The field `reserved2`.
    pub reserved2: u16,
    /// The field `adapter_link_speed_mbps`.
    pub adapter_link_speed_mbps: u32,
}

impl ManaQueryDeviceCfgResp {
    /// The fields one after another, in 48 bytes.
    pub open spec fn bytes(self) -> Seq<u8> {
        le64(self.pf_cap_flags1.0) + le64(self.pf_cap_flags2) + le64(self.pf_cap_flags3) + le64(self.pf_cap_flags4) + le16(self.max_num_vports) + le16(self.reserved) + le32(self.max_num_eqs) + le16(self.adapter_mtu) + le16(self.reserved2) + le32(self.adapter_link_speed_mbps)
    }

    /// Appends the fields one after another.
    pub fn push_to(&self, out: &mut Vec<u8>)
        ensures
            final(out)@ == old(out)@ + self.bytes(),
    {
        push_u64(out, self.pf_cap_flags1.0);
        push_u64(out, self.pf_cap_flags2);
        push_u64(out, self.pf_cap_flags3);
        push_u64(out, self.pf_cap_flags4);
        push_u16(out, self.max_num_vports);
        push_u16(out, self.reserved);
        push_u32(out, self.max_num_eqs);
        push_u16(out, self.adapter_mtu);
        push_u16(out, self.reserved2);
        push_u32(out, self.adapter_link_speed_mbps);
        assert(out@ =~= old(out)@ + self.bytes());
    }
}

/// Asks for the configuration of a vport.
#[derive(Debug, Clone, Copy, PartialEq, Eq, Structural)]
pub struct ManaQueryVportCfgReq {
    /// The field `vport_index`.
    pub vport_index: u32,
}

impl ManaQueryVportCfgReq {
    /// The fields one after another, in 4 bytes.
    pub open spec fn bytes(self) -> Seq<u8> {
        le32(self.vport_index)
    }

    /// Appends the fields one after another.
    pub fn push_to(&self, out: &mut Vec<u8>)
        ensures
            final(out)@ == old(out)@ + self.bytes(),
    {
        push_u32(out, self.vport_index);
        assert(out@ =~= old(out)@ + self.bytes());
    }
}

/// The configuration of a vport.
#[derive(Debug, Clone, Copy)]
pub struct ManaQueryVportCfgResp {
    /// The field `max_num_sq`.
    pub max_num_sq: u32,
    /// The field `max_num_rq`.
    pub max_num_rq: u32,
    /// The field `num_indirection_ent`.
    pub num_indirection_ent: u32,
    /// The field `reserved1`.
    pub reserved1: u32,
    /// The field `mac_addr`.
    pub mac_addr: [u8; 6],
    /// The field `reserved2`.
    pub reserved2: [u8; 2],
    /// The field `vport`.
    pub vport: u64,
}

impl ManaQueryVportCfgResp {
    /// The fields one after another, in 32 bytes.
    pub open spec fn bytes(self) -> Seq<u8> {
        le32(self.max_num_sq) + le32(self.max_num_rq) + le32(self.num_indirection_ent) + le32(self.reserved1) + self.mac_addr@ + self.reserved2@ + le64(self.vport)
    }

    /// Appends the fields one after another.
    pub fn push_to(&self, out: &mut Vec<u8>)
        ensures
            final(out)@ == old(out)@ + self.bytes(),
    {
        push_u32(out, self.max_num_sq);
        push_u32(out, self.max_num_rq);
        push_u32(out, self.num_indirection_ent);
        push_u32(out, self.reserved1);
        push_bytes(out, &self.mac_addr);
        push_bytes(out, &self.reserved2);
        push_u64(out, self.vport);
        assert(out@ =~= old(out)@ + self.bytes());
    }
}

/// Moves the packet filter between VTL2 and VTL0.
#[derive(Debug, Clone, Copy)]
pub struct ManaMoveFilterVTL2PrivilegedReq {
    /// The field `vport`.
    pub vport: u64,
    /// The field `direction_to_vtl0`.
    pub direction_to_vtl0: u8,
    /// The field `reserved`.
    pub reserved: [u8; 3],
    /// The field `reserved2`.
    pub reserved2: u32,
}

impl ManaMoveFilterVTL2PrivilegedReq {
    /// The fields one after another, in 16 bytes.
    pub open spec fn bytes(self) -> Seq<u8> {
        le64(self.vport) + seq![self.direction_to_vtl0] + self.reserved@ + le32(self.reserved2)
    }

    /// Appends the fields one after another.
    pub fn push_to(&self, out: &mut Vec<u8>)
        ensures
            final(out)@ == old(out)@ + self.bytes(),
    {
        push_u64(out, self.vport);
        out.push(self.direction_to_vtl0);
        push_bytes(out, &self.reserved);
        push_u32(out, self.reserved2);
        assert(out@ =~= old(out)@ + self.bytes());
    }
}

/// Sets the serial number of a vport.
#[derive(Debug, Clone, Copy, PartialEq, Eq, Structural)]
pub struct ManaSetVportSerialNo {
    /// The field `vport`.
    pub vport: u64,
    /// The field `serial_no`.
    pub serial_no: u32,
    /// The field `reserved`.
    pub reserved: u32,
}

impl ManaSetVportSerialNo {
    /// The fields one after another, in 16 bytes.
    pub open spec fn bytes(self) -> Seq<u8> {
        le64(self.vport) + le32(self.serial_no) + le32(self.reserved)
    }

    /// Appends the fields one after another.
    pub fn push_to(&self, out: &mut Vec<u8>)
        ensures
            final(out)@ == old(out)@ + self.bytes(),
    {
        push_u64(out, self.vport);
        push_u32(out, self.serial_no);
        push_u32(out, self.reserved);
        assert(out@ =~= old(out)@ + self.bytes());
    }
}

/// Asks where the packet filter is.
#[derive(Debug, Clone, Copy, PartialEq, Eq, Structural)]
pub struct ManaQueryFilterStateReq {
    /// The field `vport`.
    pub vport: u64,
}

impl ManaQueryFilterStateReq {
    /// The fields one after another, in 8 bytes.
    pub open spec fn bytes(self) -> Seq<u8> {
        le64(self.vport)
    }

    /// Appends the fields one after another.
    pub fn push_to(&self, out: &mut Vec<u8>)
        ensures
            final(out)@ == old(out)@ + self.bytes(),
    {
        push_u64(out, self.vport);
        assert(out@ =~= old(out)@ + self.bytes());
    }
}

/// Where the packet filter is.
#[derive(Debug, Clone, Copy)]
pub struct ManaQueryFilterStateResponse {
    /// The field `direction_to_vtl0`.
    pub direction_to_vtl0: u8,
    /// The field `reserved`.
    pub reserved: [u8; 7],
}

impl ManaQueryFilterStateResponse {
    /// The fields one after another, in 8 bytes.
    pub open spec fn bytes(self) -> Seq<u8> {
        seq![self.direction_to_vtl0] + self.reserved@
    }

    /// Appends the fields one after another.
    pub fn push_to(&self, out: &mut Vec<u8>)
        ensures
            final(out)@ == old(out)@ + self.bytes(),
    {
        out.push(self.direction_to_vtl0);
        push_bytes(out, &self.reserved);
        assert(out@ =~= old(out)@ + self.bytes());
    }
}

/// Sets up a vport for transmission.
#[derive(Debug, Clone, Copy, PartialEq, Eq, Structural)]
pub struct ManaConfigVportReq {
    /// The field `vport`.
    pub vport: u64,
    /// The field `pdid`.
    pub pdid: u32,
    /// The field `doorbell_pageid`.
    pub doorbell_pageid: u32,
}

impl ManaConfigVportReq {
    /// The fields one after another, in 16 bytes.
    pub open spec fn bytes(self) -> Seq<u8> {
        le64(self.vport) + le32(self.pdid) + le32(self.doorbell_pageid)
    }

    /// Appends the fields one after another.
    pub fn push_to(&self, out: &mut Vec<u8>)
        ensures
            final(out)@ == old(out)@ + self.bytes(),
    {
        push_u64(out, self.vport);
        push_u32(out, self.pdid);
        push_u32(out, self.doorbell_pageid);
        assert(out@ =~= old(out)@ + self.bytes());
    }
}

/// How a vport transmits.
#[derive(Debug, Clone, Copy, PartialEq, Eq, Structural)]
pub struct ManaConfigVportResp {
    /// The field `tx_vport_offset`.
    pub tx_vport_offset: u16,
    /// The field `short_form_allowed`.
    pub short_form_allowed: u8,
    /// The field `reserved`.
    pub reserved: u8,
}

impl ManaConfigVportResp {
    /// The fields one after another, in 4 bytes.
    pub open spec fn bytes(self) -> Seq<u8> {
        le16(self.tx_vport_offset) + seq![self.short_form_allowed] + seq![self.reserved]
    }

    /// Appends the fields one after another.
    pub fn push_to(&self, out: &mut Vec<u8>)
        ensures
            final(out)@ == old(out)@ + self.bytes(),
    {
        push_u16(out, self.tx_vport_offset);
        out.push(self.short_form_allowed);
        out.push(self.reserved);
        assert(out@ =~= old(out)@ + self.bytes());
    }
}

/// Creates a work queue with its completion queue.
#[derive(Debug, Clone, Copy, PartialEq, Eq, Structural)]
pub struct ManaCreateWqobjReq {
    /// The field `vport`.
    pub vport: u64,
    /// The field `wq_type`.
    pub wq_type: GdmaQueueType,
    /// The field `reserved`.
    pub reserved: u32,
    /// The field `wq_gdma_region`.
    pub wq_gdma_region: u64,
    /// The field `cq_gdma_region`.
    pub cq_gdma_region: u64,
    /// The field `wq_size`.
    pub wq_size: u32,
    /// The field `cq_size`.
    pub cq_size: u32,
    /// The field `cq_moderation_ctx_id`.
    pub cq_moderation_ctx_id: u32,
    /// The field `cq_parent_qid`.
    pub cq_parent_qid: u32,
}

impl ManaCreateWqobjReq {
    /// The fields one after another, in 48 bytes.
    pub open spec fn bytes(self) -> Seq<u8> {
        le64(self.vport) + le32(self.wq_type.0) + le32(self.reserved) + le64(self.wq_gdma_region) + le64(self.cq_gdma_region) + le32(self.wq_size) + le32(self.cq_size) + le32(self.cq_moderation_ctx_id) + le32(self.cq_parent_qid)
    }

    /// Appends the fields one after another.
    pub fn push_to(&self, out: &mut Vec<u8>)
        ensures
            final(out)@ == old(out)@ + self.bytes(),
    {
        push_u64(out, self.vport);
        push_u32(out, self.wq_type.0);
        push_u32(out, self.reserved);
        push_u64(out, self.wq_gdma_region);
        push_u64(out, self.cq_gdma_region);
        push_u32(out, self.wq_size);
        push_u32(out, self.cq_size);
        push_u32(out, self.cq_moderation_ctx_id);
        push_u32(out, self.cq_parent_qid);
        assert(out@ =~= old(out)@ + self.bytes());
    }
}

/// The queues that were created.
#[derive(Debug, Clone, Copy, PartialEq, Eq, Structural)]
pub struct ManaCreateWqobjResp {
    /// The field `wq_id`.
    pub wq_id: u32,
    /// The field `cq_id`.
    pub cq_id: u32,
    /// The field `wq_obj`.
    pub wq_obj: u64,
}

impl ManaCreateWqobjResp {
    /// The fields one after another, in 16 bytes.
    pub open spec fn bytes(self) -> Seq<u8> {
        le32(self.wq_id) + le32(self.cq_id) + le64(self.wq_obj)
    }

    /// Appends the fields one after another.
    pub fn push_to(&self, out: &mut Vec<u8>)
        ensures
            final(out)@ == old(out)@ + self.bytes(),
    {
        push_u32(out, self.wq_id);
        push_u32(out, self.cq_id);
        push_u64(out, self.wq_obj);
        assert(out@ =~= old(out)@ + self.bytes());
    }
}

/// Destroys a work queue with its completion queue.
#[derive(Debug, Clone, Copy, PartialEq, Eq, Structural)]
pub struct ManaDestroyWqobjReq {
    /// The field `wq_type`.
    pub wq_type: GdmaQueueType,
    /// The field `reserved`.
    pub reserved: u32,
    /// The field `wq_obj_handle`.
    pub wq_obj_handle: u64,
}

impl ManaDestroyWqobjReq {
    /// The fields one after another, in 16 bytes.
    pub open spec fn bytes(self) -> Seq<u8> {
        le32(self.wq_type.0) + le32(self.reserved) + le64(self.wq_obj_handle)
    }

    /// Appends the fields one after another.
    pub fn push_to(&self, out: &mut Vec<u8>)
        ensures
            final(out)@ == old(out)@ + self.bytes(),
    {
        push_u32(out, self.wq_type.0);
        push_u32(out, self.reserved);
        push_u64(out, self.wq_obj_handle);
        assert(out@ =~= old(out)@ + self.bytes());
    }
}

/// Fences a receive queue.
#[derive(Debug, Clone, Copy, PartialEq, Eq, Structural)]
pub struct ManaFenceRqReq {
    /// The field `wq_obj_handle`.
    pub wq_obj_handle: u64,
}

impl ManaFenceRqReq {
    /// The fields one after another, in 8 bytes.
    pub open spec fn bytes(self) -> Seq<u8> {
        le64(self.wq_obj_handle)
    }

    /// Appends the fields one after another.
    pub fn push_to(&self, out: &mut Vec<u8>)
        ensures
            final(out)@ == old(out)@ + self.bytes(),
    {
        push_u64(out, self.wq_obj_handle);
        assert(out@ =~= old(out)@ + self.bytes());
    }
}

/// Sets up a vport for reception.
#[derive(Debug, Clone, Copy)]
pub struct ManaCfgRxSteerReq {
    /// The field `vport`.
    pub vport: u64,
    /// The field `num_indir_entries`.
    pub num_indir_entries: u16,
    /// The field `indir_tab_offset`.
    pub indir_tab_offset: u16,
    /// The field `rx_enable`.
    pub rx_enable: Tristate,
    /// The field `rss_enable`.
    pub rss_enable: Tristate,
    /// The field `update_default_rxobj`.
    pub update_default_rxobj: u8,
    /// The field `update_hashkey`.
    pub update_hashkey: u8,
    /// The field `update_indir_tab`.
    pub update_indir_tab: u8,
    /// The field `reserved`.
    pub reserved: u8,
    /// The field `default_rxobj`.
    pub default_rxobj: u64,
    /// The field `hashkey`.
    pub hashkey: [u8; 40],
}

impl ManaCfgRxSteerReq {
    /// The fields one after another, in 72 bytes.
    pub open spec fn bytes(self) -> Seq<u8> {
        le64(self.vport) + le16(self.num_indir_entries) + le16(self.indir_tab_offset) + le32(self.rx_enable.0) + le32(self.rss_enable.0) + seq![self.update_default_rxobj] + seq![self.update_hashkey] + seq![self.update_indir_tab] + seq![self.reserved] + le64(self.default_rxobj) + self.hashkey@
    }

    /// Appends the fields one after another.
    pub fn push_to(&self, out: &mut Vec<u8>)
        ensures
            final(out)@ == old(out)@ + self.bytes(),
    {
        push_u64(out, self.vport);
        push_u16(out, self.num_indir_entries);
        push_u16(out, self.indir_tab_offset);
        push_u32(out, self.rx_enable.0);
        push_u32(out, self.rss_enable.0);
        out.push(self.update_default_rxobj);
        out.push(self.update_hashkey);
        out.push(self.update_indir_tab);
        out.push(self.reserved);
        push_u64(out, self.default_rxobj);
        push_bytes(out, &self.hashkey);
        assert(out@ =~= old(out)@ + self.bytes());
    }
}

/// Completion of a transmission.
#[derive(Debug, Clone, Copy)]
pub struct ManaTxCompOob {
    /// The field `cqe_hdr`.
    pub cqe_hdr: ManaCqeHeader,
    /// The field `tx_data_offset`.
    pub tx_data_offset: u32,
    /// The field `offsets`.
    pub offsets: ManaTxCompOobOffsets,
    /// The field `reserved`.
    pub reserved: [u32; 12],
}

impl ManaTxCompOob {
    /// The fields one after another, in 60 bytes.
    pub open spec fn bytes(self) -> Seq<u8> {
        le32(self.cqe_hdr.0) + le32(self.tx_data_offset) + le32(self.offsets.0) + le32_list(self.reserved@)
    }

    /// Appends the fields one after another.
    pub fn push_to(&self, out: &mut Vec<u8>)
        ensures
            final(out)@ == old(out)@ + self.bytes(),
    {
        push_u32(out, self.cqe_hdr.0);
        push_u32(out, self.tx_data_offset);
        push_u32(out, self.offsets.0);
        push_u32_list(out, &self.reserved);
        assert(out@ =~= old(out)@ + self.bytes());
    }
}

/// What was received, for one packet.
#[derive(Debug, Clone, Copy, PartialEq, Eq, Structural)]
pub struct ManaRxcompPerpktInfo {
    /// The field `pkt_len`.
    pub pkt_len: u16,
    /// The field `reserved1`.
    pub reserved1: u16,
    /// The field `reserved2`.
    pub reserved2: u32,
    /// The field `pkt_hash`.
    pub pkt_hash: u32,
}

impl ManaRxcompPerpktInfo {
    /// The fields one after another, in 12 bytes.
    pub open spec fn bytes(self) -> Seq<u8> {
        le16(self.pkt_len) + le16(self.reserved1) + le32(self.reserved2) + le32(self.pkt_hash)
    }

    /// Appends the fields one after another.
    pub fn push_to(&self, out: &mut Vec<u8>)
        ensures
            final(out)@ == old(out)@ + self.bytes(),
    {
        push_u16(out, self.pkt_len);
        push_u16(out, self.reserved1);
        push_u32(out, self.reserved2);
        push_u32(out, self.pkt_hash);
        assert(out@ =~= old(out)@ + self.bytes());
    }
}

/// Completion of a reception.
#[derive(Debug, Clone, Copy)]
pub struct ManaRxcompOob {
    /// The field `cqe_hdr`.
    pub cqe_hdr: ManaCqeHeader,
    /// The field `flags`.
    pub flags: ManaRxcompOobFlags,
    /// The field `ppi`.
    pub ppi: [ManaRxcompPerpktInfo; 4],
    /// The field `rx_wqe_offset`.
    pub rx_wqe_offset: u32,
}

impl ManaRxcompOob {
    /// The fields one after another, in 60 bytes.
    pub open spec fn bytes(self) -> Seq<u8> {
        le32(self.cqe_hdr.0) + le32(self.flags.0) + self.ppi[0].bytes() + self.ppi[1].bytes() + self.ppi[2].bytes() + self.ppi[3].bytes() + le32(self.rx_wqe_offset)
    }

    /// Appends the fields one after another.
    pub fn push_to(&self, out: &mut Vec<u8>)
        ensures
            final(out)@ == old(out)@ + self.bytes(),
    {
        push_u32(out, self.cqe_hdr.0);
        push_u32(out, self.flags.0);
        self.ppi[0].push_to(out);
        self.ppi[1].push_to(out);
        self.ppi[2].push_to(out);
        self.ppi[3].push_to(out);
        push_u32(out, self.rx_wqe_offset);
        assert(out@ =~= old(out)@ + self.bytes());
    }
}

/// What goes with a transmission.
#[derive(Debug, Clone, Copy, PartialEq, Eq, Structural)]
pub struct ManaTxOob {
    /// The field `s_oob`.
    pub s_oob: ManaTxShortOob,
    /// The field `l_oob`.
    pub l_oob: ManaTxLongOob,
    /// The field `reserved3`.
    pub reserved3: u32,
    /// The field `reserved4`.
    pub reserved4: u32,
}

impl ManaTxOob {
    /// The fields one after another, in 24 bytes.
    pub open spec fn bytes(self) -> Seq<u8> {
        le64(self.s_oob.0) + le64(self.l_oob.0) + le32(self.reserved3) + le32(self.reserved4)
    }

    /// Appends the fields one after another.
    pub fn push_to(&self, out: &mut Vec<u8>)
        ensures
            final(out)@ == old(out)@ + self.bytes(),
    {
        push_u64(out, self.s_oob.0);
        push_u64(out, self.l_oob.0);
        push_u32(out, self.reserved3);
        push_u32(out, self.reserved4);
        assert(out@ =~= old(out)@ + self.bytes());
    }
}

/// Asks for statistics.
#[derive(Debug, Clone, Copy, PartialEq, Eq, Structural)]
pub struct ManaQueryStatisticsRequest {
    /// The field `requested_statistics`.
    pub requested_statistics: u64,
}

impl ManaQueryStatisticsRequest {
    /// The fields one after another, in 8 bytes.
    pub open spec fn bytes(self) -> Seq<u8> {
        le64(self.requested_statistics)
    }

    /// Appends the fields one after another.
    pub fn push_to(&self, out: &mut Vec<u8>)
        ensures
            final(out)@ == old(out)@ + self.bytes(),
    {
        push_u64(out, self.requested_statistics);
        assert(out@ =~= old(out)@ + self.bytes());
    }
}

/// Statistics.
#[derive(Debug, Clone, Copy, PartialEq, Eq, Structural)]
pub struct ManaQueryStatisticsResponse {
    /// The field `reported_statistics`.
    pub reported_statistics: u64,
    /// The field `in_discards_no_wqe`.
    pub in_discards_no_wqe: u64,
    /// The field `in_errors_rx_vport_disabled`.
    pub in_errors_rx_vport_disabled: u64,
    /// The field `hc_in_octets`.
    pub hc_in_octets: u64,
    /// The field `hc_in_ucast_pkts`.
    pub hc_in_ucast_pkts: u64,
    /// The field `hc_in_ucast_octets`.
    pub hc_in_ucast_octets: u64,
    /// The field `hc_in_multicast_pkts`.
    pub hc_in_multicast_pkts: u64,
    /// The field `hc_in_multicast_octets`.
    pub hc_in_multicast_octets: u64,
    /// The field `hc_in_broadcast_pkts`.
    pub hc_in_broadcast_pkts: u64,
    /// The field `hc_in_broadcast_octets`.
    pub hc_in_broadcast_octets: u64,
    /// The field `out_errors_gf_disabled`.
    pub out_errors_gf_disabled: u64,
    /// The field `out_errors_vport_disabled`.
    pub out_errors_vport_disabled: u64,
    /// The field `out_errors_invalid_vport_offset_packets`.
    pub out_errors_invalid_vport_offset_packets: u64,
    /// The field `out_errors_vlan_enforcement`.
    pub out_errors_vlan_enforcement: u64,
    /// The field `out_errors_eth_type_enforcement`.
    pub out_errors_eth_type_enforcement: u64,
    /// The field `out_errors_sa_enforcement`.
    pub out_errors_sa_enforcement: u64,
    /// The field `out_errors_sqpdid_enforcement`.
    pub out_errors_sqpdid_enforcement: u64,
    /// The field `out_errors_cqpdid_enforcement`.
    pub out_errors_cqpdid_enforcement: u64,
    /// The field `out_errors_mtu_violation`.
    pub out_errors_mtu_violation: u64,
    /// The field `out_errors_invalid_oob`.
    pub out_errors_invalid_oob: u64,
    /// The field `hc_out_octets`.
    pub hc_out_octets: u64,
    /// The field `hc_out_ucast_pkts`.
    pub hc_out_ucast_pkts: u64,
    /// The field `hc_out_ucast_octets`.
    pub hc_out_ucast_octets: u64,
    /// The field `hc_out_multicast_pkts`.
    pub hc_out_multicast_pkts: u64,
    /// The field `hc_out_multicast_octets`.
    pub hc_out_multicast_octets: u64,
    /// The field `hc_out_broadcast_pkts`.
    pub hc_out_broadcast_pkts: u64,
    /// The field `hc_out_broadcast_octets`.
    pub hc_out_broadcast_octets: u64,
}

impl ManaQueryVportCfgReq {
    /// What the first 4 bytes of `b` say.
    pub open spec fn decoded(b: Seq<u8>) -> ManaQueryVportCfgReq {
        ManaQueryVportCfgReq {
            vport_index: u32_at(b, 0),
        }
    }

    /// Reads from the first 4 bytes of `b`.
    pub fn read(b: &[u8]) -> (r: Option<ManaQueryVportCfgReq>)
        ensures
            r == if b@.len() < 4 {
                None::<ManaQueryVportCfgReq>
            } else {
                Some(ManaQueryVportCfgReq::decoded(b@))
            },
    {
        if b.len() < 4 {
            None
        } else {
            Some(
                ManaQueryVportCfgReq {
                    vport_index: read_u32(b, 0),
                },
            )
        }
    }

    /// Reading gives back what was written.
    pub proof fn round_trip(self)
        ensures
            self.bytes().len() == 4,
            ManaQueryVportCfgReq::decoded(self.bytes()) == self,
    {
        let b = self.bytes();
        crate::wire::lemma_le32_round_trip(self.vport_index);
        assert(b.subrange(0, 4) =~= le32(self.vport_index));
        crate::wire::lemma_u32_at_subrange(b, 0);
    }
}

impl ManaSetVportSerialNo {
    /// What the first 16 bytes of `b` say.
    pub open spec fn decoded(b: Seq<u8>) -> ManaSetVportSerialNo {
        ManaSetVportSerialNo {
            vport: u64_at(b, 0),
            serial_no: u32_at(b, 8),
            reserved: u32_at(b, 12),
        }
    }

    /// Reads from the first 16 bytes of `b`.
    pub fn read(b: &[u8]) -> (r: Option<ManaSetVportSerialNo>)
        ensures
            r == if b@.len() < 16 {
                None::<ManaSetVportSerialNo>
            } else {
                Some(ManaSetVportSerialNo::decoded(b@))
            },
    {
        if b.len() < 16 {
            None
        } else {
            Some(
                ManaSetVportSerialNo {
                    vport: read_u64(b, 0),
                    serial_no: read_u32(b, 8),
                    reserved: read_u32(b, 12),
                },
            )
        }
    }

    /// Reading gives back what was written.
    pub proof fn round_trip(self)
        ensures
            self.bytes().len() == 16,
            ManaSetVportSerialNo::decoded(self.bytes()) == self,
    {
        let b = self.bytes();
        crate::wire::lemma_le64_round_trip(self.vport);
        assert(b.subrange(0, 8) =~= le64(self.vport));
        crate::wire::lemma_u64_at_subrange(b, 0);
        crate::wire::lemma_le32_round_trip(self.serial_no);
        assert(b.subrange(8, 12) =~= le32(self.serial_no));
        crate::wire::lemma_u32_at_subrange(b, 8);
        crate::wire::lemma_le32_round_trip(self.reserved);
        assert(b.subrange(12, 16) =~= le32(self.reserved));
        crate::wire::lemma_u32_at_subrange(b, 12);
    }
}

impl ManaQueryFilterStateReq {
    /// What the first 8 bytes of `b` say.
    pub open spec fn decoded(b: Seq<u8>) -> ManaQueryFilterStateReq {
        ManaQueryFilterStateReq {
            vport: u64_at(b, 0),
        }
    }

    /// Reads from the first 8 bytes of `b`.
    pub fn read(b: &[u8]) -> (r: Option<ManaQueryFilterStateReq>)
        ensures
            r == if b@.len() < 8 {
                None::<ManaQueryFilterStateReq>
            } else {
                Some(ManaQueryFilterStateReq::decoded(b@))
            },
    {
        if b.len() < 8 {
            None
        } else {
            Some(
                ManaQueryFilterStateReq {
                    vport: read_u64(b, 0),
                },
            )
        }
    }

    /// Reading gives back what was written.
    pub proof fn round_trip(self)
        ensures
            self.bytes().len() == 8,
            ManaQueryFilterStateReq::decoded(self.bytes()) == self,
    {
        let b = self.bytes();
        crate::wire::lemma_le64_round_trip(self.vport);
        assert(b.subrange(0, 8) =~= le64(self.vport));
        crate::wire::lemma_u64_at_subrange(b, 0);
    }
}

impl ManaConfigVportReq {
    /// What the first 16 bytes of `b` say.
    pub open spec fn decoded(b: Seq<u8>) -> ManaConfigVportReq {
        ManaConfigVportReq {
            vport: u64_at(b, 0),
            pdid: u32_at(b, 8),
            doorbell_pageid: u32_at(b, 12),
        }
    }

    /// Reads from the first 16 bytes of `b`.
    pub fn read(b: &[u8]) -> (r: Option<ManaConfigVportReq>)
        ensures
            r == if b@.len() < 16 {
                None::<ManaConfigVportReq>
            } else {
                Some(ManaConfigVportReq::decoded(b@))
            },
    {
        if b.len() < 16 {
            None
        } else {
            Some(
                ManaConfigVportReq {
                    vport: read_u64(b, 0),
                    pdid: read_u32(b, 8),
                    doorbell_pageid: read_u32(b, 12),
                },
            )
        }
    }

    /// Reading gives back what was written.
    pub proof fn round_trip(self)
        ensures
            self.bytes().len() == 16,
            ManaConfigVportReq::decoded(self.bytes()) == self,
    {
        let b = self.bytes();
        crate::wire::lemma_le64_round_trip(self.vport);
        assert(b.subrange(0, 8) =~= le64(self.vport));
        crate::wire::lemma_u64_at_subrange(b, 0);
        crate::wire::lemma_le32_round_trip(self.pdid);
        assert(b.subrange(8, 12) =~= le32(self.pdid));
        crate::wire::lemma_u32_at_subrange(b, 8);
        crate::wire::lemma_le32_round_trip(self.doorbell_pageid);
        assert(b.subrange(12, 16) =~= le32(self.doorbell_pageid));
        crate::wire::lemma_u32_at_subrange(b, 12);
    }
}

impl ManaCreateWqobjReq {
    /// What the first 48 bytes of `b` say.
    pub open spec fn decoded(b: Seq<u8>) -> ManaCreateWqobjReq {
        ManaCreateWqobjReq {
            vport: u64_at(b, 0),
            wq_type: GdmaQueueType(u32_at(b, 8)),
            reserved: u32_at(b, 12),
            wq_gdma_region: u64_at(b, 16),
            cq_gdma_region: u64_at(b, 24),
            wq_size: u32_at(b, 32),
            cq_size: u32_at(b, 36),
            cq_moderation_ctx_id: u32_at(b, 40),
            cq_parent_qid: u32_at(b, 44),
        }
    }

    /// Reads from the first 48 bytes of `b`.
    pub fn read(b: &[u8]) -> (r: Option<ManaCreateWqobjReq>)
        ensures
            r == if b@.len() < 48 {
                None::<ManaCreateWqobjReq>
            } else {
                Some(ManaCreateWqobjReq::decoded(b@))
            },
    {
        if b.len() < 48 {
            None
        } else {
            Some(
                ManaCreateWqobjReq {
                    vport: read_u64(b, 0),
                    wq_type: GdmaQueueType(read_u32(b, 8)),
                    reserved: read_u32(b, 12),
                    wq_gdma_region: read_u64(b, 16),
                    cq_gdma_region: read_u64(b, 24),
                    wq_size: read_u32(b, 32),
                    cq_size: read_u32(b, 36),
                    cq_moderation_ctx_id: read_u32(b, 40),
                    cq_parent_qid: read_u32(b, 44),
                },
            )
        }
    }

    /// Reading gives back what was written.
    pub proof fn round_trip(self)
        ensures
            self.bytes().len() == 48,
            ManaCreateWqobjReq::decoded(self.bytes()) == self,
    {
        let b = self.bytes();
        crate::wire::lemma_le64_round_trip(self.vport);
        assert(b.subrange(0, 8) =~= le64(self.vport));
        crate::wire::lemma_u64_at_subrange(b, 0);
        crate::wire::lemma_le32_round_trip(self.wq_type.0);
        assert(b.subrange(8, 12) =~= le32(self.wq_type.0));
        crate::wire::lemma_u32_at_subrange(b, 8);
        crate::wire::lemma_le32_round_trip(self.reserved);
        assert(b.subrange(12, 16) =~= le32(self.reserved));
        crate::wire::lemma_u32_at_subrange(b, 12);
        crate::wire::lemma_le64_round_trip(self.wq_gdma_region);
        assert(b.subrange(16, 24) =~= le64(self.wq_gdma_region));
        crate::wire::lemma_u64_at_subrange(b, 16);
        crate::wire::lemma_le64_round_trip(self.cq_gdma_region);
        assert(b.subrange(24, 32) =~= le64(self.cq_gdma_region));
        crate::wire::lemma_u64_at_subrange(b, 24);
        crate::wire::lemma_le32_round_trip(self.wq_size);
        assert(b.subrange(32, 36) =~= le32(self.wq_size));
        crate::wire::lemma_u32_at_subrange(b, 32);
        crate::wire::lemma_le32_round_trip(self.cq_size);
        assert(b.subrange(36, 40) =~= le32(self.cq_size));
        crate::wire::lemma_u32_at_subrange(b, 36);
        crate::wire::lemma_le32_round_trip(self.cq_moderation_ctx_id);
        assert(b.subrange(40, 44) =~= le32(self.cq_moderation_ctx_id));
        crate::wire::lemma_u32_at_subrange(b, 40);
        crate::wire::lemma_le32_round_trip(self.cq_parent_qid);
        assert(b.subrange(44, 48) =~= le32(self.cq_parent_qid));
        crate::wire::lemma_u32_at_subrange(b, 44);
    }
}

impl ManaDestroyWqobjReq {
    /// What the first 16 bytes of `b` say.
    pub open spec fn decoded(b: Seq<u8>) -> ManaDestroyWqobjReq {
        ManaDestroyWqobjReq {
            wq_type: GdmaQueueType(u32_at(b, 0)),
            reserved: u32_at(b, 4),
            wq_obj_handle: u64_at(b, 8),
        }
    }

    /// Reads from the first 16 bytes of `b`.
    pub fn read(b: &[u8]) -> (r: Option<ManaDestroyWqobjReq>)
        ensures
            r == if b@.len() < 16 {
                None::<ManaDestroyWqobjReq>
            } else {
                Some(ManaDestroyWqobjReq::decoded(b@))
            },
    {
        if b.len() < 16 {
            None
        } else {
            Some(
                ManaDestroyWqobjReq {
                    wq_type: GdmaQueueType(read_u32(b, 0)),
                    reserved: read_u32(b, 4),
                    wq_obj_handle: read_u64(b, 8),
                },
            )
        }
    }

    /// Reading gives back what was written.
    pub proof fn round_trip(self)
        ensures
            self.bytes().len() == 16,
            ManaDestroyWqobjReq::decoded(self.bytes()) == self,
    {
        let b = self.bytes();
        crate::wire::lemma_le32_round_trip(self.wq_type.0);
        assert(b.subrange(0, 4) =~= le32(self.wq_type.0));
        crate::wire::lemma_u32_at_subrange(b, 0);
        crate::wire::lemma_le32_round_trip(self.reserved);
        assert(b.subrange(4, 8) =~= le32(self.reserved));
        crate::wire::lemma_u32_at_subrange(b, 4);
        crate::wire::lemma_le64_round_trip(self.wq_obj_handle);
        assert(b.subrange(8, 16) =~= le64(self.wq_obj_handle));
        crate::wire::lemma_u64_at_subrange(b, 8);
    }
}

impl ManaFenceRqReq {
    /// What the first 8 bytes of `b` say.
    pub open spec fn decoded(b: Seq<u8>) -> ManaFenceRqReq {
        ManaFenceRqReq {
            wq_obj_handle: u64_at(b, 0),
        }
    }

    /// Reads from the first 8 bytes of `b`.
    pub fn read(b: &[u8]) -> (r: Option<ManaFenceRqReq>)
        ensures
            r == if b@.len() < 8 {
                None::<ManaFenceRqReq>
            } else {
                Some(ManaFenceRqReq::decoded(b@))
            },
    {
        if b.len() < 8 {
            None
        } else {
            Some(
                ManaFenceRqReq {
                    wq_obj_handle: read_u64(b, 0),
                },
            )
        }
    }

    /// Reading gives back what was written.
    pub proof fn round_trip(self)
        ensures
            self.bytes().len() == 8,
            ManaFenceRqReq::decoded(self.bytes()) == self,
    {
        let b = self.bytes();
        crate::wire::lemma_le64_round_trip(self.wq_obj_handle);
        assert(b.subrange(0, 8) =~= le64(self.wq_obj_handle));
        crate::wire::lemma_u64_at_subrange(b, 0);
    }
}

impl ManaQueryStatisticsRequest {
    /// What the first 8 bytes of `b` say.
    pub open spec fn decoded(b: Seq<u8>) -> ManaQueryStatisticsRequest {
        ManaQueryStatisticsRequest {
            requested_statistics: u64_at(b, 0),
        }
    }

    /// Reads from the first 8 bytes of `b`.
    pub fn read(b: &[u8]) -> (r: Option<ManaQueryStatisticsRequest>)
        ensures
            r == if b@.len() < 8 {
                None::<ManaQueryStatisticsRequest>
            } else {
                Some(ManaQueryStatisticsRequest::decoded(b@))
            },
    {
        if b.len() < 8 {
            None
        } else {
            Some(
                ManaQueryStatisticsRequest {
                    requested_statistics: read_u64(b, 0),
                },
            )
        }
    }

    /// Reading gives back what was written.
    pub proof fn round_trip(self)
        ensures
            self.bytes().len() == 8,
            ManaQueryStatisticsRequest::decoded(self.bytes()) == self,
    {
        let b = self.bytes();
        crate::wire::lemma_le64_round_trip(self.requested_statistics);
        assert(b.subrange(0, 8) =~= le64(self.requested_statistics));
        crate::wire::lemma_u64_at_subrange(b, 0);
    }
}

impl ManaQueryDeviceCfgResp {
    /// Whether the link status can be queried.
    pub fn cap_query_link_status(&self) -> (b: bool)
        ensures
            b == (self.pf_cap_flags1.0 % 2 == 1),
    {
        self.pf_cap_flags1.query_link_status() != 0
    }

    /// Whether Ethernet types are enforced.
    pub fn cap_ethertype_enforcement(&self) -> (b: bool)
        ensures
            b == ((self.pf_cap_flags1.0 as int / 2) % 2 == 1),
    {
        self.pf_cap_flags1.ethertype_enforcement() != 0
    }

    /// Whether the packet filter can be queried.
    pub fn cap_filter_state_query(&self) -> (b: bool)
        ensures
            b == ((self.pf_cap_flags1.0 as int / 4) % 2 == 1),
    {
        self.pf_cap_flags1.query_filter_state() != 0
    }

    /// The link speed of the adapter in bits per second. Older devices do not
    /// report one: they count as 200 Gbps.
    pub fn link_speed_bps(&self) -> (bps: u64)
        ensures
            bps == if self.adapter_link_speed_mbps > 0 {
                self.adapter_link_speed_mbps * 1000000
            } else {
                200000000000int
            },
    {
        if self.adapter_link_speed_mbps > 0 {
            self.adapter_link_speed_mbps as u64 * 1000 * 1000
        } else {
            200000000000
        }
    }
}

impl ManaQueryDeviceCfgReq {
    /// Each field is found at its place, the least byte first.
    pub proof fn fields_are_placed(self)
        ensures
            u64_at(self.bytes(), 0) == self.mn_drv_cap_flags1,
            u64_at(self.bytes(), 8) == self.mn_drv_cap_flags2,
            u64_at(self.bytes(), 16) == self.mn_drv_cap_flags3,
            u64_at(self.bytes(), 24) == self.mn_drv_cap_flags4,
            u32_at(self.bytes(), 32) == self.proto_major_ver,
            u32_at(self.bytes(), 36) == self.proto_minor_ver,
            u32_at(self.bytes(), 40) == self.proto_micro_ver,
            u32_at(self.bytes(), 44) == self.reserved,
            self.bytes().len() == 48,
    {
        let b = self.bytes();
        crate::wire::lemma_le64_round_trip(self.mn_drv_cap_flags1);
        assert(b.subrange(0, 8) =~= le64(self.mn_drv_cap_flags1));
        crate::wire::lemma_u64_at_subrange(b, 0);
        crate::wire::lemma_le64_round_trip(self.mn_drv_cap_flags2);
        assert(b.subrange(8, 16) =~= le64(self.mn_drv_cap_flags2));
        crate::wire::lemma_u64_at_subrange(b, 8);
        crate::wire::lemma_le64_round_trip(self.mn_drv_cap_flags3);
        assert(b.subrange(16, 24) =~= le64(self.mn_drv_cap_flags3));
        crate::wire::lemma_u64_at_subrange(b, 16);
        crate::wire::lemma_le64_round_trip(self.mn_drv_cap_flags4);
        assert(b.subrange(24, 32) =~= le64(self.mn_drv_cap_flags4));
        crate::wire::lemma_u64_at_subrange(b, 24);
        crate::wire::lemma_le32_round_trip(self.proto_major_ver);
        assert(b.subrange(32, 36) =~= le32(self.proto_major_ver));
        crate::wire::lemma_u32_at_subrange(b, 32);
        crate::wire::lemma_le32_round_trip(self.proto_minor_ver);
        assert(b.subrange(36, 40) =~= le32(self.proto_minor_ver));
        crate::wire::lemma_u32_at_subrange(b, 36);
        crate::wire::lemma_le32_round_trip(self.proto_micro_ver);
        assert(b.subrange(40, 44) =~= le32(self.proto_micro_ver));
        crate::wire::lemma_u32_at_subrange(b, 40);
        crate::wire::lemma_le32_round_trip(self.reserved);
        assert(b.subrange(44, 48) =~= le32(self.reserved));
        crate::wire::lemma_u32_at_subrange(b, 44);
    }
}

impl ManaQueryDeviceCfgResp {
    /// Each field is found at its place, the least byte first.
    pub proof fn fields_are_placed(self)
        ensures
            u64_at(self.bytes(), 0) == self.pf_cap_flags1.0,
            u64_at(self.bytes(), 8) == self.pf_cap_flags2,
            u64_at(self.bytes(), 16) == self.pf_cap_flags3,
            u64_at(self.bytes(), 24) == self.pf_cap_flags4,
            u16_at(self.bytes(), 32) == self.max_num_vports,
            u16_at(self.bytes(), 34) == self.reserved,
            u32_at(self.bytes(), 36) == self.max_num_eqs,
            u16_at(self.bytes(), 40) == self.adapter_mtu,
            u16_at(self.bytes(), 42) == self.reserved2,
            u32_at(self.bytes(), 44) == self.adapter_link_speed_mbps,
            self.bytes().len() == 48,
    {
        let b = self.bytes();
        crate::wire::lemma_le64_round_trip(self.pf_cap_flags1.0);
        assert(b.subrange(0, 8) =~= le64(self.pf_cap_flags1.0));
        crate::wire::lemma_u64_at_subrange(b, 0);
        crate::wire::lemma_le64_round_trip(self.pf_cap_flags2);
        assert(b.subrange(8, 16) =~= le64(self.pf_cap_flags2));
        crate::wire::lemma_u64_at_subrange(b, 8);
        crate::wire::lemma_le64_round_trip(self.pf_cap_flags3);
        assert(b.subrange(16, 24) =~= le64(self.pf_cap_flags3));
        crate::wire::lemma_u64_at_subrange(b, 16);
        crate::wire::lemma_le64_round_trip(self.pf_cap_flags4);
        assert(b.subrange(24, 32) =~= le64(self.pf_cap_flags4));
        crate::wire::lemma_u64_at_subrange(b, 24);
        assert(b[32] == le16(self.max_num_vports)[0] && b[33] == le16(self.max_num_vports)[1]);
        assert(b[34] == le16(self.reserved)[0] && b[35] == le16(self.reserved)[1]);
        crate::wire::lemma_le32_round_trip(self.max_num_eqs);
        assert(b.subrange(36, 40) =~= le32(self.max_num_eqs));
        crate::wire::lemma_u32_at_subrange(b, 36);
        assert(b[40] == le16(self.adapter_mtu)[0] && b[41] == le16(self.adapter_mtu)[1]);
        assert(b[42] == le16(self.reserved2)[0] && b[43] == le16(self.reserved2)[1]);
        crate::wire::lemma_le32_round_trip(self.adapter_link_speed_mbps);
        assert(b.subrange(44, 48) =~= le32(self.adapter_link_speed_mbps));
        crate::wire::lemma_u32_at_subrange(b, 44);
    }
}

impl ManaQueryVportCfgReq {
    /// Each field is found at its place, the least byte first.
    pub proof fn fields_are_placed(self)
        ensures
            u32_at(self.bytes(), 0) == self.vport_index,
            self.bytes().len() == 4,
    {
        let b = self.bytes();
        crate::wire::lemma_le32_round_trip(self.vport_index);
        assert(b.subrange(0, 4) =~= le32(self.vport_index));
        crate::wire::lemma_u32_at_subrange(b, 0);
    }
}

impl ManaQueryVportCfgResp {
    /// Each field is found at its place, the least byte first.
    pub proof fn fields_are_placed(self)
        ensures
            u32_at(self.bytes(), 0) == self.max_num_sq,
            u32_at(self.bytes(), 4) == self.max_num_rq,
            u32_at(self.bytes(), 8) == self.num_indirection_ent,
            u32_at(self.bytes(), 12) == self.reserved1,
            self.bytes().subrange(16, 22) == self.mac_addr@,
            self.bytes().subrange(22, 24) == self.reserved2@,
            u64_at(self.bytes(), 24) == self.vport,
            self.bytes().len() == 32,
    {
        let b = self.bytes();
        crate::wire::lemma_le32_round_trip(self.max_num_sq);
        assert(b.subrange(0, 4) =~= le32(self.max_num_sq));
        crate::wire::lemma_u32_at_subrange(b, 0);
        crate::wire::lemma_le32_round_trip(self.max_num_rq);
        assert(b.subrange(4, 8) =~= le32(self.max_num_rq));
        crate::wire::lemma_u32_at_subrange(b, 4);
        crate::wire::lemma_le32_round_trip(self.num_indirection_ent);
        assert(b.subrange(8, 12) =~= le32(self.num_indirection_ent));
        crate::wire::lemma_u32_at_subrange(b, 8);
        crate::wire::lemma_le32_round_trip(self.reserved1);
        assert(b.subrange(12, 16) =~= le32(self.reserved1));
        crate::wire::lemma_u32_at_subrange(b, 12);
        assert(b.subrange(16, 22) =~= self.mac_addr@);
        assert(b.subrange(22, 24) =~= self.reserved2@);
        crate::wire::lemma_le64_round_trip(self.vport);
        assert(b.subrange(24, 32) =~= le64(self.vport));
        crate::wire::lemma_u64_at_subrange(b, 24);
    }
}

impl ManaMoveFilterVTL2PrivilegedReq {
    /// Each field is found at its place, the least byte first.
    pub proof fn fields_are_placed(self)
        ensures
            u64_at(self.bytes(), 0) == self.vport,
            self.bytes()[8] == self.direction_to_vtl0,
            self.bytes().subrange(9, 12) == self.reserved@,
            u32_at(self.bytes(), 12) == self.reserved2,
            self.bytes().len() == 16,
    {
        let b = self.bytes();
        crate::wire::lemma_le64_round_trip(self.vport);
        assert(b.subrange(0, 8) =~= le64(self.vport));
        crate::wire::lemma_u64_at_subrange(b, 0);
        assert(b.subrange(9, 12) =~= self.reserved@);
        crate::wire::lemma_le32_round_trip(self.reserved2);
        assert(b.subrange(12, 16) =~= le32(self.reserved2));
        crate::wire::lemma_u32_at_subrange(b, 12);
    }
}

impl ManaSetVportSerialNo {
    /// Each field is found at its place, the least byte first.
    pub proof fn fields_are_placed(self)
        ensures
            u64_at(self.bytes(), 0) == self.vport,
            u32_at(self.bytes(), 8) == self.serial_no,
            u32_at(self.bytes(), 12) == self.reserved,
            self.bytes().len() == 16,
    {
        let b = self.bytes();
        crate::wire::lemma_le64_round_trip(self.vport);
        assert(b.subrange(0, 8) =~= le64(self.vport));
        crate::wire::lemma_u64_at_subrange(b, 0);
        crate::wire::lemma_le32_round_trip(self.serial_no);
        assert(b.subrange(8, 12) =~= le32(self.serial_no));
        crate::wire::lemma_u32_at_subrange(b, 8);
        crate::wire::lemma_le32_round_trip(self.reserved);
        assert(b.subrange(12, 16) =~= le32(self.reserved));
        crate::wire::lemma_u32_at_subrange(b, 12);
    }
}

impl ManaQueryFilterStateReq {
    /// Each field is found at its place, the least byte first.
    pub proof fn fields_are_placed(self)
        ensures
            u64_at(self.bytes(), 0) == self.vport,
            self.bytes().len() == 8,
    {
        let b = self.bytes();
        crate::wire::lemma_le64_round_trip(self.vport);
        assert(b.subrange(0, 8) =~= le64(self.vport));
        crate::wire::lemma_u64_at_subrange(b, 0);
    }
}

impl ManaQueryFilterStateResponse {
    /// Each field is found at its place, the least byte first.
    pub proof fn fields_are_placed(self)
        ensures
            self.bytes()[0] == self.direction_to_vtl0,
            self.bytes().subrange(1, 8) == self.reserved@,
            self.bytes().len() == 8,
    {
        let b = self.bytes();
        assert(b.subrange(1, 8) =~= self.reserved@);
    }
}

impl ManaConfigVportReq {
    /// Each field is found at its place, the least byte first.
    pub proof fn fields_are_placed(self)
        ensures
            u64_at(self.bytes(), 0) == self.vport,
            u32_at(self.bytes(), 8) == self.pdid,
            u32_at(self.bytes(), 12) == self.doorbell_pageid,
            self.bytes().len() == 16,
    {
        let b = self.bytes();
        crate::wire::lemma_le64_round_trip(self.vport);
        assert(b.subrange(0, 8) =~= le64(self.vport));
        crate::wire::lemma_u64_at_subrange(b, 0);
        crate::wire::lemma_le32_round_trip(self.pdid);
        assert(b.subrange(8, 12) =~= le32(self.pdid));
        crate::wire::lemma_u32_at_subrange(b, 8);
        crate::wire::lemma_le32_round_trip(self.doorbell_pageid);
        assert(b.subrange(12, 16) =~= le32(self.doorbell_pageid));
        crate::wire::lemma_u32_at_subrange(b, 12);
    }
}

impl ManaConfigVportResp {
    /// Each field is found at its place, the least byte first.
    pub proof fn fields_are_placed(self)
        ensures
            u16_at(self.bytes(), 0) == self.tx_vport_offset,
            self.bytes()[2] == self.short_form_allowed,
            self.bytes()[3] == self.reserved,
            self.bytes().len() == 4,
    {
        let b = self.bytes();
        assert(b[0] == le16(self.tx_vport_offset)[0] && b[1] == le16(self.tx_vport_offset)[1]);
    }
}

impl ManaCreateWqobjReq {
    /// Each field is found at its place, the least byte first.
    pub proof fn fields_are_placed(self)
        ensures
            u64_at(self.bytes(), 0) == self.vport,
            u32_at(self.bytes(), 8) == self.wq_type.0,
            u32_at(self.bytes(), 12) == self.reserved,
            u64_at(self.bytes(), 16) == self.wq_gdma_region,
            u64_at(self.bytes(), 24) == self.cq_gdma_region,
            u32_at(self.bytes(), 32) == self.wq_size,
            u32_at(self.bytes(), 36) == self.cq_size,
            u32_at(self.bytes(), 40) == self.cq_moderation_ctx_id,
            u32_at(self.bytes(), 44) == self.cq_parent_qid,
            self.bytes().len() == 48,
    {
        let b = self.bytes();
        crate::wire::lemma_le64_round_trip(self.vport);
        assert(b.subrange(0, 8) =~= le64(self.vport));
        crate::wire::lemma_u64_at_subrange(b, 0);
        crate::wire::lemma_le32_round_trip(self.wq_type.0);
        assert(b.subrange(8, 12) =~= le32(self.wq_type.0));
        crate::wire::lemma_u32_at_subrange(b, 8);
        crate::wire::lemma_le32_round_trip(self.reserved);
        assert(b.subrange(12, 16) =~= le32(self.reserved));
        crate::wire::lemma_u32_at_subrange(b, 12);
        crate::wire::lemma_le64_round_trip(self.wq_gdma_region);
        assert(b.subrange(16, 24) =~= le64(self.wq_gdma_region));
        crate::wire::lemma_u64_at_subrange(b, 16);
        crate::wire::lemma_le64_round_trip(self.cq_gdma_region);
        assert(b.subrange(24, 32) =~= le64(self.cq_gdma_region));
        crate::wire::lemma_u64_at_subrange(b, 24);
        crate::wire::lemma_le32_round_trip(self.wq_size);
        assert(b.subrange(32, 36) =~= le32(self.wq_size));
        crate::wire::lemma_u32_at_subrange(b, 32);
        crate::wire::lemma_le32_round_trip(self.cq_size);
        assert(b.subrange(36, 40) =~= le32(self.cq_size));
        crate::wire::lemma_u32_at_subrange(b, 36);
        crate::wire::lemma_le32_round_trip(self.cq_moderation_ctx_id);
        assert(b.subrange(40, 44) =~= le32(self.cq_moderation_ctx_id));
        crate::wire::lemma_u32_at_subrange(b, 40);
        crate::wire::lemma_le32_round_trip(self.cq_parent_qid);
        assert(b.subrange(44, 48) =~= le32(self.cq_parent_qid));
        crate::wire::lemma_u32_at_subrange(b, 44);
    }
}

impl ManaCreateWqobjResp {
    /// Each field is found at its place, the least byte first.
    pub proof fn fields_are_placed(self)
        ensures
            u32_at(self.bytes(), 0) == self.wq_id,
            u32_at(self.bytes(), 4) == self.cq_id,
            u64_at(self.bytes(), 8) == self.wq_obj,
            self.bytes().len() == 16,
    {
        let b = self.bytes();
        crate::wire::lemma_le32_round_trip(self.wq_id);
        assert(b.subrange(0, 4) =~= le32(self.wq_id));
        crate::wire::lemma_u32_at_subrange(b, 0);
        crate::wire::lemma_le32_round_trip(self.cq_id);
        assert(b.subrange(4, 8) =~= le32(self.cq_id));
        crate::wire::lemma_u32_at_subrange(b, 4);
        crate::wire::lemma_le64_round_trip(self.wq_obj);
        assert(b.subrange(8, 16) =~= le64(self.wq_obj));
        crate::wire::lemma_u64_at_subrange(b, 8);
    }
}

impl ManaDestroyWqobjReq {
    /// Each field is found at its place, the least byte first.
    pub proof fn fields_are_placed(self)
        ensures
            u32_at(self.bytes(), 0) == self.wq_type.0,
            u32_at(self.bytes(), 4) == self.reserved,
            u64_at(self.bytes(), 8) == self.wq_obj_handle,
            self.bytes().len() == 16,
    {
        let b = self.bytes();
        crate::wire::lemma_le32_round_trip(self.wq_type.0);
        assert(b.subrange(0, 4) =~= le32(self.wq_type.0));
        crate::wire::lemma_u32_at_subrange(b, 0);
        crate::wire::lemma_le32_round_trip(self.reserved);
        assert(b.subrange(4, 8) =~= le32(self.reserved));
        crate::wire::lemma_u32_at_subrange(b, 4);
        crate::wire::lemma_le64_round_trip(self.wq_obj_handle);
        assert(b.subrange(8, 16) =~= le64(self.wq_obj_handle));
        crate::wire::lemma_u64_at_subrange(b, 8);
    }
}

impl ManaFenceRqReq {
    /// Each field is found at its place, the least byte first.
    pub proof fn fields_are_placed(self)
        ensures
            u64_at(self.bytes(), 0) == self.wq_obj_handle,
            self.bytes().len() == 8,
    {
        let b = self.bytes();
        crate::wire::lemma_le64_round_trip(self.wq_obj_handle);
        assert(b.subrange(0, 8) =~= le64(self.wq_obj_handle));
        crate::wire::lemma_u64_at_subrange(b, 0);
    }
}

impl ManaCfgRxSteerReq {
    /// Each field is found at its place, the least byte first.
    pub proof fn fields_are_placed(self)
        ensures
            u64_at(self.bytes(), 0) == self.vport,
            u16_at(self.bytes(), 8) == self.num_indir_entries,
            u16_at(self.bytes(), 10) == self.indir_tab_offset,
            u32_at(self.bytes(), 12) == self.rx_enable.0,
            u32_at(self.bytes(), 16) == self.rss_enable.0,
            self.bytes()[20] == self.update_default_rxobj,
            self.bytes()[21] == self.update_hashkey,
            self.bytes()[22] == self.update_indir_tab,
            self.bytes()[23] == self.reserved,
            u64_at(self.bytes(), 24) == self.default_rxobj,
            self.bytes().subrange(32, 72) == self.hashkey@,
            self.bytes().len() == 72,
    {
        let b = self.bytes();
        crate::wire::lemma_le64_round_trip(self.vport);
        assert(b.subrange(0, 8) =~= le64(self.vport));
        crate::wire::lemma_u64_at_subrange(b, 0);
        assert(b[8] == le16(self.num_indir_entries)[0] && b[9] == le16(self.num_indir_entries)[1]);
        assert(b[10] == le16(self.indir_tab_offset)[0] && b[11] == le16(self.indir_tab_offset)[1]);
        crate::wire::lemma_le32_round_trip(self.rx_enable.0);
        assert(b.subrange(12, 16) =~= le32(self.rx_enable.0));
        crate::wire::lemma_u32_at_subrange(b, 12);
        crate::wire::lemma_le32_round_trip(self.rss_enable.0);
        assert(b.subrange(16, 20) =~= le32(self.rss_enable.0));
        crate::wire::lemma_u32_at_subrange(b, 16);
        crate::wire::lemma_le64_round_trip(self.default_rxobj);
        assert(b.subrange(24, 32) =~= le64(self.default_rxobj));
        crate::wire::lemma_u64_at_subrange(b, 24);
        assert(b.subrange(32, 72) =~= self.hashkey@);
    }
}

impl ManaTxCompOob {
    /// Each field is found at its place, the least byte first.
    pub proof fn fields_are_placed(self)
        ensures
            u32_at(self.bytes(), 0) == self.cqe_hdr.0,
            u32_at(self.bytes(), 4) == self.tx_data_offset,
            u32_at(self.bytes(), 8) == self.offsets.0,
            self.bytes().len() == 60,
    {
        let b = self.bytes();
        crate::wire::lemma_le32_round_trip(self.cqe_hdr.0);
        assert(b.subrange(0, 4) =~= le32(self.cqe_hdr.0));
        crate::wire::lemma_u32_at_subrange(b, 0);
        crate::wire::lemma_le32_round_trip(self.tx_data_offset);
        assert(b.subrange(4, 8) =~= le32(self.tx_data_offset));
        crate::wire::lemma_u32_at_subrange(b, 4);
        crate::wire::lemma_le32_round_trip(self.offsets.0);
        assert(b.subrange(8, 12) =~= le32(self.offsets.0));
        crate::wire::lemma_u32_at_subrange(b, 8);
    }
}

impl ManaRxcompPerpktInfo {
    /// Each field is found at its place, the least byte first.
    pub proof fn fields_are_placed(self)
        ensures
            u16_at(self.bytes(), 0) == self.pkt_len,
            u16_at(self.bytes(), 2) == self.reserved1,
            u32_at(self.bytes(), 4) == self.reserved2,
            u32_at(self.bytes(), 8) == self.pkt_hash,
            self.bytes().len() == 12,
    {
        let b = self.bytes();
        assert(b[0] == le16(self.pkt_len)[0] && b[1] == le16(self.pkt_len)[1]);
        assert(b[2] == le16(self.reserved1)[0] && b[3] == le16(self.reserved1)[1]);
        crate::wire::lemma_le32_round_trip(self.reserved2);
        assert(b.subrange(4, 8) =~= le32(self.reserved2));
        crate::wire::lemma_u32_at_subrange(b, 4);
        crate::wire::lemma_le32_round_trip(self.pkt_hash);
        assert(b.subrange(8, 12) =~= le32(self.pkt_hash));
        crate::wire::lemma_u32_at_subrange(b, 8);
    }
}

impl ManaRxcompOob {
    /// Each field is found at its place, the least byte first.
    pub proof fn fields_are_placed(self)
        ensures
            u32_at(self.bytes(), 0) == self.cqe_hdr.0,
            u32_at(self.bytes(), 4) == self.flags.0,
            self.bytes().subrange(8, 20) == self.ppi[0].bytes(),
            self.bytes().subrange(20, 32) == self.ppi[1].bytes(),
            self.bytes().subrange(32, 44) == self.ppi[2].bytes(),
            self.bytes().subrange(44, 56) == self.ppi[3].bytes(),
            u32_at(self.bytes(), 56) == self.rx_wqe_offset,
            self.bytes().len() == 60,
    {
        let b = self.bytes();
        crate::wire::lemma_le32_round_trip(self.cqe_hdr.0);
        assert(b.subrange(0, 4) =~= le32(self.cqe_hdr.0));
        crate::wire::lemma_u32_at_subrange(b, 0);
        crate::wire::lemma_le32_round_trip(self.flags.0);
        assert(b.subrange(4, 8) =~= le32(self.flags.0));
        crate::wire::lemma_u32_at_subrange(b, 4);
        assert(b.subrange(8, 20) =~= self.ppi[0].bytes());
        assert(b.subrange(20, 32) =~= self.ppi[1].bytes());
        assert(b.subrange(32, 44) =~= self.ppi[2].bytes());
        assert(b.subrange(44, 56) =~= self.ppi[3].bytes());
        crate::wire::lemma_le32_round_trip(self.rx_wqe_offset);
        assert(b.subrange(56, 60) =~= le32(self.rx_wqe_offset));
        crate::wire::lemma_u32_at_subrange(b, 56);
    }
}

impl ManaTxOob {
    /// Each field is found at its place, the least byte first.
    pub proof fn fields_are_placed(self)
        ensures
            u64_at(self.bytes(), 0) == self.s_oob.0,
            u64_at(self.bytes(), 8) == self.l_oob.0,
            u32_at(self.bytes(), 16) == self.reserved3,
            u32_at(self.bytes(), 20) == self.reserved4,
            self.bytes().len() == 24,
    {
        let b = self.bytes();
        crate::wire::lemma_le64_round_trip(self.s_oob.0);
        assert(b.subrange(0, 8) =~= le64(self.s_oob.0));
        crate::wire::lemma_u64_at_subrange(b, 0);
        crate::wire::lemma_le64_round_trip(self.l_oob.0);
        assert(b.subrange(8, 16) =~= le64(self.l_oob.0));
        crate::wire::lemma_u64_at_subrange(b, 8);
        crate::wire::lemma_le32_round_trip(self.reserved3);
        assert(b.subrange(16, 20) =~= le32(self.reserved3));
        crate::wire::lemma_u32_at_subrange(b, 16);
        crate::wire::lemma_le32_round_trip(self.reserved4);
        assert(b.subrange(20, 24) =~= le32(self.reserved4));
        crate::wire::lemma_u32_at_subrange(b, 20);
    }
}

impl ManaQueryStatisticsRequest {
    /// Each field is found at its place, the least byte first.
    pub proof fn fields_are_placed(self)
        ensures
            u64_at(self.bytes(), 0) == self.requested_statistics,
            self.bytes().len() == 8,
    {
        let b = self.bytes();
        crate::wire::lemma_le64_round_trip(self.requested_statistics);
        assert(b.subrange(0, 8) =~= le64(self.requested_statistics));
        crate::wire::lemma_u64_at_subrange(b, 0);
    }
}

} // verus!
