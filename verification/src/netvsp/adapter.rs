//! The properties of an adapter that do not change while it runs.
use crate::netvsp::offload::{ChecksumOffloadConfig, OffloadConfig};
use vstd::prelude::*;

verus! {

/// The number of RNDIS packets that may be in flight per channel.
pub const TX_PACKET_QUOTA: usize = 1024;

/// The most channels that one adapter has.
pub const NETVSP_MAX_SUBCHANNELS_PER_VNIC: u16 = 64;

/// The OS ID of Windows NT.
pub const WINDOWS_NT: u8 = 4;

/// The open source OS type of FreeBSD.
pub const FREEBSD: u8 = 2;

/// What the guest has reported about its operating system.
#[derive(Debug, Clone, Copy, PartialEq, Eq, Structural)]
pub enum GuestOsId {
    /// A Microsoft operating system.
    Microsoft {
        /// Which one.
        os_id: u8,
    },
    /// An open source operating system.
    OpenSource {
        /// Which one.
        os_type: u8,
        /// Its version.
        version: u32,
    },
}

/// The transmit offloads that an endpoint has.
#[derive(Debug, Clone, Copy, PartialEq, Eq, Structural)]
pub struct TxOffloadSupport {
    /// The IPv4 header checksum.
    pub ipv4_header: bool,
    /// TCP checksums.
    pub tcp: bool,
    /// UDP checksums.
    pub udp: bool,
    /// TCP segmentation.
    pub tso: bool,
}

/// The properties of an endpoint.
#[derive(Debug, Clone, Copy, PartialEq, Eq, Structural)]
pub struct EndpointInfo {
    /// The most queues that it has.
    pub max_queues: u16,
    /// The length of its RSS indirection table.
    pub indirection_table_size: u16,
    /// Whether it completes transmits quickly.
    pub tx_fast_completions: bool,
    /// Its transmit offloads.
    pub tx_offloads: TxOffloadSupport,
    /// Its link speed in bits per second.
    pub link_speed: u64,
}

/// An adapter.
#[derive(Debug, Clone, Copy)]
pub struct Adapter {
    /// The MAC address.
    pub mac_address: [u8; 6],
    /// The most queues.
    pub max_queues: u16,
    /// The length of the RSS indirection table.
    pub indirection_table_size: u16,
    /// The offloads that the guest may turn on.
    pub offload_support: OffloadConfig,
    /// How many bytes of the outgoing ring are used at most; zero for no limit.
    pub ring_size_limit: usize,
    /// How many free transmit packets there must be before the incoming ring is
    /// polled.
    pub free_tx_packet_threshold: usize,
    /// Whether the endpoint completes transmits quickly.
    pub tx_fast_completions: bool,
    /// The index of the adapter.
    pub adapter_index: u32,
    /// The operating system of the guest, where it is known.
    pub guest_os_id: Option<GuestOsId>,
    /// The link speed in bits per second.
    pub link_speed: u64,
}

/// The options from which an adapter is built.
#[derive(Debug, Clone, Copy, PartialEq, Eq, Structural)]
pub struct NicBuilder {
    /// Whether to limit how much of the outgoing ring is used.
    pub limit_ring_buffer: bool,
    /// The most queues.
    pub max_queues: u16,
    /// The operating system of the guest, where it is known.
    pub get_guest_os_id: Option<GuestOsId>,
    /// Whether there is a virtual function for the guest.
    pub virtual_function: bool,
}

/// A network adapter.
#[derive(Debug, Clone, Copy)]
pub struct Nic {
    /// The adapter.
    pub adapter: Adapter,
    /// Whether there is a virtual function for the guest.
    pub virtual_function: bool,
}

/// `x` moved into `lo..=hi`.
pub open spec fn clamped(x: int, lo: int, hi: int) -> int {
    if x < lo {
        lo
    } else if x > hi {
        hi
    } else {
        x
    }
}

/// The smaller of two numbers.
pub open spec fn smaller(a: int, b: int) -> int {
    if a <= b {
        a
    } else {
        b
    }
}

/// What an adapter on such an endpoint supports: all receive checksums, since a
/// packet can always be marked as unchecked, and the endpoint's transmit
/// offloads.
pub open spec fn offload_support(tx: TxOffloadSupport) -> OffloadConfig {
    OffloadConfig {
        checksum_rx: ChecksumOffloadConfig {
            ipv4_header: true,
            tcp4: true,
            udp4: true,
            tcp6: true,
            udp6: true,
        },
        checksum_tx: ChecksumOffloadConfig {
            ipv4_header: tx.ipv4_header,
            tcp4: tx.tcp,
            udp4: tx.udp,
            tcp6: tx.tcp,
            udp6: tx.udp,
        },
        lso4: tx.tso,
        lso6: tx.tso,
    }
}

impl Nic {
    /// The default options: no limit on the ring or the number of queues.
    pub fn builder() -> (b: NicBuilder)
        ensures
            b == (NicBuilder {
                limit_ring_buffer: false,
                max_queues: u16::MAX,
                get_guest_os_id: None,
                virtual_function: false,
            }),
    {
        NicBuilder {
            limit_ring_buffer: false,
            max_queues: u16::MAX,
            get_guest_os_id: None,
            virtual_function: false,
        }
    }
}

impl NicBuilder {
    /// Sets whether to limit how much of the outgoing ring is used.
    pub fn limit_ring_buffer(self, limit: bool) -> (b: NicBuilder)
        ensures
            b == (NicBuilder { limit_ring_buffer: limit, ..self }),
    {
        NicBuilder { limit_ring_buffer: limit, ..self }
    }

    /// Sets the most queues.
    pub fn max_queues(self, max_queues: u16) -> (b: NicBuilder)
        ensures
            b == (NicBuilder { max_queues, ..self }),
    {
        NicBuilder { max_queues, ..self }
    }

    /// Gives the adapter a virtual function.
    pub fn virtual_function(self) -> (b: NicBuilder)
        ensures
            b == (NicBuilder { virtual_function: true, ..self }),
    {
        NicBuilder { virtual_function: true, ..self }
    }

    /// Tells the operating system of the guest.
    pub fn get_guest_os_id(self, os: GuestOsId) -> (b: NicBuilder)
        ensures
            b == (NicBuilder { get_guest_os_id: Some(os), ..self }),
    {
        NicBuilder { get_guest_os_id: Some(os), ..self }
    }

    /// Builds an adapter on an endpoint, which must have a queue.
    pub fn build(self, endpoint: &EndpointInfo, mac_address: [u8; 6], adapter_index: u32) -> (nic:
        Nic)
        requires
            endpoint.max_queues >= 1,
        ensures
            nic == (Nic {
                adapter: Adapter {
                    mac_address,
                    max_queues: clamped(
                        self.max_queues as int,
                        1,
                        smaller(endpoint.max_queues as int, NETVSP_MAX_SUBCHANNELS_PER_VNIC as int),
                    ) as u16,
                    indirection_table_size: endpoint.indirection_table_size,
                    offload_support: offload_support(endpoint.tx_offloads),
                    ring_size_limit: if self.limit_ring_buffer {
                        1024
                    } else {
                        0
                    },
                    free_tx_packet_threshold: if endpoint.tx_fast_completions {
                        TX_PACKET_QUOTA
                    } else {
                        (TX_PACKET_QUOTA / 4) as usize
                    },
                    tx_fast_completions: endpoint.tx_fast_completions,
                    adapter_index,
                    guest_os_id: self.get_guest_os_id,
                    link_speed: endpoint.link_speed,
                },
                virtual_function: self.virtual_function,
            }),
    {
        let limit: u16 = if endpoint.max_queues <= NETVSP_MAX_SUBCHANNELS_PER_VNIC {
            endpoint.max_queues
        } else {
            NETVSP_MAX_SUBCHANNELS_PER_VNIC
        };
        let max_queues: u16 = if self.max_queues < 1 {
            1
        } else if self.max_queues > limit {
            limit
        } else {
            self.max_queues
        };

        // If requested, limit the effective size of the outgoing ring buffer.
        // In a configuration where the NIC is processed synchronously, this
        // ensures that incoming packets and completions wait until the guest
        // has processed the data it already has.
        let ring_size_limit: usize = if self.limit_ring_buffer {
            1024
        } else {
            0
        };

        // If the endpoint completes packets quickly, then avoid polling the
        // incoming ring as long as any are in flight. Otherwise avoid getting
        // into a situation where there is always barely enough quota.
        let free_tx_packet_threshold: usize = if endpoint.tx_fast_completions {
            TX_PACKET_QUOTA
        } else {
            TX_PACKET_QUOTA / 4
        };

        let tx = endpoint.tx_offloads;
        let offload_support = OffloadConfig {
            checksum_rx: ChecksumOffloadConfig {
                ipv4_header: true,
                tcp4: true,
                udp4: true,
                tcp6: true,
                udp6: true,
            },
            checksum_tx: ChecksumOffloadConfig {
                ipv4_header: tx.ipv4_header,
                tcp4: tx.tcp,
                udp4: tx.udp,
                tcp6: tx.tcp,
                udp6: tx.udp,
            },
            lso4: tx.tso,
            lso6: tx.tso,
        };

        Nic {
            adapter: Adapter {
                mac_address,
                max_queues,
                indirection_table_size: endpoint.indirection_table_size,
                offload_support,
                ring_size_limit,
                free_tx_packet_threshold,
                tx_fast_completions: endpoint.tx_fast_completions,
                adapter_index,
                guest_os_id: self.get_guest_os_id,
                link_speed: endpoint.link_speed,
            },
            virtual_function: self.virtual_function,
        }
    }
}

/// Whether the guest can be relied on to say how much ring space it waits for.
pub fn can_use_ring_opt(supports_pending_send_size: bool, guest_os_id: Option<GuestOsId>) -> (b:
    bool)
    ensures
        b == (supports_pending_send_size && match guest_os_id {
            None => false,
            Some(GuestOsId::Microsoft { .. }) => true,
            Some(GuestOsId::OpenSource { os_type, version }) => os_type == FREEBSD ==> version
                >= 1400097,
        }),
{
    if !supports_pending_send_size {
        return false;
    }
    match guest_os_id {
        // The guest OS is not known.
        None => false,
        Some(GuestOsId::Microsoft { .. }) => true,
        // Although FreeBSD indicates support for the pending send size, it did
        // not implement it correctly before version 1400097.
        Some(GuestOsId::OpenSource { os_type, version }) => os_type != FREEBSD || version
            >= 1400097,
    }
}

impl Adapter {
    /// Whether the guest is Windows.
    pub open spec fn is_windows(self) -> bool {
        self.guest_os_id == Some(GuestOsId::Microsoft { os_id: WINDOWS_NT })
    }

    /// The serial number by which the guest pairs the virtual function with
    /// this adapter: for enlightened guests, which is only Windows, the adapter
    /// index, and the VF ID for all others.
    pub fn get_guest_vf_serial_number(&self, vfid: u32) -> (n: u32)
        ensures
            n == if self.is_windows() {
                self.adapter_index
            } else {
                vfid
            },
    {
        match self.guest_os_id {
            Some(GuestOsId::Microsoft { os_id }) => {
                if os_id == WINDOWS_NT {
                    self.adapter_index
                } else {
                    vfid
                }
            },
            _ => vfid,
        }
    }
}

/// An adapter has as many queues as it was asked for, as long as the endpoint and the guest can have
/// them, and at least one.
pub proof fn queue_count_is_in_range(asked: u16, endpoint: u16)
    requires
        endpoint >= 1,
    ensures
        ({
            let limit = smaller(endpoint as int, NETVSP_MAX_SUBCHANNELS_PER_VNIC as int);
            let n = clamped(asked as int, 1, limit);
            &&& 1 <= n <= endpoint
            &&& n <= 64
            &&& asked >= 1 ==> n <= asked
            &&& 1 <= asked <= endpoint && asked <= 64 ==> n == asked
            &&& asked > endpoint && endpoint <= 64 ==> n == endpoint
        }),
{
}

/// An adapter offers the transmit offloads of its endpoint, to both IP versions alike, and all
/// receive offloads.
pub proof fn endpoint_offloads_are_offered(tx: TxOffloadSupport)
    ensures
        ({
            let o = offload_support(tx);
            &&& o.checksum_tx.ipv4_header == tx.ipv4_header
            &&& o.checksum_tx.tcp4 == tx.tcp && o.checksum_tx.tcp6 == tx.tcp
            &&& o.checksum_tx.udp4 == tx.udp && o.checksum_tx.udp6 == tx.udp
            &&& o.lso4 == tx.tso && o.lso6 == tx.tso
            &&& o.checksum_rx.ipv4_header && o.checksum_rx.tcp4 && o.checksum_rx.tcp6
            &&& o.checksum_rx.udp4 && o.checksum_rx.udp6
        }),
{
}

/// Windows is the Microsoft operating system with the ID of Windows NT.
pub proof fn windows_is_recognized(adapter: Adapter)
    ensures
        adapter.is_windows() <==> (adapter.guest_os_id matches Some(
            GuestOsId::Microsoft { os_id },
        ) && os_id == 4),
{
}

} // verus!
