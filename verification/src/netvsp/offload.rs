//! Task offload configuration and its NDIS encoding.
use crate::wire::{
    le16, le32, lemma_le32_round_trip, push_bytes, push_u16, push_u32, push_zeros, u32_at, zeros,
};
use vstd::prelude::*;

verus! {

/// The feature is supported (or on).
pub const NDIS_OFFLOAD_SUPPORTED: u32 = 1;

/// A "set" request turns the feature on.
pub const NDIS_OFFLOAD_SET_ON: u32 = 1;

/// Ethernet encapsulation.
pub const NDIS_ENCAPSULATION_IEEE_802_3: u32 = 2;

/// Object type of an offload description.
pub const NDIS_OBJECT_TYPE_OFFLOAD: u8 = 0xa7;

/// Byte length of the third revision of the offload description.
pub const NDIS_SIZEOF_NDIS_OFFLOAD_REVISION_3: u16 = 168;

/// The largest TCP payload that is handed over for segmentation, the same as
/// the virtual switch uses.
pub const MAX_OFFLOAD_SIZE: u32 = 0xF53C;

/// Which checksums are offloaded in one direction.
#[derive(Debug, Clone, Copy, PartialEq, Eq, Structural)]
pub struct ChecksumOffloadConfig {
    /// The IPv4 header checksum.
    pub ipv4_header: bool,
    /// TCP over IPv4.
    pub tcp4: bool,
    /// UDP over IPv4.
    pub udp4: bool,
    /// TCP over IPv6.
    pub tcp6: bool,
    /// UDP over IPv6.
    pub udp6: bool,
}

/// The task offloads that are supported or in effect.
#[derive(Debug, Clone, Copy, PartialEq, Eq, Structural)]
pub struct OffloadConfig {
    /// Transmit checksums.
    pub checksum_tx: ChecksumOffloadConfig,
    /// Receive checksums.
    pub checksum_rx: ChecksumOffloadConfig,
    /// TCP segmentation over IPv4.
    pub lso4: bool,
    /// TCP segmentation over IPv6.
    pub lso6: bool,
}

/// IPv4 checksum offload flags, each a two-bit value.
#[derive(Debug, Clone, Copy, PartialEq, Eq, Structural)]
pub struct Ipv4ChecksumOffload {
    /// IP options may be present.
    pub ip_options_supported: u32,
    /// TCP options may be present.
    pub tcp_options_supported: u32,
    /// The TCP checksum is offloaded.
    pub tcp_checksum: u32,
    /// The UDP checksum is offloaded.
    pub udp_checksum: u32,
    /// The IP header checksum is offloaded.
    pub ip_checksum: u32,
}

/// IPv6 checksum offload flags, each a two-bit value.
#[derive(Debug, Clone, Copy, PartialEq, Eq, Structural)]
pub struct Ipv6ChecksumOffload {
    /// IP extension headers may be present.
    pub ip_extension_headers_supported: u32,
    /// TCP options may be present.
    pub tcp_options_supported: u32,
    /// The TCP checksum is offloaded.
    pub tcp_checksum: u32,
    /// The UDP checksum is offloaded.
    pub udp_checksum: u32,
}

/// The flag value for a feature that is on or off.
pub open spec fn flag(on: bool) -> u32 {
    if on {
        NDIS_OFFLOAD_SUPPORTED
    } else {
        0
    }
}

impl Ipv4ChecksumOffload {
    /// All fields are two-bit values.
    pub open spec fn wf(self) -> bool {
        &&& self.ip_options_supported < 4
        &&& self.tcp_options_supported < 4
        &&& self.tcp_checksum < 4
        &&& self.udp_checksum < 4
        &&& self.ip_checksum < 4
    }

    /// The fields packed from the lowest bit up, two bits each.
    pub open spec fn spec_bits(self) -> u32 {
        (self.ip_options_supported + 4 * self.tcp_options_supported + 16 * self.tcp_checksum + 64
            * self.udp_checksum + 256 * self.ip_checksum) as u32
    }

    /// The packed flags.
    pub fn bits(&self) -> (bits: u32)
        requires
            self.wf(),
        ensures
            bits == self.spec_bits(),
    {
        self.ip_options_supported + 4 * self.tcp_options_supported + 16 * self.tcp_checksum + 64
            * self.udp_checksum + 256 * self.ip_checksum
    }
}

impl Ipv6ChecksumOffload {
    /// All fields are two-bit values.
    pub open spec fn wf(self) -> bool {
        &&& self.ip_extension_headers_supported < 4
        &&& self.tcp_options_supported < 4
        &&& self.tcp_checksum < 4
        &&& self.udp_checksum < 4
    }

    /// The fields packed from the lowest bit up, two bits each.
    pub open spec fn spec_bits(self) -> u32 {
        (self.ip_extension_headers_supported + 4 * self.tcp_options_supported + 16
            * self.tcp_checksum + 64 * self.udp_checksum) as u32
    }

    /// The packed flags.
    pub fn bits(&self) -> (bits: u32)
        requires
            self.wf(),
        ensures
            bits == self.spec_bits(),
    {
        self.ip_extension_headers_supported + 4 * self.tcp_options_supported + 16
            * self.tcp_checksum + 64 * self.udp_checksum
    }
}

impl ChecksumOffloadConfig {
    /// The IPv4 flags: options are allowed as soon as any IPv4 checksum is
    /// offloaded.
    pub open spec fn ipv4_flags(self) -> Ipv4ChecksumOffload {
        Ipv4ChecksumOffload {
            ip_options_supported: flag(self.ipv4_header || self.tcp4 || self.udp4),
            tcp_options_supported: flag(self.tcp4),
            tcp_checksum: flag(self.tcp4),
            udp_checksum: flag(self.udp4),
            ip_checksum: flag(self.ipv4_header),
        }
    }

    /// The IPv6 flags: extension headers are allowed as soon as any IPv6
    /// checksum is offloaded.
    pub open spec fn ipv6_flags(self) -> Ipv6ChecksumOffload {
        Ipv6ChecksumOffload {
            ip_extension_headers_supported: flag(self.tcp6 || self.udp6),
            tcp_options_supported: flag(self.tcp6),
            tcp_checksum: flag(self.tcp6),
            udp_checksum: flag(self.udp6),
        }
    }

    /// The NDIS flags that describe this configuration.
    pub fn flags(&self) -> (r: (Ipv4ChecksumOffload, Ipv6ChecksumOffload))
        ensures
            r.0 == self.ipv4_flags(),
            r.1 == self.ipv6_flags(),
            r.0.wf(),
            r.1.wf(),
    {
        let on: u32 = NDIS_OFFLOAD_SUPPORTED;
        let mut v4 = Ipv4ChecksumOffload {
            ip_options_supported: 0,
            tcp_options_supported: 0,
            tcp_checksum: 0,
            udp_checksum: 0,
            ip_checksum: 0,
        };
        let mut v6 = Ipv6ChecksumOffload {
            ip_extension_headers_supported: 0,
            tcp_options_supported: 0,
            tcp_checksum: 0,
            udp_checksum: 0,
        };
        if self.ipv4_header {
            v4.ip_options_supported = on;
            v4.ip_checksum = on;
        }
        if self.tcp4 {
            v4.ip_options_supported = on;
            v4.tcp_options_supported = on;
            v4.tcp_checksum = on;
        }
        if self.tcp6 {
            v6.ip_extension_headers_supported = on;
            v6.tcp_options_supported = on;
            v6.tcp_checksum = on;
        }
        if self.udp4 {
            v4.ip_options_supported = on;
            v4.udp_checksum = on;
        }
        if self.udp6 {
            v6.ip_extension_headers_supported = on;
            v6.udp_checksum = on;
        }
        (v4, v6)
    }
}

impl OffloadConfig {
    /// The checksum part of the offload description: for each of IPv4 transmit,
    /// IPv4 receive, IPv6 transmit and IPv6 receive, the encapsulation and the
    /// flags.
    pub open spec fn checksum_bytes(self) -> Seq<u8> {
        le32(NDIS_ENCAPSULATION_IEEE_802_3) + le32(self.checksum_tx.ipv4_flags().spec_bits())
            + le32(NDIS_ENCAPSULATION_IEEE_802_3) + le32(
            self.checksum_rx.ipv4_flags().spec_bits(),
        ) + le32(NDIS_ENCAPSULATION_IEEE_802_3) + le32(self.checksum_tx.ipv6_flags().spec_bits())
            + le32(NDIS_ENCAPSULATION_IEEE_802_3) + le32(self.checksum_rx.ipv6_flags().spec_bits())
    }

    /// The TCP segmentation part: encapsulation, largest payload and smallest
    /// number of segments for IPv4 and for IPv6, all zero where it is off, and
    /// the IPv6 flags (extension headers and TCP options).
    pub open spec fn lso_bytes(self) -> Seq<u8> {
        (if self.lso4 {
            le32(NDIS_ENCAPSULATION_IEEE_802_3) + le32(MAX_OFFLOAD_SIZE) + le32(2)
        } else {
            zeros(12)
        }) + (if self.lso6 {
            le32(NDIS_ENCAPSULATION_IEEE_802_3) + le32(MAX_OFFLOAD_SIZE) + le32(2) + le32(5)
        } else {
            zeros(16)
        })
    }

    /// The offload description that is sent to the guest.
    pub open spec fn ndis_offload_bytes(self) -> Seq<u8> {
        seq![NDIS_OBJECT_TYPE_OFFLOAD, 3u8] + le16(NDIS_SIZEOF_NDIS_OFFLOAD_REVISION_3)
            + self.checksum_bytes() + zeros(44) + self.lso_bytes() + zeros(60)
    }

    fn checksum_part(&self) -> (out: Vec<u8>)
        ensures
            out@ == self.checksum_bytes(),
            out@.len() == 32,
    {
        let (ipv4_tx_flags, ipv6_tx_flags) = self.checksum_tx.flags();
        let (ipv4_rx_flags, ipv6_rx_flags) = self.checksum_rx.flags();
        let mut out: Vec<u8> = Vec::new();
        push_u32(&mut out, NDIS_ENCAPSULATION_IEEE_802_3);
        assert(out@ =~= le32(NDIS_ENCAPSULATION_IEEE_802_3));
        push_u32(&mut out, ipv4_tx_flags.bits());
        push_u32(&mut out, NDIS_ENCAPSULATION_IEEE_802_3);
        push_u32(&mut out, ipv4_rx_flags.bits());
        push_u32(&mut out, NDIS_ENCAPSULATION_IEEE_802_3);
        push_u32(&mut out, ipv6_tx_flags.bits());
        push_u32(&mut out, NDIS_ENCAPSULATION_IEEE_802_3);
        push_u32(&mut out, ipv6_rx_flags.bits());
        out
    }

    fn lso_part(&self) -> (out: Vec<u8>)
        ensures
            out@ == self.lso_bytes(),
            out@.len() == 28,
    {
        let mut v4: Vec<u8> = Vec::new();
        if self.lso4 {
            push_u32(&mut v4, NDIS_ENCAPSULATION_IEEE_802_3);
            assert(v4@ =~= le32(NDIS_ENCAPSULATION_IEEE_802_3));
            push_u32(&mut v4, MAX_OFFLOAD_SIZE);
            push_u32(&mut v4, 2);
        } else {
            push_zeros(&mut v4, 12);
            assert(v4@ =~= zeros(12));
        }
        let mut v6: Vec<u8> = Vec::new();
        if self.lso6 {
            push_u32(&mut v6, NDIS_ENCAPSULATION_IEEE_802_3);
            assert(v6@ =~= le32(NDIS_ENCAPSULATION_IEEE_802_3));
            push_u32(&mut v6, MAX_OFFLOAD_SIZE);
            push_u32(&mut v6, 2);
            push_u32(&mut v6, 5);
        } else {
            push_zeros(&mut v6, 16);
            assert(v6@ =~= zeros(16));
        }
        push_bytes(&mut v4, v6.as_slice());
        v4
    }

    /// Encodes the configuration as a revision 3 offload description.
    pub fn ndis_offload(&self) -> (bytes: Vec<u8>)
        ensures
            bytes@ == self.ndis_offload_bytes(),
            bytes@.len() == NDIS_SIZEOF_NDIS_OFFLOAD_REVISION_3,
    {
        let mut out: Vec<u8> = Vec::new();
        out.push(NDIS_OBJECT_TYPE_OFFLOAD);
        out.push(3);
        assert(out@ =~= seq![NDIS_OBJECT_TYPE_OFFLOAD, 3u8]);
        push_u16(&mut out, NDIS_SIZEOF_NDIS_OFFLOAD_REVISION_3);
        let checksum = self.checksum_part();
        push_bytes(&mut out, checksum.as_slice());
        push_zeros(&mut out, 44);
        let lso = self.lso_part();
        push_bytes(&mut out, lso.as_slice());
        push_zeros(&mut out, 60);
        out
    }
}

/// The description of offloads that the guest gets says of each checksum whether it is offloaded,
/// per direction and IP version, in fields of two bits.
pub proof fn offload_description_tells_checksums(c: OffloadConfig)
    ensures
        ({
            let b = c.ndis_offload_bytes();
            let tx4 = u32_at(b, 8);
            let rx4 = u32_at(b, 16);
            let tx6 = u32_at(b, 24);
            let rx6 = u32_at(b, 32);
            &&& b.len() == 168
            &&& b[0] == 0xa7
            &&& b[1] == 3
            &&& b[2] == 168 && b[3] == 0
            &&& (tx4 / 16) % 4 == bit_of(c.checksum_tx.tcp4)
            &&& (tx4 / 64) % 4 == bit_of(c.checksum_tx.udp4)
            &&& (tx4 / 256) % 4 == bit_of(c.checksum_tx.ipv4_header)
            &&& (tx4 / 4) % 4 == bit_of(c.checksum_tx.tcp4)
            &&& tx4 % 4 == bit_of(
                c.checksum_tx.tcp4 || c.checksum_tx.udp4 || c.checksum_tx.ipv4_header,
            )
            &&& (rx4 / 16) % 4 == bit_of(c.checksum_rx.tcp4)
            &&& (rx4 / 64) % 4 == bit_of(c.checksum_rx.udp4)
            &&& (rx4 / 256) % 4 == bit_of(c.checksum_rx.ipv4_header)
            &&& (tx6 / 16) % 4 == bit_of(c.checksum_tx.tcp6)
            &&& (tx6 / 64) % 4 == bit_of(c.checksum_tx.udp6)
            &&& tx6 % 4 == bit_of(c.checksum_tx.tcp6 || c.checksum_tx.udp6)
            &&& (rx6 / 16) % 4 == bit_of(c.checksum_rx.tcp6)
            &&& (rx6 / 64) % 4 == bit_of(c.checksum_rx.udp6)
            &&& u32_at(b, 4) == 2 && u32_at(b, 12) == 2 && u32_at(b, 20) == 2 && u32_at(b, 28) == 2
        }),
{
    lemma_checksum_places(c);
    lemma_flag_bits(c.checksum_tx);
    lemma_flag_bits(c.checksum_rx);
}

proof fn lemma_flag_bits(c: ChecksumOffloadConfig)
    ensures
        ({
            let v4 = c.ipv4_flags().spec_bits();
            let v6 = c.ipv6_flags().spec_bits();
            &&& (v4 / 16) % 4 == bit_of(c.tcp4)
            &&& (v4 / 64) % 4 == bit_of(c.udp4)
            &&& (v4 / 256) % 4 == bit_of(c.ipv4_header)
            &&& (v4 / 4) % 4 == bit_of(c.tcp4)
            &&& v4 % 4 == bit_of(c.tcp4 || c.udp4 || c.ipv4_header)
            &&& (v6 / 16) % 4 == bit_of(c.tcp6)
            &&& (v6 / 64) % 4 == bit_of(c.udp6)
            &&& v6 % 4 == bit_of(c.tcp6 || c.udp6)
        }),
{
}

proof fn lemma_checksum_places(c: OffloadConfig)
    ensures
        ({
            let b = c.ndis_offload_bytes();
            &&& b.len() == 168
            &&& b[0] == 0xa7
            &&& b[1] == 3
            &&& b[2] == 168 && b[3] == 0
            &&& u32_at(b, 8) == c.checksum_tx.ipv4_flags().spec_bits()
            &&& u32_at(b, 16) == c.checksum_rx.ipv4_flags().spec_bits()
            &&& u32_at(b, 24) == c.checksum_tx.ipv6_flags().spec_bits()
            &&& u32_at(b, 32) == c.checksum_rx.ipv6_flags().spec_bits()
            &&& u32_at(b, 4) == 2 && u32_at(b, 12) == 2 && u32_at(b, 20) == 2 && u32_at(b, 28) == 2
        }),
{
    let b = c.ndis_offload_bytes();
    let k = c.checksum_bytes();
    let t4 = c.checksum_tx.ipv4_flags().spec_bits();
    let r4 = c.checksum_rx.ipv4_flags().spec_bits();
    let t6 = c.checksum_tx.ipv6_flags().spec_bits();
    let r6 = c.checksum_rx.ipv6_flags().spec_bits();
    lemma_le32_round_trip(2);
    lemma_le32_round_trip(t4);
    lemma_le32_round_trip(r4);
    lemma_le32_round_trip(t6);
    lemma_le32_round_trip(r6);
    assert(c.lso_bytes().len() == 28);
    assert(k.len() == 32);
    assert forall|i: int| 0 <= i < 32 implies b[4 + i] == #[trigger] k[i] by {}
    assert(u32_at(b, 4) == u32_at(k, 0));
    assert(u32_at(b, 8) == u32_at(k, 4));
    assert(u32_at(b, 12) == u32_at(k, 8));
    assert(u32_at(b, 16) == u32_at(k, 12));
    assert(u32_at(b, 20) == u32_at(k, 16));
    assert(u32_at(b, 24) == u32_at(k, 20));
    assert(u32_at(b, 28) == u32_at(k, 24));
    assert(u32_at(b, 32) == u32_at(k, 28));
    assert(u32_at(k, 0) == u32_at(le32(2), 0));
    assert(u32_at(k, 4) == u32_at(le32(t4), 0));
    assert(u32_at(k, 8) == u32_at(le32(2), 0));
    assert(u32_at(k, 12) == u32_at(le32(r4), 0));
    assert(u32_at(k, 16) == u32_at(le32(2), 0));
    assert(u32_at(k, 20) == u32_at(le32(t6), 0));
    assert(u32_at(k, 24) == u32_at(le32(2), 0));
    assert(u32_at(k, 28) == u32_at(le32(r6), 0));
}

/// One for what is on.
pub open spec fn bit_of(on: bool) -> int {
    if on {
        1
    } else {
        0
    }
}

/// The description says of TCP segmentation, per IP version, how large a payload may be, and has
/// zeros where it is off.
pub proof fn offload_description_tells_segmentation(c: OffloadConfig)
    ensures
        ({
            let b = c.ndis_offload_bytes();
            &&& c.lso4 ==> u32_at(b, 80) == 2 && u32_at(b, 84) == 0xF53C && u32_at(b, 88) == 2
            &&& !c.lso4 ==> u32_at(b, 80) == 0 && u32_at(b, 84) == 0 && u32_at(b, 88) == 0
            &&& c.lso6 ==> u32_at(b, 92) == 2 && u32_at(b, 96) == 0xF53C && u32_at(b, 100) == 2
                && u32_at(b, 104) == 5
            &&& !c.lso6 ==> u32_at(b, 92) == 0 && u32_at(b, 96) == 0 && u32_at(b, 100) == 0
                && u32_at(b, 104) == 0
        }),
{
    let b = c.ndis_offload_bytes();
    let l = c.lso_bytes();
    lemma_le32_round_trip(2);
    lemma_le32_round_trip(5);
    lemma_le32_round_trip(MAX_OFFLOAD_SIZE);
    assert(c.checksum_bytes().len() == 32);
    assert(l.len() == 28);
    assert forall|i: int| 0 <= i < 28 implies b[80 + i] == #[trigger] l[i] by {}
    assert(u32_at(b, 80) == u32_at(l, 0));
    assert(u32_at(b, 84) == u32_at(l, 4));
    assert(u32_at(b, 88) == u32_at(l, 8));
    assert(u32_at(b, 92) == u32_at(l, 12));
    assert(u32_at(b, 96) == u32_at(l, 16));
    assert(u32_at(b, 100) == u32_at(l, 20));
    assert(u32_at(b, 104) == u32_at(l, 24));
    if c.lso4 {
        assert(u32_at(l, 0) == u32_at(le32(2), 0));
        assert(u32_at(l, 4) == u32_at(le32(MAX_OFFLOAD_SIZE), 0));
        assert(u32_at(l, 8) == u32_at(le32(2), 0));
    }
    if c.lso6 {
        assert(u32_at(l, 12) == u32_at(le32(2), 0));
        assert(u32_at(l, 16) == u32_at(le32(MAX_OFFLOAD_SIZE), 0));
        assert(u32_at(l, 20) == u32_at(le32(2), 0));
        assert(u32_at(l, 24) == u32_at(le32(5), 0));
    }
}

} // verus!
