//! Settings of the guest.
use crate::netvsp::adapter::Adapter;
use crate::netvsp::offload::{
    ChecksumOffloadConfig, OffloadConfig, NDIS_ENCAPSULATION_IEEE_802_3, NDIS_OFFLOAD_SET_ON,
};
use crate::netvsp::oid::{
    OidError, OidFeature, OidField, ETHERNET_HEADER_LEN, NDIS_OBJECT_TYPE_DEFAULT,
    NDIS_OBJECT_TYPE_OFFLOAD_ENCAPSULATION, NDIS_SIZEOF_OFFLOAD_ENCAPSULATION_REVISION_1,
    NDIS_SIZEOF_OFFLOAD_PARAMETERS_REVISION_1,
};
use crate::netvsp::rndis::{
    OID_GEN_CURRENT_PACKET_FILTER, OID_GEN_NETWORK_LAYER_ADDRESSES,
    OID_GEN_RECEIVE_SCALE_PARAMETERS, OID_GEN_RNDIS_CONFIG_PARAMETER, OID_OFFLOAD_ENCAPSULATION,
    OID_TCP_OFFLOAD_PARAMETERS,
};
use crate::netvsp::state::{PrimaryChannelState, PrimaryView, RssState, RssView};
use crate::wire::{copy_bytes, read_u16, read_u32, u16_at, u32_at};
use vstd::prelude::*;
use vstd::string::StrSliceExecFns;

verus! {

/// The length of an RSS key.
pub const RSS_KEY_LEN: u16 = 40;

/// Parameter type of strings.
pub const NDIS_PARAMETER_TYPE_STRING: u32 = 2;

/// Parameter type of integers.
pub const NDIS_PARAMETER_TYPE_INTEGER: u32 = 0;

/// The first `n` bytes of `b`, with zeros where `b` is shorter.
pub open spec fn zero_extended(b: Seq<u8>, n: nat) -> Seq<u8> {
    Seq::new(
        n,
        |i: int|
            if i < b.len() {
                b[i]
            } else {
                0
            },
    )
}

/// The first `n` bytes of `b`, with zeros where `b` is shorter.
fn zero_extend(b: &[u8], n: usize) -> (r: Vec<u8>)
    ensures
        r@ == zero_extended(b@, n as nat),
{
    let mut out: Vec<u8> = Vec::new();
    let mut i: usize = 0;
    while i < n
        invariant
            i <= n,
            out@ == zero_extended(b@, i as nat),
        decreases n - i,
    {
        if i < b.len() {
            out.push(b[i]);
        } else {
            out.push(0);
        }
        i = i + 1;
        assert(out@ =~= zero_extended(b@, i as nat));
    }
    out
}

/// The start of an NDIS object.
#[derive(Debug, Clone, Copy, PartialEq, Eq, Structural)]
pub struct NdisObjectHeader {
    /// The object type.
    pub object_type: u8,
    /// The revision.
    pub revision: u8,
    /// The byte length of the object.
    pub size: u16,
}

/// Why an object is refused, if it is.
pub open spec fn header_error(
    header: NdisObjectHeader,
    sent_size: int,
    object_type: u8,
    min_revision: u8,
    min_size: int,
) -> Option<OidField> {
    if header.object_type != object_type {
        Some(OidField::HeaderObjectType)
    } else if sent_size < header.size {
        Some(OidField::HeaderSize)
    } else if header.revision < min_revision {
        Some(OidField::HeaderRevision)
    } else if header.size < min_size {
        Some(OidField::HeaderSize)
    } else {
        None
    }
}

/// Checks the header of an object of which `sent_size` bytes were sent.
pub fn validate_ndis_object_header(
    header: &NdisObjectHeader,
    sent_size: usize,
    object_type: u8,
    min_revision: u8,
    min_size: usize,
) -> (r: Result<(), OidError>)
    ensures
        r == match header_error(
            *header,
            sent_size as int,
            object_type,
            min_revision,
            min_size as int,
        ) {
            Some(field) => Err::<(), OidError>(OidError::InvalidInput(field)),
            None => Ok::<(), OidError>(()),
        },
{
    if header.object_type != object_type {
        return Err(OidError::InvalidInput(OidField::HeaderObjectType));
    }
    if sent_size < header.size as usize {
        return Err(OidError::InvalidInput(OidField::HeaderSize));
    }
    if header.revision < min_revision {
        return Err(OidError::InvalidInput(OidField::HeaderRevision));
    }
    if (header.size as usize) < min_size {
        return Err(OidError::InvalidInput(OidField::HeaderSize));
    }
    Ok(())
}

/// The header of the object in `b`.
pub open spec fn header_of(b: Seq<u8>) -> NdisObjectHeader {
    let h = zero_extended(b, 4);
    NdisObjectHeader { object_type: h[0], revision: h[1], size: u16_at(h, 2) }
}

/// Why the first revision of an object, of `size` bytes, is refused.
pub open spec fn object_error(b: Seq<u8>, object_type: u8, size: u16) -> Option<OidField> {
    header_error(header_of(b), b.len() as int, object_type, 1, size as int)
}

/// Reads the first revision of an object, of `size` bytes.
fn read_ndis_object(b: &[u8], object_type: u8, size: u16) -> (r: Result<Vec<u8>, OidError>)
    requires
        size >= 4,
    ensures
        match object_error(b@, object_type, size) {
            Some(field) => r == Err::<Vec<u8>, OidError>(OidError::InvalidInput(field)),
            None => r is Ok && r->Ok_0@ == b@.take(size as int) && b@.len() >= size,
        },
{
    let h = zero_extend(b, 4);
    let header = NdisObjectHeader {
        object_type: h[0],
        revision: h[1],
        size: read_u16(h.as_slice(), 2),
    };
    match validate_ndis_object_header(&header, b.len(), object_type, 1, size as usize) {
        Ok(()) => {},
        Err(err) => return Err(err),
    }
    let out = copy_bytes(b, 0, size as usize);
    assert(out@ =~= b@.take(size as int));
    Ok(out)
}

/// A checksum offload that a setting asks for: transmit and receive; `None`
/// leaves it as it is.
pub open spec fn tx_rx(x: u8) -> Option<(bool, bool)> {
    if x == 1 {
        Some((false, false))
    } else if x == 2 {
        Some((true, false))
    } else if x == 3 {
        Some((false, true))
    } else if x == 4 {
        Some((true, true))
    } else {
        None
    }
}

/// A segmentation offload that a setting asks for; `None` leaves it as it is.
pub open spec fn enable(x: u8) -> Option<bool> {
    if x == 1 {
        Some(false)
    } else if x == 2 {
        Some(true)
    } else {
        None
    }
}

fn get_enable(x: u8) -> (r: Option<bool>)
    ensures
        r == enable(x),
{
    match x {
        1 => Some(false),
        2 => Some(true),
        _ => None,
    }
}

/// The transmit half of a checksum setting.
pub open spec fn tx_or(x: u8, now: bool) -> bool {
    match tx_rx(x) {
        Some((tx, _)) => tx,
        None => now,
    }
}

/// The receive half of a checksum setting.
pub open spec fn rx_or(x: u8, now: bool) -> bool {
    match tx_rx(x) {
        Some((_, rx)) => rx,
        None => now,
    }
}

/// A segmentation setting: only what is supported can be turned on.
pub open spec fn lso_or(x: u8, now: bool, supported: bool) -> bool {
    match enable(x) {
        Some(on) => on && supported,
        None => now,
    }
}

fn get_tx_or(x: u8, now: bool) -> (r: bool)
    ensures
        r == tx_or(x, now),
{
    match x {
        1 | 3 => false,
        2 | 4 => true,
        _ => now,
    }
}

fn get_rx_or(x: u8, now: bool) -> (r: bool)
    ensures
        r == rx_or(x, now),
{
    match x {
        1 | 2 => false,
        3 | 4 => true,
        _ => now,
    }
}

fn get_lso_or(x: u8, now: bool, supported: bool) -> (r: bool)
    ensures
        r == lso_or(x, now, supported),
{
    match get_enable(x) {
        Some(on) => on && supported,
        None => now,
    }
}

/// The offloads after the setting `b`.
pub open spec fn offload_parameters(
    adapter: Adapter,
    now: OffloadConfig,
    b: Seq<u8>,
) -> OffloadConfig {
    OffloadConfig {
        checksum_tx: ChecksumOffloadConfig {
            ipv4_header: tx_or(b[4], now.checksum_tx.ipv4_header),
            tcp4: tx_or(b[5], now.checksum_tx.tcp4),
            udp4: tx_or(b[6], now.checksum_tx.udp4),
            tcp6: tx_or(b[7], now.checksum_tx.tcp6),
            udp6: tx_or(b[8], now.checksum_tx.udp6),
        },
        checksum_rx: ChecksumOffloadConfig {
            ipv4_header: rx_or(b[4], now.checksum_rx.ipv4_header),
            tcp4: rx_or(b[5], now.checksum_rx.tcp4),
            udp4: rx_or(b[6], now.checksum_rx.udp4),
            tcp6: rx_or(b[7], now.checksum_rx.tcp6),
            udp6: rx_or(b[8], now.checksum_rx.udp6),
        },
        lso4: lso_or(b[11], now.lso4, adapter.offload_support.lso4),
        lso6: lso_or(b[12], now.lso6, adapter.offload_support.lso6),
    }
}

/// The outcome of a setting that turns offloads on and off.
pub open spec fn offload_set(adapter: Adapter, p: PrimaryView, b: Seq<u8>) -> Result<
    PrimaryView,
    OidError,
> {
    match object_error(b, NDIS_OBJECT_TYPE_DEFAULT, NDIS_SIZEOF_OFFLOAD_PARAMETERS_REVISION_1) {
        Some(field) => Err(OidError::InvalidInput(field)),
        None => if enable(b[9]) == Some(true) {
            Err(OidError::NotSupported(OidFeature::Lsov1))
        } else {
            Ok(
                PrimaryView {
                    offload_config: offload_parameters(adapter, p.offload_config, b),
                    pending_offload_change: true,
                    ..p
                },
            )
        },
    }
}

fn apply_offload_parameters(adapter: &Adapter, now: OffloadConfig, o: &Vec<u8>) -> (r: OffloadConfig)
    requires
        o@.len() >= 13,
    ensures
        r == offload_parameters(*adapter, now, o@),
{
    OffloadConfig {
        checksum_tx: ChecksumOffloadConfig {
            ipv4_header: get_tx_or(o[4], now.checksum_tx.ipv4_header),
            tcp4: get_tx_or(o[5], now.checksum_tx.tcp4),
            udp4: get_tx_or(o[6], now.checksum_tx.udp4),
            tcp6: get_tx_or(o[7], now.checksum_tx.tcp6),
            udp6: get_tx_or(o[8], now.checksum_tx.udp6),
        },
        checksum_rx: ChecksumOffloadConfig {
            ipv4_header: get_rx_or(o[4], now.checksum_rx.ipv4_header),
            tcp4: get_rx_or(o[5], now.checksum_rx.tcp4),
            udp4: get_rx_or(o[6], now.checksum_rx.udp4),
            tcp6: get_rx_or(o[7], now.checksum_rx.tcp6),
            udp6: get_rx_or(o[8], now.checksum_rx.udp6),
        },
        lso4: get_lso_or(o[11], now.lso4, adapter.offload_support.lso4),
        lso6: get_lso_or(o[12], now.lso6, adapter.offload_support.lso6),
    }
}

/// Turns offloads on and off.
pub fn oid_set_offload_parameters(
    adapter: &Adapter,
    b: &[u8],
    primary: &mut PrimaryChannelState,
) -> (r: Result<(), OidError>)
    ensures
        match offload_set(*adapter, old(primary)@, b@) {
            Ok(p) => r is Ok && final(primary)@ == p,
            Err(err) => r == Err::<(), OidError>(err) && *final(primary) == *old(primary),
        },
        old(primary).wf() ==> final(primary).wf(),
        final(primary).control_messages_len == old(primary).control_messages_len,
{
    let o = match read_ndis_object(
        b,
        NDIS_OBJECT_TYPE_DEFAULT,
        NDIS_SIZEOF_OFFLOAD_PARAMETERS_REVISION_1,
    ) {
        Ok(o) => o,
        Err(err) => return Err(err),
    };
    if let Some(true) = get_enable(o[9]) {
        return Err(OidError::NotSupported(OidFeature::Lsov1));
    }
    let config = apply_offload_parameters(adapter, primary.offload_config, &o);
    assert(offload_parameters(*adapter, primary.offload_config, o@) == offload_parameters(
        *adapter,
        primary.offload_config,
        b@,
    ));
    primary.offload_config = config;
    primary.pending_offload_change = true;
    Ok(())
}

/// Whether an encapsulation is asked for that is not Ethernet.
pub open spec fn foreign_encapsulation(b: Seq<u8>, off: int) -> bool {
    u32_at(b, off) == NDIS_OFFLOAD_SET_ON && (u32_at(b, off + 4) != NDIS_ENCAPSULATION_IEEE_802_3
        || u32_at(b, off + 8) != ETHERNET_HEADER_LEN)
}

/// Why the setting of an encapsulation fails, if it does.
pub open spec fn encapsulation_error(b: Seq<u8>) -> Option<OidError> {
    match object_error(
        b,
        NDIS_OBJECT_TYPE_OFFLOAD_ENCAPSULATION,
        NDIS_SIZEOF_OFFLOAD_ENCAPSULATION_REVISION_1,
    ) {
        Some(field) => Some(OidError::InvalidInput(field)),
        None => if foreign_encapsulation(b, 4) {
            Some(OidError::NotSupported(OidFeature::Ipv4Encap))
        } else if foreign_encapsulation(b, 16) {
            Some(OidError::NotSupported(OidFeature::Ipv6Encap))
        } else {
            None
        },
    }
}

/// Checks that the guest asks for no encapsulation but Ethernet.
pub fn oid_set_offload_encapsulation(b: &[u8]) -> (r: Result<(), OidError>)
    ensures
        r == match encapsulation_error(b@) {
            Some(err) => Err::<(), OidError>(err),
            None => Ok::<(), OidError>(()),
        },
{
    let o = match read_ndis_object(
        b,
        NDIS_OBJECT_TYPE_OFFLOAD_ENCAPSULATION,
        NDIS_SIZEOF_OFFLOAD_ENCAPSULATION_REVISION_1,
    ) {
        Ok(o) => o,
        Err(err) => return Err(err),
    };
    let s = o.as_slice();
    if read_u32(s, 4) == NDIS_OFFLOAD_SET_ON && (read_u32(s, 8) != NDIS_ENCAPSULATION_IEEE_802_3
        || read_u32(s, 12) != ETHERNET_HEADER_LEN) {
        return Err(OidError::NotSupported(OidFeature::Ipv4Encap));
    }
    if read_u32(s, 16) == NDIS_OFFLOAD_SET_ON && (read_u32(s, 20) != NDIS_ENCAPSULATION_IEEE_802_3
        || read_u32(s, 24) != ETHERNET_HEADER_LEN) {
        return Err(OidError::NotSupported(OidFeature::Ipv6Encap));
    }
    Ok(())
}

/// The part of RSS parameters that is read.
#[derive(Debug, Clone, Copy, PartialEq, Eq, Structural)]
pub struct RssParameters {
    /// The flags.
    pub flags: u16,
    /// The hash function and the hashed packets.
    pub hash_information: u32,
    /// The byte length of the indirection table.
    pub indirection_table_size: u16,
    /// Where the indirection table is.
    pub indirection_table_offset: u32,
    /// The length of the key.
    pub hash_secret_key_size: u16,
    /// Where the key is.
    pub hash_secret_key_offset: u32,
}

/// The parameters at the start of `b`; what was not sent is zero.
pub open spec fn rss_parameters(b: Seq<u8>) -> RssParameters {
    let z = zero_extended(b, 28);
    RssParameters {
        flags: u16_at(z, 4),
        hash_information: u32_at(z, 8),
        indirection_table_size: u16_at(z, 12),
        indirection_table_offset: u32_at(z, 16),
        hash_secret_key_size: u16_at(z, 20),
        hash_secret_key_offset: u32_at(z, 24),
    }
}

impl RssParameters {
    /// Whether the guest turns RSS off: by the flag, or by naming no hash
    /// function.
    pub open spec fn is_disable(self) -> bool {
        (self.flags / 16) % 2 == 1 || self.hash_information % 256 == 0
    }

    /// How many table entries of the guest are used.
    pub open spec fn entries(self, adapter: Adapter) -> int {
        if self.indirection_table_size / 4 <= adapter.indirection_table_size {
            (self.indirection_table_size / 4) as int
        } else {
            adapter.indirection_table_size as int
        }
    }
}

/// The entry `i` of the table that the guest sends.
pub open spec fn sent_entry(b: Seq<u8>, p: RssParameters, i: int) -> u32 {
    u32_at(b, p.indirection_table_offset + 4 * i)
}

/// The table that results: the entries of the guest, repeated until the table is
/// full. A table without entries selects queue zero.
pub open spec fn rss_table(adapter: Adapter, b: Seq<u8>) -> Seq<u16> {
    let p = rss_parameters(b);
    let n = p.entries(adapter);
    Seq::new(
        adapter.indirection_table_size as nat,
        |i: int|
            if n == 0 {
                0
            } else {
                sent_entry(b, p, i % n) as u16
            },
    )
}

/// Receive side scaling after the setting `b`.
pub open spec fn rss_set(adapter: Adapter, b: Seq<u8>) -> Result<Option<RssView>, OidError> {
    let p = rss_parameters(b);
    let n = p.entries(adapter);
    if p.is_disable() {
        Ok(None)
    } else if p.hash_secret_key_size != RSS_KEY_LEN {
        Err(OidError::InvalidInput(OidField::HashSecretKeySize))
    } else if p.indirection_table_size % 4 != 0 {
        Err(OidError::InvalidInput(OidField::IndirectionTableSize))
    } else if b.len() < p.hash_secret_key_offset + 40 || b.len() < p.indirection_table_offset + 4
        * n {
        Err(OidError::Access)
    } else if exists|i: int| 0 <= i < n && #[trigger] sent_entry(b, p, i) >= adapter.max_queues {
        Err(OidError::InvalidInput(OidField::IndirectionTable))
    } else {
        Ok(
            Some(
                RssView {
                    key: b.subrange(
                        p.hash_secret_key_offset as int,
                        p.hash_secret_key_offset + 40,
                    ),
                    indirection_table: rss_table(adapter, b),
                },
            ),
        )
    }
}

/// Sets up receive side scaling, or turns it off.
#[verifier::spinoff_prover]
#[verifier::rlimit(60)]
pub fn oid_set_rss_parameters(
    adapter: &Adapter,
    b: &[u8],
    primary: &mut PrimaryChannelState,
) -> (r: Result<(), OidError>)
    ensures
        match rss_set(*adapter, b@) {
            Ok(rss) => r is Ok && final(primary)@ == (PrimaryView {
                rss_state: rss,
                ..old(primary)@
            }),
            Err(err) => r == Err::<(), OidError>(err) && *final(primary) == *old(primary),
        },
        old(primary).wf() ==> final(primary).wf(),
        final(primary).control_messages_len == old(primary).control_messages_len,
{
    // The NDIS header is not validated on this object.
    let z = zero_extend(b, 28);
    let zs = z.as_slice();
    let p = RssParameters {
        flags: read_u16(zs, 4),
        hash_information: read_u32(zs, 8),
        indirection_table_size: read_u16(zs, 12),
        indirection_table_offset: read_u32(zs, 16),
        hash_secret_key_size: read_u16(zs, 20),
        hash_secret_key_offset: read_u32(zs, 24),
    };
    if (p.flags / 16) % 2 == 1 || p.hash_information % 256 == 0 {
        primary.rss_state = None;
        return Ok(());
    }
    if p.hash_secret_key_size != RSS_KEY_LEN {
        return Err(OidError::InvalidInput(OidField::HashSecretKeySize));
    }
    if p.indirection_table_size % 4 != 0 {
        return Err(OidError::InvalidInput(OidField::IndirectionTableSize));
    }
    let size: u16 = adapter.indirection_table_size;
    let n: u16 = if p.indirection_table_size / 4 <= size {
        p.indirection_table_size / 4
    } else {
        size
    };
    let len: u64 = b.len() as u64;
    if len < p.hash_secret_key_offset as u64 + 40 || len < p.indirection_table_offset as u64 + 4
        * (n as u64) {
        return Err(OidError::Access);
    }
    let key = copy_bytes(b, p.hash_secret_key_offset as usize, 40);
    let base: usize = p.indirection_table_offset as usize;
    let mut sent: Vec<u16> = Vec::new();
    let mut i: u16 = 0;
    while i < n
        invariant
            i <= n,
            sent@.len() == i,
            b@.len() == len,
            base == p.indirection_table_offset,
            len >= p.indirection_table_offset + 4 * n,
            forall|k: int| 0 <= k < i ==> sent@[k] == #[trigger] sent_entry(b@, p, k),
            forall|k: int|
                0 <= k < i ==> #[trigger] sent_entry(b@, p, k) < adapter.max_queues,
            rss_set(*adapter, b@) == (if exists|k: int|
                0 <= k < n && #[trigger] sent_entry(b@, p, k) >= adapter.max_queues {
                Err::<Option<RssView>, OidError>(OidError::InvalidInput(OidField::IndirectionTable))
            } else {
                rss_set(*adapter, b@)
            }),
            *primary == *old(primary),
        decreases n - i,
    {
        let buf_len: usize = b.len();
        let x: u32 = read_u32(b, base + 4 * (i as usize));
        assert(x == sent_entry(b@, p, i as int));
        if x >= adapter.max_queues as u32 {
            return Err(OidError::InvalidInput(OidField::IndirectionTable));
        }
        sent.push(x as u16);
        i = i + 1;
    }
    let mut table: Vec<u16> = Vec::new();
    let mut j: u16 = 0;
    while j < size
        invariant
            j <= size,
            table@.len() == j,
            sent@.len() == n,
            n == p.entries(*adapter),
            p == rss_parameters(b@),
            size == adapter.indirection_table_size,
            forall|k: int|
                0 <= k < n ==> sent@[k] == #[trigger] sent_entry(b@, p, k),
            table@ == rss_table(*adapter, b@).take(j as int),
        decreases size - j,
    {
        if n == 0 {
            table.push(0);
        } else {
            let k: u16 = j % n;
            assert(sent@[k as int] == sent_entry(b@, p, k as int));
            table.push(sent[k as usize]);
        }
        j = j + 1;
        assert(table@ =~= rss_table(*adapter, b@).take(j as int));
    }
    assert(table@ =~= rss_table(*adapter, b@));
    primary.rss_state = Some(RssState { key, indirection_table: table });
    Ok(())
}

/// Whether 16-bit units are text: every high surrogate is followed by a low one,
/// and there are no other low ones.
pub open spec fn valid_utf16(u: Seq<u16>) -> bool
    decreases u.len(),
{
    if u.len() == 0 {
        true
    } else if 0xD800 <= u[0] < 0xDC00 {
        u.len() >= 2 && 0xDC00 <= u[1] < 0xE000 && valid_utf16(u.skip(2))
    } else if 0xDC00 <= u[0] < 0xE000 {
        false
    } else {
        valid_utf16(u.skip(1))
    }
}

fn is_valid_utf16(u: &Vec<u16>) -> (r: bool)
    ensures
        r == valid_utf16(u@),
{
    let mut i: usize = 0;
    assert(u@.skip(0) =~= u@);
    while i < u.len()
        invariant
            i <= u@.len(),
            valid_utf16(u@) == valid_utf16(u@.skip(i as int)),
        decreases u@.len() - i,
    {
        let x: u16 = u[i];
        assert(u@.skip(i as int)[0] == x);
        if x >= 0xD800 && x < 0xDC00 {
            if u.len() - i < 2 {
                return false;
            }
            let y: u16 = u[i + 1];
            assert(u@.skip(i as int)[1] == y);
            if !(y >= 0xDC00 && y < 0xE000) {
                return false;
            }
            assert(u@.skip(i as int).skip(2) =~= u@.skip(i + 2));
            i = i + 2;
        } else if x >= 0xDC00 && x < 0xE000 {
            return false;
        } else {
            assert(u@.skip(i as int).skip(1) =~= u@.skip(i + 1));
            i = i + 1;
        }
    }
    true
}

/// The first byte of the text in UTF-8.
pub open spec fn first_utf8_byte(u: Seq<u16>) -> u8 {
    if u[0] < 0x80 {
        u[0] as u8
    } else if u[0] < 0x800 {
        (0xC0 + u[0] / 64) as u8
    } else if 0xD800 <= u[0] < 0xDC00 {
        (0xF0 + ((u[0] - 0xD800) * 1024 + 0x10000) / 0x40000) as u8
    } else {
        (0xE0 + u[0] / 4096) as u8
    }
}

/// The number that a parameter value stands for: its first byte counted from the
/// digit zero; zero if there is none.
pub open spec fn value_number(u: Seq<u16>) -> u8 {
    if u.len() == 0 {
        0
    } else if first_utf8_byte(u) >= 48 {
        (first_utf8_byte(u) - 48) as u8
    } else {
        (first_utf8_byte(u) + 208) as u8
    }
}

fn get_value_number(u: &Vec<u16>) -> (r: u8)
    requires
        valid_utf16(u@),
    ensures
        r == value_number(u@),
{
    if u.len() == 0 {
        return 0;
    }
    let x: u16 = u[0];
    let first: u8 = if x < 0x80 {
        x as u8
    } else if x < 0x800 {
        (0xC0 + x / 64) as u8
    } else if x >= 0xD800 && x < 0xDC00 {
        (0xF0 + ((x as u32 - 0xD800) * 1024 + 0x10000) / 0x40000) as u8
    } else {
        (0xE0 + x / 4096) as u8
    };
    first.wrapping_sub(48)
}

/// Whether the units spell `s`.
pub open spec fn spells(u: Seq<u16>, s: Seq<char>) -> bool {
    u.len() == s.len() && forall|i: int| 0 <= i < u.len() ==> #[trigger] u[i] as int == s[i] as int
}

fn is_spelled(u: &Vec<u16>, s: &str) -> (r: bool)
    ensures
        r == spells(u@, s@),
{
    if u.len() != s.unicode_len() {
        return false;
    }
    let mut i: usize = 0;
    while i < u.len()
        invariant
            i <= u@.len(),
            u@.len() == s@.len(),
            forall|k: int| 0 <= k < i ==> #[trigger] u@[k] as int == s@[k] as int,
        decreases u@.len() - i,
    {
        if u[i] as u32 != s.get_char(i) as u32 {
            return false;
        }
        i = i + 1;
    }
    true
}

/// `n` 16-bit units from `off`.
pub open spec fn units_at(b: Seq<u8>, off: int, n: nat) -> Seq<u16> {
    Seq::new(n, |i: int| u16_at(b, off + 2 * i))
}

fn read_units(b: &[u8], off: usize, n: usize) -> (r: Vec<u16>)
    requires
        off + 2 * n <= b@.len(),
    ensures
        r@ == units_at(b@, off as int, n as nat),
{
    let len: usize = b.len();
    let mut out: Vec<u16> = Vec::new();
    let mut i: usize = 0;
    while i < n
        invariant
            i <= n,
            len == b@.len(),
            off + 2 * n <= len,
            out@ == units_at(b@, off as int, i as nat),
        decreases n - i,
    {
        out.push(read_u16(b, off + 2 * i));
        i = i + 1;
        assert(out@ =~= units_at(b@, off as int, i as nat));
    }
    out
}

/// A string parameter that has an effect.
#[derive(Debug, Clone, Copy, PartialEq, Eq, Structural)]
pub enum OffloadParameter {
    /// The IPv4 header checksum.
    Ipv4Header,
    /// TCP segmentation over IPv4.
    Lso4,
    /// TCP segmentation over IPv6.
    Lso6,
    /// TCP over IPv4 checksums.
    Tcp4,
    /// TCP over IPv6 checksums.
    Tcp6,
    /// UDP over IPv4 checksums.
    Udp4,
    /// UDP over IPv6 checksums.
    Udp6,
}

/// The parameter that is spelled `name`.
pub open spec fn parameter_named(name: Seq<u16>) -> Option<OffloadParameter> {
    if spells(name, "*IPChecksumOffloadIPv4"@) {
        Some(OffloadParameter::Ipv4Header)
    } else if spells(name, "*LsoV2IPv4"@) {
        Some(OffloadParameter::Lso4)
    } else if spells(name, "*LsoV2IPv6"@) {
        Some(OffloadParameter::Lso6)
    } else if spells(name, "*TCPChecksumOffloadIPv4"@) {
        Some(OffloadParameter::Tcp4)
    } else if spells(name, "*TCPChecksumOffloadIPv6"@) {
        Some(OffloadParameter::Tcp6)
    } else if spells(name, "*UDPChecksumOffloadIPv4"@) {
        Some(OffloadParameter::Udp4)
    } else if spells(name, "*UDPChecksumOffloadIPv6"@) {
        Some(OffloadParameter::Udp6)
    } else {
        None
    }
}

fn find_parameter(name: &Vec<u16>) -> (r: Option<OffloadParameter>)
    ensures
        r == parameter_named(name@),
{
    if is_spelled(name, "*IPChecksumOffloadIPv4") {
        Some(OffloadParameter::Ipv4Header)
    } else if is_spelled(name, "*LsoV2IPv4") {
        Some(OffloadParameter::Lso4)
    } else if is_spelled(name, "*LsoV2IPv6") {
        Some(OffloadParameter::Lso6)
    } else if is_spelled(name, "*TCPChecksumOffloadIPv4") {
        Some(OffloadParameter::Tcp4)
    } else if is_spelled(name, "*TCPChecksumOffloadIPv6") {
        Some(OffloadParameter::Tcp6)
    } else if is_spelled(name, "*UDPChecksumOffloadIPv4") {
        Some(OffloadParameter::Udp4)
    } else if is_spelled(name, "*UDPChecksumOffloadIPv6") {
        Some(OffloadParameter::Udp6)
    } else {
        None
    }
}

/// The offloads after the string parameter `name` was set to `number`: the
/// lowest bit turns transmit checksums on, the next one receive checksums.
pub open spec fn string_parameter(
    adapter: Adapter,
    now: OffloadConfig,
    name: Seq<u16>,
    number: u8,
) -> OffloadConfig {
    let tx = number % 2 == 1;
    let rx = (number / 2) % 2 == 1;
    match parameter_named(name) {
        None => now,
        Some(OffloadParameter::Ipv4Header) => OffloadConfig {
            checksum_tx: ChecksumOffloadConfig { ipv4_header: tx, ..now.checksum_tx },
            checksum_rx: ChecksumOffloadConfig { ipv4_header: rx, ..now.checksum_rx },
            ..now
        },
        Some(OffloadParameter::Tcp4) => OffloadConfig {
            checksum_tx: ChecksumOffloadConfig { tcp4: tx, ..now.checksum_tx },
            checksum_rx: ChecksumOffloadConfig { tcp4: rx, ..now.checksum_rx },
            ..now
        },
        Some(OffloadParameter::Tcp6) => OffloadConfig {
            checksum_tx: ChecksumOffloadConfig { tcp6: tx, ..now.checksum_tx },
            checksum_rx: ChecksumOffloadConfig { tcp6: rx, ..now.checksum_rx },
            ..now
        },
        Some(OffloadParameter::Udp4) => OffloadConfig {
            checksum_tx: ChecksumOffloadConfig { udp4: tx, ..now.checksum_tx },
            checksum_rx: ChecksumOffloadConfig { udp4: rx, ..now.checksum_rx },
            ..now
        },
        Some(OffloadParameter::Udp6) => OffloadConfig {
            checksum_tx: ChecksumOffloadConfig { udp6: tx, ..now.checksum_tx },
            checksum_rx: ChecksumOffloadConfig { udp6: rx, ..now.checksum_rx },
            ..now
        },
        Some(OffloadParameter::Lso4) => OffloadConfig {
            lso4: number != 0 && adapter.offload_support.lso4,
            ..now
        },
        Some(OffloadParameter::Lso6) => OffloadConfig {
            lso6: number != 0 && adapter.offload_support.lso6,
            ..now
        },
    }
}

fn set_string_parameter(
    adapter: &Adapter,
    now: OffloadConfig,
    name: &Vec<u16>,
    number: u8,
) -> (r: OffloadConfig)
    ensures
        r == string_parameter(*adapter, now, name@, number),
{
    let tx = number % 2 == 1;
    let rx = (number / 2) % 2 == 1;
    match find_parameter(name) {
        None => now,
        Some(OffloadParameter::Ipv4Header) => OffloadConfig {
            checksum_tx: ChecksumOffloadConfig { ipv4_header: tx, ..now.checksum_tx },
            checksum_rx: ChecksumOffloadConfig { ipv4_header: rx, ..now.checksum_rx },
            ..now
        },
        Some(OffloadParameter::Tcp4) => OffloadConfig {
            checksum_tx: ChecksumOffloadConfig { tcp4: tx, ..now.checksum_tx },
            checksum_rx: ChecksumOffloadConfig { tcp4: rx, ..now.checksum_rx },
            ..now
        },
        Some(OffloadParameter::Tcp6) => OffloadConfig {
            checksum_tx: ChecksumOffloadConfig { tcp6: tx, ..now.checksum_tx },
            checksum_rx: ChecksumOffloadConfig { tcp6: rx, ..now.checksum_rx },
            ..now
        },
        Some(OffloadParameter::Udp4) => OffloadConfig {
            checksum_tx: ChecksumOffloadConfig { udp4: tx, ..now.checksum_tx },
            checksum_rx: ChecksumOffloadConfig { udp4: rx, ..now.checksum_rx },
            ..now
        },
        Some(OffloadParameter::Udp6) => OffloadConfig {
            checksum_tx: ChecksumOffloadConfig { udp6: tx, ..now.checksum_tx },
            checksum_rx: ChecksumOffloadConfig { udp6: rx, ..now.checksum_rx },
            ..now
        },
        Some(OffloadParameter::Lso4) => OffloadConfig {
            lso4: number != 0 && adapter.offload_support.lso4,
            ..now
        },
        Some(OffloadParameter::Lso6) => OffloadConfig {
            lso6: number != 0 && adapter.offload_support.lso6,
            ..now
        },
    }
}

/// The outcome of the setting of a named parameter.
pub open spec fn config_parameter_set(adapter: Adapter, p: PrimaryView, b: Seq<u8>) -> Result<
    PrimaryView,
    OidError,
> {
    let name_offset = u32_at(b, 0);
    let name_length = u32_at(b, 4);
    let parameter_type = u32_at(b, 8);
    let value_offset = u32_at(b, 12);
    let value_length = u32_at(b, 16);
    let name = units_at(b, name_offset as int, (name_length / 2) as nat);
    let value = units_at(b, value_offset as int, (value_length / 2) as nat);
    if b.len() < 20 {
        Err(OidError::Access)
    } else if name_length > 255 {
        Err(OidError::InvalidInput(OidField::NameLength))
    } else if value_length > 255 {
        Err(OidError::InvalidInput(OidField::ValueLength))
    } else if b.len() < name_offset + 2 * (name_length / 2) {
        Err(OidError::Access)
    } else if !valid_utf16(name) {
        Err(OidError::InvalidInput(OidField::Name))
    } else if b.len() < value_offset {
        Err(OidError::Access)
    } else if parameter_type == NDIS_PARAMETER_TYPE_STRING {
        if b.len() < value_offset + 2 * (value_length / 2) {
            Err(OidError::Access)
        } else if !valid_utf16(value) {
            Err(OidError::InvalidInput(OidField::Value))
        } else {
            Ok(
                PrimaryView {
                    offload_config: string_parameter(
                        adapter,
                        p.offload_config,
                        name,
                        value_number(value),
                    ),
                    ..p
                },
            )
        }
    } else if parameter_type == NDIS_PARAMETER_TYPE_INTEGER && (value_length < 4 || b.len()
        < value_offset + 4) {
        Err(OidError::Access)
    } else {
        Ok(p)
    }
}

/// Sets a named parameter.
pub fn oid_set_rndis_config_parameter(
    adapter: &Adapter,
    b: &[u8],
    primary: &mut PrimaryChannelState,
) -> (r: Result<(), OidError>)
    ensures
        match config_parameter_set(*adapter, old(primary)@, b@) {
            Ok(p) => r is Ok && final(primary)@ == p,
            Err(err) => r == Err::<(), OidError>(err) && *final(primary) == *old(primary),
        },
        old(primary).wf() ==> final(primary).wf(),
        final(primary).control_messages_len == old(primary).control_messages_len,
{
    let len: u64 = b.len() as u64;
    if len < 20 {
        return Err(OidError::Access);
    }
    let name_offset: u32 = read_u32(b, 0);
    let name_length: u32 = read_u32(b, 4);
    let parameter_type: u32 = read_u32(b, 8);
    let value_offset: u32 = read_u32(b, 12);
    let value_length: u32 = read_u32(b, 16);
    if name_length > 255 {
        return Err(OidError::InvalidInput(OidField::NameLength));
    }
    if value_length > 255 {
        return Err(OidError::InvalidInput(OidField::ValueLength));
    }
    if len < name_offset as u64 + 2 * (name_length / 2) as u64 {
        return Err(OidError::Access);
    }
    let name = read_units(b, name_offset as usize, (name_length / 2) as usize);
    if !is_valid_utf16(&name) {
        return Err(OidError::InvalidInput(OidField::Name));
    }
    if len < value_offset as u64 {
        return Err(OidError::Access);
    }
    if parameter_type == NDIS_PARAMETER_TYPE_STRING {
        if len < value_offset as u64 + 2 * (value_length / 2) as u64 {
            return Err(OidError::Access);
        }
        let value = read_units(b, value_offset as usize, (value_length / 2) as usize);
        if !is_valid_utf16(&value) {
            return Err(OidError::InvalidInput(OidField::Value));
        }
        let number: u8 = get_value_number(&value);
        primary.offload_config = set_string_parameter(
            adapter,
            primary.offload_config,
            &name,
            number,
        );
    } else if parameter_type == NDIS_PARAMETER_TYPE_INTEGER {
        if value_length < 4 || len < value_offset as u64 + 4 {
            return Err(OidError::Access);
        }
    }
    Ok(())
}

/// The outcome of a setting.
pub open spec fn oid_set(adapter: Adapter, p: PrimaryView, oid: u32, b: Seq<u8>) -> Result<
    PrimaryView,
    OidError,
> {
    if oid == OID_GEN_CURRENT_PACKET_FILTER || oid == OID_GEN_NETWORK_LAYER_ADDRESSES {
        // Accepted, without effect.
        Ok(p)
    } else if oid == OID_TCP_OFFLOAD_PARAMETERS {
        offload_set(adapter, p, b)
    } else if oid == OID_OFFLOAD_ENCAPSULATION {
        match encapsulation_error(b) {
            Some(err) => Err(err),
            None => Ok(p),
        }
    } else if oid == OID_GEN_RNDIS_CONFIG_PARAMETER {
        config_parameter_set(adapter, p, b)
    } else if oid == OID_GEN_RECEIVE_SCALE_PARAMETERS {
        match rss_set(adapter, b) {
            Ok(rss) => Ok(PrimaryView { rss_state: rss, ..p }),
            Err(err) => Err(err),
        }
    } else {
        Err(OidError::UnknownOid)
    }
}

/// Carries out a setting. Returns whether the endpoint has to be restarted,
/// which it does to change its RSS parameters. A setting that fails changes
/// nothing.
pub fn handle_oid_set(
    adapter: &Adapter,
    primary: &mut PrimaryChannelState,
    oid: u32,
    b: &[u8],
) -> (r: Result<bool, OidError>)
    ensures
        match oid_set(*adapter, old(primary)@, oid, b@) {
            Ok(p) => {
                &&& r == Ok::<bool, OidError>(oid == OID_GEN_RECEIVE_SCALE_PARAMETERS)
                &&& final(primary)@ == p
            },
            Err(err) => r == Err::<bool, OidError>(err) && *final(primary) == *old(primary),
        },
        old(primary).wf() ==> final(primary).wf(),
        final(primary).control_messages_len == old(primary).control_messages_len,
{
    let mut restart_endpoint = false;
    let r = if oid == OID_GEN_CURRENT_PACKET_FILTER || oid == OID_GEN_NETWORK_LAYER_ADDRESSES {
        Ok(())
    } else if oid == OID_TCP_OFFLOAD_PARAMETERS {
        oid_set_offload_parameters(adapter, b, primary)
    } else if oid == OID_OFFLOAD_ENCAPSULATION {
        oid_set_offload_encapsulation(b)
    } else if oid == OID_GEN_RNDIS_CONFIG_PARAMETER {
        oid_set_rndis_config_parameter(adapter, b, primary)
    } else if oid == OID_GEN_RECEIVE_SCALE_PARAMETERS {
        restart_endpoint = true;
        oid_set_rss_parameters(adapter, b, primary)
    } else {
        Err(OidError::UnknownOid)
    };
    match r {
        Ok(()) => Ok(restart_endpoint),
        Err(err) => Err(err),
    }
}

/// No setting turns on a segmentation offload that the adapter does not support.
pub proof fn settings_respect_lso_support(adapter: Adapter, p: PrimaryView, oid: u32, b: Seq<u8>)
    requires
        p.offload_config.lso4 ==> adapter.offload_support.lso4,
        p.offload_config.lso6 ==> adapter.offload_support.lso6,
        oid_set(adapter, p, oid, b) is Ok,
    ensures
        oid_set(adapter, p, oid, b)->Ok_0.offload_config.lso4 ==> adapter.offload_support.lso4,
        oid_set(adapter, p, oid, b)->Ok_0.offload_config.lso6 ==> adapter.offload_support.lso6,
{
}

/// An indirection table that is accepted has the length that the endpoint has
/// and names only queues that exist.
pub proof fn rss_table_is_valid(adapter: Adapter, b: Seq<u8>)
    requires
        adapter.max_queues >= 1,
        rss_set(adapter, b) matches Ok(rss) && rss is Some,
    ensures
        rss_set(adapter, b)->Ok_0->0.key.len() == RSS_KEY_LEN,
        rss_set(adapter, b)->Ok_0->0.indirection_table.len() == adapter.indirection_table_size,
        forall|i: int|
            0 <= i < adapter.indirection_table_size ==> #[trigger] rss_set(
                adapter,
                b,
            )->Ok_0->0.indirection_table[i] < adapter.max_queues,
{
    let p = rss_parameters(b);
    let n = p.entries(adapter);
    assert forall|i: int| 0 <= i < adapter.indirection_table_size implies #[trigger] rss_set(
        adapter,
        b,
    )->Ok_0->0.indirection_table[i] < adapter.max_queues by {
        if n > 0 {
            assert(0 <= i % n < n);
            assert(sent_entry(b, p, i % n) < adapter.max_queues);
        }
    }
}

/// An object of a type, of at least `size` bytes and the first revision or a later one, that was
/// sent whole.
pub open spec fn is_object(b: Seq<u8>, object_type: u8, size: int) -> bool {
    &&& b.len() >= size
    &&& b[0] == object_type
    &&& b[1] >= 1
    &&& size <= u16_at(b, 2) <= b.len()
}

proof fn lemma_is_object(b: Seq<u8>, object_type: u8, size: u16)
    requires
        size >= 4,
        object_type != 0,
    ensures
        object_error(b, object_type, size) is None <==> is_object(b, object_type, size as int),
{
    let h = zero_extended(b, 4);
    if b.len() >= 4 {
        assert(h[0] == b[0] && h[1] == b[1] && h[2] == b[2] && h[3] == b[3]);
    }
}

/// Whether an offload is on after a setting of `x`: `on` says whether that turns it on, and a
/// setting that is not one of `1..=last` leaves it as it was.
pub open spec fn after_setting(x: u8, on: bool, last: int, now: bool) -> bool {
    if 1 <= x <= last {
        on
    } else {
        now
    }
}

/// A setting of the offloads turns each checksum on and off as its own byte says, per direction: 2
/// stands for transmit, 3 for receive, 4 for both and 1 for neither. TCP segmentation is turned
/// on by 2, if it is supported, and off by 1. Everything else stays, and the guest is told.
/// Segmentation of the first version is refused, and so is a bad object.
#[verifier::rlimit(60)]
#[verifier::spinoff_prover]
pub proof fn offload_setting_takes_effect(adapter: Adapter, p: PrimaryView, b: Seq<u8>)
    ensures
        ({
            let r = oid_set(adapter, p, 0xFC01020C, b);
            let now = p.offload_config;
            let c = r->Ok_0.offload_config;
            &&& r is Ok <==> is_object(b, 0x80, 20) && b[9] != 2
            &&& is_object(b, 0x80, 20) && b[9] == 2 ==> r == Err::<PrimaryView, OidError>(
                OidError::NotSupported(OidFeature::Lsov1),
            )
            &&& !is_object(b, 0x80, 20) ==> r is Err && r->Err_0 is InvalidInput
            &&& r is Ok ==> {
                &&& r->Ok_0 == (PrimaryView {
                    offload_config: c,
                    pending_offload_change: true,
                    ..p
                })
                &&& c.checksum_tx.ipv4_header == after_setting(
                    b[4],
                    b[4] == 2 || b[4] == 4,
                    4,
                    now.checksum_tx.ipv4_header,
                )
                &&& c.checksum_rx.ipv4_header == after_setting(
                    b[4],
                    b[4] >= 3,
                    4,
                    now.checksum_rx.ipv4_header,
                )
                &&& c.checksum_tx.tcp4 == after_setting(
                    b[5],
                    b[5] == 2 || b[5] == 4,
                    4,
                    now.checksum_tx.tcp4,
                )
                &&& c.checksum_rx.tcp4 == after_setting(b[5], b[5] >= 3, 4, now.checksum_rx.tcp4)
                &&& c.checksum_tx.udp4 == after_setting(
                    b[6],
                    b[6] == 2 || b[6] == 4,
                    4,
                    now.checksum_tx.udp4,
                )
                &&& c.checksum_rx.udp4 == after_setting(b[6], b[6] >= 3, 4, now.checksum_rx.udp4)
                &&& c.checksum_tx.tcp6 == after_setting(
                    b[7],
                    b[7] == 2 || b[7] == 4,
                    4,
                    now.checksum_tx.tcp6,
                )
                &&& c.checksum_rx.tcp6 == after_setting(b[7], b[7] >= 3, 4, now.checksum_rx.tcp6)
                &&& c.checksum_tx.udp6 == after_setting(
                    b[8],
                    b[8] == 2 || b[8] == 4,
                    4,
                    now.checksum_tx.udp6,
                )
                &&& c.checksum_rx.udp6 == after_setting(b[8], b[8] >= 3, 4, now.checksum_rx.udp6)
                &&& c.lso4 == after_setting(
                    b[11],
                    b[11] == 2 && adapter.offload_support.lso4,
                    2,
                    now.lso4,
                )
                &&& c.lso6 == after_setting(
                    b[12],
                    b[12] == 2 && adapter.offload_support.lso6,
                    2,
                    now.lso6,
                )
            }
        }),
{
    lemma_is_object(b, NDIS_OBJECT_TYPE_DEFAULT, NDIS_SIZEOF_OFFLOAD_PARAMETERS_REVISION_1);
    assert(oid_set(adapter, p, 0xFC01020C, b) == offload_set(adapter, p, b));
    lemma_setting_bytes();
}

proof fn lemma_setting_bytes()
    ensures
        forall|x: u8, now: bool| #[trigger]
            tx_or(x, now) == after_setting(x, x == 2 || x == 4, 4, now),
        forall|x: u8, now: bool| #[trigger] rx_or(x, now) == after_setting(x, x >= 3, 4, now),
        forall|x: u8, now: bool, supported: bool| #[trigger]
            lso_or(x, now, supported) == after_setting(x, x == 2 && supported, 2, now),
{
}

/// Only Ethernet with its header of 14 bytes can be turned on as encapsulation, and that changes
/// nothing.
pub proof fn only_ethernet_is_encapsulated(adapter: Adapter, p: PrimaryView, b: Seq<u8>)
    ensures
        ({
            let r = oid_set(adapter, p, 0x101010A, b);
            let v4 = u32_at(b, 4) == 1 ==> u32_at(b, 8) == 2 && u32_at(b, 12) == 14;
            let v6 = u32_at(b, 16) == 1 ==> u32_at(b, 20) == 2 && u32_at(b, 24) == 14;
            &&& r is Ok <==> is_object(b, 0xA8, 28) && v4 && v6
            &&& r is Ok ==> r->Ok_0 == p
            &&& is_object(b, 0xA8, 28) && !v4 ==> r == Err::<PrimaryView, OidError>(
                OidError::NotSupported(OidFeature::Ipv4Encap),
            )
            &&& is_object(b, 0xA8, 28) && v4 && !v6 ==> r == Err::<PrimaryView, OidError>(
                OidError::NotSupported(OidFeature::Ipv6Encap),
            )
            &&& !is_object(b, 0xA8, 28) ==> r is Err && r->Err_0 is InvalidInput
        }),
{
    lemma_is_object(
        b,
        NDIS_OBJECT_TYPE_OFFLOAD_ENCAPSULATION,
        NDIS_SIZEOF_OFFLOAD_ENCAPSULATION_REVISION_1,
    );
}

/// A setting of receive side scaling takes the key of the guest and its table, which is repeated
/// until the endpoint's table is full. A flag, or no hash function, turns it off. The settings
/// for the other features stay. A key that is not 40 bytes long, a table of broken length, and
/// a queue that is not there are refused.
pub proof fn rss_setting_takes_effect(adapter: Adapter, p: PrimaryView, b: Seq<u8>)
    requires
        b.len() >= 28,
    ensures
        ({
            let r = oid_set(adapter, p, 0x10204, b);
            let off = (u16_at(b, 4) / 16) % 2 == 1 || u32_at(b, 8) % 256 == 0;
            let table_len = u16_at(b, 12);
            let table = u32_at(b, 16);
            let key = u32_at(b, 24);
            let n = if table_len / 4 < adapter.indirection_table_size {
                table_len / 4
            } else {
                adapter.indirection_table_size
            };
            let rss = r->Ok_0.rss_state;
            &&& off ==> r is Ok && rss is None
            &&& r is Ok ==> r->Ok_0 == (PrimaryView { rss_state: rss, ..p })
            &&& !off && u16_at(b, 20) != 40 ==> r == Err::<PrimaryView, OidError>(
                OidError::InvalidInput(OidField::HashSecretKeySize),
            )
            &&& !off && u16_at(b, 20) == 40 && table_len % 4 != 0 ==> r == Err::<
                PrimaryView,
                OidError,
            >(OidError::InvalidInput(OidField::IndirectionTableSize))
            &&& !off && r is Ok ==> {
                &&& rss is Some
                &&& key + 40 <= b.len()
                &&& table + 4 * n <= b.len()
                &&& rss->0.key == b.subrange(key as int, key + 40)
                &&& rss->0.indirection_table.len() == adapter.indirection_table_size
                &&& forall|i: int|
                    0 <= i < n ==> #[trigger] rss->0.indirection_table[i] == u32_at(
                        b,
                        table + 4 * i,
                    )
                &&& forall|i: int|
                    n <= i < adapter.indirection_table_size && n > 0
                        ==> #[trigger] rss->0.indirection_table[i]
                        == rss->0.indirection_table[i - n]
                &&& forall|i: int|
                    0 <= i < adapter.indirection_table_size && n > 0
                        ==> #[trigger] rss->0.indirection_table[i] < adapter.max_queues
            }
        }),
{
    let z = zero_extended(b, 28);
    assert(z =~= b.take(28));
    let q = rss_parameters(b);
    assert(q.flags == u16_at(b, 4));
    assert(q.hash_information == u32_at(b, 8));
    assert(q.indirection_table_size == u16_at(b, 12));
    assert(q.indirection_table_offset == u32_at(b, 16));
    assert(q.hash_secret_key_size == u16_at(b, 20));
    assert(q.hash_secret_key_offset == u32_at(b, 24));
    let r = rss_set(adapter, b);
    let n = q.entries(adapter);
    if !q.is_disable() && r is Ok {
        let t = r->Ok_0->0.indirection_table;
        assert(t == rss_table(adapter, b));
        assert forall|i: int| 0 <= i < n implies #[trigger] t[i] == u32_at(
            b,
            q.indirection_table_offset + 4 * i,
        ) by {
            assert(i % n == i) by (nonlinear_arith)
                requires
                    0 <= i < n,
            ;
            assert(sent_entry(b, q, i) < adapter.max_queues);
        }
        assert forall|i: int| n <= i < adapter.indirection_table_size && n > 0 implies
            #[trigger] t[i] == t[i - n] by {
            assert(i % n == (i - n) % n) by (nonlinear_arith)
                requires
                    0 < n <= i,
            ;
        }
        assert forall|i: int| 0 <= i < adapter.indirection_table_size && n > 0 implies
            #[trigger] t[i] < adapter.max_queues by {
            assert(0 <= i % n < n) by (nonlinear_arith)
                requires
                    0 < n,
            ;
            assert(sent_entry(b, q, i % n) < adapter.max_queues);
        }
    }
}

/// A setting is about what its OID says: the packet filter and the network addresses are accepted
/// without effect, and an OID that cannot be set is refused. Only the offloads and receive side
/// scaling can change.
pub proof fn setting_changes_only_its_subject(adapter: Adapter, p: PrimaryView, oid: u32, b: Seq<u8>)
    ensures
        ({
            let r = oid_set(adapter, p, oid, b);
            &&& oid == 0x1010E || oid == 0x10118 ==> r == Ok::<PrimaryView, OidError>(p)
            &&& oid != 0x1010E && oid != 0x10118 && oid != 0xFC01020C && oid != 0x101010A && oid
                != 0x1021B && oid != 0x10204 ==> r == Err::<PrimaryView, OidError>(
                OidError::UnknownOid,
            )
            &&& r matches Ok(next) ==> next == (PrimaryView {
                offload_config: next.offload_config,
                pending_offload_change: next.pending_offload_change,
                rss_state: next.rss_state,
                ..p
            })
            &&& r is Ok && oid != 0x10204 ==> r->Ok_0.rss_state == p.rss_state
            &&& r is Ok && oid != 0xFC01020C ==> r->Ok_0.pending_offload_change
                == p.pending_offload_change
            &&& r is Ok && oid != 0xFC01020C && oid != 0x1021B ==> r->Ok_0.offload_config
                == p.offload_config
        }),
{
}

/// The names of the parameters with an effect.
pub open spec fn parameter_name(o: OffloadParameter) -> Seq<char> {
    match o {
        OffloadParameter::Ipv4Header => "*IPChecksumOffloadIPv4"@,
        OffloadParameter::Lso4 => "*LsoV2IPv4"@,
        OffloadParameter::Lso6 => "*LsoV2IPv6"@,
        OffloadParameter::Tcp4 => "*TCPChecksumOffloadIPv4"@,
        OffloadParameter::Tcp6 => "*TCPChecksumOffloadIPv6"@,
        OffloadParameter::Udp4 => "*UDPChecksumOffloadIPv4"@,
        OffloadParameter::Udp6 => "*UDPChecksumOffloadIPv6"@,
    }
}

/// A parameter is found by its name, and only by that.
#[verifier::rlimit(60)]
#[verifier::spinoff_prover]
pub proof fn parameter_is_found_by_name(name: Seq<u16>, o: OffloadParameter)
    ensures
        parameter_named(name) == Some(o) <==> spells(name, parameter_name(o)),
{
    reveal_strlit("*IPChecksumOffloadIPv4");
    reveal_strlit("*LsoV2IPv4");
    reveal_strlit("*LsoV2IPv6");
    reveal_strlit("*TCPChecksumOffloadIPv4");
    reveal_strlit("*TCPChecksumOffloadIPv6");
    reveal_strlit("*UDPChecksumOffloadIPv4");
    reveal_strlit("*UDPChecksumOffloadIPv6");
    assert("*LsoV2IPv4"@[9] == '4' && "*LsoV2IPv6"@[9] == '6');
    assert("*TCPChecksumOffloadIPv4"@[22] == '4' && "*TCPChecksumOffloadIPv6"@[22] == '6');
    assert("*UDPChecksumOffloadIPv4"@[22] == '4' && "*UDPChecksumOffloadIPv6"@[22] == '6');
    assert("*TCPChecksumOffloadIPv4"@[1] == 'T' && "*TCPChecksumOffloadIPv6"@[1] == 'T');
    assert("*UDPChecksumOffloadIPv4"@[1] == 'U' && "*UDPChecksumOffloadIPv6"@[1] == 'U');
    if spells(name, parameter_name(o)) {
        if name.len() == 10 {
            assert(name[9] as int == parameter_name(o)[9] as int);
        }
        if name.len() == 23 {
            assert(name[22] as int == parameter_name(o)[22] as int);
            assert(name[1] as int == parameter_name(o)[1] as int);
        }
    }
}

/// A named parameter that is a digit: the first bit of a checksum parameter is for transmit, the
/// second one for receive, and a segmentation parameter is on unless it is zero, if it is
/// supported. Only the offload that is named changes, and the guest is not told.
pub proof fn named_parameter_takes_effect(
    adapter: Adapter,
    now: OffloadConfig,
    name: Seq<u16>,
    value: Seq<u16>,
    digit: u8,
    o: OffloadParameter,
)
    requires
        spells(name, parameter_name(o)),
        digit <= 9,
        value.len() >= 1,
        value[0] == 48 + digit,
    ensures
        ({
            let c = string_parameter(adapter, now, name, value_number(value));
            let tx = digit % 2 == 1;
            let rx = digit == 2 || digit == 3 || digit == 6 || digit == 7;
            let t = c.checksum_tx;
            let r = c.checksum_rx;
            &&& value_number(value) == digit
            &&& t.ipv4_header == if o is Ipv4Header { tx } else { now.checksum_tx.ipv4_header }
            &&& r.ipv4_header == if o is Ipv4Header { rx } else { now.checksum_rx.ipv4_header }
            &&& t.tcp4 == if o is Tcp4 { tx } else { now.checksum_tx.tcp4 }
            &&& r.tcp4 == if o is Tcp4 { rx } else { now.checksum_rx.tcp4 }
            &&& t.tcp6 == if o is Tcp6 { tx } else { now.checksum_tx.tcp6 }
            &&& r.tcp6 == if o is Tcp6 { rx } else { now.checksum_rx.tcp6 }
            &&& t.udp4 == if o is Udp4 { tx } else { now.checksum_tx.udp4 }
            &&& r.udp4 == if o is Udp4 { rx } else { now.checksum_rx.udp4 }
            &&& t.udp6 == if o is Udp6 { tx } else { now.checksum_tx.udp6 }
            &&& r.udp6 == if o is Udp6 { rx } else { now.checksum_rx.udp6 }
            &&& c.lso4 == if o is Lso4 {
                digit != 0 && adapter.offload_support.lso4
            } else {
                now.lso4
            }
            &&& c.lso6 == if o is Lso6 {
                digit != 0 && adapter.offload_support.lso6
            } else {
                now.lso6
            }
        }),
{
    parameter_is_found_by_name(name, o);
}

/// A named parameter is read from where its header says: the name and, of a string, the value in
/// 16-bit units. A value of another type has no effect.
pub proof fn named_parameter_is_read(adapter: Adapter, p: PrimaryView, b: Seq<u8>)
    requires
        oid_set(adapter, p, 0x1021B, b) is Ok,
    ensures
        ({
            let next = oid_set(adapter, p, 0x1021B, b)->Ok_0;
            let name = units_at(b, u32_at(b, 0) as int, (u32_at(b, 4) / 2) as nat);
            let value = units_at(b, u32_at(b, 12) as int, (u32_at(b, 16) / 2) as nat);
            &&& b.len() >= 20
            &&& u32_at(b, 4) <= 255
            &&& u32_at(b, 16) <= 255
            &&& u32_at(b, 0) + 2 * (u32_at(b, 4) / 2) <= b.len()
            &&& u32_at(b, 8) == 2 ==> u32_at(b, 12) + 2 * (u32_at(b, 16) / 2) <= b.len()
                && next.offload_config == string_parameter(
                adapter,
                p.offload_config,
                name,
                value_number(value),
            )
            &&& u32_at(b, 8) != 2 ==> next == p
            &&& next == (PrimaryView { offload_config: next.offload_config, ..p })
        }),
{
}

/// What is wrong with an object is told in order: its type, a size beyond what was sent, its
/// revision, and a size below what is needed.
pub proof fn header_faults_are_told(
    header: NdisObjectHeader,
    sent_size: int,
    object_type: u8,
    min_revision: u8,
    min_size: int,
)
    ensures
        ({
            let e = header_error(header, sent_size, object_type, min_revision, min_size);
            let typed = header.object_type == object_type;
            &&& e is None <==> typed && header.revision >= min_revision && min_size <= header.size
                <= sent_size
            &&& !typed ==> e == Some(OidField::HeaderObjectType)
            &&& typed && header.size > sent_size ==> e == Some(OidField::HeaderSize)
            &&& typed && header.size <= sent_size && header.revision < min_revision ==> e == Some(
                OidField::HeaderRevision,
            )
            &&& typed && header.size <= sent_size && header.revision >= min_revision && header.size
                < min_size ==> e == Some(OidField::HeaderSize)
        }),
{
}

/// Settings of receive side scaling that reach beyond the request are refused, and so is a table
/// that names a queue that is not there. All others are taken.
pub proof fn rss_faults_are_told(adapter: Adapter, p: PrimaryView, b: Seq<u8>, i: int)
    requires
        b.len() >= 28,
        (u16_at(b, 4) / 16) % 2 == 0,
        u32_at(b, 8) % 256 != 0,
        u16_at(b, 20) == 40,
        u16_at(b, 12) % 4 == 0,
    ensures
        ({
            let r = oid_set(adapter, p, 0x10204, b);
            let table = u32_at(b, 16);
            let key = u32_at(b, 24);
            let n = if u16_at(b, 12) / 4 < adapter.indirection_table_size {
                u16_at(b, 12) / 4
            } else {
                adapter.indirection_table_size
            };
            let held = key + 40 <= b.len() && table + 4 * n <= b.len();
            &&& !held ==> r == Err::<PrimaryView, OidError>(OidError::Access)
            &&& held && 0 <= i < n && u32_at(b, table + 4 * i) >= adapter.max_queues ==> r == Err::<
                PrimaryView,
                OidError,
            >(OidError::InvalidInput(OidField::IndirectionTable))
            &&& held && (forall|k: int|
                0 <= k < n ==> #[trigger] u32_at(b, table + 4 * k) < adapter.max_queues) ==> r is Ok
        }),
{
    let z = zero_extended(b, 28);
    assert(z =~= b.take(28));
    let q = rss_parameters(b);
    assert(q.flags == u16_at(b, 4));
    assert(q.hash_information == u32_at(b, 8));
    assert(q.indirection_table_size == u16_at(b, 12));
    assert(q.indirection_table_offset == u32_at(b, 16));
    assert(q.hash_secret_key_size == u16_at(b, 20));
    assert(q.hash_secret_key_offset == u32_at(b, 24));
    let n = q.entries(adapter);
    if 0 <= i < n {
        assert(sent_entry(b, q, i) == u32_at(b, u32_at(b, 16) + 4 * i));
    }
    if forall|k: int|
        0 <= k < n ==> #[trigger] u32_at(b, u32_at(b, 16) + 4 * k) < adapter.max_queues {
        assert forall|k: int| 0 <= k < n implies #[trigger] sent_entry(b, q, k)
            < adapter.max_queues by {
            assert(u32_at(b, u32_at(b, 16) + 4 * k) < adapter.max_queues);
        }
    }
}

/// What is wrong with a named parameter is told: lengths beyond 255 bytes, texts that are not
/// within the request, and texts that are none.
pub proof fn named_parameter_faults_are_told(adapter: Adapter, p: PrimaryView, b: Seq<u8>)
    ensures
        ({
            let r = oid_set(adapter, p, 0x1021B, b);
            let name_at = u32_at(b, 0);
            let name_len = u32_at(b, 4);
            let ty = u32_at(b, 8);
            let value_at = u32_at(b, 12);
            let value_len = u32_at(b, 16);
            let name_held = name_at + 2 * (name_len / 2) <= b.len();
            let value_held = value_at + 2 * (value_len / 2) <= b.len();
            let name = units_at(b, name_at as int, (name_len / 2) as nat);
            let value = units_at(b, value_at as int, (value_len / 2) as nat);
            let lengths = b.len() >= 20 && name_len <= 255 && value_len <= 255;
            &&& b.len() < 20 ==> r == Err::<PrimaryView, OidError>(OidError::Access)
            &&& b.len() >= 20 && name_len > 255 ==> r == Err::<PrimaryView, OidError>(
                OidError::InvalidInput(OidField::NameLength),
            )
            &&& b.len() >= 20 && name_len <= 255 && value_len > 255 ==> r == Err::<
                PrimaryView,
                OidError,
            >(OidError::InvalidInput(OidField::ValueLength))
            &&& lengths && !name_held ==> r == Err::<PrimaryView, OidError>(OidError::Access)
            &&& lengths && name_held && !valid_utf16(name) ==> r == Err::<PrimaryView, OidError>(
                OidError::InvalidInput(OidField::Name),
            )
            &&& lengths && name_held && valid_utf16(name) && value_at > b.len() ==> r == Err::<
                PrimaryView,
                OidError,
            >(OidError::Access)
            &&& lengths && name_held && valid_utf16(name) && ty == 2 && value_at <= b.len()
                && !value_held ==> r == Err::<PrimaryView, OidError>(OidError::Access)
            &&& lengths && name_held && valid_utf16(name) && ty == 2 && value_held && !valid_utf16(
                value,
            ) ==> r == Err::<PrimaryView, OidError>(OidError::InvalidInput(OidField::Value))
            &&& lengths && name_held && valid_utf16(name) && ty == 2 && value_held && valid_utf16(
                value,
            ) ==> r is Ok
            &&& lengths && name_held && valid_utf16(name) && ty == 0 && value_at <= b.len() ==> (r
                is Ok <==> value_len >= 4 && value_at + 4 <= b.len()) && (r is Err ==> r->Err_0
                == OidError::Access)
            &&& lengths && name_held && valid_utf16(name) && ty != 0 && ty != 2 && value_at
                <= b.len() ==> r is Ok
        }),
{
}

/// Whether a high surrogate stands at `i`.
pub open spec fn high_at(u: Seq<u16>, i: int) -> bool {
    0 <= i < u.len() && 0xD800 <= u[i] <= 0xDBFF
}

/// Whether a low surrogate stands at `i`.
pub open spec fn low_at(u: Seq<u16>, i: int) -> bool {
    0 <= i < u.len() && 0xDC00 <= u[i] <= 0xDFFF
}

/// Whether each high surrogate is followed by a low one, and each low one follows a high one.
pub open spec fn surrogates_are_paired(u: Seq<u16>) -> bool {
    &&& forall|i: int| #[trigger] high_at(u, i) ==> low_at(u, i + 1)
    &&& forall|i: int| #[trigger] low_at(u, i) ==> high_at(u, i - 1)
}

/// Surrogates are paired if they are behind what stands at the front.
proof fn lemma_paired_behind(u: Seq<u16>, n: int)
    requires
        n == 1 || n == 2,
        n <= u.len(),
        n == 1 ==> !high_at(u, 0) && !low_at(u, 0),
        n == 2 ==> high_at(u, 0) && low_at(u, 1),
    ensures
        surrogates_are_paired(u) <==> surrogates_are_paired(u.skip(n)),
{
    let rest = u.skip(n);
    assert forall|i: int| 0 <= i implies high_at(rest, i) == high_at(u, i + n) by {}
    assert forall|i: int| 0 <= i implies low_at(rest, i) == low_at(u, i + n) by {}
    if surrogates_are_paired(u) {
        assert forall|i: int| #[trigger] high_at(rest, i) implies low_at(rest, i + 1) by {
            assert(high_at(u, i + n));
            assert(low_at(u, i + n + 1));
        }
        assert forall|i: int| #[trigger] low_at(rest, i) implies high_at(rest, i - 1) by {
            assert(low_at(u, i + n));
            assert(high_at(u, i + n - 1));
        }
        assert(surrogates_are_paired(rest));
    }
    if surrogates_are_paired(rest) {
        assert forall|i: int| #[trigger] high_at(u, i) implies low_at(u, i + 1) by {
            if i >= n {
                assert(high_at(rest, i - n));
                assert(low_at(rest, i - n + 1));
            }
        }
        assert forall|i: int| #[trigger] low_at(u, i) implies high_at(u, i - 1) by {
            if i >= n {
                assert(low_at(rest, i - n));
                assert(high_at(rest, i - n - 1));
            }
        }
        assert(surrogates_are_paired(u));
    }
}

/// Units are text if and only if surrogates come in pairs.
pub proof fn text_has_paired_surrogates(u: Seq<u16>)
    ensures
        valid_utf16(u) <==> surrogates_are_paired(u),
    decreases u.len(),
{
    if u.len() == 0 {
        assert(surrogates_are_paired(u));
    } else if low_at(u, 0) {
        assert(!high_at(u, -1));
    } else if high_at(u, 0) {
        if low_at(u, 1) {
            lemma_paired_behind(u, 2);
            text_has_paired_surrogates(u.skip(2));
        } else {
            assert(!low_at(u, 0int + 1));
        }
    } else {
        lemma_paired_behind(u, 1);
        text_has_paired_surrogates(u.skip(1));
    }
}

/// Units are read one behind the other, the lower byte first.
pub proof fn units_lie_side_by_side(b: Seq<u8>, off: int, n: nat, i: int)
    requires
        0 <= i < n,
    ensures
        units_at(b, off, n).len() == n,
        units_at(b, off, n)[i] == b[off + 2 * i] + 256 * b[off + 2 * i + 1],
{
}

/// Units spell a text if they are its characters, one for one.
pub proof fn units_spell_their_text(u: Seq<u16>, s: Seq<char>, t: Seq<char>, i: int)
    requires
        spells(u, s),
    ensures
        u.len() == s.len(),
        0 <= i < s.len() ==> u[i] == s[i] as u32,
        spells(u, t) ==> s == t,
        u.len() > 0 ==> !spells(u.drop_last(), s),
{
    if spells(u, t) {
        assert forall|k: int| 0 <= k < s.len() implies s[k] == t[k] by {
            assert(u[k] as int == s[k] as int);
            assert(u[k] as int == t[k] as int);
        }
        assert(s =~= t);
    }
    if 0 <= i < s.len() {
        assert(u[i] as int == s[i] as int);
    }
}

/// A digit stands for its number, and no text for zero. Of other texts the first byte in UTF-8
/// counts.
pub proof fn digit_stands_for_number(u: Seq<u16>)
    ensures
        u.len() == 0 ==> value_number(u) == 0,
        u.len() > 0 && 48 <= u[0] < 128 ==> value_number(u) == u[0] - 48,
        u.len() > 0 && u[0] < 48 ==> value_number(u) == u[0] + 208,
        u.len() > 0 && 0x80 <= u[0] < 0x800 ==> value_number(u) + 48 == 0xC0 + u[0] as int / 0x40,
        u.len() > 0 && (0x800 <= u[0] < 0xD800 || 0xE000 <= u[0]) ==> value_number(u) + 48 == 0xE0
            + u[0] as int / 0x1000,
        u.len() > 1 && 0xD800 <= u[0] < 0xDC00 && 0xDC00 <= u[1] < 0xE000 ==> value_number(u) + 48
            == 0xF0 + (0x10000 + 0x400 * (u[0] - 0xD800) + (u[1] - 0xDC00)) / 0x40000,
{
}

} // verus!
