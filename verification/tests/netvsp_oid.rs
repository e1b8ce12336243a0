use openvmm::netvsp::adapter::{Adapter, EndpointInfo, Nic, TxOffloadSupport};
use openvmm::netvsp::offload::{ChecksumOffloadConfig, OffloadConfig};
use openvmm::netvsp::oid::{handle_oid_query, OidError, OidFeature, OidField};
use openvmm::netvsp::oid_set::{handle_oid_set, validate_ndis_object_header, NdisObjectHeader};
use openvmm::netvsp::rndis::{
    OID_802_3_CURRENT_ADDRESS, OID_GEN_CURRENT_PACKET_FILTER, OID_GEN_LINK_SPEED,
    OID_GEN_LINK_STATE, OID_GEN_MAXIMUM_FRAME_SIZE, OID_GEN_MAX_LINK_SPEED,
    OID_GEN_RECEIVE_SCALE_PARAMETERS, OID_GEN_RNDIS_CONFIG_PARAMETER, OID_GEN_SUPPORTED_LIST,
    OID_GEN_VENDOR_DESCRIPTION, OID_OFFLOAD_ENCAPSULATION, OID_TCP_OFFLOAD_CURRENT_CONFIG,
    OID_TCP_OFFLOAD_PARAMETERS, STATUS_BAD_VERSION, STATUS_FAILURE, STATUS_INVALID_DATA,
    STATUS_NOT_SUPPORTED,
};
use openvmm::netvsp::state::{NdisVersion, PrimaryChannelState};

fn offloads(on: bool) -> OffloadConfig {
    let c = ChecksumOffloadConfig {
        ipv4_header: on,
        tcp4: on,
        udp4: on,
        tcp6: on,
        udp6: on,
    };
    OffloadConfig {
        checksum_tx: c,
        checksum_rx: c,
        lso4: on,
        lso6: on,
    }
}

fn adapter(tso: bool) -> Adapter {
    let endpoint = EndpointInfo {
        max_queues: 4,
        indirection_table_size: 4,
        tx_fast_completions: false,
        tx_offloads: TxOffloadSupport {
            ipv4_header: true,
            tcp: true,
            udp: true,
            tso,
        },
        link_speed: 1_000_000_000,
    };
    Nic::builder().build(&endpoint, [1, 2, 3, 4, 5, 6], 0).adapter
}

fn query(oid: u32, available: usize) -> Result<Vec<u8>, OidError> {
    handle_oid_query(
        &adapter(true),
        NdisVersion { major: 6, minor: 30 },
        1500,
        &offloads(true),
        oid,
        available,
    )
}

#[test]
fn queries_are_answered() {
    assert_eq!(query(OID_802_3_CURRENT_ADDRESS, 100), Ok(vec![1, 2, 3, 4, 5, 6]));
    assert_eq!(
        query(OID_GEN_VENDOR_DESCRIPTION, 100),
        Ok(b"Microsoft Corporation".to_vec())
    );
    // In units of a hundred bits per second.
    assert_eq!(query(OID_GEN_LINK_SPEED, 100), Ok(10_000_000u32.to_le_bytes().to_vec()));
    assert_eq!(query(OID_GEN_MAXIMUM_FRAME_SIZE, 100), Ok(1486u32.to_le_bytes().to_vec()));
    let speed = query(OID_GEN_MAX_LINK_SPEED, 100).unwrap();
    assert_eq!(&speed[..8], &1_000_000_000u64.to_le_bytes());
    let state = query(OID_GEN_LINK_STATE, 100).unwrap();
    assert_eq!(state.len(), 40);
    assert_eq!(&state[..4], &[0x80, 1, 40, 0]);
    assert_eq!(query(OID_TCP_OFFLOAD_CURRENT_CONFIG, 200), Ok(offloads(true).ndis_offload()));
}

#[test]
fn supported_list_depends_on_version() {
    let list = |major: u32, minor: u32| {
        handle_oid_query(
            &adapter(true),
            NdisVersion { major, minor },
            1500,
            &offloads(true),
            OID_GEN_SUPPORTED_LIST,
            1000,
        )
    };
    assert_eq!(list(5, 0).unwrap().len(), 4 * 32);
    assert_eq!(list(6, 0).unwrap().len(), 4 * 41);
    assert_eq!(list(6, 30).unwrap().len(), 4 * 43);
    assert_eq!(list(7, 0), Err(OidError::BadVersion));
}

#[test]
fn queries_need_room_and_a_known_object() {
    assert_eq!(query(OID_802_3_CURRENT_ADDRESS, 5), Err(OidError::Access));
    assert_eq!(query(0x1234, 100), Err(OidError::UnknownOid));
    assert_eq!(OidError::UnknownOid.as_status(), STATUS_NOT_SUPPORTED);
    assert_eq!(OidError::BadVersion.as_status(), STATUS_BAD_VERSION);
    assert_eq!(OidError::Access.as_status(), STATUS_FAILURE);
    assert_eq!(
        OidError::InvalidInput(OidField::Name).as_status(),
        STATUS_INVALID_DATA
    );
}

fn set(
    tso: bool,
    p: &mut PrimaryChannelState,
    oid: u32,
    bytes: &[u8],
) -> Result<bool, OidError> {
    handle_oid_set(&adapter(tso), p, oid, bytes)
}

#[test]
fn offload_parameters_change_the_configuration() {
    let mut p = PrimaryChannelState::new(offloads(false));
    // IPv4 header both ways, TCP over IPv4 for transmit only, segmentation on.
    let bytes = [0x80, 1, 20, 0, 4, 2, 0, 0, 1, 0, 0, 2, 2, 0, 0, 0, 0, 0, 0, 0];
    assert_eq!(set(true, &mut p, OID_TCP_OFFLOAD_PARAMETERS, &bytes), Ok(false));
    let c = p.offload_config;
    assert!(c.checksum_tx.ipv4_header && c.checksum_rx.ipv4_header);
    assert!(c.checksum_tx.tcp4 && !c.checksum_rx.tcp4);
    assert!(!c.checksum_tx.udp4);
    assert!(c.lso4 && c.lso6);
    assert!(p.pending_offload_change);

    let mut p = PrimaryChannelState::new(offloads(false));
    set(false, &mut p, OID_TCP_OFFLOAD_PARAMETERS, &bytes).unwrap();
    assert!(!p.offload_config.lso4 && !p.offload_config.lso6);
}

#[test]
fn first_segmentation_offload_is_not_supported() {
    let mut p = PrimaryChannelState::new(offloads(false));
    let bytes = [0x80, 1, 20, 0, 4, 0, 0, 0, 0, 2, 0, 0, 0, 0, 0, 0, 0, 0, 0, 0];
    assert_eq!(
        set(true, &mut p, OID_TCP_OFFLOAD_PARAMETERS, &bytes),
        Err(OidError::NotSupported(OidFeature::Lsov1))
    );
    assert!(!p.offload_config.checksum_tx.ipv4_header);
    assert!(!p.pending_offload_change);
}

#[test]
fn object_headers_are_checked() {
    let h = NdisObjectHeader {
        object_type: 0x80,
        revision: 1,
        size: 20,
    };
    assert_eq!(validate_ndis_object_header(&h, 20, 0x80, 1, 20), Ok(()));
    assert_eq!(
        validate_ndis_object_header(&h, 20, 0x81, 1, 20),
        Err(OidError::InvalidInput(OidField::HeaderObjectType))
    );
    assert_eq!(
        validate_ndis_object_header(&h, 19, 0x80, 1, 20),
        Err(OidError::InvalidInput(OidField::HeaderSize))
    );
    assert_eq!(
        validate_ndis_object_header(&h, 20, 0x80, 2, 20),
        Err(OidError::InvalidInput(OidField::HeaderRevision))
    );
    assert_eq!(
        validate_ndis_object_header(&h, 20, 0x80, 1, 21),
        Err(OidError::InvalidInput(OidField::HeaderSize))
    );
}

#[test]
fn encapsulation_has_to_be_ethernet() {
    let mut p = PrimaryChannelState::new(offloads(false));
    let encap = |ty: u32, size: u32| {
        let mut b = vec![0xa8, 1, 28, 0];
        for x in [1, 2, 14, 1, ty, size] {
            b.extend_from_slice(&(x as u32).to_le_bytes());
        }
        b
    };
    assert_eq!(set(true, &mut p, OID_OFFLOAD_ENCAPSULATION, &encap(2, 14)), Ok(false));
    assert_eq!(
        set(true, &mut p, OID_OFFLOAD_ENCAPSULATION, &encap(1, 14)),
        Err(OidError::NotSupported(OidFeature::Ipv6Encap))
    );
    assert_eq!(
        set(true, &mut p, OID_OFFLOAD_ENCAPSULATION, &encap(2, 18)),
        Err(OidError::NotSupported(OidFeature::Ipv6Encap))
    );
}

/// Receive scaling with a key of forty bytes at 28 and a table after it.
fn rss(table: &[u32], key_size: u16, table_size: u16, flags: u16) -> Vec<u8> {
    let mut b = vec![0x89, 2, 28, 0];
    b.extend_from_slice(&flags.to_le_bytes());
    b.extend_from_slice(&[0, 0]);
    b.extend_from_slice(&0x301u32.to_le_bytes());
    b.extend_from_slice(&table_size.to_le_bytes());
    b.extend_from_slice(&[0, 0]);
    b.extend_from_slice(&80u32.to_le_bytes());
    b.extend_from_slice(&key_size.to_le_bytes());
    b.extend_from_slice(&[0, 0]);
    b.extend_from_slice(&40u32.to_le_bytes());
    b.resize(40, 0);
    b.extend_from_slice(&[7; 40]);
    for x in table {
        b.extend_from_slice(&x.to_le_bytes());
    }
    b
}

#[test]
fn receive_scaling_is_set_up() {
    let mut p = PrimaryChannelState::new(offloads(false));
    let bytes = rss(&[0, 3], 40, 8, 0);
    assert_eq!(set(true, &mut p, OID_GEN_RECEIVE_SCALE_PARAMETERS, &bytes), Ok(true));
    let state = p.rss_state.as_ref().unwrap();
    assert_eq!(state.key, vec![7; 40]);
    // A short table is repeated.
    assert_eq!(state.indirection_table, vec![0, 3, 0, 3]);
    let bytes = rss(&[0, 3], 40, 8, 0x10);
    assert_eq!(set(true, &mut p, OID_GEN_RECEIVE_SCALE_PARAMETERS, &bytes), Ok(true));
    assert!(p.rss_state.is_none());
}

#[test]
fn wrong_receive_scaling_is_refused() {
    let mut p = PrimaryChannelState::new(offloads(false));
    let mut refused = |bytes: Vec<u8>| {
        let r = set(true, &mut p, OID_GEN_RECEIVE_SCALE_PARAMETERS, &bytes).unwrap_err();
        assert!(p.rss_state.is_none());
        r
    };
    assert_eq!(
        refused(rss(&[0, 1], 39, 8, 0)),
        OidError::InvalidInput(OidField::HashSecretKeySize)
    );
    assert_eq!(
        refused(rss(&[0, 1], 40, 7, 0)),
        OidError::InvalidInput(OidField::IndirectionTableSize)
    );
    assert_eq!(
        refused(rss(&[0, 4], 40, 8, 0)),
        OidError::InvalidInput(OidField::IndirectionTable)
    );
    assert_eq!(refused(rss(&[0], 40, 8, 0)), OidError::Access);
}

fn config_parameter(name: &str, value: &str) -> Vec<u8> {
    let name: Vec<u8> = name.encode_utf16().flat_map(|c| c.to_le_bytes()).collect();
    let value: Vec<u8> = value.encode_utf16().flat_map(|c| c.to_le_bytes()).collect();
    let mut b = Vec::new();
    for x in [20, name.len(), 2, 20 + name.len(), value.len()] {
        b.extend_from_slice(&(x as u32).to_le_bytes());
    }
    b.extend_from_slice(&name);
    b.extend_from_slice(&value);
    b
}

#[test]
fn configuration_parameters_change_offloads() {
    let mut p = PrimaryChannelState::new(offloads(false));
    let oid = OID_GEN_RNDIS_CONFIG_PARAMETER;
    set(true, &mut p, oid, &config_parameter("*TCPChecksumOffloadIPv6", "2")).unwrap();
    assert!(!p.offload_config.checksum_tx.tcp6 && p.offload_config.checksum_rx.tcp6);
    set(true, &mut p, oid, &config_parameter("*LsoV2IPv4", "1")).unwrap();
    assert!(p.offload_config.lso4);
    set(true, &mut p, oid, &config_parameter("NetworkAddress", "1")).unwrap();
    let before = p.offload_config;
    set(true, &mut p, oid, &config_parameter("*LsoV2IPv4", "")).unwrap();
    assert!(before.lso4 && !p.offload_config.lso4);
    let mut long = config_parameter("x", "1");
    long[4] = 0;
    long[5] = 1;
    assert_eq!(
        set(true, &mut p, oid, &long),
        Err(OidError::InvalidInput(OidField::NameLength))
    );
}

#[test]
fn other_sets_do_nothing_or_fail() {
    let mut p = PrimaryChannelState::new(offloads(false));
    assert_eq!(set(true, &mut p, OID_GEN_CURRENT_PACKET_FILTER, &[]), Ok(false));
    assert_eq!(set(true, &mut p, 0x999, &[]), Err(OidError::UnknownOid));
}
