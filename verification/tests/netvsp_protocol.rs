use openvmm::netvsp::adapter::{
    can_use_ring_opt, EndpointInfo, GuestOsId, Nic, TxOffloadSupport, FREEBSD, WINDOWS_NT,
};
use openvmm::netvsp::error::WorkerError;
use openvmm::netvsp::offload::{ChecksumOffloadConfig, OffloadConfig};
use openvmm::netvsp::outbox::{send_completion, Effect, Outbox};
use openvmm::netvsp::packet::{
    parse_packet, IncomingPacket, PacketData, PacketError, SectionRange,
};
use openvmm::netvsp::protocol::{
    check_version, fields, message, padding, OutgoingPacket, OutgoingPacketType,
    TransferPageRange, Version, MESSAGE1_TYPE_SEND_NDIS_VERSION, MESSAGE1_TYPE_SEND_RNDIS_PACKET,
    MESSAGE1_TYPE_SEND_RNDIS_PACKET_COMPLETE, MESSAGE2_TYPE_SEND_NDIS_CONFIG,
    MESSAGE5_TYPE_SUB_CHANNEL, MESSAGE_TYPE_INIT, PACKET_SIZE_V1, PACKET_SIZE_V61,
    SWITCH_DATA_PATH_TRANSACTION_ID, VF_ASSOCIATION_TRANSACTION_ID,
};

fn endpoint(max_queues: u16, fast: bool) -> EndpointInfo {
    EndpointInfo {
        max_queues,
        indirection_table_size: 128,
        tx_fast_completions: fast,
        tx_offloads: TxOffloadSupport {
            ipv4_header: true,
            tcp: true,
            udp: false,
            tso: true,
        },
        link_speed: 1_000_000_000,
    }
}

fn data(payload: Vec<u8>) -> IncomingPacket {
    IncomingPacket::Data {
        transaction_id: Some(7),
        payload,
        external_data: Some(Vec::new()),
    }
}

#[test]
fn versions_are_found_by_number() {
    assert_eq!(check_version(0x2), Some(Version::V1));
    assert_eq!(check_version(0x60001), Some(Version::V61));
    assert_eq!(check_version(0x60000), Some(Version::V6));
    assert_eq!(check_version(0x12345), None);
    assert_eq!(Version::V5.as_u32(), 0x50000);
    assert!(Version::V5.at_least(Version::V4));
    assert!(!Version::V4.at_least(Version::V5));
}

#[test]
fn messages_are_padded() {
    assert_eq!(padding(PACKET_SIZE_V1, &vec![0; 8]), 16);
    assert_eq!(padding(PACKET_SIZE_V1, &vec![0; 24]), 0);
    assert_eq!(padding(PACKET_SIZE_V1, &vec![0; 100]), 0);
    let m = message(PACKET_SIZE_V61, 2, fields(&[1, 0x0203]));
    let bytes = m.payload();
    assert_eq!(bytes.len(), PACKET_SIZE_V61);
    assert_eq!(&bytes[..12], &[2, 0, 0, 0, 1, 0, 0, 0, 3, 2, 0, 0]);
    assert!(bytes[12..].iter().all(|b| *b == 0));
}

#[test]
fn init_is_accepted_before_negotiation() {
    let payload = fields(&[MESSAGE_TYPE_INIT, 0x60001, 0x60001]);
    let p = parse_packet(data(payload), None, None).unwrap();
    assert_eq!(
        p.data,
        PacketData::Init {
            protocol_version: 0x60001,
            protocol_version2: 0x60001
        }
    );
    assert_eq!(p.transaction_id, Some(7));
}

#[test]
fn other_messages_need_a_version() {
    let payload = fields(&[MESSAGE1_TYPE_SEND_NDIS_VERSION, 6, 30]);
    assert_eq!(
        parse_packet(data(payload), None, None).unwrap_err(),
        PacketError::UnknownType(MESSAGE1_TYPE_SEND_NDIS_VERSION)
    );
    let payload = fields(&[MESSAGE1_TYPE_SEND_NDIS_VERSION, 6, 30]);
    assert_eq!(
        parse_packet(data(payload), None, Some(Version::V1)).unwrap().data,
        PacketData::SendNdisVersion {
            ndis_major_version: 6,
            ndis_minor_version: 30
        }
    );
}

#[test]
fn newer_messages_need_a_newer_version() {
    let config = || fields(&[MESSAGE2_TYPE_SEND_NDIS_CONFIG, 1500, 0, 4, 0]);
    assert!(parse_packet(data(config()), None, Some(Version::V1)).is_err());
    assert!(parse_packet(data(config()), None, Some(Version::V2)).is_ok());
    let sub = || fields(&[MESSAGE5_TYPE_SUB_CHANNEL, 1, 4]);
    assert!(parse_packet(data(sub()), None, Some(Version::V4)).is_err());
    assert_eq!(
        parse_packet(data(sub()), None, Some(Version::V5)).unwrap().data,
        PacketData::SubChannelRequest {
            operation: 1,
            num_sub_channels: 4
        }
    );
}

#[test]
fn short_messages_are_refused() {
    assert_eq!(
        parse_packet(data(vec![1, 0]), None, None).unwrap_err(),
        PacketError::Access
    );
    assert_eq!(
        parse_packet(data(fields(&[MESSAGE_TYPE_INIT, 1])), None, None).unwrap_err(),
        PacketError::Access
    );
}

#[test]
fn send_buffer_sections_are_checked() {
    let packet = |index: u32, size: u32| {
        data(fields(&[MESSAGE1_TYPE_SEND_RNDIS_PACKET, 0, index, size]))
    };
    let v = Some(Version::V5);
    let p = parse_packet(packet(2, 100), Some(6144 * 3), v).unwrap();
    assert_eq!(
        p.send_buffer_suballocation,
        SectionRange {
            offset: 12288,
            len: 100
        }
    );
    assert_eq!(
        parse_packet(packet(2, 6145), Some(6144 * 3), v).unwrap_err(),
        PacketError::InvalidSendBufferIndex
    );
    assert_eq!(
        parse_packet(packet(0, 1), None, v).unwrap_err(),
        PacketError::InvalidSendBufferIndex
    );
    let p = parse_packet(packet(0xffffffff, 0), None, v).unwrap();
    assert_eq!(p.send_buffer_suballocation.len, 0);
}

#[test]
fn external_ranges_have_to_be_readable() {
    let p = IncomingPacket::Data {
        transaction_id: None,
        payload: fields(&[MESSAGE_TYPE_INIT, 2, 2]),
        external_data: None,
    };
    assert_eq!(
        parse_packet(p, None, None).unwrap_err(),
        PacketError::ExternalData
    );
}

#[test]
fn completions_are_told_apart() {
    let completion = |transaction_id: u64, payload: Vec<u8>| IncomingPacket::Completion {
        transaction_id,
        payload,
    };
    let p = parse_packet(completion(VF_ASSOCIATION_TRANSACTION_ID, vec![]), None, None).unwrap();
    assert_eq!(p.data, PacketData::SendVfAssociationCompletion);
    let p = parse_packet(completion(SWITCH_DATA_PATH_TRANSACTION_ID, vec![]), None, None).unwrap();
    assert_eq!(p.data, PacketData::SwitchDataPathCompletion);
    let p = parse_packet(
        completion(5, fields(&[MESSAGE1_TYPE_SEND_RNDIS_PACKET_COMPLETE, 1])),
        None,
        None,
    )
    .unwrap();
    assert_eq!(p.data, PacketData::RndisPacketComplete { status: 1 });
    assert_eq!(p.transaction_id, Some(5));
    assert_eq!(
        parse_packet(completion(5, fields(&[99, 1])), None, None).unwrap_err(),
        PacketError::UnknownType(99)
    );
}

#[test]
fn outbox_takes_what_fits() {
    let mut out = Outbox::new(64);
    let packet = |n: usize| OutgoingPacket {
        transaction_id: 1,
        packet_type: OutgoingPacketType::InBandNoCompletion,
        payload: vec![0; n],
    };
    // A header of 24 bytes, and the payload in units of eight.
    assert!(out.try_write(packet(9)).is_ok());
    assert_eq!(out.free, 24);
    assert_eq!(out.try_write(packet(1)), Err(32));
    assert!(out.try_write(packet(0)).is_ok());
    assert_eq!(out.free, 0);
    assert_eq!(out.effects.len(), 2);
}

#[test]
fn transfer_pages_take_room() {
    let mut out = Outbox::new(100);
    let p = OutgoingPacket {
        transaction_id: 1,
        packet_type: OutgoingPacketType::TransferPages(
            0,
            vec![TransferPageRange {
                byte_offset: 0,
                byte_count: 4,
            }],
        ),
        payload: vec![0; 8],
    };
    assert!(out.try_write(p).is_ok());
    assert_eq!(out.free, 100 - 24 - 8 - 16);
}

#[test]
fn completions_need_a_transaction_and_room() {
    let mut out = Outbox::new(40);
    assert!(send_completion(&mut out, None, vec![1]).is_ok());
    assert_eq!(out.effects.len(), 0);
    assert!(send_completion(&mut out, Some(3), vec![1]).is_ok());
    assert!(matches!(&out.effects[0], Effect::Send(p) if p.transaction_id == 3
        && p.payload == vec![1]));
    assert_eq!(
        send_completion(&mut out, Some(4), vec![1]),
        Err(WorkerError::OutOfSpace)
    );
}

#[test]
fn checksum_flags_follow_configuration() {
    let off = ChecksumOffloadConfig {
        ipv4_header: false,
        tcp4: false,
        udp4: false,
        tcp6: false,
        udp6: false,
    };
    let (v4, v6) = off.flags();
    assert_eq!((v4.bits(), v6.bits()), (0, 0));
    let (v4, v6) = ChecksumOffloadConfig { tcp4: true, ..off }.flags();
    assert_eq!((v4.bits(), v6.bits()), (1 + 4 + 16, 0));
    let (v4, v6) = ChecksumOffloadConfig { udp6: true, ..off }.flags();
    assert_eq!((v4.bits(), v6.bits()), (0, 1 + 64));
    let (v4, _) = ChecksumOffloadConfig {
        ipv4_header: true,
        ..off
    }
    .flags();
    assert_eq!(v4.bits(), 1 + 256);
}

#[test]
fn offload_description_has_its_fields() {
    let off = ChecksumOffloadConfig {
        ipv4_header: false,
        tcp4: false,
        udp4: false,
        tcp6: false,
        udp6: false,
    };
    let c = OffloadConfig {
        checksum_tx: ChecksumOffloadConfig { tcp4: true, ..off },
        checksum_rx: off,
        lso4: true,
        lso6: false,
    };
    let b = c.ndis_offload();
    assert_eq!(b.len(), 168);
    assert_eq!(&b[..4], &[0xa7, 3, 168, 0]);
    assert_eq!(&b[4..12], &[2, 0, 0, 0, 21, 0, 0, 0]);
    assert_eq!(&b[12..20], &[2, 0, 0, 0, 0, 0, 0, 0]);
    assert_eq!(&b[80..92], &[2, 0, 0, 0, 0x3c, 0xf5, 0, 0, 2, 0, 0, 0]);
    assert!(b[92..].iter().all(|x| *x == 0));
}

#[test]
fn adapter_is_built_from_endpoint() {
    let nic = Nic::builder().build(&endpoint(16, false), [1, 2, 3, 4, 5, 6], 9);
    let a = nic.adapter;
    assert_eq!(a.max_queues, 16);
    assert_eq!(a.ring_size_limit, 0);
    assert_eq!(a.free_tx_packet_threshold, 256);
    assert!(a.offload_support.checksum_rx.udp6);
    assert!(!a.offload_support.checksum_tx.udp6);
    assert!(a.offload_support.lso4 && a.offload_support.lso6);
    assert_eq!(a.adapter_index, 9);
    assert!(!nic.virtual_function);

    let nic = Nic::builder()
        .limit_ring_buffer(true)
        .max_queues(0)
        .virtual_function()
        .build(&endpoint(100, true), [0; 6], 0);
    assert_eq!(nic.adapter.max_queues, 1);
    assert_eq!(nic.adapter.ring_size_limit, 1024);
    assert_eq!(nic.adapter.free_tx_packet_threshold, 1024);
    assert!(nic.virtual_function);

    let nic = Nic::builder().build(&endpoint(100, true), [0; 6], 0);
    assert_eq!(nic.adapter.max_queues, 64);
}

#[test]
fn serial_number_depends_on_guest() {
    let windows = Nic::builder()
        .get_guest_os_id(GuestOsId::Microsoft { os_id: WINDOWS_NT })
        .build(&endpoint(1, false), [0; 6], 9);
    assert_eq!(windows.adapter.get_guest_vf_serial_number(77), 9);
    let other = Nic::builder().build(&endpoint(1, false), [0; 6], 9);
    assert_eq!(other.adapter.get_guest_vf_serial_number(77), 77);
}

#[test]
fn ring_size_is_trusted_for_some_guests() {
    let bsd = |version: u32| {
        Some(GuestOsId::OpenSource {
            os_type: FREEBSD,
            version,
        })
    };
    assert!(!can_use_ring_opt(true, None));
    assert!(can_use_ring_opt(true, Some(GuestOsId::Microsoft { os_id: 4 })));
    assert!(!can_use_ring_opt(false, Some(GuestOsId::Microsoft { os_id: 4 })));
    assert!(!can_use_ring_opt(true, bsd(1400096)));
    assert!(can_use_ring_opt(true, bsd(1400097)));
    let linux = Some(GuestOsId::OpenSource {
        os_type: 1,
        version: 1,
    });
    assert!(can_use_ring_opt(true, linux));
}
