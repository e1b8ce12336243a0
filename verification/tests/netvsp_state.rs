use openvmm::netvsp::error::{BufferError, PacketOrderError, WorkerError};
use openvmm::netvsp::guest_vf::{GuestVfState, NdisConfig, RndisState};
use openvmm::netvsp::negotiate::{finish, initialize, is_ready_to_initialize, Negotiation};
use openvmm::netvsp::offload::{ChecksumOffloadConfig, OffloadConfig};
use openvmm::netvsp::outbox::{Effect, Outbox};
use openvmm::netvsp::packet::PacketData;
use openvmm::netvsp::protocol::{TransferPageRange, Version};
use openvmm::netvsp::rx::{RxBufferRange, RxBufferRanges, RxBuffers, SubAllocationInUse};
use openvmm::netvsp::saved::{
    open_channels, restore_state, saved_state, NetRestoreError, Primary, RestoreEnv, SavedChannel,
    SavedRss, SavedState,
};
use openvmm::netvsp::state::{
    ActiveState, ChannelBuffers, Gpadl, NdisVersion, OpenNic, PrimaryChannelState, ReadyState,
    ReceiveBuffer, SendBuffer, WorkerState,
};

fn offloads(on: bool) -> OffloadConfig {
    let c = ChecksumOffloadConfig {
        ipv4_header: on,
        tcp4: on,
        udp4: on,
        tcp6: on,
        udp6: on,
    };
    OffloadConfig {
        checksum_tx: c,
        checksum_rx: c,
        lso4: on,
        lso6: on,
    }
}

fn gpadls() -> Vec<Gpadl> {
    vec![
        Gpadl {
            id: 1,
            contiguous_len: Some(0x100000),
        },
        Gpadl {
            id: 2,
            contiguous_len: Some(0x10000),
        },
        Gpadl {
            id: 3,
            contiguous_len: None,
        },
    ]
}

fn env() -> RestoreEnv {
    RestoreEnv {
        indirection_table_size: 4,
        min_sub_allocation_size: 1700,
    }
}

#[test]
fn suballocations_are_allocated_once() {
    let mut rx = RxBuffers::new(8);
    assert!(rx.is_free(3));
    assert_eq!(rx.allocate(vec![3, 5]), Ok(()));
    assert!(!rx.is_free(3) && !rx.is_free(5));
    assert_eq!(rx.allocate(vec![1, 5]), Err(SubAllocationInUse(5)));
    assert!(rx.is_free(1));
    assert_eq!(rx.free(3), Some(vec![3, 5]));
    assert!(rx.is_free(3) && rx.is_free(5));
    assert_eq!(rx.free(3), None);
}

#[test]
fn freed_suballocations_are_named_by_the_first() {
    let mut rx = RxBuffers::new(8);
    rx.allocate(vec![2, 4]).unwrap();
    assert_eq!(rx.free(4), None);
    assert_eq!(rx.allocated(), vec![vec![2, 4]]);
}

#[test]
fn buffers_are_shared_out_among_queues() {
    let ranges = RxBufferRanges::new(116, 3);
    assert_eq!(ranges.buffers_per_queue, 33);
    let range = RxBufferRange {
        start: 16,
        end: 49,
        active_index: Some(0),
        ranges,
    };
    assert_eq!(range.send_if_remote(20), None);
    assert_eq!(range.send_if_remote(50), Some(1));
    // Control buffers never leave the primary channel.
    assert_eq!(range.send_if_remote(3), None);
}

#[test]
fn receive_buffer_is_checked() {
    let map = gpadls();
    let b = ReceiveBuffer::new(&map, 1, 9, 0x800, 1700).unwrap();
    assert_eq!(b.count, 0x200);
    assert_eq!(b.range(3), (0x1800, 0x800));
    assert_eq!(
        b.transfer_page_range(2, 100),
        TransferPageRange {
            byte_offset: 0x1000,
            byte_count: 100
        }
    );
    assert_eq!(
        ReceiveBuffer::new(&map, 1, 9, 1699, 1700),
        Err(BufferError::UnsupportedSuballocationSize(1699))
    );
    assert_eq!(
        ReceiveBuffer::new(&map, 1, 9, 0x200000, 1700),
        Err(BufferError::UnsupportedSuballocationSize(0x200000))
    );
    assert_eq!(
        ReceiveBuffer::new(&map, 3, 9, 1700, 1700),
        Err(BufferError::UnalignedGpadl)
    );
    assert_eq!(
        ReceiveBuffer::new(&map, 4, 9, 1700, 1700),
        Err(BufferError::UnknownGpadlId)
    );
    assert_eq!(SendBuffer::new(&map, 2).unwrap().len, 0x10000);
    assert_eq!(SendBuffer::new(&map, 3), Err(BufferError::UnalignedGpadl));
}

fn negotiate(n: &mut Negotiation, out: &mut Outbox, data: PacketData) -> Result<(), WorkerError> {
    initialize(n, out, &gpadls(), data, Some(1), 0x800, 1700)
}

fn init(version: u32) -> PacketData {
    PacketData::Init {
        protocol_version: version,
        protocol_version2: version,
    }
}

#[test]
fn channel_is_negotiated_in_order() {
    let mut n = Negotiation::new();
    let mut out = Outbox::new(10000);
    negotiate(&mut n, &mut out, init(0x60001)).unwrap();
    assert!(finish(&n, offloads(true)).is_none());
    negotiate(
        &mut n,
        &mut out,
        PacketData::SendNdisConfig {
            mtu: 9000,
            capabilities: 4,
        },
    )
    .unwrap();
    negotiate(
        &mut n,
        &mut out,
        PacketData::SendNdisVersion {
            ndis_major_version: 6,
            ndis_minor_version: 30,
        },
    )
    .unwrap();
    negotiate(
        &mut n,
        &mut out,
        PacketData::SendReceiveBuffer {
            gpadl_handle: 1,
            id: 0xcafe,
        },
    )
    .unwrap();
    negotiate(
        &mut n,
        &mut out,
        PacketData::SendSendBuffer {
            gpadl_handle: 2,
            id: 0,
        },
    )
    .unwrap();
    assert!(is_ready_to_initialize(&n.state.unwrap(), false));
    let (buffers, active) = finish(&n, offloads(true)).unwrap();
    assert_eq!(buffers.version, Version::V61);
    assert_eq!(buffers.recv_buffer.count, 0x200);
    assert_eq!(buffers.ndis_config.mtu, 9000);
    assert_eq!(active.free_tx_packets.len(), 1024);
    assert_eq!(active.primary.unwrap().free_control_buffers.len(), 16);
    // Each message is answered.
    assert_eq!(out.effects.len(), 5);
}

#[test]
fn unknown_version_is_answered() {
    let mut n = Negotiation::new();
    let mut out = Outbox::new(10000);
    negotiate(&mut n, &mut out, init(0x77777)).unwrap();
    assert!(n.state.is_none());
    assert_eq!(out.effects.len(), 1);
    match &out.effects[0] {
        // The message type, no version, the longest MDL chain, and no status.
        Effect::Send(p) => {
            assert_eq!(
                &p.payload[..16],
                &[2, 0, 0, 0, 0xff, 0xff, 0xff, 0xff, 34, 0, 0, 0, 0, 0, 0, 0]
            );
        }
        _ => panic!("a message is sent"),
    }
    negotiate(&mut n, &mut out, init(0x50000)).unwrap();
    assert_eq!(n.state.unwrap().version, Version::V5);
}

#[test]
fn wrong_order_is_refused() {
    let mut n = Negotiation::new();
    let mut out = Outbox::new(10000);
    let version = PacketData::SendNdisVersion {
        ndis_major_version: 6,
        ndis_minor_version: 30,
    };
    assert!(matches!(
        negotiate(&mut n, &mut out, version),
        Err(WorkerError::UnexpectedPacketOrder(_))
    ));
    negotiate(&mut n, &mut out, init(0x50000)).unwrap();
    assert_eq!(
        negotiate(
            &mut n,
            &mut out,
            PacketData::SendReceiveBuffer {
                gpadl_handle: 1,
                id: 1
            }
        ),
        Err(WorkerError::UnexpectedPacketOrder(
            PacketOrderError::SendReceiveBufferMissingMTU
        ))
    );
    negotiate(&mut n, &mut out, version).unwrap();
    assert_eq!(
        negotiate(&mut n, &mut out, version),
        Err(WorkerError::UnexpectedPacketOrder(
            PacketOrderError::SendNdisVersionExists
        ))
    );
}

fn ready_nic() -> OpenNic {
    let map = gpadls();
    let buffers = ChannelBuffers {
        version: Version::V61,
        recv_buffer: ReceiveBuffer::new(&map, 1, 0xcafe, 0x800, 1700).unwrap(),
        send_buffer: Some(SendBuffer::new(&map, 2).unwrap()),
        ndis_version: NdisVersion { major: 6, minor: 30 },
        ndis_config: NdisConfig {
            mtu: 1500,
            capabilities: 4,
        },
    };
    let mut active = ActiveState::new(Some(PrimaryChannelState::new(offloads(true))), 0x200);
    active.primary.as_mut().unwrap().rndis_state = RndisState::Operational;
    active.rx_bufs.allocate(vec![20, 21]).unwrap();
    OpenNic {
        workers: vec![
            Some(WorkerState::Ready(ReadyState {
                buffers,
                state: active,
            })),
            None,
        ],
        num_queues: 2,
    }
}

#[test]
fn closed_adapter_saves_nothing() {
    assert!(saved_state(&None).open.is_none());
    let nic = OpenNic {
        workers: vec![Some(WorkerState::Init(None))],
        num_queues: 1,
    };
    assert!(matches!(saved_state(&Some(nic)).open, Some(Primary::Version)));
}

#[test]
fn saved_adapter_comes_back() {
    let saved = saved_state(&Some(ready_nic()));
    assert_eq!(open_channels(&saved), vec![true, false]);
    let primary = match &saved.open {
        Some(Primary::Ready(p)) => p,
        _ => panic!("the channel is ready"),
    };
    assert_eq!(primary.version, 0x60001);
    assert_eq!(primary.guest_vf_state, GuestVfState::NoState);
    assert_eq!(primary.channels[0].as_ref().unwrap().in_use_rx, vec![vec![20, 21]]);

    let nic = restore_state(&gpadls(), &env(), saved).unwrap().unwrap();
    let again = saved_state(&Some(nic));
    let primary = match &again.open {
        Some(Primary::Ready(p)) => p,
        _ => panic!("the channel is ready"),
    };
    assert_eq!(primary.rndis_state, RndisState::Operational);
    assert_eq!(primary.channels[0].as_ref().unwrap().in_use_rx, vec![vec![20, 21]]);
    assert!(primary.channels[1].is_none());
}

#[test]
fn wrong_saved_state_is_refused() {
    let saved = || match saved_state(&Some(ready_nic())).open {
        Some(Primary::Ready(p)) => p,
        _ => panic!("the channel is ready"),
    };
    let restore = |p| {
        restore_state(
            &gpadls(),
            &env(),
            SavedState {
                open: Some(Primary::Ready(p)),
            },
        )
        .err()
    };
    let mut p = saved();
    p.version = 1;
    assert_eq!(restore(p), Some(NetRestoreError::UnsupportedVersion(1)));
    let mut p = saved();
    p.receive_buffer.gpadl_id = 77;
    assert_eq!(
        restore(p),
        Some(NetRestoreError::ReceiveBuffer(BufferError::UnknownGpadlId))
    );
    let mut p = saved();
    p.rss_state = Some(SavedRss {
        key: vec![0; 40],
        indirection_table: vec![0; 3],
    });
    assert_eq!(
        restore(p),
        Some(NetRestoreError::MismatchedIndirectionTableSize)
    );
    let mut p = saved();
    p.rss_state = Some(SavedRss {
        key: vec![0; 39],
        indirection_table: vec![0; 4],
    });
    assert_eq!(restore(p), Some(NetRestoreError::InvalidRssKeySize));
    let mut p = saved();
    p.channels[0] = Some(SavedChannel {
        pending_tx_completions: vec![],
        in_use_rx: vec![vec![20], vec![20]],
    });
    assert_eq!(
        restore(p),
        Some(NetRestoreError::SuballocationMisconfigured(
            SubAllocationInUse(20)
        ))
    );
}

#[test]
fn pending_completions_take_quota() {
    let channel = SavedChannel {
        pending_tx_completions: vec![11, 12],
        in_use_rx: vec![],
    };
    let a = ActiveState::restore(&channel, 32).unwrap();
    assert_eq!(a.free_tx_packets.len(), 1022);
    assert_eq!(a.pending_tx_completions[0].transaction_id, 11);
    assert_eq!(a.pending_tx_completions[0].tx_id, Some(0));
    assert_eq!(a.pending_tx_completions[1].tx_id, Some(1));
}
