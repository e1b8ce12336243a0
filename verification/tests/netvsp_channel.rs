use openvmm::netvsp::adapter::{Adapter, EndpointInfo, Nic, TxOffloadSupport};
use openvmm::netvsp::channels::{
    after_run, worker_step, AfterRun, ChannelSlot, Channels, WorkerPhase, WorkerStep,
    VP_INDEX_DISABLE_INTERRUPT,
};
use openvmm::netvsp::control::NetChannel;
use openvmm::netvsp::control_queue::queue_control_message;
use openvmm::netvsp::coordinator::{
    find_free_rx, plan_queues, restart_queues, wait_mode, Coordinator, CoordinatorAction,
    CoordinatorEvent, PrimaryStatus, WaitMode,
};
use openvmm::netvsp::error::WorkerError;
use openvmm::netvsp::guest_vf::{
    CoordinatorMessage, NdisConfig, PendingVfState, PrimaryChannelGuestVfState, RndisState,
};
use openvmm::netvsp::outbox::{Effect, Outbox};
use openvmm::netvsp::packet::{GuestRun, PacketData, PacketRange};
use openvmm::netvsp::protocol::{OutgoingPacketType, Version, PACKET_SIZE_V61};
use openvmm::netvsp::ring::{
    handle_rndis, release_recv_buffers, wants_packet, RingAction, RxOutcome,
};
use openvmm::netvsp::rndis::{
    MESSAGE_TYPE_HALT_MSG, MESSAGE_TYPE_INITIALIZE_CMPLT, MESSAGE_TYPE_INITIALIZE_MSG,
    MESSAGE_TYPE_KEEPALIVE_MSG, MESSAGE_TYPE_PACKET_MSG,
};
use openvmm::netvsp::rx::{RxBufferRange, RxBufferRanges};
use openvmm::netvsp::state::{
    ActiveState, ChannelBuffers, Gpadl, NdisVersion, OpenNic, PendingLinkAction,
    PrimaryChannelState, ReadyState, ReceiveBuffer, WorkerState,
};
use openvmm::netvsp::stats::{QueueStats, Samples};
use openvmm::netvsp::tx::{packet_count, pending_transmit, TxPoll};
use openvmm::netvsp::tx_packet::{
    handle_rndis_packet_message, L3Protocol, PacketMemory, TxMetadata, TxSegment, TxSegmentType,
};
use openvmm::netvsp::worker::{
    collect_remote_buffers, first_phase, next_announcement, next_phase, ring_spare_capacity,
    Announcement, Phase, PollInput, Wake,
};

fn adapter() -> Adapter {
    let endpoint = EndpointInfo {
        max_queues: 4,
        indirection_table_size: 4,
        tx_fast_completions: false,
        tx_offloads: TxOffloadSupport {
            ipv4_header: true,
            tcp: true,
            udp: true,
            tso: true,
        },
        link_speed: 1_000_000_000,
    };
    Nic::builder().build(&endpoint, [1, 2, 3, 4, 5, 6], 0).adapter
}

fn channel(free: usize) -> NetChannel {
    NetChannel {
        adapter: adapter(),
        packet_size: PACKET_SIZE_V61,
        out: Outbox::new(free),
        restart: None,
        pending_send_size: 0,
    }
}

fn buffers() -> ChannelBuffers {
    let map = vec![Gpadl {
        id: 1,
        contiguous_len: Some(0x100000),
    }];
    ChannelBuffers {
        version: Version::V61,
        recv_buffer: ReceiveBuffer::new(&map, 1, 0xcafe, 0x800, 1700).unwrap(),
        send_buffer: None,
        ndis_version: NdisVersion { major: 6, minor: 30 },
        ndis_config: NdisConfig {
            mtu: 1500,
            capabilities: 4,
        },
    }
}

fn active() -> ActiveState {
    ActiveState::new(
        Some(PrimaryChannelState::new(adapter().offload_support)),
        0x200,
    )
}

fn words(xs: &[u32]) -> Vec<u8> {
    xs.iter().flat_map(|x| x.to_le_bytes()).collect()
}

fn memory(bytes: Vec<u8>) -> PacketMemory {
    let len = bytes.len() as u32;
    PacketMemory::new(&vec![PacketRange {
        runs: vec![GuestRun {
            gpa: Some(0x10000),
            len,
        }],
        bytes,
    }])
}

/// A packet message with sixty bytes of data after its header.
fn packet_message() -> Vec<u8> {
    let mut b = words(&[MESSAGE_TYPE_PACKET_MSG, 104, 36, 60, 0, 0, 0, 0, 0, 0, 0]);
    b.resize(104, 0);
    b
}

#[test]
fn initialize_message_is_answered() {
    let mut c = channel(10000);
    let mut state = active();
    let data = words(&[7, 1, 0, 0x4000]);
    queue_control_message(
        state.primary.as_mut().unwrap(),
        MESSAGE_TYPE_INITIALIZE_MSG,
        &data,
    )
    .unwrap();
    c.process_control_messages(&buffers(), &mut state).unwrap();
    let p = state.primary.as_ref().unwrap();
    assert_eq!(p.rndis_state, RndisState::Operational);
    assert_eq!(p.control_messages_len, 0);
    // The answer is in the last control buffer, which is in use until it comes back.
    assert_eq!(p.free_control_buffers.len(), 15);
    assert!(!state.rx_bufs.is_free(15));
    match &c.out.effects[0] {
        Effect::WriteReceiveBuffer { id, bytes } => {
            assert_eq!(*id, 15);
            assert_eq!(&bytes[..4], &MESSAGE_TYPE_INITIALIZE_CMPLT.to_le_bytes());
            assert_eq!(&bytes[8..12], &7u32.to_le_bytes());
        }
        _ => panic!("the answer is written first"),
    }
    match &c.out.effects[1] {
        Effect::Send(p) => {
            assert_eq!(p.transaction_id, 15);
            assert!(matches!(p.packet_type, OutgoingPacketType::TransferPages(0xcafe, _)));
        }
        _ => panic!("the guest is told"),
    }
}

#[test]
fn control_messages_wait_for_room() {
    let mut c = channel(100);
    let mut state = active();
    let p = state.primary.as_mut().unwrap();
    queue_control_message(p, MESSAGE_TYPE_KEEPALIVE_MSG, &words(&[1])).unwrap();
    c.process_control_messages(&buffers(), &mut state).unwrap();
    assert_eq!(state.primary.as_ref().unwrap().control_messages.len(), 1);
    assert!(c.pending_send_size > 0);
    assert!(c.out.effects.is_empty());
}

#[test]
fn control_queue_is_limited() {
    let mut state = active();
    let p = state.primary.as_mut().unwrap();
    assert_eq!(
        queue_control_message(p, MESSAGE_TYPE_KEEPALIVE_MSG, &[]),
        Err(WorkerError::RndisMessageTooSmall)
    );
    assert_eq!(
        queue_control_message(p, MESSAGE_TYPE_KEEPALIVE_MSG, &vec![0; 102401]),
        Err(WorkerError::TooManyControlMessages)
    );
    queue_control_message(p, MESSAGE_TYPE_KEEPALIVE_MSG, &vec![0; 102400]).unwrap();
    assert_eq!(
        queue_control_message(p, MESSAGE_TYPE_KEEPALIVE_MSG, &[0]),
        Err(WorkerError::TooManyControlMessages)
    );
}

#[test]
fn packet_becomes_segments() {
    let m = memory(packet_message());
    let mut segments = Vec::new();
    let mut stats = QueueStats::new();
    handle_rndis_packet_message(&m, 8, 5, &mut segments, &mut stats).unwrap();
    assert_eq!((stats.tx_packets, stats.tx_lso_packets, stats.tx_checksum_packets), (1, 0, 0));
    assert_eq!(segments.len(), 1);
    assert_eq!(segments[0].gpa, 0x10000 + 44);
    assert_eq!(segments[0].len, 60);
    match segments[0].ty {
        TxSegmentType::Head(meta) => {
            assert_eq!(meta.id, 5);
            assert_eq!(meta.segment_count, 1);
            assert_eq!(meta.len, 60);
            assert!(!meta.offload_tcp_segmentation);
        }
        _ => panic!("the first segment is the head"),
    }
}

#[test]
fn short_packets_are_refused() {
    let m = memory(words(&[MESSAGE_TYPE_PACKET_MSG, 12, 0]));
    let mut segments = Vec::new();
    let mut stats = QueueStats::new();
    assert_eq!(
        handle_rndis_packet_message(&m, 8, 5, &mut segments, &mut stats),
        Err(WorkerError::Access)
    );
    assert!(segments.is_empty());
    // More data than there is.
    let mut bytes = packet_message();
    bytes[12] = 61;
    assert_eq!(
        handle_rndis_packet_message(&memory(bytes), 8, 5, &mut segments, &mut stats),
        Err(WorkerError::RndisMessageTooSmall)
    );
    // Out of band data.
    let mut bytes = packet_message();
    bytes[16] = 1;
    assert_eq!(
        handle_rndis_packet_message(&memory(bytes), 8, 5, &mut segments, &mut stats),
        Err(WorkerError::UnsupportedRndisBehavior)
    );
    assert_eq!(stats, QueueStats::new());
}

#[test]
fn packets_of_one_message_are_counted() {
    let mut bytes = packet_message();
    bytes.extend_from_slice(&packet_message());
    let m = memory(bytes);
    let mut state = active();
    let mut segments = Vec::new();
    let n = handle_rndis(&mut state, &m, &mut segments, 0, Some(9), true).unwrap();
    assert_eq!(n, 2);
    assert_eq!(state.stats.tx_packets, 2);
    assert_eq!(packet_count(&segments, segments.len()), 2);
    assert_eq!(state.pending_tx_packets[0].transaction_id, 9);
    assert_eq!(
        handle_rndis(&mut state, &m, &mut segments, 0, None, true),
        Err(WorkerError::MissingTransactionId)
    );
}

#[test]
fn transmits_are_completed_when_all_packets_are() {
    let mut c = channel(10000);
    let mut state = active();
    let mut segments: Vec<TxSegment> = Vec::new();
    let mut bytes = packet_message();
    bytes.extend_from_slice(&packet_message());
    assert!(wants_packet(&state, &segments));
    let action = c
        .handle_rndis_packet(&mut state, &memory(bytes), &mut segments, Some(77), true)
        .unwrap();
    let id = match action {
        RingAction::Transmit { id, num_packets } => {
            assert_eq!(num_packets, 2);
            id
        }
        _ => panic!("there is something to transmit"),
    };
    assert!(!wants_packet(&state, &segments));
    // One packet is sent at once, and the other one stays.
    let sent = c.transmit_packet(&mut state, &mut segments, id, 2, true, 1);
    assert_eq!(sent, 1);
    assert_eq!(state.stats.tx_stalled, 1);
    assert_eq!(pending_transmit(&state, &segments), Some((id, 1)));
    assert!(c.out.effects.is_empty());
    assert!(!c.transmit_pending_segments(&mut state, &mut segments, id, 1, false, 0));
    assert!(c.transmit_pending_segments(&mut state, &mut segments, id, 1, false, 1));
    assert_eq!(state.stats.tx_stalled, 1);
    assert!(c.out.effects.is_empty());
    assert_eq!(
        c.process_endpoint_tx(&mut state, TxPoll::Done(vec![id])),
        Ok(true)
    );
    assert_eq!(c.out.effects.len(), 1);
    assert_eq!(state.free_tx_packets.len(), 1024);
    assert_eq!(
        c.process_endpoint_tx(&mut state, TxPoll::TryRestart),
        Err(WorkerError::EndpointRequiresQueueRestart)
    );
}

#[test]
fn no_slot_is_lost() {
    let mut c = channel(10000);
    let mut state = active();
    let mut segments: Vec<TxSegment> = Vec::new();
    let mut ids = Vec::new();
    for i in 0..3 {
        let action = c
            .handle_rndis_packet(&mut state, &memory(packet_message()), &mut segments, Some(i), true)
            .unwrap();
        let id = match action {
            RingAction::Transmit { id, .. } => id,
            _ => panic!("there is something to transmit"),
        };
        let n = segments.len();
        c.transmit_packet(&mut state, &mut segments, id, 1, false, n);
        ids.push(id);
    }
    assert_eq!((state.stats.tx_packets, state.stats.tx_stalled), (3, 0));
    assert_eq!(state.free_tx_packets.len(), 1021);
    // One is completed by the endpoint, the others when the queues restart.
    c.process_endpoint_tx(&mut state, TxPoll::Done(vec![ids[1]])).unwrap();
    assert!(c.process_endpoint_tx(&mut state, TxPoll::TryRestart).is_err());
    assert_eq!(state.free_tx_packets.len(), 1022);
    assert_eq!(state.pending_tx_completions.len(), 2);
    assert!(c.send_pending_packets(&mut state));
    let mut free = state.free_tx_packets.clone();
    free.sort();
    assert_eq!(free, (0..1024).collect::<Vec<u32>>());
    assert_eq!(
        c.process_endpoint_tx(&mut state, TxPoll::Fatal),
        Err(WorkerError::Endpoint)
    );
}

#[test]
fn completions_wait_for_room() {
    let mut c = channel(0);
    let mut state = active();
    assert!(!c.try_send_tx_packet(5));
    let id = state.free_tx_packets.pop().unwrap();
    state.pending_tx_packets[id as usize].transaction_id = 5;
    c.complete_tx_packet(&mut state, id);
    assert_eq!(state.pending_tx_completions.len(), 1);
    assert!(!c.send_pending_packets(&mut state));
    c.out.free = 1000;
    assert!(c.send_pending_packets(&mut state));
    assert!(state.pending_tx_completions.is_empty());
    assert_eq!(c.out.effects.len(), 1);
    assert_eq!(c.pending_send_size, 0);
}

#[test]
fn received_packets_are_handed_over_or_dropped() {
    let mut c = channel(1000);
    let mut state = active();
    assert_eq!(c.process_endpoint_rx(&buffers(), &mut state, vec![]), RxOutcome::Idle);
    assert_eq!(
        c.process_endpoint_rx(&buffers(), &mut state, vec![20, 21]),
        RxOutcome::Sent
    );
    assert!(!state.rx_bufs.is_free(20) && !state.rx_bufs.is_free(21));
    c.out.free = 10;
    assert_eq!(
        c.process_endpoint_rx(&buffers(), &mut state, vec![22]),
        RxOutcome::Dropped
    );
    assert!(state.rx_bufs.is_free(22));
    assert_eq!((state.stats.rx_packets, state.stats.rx_dropped_ring_full), (2, 1));
    // Nothing was received once, and that is no sample.
    assert_eq!(state.stats.rx_packets_per_wake, Samples { count: 2, total: 3 });
}

#[test]
fn offloads_and_passes_are_counted() {
    let mut meta = TxMetadata {
        id: 0,
        segment_count: 1,
        len: 60,
        offload_ip_header_checksum: true,
        offload_tcp_checksum: false,
        offload_udp_checksum: false,
        offload_tcp_segmentation: false,
        l3_protocol: L3Protocol::Ipv4,
        l2_len: 14,
        l3_len: 20,
        l4_len: 20,
        max_tcp_segment_size: 0,
    };
    let mut s = QueueStats::new();
    // The checksum of the IP header alone does not count.
    s.count_frame(&meta);
    meta.offload_udp_checksum = true;
    s.count_frame(&meta);
    meta.offload_udp_checksum = false;
    meta.offload_tcp_checksum = true;
    meta.offload_tcp_segmentation = true;
    s.count_frame(&meta);
    assert_eq!((s.tx_packets, s.tx_checksum_packets, s.tx_lso_packets), (3, 2, 1));

    s.count_ring_pass(3);
    s.count_ring_pass(0);
    assert_eq!(s.tx_packets_per_wake, Samples { count: 2, total: 3 });
    s.count_wake(true);
    assert_eq!(s.spurious_wakes, 0);
    s.count_wake(false);
    assert_eq!(s.spurious_wakes, 1);
    s.spurious_wakes = u64::MAX;
    s.count_wake(false);
    assert_eq!(s.spurious_wakes, 0);
}

#[test]
fn frames_before_an_error_are_counted() {
    let mut bytes = packet_message();
    bytes.extend_from_slice(&words(&[MESSAGE_TYPE_PACKET_MSG]));
    let mut state = active();
    let mut segments = Vec::new();
    assert_eq!(
        handle_rndis(&mut state, &memory(bytes), &mut segments, 0, Some(9), true),
        Err(WorkerError::Access)
    );
    assert_eq!(state.stats.tx_packets, 1);
}

#[test]
fn returned_buffers_go_to_their_owners() {
    let mut state = active();
    let range = RxBufferRange {
        start: 16,
        end: 264,
        active_index: Some(0),
        ranges: RxBufferRanges::new(0x200, 2),
    };
    state.rx_bufs.allocate(vec![20, 300]).unwrap();
    let r = release_recv_buffers(&mut state, 20, &range).unwrap();
    assert_eq!(r.done, vec![20]);
    assert_eq!(r.remote, vec![(1, 300)]);
    assert!(state.rx_bufs.is_free(300));
    assert!(release_recv_buffers(&mut state, 20, &range).is_none());
    assert!(release_recv_buffers(&mut state, 1 << 40, &range).is_none());
    // Control buffers go back to the primary channel.
    state.primary.as_mut().unwrap().free_control_buffers.pop();
    state.rx_bufs.allocate(vec![15]).unwrap();
    let r = release_recv_buffers(&mut state, 15, &range).unwrap();
    assert!(r.done.is_empty());
    assert_eq!(state.primary.as_ref().unwrap().free_control_buffers.len(), 16);
    assert_eq!(collect_remote_buffers(&mut state, &vec![30]), vec![30]);
}

#[test]
fn subchannels_are_granted() {
    let mut c = channel(1000);
    let mut state = active();
    c.handle_subchannel_request(&mut state, 1, 3, Some(1)).unwrap();
    assert_eq!(state.primary.as_ref().unwrap().requested_num_queues, 4);
    assert_eq!(c.restart, Some(CoordinatorMessage::Restart));
    let mut c = channel(1000);
    let mut state = active();
    c.handle_subchannel_request(&mut state, 1, 5, Some(1)).unwrap();
    assert_eq!(state.primary.as_ref().unwrap().requested_num_queues, 1);
    assert_eq!(c.restart, None);
    assert_eq!(c.out.effects.len(), 1);
}

#[test]
fn revoked_buffers_end_the_channel() {
    let mut c = channel(1000);
    let mut state = active();
    let range = RxBufferRange {
        start: 16,
        end: 0x200,
        active_index: None,
        ranges: RxBufferRanges::new(0x200, 1),
    };
    assert!(matches!(
        c.handle_other_packet(
            &mut state,
            &range,
            PacketData::RevokeReceiveBuffer { id: 1 },
            None
        ),
        Err(WorkerError::BufferRevoked)
    ));
    assert!(matches!(
        c.handle_other_packet(
            &mut state,
            &range,
            PacketData::RndisPacketComplete { status: 1 },
            Some(3)
        ),
        Err(WorkerError::InvalidRndisPacketCompletion)
    ));
}

#[test]
fn halt_message_without_data_is_refused() {
    let m = memory(words(&[MESSAGE_TYPE_HALT_MSG, 0]));
    let mut state = active();
    let mut segments = Vec::new();
    assert_eq!(
        handle_rndis(&mut state, &m, &mut segments, 0, Some(9), true),
        Err(WorkerError::RndisMessageTooSmall)
    );
}

#[test]
fn link_changes_are_told_and_not_lost() {
    let mut c = channel(10000);
    let mut state = active();
    state.primary.as_mut().unwrap().pending_link_action = PendingLinkAction::Active(false);
    assert_eq!(c.send_link_status(&buffers(), &mut state), Ok(None));
    let p = state.primary.as_mut().unwrap();
    assert!(!p.guest_link_up);
    assert_eq!(p.pending_link_action, PendingLinkAction::Default);
    // Down again after up: the guest sees the change, and the rest comes later.
    p.pending_link_action = PendingLinkAction::Active(false);
    assert!(matches!(
        c.send_link_status(&buffers(), &mut state),
        Ok(Some(CoordinatorMessage::StartTimer { delay_ms: 5000 }))
    ));
    let p = state.primary.as_ref().unwrap();
    assert!(p.guest_link_up);
    assert_eq!(p.pending_link_action, PendingLinkAction::Delay(false));
}

#[test]
fn transmit_spread_is_sent_once() {
    let mut c = channel(10000);
    let mut state = active();
    state.primary.as_mut().unwrap().requested_num_queues = 2;
    assert!(!c.send_tx_spread(&buffers(), &mut state, 1));
    assert!(c.send_tx_spread(&buffers(), &mut state, 2));
    assert!(!c.send_tx_spread(&buffers(), &mut state, 2));
    match &c.out.effects[0] {
        Effect::Send(p) => {
            assert_eq!(&p.payload[..12], &words(&[134, 16, 12])[..]);
            assert_eq!(&p.payload[12..24], &words(&[0, 1, 0])[..]);
        }
        _ => panic!("a message is sent"),
    }
}

#[test]
fn guest_is_told_in_order() {
    let mut c = channel(10000);
    let mut state = active();
    assert_eq!(next_announcement(None, &state, 1), None);
    let p = state.primary.as_mut().unwrap();
    p.requested_num_queues = 2;
    p.pending_link_action = PendingLinkAction::Active(false);
    p.guest_vf_state = PrimaryChannelGuestVfState::UnavailableFromAvailable;
    let mut done = None;
    let mut told = Vec::new();
    while let Some(a) = next_announcement(done, &state, 2) {
        assert_eq!(c.announce(a, &buffers(), &mut state, 2), Ok(None));
        told.push(a);
        done = Some(a);
    }
    assert_eq!(
        told,
        vec![
            Announcement::TxSpread,
            Announcement::LinkStatus,
            Announcement::VfState
        ]
    );
    let p = state.primary.as_ref().unwrap();
    assert!(p.tx_spread_sent && !p.guest_link_up);
    assert_eq!(p.guest_vf_state, PrimaryChannelGuestVfState::Unavailable);
    state.primary = None;
    assert_eq!(next_announcement(None, &state, 2), None);
}

#[test]
fn full_ring_leaves_the_endpoint_alone() {
    let round = |ring_full: bool| {
        let mut phases = vec![first_phase(ring_full)];
        while let Some(p) = next_phase(*phases.last().unwrap(), ring_full) {
            phases.push(p);
        }
        phases
    };
    assert_eq!(
        round(true),
        vec![
            Phase::Ring,
            Phase::Transmit,
            Phase::Completions,
            Phase::ControlMessages,
            Phase::Sleep
        ]
    );
    assert_eq!(round(false).len(), 7);
    assert_eq!(round(false)[0], Phase::EndpointRx);
    assert_eq!(round(false)[2], Phase::EndpointTx);
}

#[test]
fn channel_sleeps_without_work() {
    let mut c = channel(1000);
    let state = active();
    let idle = PollInput {
        ring_full: false,
        endpoint_ready: false,
        incoming_ready: false,
        outgoing_room: 1000,
        ring_spare_capacity: 100,
        free_tx_packet_threshold: 256,
    };
    assert_eq!(c.poll(&state, false, idle), Wake::Pending);
    let ready = PollInput {
        incoming_ready: true,
        ..idle
    };
    assert_eq!(c.poll(&state, false, ready), Wake::Ready);
    assert_eq!(c.poll(&state, true, ready), Wake::Pending);
    c.restart = Some(CoordinatorMessage::Restart);
    assert_eq!(c.poll(&state, false, idle), Wake::Restart(CoordinatorMessage::Restart));
    assert_eq!(c.restart, None);
    assert_eq!(ring_spare_capacity(16384, true, 1024), 15360);
    assert_eq!(ring_spare_capacity(16384, false, 1024), 2048);
}

#[test]
fn queues_share_the_buffers() {
    let initial: Vec<u32> = (16..0x200).collect();
    let plan = plan_queues(None, 1, 0x200, &initial);
    assert_eq!(plan.queues.len(), 1);
    assert_eq!(plan.queues[0].range.start, 0);
    assert_eq!(plan.queues[0].range.end, 0x200);
    assert_eq!(plan.queues[0].initial_rx.len(), 0x1f0);
    let table = vec![0, 1, 1, 0];
    let plan = plan_queues(Some(&table), 2, 0x200, &initial);
    assert_eq!(plan.queues.len(), 2);
    assert_eq!(plan.queues[0].range.end, plan.queues[1].range.start);
    assert_eq!(plan.queues[1].range.end, 0x200);
    let total: usize = plan.queues.iter().map(|q| q.initial_rx.len()).sum();
    assert_eq!(total, initial.len());
}

#[test]
fn last_active_queue_gets_the_rest() {
    let initial: Vec<u32> = (16..36).collect();
    let ranges = |table: Vec<u16>, buffers: u32| -> Vec<(u32, u32, Option<u32>)> {
        plan_queues(Some(&table), 3, buffers, &initial)
            .queues
            .iter()
            .map(|q| (q.range.start, q.range.end, q.range.active_index))
            .collect()
    };
    // Queue zero is left out, and has just the reserved buffers.
    assert_eq!(
        ranges(vec![1, 2], 36),
        vec![(0, 16, None), (16, 26, Some(0)), (26, 36, Some(1))]
    );
    assert_eq!(
        ranges(vec![2, 1, 1, 9], 37),
        vec![(0, 16, None), (16, 26, Some(0)), (26, 37, Some(1))]
    );
    assert_eq!(
        ranges(vec![0, 2], 36),
        vec![(0, 26, Some(0)), (26, 26, None), (26, 36, Some(1))]
    );
    assert_eq!(
        ranges(vec![0], 36),
        vec![(0, 36, Some(0)), (36, 36, None), (36, 36, None)]
    );
    assert_eq!(
        ranges(vec![1], 36),
        vec![(0, 16, None), (16, 36, Some(0)), (36, 36, None)]
    );
    // A table that names no queue at all counts as none.
    assert_eq!(
        ranges(vec![7], 36),
        vec![(0, 22, Some(0)), (22, 28, Some(1)), (28, 36, Some(2))]
    );
    let plan = plan_queues(Some(&vec![1, 2]), 3, 36, &initial);
    assert_eq!(plan.queues[0].initial_rx, Vec::<u32>::new());
    assert_eq!(plan.queues[1].initial_rx, (16..26).collect::<Vec<u32>>());
    assert_eq!(plan.queues[2].initial_rx, (26..36).collect::<Vec<u32>>());
    for id in 16..36 {
        let owner = plan
            .queues
            .iter()
            .find(|q| q.range.start <= id && id < q.range.end)
            .unwrap();
        assert_eq!(plan.queues[0].range.send_if_remote(id), owner.range.active_index);
    }
}

#[test]
fn restart_leaves_used_buffers_alone() {
    let mut state = active();
    state.rx_bufs.allocate(vec![20]).unwrap();
    let nic = OpenNic {
        workers: vec![Some(WorkerState::Ready(ReadyState {
            buffers: buffers(),
            state,
        }))],
        num_queues: 1,
    };
    let free = find_free_rx(&nic, 0x200);
    assert!(!free.contains(&20));
    assert_eq!(free.len(), 0x200 - 16 - 1);
    assert_eq!(restart_queues(&nic).unwrap().queues.len(), 1);
    let nic = OpenNic {
        workers: vec![Some(WorkerState::Init(None))],
        num_queues: 1,
    };
    assert!(restart_queues(&nic).is_none());
}

#[test]
fn coordinator_follows_events() {
    let mut c = Coordinator {
        restart: false,
        timer: None,
        pending_vf_state: PendingVfState::Ready,
    };
    let mut primary = Some(PrimaryStatus {
        guest_vf_state: PrimaryChannelGuestVfState::Unavailable,
        pending_link_action: PendingLinkAction::Default,
    });
    c.process(&mut primary, CoordinatorEvent::RestartRequired);
    assert!(c.restart);
    c.process(&mut primary, CoordinatorEvent::LinkStatusNotify(false));
    assert_eq!(
        primary.unwrap().pending_link_action,
        PendingLinkAction::Active(false)
    );
    assert_eq!(
        c.process(&mut primary, CoordinatorEvent::ChannelDisconnected),
        CoordinatorAction::Exit
    );
    assert_eq!(wait_mode(true, PendingVfState::Pending), WaitMode::VfChange);
    assert_eq!(
        wait_mode(false, PendingVfState::Ready),
        WaitMode::Any {
            vf: false,
            offer: false
        }
    );
}

#[test]
fn channels_open_and_close() {
    let mut c = Channels::new(4);
    c.open(0, 1, true);
    assert_eq!(c.num_opened, 1);
    let coordinator = c.coordinator.as_mut().unwrap();
    assert!(coordinator.running && coordinator.slots[0].open);
    coordinator.num_queues = 3;
    coordinator.has_buffers = true;
    c.open(1, 2, true);
    assert!(c.coordinator.as_ref().unwrap().slots[0].running);
    // The last channel stops the primary one, so that it can be told.
    c.open(2, 3, true);
    let coordinator = c.coordinator.as_ref().unwrap();
    assert!(!coordinator.slots[0].running && coordinator.slots[2].running);
    assert!(!c.close(2));
    assert_eq!(c.num_opened, 2);
    assert!(!c.coordinator.as_ref().unwrap().slots[2].open);
    assert!(c.close(0));
    assert!(c.coordinator.is_none());
    assert!(!c.close(1));
}

#[test]
fn primary_that_cannot_open_leaves_nothing() {
    let mut c = Channels::new(4);
    c.open(0, 1, false);
    assert!(c.coordinator.is_none());
    assert_eq!(c.num_opened, 1);
}

#[test]
fn retargeted_queue_is_told() {
    let mut c = Channels::new(2);
    c.open(0, 1, true);
    c.coordinator.as_mut().unwrap().slots[0].queue = Some(true);
    c.retarget_vp(0, 9);
    let slot = c.coordinator.as_ref().unwrap().slots[0];
    assert_eq!(slot.target_vp, 9);
    assert_eq!(slot.queue, Some(false));
    assert_eq!(worker_step(WorkerPhase::Ready, 0, &slot), WorkerStep::UpdateTargetVp);
}

#[test]
fn workers_know_what_comes_next() {
    let slot = ChannelSlot {
        open: true,
        running: true,
        target_vp: VP_INDEX_DISABLE_INTERRUPT,
        queue: Some(false),
    };
    assert_eq!(worker_step(WorkerPhase::Init, 0, &slot), WorkerStep::Initialize);
    assert_eq!(worker_step(WorkerPhase::Init, 1, &slot), WorkerStep::WaitForStop);
    assert_eq!(worker_step(WorkerPhase::Ready, 1, &slot), WorkerStep::Run);
    let none = ChannelSlot { queue: None, ..slot };
    assert_eq!(worker_step(WorkerPhase::Ready, 1, &none), WorkerStep::WaitForStop);
    assert_eq!(
        after_run(0, Ok(CoordinatorMessage::Restart)),
        AfterRun::Send(CoordinatorMessage::Restart)
    );
    assert_eq!(
        after_run(1, Err(WorkerError::EndpointRequiresQueueRestart)),
        AfterRun::Restart
    );
    assert_eq!(
        after_run(1, Err(WorkerError::BufferRevoked)),
        AfterRun::Fail(WorkerError::BufferRevoked)
    );
}
