use openvmm::gdma::bnic::{
    zero_response, BasicNic, BnicAction, BnicConfig, BnicReply, QueuePair,
};
use openvmm::gdma::device::{
    reg_map, ByteRange, GdmaDevice, HwcQueues, RegWrite, SmcError, SmcRequest, DB_CQ, DB_EQ, DB_RQ,
    DB_RQ_CLIENT_DATA, DB_SQ, DOORBELLS_START, SHMEM_START,
};
use openvmm::gdma::hwc::{
    complete, max_resources_resp, Completion, GdmaDevId, GdmaRegisterDeviceResp, GdmaReqHdr,
    HwControl, HwState, HwcError, HwcReply, HwcRequest, InitEvent, QueueLimits, Route,
};
use openvmm::gdma::slots::{DmaRegion, Segment};
use openvmm::gdma::txrx::{
    completes_at_once, post_tx_completion, post_tx_completion_error, process_sqe, write_data,
    GuestBuffers, L4Protocol, RxChecksumState, RxMetadata, Sqe, SqeOutcome,
};
use openvmm::gdma_defs::bnic::{
    BasicNicDriverFlags, GdmaQueueType, ManaQueryDeviceCfgResp, ManaTxShortOob, Tristate,
    GDMA_CQ, GDMA_EQ, GDMA_RQ, GDMA_SQ, MANA_CONFIG_VPORT_RX, MANA_CREATE_WQ_OBJ,
    MANA_DESTROY_WQ_OBJ, MANA_FENCE_RQ, MANA_QUERY_DEV_CONFIG, MANA_QUERY_VPORT_CONFIG,
    MANA_VTL2_ASSIGN_SERIAL_NUMBER, MANA_VTL2_MOVE_FILTER, MANA_VTL2_QUERY_FILTER_STATE,
};
use openvmm::mana_driver::bnic_driver::{
    wq_obj_created, BnicDriver, MessageVersions, Resource, RxConfig, WqConfig,
};

const BNIC: GdmaDevId = GdmaDevId { ty: 2, instance: 1 };

const LIMITS: QueueLimits = QueueLimits {
    max_sq: 64,
    max_rq: 64,
    max_cq: 128,
    max_eq: 64,
};

fn nic(speed: u32) -> BasicNic {
    BasicNic::new(
        &vec![[1, 2, 3, 4, 5, 6], [7, 8, 9, 10, 11, 12]],
        BnicConfig {
            adapter_link_speed_mbps: speed,
        },
    )
}

fn region(length: u64) -> DmaRegion {
    DmaRegion::new(vec![0x1000, 0x2000], 0, length).unwrap()
}

fn driver() -> BnicDriver<()> {
    BnicDriver::new((), BNIC)
}

fn wq_config(wq: u64, cq: u64) -> WqConfig {
    WqConfig {
        wq_gdma_region: wq,
        cq_gdma_region: cq,
        wq_size: 0x1000,
        cq_size: 0x2000,
        cq_moderation_ctx_id: 3,
        eq_id: 9,
    }
}

fn refused(r: Result<BnicReply, HwcError>) -> HwcError {
    match r {
        Ok(_) => panic!("the request is refused"),
        Err(err) => err,
    }
}

#[test]
fn regions_must_lie_in_their_pages() {
    assert!(DmaRegion::new(vec![0x1000], 0, 4096).is_some());
    assert!(DmaRegion::new(vec![0x1000], 1, 4096).is_none());
    assert!(DmaRegion::new(vec![0x1000, 0x2000], 1, 4096).is_some());
    assert!(DmaRegion::new(vec![], 0, 1).is_none());
}

#[test]
fn handles_are_given_back_and_handed_out_again() {
    let mut s = HwState::new();
    assert_eq!(s.add_dma_region(region(0x1000)), 1);
    assert_eq!(s.add_dma_region(region(0x2000)), 2);
    assert_eq!(s.add_dma_region(region(0x800)), 3);
    assert_eq!(s.get_dma_region(2, 0x2000).unwrap().length, 0x2000);
    assert_eq!(s.get_dma_region(2, 0x2000).unwrap().pages, vec![0x1000, 0x2000]);
    assert_eq!(s.get_dma_region(2, 0x1000).err(), Some(HwcError::DmaRegionSize));
    assert_eq!(s.get_dma_region(0, 0x1000).err(), Some(HwcError::DmaRegionNotFound));
    assert_eq!(s.remove_dma_region(1), Ok(()));
    assert_eq!(s.remove_dma_region(2), Ok(()));
    assert_eq!(s.remove_dma_region(2), Err(HwcError::DmaRegionNotFound));
    assert_eq!(s.get_dma_region(2, 0x2000).err(), Some(HwcError::DmaRegionNotFound));
    assert_eq!(s.get_dma_region(3, 0x800).unwrap().length, 0x800);
    assert_eq!(s.add_dma_region(region(0x10)), 2);
    assert_eq!(s.add_dma_region(region(0x20)), 1);
    assert_eq!(s.add_dma_region(region(0x30)), 4);
}

#[test]
fn channel_tells_its_queues() {
    let (c, events) = HwControl::new(0x10001, 2, 3, 4, 128);
    assert_eq!((c.eq_id, c.cq_id, c.rq_id, c.sq_id), (0x10001, 2, 3, 4));
    assert_eq!(events.len(), 11);
    assert_eq!(events[0], InitEvent::EqIdDb { eq_id: 1, doorbell: 0 });
    assert_eq!(events[1], InitEvent::Data { ty: 1, value: 2 });
    assert_eq!(events[7], InitEvent::Data { ty: 7, value: 128 });
    assert_eq!(events[10], InitEvent::Done);
}

#[test]
fn requests_are_checked_and_routed() {
    let (mut c, _) = HwControl::new(1, 2, 3, 4, 128);
    let hdr = GdmaReqHdr {
        msg_type: 1,
        req_msg_size: 40,
        resp_msg_size: 32,
        dev_id: BNIC,
        activity_id: 0,
    };
    assert_eq!(c.check_request(2, 4, &hdr), Ok(()));
    assert_eq!(c.check_request(3, 4, &hdr), Err(HwcError::MismatchedCq));
    assert_eq!(c.check_request(2, 3, &hdr), Err(HwcError::MismatchedSq));
    let large = GdmaReqHdr { req_msg_size: 4097, ..hdr };
    assert_eq!(c.check_request(2, 4, &large), Err(HwcError::RequestTooLarge));
    let large = GdmaReqHdr { resp_msg_size: 4097, ..hdr };
    assert_eq!(c.check_request(2, 4, &large), Err(HwcError::ResponseTooLarge));
    let small = GdmaReqHdr { req_msg_size: 39, ..hdr };
    assert_eq!(c.check_request(2, 4, &small), Err(HwcError::Access));

    let nic = GdmaReqHdr { msg_type: MANA_QUERY_DEV_CONFIG, ..hdr };
    assert_eq!(c.route(&hdr), Route::Hwc);
    assert_eq!(c.route(&nic), Route::Unknown);
    c.handle_req(BNIC, LIMITS, HwcRequest::RegisterDevice).unwrap();
    assert_eq!(c.route(&nic), Route::Bnic);

    assert_eq!(complete(Ok(8)), Completion { status: 0, data_size: 40 });
    assert_eq!(
        complete(Err(HwcError::Access)),
        Completion { status: 1, data_size: 32 }
    );
}

#[test]
fn devices_are_enabled_once() {
    let (mut c, _) = HwControl::new(1, 2, 3, 4, 128);
    let other = GdmaDevId { ty: 3, instance: 1 };
    assert_eq!(
        c.handle_req(other, LIMITS, HwcRequest::RegisterDevice).err(),
        Some(HwcError::InvalidDevice)
    );
    assert_eq!(
        c.handle_req(BNIC, LIMITS, HwcRequest::DeregisterDevice).err(),
        Some(HwcError::NotEnabled)
    );
    assert!(matches!(
        c.handle_req(BNIC, LIMITS, HwcRequest::RegisterDevice),
        Ok(HwcReply::Registered(GdmaRegisterDeviceResp { pdid: 0, gpa_mkey: 0, db_id: 0 }))
    ));
    assert_eq!(
        c.handle_req(BNIC, LIMITS, HwcRequest::RegisterDevice).err(),
        Some(HwcError::AlreadyEnabled)
    );
    assert!(matches!(
        c.handle_req(BNIC, LIMITS, HwcRequest::DeregisterDevice),
        Ok(HwcReply::Done)
    ));
    assert!(!c.bnic_enabled);
}

#[test]
fn device_tells_what_it_has() {
    let (mut c, _) = HwControl::new(1, 2, 3, 4, 128);
    match c.handle_req(BNIC, LIMITS, HwcRequest::QueryMaxResources) {
        Ok(HwcReply::MaxResources(r)) => {
            assert_eq!((r.max_sq, r.max_rq, r.max_cq, r.max_eq), (64, 64, 128, 64));
            assert_eq!((r.status, r.max_db, r.max_mst, r.max_msix), (0, 1, 1, 64));
            assert_eq!((r.max_cq_mod_ctx, r.max_mod_cq), (0, 0));
            assert_eq!(r, max_resources_resp(LIMITS));
        }
        _ => panic!("the limits are known"),
    }
    match c.handle_req(BNIC, LIMITS, HwcRequest::ListDevices) {
        Ok(HwcReply::Devices(r)) => {
            assert_eq!(r.num_of_devs, 2);
            assert_eq!(r.dev0, GdmaDevId { ty: 1, instance: 0 });
            assert_eq!(r.dev1, BNIC);
        }
        _ => panic!("the devices are known"),
    }
    let req = HwcRequest::VerifyVfDriverVersion { protocol_ver_min: 1 };
    match c.handle_req(BNIC, LIMITS, req) {
        Ok(HwcReply::VerifyVer(r)) => {
            assert_eq!(r.gdma_protocol_ver, 1);
            assert_eq!(r.pf_cap_flags1 | r.pf_cap_flags2 | r.pf_cap_flags3 | r.pf_cap_flags4, 0);
        }
        _ => panic!("the version is known"),
    }
    assert!(matches!(
        c.handle_req(BNIC, LIMITS, HwcRequest::GenerateTestEqe { queue_index: 5 }),
        Ok(HwcReply::PostTestEvent { queue_index: 5 })
    ));
    assert_eq!(
        c.handle_req(BNIC, LIMITS, HwcRequest::Unsupported).err(),
        Some(HwcError::UnsupportedMessage)
    );
}

#[test]
fn register_map_tells_where_things_are() {
    let r = reg_map();
    assert_eq!(
        (r.major_version_number, r.minor_version_number, r.micro_version_number),
        (1, 0, 1)
    );
    assert_eq!(r.vf_db_pages_zone_offset, DOORBELLS_START as u64);
    assert_eq!(r.vf_db_page_sz, 4096);
    assert_eq!(r.vf_gdma_sriov_shared_reg_start, SHMEM_START as u64);
    assert_eq!(r.vf_gdma_sriov_shared_sz, 32);
}

#[test]
fn failed_requests_leave_zeros() {
    let (c, _) = HwControl::new(1, 2, 3, 4, 128);
    let mut n = nic(0);
    let mut room = vec![0xff; 32];
    assert_eq!(
        n.respond(&c.state, MANA_QUERY_VPORT_CONFIG, &[], &mut room).err(),
        n.handle_req(&c.state, MANA_QUERY_VPORT_CONFIG, &[], 32).err()
    );
    assert_eq!(room, vec![0; 32]);
    assert_eq!(zero_response(3), vec![0; 3]);
    // A request that is handled fills the room with its response.
    let req = driver().query_dev_config();
    let mut room = vec![0xff; 48];
    n.respond(&c.state, req.msg_type, &req.payload, &mut room).unwrap();
    let reply = n.handle_req(&c.state, req.msg_type, &req.payload, 48).unwrap();
    assert_eq!(room, reply.response);
}

#[test]
fn queues_take_their_regions() {
    let (mut c, _) = HwControl::new(1, 2, 3, 4, 128);
    let create = |pages: Option<Vec<u64>>, count: u32, listed: u32, length: u64| {
        HwcRequest::CreateDmaRegion {
            page_count: count,
            page_addr_list_len: listed,
            pages,
            offset_in_page: 0,
            length,
        }
    };
    assert_eq!(
        c.handle_req(BNIC, LIMITS, create(Some(vec![1]), 2, 1, 4096)).err(),
        Some(HwcError::LargeRegion)
    );
    assert_eq!(
        c.handle_req(BNIC, LIMITS, create(None, 1, 1, 4096)).err(),
        Some(HwcError::Access)
    );
    assert_eq!(
        c.handle_req(BNIC, LIMITS, create(Some(vec![0x5000]), 1, 1, 4097)).err(),
        Some(HwcError::BadRegion)
    );
    let handle = match c.handle_req(BNIC, LIMITS, create(Some(vec![0x5000]), 1, 1, 4096)) {
        Ok(HwcReply::DmaRegion { gdma_region }) => gdma_region,
        _ => panic!("the region is created"),
    };
    let queue = |ty: u32, size: u32| HwcRequest::CreateQueue {
        queue_type: GdmaQueueType(ty),
        gdma_region: handle,
        queue_size: size,
        eq_pci_msix_index: 6,
    };
    assert_eq!(
        c.handle_req(BNIC, LIMITS, queue(GDMA_CQ, 4096)).err(),
        Some(HwcError::UnsupportedQueueType)
    );
    assert_eq!(
        c.handle_req(BNIC, LIMITS, queue(GDMA_EQ, 8192)).err(),
        Some(HwcError::DmaRegionSize)
    );
    match c.handle_req(BNIC, LIMITS, queue(GDMA_EQ, 4096)) {
        Ok(HwcReply::AllocEq { region, msix, gdma_region }) => {
            assert_eq!(region.pages, vec![0x5000]);
            assert_eq!((msix, gdma_region), (6, handle));
        }
        _ => panic!("the queue is allocated"),
    }
    assert_eq!(c.finish_create_queue(handle, None, true), Err(HwcError::QueueAlloc));
    assert_eq!(c.finish_create_queue(handle, Some(7), false), Err(HwcError::Write));
    assert_eq!(c.finish_create_queue(handle, Some(7), true), Ok(7));
    assert_eq!(
        c.handle_req(BNIC, LIMITS, queue(GDMA_EQ, 4096)).err(),
        Some(HwcError::DmaRegionNotFound)
    );
    assert!(matches!(
        c.handle_req(
            BNIC,
            LIMITS,
            HwcRequest::DisableQueue {
                queue_type: GdmaQueueType(GDMA_EQ),
                queue_index: 7,
            }
        ),
        Ok(HwcReply::FreeEq { queue_index: 7 })
    ));
}

#[test]
fn configured_link_speed_is_reported() {
    let req = driver().query_dev_config();
    assert_eq!(req.msg_type, MANA_QUERY_DEV_CONFIG);
    assert_eq!(
        req.versions,
        Some(MessageVersions { req: 1, resp: 4 })
    );
    let state = HwState::new();
    let reply = nic(100_000)
        .handle_req(&state, req.msg_type, &req.payload, 48)
        .unwrap();
    assert_eq!(reply.response.len(), 48);
    assert_eq!(&reply.response[44..48], &100_000u32.to_le_bytes());
    assert_eq!(&reply.response[32..34], &2u16.to_le_bytes());
    // No speed is configured unless it is set.
    assert_eq!(BnicConfig::default().adapter_link_speed_mbps, 0);
    // An older driver has no room for the speed.
    let reply = nic(100_000)
        .handle_req(&state, req.msg_type, &req.payload, 40)
        .unwrap();
    assert_eq!(reply.response.len(), 40);
}

#[test]
fn link_speed_has_a_fallback() {
    let mut config = ManaQueryDeviceCfgResp {
        pf_cap_flags1: BasicNicDriverFlags::new().with_query_filter_state(1),
        pf_cap_flags2: 0,
        pf_cap_flags3: 0,
        pf_cap_flags4: 0,
        max_num_vports: 1,
        reserved: 0,
        max_num_eqs: 64,
        adapter_mtu: 0,
        reserved2: 0,
        adapter_link_speed_mbps: 0,
    };
    assert_eq!(config.link_speed_bps(), 200_000_000_000);
    config.adapter_link_speed_mbps = 40_000;
    assert_eq!(config.link_speed_bps(), 40_000_000_000);
    assert!(config.cap_filter_state_query());
    assert!(!config.cap_query_link_status());
    assert!(!config.cap_ethertype_enforcement());
}

#[test]
fn ports_tell_their_address() {
    let mut n = nic(0);
    let state = HwState::new();
    let req = driver().query_vport_config(1);
    assert_eq!(req.msg_type, MANA_QUERY_VPORT_CONFIG);
    let r = n.handle_req(&state, req.msg_type, &req.payload, 32).unwrap();
    assert_eq!(&r.response[16..22], &[7, 8, 9, 10, 11, 12]);
    assert_eq!(&r.response[24..32], &1u64.to_le_bytes());
    let req = driver().query_vport_config(2);
    assert_eq!(
        refused(n.handle_req(&state, req.msg_type, &req.payload, 32)),
        HwcError::InvalidVport
    );
    assert_eq!(
        refused(n.handle_req(&state, MANA_QUERY_VPORT_CONFIG, &[], 32)),
        HwcError::Access
    );
    let req = driver().query_vport_config(1);
    assert_eq!(
        refused(n.handle_req(&state, req.msg_type, &req.payload, 8)),
        HwcError::Write
    );
    assert_eq!(
        refused(n.handle_req(&state, MANA_FENCE_RQ, &[0; 8], 8)),
        HwcError::UnsupportedMessage
    );
}

#[test]
fn serial_numbers_and_filters() {
    let mut n = nic(0);
    let state = HwState::new();
    let req = driver().set_vport_serial_no(1, 77);
    assert_eq!(req.msg_type, MANA_VTL2_ASSIGN_SERIAL_NUMBER);
    n.handle_req(&state, req.msg_type, &req.payload, 0).unwrap();
    assert_eq!(n.vports[1].serial_no, 77);
    assert_eq!(n.vports[0].serial_no, 0);
    let req = driver().query_filter_state(0);
    assert_eq!(req.msg_type, MANA_VTL2_QUERY_FILTER_STATE);
    let r = n.handle_req(&state, req.msg_type, &req.payload, 8).unwrap();
    assert_eq!(r.response, vec![0; 8]);
    let req = driver().move_vport_filter(3, 1);
    assert_eq!(req.msg_type, MANA_VTL2_MOVE_FILTER);
    assert_eq!(req.versions, Some(MessageVersions { req: 2, resp: 1 }));
    assert_eq!(req.payload, [3, 0, 0, 0, 0, 0, 0, 0, 1, 0, 0, 0, 0, 0, 0, 0]);
}

#[test]
fn queues_live_from_creation_to_destruction() {
    let mut n = nic(0);
    let mut state = HwState::new();
    let wq = state.add_dma_region(region(0x1000));
    let cq = state.add_dma_region(region(0x2000));
    let config = wq_config(wq, cq);
    let rx = RxConfig {
        rx_enable: Some(true),
        rss_enable: Some(false),
        hash_key: None,
        default_rxobj: None,
        indirection_table: None,
    };
    // Receiving needs both queues.
    let req = driver().config_vport_rx(0, &rx);
    assert_eq!(req.msg_type, MANA_CONFIG_VPORT_RX);
    assert_eq!(
        refused(n.handle_req(&state, req.msg_type, &req.payload, 0)),
        HwcError::QueuesNotConfigured
    );
    let req = driver().create_wq_obj(0, GdmaQueueType(GDMA_CQ), &config);
    assert_eq!(
        refused(n.handle_req(&state, req.msg_type, &req.payload, 16)),
        HwcError::UnsupportedQueueType
    );
    let req = driver().create_wq_obj(0, GdmaQueueType(GDMA_SQ), &config);
    assert_eq!(req.msg_type, MANA_CREATE_WQ_OBJ);
    let r = n.handle_req(&state, req.msg_type, &req.payload, 16).unwrap();
    assert_eq!(
        r.action,
        BnicAction::AllocQueues {
            vport: 0,
            is_send: true,
            wq_gdma_region: wq,
            cq_gdma_region: cq,
            cq_parent_qid: 9,
        }
    );
    let tx = QueuePair { wq_id: 5, cq_id: 6 };
    let resp = n
        .finish_create_wq(&mut state, 0, true, wq, cq, Some(tx), 16)
        .unwrap();
    assert_eq!(resp, [5, 0, 0, 0, 6, 0, 0, 0, 0, 0, 0, 0, 0, 0, 0, 0]);
    assert_eq!(n.vports[0].tx, Some(tx));
    assert!(state.get_dma_region(wq, 0x1000).is_err());
    assert_eq!(
        refused(n.handle_req(&state, req.msg_type, &req.payload, 16)),
        HwcError::QueueExists
    );

    let wq = state.add_dma_region(region(0x1000));
    let cq = state.add_dma_region(region(0x2000));
    let rq = QueuePair { wq_id: 7, cq_id: 8 };
    n.finish_create_wq(&mut state, 0, false, wq, cq, Some(rq), 16)
        .unwrap();
    let req = driver().config_vport_rx(0, &rx);
    let r = n.handle_req(&state, req.msg_type, &req.payload, 0).unwrap();
    assert_eq!(r.action, BnicAction::StartTask { vport: 0, tx, rx: rq });
    assert_eq!(n.task_started(0, false), Err(HwcError::Endpoint));
    assert!(!n.vports[0].task_running);
    assert_eq!(n.task_started(0, true), Ok(()));

    let req = driver().destroy_wq_obj(GdmaQueueType(GDMA_SQ), 0);
    assert_eq!(req.msg_type, MANA_DESTROY_WQ_OBJ);
    assert_eq!(
        refused(n.handle_req(&state, req.msg_type, &req.payload, 0)),
        HwcError::QueueInUse
    );
    let off = RxConfig { rx_enable: Some(false), ..rx };
    let stop = driver().config_vport_rx(0, &off);
    let r = n.handle_req(&state, stop.msg_type, &stop.payload, 0).unwrap();
    assert_eq!(r.action, BnicAction::StopTask { vport: 0 });
    let r = n.handle_req(&state, req.msg_type, &req.payload, 0).unwrap();
    assert_eq!(r.action, BnicAction::FreeQueues { is_send: true, queues: tx });
    assert_eq!(
        refused(n.handle_req(&state, req.msg_type, &req.payload, 0)),
        HwcError::NoQueue
    );
}

#[test]
fn steering_request_is_laid_out() {
    let req = driver().config_vport_rx(
        4,
        &RxConfig {
            rx_enable: Some(true),
            rss_enable: None,
            hash_key: Some([9; 40]),
            default_rxobj: Some(11),
            indirection_table: Some(vec![21, 22]),
        },
    );
    let p = &req.payload;
    assert_eq!(p.len(), 72 + 128 * 8);
    assert_eq!(&p[..8], &4u64.to_le_bytes());
    assert_eq!(&p[8..10], &2u16.to_le_bytes());
    assert_eq!(&p[10..12], &112u16.to_le_bytes());
    assert_eq!(&p[12..16], &1u32.to_le_bytes());
    assert_eq!(&p[16..20], &u32::MAX.to_le_bytes());
    assert_eq!(&p[20..24], &[1, 1, 1, 0]);
    assert_eq!(&p[24..32], &11u64.to_le_bytes());
    assert_eq!(&p[32..72], &[9; 40]);
    assert_eq!(&p[72..80], &21u64.to_le_bytes());
    assert_eq!(&p[80..88], &22u64.to_le_bytes());
    assert_eq!(&p[88..96], &[0; 8]);
    assert_eq!(Tristate::from(Some(false)), Tristate(0));
}

#[test]
fn created_queues_own_their_regions() {
    let config = wq_config(1, 2);
    let dma = |gdma_region: u64| Resource::DmaRegion {
        dev_id: BNIC,
        gdma_region,
    };
    let r = wq_obj_created(
        vec![dma(1), dma(2), dma(3)],
        BNIC,
        GdmaQueueType(GDMA_RQ),
        &config,
        40,
    );
    assert_eq!(
        r,
        vec![
            dma(3),
            Resource::BnicQueue {
                dev_id: BNIC,
                wq_type: GdmaQueueType(GDMA_RQ),
                wq_obj: 40,
            }
        ]
    );
}

#[test]
fn registers_and_doorbells() {
    let mut d = GdmaDevice::new((0..SHMEM_START as u8).collect());
    assert_eq!(d.read_reg(4, 4, false), vec![4, 5, 6, 7]);
    assert_eq!(d.read_reg(SHMEM_START, 4, false), vec![0; 4]);
    assert_eq!(d.read_reg(SHMEM_START - 2, 4, false), vec![255; 4]);
    let data = 0x1122_3344_5566_7788u64.to_le_bytes();
    let mut ring = |offset: usize| d.write_reg(DOORBELLS_START + offset, &data);
    assert_eq!(ring(DB_SQ), RegWrite::DoorbellSq(0x1122_3344_5566_7788));
    assert_eq!(ring(DB_RQ), RegWrite::DoorbellRq(0x1122_3344_5566_7788));
    assert_eq!(ring(DB_CQ), RegWrite::DoorbellCq(0x1122_3344_5566_7788));
    assert_eq!(ring(DB_EQ), RegWrite::DoorbellEq(0x1122_3344_5566_7788));
    assert_eq!(ring(DB_RQ_CLIENT_DATA), RegWrite::Done);
    assert_eq!(ring(8), RegWrite::Bad);
    assert_eq!(d.write_reg(DOORBELLS_START, &data[..4]), RegWrite::Bad);
    assert_eq!(d.write_reg(0, &data), RegWrite::Bad);
    let r = ByteRange { start: 2, end: 4 };
    assert!(r.contains_range(&ByteRange { start: 2, end: 4 }));
    assert!(!r.contains_range(&ByteRange { start: 2, end: 5 }));
}

#[test]
fn channel_is_established_and_destroyed() {
    let mut d = GdmaDevice::new(vec![0; SHMEM_START]);
    let mut msg = [0u8; 32];
    msg[0] = 0x10; // event queue
    msg[6] = 0x20; // completion queue
    msg[12] = 0x30; // receive queue
    msg[18] = 0x40; // send queue
    msg[24] = 0x01; // high bits of the event queue
    msg[26] = 5; // interrupt
    msg[28] = 1;
    assert_eq!(
        d.write_reg(SHMEM_START, &msg),
        RegWrite::EstablishHwc(HwcQueues {
            eq_gpa: 0x1000_0000_0001_0000,
            cq_gpa: 0x20000,
            rq_gpa: 0x30000,
            sq_gpa: 0x40000,
            msix: 5,
        })
    );
    d.finish_establish(Ok(()));
    assert!(d.hwc_active);
    assert_eq!(d.shmem[28..30], [129, 0]);
    assert_eq!(d.handle_smc(), Err(SmcError::RequestIsResponse));
    // A second channel is refused.
    msg[28] = 1;
    assert_eq!(d.write_reg(SHMEM_START, &msg), RegWrite::Done);
    assert_eq!(d.shmem[28..30], [129, 1]);
    // The channel is destroyed once it has stopped.
    msg[28] = 2;
    assert_eq!(d.write_reg(SHMEM_START, &msg), RegWrite::StopHwc);
    assert_eq!(d.read_reg(SHMEM_START + 28, 2, false), vec![2, 0]);
    assert!(d.hwc_active);
    assert_eq!(d.read_reg(SHMEM_START + 28, 2, true), vec![130, 0]);
    assert!(!d.hwc_active && !d.destroying_hwc);
}

#[test]
fn shared_memory_messages_are_checked() {
    let mut d = GdmaDevice::new(vec![0; SHMEM_START]);
    // A write that does not reach the last word sends nothing.
    assert_eq!(d.write_shmem(0, &[1; 27]), RegWrite::Done);
    assert_eq!(d.shmem[28], 0);
    d.shmem[28] = 1 + 8;
    assert_eq!(d.handle_smc(), Err(SmcError::UnsupportedVersion));
    d.shmem[28] = 4;
    assert_eq!(d.handle_smc(), Err(SmcError::UnsupportedVersion));
    d.shmem[28] = 4 + 8;
    assert_eq!(d.handle_smc(), Ok(SmcRequest::ReportTimeout));
    d.shmem[28] = 2;
    assert_eq!(d.handle_smc(), Ok(SmcRequest::Destroy));
    d.shmem[28] = 3;
    assert_eq!(d.handle_smc(), Err(SmcError::UnsupportedRequest(3)));
    d.hwc_active = true;
    d.shmem[28] = 1;
    assert_eq!(d.handle_smc(), Err(SmcError::HwcAlreadyActive));
    d.hwc_active = false;
    assert!(matches!(d.handle_smc(), Ok(SmcRequest::Establish(_))));
    d.finish_establish(Err(SmcError::QueueAlloc));
    assert!(!d.hwc_active);
    assert_eq!(d.shmem[29], 1);
}

fn sqe(lens: &[u32], lso: bool) -> Sqe {
    // Outer IPv4, TCP checksum, transport header at 34.
    let oob: u64 = (1 << 2) | (1 << 5) | (34 << 32);
    assert!(ManaTxShortOob(oob).is_outer_ipv4());
    assert!(ManaTxShortOob(oob).comp_tcp_csum());
    assert_eq!(ManaTxShortOob(oob).trans_off(), 34);
    Sqe {
        oob: oob.to_le_bytes().to_vec(),
        sgl: lens.iter().map(|&len| Segment { gpa: 0x1000, len }).collect(),
        client_oob_in_sgl: lso,
        gd_client_unit_data: 1460,
    }
}

#[test]
fn packets_are_transmitted() {
    match process_sqe(&sqe(&[54, 1000], false)).unwrap() {
        SqeOutcome::Transmit(m) => {
            assert_eq!((m.segment_count, m.len), (2, 1054));
            assert!(m.is_ipv4 && !m.is_ipv6 && m.offload_tcp_checksum);
            assert!(!m.offload_tcp_segmentation && !m.offload_udp_checksum);
            assert_eq!((m.l2_len, m.l3_len, m.l4_len), (14, 20, 0));
            assert_eq!(m.max_tcp_segment_size, 0);
        }
        SqeOutcome::Error => panic!("the packet is sent"),
    }
    assert_eq!(process_sqe(&sqe(&[], false)), Err(HwcError::Access));
    let mut short = sqe(&[54], false);
    short.oob.truncate(4);
    assert_eq!(process_sqe(&short), Err(HwcError::Access));
}

#[test]
fn segmentation_needs_a_header_of_its_own() {
    match process_sqe(&sqe(&[54, 1000], true)).unwrap() {
        SqeOutcome::Transmit(m) => {
            assert!(m.offload_tcp_segmentation);
            assert_eq!((m.l4_len, m.max_tcp_segment_size), (20, 1460));
        }
        SqeOutcome::Error => panic!("the packet is sent"),
    }
    assert_eq!(process_sqe(&sqe(&[1054], true)), Ok(SqeOutcome::Error));
    assert_eq!(process_sqe(&sqe(&[257, 1000], true)), Ok(SqeOutcome::Error));
    assert!(matches!(
        process_sqe(&sqe(&[256, 1000], true)),
        Ok(SqeOutcome::Transmit(_))
    ));
}

#[test]
fn transmissions_are_completed() {
    let ok = post_tx_completion();
    assert_eq!(ok.len(), 60);
    assert_eq!(ok[0], 32 + 64);
    let bad = post_tx_completion_error();
    assert_eq!(bad[0], 42 + 64);
    assert!(completes_at_once(true, 2));
    assert!(!completes_at_once(false, 2));
}

#[test]
fn buffers_are_filled_and_given_back() {
    let mut b = GuestBuffers::new();
    assert!(b.wants_rqe());
    let sgl = |len: u32| vec![Segment { gpa: 0x1000, len }, Segment { gpa: 0x9000, len: 100 }];
    assert_eq!(b.process_rqe(sgl(50), 3), 0);
    assert_eq!(b.process_rqe(sgl(60), 4), 1);
    assert_eq!(b.rx_buf_count, 2);
    assert_eq!((b.capacity(0), b.capacity(1)), (150, 160));
    assert_eq!(b.guest_addresses(1), sgl(60));
    b.write_header(
        1,
        &RxMetadata {
            len: 70,
            ip_checksum: RxChecksumState::Good,
            l4_protocol: L4Protocol::Udp,
            l4_checksum: RxChecksumState::Bad,
        },
    );
    let oob = b.process_rx(1).unwrap();
    assert_eq!(oob.len(), 60);
    assert_eq!(oob[0], 1 + 64);
    assert_eq!(&oob[8..10], &70u16.to_le_bytes());
    assert_eq!(&oob[56..60], &4u32.to_le_bytes());
    let flags = u32::from_le_bytes([oob[4], oob[5], oob[6], oob[7]]);
    let flags = openvmm::gdma_defs::bnic::ManaRxcompOobFlags(flags);
    assert!(flags.rx_iphdr_csum_succeed() && flags.rx_udp_csum_fail());
    assert!(!flags.rx_iphdr_csum_fail() && !flags.rx_udp_csum_succeed());
    assert_eq!(b.rx_buf_count, 1);
    assert_eq!(b.process_rx(1), Err(HwcError::NoQueue));
    assert_eq!(b.process_rqe(sgl(10), 5), 1);
}

#[test]
fn received_data_is_scattered() {
    let segments = vec![
        Segment { gpa: 0x1000, len: 3 },
        Segment { gpa: 0x9000, len: 10 },
        Segment { gpa: 0xa000, len: 10 },
    ];
    let w = write_data(&segments, &[1, 2, 3, 4, 5]);
    assert_eq!(w.len(), 2);
    assert_eq!((w[0].gpa, &w[0].data[..]), (0x1000, &[1, 2, 3][..]));
    assert_eq!((w[1].gpa, &w[1].data[..]), (0x9000, &[4, 5][..]));
}
