//! The requests of the driver to the basic NIC.
use crate::gdma::hwc::GdmaDevId;
use crate::gdma_defs::bnic::{
    GdmaQueueType, ManaCfgRxSteerReq, ManaConfigVportReq, ManaCreateWqobjReq, ManaDestroyWqobjReq,
    ManaMoveFilterVTL2PrivilegedReq, ManaQueryDeviceCfgReq, ManaQueryFilterStateReq,
    ManaQueryStatisticsRequest, ManaQueryVportCfgReq, ManaSetVportSerialNo, Tristate,
    MANA_CONFIG_VPORT_RX, MANA_CONFIG_VPORT_TX, MANA_CREATE_WQ_OBJ, MANA_DESTROY_WQ_OBJ,
    MANA_QUERY_DEV_CONFIG, MANA_QUERY_DEV_CONFIG_REQUEST_V1, MANA_QUERY_DEV_CONFIG_RESPONSE_V4,
    MANA_QUERY_STATS, MANA_QUERY_VPORT_CONFIG, MANA_VTL2_ASSIGN_SERIAL_NUMBER,
    MANA_VTL2_ASSIGN_SERIAL_NUMBER_REQUEST_V1, MANA_VTL2_ASSIGN_SERIAL_NUMBER_RESPONSE_V1,
    MANA_VTL2_MOVE_FILTER, MANA_VTL2_MOVE_FILTER_REQUEST_V2, MANA_VTL2_MOVE_FILTER_RESPONSE_V1,
    MANA_VTL2_QUERY_FILTER_STATE,
};
use crate::wire::{le64, push_u64};
use vstd::prelude::*;

verus! {

/// The versions of a request and its response.
#[derive(Debug, Clone, Copy, PartialEq, Eq, Structural)]
pub struct MessageVersions {
    /// Of the request.
    pub req: u16,
    /// Of the response.
    pub resp: u16,
}

/// A request to the basic NIC.
#[derive(Debug)]
pub struct BnicRequest {
    /// The message type.
    pub msg_type: u32,
    /// The versions; `None` for the default.
    pub versions: Option<MessageVersions>,
    /// The device.
    pub dev_id: GdmaDevId,
    /// The request.
    pub payload: Vec<u8>,
}

impl BnicRequest {
    /// Whether this is the given request.
    pub open spec fn is_request(
        self,
        msg_type: u32,
        versions: Option<MessageVersions>,
        dev_id: GdmaDevId,
        payload: Seq<u8>,
    ) -> bool {
        &&& self.msg_type == msg_type
        &&& self.versions == versions
        &&& self.dev_id == dev_id
        &&& self.payload@ == payload
    }
}

/// Receive configuration for a vport.
#[derive(Debug)]
pub struct RxConfig {
    /// Enable receiving packets.
    pub rx_enable: Option<bool>,
    /// Enable RSS.
    pub rss_enable: Option<bool>,
    /// The RSS hash key to set.
    pub hash_key: Option<[u8; 40]>,
    /// The default receive object for packets that cannot be hashed.
    pub default_rxobj: Option<u64>,
    /// The RSS indirection table.
    pub indirection_table: Option<Vec<u64>>,
}

/// The configuration of a work queue.
#[derive(Debug, Clone, Copy, PartialEq, Eq, Structural)]
pub struct WqConfig {
    /// The region of the work queue.
    pub wq_gdma_region: u64,
    /// The region of the completion queue.
    pub cq_gdma_region: u64,
    /// The size of the work queue.
    pub wq_size: u32,
    /// The size of the completion queue.
    pub cq_size: u32,
    /// The moderation context.
    pub cq_moderation_ctx_id: u32,
    /// The event queue.
    pub eq_id: u32,
}

/// The request that creates a work queue.
pub open spec fn create_request(vport: u64, wq_type: GdmaQueueType, config: WqConfig) ->
    ManaCreateWqobjReq {
    ManaCreateWqobjReq {
        vport,
        wq_type,
        reserved: 0,
        wq_gdma_region: config.wq_gdma_region,
        cq_gdma_region: config.cq_gdma_region,
        wq_size: config.wq_size,
        cq_size: config.cq_size,
        cq_moderation_ctx_id: config.cq_moderation_ctx_id,
        cq_parent_qid: config.eq_id,
    }
}

/// The number of entries of the table that goes with a receive configuration.
pub const RX_TABLE_ENTRIES: usize = 128;

/// The number that stands for a flag.
pub open spec fn flag(b: bool) -> u8 {
    if b {
        1
    } else {
        0
    }
}

fn get_flag(b: bool) -> (r: u8)
    ensures
        r == flag(b),
{
    if b {
        1
    } else {
        0
    }
}

/// The table of a receive configuration: 128 entries, zero where none is given.
pub open spec fn rx_table(table: Option<Seq<u64>>) -> Seq<u64> {
    Seq::new(
        128,
        |i: int|
            if table is Some && i < table->0.len() {
                table->0[i]
            } else {
                0
            },
    )
}

/// The bytes of a list of 64-bit numbers.
pub open spec fn le64_list(xs: Seq<u64>) -> Seq<u8>
    decreases xs.len(),
{
    if xs.len() == 0 {
        Seq::empty()
    } else {
        le64_list(xs.drop_last()) + le64(xs.last())
    }
}

/// The optional table as a sequence.
pub open spec fn table_view(table: Option<Vec<u64>>) -> Option<Seq<u64>> {
    match table {
        Some(t) => Some(t@),
        None => None,
    }
}

/// Whether `req` asks for the receive configuration `config` of `vport`. The
/// table starts behind the headers, of 40 and 72 bytes.
pub open spec fn is_rx_request(req: ManaCfgRxSteerReq, vport: u64, config: RxConfig) -> bool {
    &&& req.vport == vport
    &&& req.num_indir_entries == (match config.indirection_table {
        Some(t) => t@.len() as u16,
        None => 0,
    })
    &&& req.indir_tab_offset == 112
    &&& req.rx_enable == <Tristate as vstd::std_specs::convert::FromSpec<Option<bool>>>::from_spec(
        config.rx_enable,
    )
    &&& req.rss_enable == <Tristate as vstd::std_specs::convert::FromSpec<Option<bool>>>::from_spec(
        config.rss_enable,
    )
    &&& req.update_default_rxobj == flag(config.default_rxobj is Some)
    &&& req.update_hashkey == flag(config.hash_key is Some)
    &&& req.update_indir_tab == flag(config.indirection_table is Some)
    &&& req.reserved == 0
    &&& req.default_rxobj == (match config.default_rxobj {
        Some(x) => x,
        None => 0,
    })
    &&& match config.hash_key {
        Some(key) => req.hashkey == key,
        None => forall|i: int| 0 <= i < 40 ==> req.hashkey@[i] == 0,
    }
}

/// Issues requests to a basic NIC over `gdma`.
#[derive(Debug)]
pub struct BnicDriver<T> {
    /// What carries the requests.
    pub gdma: T,
    /// The device.
    pub dev_id: GdmaDevId,
}

impl<T> BnicDriver<T> {
    /// A driver for the device `dev_id`.
    pub fn new(gdma: T, dev_id: GdmaDevId) -> (d: BnicDriver<T>)
        ensures
            d.gdma == gdma,
            d.dev_id == dev_id,
    {
        BnicDriver { gdma, dev_id }
    }

    /// Asks for the device configuration, with the link speed in the response.
    pub fn query_dev_config(&self) -> (r: BnicRequest)
        ensures
            r.is_request(
                MANA_QUERY_DEV_CONFIG,
                Some(MessageVersions { req: 1, resp: 4 }),
                self.dev_id,
                (ManaQueryDeviceCfgReq {
                    mn_drv_cap_flags1: 0,
                    mn_drv_cap_flags2: 0,
                    mn_drv_cap_flags3: 0,
                    mn_drv_cap_flags4: 0,
                    proto_major_ver: 1,
                    proto_minor_ver: 0,
                    proto_micro_ver: 0,
                    reserved: 0,
                }).bytes(),
            ),
    {
        let req = ManaQueryDeviceCfgReq {
            mn_drv_cap_flags1: 0,
            mn_drv_cap_flags2: 0,
            mn_drv_cap_flags3: 0,
            mn_drv_cap_flags4: 0,
            proto_major_ver: 1,
            proto_minor_ver: 0,
            proto_micro_ver: 0,
            reserved: 0,
        };
        let mut payload: Vec<u8> = Vec::new();
        req.push_to(&mut payload);
        assert(payload@ =~= req.bytes());
        BnicRequest {
            msg_type: MANA_QUERY_DEV_CONFIG,
            versions: Some(
                MessageVersions {
                    req: MANA_QUERY_DEV_CONFIG_REQUEST_V1,
                    resp: MANA_QUERY_DEV_CONFIG_RESPONSE_V4,
                },
            ),
            dev_id: self.dev_id,
            payload,
        }
    }

    /// Sets up transmission.
    pub fn config_vport_tx(&self, vport: u64, pdid: u32, doorbell_pageid: u32) -> (r: BnicRequest)
        ensures
            r.is_request(
                MANA_CONFIG_VPORT_TX,
                None,
                self.dev_id,
                (ManaConfigVportReq { vport, pdid, doorbell_pageid }).bytes(),
            ),
    {
        let req = ManaConfigVportReq { vport, pdid, doorbell_pageid };
        let mut payload: Vec<u8> = Vec::new();
        req.push_to(&mut payload);
        assert(payload@ =~= req.bytes());
        BnicRequest {
            msg_type: MANA_CONFIG_VPORT_TX,
            versions: None,
            dev_id: self.dev_id,
            payload,
        }
    }

    /// Creates a work queue, which takes ownership of its DMA regions.
    pub fn create_wq_obj(&self, vport: u64, wq_type: GdmaQueueType, config: &WqConfig) -> (r:
        BnicRequest)
        ensures
            r.is_request(
                MANA_CREATE_WQ_OBJ,
                None,
                self.dev_id,
                create_request(vport, wq_type, *config).bytes(),
            ),
    {
        let req = ManaCreateWqobjReq {
            vport,
            wq_type,
            reserved: 0,
            wq_gdma_region: config.wq_gdma_region,
            cq_gdma_region: config.cq_gdma_region,
            wq_size: config.wq_size,
            cq_size: config.cq_size,
            cq_moderation_ctx_id: config.cq_moderation_ctx_id,
            cq_parent_qid: config.eq_id,
        };
        let mut payload: Vec<u8> = Vec::new();
        req.push_to(&mut payload);
        assert(payload@ =~= req.bytes());
        BnicRequest {
            msg_type: MANA_CREATE_WQ_OBJ,
            versions: None,
            dev_id: self.dev_id,
            payload,
        }
    }

    /// Destroys a work queue.
    pub fn destroy_wq_obj(&self, wq_type: GdmaQueueType, wq_obj_handle: u64) -> (r: BnicRequest)
        ensures
            r.is_request(
                MANA_DESTROY_WQ_OBJ,
                None,
                self.dev_id,
                (ManaDestroyWqobjReq { wq_type, reserved: 0, wq_obj_handle }).bytes(),
            ),
    {
        let req = ManaDestroyWqobjReq { wq_type, reserved: 0, wq_obj_handle };
        let mut payload: Vec<u8> = Vec::new();
        req.push_to(&mut payload);
        assert(payload@ =~= req.bytes());
        BnicRequest {
            msg_type: MANA_DESTROY_WQ_OBJ,
            versions: None,
            dev_id: self.dev_id,
            payload,
        }
    }

    /// Sets up reception.
    pub fn config_vport_rx(&self, vport: u64, config: &RxConfig) -> (r: BnicRequest)
        requires
            config.indirection_table matches Some(t) ==> t@.len() <= RX_TABLE_ENTRIES,
        ensures
            exists|req: ManaCfgRxSteerReq|
                is_rx_request(req, vport, *config) && r.is_request(
                    MANA_CONFIG_VPORT_RX,
                    None,
                    self.dev_id,
                    #[trigger] req.bytes() + le64_list(
                        rx_table(table_view(config.indirection_table)),
                    ),
                ),
    {
        let num_indir_entries: u16 = match &config.indirection_table {
            Some(t) => t.len() as u16,
            None => 0,
        };
        let default_rxobj: u64 = match config.default_rxobj {
            Some(x) => x,
            None => 0,
        };
        let hashkey: [u8; 40] = match config.hash_key {
            Some(key) => key,
            None => [0;40],
        };
        let req = ManaCfgRxSteerReq {
            vport,
            num_indir_entries,
            indir_tab_offset: 112,
            rx_enable: Tristate::from(config.rx_enable),
            rss_enable: Tristate::from(config.rss_enable),
            update_default_rxobj: get_flag(config.default_rxobj.is_some()),
            update_hashkey: get_flag(config.hash_key.is_some()),
            update_indir_tab: get_flag(config.indirection_table.is_some()),
            reserved: 0,
            default_rxobj,
            hashkey,
        };
        assert(is_rx_request(req, vport, *config));
        let mut payload: Vec<u8> = Vec::new();
        req.push_to(&mut payload);
        assert(payload@ =~= req.bytes());
        let ghost table = rx_table(table_view(config.indirection_table));
        let mut i: usize = 0;
        assert(payload@ =~= req.bytes() + le64_list(table.take(0)));
        while i < RX_TABLE_ENTRIES
            invariant
                i <= RX_TABLE_ENTRIES,
                table == rx_table(table_view(config.indirection_table)),
                payload@ == req.bytes() + le64_list(table.take(i as int)),
            decreases RX_TABLE_ENTRIES - i,
        {
            let x: u64 = match &config.indirection_table {
                Some(t) => if i < t.len() {
                    t[i]
                } else {
                    0
                },
                None => 0,
            };
            assert(x == table[i as int]);
            push_u64(&mut payload, x);
            i = i + 1;
            assert(table.take(i as int).drop_last() =~= table.take(i - 1));
            assert(payload@ =~= req.bytes() + le64_list(table.take(i as int)));
        }
        assert(table.take(128) =~= table);
        BnicRequest {
            msg_type: MANA_CONFIG_VPORT_RX,
            versions: None,
            dev_id: self.dev_id,
            payload,
        }
    }

    /// Asks for the configuration of a vport.
    pub fn query_vport_config(&self, vport_index: u32) -> (r: BnicRequest)
        ensures
            r.is_request(
                MANA_QUERY_VPORT_CONFIG,
                None,
                self.dev_id,
                (ManaQueryVportCfgReq { vport_index }).bytes(),
            ),
    {
        let req = ManaQueryVportCfgReq { vport_index };
        let mut payload: Vec<u8> = Vec::new();
        req.push_to(&mut payload);
        assert(payload@ =~= req.bytes());
        BnicRequest {
            msg_type: MANA_QUERY_VPORT_CONFIG,
            versions: None,
            dev_id: self.dev_id,
            payload,
        }
    }

    /// Asks for statistics.
    pub fn query_stats(&self, requested_statistics: u64) -> (r: BnicRequest)
        ensures
            r.is_request(
                MANA_QUERY_STATS,
                None,
                self.dev_id,
                (ManaQueryStatisticsRequest { requested_statistics }).bytes(),
            ),
    {
        let req = ManaQueryStatisticsRequest { requested_statistics };
        let mut payload: Vec<u8> = Vec::new();
        req.push_to(&mut payload);
        assert(payload@ =~= req.bytes());
        BnicRequest { msg_type: MANA_QUERY_STATS, versions: None, dev_id: self.dev_id, payload }
    }

    /// Asks where the packet filter is.
    pub fn query_filter_state(&self, vport: u64) -> (r: BnicRequest)
        ensures
            r.is_request(
                MANA_VTL2_QUERY_FILTER_STATE,
                None,
                self.dev_id,
                (ManaQueryFilterStateReq { vport }).bytes(),
            ),
    {
        let req = ManaQueryFilterStateReq { vport };
        let mut payload: Vec<u8> = Vec::new();
        req.push_to(&mut payload);
        assert(payload@ =~= req.bytes());
        BnicRequest {
            msg_type: MANA_VTL2_QUERY_FILTER_STATE,
            versions: None,
            dev_id: self.dev_id,
            payload,
        }
    }

    /// Moves the packet filter to VTL0 or back.
    pub fn move_vport_filter(&self, vport: u64, direction_to_vtl0: u8) -> (r: BnicRequest)
        ensures
            r.is_request(
                MANA_VTL2_MOVE_FILTER,
                Some(MessageVersions { req: 2, resp: 1 }),
                self.dev_id,
                le64(vport) + seq![direction_to_vtl0] + crate::wire::zeros(7),
            ),
    {
        let req = ManaMoveFilterVTL2PrivilegedReq {
            vport,
            direction_to_vtl0,
            reserved: [0, 0, 0],
            reserved2: 0,
        };
        let mut payload: Vec<u8> = Vec::new();
        req.push_to(&mut payload);
        assert(payload@ =~= le64(vport) + seq![direction_to_vtl0] + crate::wire::zeros(7));
        BnicRequest {
            msg_type: MANA_VTL2_MOVE_FILTER,
            versions: Some(
                MessageVersions {
                    req: MANA_VTL2_MOVE_FILTER_REQUEST_V2,
                    resp: MANA_VTL2_MOVE_FILTER_RESPONSE_V1,
                },
            ),
            dev_id: self.dev_id,
            payload,
        }
    }

    /// Sets the serial number of a vport.
    pub fn set_vport_serial_no(&self, vport: u64, serial_no: u32) -> (r: BnicRequest)
        ensures
            r.is_request(
                MANA_VTL2_ASSIGN_SERIAL_NUMBER,
                Some(MessageVersions { req: 1, resp: 1 }),
                self.dev_id,
                (ManaSetVportSerialNo { vport, serial_no, reserved: 0 }).bytes(),
            ),
    {
        let req = ManaSetVportSerialNo { vport, serial_no, reserved: 0 };
        let mut payload: Vec<u8> = Vec::new();
        req.push_to(&mut payload);
        assert(payload@ =~= req.bytes());
        BnicRequest {
            msg_type: MANA_VTL2_ASSIGN_SERIAL_NUMBER,
            versions: Some(
                MessageVersions {
                    req: MANA_VTL2_ASSIGN_SERIAL_NUMBER_REQUEST_V1,
                    resp: MANA_VTL2_ASSIGN_SERIAL_NUMBER_RESPONSE_V1,
                },
            ),
            dev_id: self.dev_id,
            payload,
        }
    }
}

/// A work queue that was created belongs to the driver until it destroys it, and
/// its DMA regions belong to the queue.
#[derive(Debug, Clone, Copy, PartialEq, Eq, Structural)]
pub enum Resource {
    /// A DMA region.
    DmaRegion {
        /// The device.
        dev_id: GdmaDevId,
        /// The handle.
        gdma_region: u64,
    },
    /// A queue of the basic NIC.
    BnicQueue {
        /// The device.
        dev_id: GdmaDevId,
        /// The type of the queue.
        wq_type: GdmaQueueType,
        /// The handle.
        wq_obj: u64,
    },
}

/// Resources without the DMA region `gdma_region`.
pub open spec fn without_region(resources: Seq<Resource>, gdma_region: u64) -> Seq<Resource>
    decreases resources.len(),
{
    if resources.len() == 0 {
        Seq::empty()
    } else {
        let rest = without_region(resources.drop_last(), gdma_region);
        match resources.last() {
            Resource::DmaRegion { gdma_region: r, .. } if r == gdma_region => rest,
            other => rest.push(other),
        }
    }
}

fn take_dma_region(resources: Vec<Resource>, gdma_region: u64) -> (r: Vec<Resource>)
    ensures
        r@ == without_region(resources@, gdma_region),
{
    let mut out: Vec<Resource> = Vec::new();
    let mut i: usize = 0;
    assert(resources@.take(0) =~= Seq::empty());
    while i < resources.len()
        invariant
            i <= resources@.len(),
            out@ == without_region(resources@.take(i as int), gdma_region),
        decreases resources@.len() - i,
    {
        let x = resources[i];
        assert(resources@.take(i + 1).drop_last() =~= resources@.take(i as int));
        assert(resources@.take(i + 1).last() == x);
        let keep = match x {
            Resource::DmaRegion { gdma_region: r, .. } => r != gdma_region,
            _ => true,
        };
        if keep {
            out.push(x);
        }
        i = i + 1;
    }
    assert(resources@.take(i as int) =~= resources@);
    out
}

/// Takes note that a work queue was created: its DMA regions are no longer the
/// driver's to free, but the queue is.
pub fn wq_obj_created(
    resources: Vec<Resource>,
    dev_id: GdmaDevId,
    wq_type: GdmaQueueType,
    config: &WqConfig,
    wq_obj: u64,
) -> (r: Vec<Resource>)
    ensures
        r@ == without_region(
            without_region(resources@, config.wq_gdma_region),
            config.cq_gdma_region,
        ).push(Resource::BnicQueue { dev_id, wq_type, wq_obj }),
{
    let resources = take_dma_region(resources, config.wq_gdma_region);
    let mut resources = take_dma_region(resources, config.cq_gdma_region);
    resources.push(Resource::BnicQueue { dev_id, wq_type, wq_obj });
    resources
}

/// The device reads from a request what the driver has put there.
pub proof fn device_reads_create_request(vport: u64, wq_type: GdmaQueueType, config: WqConfig)
    ensures
        ManaCreateWqobjReq::decoded(create_request(vport, wq_type, config).bytes())
            == create_request(vport, wq_type, config),
{
    create_request(vport, wq_type, config).round_trip();
}

/// A request for a queue says where it lies, how long it is and which event queue it has, at the
/// places where the device looks for them.
pub proof fn create_request_is_laid_out(vport: u64, wq_type: GdmaQueueType, config: WqConfig)
    ensures
        ({
            let b = create_request(vport, wq_type, config).bytes();
            &&& b.len() == 48
            &&& crate::wire::u64_at(b, 0) == vport
            &&& crate::wire::u32_at(b, 8) == wq_type.0
            &&& crate::wire::u32_at(b, 12) == 0
            &&& crate::wire::u64_at(b, 16) == config.wq_gdma_region
            &&& crate::wire::u64_at(b, 24) == config.cq_gdma_region
            &&& crate::wire::u32_at(b, 32) == config.wq_size
            &&& crate::wire::u32_at(b, 36) == config.cq_size
            &&& crate::wire::u32_at(b, 40) == config.cq_moderation_ctx_id
            &&& crate::wire::u32_at(b, 44) == config.eq_id
        }),
{
    create_request(vport, wq_type, config).fields_are_placed();
}

/// A request for reception says 1 for on, 0 for off and all bits for what is to stay, and flags
/// what of the rest it brings. The table follows the request, whose header has 40 bytes.
pub proof fn rx_request_is_laid_out(req: ManaCfgRxSteerReq, vport: u64, config: RxConfig)
    requires
        is_rx_request(req, vport, config),
        config.indirection_table matches Some(t) ==> t@.len() <= 128,
    ensures
        ({
            let b = req.bytes();
            let word = |o: Option<bool>|
                if o == Some(true) {
                    1u32
                } else if o == Some(false) {
                    0u32
                } else {
                    u32::MAX
                };
            let bit = |some: bool|
                if some {
                    1u8
                } else {
                    0u8
                };
            &&& b.len() == 72
            &&& crate::wire::u64_at(b, 0) == vport
            &&& crate::wire::u16_at(b, 8) == match config.indirection_table {
                Some(t) => t@.len() as int,
                None => 0,
            }
            &&& crate::wire::u16_at(b, 10) == 40 + b.len()
            &&& crate::wire::u32_at(b, 12) == word(config.rx_enable)
            &&& crate::wire::u32_at(b, 16) == word(config.rss_enable)
            &&& b[20] == bit(config.default_rxobj is Some)
            &&& b[21] == bit(config.hash_key is Some)
            &&& b[22] == bit(config.indirection_table is Some)
            &&& config.default_rxobj matches Some(x) ==> crate::wire::u64_at(b, 24) == x
            &&& config.hash_key matches Some(key) ==> b.subrange(32, 72) == key@
        }),
{
    req.fields_are_placed();
}

/// The table that is sent has 128 entries: those that are given, and zeros.
pub proof fn rx_table_is_filled_up(table: Option<Seq<u64>>, i: int)
    requires
        0 <= i < 128,
    ensures
        rx_table(table).len() == 128,
        table is Some && i < table->0.len() ==> rx_table(table)[i] == table->0[i],
        table is None || i >= table->0.len() ==> rx_table(table)[i] == 0,
{
}

/// The entries of a table lie one behind the other, the least byte first.
pub proof fn table_is_read_back(xs: Seq<u64>, i: int)
    requires
        0 <= i < xs.len(),
    ensures
        le64_list(xs).len() == 8 * xs.len(),
        crate::wire::u64_at(le64_list(xs), 8 * i) == xs[i],
    decreases xs.len(),
{
    let before = le64_list(xs.drop_last());
    let b = le64_list(xs);
    lemma_le64_list_len(xs.drop_last());
    if i == xs.len() - 1 {
        crate::wire::lemma_le64_round_trip(xs.last());
        assert(b.subrange(8 * i, 8 * i + 8) =~= le64(xs.last()));
        crate::wire::lemma_u64_at_subrange(b, 8 * i);
    } else {
        table_is_read_back(xs.drop_last(), i);
        assert(b.subrange(8 * i, 8 * i + 8) =~= before.subrange(8 * i, 8 * i + 8));
        crate::wire::lemma_u64_at_subrange(b, 8 * i);
        crate::wire::lemma_u64_at_subrange(before, 8 * i);
    }
}

proof fn lemma_le64_list_len(xs: Seq<u64>)
    ensures
        le64_list(xs).len() == 8 * xs.len(),
    decreases xs.len(),
{
    if xs.len() > 0 {
        lemma_le64_list_len(xs.drop_last());
    }
}

/// A region that became part of a queue is no longer freed by itself; everything else is still
/// there, in its order.
pub proof fn region_is_handed_over(resources: Seq<Resource>, gdma_region: u64)
    ensures
        without_region(resources, gdma_region) == resources.filter(
            |r: Resource| !(r is DmaRegion && r->gdma_region == gdma_region),
        ),
    decreases resources.len(),
{
    reveal(Seq::filter);
    if resources.len() > 0 {
        region_is_handed_over(resources.drop_last(), gdma_region);
    }
}

} // verus!
