//! The hardware channel: the requests by which the driver sets up the device.
use crate::gdma::slots::{
    free_keys, one_taken, slab_get, slab_insert, slab_new, slab_try_remove, slots, DmaRegion, Slot,
};
use crate::gdma_defs::bnic::{GdmaQueueType, GDMA_EQ};
use slab::Slab;
use vstd::prelude::*;

verus! {

/// Byte length of a page.
pub const PAGE_SIZE64: u64 = 4096;

/// Byte length of a request header.
pub const REQ_HDR_LEN: u32 = 40;

/// Byte length of a response header.
pub const RESP_HDR_LEN: u32 = 32;

/// Device type of the hardware channel.
pub const GDMA_DEVICE_HWC: u16 = 1;

/// Device type of the basic NIC.
pub const GDMA_DEVICE_MANA: u16 = 2;

/// A device behind the hardware channel.
#[derive(Debug, Clone, Copy, PartialEq, Eq, Structural)]
pub struct GdmaDevId {
    /// Its type.
    pub ty: u16,
    /// Which of that type.
    pub instance: u16,
}

/// The basic NIC.
pub open spec fn bnic_dev_id() -> GdmaDevId {
    GdmaDevId { ty: GDMA_DEVICE_MANA, instance: 1 }
}

/// The hardware channel itself.
pub open spec fn hwc_dev_id() -> GdmaDevId {
    GdmaDevId { ty: GDMA_DEVICE_HWC, instance: 0 }
}

/// Why a request fails.
#[derive(Debug, Clone, Copy, PartialEq, Eq, Structural)]
pub enum HwcError {
    /// There is no such DMA region.
    DmaRegionNotFound,
    /// The DMA region does not have the expected size.
    DmaRegionSize,
    /// The request is for another device.
    InvalidDevice,
    /// The device is enabled already.
    AlreadyEnabled,
    /// The device is not enabled.
    NotEnabled,
    /// The page list does not fit in one request.
    LargeRegion,
    /// The message is too short.
    Access,
    /// The pages do not hold the region.
    BadRegion,
    /// Queues of that type are created elsewhere.
    UnsupportedQueueType,
    /// No queue is free.
    QueueAlloc,
    /// The response does not fit.
    Write,
    /// The message type is unknown.
    UnsupportedMessage,
    /// The message names another completion queue.
    MismatchedCq,
    /// The message names another send queue.
    MismatchedSq,
    /// The request is larger than a page.
    RequestTooLarge,
    /// The response is larger than a page.
    ResponseTooLarge,
    /// There is no such vport.
    InvalidVport,
    /// The queue exists already.
    QueueExists,
    /// The queue is still in use.
    QueueInUse,
    /// There is no such queue.
    NoQueue,
    /// The queues have not been created.
    QueuesNotConfigured,
    /// The endpoint has no queue to offer.
    Endpoint,
}

/// Whether the pages hold the region.
pub open spec fn region_fits(pages: int, offset_in_page: u32, length: u64) -> bool {
    length == 0 || offset_in_page + length <= pages * PAGE_SIZE64
}

impl DmaRegion {
    /// A region on pages that hold it.
    pub fn new(pages: Vec<u64>, offset_in_page: u32, length: u64) -> (r: Option<DmaRegion>)
        ensures
            r == if region_fits(pages@.len() as int, offset_in_page, length) {
                Some(DmaRegion { pages, offset_in_page, length })
            } else {
                None::<DmaRegion>
            },
    {
        if length == 0 || offset_in_page as u128 + length as u128 <= pages.len() as u128 * 4096 {
            Some(DmaRegion { pages, offset_in_page, length })
        } else {
            None
        }
    }

    /// Whether two regions are the same memory.
    pub open spec fn same(self, other: DmaRegion) -> bool {
        &&& self.pages@ == other.pages@
        &&& self.offset_in_page == other.offset_in_page
        &&& self.length == other.length
    }

    /// A copy.
    pub fn copy(&self) -> (r: DmaRegion)
        ensures
            r.same(*self),
    {
        let mut pages: Vec<u64> = Vec::new();
        let mut i: usize = 0;
        while i < self.pages.len()
            invariant
                i <= self.pages@.len(),
                pages@ == self.pages@.take(i as int),
            decreases self.pages@.len() - i,
        {
            pages.push(self.pages[i]);
            i = i + 1;
            assert(pages@ =~= self.pages@.take(i as int));
        }
        assert(self.pages@.take(i as int) =~= self.pages@);
        DmaRegion { pages, offset_in_page: self.offset_in_page, length: self.length }
    }
}

/// The key under which the region with handle `gdma_region` is kept. Handles
/// start at one.
pub open spec fn region_key(gdma_region: u64) -> usize {
    (if gdma_region == 0 {
        u64::MAX
    } else {
        (gdma_region - 1) as u64
    }) as usize
}

fn get_region_key(gdma_region: u64) -> (key: usize)
    ensures
        key == region_key(gdma_region),
{
    #[verifier::truncate]
    let key: usize = gdma_region.wrapping_sub(1) as usize;
    key
}

/// What the requests of all devices share.
pub struct HwState {
    /// The DMA regions that belong to no queue yet.
    pub dma_regions: Slab<Slot>,
}

impl HwState {
    /// The regions, by key.
    pub open spec fn regions(&self) -> Map<usize, Slot> {
        slots(self.dma_regions)
    }

    /// The keys of the regions to come; the last one is the next.
    pub open spec fn keys(&self) -> Seq<usize> {
        free_keys(self.dma_regions)
    }

    /// All slots are DMA regions.
    pub open spec fn wf(&self) -> bool {
        forall|key: usize| #[trigger]
            self.regions().contains_key(key) ==> self.regions()[key] is Dma
    }

    /// Whether there is a region with that handle and size, or what is wrong.
    pub open spec fn region_error(&self, gdma_region: u64, expected_size: u32) -> Option<HwcError> {
        let key = region_key(gdma_region);
        if !self.regions().contains_key(key) {
            Some(HwcError::DmaRegionNotFound)
        } else if self.regions()[key]->Dma_0.length != expected_size {
            Some(HwcError::DmaRegionSize)
        } else {
            None
        }
    }

    /// No regions.
    pub fn new() -> (s: HwState)
        ensures
            s.wf(),
            forall|key: usize| !(#[trigger] s.regions().contains_key(key)),
            s.keys() == seq![0usize],
    {
        HwState { dma_regions: slab_new() }
    }

    /// The region with that handle and size.
    pub fn get_dma_region(&self, gdma_region: u64, expected_size: u32) -> (r: Result<
        &DmaRegion,
        HwcError,
    >)
        requires
            self.wf(),
        ensures
            match self.region_error(gdma_region, expected_size) {
                Some(err) => r == Err::<&DmaRegion, HwcError>(err),
                None => r is Ok && Slot::Dma(*r->Ok_0) == self.regions()[region_key(gdma_region)],
            },
    {
        let key: usize = get_region_key(gdma_region);
        match slab_get(&self.dma_regions, key) {
            Some(Slot::Dma(region)) => if region.length != expected_size as u64 {
                Err(HwcError::DmaRegionSize)
            } else {
                Ok(region)
            },
            _ => Err(HwcError::DmaRegionNotFound),
        }
    }

    /// Forgets the region with that handle.
    pub fn remove_dma_region(&mut self, gdma_region: u64) -> (r: Result<(), HwcError>)
        requires
            old(self).wf(),
        ensures
            final(self).wf(),
            final(self).regions() == old(self).regions().remove(region_key(gdma_region)),
            final(self).keys() == if old(self).regions().contains_key(region_key(gdma_region)) {
                old(self).keys().push(region_key(gdma_region))
            } else {
                old(self).keys()
            },
            r == if old(self).regions().contains_key(region_key(gdma_region)) {
                Ok::<(), HwcError>(())
            } else {
                Err::<(), HwcError>(HwcError::DmaRegionNotFound)
            },
    {
        let key: usize = get_region_key(gdma_region);
        match slab_try_remove(&mut self.dma_regions, key) {
            Some(_) => Ok(()),
            None => Err(HwcError::DmaRegionNotFound),
        }
    }

    /// Keeps a region and returns its handle.
    pub fn add_dma_region(&mut self, region: DmaRegion) -> (gdma_region: u64)
        requires
            old(self).wf(),
        ensures
            final(self).wf(),
            old(self).keys().len() >= 1 && gdma_region == old(self).keys().last() + 1,
            !old(self).regions().contains_key(region_key(gdma_region)),
            final(self).regions() == old(self).regions().insert(
                region_key(gdma_region),
                Slot::Dma(region),
            ),
            final(self).keys() == one_taken(old(self).keys()),
    {
        let key: usize = slab_insert(&mut self.dma_regions, Slot::Dma(region));
        key as u64 + 1
    }
}

/// The hardware channel.
pub struct HwControl {
    /// What the requests of all devices share.
    pub state: HwState,
    /// The event queue.
    pub eq_id: u32,
    /// The completion queue.
    pub cq_id: u32,
    /// The send queue.
    pub sq_id: u32,
    /// The receive queue.
    pub rq_id: u32,
    /// Whether the basic NIC is enabled.
    pub bnic_enabled: bool,
}

/// What the driver is told when the channel is established.
#[derive(Debug, Clone, Copy, PartialEq, Eq, Structural)]
pub enum InitEvent {
    /// The event queue and the doorbell page.
    EqIdDb {
        /// The event queue.
        eq_id: u16,
        /// The doorbell page.
        doorbell: u16,
    },
    /// A property.
    Data {
        /// Which.
        ty: u8,
        /// Its value.
        value: u32,
    },
    /// That was all.
    Done,
}

/// What the driver is told: the queues, one request at a time, of a page each.
pub open spec fn init_events(eq_id: u32, cq_id: u32, rq_id: u32, sq_id: u32, max_cqs: u32) -> Seq<
    InitEvent,
> {
    seq![
        InitEvent::EqIdDb { eq_id: eq_id as u16, doorbell: 0 },
        InitEvent::Data { ty: 1, value: cq_id },
        InitEvent::Data { ty: 2, value: rq_id },
        InitEvent::Data { ty: 3, value: sq_id },
        InitEvent::Data { ty: 4, value: 1 },
        InitEvent::Data { ty: 5, value: 0x1000 },
        InitEvent::Data { ty: 6, value: 0x1000 },
        InitEvent::Data { ty: 7, value: max_cqs },
        InitEvent::Data { ty: 8, value: 0 },
        InitEvent::Data { ty: 9, value: 0 },
        InitEvent::Done,
    ]
}

/// The device that a request is for.
#[derive(Debug, Clone, Copy, PartialEq, Eq, Structural)]
pub enum Route {
    /// The hardware channel.
    Hwc,
    /// The basic NIC.
    Bnic,
    /// None.
    Unknown,
}

/// The fields of a request header that matter.
#[derive(Debug, Clone, Copy, PartialEq, Eq, Structural)]
pub struct GdmaReqHdr {
    /// The message type.
    pub msg_type: u32,
    /// The byte length of the request, with its header.
    pub req_msg_size: u32,
    /// The byte length of the response, with its header.
    pub resp_msg_size: u32,
    /// The device.
    pub dev_id: GdmaDevId,
    /// The activity.
    pub activity_id: u32,
}

/// How a request ends.
#[derive(Debug, Clone, Copy, PartialEq, Eq, Structural)]
pub struct Completion {
    /// Zero, or one if it failed.
    pub status: u32,
    /// The byte length of the response, with its header.
    pub data_size: u32,
}

/// Why a request is not looked at, if it is not.
pub open spec fn request_error(cq_id: u32, sq_id: u32, vscq_id: u32, vsq_id: u32, hdr: GdmaReqHdr) ->
    Option<HwcError> {
    if vscq_id != cq_id {
        Some(HwcError::MismatchedCq)
    } else if vsq_id != sq_id {
        Some(HwcError::MismatchedSq)
    } else if hdr.req_msg_size > PAGE_SIZE64 {
        Some(HwcError::RequestTooLarge)
    } else if hdr.resp_msg_size > PAGE_SIZE64 {
        Some(HwcError::ResponseTooLarge)
    } else if hdr.req_msg_size < REQ_HDR_LEN || hdr.resp_msg_size < RESP_HDR_LEN {
        Some(HwcError::Access)
    } else {
        None
    }
}

impl HwControl {
    /// Establishes the channel on its queues. The events are for its event
    /// queue.
    pub fn new(eq_id: u32, cq_id: u32, rq_id: u32, sq_id: u32, max_cqs: u32) -> (r: (
        HwControl,
        Vec<InitEvent>,
    ))
        ensures
            r.0.state.wf(),
            forall|key: usize| !(#[trigger] r.0.state.regions().contains_key(key)),
            r.0.state.keys() == seq![0usize],
            r.0.eq_id == eq_id,
            r.0.cq_id == cq_id,
            r.0.rq_id == rq_id,
            r.0.sq_id == sq_id,
            !r.0.bnic_enabled,
            r.1@ == init_events(eq_id, cq_id, rq_id, sq_id, max_cqs),
    {
        #[verifier::truncate]
        let eq16: u16 = eq_id as u16;
        let mut events: Vec<InitEvent> = Vec::new();
        events.push(InitEvent::EqIdDb { eq_id: eq16, doorbell: 0 });
        events.push(InitEvent::Data { ty: 1, value: cq_id });
        events.push(InitEvent::Data { ty: 2, value: rq_id });
        events.push(InitEvent::Data { ty: 3, value: sq_id });
        events.push(InitEvent::Data { ty: 4, value: 1 });
        events.push(InitEvent::Data { ty: 5, value: 0x1000 });
        events.push(InitEvent::Data { ty: 6, value: 0x1000 });
        events.push(InitEvent::Data { ty: 7, value: max_cqs });
        events.push(InitEvent::Data { ty: 8, value: 0 });
        events.push(InitEvent::Data { ty: 9, value: 0 });
        events.push(InitEvent::Done);
        assert(events@ =~= init_events(eq_id, cq_id, rq_id, sq_id, max_cqs));
        (
            HwControl { state: HwState::new(), eq_id, cq_id, sq_id, rq_id, bnic_enabled: false },
            events,
        )
    }

    /// Checks a request, which came with the given queues, before it is handled.
    pub fn check_request(&self, vscq_id: u32, vsq_id: u32, hdr: &GdmaReqHdr) -> (r: Result<
        (),
        HwcError,
    >)
        ensures
            r == match request_error(self.cq_id, self.sq_id, vscq_id, vsq_id, *hdr) {
                Some(err) => Err::<(), HwcError>(err),
                None => Ok::<(), HwcError>(()),
            },
    {
        if vscq_id != self.cq_id {
            return Err(HwcError::MismatchedCq);
        }
        if vsq_id != self.sq_id {
            return Err(HwcError::MismatchedSq);
        }
        if hdr.req_msg_size as u64 > PAGE_SIZE64 {
            return Err(HwcError::RequestTooLarge);
        }
        if hdr.resp_msg_size as u64 > PAGE_SIZE64 {
            return Err(HwcError::ResponseTooLarge);
        }
        if hdr.req_msg_size < REQ_HDR_LEN || hdr.resp_msg_size < RESP_HDR_LEN {
            return Err(HwcError::Access);
        }
        Ok(())
    }

    /// The device that a request is for. Message types above 16 bits are
    /// specific to a device.
    pub fn route(&self, hdr: &GdmaReqHdr) -> (r: Route)
        ensures
            r == if hdr.msg_type < 0x10000 {
                Route::Hwc
            } else if hdr.dev_id == bnic_dev_id() && self.bnic_enabled {
                Route::Bnic
            } else {
                Route::Unknown
            },
    {
        if hdr.msg_type < 0x10000 {
            Route::Hwc
        } else if hdr.dev_id.ty == GDMA_DEVICE_MANA && hdr.dev_id.instance == 1
            && self.bnic_enabled {
            Route::Bnic
        } else {
            Route::Unknown
        }
    }
}

/// How a request with that result ends.
pub fn complete(r: Result<u32, HwcError>) -> (c: Completion)
    requires
        r matches Ok(len) ==> len <= PAGE_SIZE64,
    ensures
        c == match r {
            Ok(len) => Completion { status: 0, data_size: (RESP_HDR_LEN + len) as u32 },
            Err(_) => Completion { status: 1, data_size: RESP_HDR_LEN },
        },
{
    match r {
        Ok(len) => Completion { status: 0, data_size: RESP_HDR_LEN + len },
        Err(_) => Completion { status: 1, data_size: RESP_HDR_LEN },
    }
}

/// A request to the hardware channel.
#[derive(Debug)]
pub enum HwcRequest {
    /// Post a test event.
    GenerateTestEqe {
        /// To that event queue.
        queue_index: u32,
    },
    /// Post a reconfiguration event.
    GenerateReconfigVfEvent {
        /// To that event queue.
        queue_index: u32,
    },
    /// Negotiate the protocol.
    VerifyVfDriverVersion {
        /// The lowest version of the driver.
        protocol_ver_min: u64,
    },
    /// Query the limits.
    QueryMaxResources,
    /// List the devices.
    ListDevices,
    /// Enable a device.
    RegisterDevice,
    /// Disable a device.
    DeregisterDevice,
    /// Register a DMA region.
    CreateDmaRegion {
        /// The number of its pages.
        page_count: u32,
        /// The number of pages in this request.
        page_addr_list_len: u32,
        /// The pages; `None` if the request is too short to hold them.
        pages: Option<Vec<u64>>,
        /// Where it starts in the first page.
        offset_in_page: u32,
        /// Its length.
        length: u64,
    },
    /// Create a queue.
    CreateQueue {
        /// Its type.
        queue_type: GdmaQueueType,
        /// The region that it lies in.
        gdma_region: u64,
        /// Its size.
        queue_size: u32,
        /// Its interrupt.
        eq_pci_msix_index: u32,
    },
    /// Destroy a queue.
    DisableQueue {
        /// Its type.
        queue_type: GdmaQueueType,
        /// The queue.
        queue_index: u32,
    },
    /// Change the interrupt of an event queue.
    ChangeMsixForEq {
        /// The queue.
        queue_index: u32,
        /// The interrupt.
        msix: u32,
    },
    /// Anything else.
    Unsupported,
}

/// The limits of the device.
#[derive(Debug, Clone, Copy, PartialEq, Eq, Structural)]
pub struct QueueLimits {
    /// Send queues.
    pub max_sq: u32,
    /// Receive queues.
    pub max_rq: u32,
    /// Completion queues.
    pub max_cq: u32,
    /// Event queues.
    pub max_eq: u32,
}

/// The answer to the negotiation of the protocol: the version, and no capabilities.
#[derive(Debug, Clone, Copy, PartialEq, Eq, Structural)]
pub struct GdmaVerifyVerResp {
    /// The version.
    pub gdma_protocol_ver: u64,
    /// Capabilities.
    pub pf_cap_flags1: u64,
    /// More capabilities.
    pub pf_cap_flags2: u64,
    /// More capabilities.
    pub pf_cap_flags3: u64,
    /// More capabilities.
    pub pf_cap_flags4: u64,
}

/// What there can be of everything.
#[derive(Debug, Clone, Copy, PartialEq, Eq, Structural)]
pub struct GdmaQueryMaxResourcesResp {
    /// Zero for success.
    pub status: u32,
    /// Send queues.
    pub max_sq: u32,
    /// Receive queues.
    pub max_rq: u32,
    /// Completion queues.
    pub max_cq: u32,
    /// Event queues.
    pub max_eq: u32,
    /// Doorbell pages.
    pub max_db: u32,
    /// Memory spaces.
    pub max_mst: u32,
    /// Contexts for the moderation of completion queues.
    pub max_cq_mod_ctx: u32,
    /// Completion queues with moderation.
    pub max_mod_cq: u32,
    /// Interrupts.
    pub max_msix: u32,
}

/// The devices. Further entries of the list are zero.
#[derive(Debug, Clone, Copy, PartialEq, Eq, Structural)]
pub struct GdmaListDevicesResp {
    /// Their number.
    pub num_of_devs: u32,
    /// The first one.
    pub dev0: GdmaDevId,
    /// The second one.
    pub dev1: GdmaDevId,
}

/// What a device that was enabled uses.
#[derive(Debug, Clone, Copy, PartialEq, Eq, Structural)]
pub struct GdmaRegisterDeviceResp {
    /// The protection domain.
    pub pdid: u32,
    /// The memory key.
    pub gpa_mkey: u32,
    /// The doorbell page.
    pub db_id: u32,
}

/// The answer to the negotiation of the protocol: the lowest version of the driver.
pub fn verify_ver_resp(protocol_ver_min: u64) -> (r: GdmaVerifyVerResp)
    ensures
        r == (GdmaVerifyVerResp {
            gdma_protocol_ver: protocol_ver_min,
            pf_cap_flags1: 0,
            pf_cap_flags2: 0,
            pf_cap_flags3: 0,
            pf_cap_flags4: 0,
        }),
{
    GdmaVerifyVerResp {
        gdma_protocol_ver: protocol_ver_min,
        pf_cap_flags1: 0,
        pf_cap_flags2: 0,
        pf_cap_flags3: 0,
        pf_cap_flags4: 0,
    }
}

/// What there can be of everything: the limits of the queues, one doorbell page, one
/// memory space, 64 interrupts, and no moderation.
pub fn max_resources_resp(limits: QueueLimits) -> (r: GdmaQueryMaxResourcesResp)
    ensures
        r == (GdmaQueryMaxResourcesResp {
            status: 0,
            max_sq: limits.max_sq,
            max_rq: limits.max_rq,
            max_cq: limits.max_cq,
            max_eq: limits.max_eq,
            max_db: 1,
            max_mst: 1,
            max_cq_mod_ctx: 0,
            max_mod_cq: 0,
            max_msix: 64,
        }),
{
    GdmaQueryMaxResourcesResp {
        status: 0,
        max_sq: limits.max_sq,
        max_rq: limits.max_rq,
        max_cq: limits.max_cq,
        max_eq: limits.max_eq,
        max_db: 1,
        max_mst: 1,
        max_cq_mod_ctx: 0,
        max_mod_cq: 0,
        max_msix: 64,
    }
}

/// The devices: the hardware channel and the basic NIC.
pub fn list_devices_resp() -> (r: GdmaListDevicesResp)
    ensures
        r == (GdmaListDevicesResp { num_of_devs: 2, dev0: hwc_dev_id(), dev1: bnic_dev_id() }),
{
    GdmaListDevicesResp {
        num_of_devs: 2,
        dev0: GdmaDevId { ty: GDMA_DEVICE_HWC, instance: 0 },
        dev1: GdmaDevId { ty: GDMA_DEVICE_MANA, instance: 1 },
    }
}

/// What a device that was enabled uses: all of it has number zero.
pub fn register_device_resp() -> (r: GdmaRegisterDeviceResp)
    ensures
        r == (GdmaRegisterDeviceResp { pdid: 0, gpa_mkey: 0, db_id: 0 }),
{
    GdmaRegisterDeviceResp { pdid: 0, gpa_mkey: 0, db_id: 0 }
}

/// What the driver gets, or what has to be done for it.
#[derive(Debug)]
pub enum HwcReply {
    /// Nothing.
    Done,
    /// A test event has to be posted.
    PostTestEvent {
        /// To that event queue.
        queue_index: u32,
    },
    /// A reconfiguration event has to be posted.
    PostReconfigEvent {
        /// To that event queue.
        queue_index: u32,
    },
    /// The protocol version.
    VerifyVer(GdmaVerifyVerResp),
    /// The limits.
    MaxResources(GdmaQueryMaxResourcesResp),
    /// The devices.
    Devices(GdmaListDevicesResp),
    /// The device is enabled.
    Registered(GdmaRegisterDeviceResp),
    /// The handle of a DMA region.
    DmaRegion {
        /// The handle.
        gdma_region: u64,
    },
    /// An event queue has to be allocated in `region`; then
    /// [`HwControl::finish_create_queue`].
    AllocEq {
        /// The region.
        region: DmaRegion,
        /// The interrupt.
        msix: u32,
        /// The handle of the region.
        gdma_region: u64,
    },
    /// An event queue has to be freed.
    FreeEq {
        /// The queue.
        queue_index: u32,
    },
    /// The interrupt of an event queue has to be changed.
    UpdateEqMsix {
        /// The queue.
        queue_index: u32,
        /// The interrupt.
        msix: u32,
    },
}

/// Why a request fails, if it does.
pub open spec fn hwc_error(c: HwControl, dev_id: GdmaDevId, req: HwcRequest) -> Option<HwcError> {
    match req {
        HwcRequest::RegisterDevice => if dev_id != bnic_dev_id() {
            Some(HwcError::InvalidDevice)
        } else if c.bnic_enabled {
            Some(HwcError::AlreadyEnabled)
        } else {
            None
        },
        HwcRequest::DeregisterDevice => if dev_id != bnic_dev_id() {
            Some(HwcError::InvalidDevice)
        } else if !c.bnic_enabled {
            Some(HwcError::NotEnabled)
        } else {
            None
        },
        HwcRequest::CreateDmaRegion {
            page_count,
            page_addr_list_len,
            pages,
            offset_in_page,
            length,
        } => if page_addr_list_len != page_count {
            Some(HwcError::LargeRegion)
        } else if pages is None {
            Some(HwcError::Access)
        } else if !region_fits(pages->0@.len() as int, offset_in_page, length) {
            Some(HwcError::BadRegion)
        } else {
            None
        },
        HwcRequest::CreateQueue { queue_type, gdma_region, queue_size, .. } => if queue_type.0
            != GDMA_EQ {
            Some(HwcError::UnsupportedQueueType)
        } else {
            c.state.region_error(gdma_region, queue_size)
        },
        HwcRequest::DisableQueue { queue_type, .. } => if queue_type.0 != GDMA_EQ {
            Some(HwcError::UnsupportedQueueType)
        } else {
            None
        },
        HwcRequest::Unsupported => Some(HwcError::UnsupportedMessage),
        _ => None,
    }
}

impl HwControl {
    /// Handles a request to the hardware channel. A request that fails changes
    /// nothing.
    pub fn handle_req(&mut self, dev_id: GdmaDevId, limits: QueueLimits, req: HwcRequest) -> (r:
        Result<HwcReply, HwcError>)
        requires
            old(self).state.wf(),
        ensures
            final(self).state.wf(),
            final(self).eq_id == old(self).eq_id,
            final(self).cq_id == old(self).cq_id,
            final(self).sq_id == old(self).sq_id,
            final(self).rq_id == old(self).rq_id,
            final(self).bnic_enabled == if hwc_error(*old(self), dev_id, req) is Some {
                old(self).bnic_enabled
            } else {
                match req {
                    HwcRequest::RegisterDevice => true,
                    HwcRequest::DeregisterDevice => false,
                    _ => old(self).bnic_enabled,
                }
            },
            hwc_error(*old(self), dev_id, req) matches Some(err) ==> r == Err::<
                HwcReply,
                HwcError,
            >(err),
            hwc_error(*old(self), dev_id, req) is None ==> r is Ok,
            !(req is CreateDmaRegion && r is Ok) ==> {
                &&& final(self).state.regions() == old(self).state.regions()
                &&& final(self).state.keys() == old(self).state.keys()
            },
            r is Ok ==> match req {
                HwcRequest::GenerateTestEqe { queue_index } => r->Ok_0
                    == HwcReply::PostTestEvent { queue_index },
                HwcRequest::GenerateReconfigVfEvent { queue_index } => r->Ok_0
                    == HwcReply::PostReconfigEvent { queue_index },
                HwcRequest::VerifyVfDriverVersion { protocol_ver_min } => r->Ok_0
                    == HwcReply::VerifyVer(
                    GdmaVerifyVerResp {
                        gdma_protocol_ver: protocol_ver_min,
                        pf_cap_flags1: 0,
                        pf_cap_flags2: 0,
                        pf_cap_flags3: 0,
                        pf_cap_flags4: 0,
                    },
                ),
                HwcRequest::QueryMaxResources => r->Ok_0 == HwcReply::MaxResources(
                    GdmaQueryMaxResourcesResp {
                        status: 0,
                        max_sq: limits.max_sq,
                        max_rq: limits.max_rq,
                        max_cq: limits.max_cq,
                        max_eq: limits.max_eq,
                        max_db: 1,
                        max_mst: 1,
                        max_cq_mod_ctx: 0,
                        max_mod_cq: 0,
                        max_msix: 64,
                    },
                ),
                HwcRequest::ListDevices => r->Ok_0 == HwcReply::Devices(
                    GdmaListDevicesResp {
                        num_of_devs: 2,
                        dev0: hwc_dev_id(),
                        dev1: bnic_dev_id(),
                    },
                ),
                HwcRequest::RegisterDevice => r->Ok_0 == HwcReply::Registered(
                    GdmaRegisterDeviceResp { pdid: 0, gpa_mkey: 0, db_id: 0 },
                ),
                HwcRequest::DeregisterDevice => r->Ok_0 == HwcReply::Done,
                HwcRequest::CreateDmaRegion { pages, offset_in_page, length, .. } => {
                    &&& r->Ok_0 is DmaRegion
                    &&& old(self).state.keys().len() >= 1
                    &&& r->Ok_0->DmaRegion_gdma_region == old(self).state.keys().last() + 1
                    &&& !old(self).state.regions().contains_key(
                        region_key(r->Ok_0->DmaRegion_gdma_region),
                    )
                    &&& final(self).state.regions() == old(self).state.regions().insert(
                        region_key(r->Ok_0->DmaRegion_gdma_region),
                        Slot::Dma(DmaRegion { pages: pages->0, offset_in_page, length }),
                    )
                    &&& final(self).state.keys() == one_taken(old(self).state.keys())
                },
                HwcRequest::CreateQueue { gdma_region, eq_pci_msix_index, .. } => {
                    &&& r->Ok_0 matches HwcReply::AllocEq { region, msix, gdma_region: handle }
                    &&& region.same(old(self).state.regions()[region_key(gdma_region)]->Dma_0)
                    &&& msix == eq_pci_msix_index
                    &&& handle == gdma_region
                },
                HwcRequest::DisableQueue { queue_index, .. } => r->Ok_0 == HwcReply::FreeEq {
                    queue_index,
                },
                HwcRequest::ChangeMsixForEq { queue_index, msix } => r->Ok_0
                    == HwcReply::UpdateEqMsix { queue_index, msix },
                HwcRequest::Unsupported => false,
            },
    {
        let is_bnic = dev_id.ty == GDMA_DEVICE_MANA && dev_id.instance == 1;
        match req {
            HwcRequest::GenerateTestEqe { queue_index } => Ok(
                HwcReply::PostTestEvent { queue_index },
            ),
            HwcRequest::GenerateReconfigVfEvent { queue_index } => Ok(
                HwcReply::PostReconfigEvent { queue_index },
            ),
            HwcRequest::VerifyVfDriverVersion { protocol_ver_min } => Ok(
                HwcReply::VerifyVer(verify_ver_resp(protocol_ver_min)),
            ),
            HwcRequest::QueryMaxResources => Ok(HwcReply::MaxResources(max_resources_resp(limits))),
            HwcRequest::ListDevices => Ok(HwcReply::Devices(list_devices_resp())),
            HwcRequest::RegisterDevice => {
                if !is_bnic {
                    return Err(HwcError::InvalidDevice);
                }
                if self.bnic_enabled {
                    return Err(HwcError::AlreadyEnabled);
                }
                self.bnic_enabled = true;
                Ok(HwcReply::Registered(register_device_resp()))
            },
            HwcRequest::DeregisterDevice => {
                if !is_bnic {
                    return Err(HwcError::InvalidDevice);
                }
                if !self.bnic_enabled {
                    return Err(HwcError::NotEnabled);
                }
                self.bnic_enabled = false;
                Ok(HwcReply::Done)
            },
            HwcRequest::CreateDmaRegion {
                page_count,
                page_addr_list_len,
                pages,
                offset_in_page,
                length,
            } => {
                if page_addr_list_len != page_count {
                    return Err(HwcError::LargeRegion);
                }
                let pages = match pages {
                    Some(pages) => pages,
                    None => return Err(HwcError::Access),
                };
                let region = match DmaRegion::new(pages, offset_in_page, length) {
                    Some(region) => region,
                    None => return Err(HwcError::BadRegion),
                };
                let gdma_region: u64 = self.state.add_dma_region(region);
                Ok(HwcReply::DmaRegion { gdma_region })
            },
            HwcRequest::CreateQueue { queue_type, gdma_region, queue_size, eq_pci_msix_index } => {
                if queue_type.0 != GDMA_EQ {
                    return Err(HwcError::UnsupportedQueueType);
                }
                match self.state.get_dma_region(gdma_region, queue_size) {
                    Ok(region) => Ok(
                        HwcReply::AllocEq {
                            region: region.copy(),
                            msix: eq_pci_msix_index,
                            gdma_region,
                        },
                    ),
                    Err(err) => Err(err),
                }
            },
            HwcRequest::DisableQueue { queue_type, queue_index } => {
                if queue_type.0 != GDMA_EQ {
                    return Err(HwcError::UnsupportedQueueType);
                }
                Ok(HwcReply::FreeEq { queue_index })
            },
            HwcRequest::ChangeMsixForEq { queue_index, msix } => Ok(
                HwcReply::UpdateEqMsix { queue_index, msix },
            ),
            HwcRequest::Unsupported => Err(HwcError::UnsupportedMessage),
        }
    }

    /// Ends the creation of a queue: if it was allocated and the response was
    /// written, it takes ownership of its region.
    pub fn finish_create_queue(&mut self, gdma_region: u64, eq_id: Option<u32>, written: bool) -> (r:
        Result<u32, HwcError>)
        requires
            old(self).state.wf(),
            old(self).state.regions().contains_key(region_key(gdma_region)),
        ensures
            final(self).state.wf(),
            final(self).bnic_enabled == old(self).bnic_enabled,
            final(self).eq_id == old(self).eq_id,
            final(self).cq_id == old(self).cq_id,
            final(self).sq_id == old(self).sq_id,
            final(self).rq_id == old(self).rq_id,
            match eq_id {
                None => {
                    &&& r == Err::<u32, HwcError>(HwcError::QueueAlloc)
                    &&& final(self).state.regions() == old(self).state.regions()
                    &&& final(self).state.keys() == old(self).state.keys()
                },
                Some(id) => if written {
                    &&& r == Ok::<u32, HwcError>(id)
                    &&& final(self).state.regions() == old(self).state.regions().remove(
                        region_key(gdma_region),
                    )
                    &&& final(self).state.keys() == old(self).state.keys().push(
                        region_key(gdma_region),
                    )
                } else {
                    &&& r == Err::<u32, HwcError>(HwcError::Write)
                    &&& final(self).state.regions() == old(self).state.regions()
                    &&& final(self).state.keys() == old(self).state.keys()
                },
            },
    {
        let eq_id: u32 = match eq_id {
            Some(eq_id) => eq_id,
            None => return Err(HwcError::QueueAlloc),
        };
        if !written {
            return Err(HwcError::Write);
        }
        let _ = self.state.remove_dma_region(gdma_region);
        Ok(eq_id)
    }
}

/// The handle of a region that was removed is the next to be handed out, and
/// after that the handles come as if it had not been removed.
pub proof fn removed_handle_comes_next(keys: Seq<usize>, gdma_region: u64)
    requires
        keys.len() >= 1,
    ensures
        ({
            let removed = keys.push(region_key(gdma_region));
            &&& removed.last() == region_key(gdma_region)
            &&& one_taken(removed) == keys
        }),
{
    assert(keys.push(region_key(gdma_region)).drop_last() =~= keys);
}

/// A DMA region that was created can be used, under its handle and with its
/// length, and no longer after it was removed; other regions are not affected.
pub proof fn region_lives_until_removed(
    before: Map<usize, Slot>,
    gdma_region: u64,
    region: DmaRegion,
    other: usize,
)
    requires
        !before.contains_key(region_key(gdma_region)),
        other != region_key(gdma_region),
    ensures
        ({
            let created = before.insert(region_key(gdma_region), Slot::Dma(region));
            let removed = created.remove(region_key(gdma_region));
            &&& created[region_key(gdma_region)] == Slot::Dma(region)
            &&& created.contains_key(region_key(gdma_region))
            &&& created.contains_key(other) == before.contains_key(other)
            &&& before.contains_key(other) ==> created[other] == before[other]
            &&& removed == before
        }),
{
    assert(before.insert(region_key(gdma_region), Slot::Dma(region)).remove(
        region_key(gdma_region),
    ) =~= before);
}

/// Handles start at one: the handle of a region is one above its key, and zero is no handle.
pub proof fn handles_start_at_one(handle: u64, other: u64)
    requires
        1 <= handle <= usize::MAX,
        1 <= other <= usize::MAX,
    ensures
        region_key(handle) == handle - 1,
        region_key(handle) == region_key(other) ==> handle == other,
{
}

/// Pages hold a region if it ends within them. An empty region needs none.
pub proof fn pages_hold_region(pages: int, offset_in_page: u32, length: u64)
    requires
        pages >= 0,
    ensures
        length > 0 ==> (region_fits(pages, offset_in_page, length) <==> offset_in_page + length
            <= 4096 * pages),
        region_fits(pages, offset_in_page, 0),
{
}

/// A region is used by its handle and its exact length. An unknown handle is told before a
/// wrong length.
pub proof fn region_is_used_by_handle(s: &HwState, handle: u64, size: u32)
    ensures
        s.region_error(handle, size) is None <==> s.regions().contains_key(region_key(handle))
            && s.regions()[region_key(handle)]->Dma_0.length == size,
        !s.regions().contains_key(region_key(handle)) ==> s.region_error(handle, size) == Some(
            HwcError::DmaRegionNotFound,
        ),
        s.regions().contains_key(region_key(handle))
            && s.regions()[region_key(handle)]->Dma_0.length != size ==> s.region_error(
            handle,
            size,
        ) == Some(HwcError::DmaRegionSize),
{
}

/// The driver is told its queues, that there is one request at a time, and that requests and
/// responses have a page each; then that this was all.
pub proof fn establishment_is_told(eq_id: u32, cq_id: u32, rq_id: u32, sq_id: u32, max_cqs: u32)
    ensures
        ({
            let e = init_events(eq_id, cq_id, rq_id, sq_id, max_cqs);
            let told = |i: int, value: u32|
                e[i] == (InitEvent::Data { ty: i as u8, value });
            &&& e.len() == 11
            &&& eq_id < 0x1_0000 ==> (e[0] matches InitEvent::EqIdDb { eq_id: id, doorbell } && id
                == eq_id && doorbell == 0)
            &&& told(1, cq_id)
            &&& told(2, rq_id)
            &&& told(3, sq_id)
            &&& told(4, 1)
            &&& told(5, 4096)
            &&& told(6, 4096)
            &&& told(7, max_cqs)
            &&& told(8, 0)
            &&& told(9, 0)
            &&& e[10] == InitEvent::Done
        }),
{
}

/// A request is looked at if and only if it names the queues of the channel and both its parts
/// have room for their headers and fit in a page. Of several faults the first of these is told.
pub proof fn request_is_checked(
    cq_id: u32,
    sq_id: u32,
    vscq_id: u32,
    vsq_id: u32,
    hdr: GdmaReqHdr,
)
    ensures
        ({
            let e = request_error(cq_id, sq_id, vscq_id, vsq_id, hdr);
            let queues = vscq_id == cq_id && vsq_id == sq_id;
            &&& e is None <==> queues && 40 <= hdr.req_msg_size <= 4096 && 32 <= hdr.resp_msg_size
                <= 4096
            &&& vscq_id != cq_id ==> e == Some(HwcError::MismatchedCq)
            &&& vscq_id == cq_id && vsq_id != sq_id ==> e == Some(HwcError::MismatchedSq)
            &&& queues && hdr.req_msg_size > 4096 ==> e == Some(HwcError::RequestTooLarge)
            &&& queues && hdr.req_msg_size <= 4096 && hdr.resp_msg_size > 4096 ==> e == Some(
                HwcError::ResponseTooLarge,
            )
            &&& queues && hdr.resp_msg_size <= 4096 && hdr.req_msg_size < 40 ==> e == Some(
                HwcError::Access,
            )
            &&& queues && hdr.req_msg_size <= 4096 && hdr.resp_msg_size < 32 ==> e == Some(
                HwcError::Access,
            )
        }),
{
}

/// Only the basic NIC can be enabled and disabled, and not twice in a row.
pub proof fn device_is_enabled_once(c: HwControl, dev_id: GdmaDevId)
    ensures
        ({
            let is_nic = dev_id.ty == 2 && dev_id.instance == 1;
            let on = hwc_error(c, dev_id, HwcRequest::RegisterDevice);
            let off = hwc_error(c, dev_id, HwcRequest::DeregisterDevice);
            &&& on is None <==> is_nic && !c.bnic_enabled
            &&& off is None <==> is_nic && c.bnic_enabled
            &&& !is_nic ==> on == Some(HwcError::InvalidDevice) && off == Some(
                HwcError::InvalidDevice,
            )
            &&& is_nic && c.bnic_enabled ==> on == Some(HwcError::AlreadyEnabled)
            &&& is_nic && !c.bnic_enabled ==> off == Some(HwcError::NotEnabled)
        }),
{
}

/// A region is taken if all its pages come with the request and hold it.
pub proof fn region_is_checked(
    c: HwControl,
    dev_id: GdmaDevId,
    page_count: u32,
    page_addr_list_len: u32,
    pages: Option<Vec<u64>>,
    offset_in_page: u32,
    length: u64,
)
    ensures
        ({
            let e = hwc_error(
                c,
                dev_id,
                HwcRequest::CreateDmaRegion {
                    page_count,
                    page_addr_list_len,
                    pages,
                    offset_in_page,
                    length,
                },
            );
            let whole = page_addr_list_len == page_count;
            let held = length == 0 || offset_in_page + length <= 4096 * pages->0@.len();
            &&& e is None <==> whole && pages is Some && held
            &&& !whole ==> e == Some(HwcError::LargeRegion)
            &&& whole && pages is None ==> e == Some(HwcError::Access)
            &&& whole && pages is Some && !held ==> e == Some(HwcError::BadRegion)
        }),
{
}

/// Only event queues are created and destroyed here, and one needs a region of its size.
/// Anything that is not known fails; events, versions, limits and the list of devices do not.
pub proof fn only_event_queues_are_made_here(
    c: HwControl,
    dev_id: GdmaDevId,
    queue_type: GdmaQueueType,
    gdma_region: u64,
    queue_size: u32,
    queue_index: u32,
    msix: u32,
    version: u64,
)
    ensures
        ({
            let create = hwc_error(
                c,
                dev_id,
                HwcRequest::CreateQueue {
                    queue_type,
                    gdma_region,
                    queue_size,
                    eq_pci_msix_index: msix,
                },
            );
            let disable = hwc_error(c, dev_id, HwcRequest::DisableQueue { queue_type, queue_index });
            &&& queue_type.0 != 4 ==> create == Some(HwcError::UnsupportedQueueType) && disable
                == Some(HwcError::UnsupportedQueueType)
            &&& queue_type.0 == 4 ==> create == c.state.region_error(gdma_region, queue_size)
                && disable is None
        }),
        hwc_error(c, dev_id, HwcRequest::Unsupported) == Some(HwcError::UnsupportedMessage),
        hwc_error(c, dev_id, HwcRequest::GenerateTestEqe { queue_index }) is None,
        hwc_error(c, dev_id, HwcRequest::GenerateReconfigVfEvent { queue_index }) is None,
        hwc_error(
            c,
            dev_id,
            HwcRequest::VerifyVfDriverVersion { protocol_ver_min: version },
        ) is None,
        hwc_error(c, dev_id, HwcRequest::QueryMaxResources) is None,
        hwc_error(c, dev_id, HwcRequest::ListDevices) is None,
        hwc_error(c, dev_id, HwcRequest::ChangeMsixForEq { queue_index, msix }) is None,
{
}

} // verus!
