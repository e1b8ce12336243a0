//! The basic NIC behind the hardware channel.
use crate::gdma::hwc::{region_key, HwState, HwcError};
use crate::gdma_defs::bnic::{
    BasicNicDriverFlags, ManaConfigVportReq, ManaConfigVportResp, ManaCreateWqobjReq,
    ManaCreateWqobjResp, ManaDestroyWqobjReq, ManaQueryDeviceCfgResp, ManaQueryFilterStateReq,
    ManaQueryVportCfgReq, ManaQueryVportCfgResp, ManaSetVportSerialNo, GDMA_RQ, GDMA_SQ,
    MANA_CONFIG_VPORT_RX, MANA_CONFIG_VPORT_TX, MANA_CREATE_WQ_OBJ, MANA_DESTROY_WQ_OBJ,
    MANA_QUERY_DEV_CONFIG, MANA_QUERY_VPORT_CONFIG, MANA_VTL2_ASSIGN_SERIAL_NUMBER,
    MANA_VTL2_QUERY_FILTER_STATE, TRISTATE_FALSE, TRISTATE_TRUE,
};
use crate::wire::{push_zeros, read_u32, read_u64, u32_at, u64_at, zeros};
use vstd::prelude::*;

verus! {

/// Byte length of a request for the device configuration.
pub const QUERY_DEV_CONFIG_REQ_LEN: usize = 48;

/// Byte length of a request that sets up reception, without the table.
pub const CFG_RX_STEER_REQ_LEN: usize = 72;

/// Configuration of the basic NIC.
#[derive(Debug, Clone, Copy, PartialEq, Eq, Structural)]
pub struct BnicConfig {
    /// The link speed in megabits per second.
    pub adapter_link_speed_mbps: u32,
}

impl Default for BnicConfig {
    /// The link speed is not reported.
    fn default() -> (c: BnicConfig)
        ensures
            c.adapter_link_speed_mbps == 0,
    {
        BnicConfig { adapter_link_speed_mbps: 0 }
    }
}

/// A work queue and its completion queue.
#[derive(Debug, Clone, Copy, PartialEq, Eq, Structural)]
pub struct QueuePair {
    /// The work queue.
    pub wq_id: u32,
    /// The completion queue.
    pub cq_id: u32,
}

/// A virtual port.
#[derive(Debug, Clone, Copy)]
pub struct Vport {
    /// Its MAC address.
    pub mac_address: [u8; 6],
    /// Its send queue.
    pub tx: Option<QueuePair>,
    /// Its receive queue.
    pub rx: Option<QueuePair>,
    /// Its serial number.
    pub serial_no: u32,
    /// Whether a task serves its queues.
    pub has_task: bool,
    /// Whether that task runs.
    pub task_running: bool,
}

/// The basic NIC.
#[derive(Debug)]
pub struct BasicNic {
    /// Its ports.
    pub vports: Vec<Vport>,
    /// Its configuration.
    pub config: BnicConfig,
}

/// What has to be done for a request.
#[derive(Debug, Clone, Copy, PartialEq, Eq, Structural)]
pub enum BnicAction {
    /// Nothing.
    Done,
    /// Queues have to be allocated in two regions; then
    /// [`BasicNic::finish_create_wq`].
    AllocQueues {
        /// The port.
        vport: usize,
        /// Whether it is a send queue.
        is_send: bool,
        /// The region of the work queue.
        wq_gdma_region: u64,
        /// The region of the completion queue.
        cq_gdma_region: u64,
        /// The event queue of the completion queue.
        cq_parent_qid: u32,
    },
    /// Queues have to be freed.
    FreeQueues {
        /// Whether it is a send queue.
        is_send: bool,
        /// The queues.
        queues: QueuePair,
    },
    /// The task of a port, and its endpoint, have to be stopped.
    StopTask {
        /// The port.
        vport: usize,
    },
    /// The task of a port has to be started; then [`BasicNic::task_started`].
    StartTask {
        /// The port.
        vport: usize,
        /// Its send queue.
        tx: QueuePair,
        /// Its receive queue.
        rx: QueuePair,
    },
}

/// A response in a buffer of `n` bytes: the rest is zero, so that a newer driver
/// finds zeros in fields that this device does not know.
pub open spec fn padded(resp: Seq<u8>, n: nat) -> Seq<u8> {
    resp + zeros((n - resp.len()) as nat)
}

/// The response, if it fits.
pub open spec fn fitted(resp: Seq<u8>, n: nat) -> Result<Seq<u8>, HwcError> {
    if resp.len() <= n {
        Ok(padded(resp, n))
    } else {
        Err(HwcError::Write)
    }
}

/// The configuration that is reported.
pub open spec fn device_config(vports: u16, link_speed_mbps: u32) -> ManaQueryDeviceCfgResp {
    ManaQueryDeviceCfgResp {
        pf_cap_flags1: BasicNicDriverFlags(0),
        pf_cap_flags2: 0,
        pf_cap_flags3: 0,
        pf_cap_flags4: 0,
        max_num_vports: vports,
        reserved: 0,
        max_num_eqs: 64,
        adapter_mtu: 0,
        reserved2: 0,
        adapter_link_speed_mbps: link_speed_mbps,
    }
}

/// What a request does: the ports, the response and what has to be done.
pub struct BnicOutcome {
    /// The ports.
    pub vports: Seq<Vport>,
    /// The response.
    pub response: Seq<u8>,
    /// What has to be done.
    pub action: BnicAction,
}

/// What the creation of a queue does.
pub open spec fn wq_created(nic: BasicNic, state: &HwState, req: ManaCreateWqobjReq, n: nat) ->
    Result<BnicOutcome, HwcError> {
    let vport = nic.vports@[req.vport as int];
    if req.vport >= nic.vports@.len() {
        Err(HwcError::InvalidVport)
    } else if req.wq_type.0 != GDMA_SQ && req.wq_type.0 != GDMA_RQ {
        Err(HwcError::UnsupportedQueueType)
    } else if (req.wq_type.0 == GDMA_SQ && vport.tx is Some) || (req.wq_type.0 == GDMA_RQ
        && vport.rx is Some) {
        Err(HwcError::QueueExists)
    } else {
        match (
            state.region_error(req.wq_gdma_region, req.wq_size),
            state.region_error(req.cq_gdma_region, req.cq_size),
        ) {
            (Some(err), _) => Err(err),
            (None, Some(err)) => Err(err),
            (None, None) => Ok(
                BnicOutcome {
                    vports: nic.vports@,
                    response: zeros(n),
                    action: BnicAction::AllocQueues {
                        vport: req.vport as usize,
                        is_send: req.wq_type.0 == GDMA_SQ,
                        wq_gdma_region: req.wq_gdma_region,
                        cq_gdma_region: req.cq_gdma_region,
                        cq_parent_qid: req.cq_parent_qid,
                    },
                },
            ),
        }
    }
}

/// What the destruction of a queue does.
pub open spec fn wq_destroyed(nic: BasicNic, req: ManaDestroyWqobjReq, n: nat) -> Result<
    BnicOutcome,
    HwcError,
> {
    let i = req.wq_obj_handle as int;
    let vport = nic.vports@[i];
    let is_send = req.wq_type.0 == GDMA_SQ;
    let queues = if is_send {
        vport.tx
    } else {
        vport.rx
    };
    if i >= nic.vports@.len() {
        Err(HwcError::InvalidVport)
    } else if vport.has_task {
        Err(HwcError::QueueInUse)
    } else if req.wq_type.0 != GDMA_SQ && req.wq_type.0 != GDMA_RQ {
        Err(HwcError::UnsupportedQueueType)
    } else if queues is None {
        Err(HwcError::NoQueue)
    } else {
        Ok(
            BnicOutcome {
                vports: nic.vports@.update(
                    i,
                    if is_send {
                        Vport { tx: None, ..vport }
                    } else {
                        Vport { rx: None, ..vport }
                    },
                ),
                response: zeros(n),
                action: BnicAction::FreeQueues { is_send, queues: queues->0 },
            },
        )
    }
}

/// What the configuration of reception does.
pub open spec fn rx_configured(nic: BasicNic, index: u64, rx_enable: u32, n: nat) -> Result<
    BnicOutcome,
    HwcError,
> {
    let vport = nic.vports@[index as int];
    if index >= nic.vports@.len() {
        Err(HwcError::InvalidVport)
    } else if rx_enable == TRISTATE_FALSE && vport.task_running {
        Ok(
            BnicOutcome {
                vports: nic.vports@.update(
                    index as int,
                    Vport { has_task: false, task_running: false, ..vport },
                ),
                response: zeros(n),
                action: BnicAction::StopTask { vport: index as usize },
            },
        )
    } else if rx_enable == TRISTATE_TRUE && !vport.task_running {
        if vport.tx is Some && vport.rx is Some {
            Ok(
                BnicOutcome {
                    vports: nic.vports@,
                    response: zeros(n),
                    action: BnicAction::StartTask {
                        vport: index as usize,
                        tx: vport.tx->0,
                        rx: vport.rx->0,
                    },
                },
            )
        } else {
            Err(HwcError::QueuesNotConfigured)
        }
    } else {
        Ok(
            BnicOutcome {
                vports: nic.vports@,
                response: zeros(n),
                action: BnicAction::Done,
            },
        )
    }
}

/// What a request that only answers does.
pub open spec fn answered(nic: BasicNic, resp: Seq<u8>, n: nat) -> Result<BnicOutcome, HwcError> {
    match fitted(resp, n) {
        Ok(response) => Ok(
            BnicOutcome { vports: nic.vports@, response, action: BnicAction::Done },
        ),
        Err(err) => Err(err),
    }
}

/// What a request does, which has room for a response of `n` bytes.
pub open spec fn bnic_outcome(
    nic: BasicNic,
    state: &HwState,
    msg_type: u32,
    read: Seq<u8>,
    n: nat,
) -> Result<BnicOutcome, HwcError> {
    if msg_type == MANA_QUERY_DEV_CONFIG {
        let resp = device_config(
            nic.vports@.len() as u16,
            nic.config.adapter_link_speed_mbps,
        ).bytes();
        if read.len() < QUERY_DEV_CONFIG_REQ_LEN {
            Err(HwcError::Access)
        } else {
            // An older driver asks for less.
            Ok(
                BnicOutcome {
                    vports: nic.vports@,
                    response: if resp.len() <= n {
                        padded(resp, n)
                    } else {
                        resp.take(n as int)
                    },
                    action: BnicAction::Done,
                },
            )
        }
    } else if msg_type == MANA_CONFIG_VPORT_TX {
        if read.len() < 16 {
            Err(HwcError::Access)
        } else if ManaConfigVportReq::decoded(read).vport >= nic.vports@.len() {
            Err(HwcError::InvalidVport)
        } else {
            answered(
                nic,
                ManaConfigVportResp {
                    tx_vport_offset: 0,
                    short_form_allowed: 1,
                    reserved: 0,
                }.bytes(),
                n,
            )
        }
    } else if msg_type == MANA_CREATE_WQ_OBJ {
        if read.len() < 48 {
            Err(HwcError::Access)
        } else {
            wq_created(nic, state, ManaCreateWqobjReq::decoded(read), n)
        }
    } else if msg_type == MANA_DESTROY_WQ_OBJ {
        if read.len() < 16 {
            Err(HwcError::Access)
        } else {
            wq_destroyed(nic, ManaDestroyWqobjReq::decoded(read), n)
        }
    } else if msg_type == MANA_CONFIG_VPORT_RX {
        if read.len() < CFG_RX_STEER_REQ_LEN {
            Err(HwcError::Access)
        } else {
            rx_configured(nic, u64_at(read, 0), u32_at(read, 12), n)
        }
    } else if msg_type == MANA_VTL2_QUERY_FILTER_STATE {
        if read.len() < 8 {
            Err(HwcError::Access)
        } else if ManaQueryFilterStateReq::decoded(read).vport >= nic.vports@.len() {
            Err(HwcError::InvalidVport)
        } else {
            answered(nic, zeros(8), n)
        }
    } else if msg_type == MANA_QUERY_VPORT_CONFIG {
        let i = ManaQueryVportCfgReq::decoded(read).vport_index;
        if read.len() < 4 {
            Err(HwcError::Access)
        } else if i >= nic.vports@.len() {
            Err(HwcError::InvalidVport)
        } else {
            answered(nic, vport_config(nic.vports@[i as int], i), n)
        }
    } else if msg_type == MANA_VTL2_ASSIGN_SERIAL_NUMBER {
        let req = ManaSetVportSerialNo::decoded(read);
        if read.len() < 16 {
            Err(HwcError::Access)
        } else if req.vport >= nic.vports@.len() {
            Err(HwcError::InvalidVport)
        } else {
            Ok(
                BnicOutcome {
                    vports: nic.vports@.update(
                        req.vport as int,
                        Vport { serial_no: req.serial_no, ..nic.vports@[req.vport as int] },
                    ),
                    response: zeros(n),
                    action: BnicAction::Done,
                },
            )
        }
    } else {
        Err(HwcError::UnsupportedMessage)
    }
}

/// The configuration of a port that is reported: one send and one receive queue.
pub open spec fn vport_config(vport: Vport, index: u32) -> Seq<u8> {
    crate::wire::le32(1) + crate::wire::le32(1) + crate::wire::le32(128) + crate::wire::le32(0)
        + vport.mac_address@ + zeros(2) + crate::wire::le64(index as u64)
}

fn pad(resp: Vec<u8>, n: usize) -> (r: Result<Vec<u8>, HwcError>)
    ensures
        match fitted(resp@, n as nat) {
            Ok(bytes) => r is Ok && r->Ok_0@ == bytes,
            Err(err) => r == Err::<Vec<u8>, HwcError>(err),
        },
{
    if resp.len() <= n {
        let mut out = resp;
        let have: usize = out.len();
        push_zeros(&mut out, n - have);
        Ok(out)
    } else {
        Err(HwcError::Write)
    }
}

/// What is written to the room for a response of `n` bytes before the request is
/// looked at: zeros. A request that fails leaves them there.
pub fn zero_response(n: usize) -> (r: Vec<u8>)
    ensures
        r@ == zeros(n as nat),
{
    let mut out: Vec<u8> = Vec::new();
    push_zeros(&mut out, n);
    assert(out@ =~= zeros(n as nat));
    out
}

/// A response and what has to be done.
#[derive(Debug)]
pub struct BnicReply {
    /// The response.
    pub response: Vec<u8>,
    /// What has to be done.
    pub action: BnicAction,
}

/// Whether a reply and the ports are what a request leads to.
pub open spec fn is_outcome(
    outcome: Result<BnicOutcome, HwcError>,
    before: Seq<Vport>,
    after: Seq<Vport>,
    r: Result<BnicReply, HwcError>,
) -> bool {
    match outcome {
        Ok(o) => {
            &&& r is Ok
            &&& r->Ok_0.response@ == o.response
            &&& r->Ok_0.action == o.action
            &&& after == o.vports
        },
        Err(err) => r == Err::<BnicReply, HwcError>(err) && after == before,
    }
}

impl BasicNic {
    /// A NIC with the given ports.
    pub fn new(mac_addresses: &Vec<[u8; 6]>, config: BnicConfig) -> (nic: BasicNic)
        requires
            mac_addresses@.len() > 0,
        ensures
            nic.config == config,
            nic.vports@.len() == mac_addresses@.len(),
            forall|i: int|
                0 <= i < nic.vports@.len() ==> (#[trigger] nic.vports@[i]) == (Vport {
                    mac_address: mac_addresses@[i],
                    tx: None,
                    rx: None,
                    serial_no: 0,
                    has_task: false,
                    task_running: false,
                }),
    {
        let mut vports: Vec<Vport> = Vec::new();
        let mut i: usize = 0;
        while i < mac_addresses.len()
            invariant
                i <= mac_addresses@.len(),
                vports@.len() == i,
                forall|k: int|
                    0 <= k < i ==> (#[trigger] vports@[k]) == (Vport {
                        mac_address: mac_addresses@[k],
                        tx: None,
                        rx: None,
                        serial_no: 0,
                        has_task: false,
                        task_running: false,
                    }),
            decreases mac_addresses@.len() - i,
        {
            let mac_address: [u8; 6] = mac_addresses[i];
            vports.push(
                Vport {
                    mac_address,
                    tx: None,
                    rx: None,
                    serial_no: 0,
                    has_task: false,
                    task_running: false,
                },
            );
            i = i + 1;
        }
        BasicNic { vports, config }
    }

    fn query_dev_config(&self, read: &[u8], n: usize) -> (r: Result<BnicReply, HwcError>)
        ensures
            forall|state: HwState|
                is_outcome(
                    #[trigger] bnic_outcome(*self, &state, MANA_QUERY_DEV_CONFIG, read@, n as nat),
                    self.vports@,
                    self.vports@,
                    r,
                ),
    {
        if read.len() < QUERY_DEV_CONFIG_REQ_LEN {
            return Err(HwcError::Access);
        }
        #[verifier::truncate]
        let vports: u16 = self.vports.len() as u16;
        let resp = ManaQueryDeviceCfgResp {
            pf_cap_flags1: BasicNicDriverFlags(0),
            pf_cap_flags2: 0,
            pf_cap_flags3: 0,
            pf_cap_flags4: 0,
            max_num_vports: vports,
            reserved: 0,
            max_num_eqs: 64,
            adapter_mtu: 0,
            reserved2: 0,
            adapter_link_speed_mbps: self.config.adapter_link_speed_mbps,
        };
        let mut bytes: Vec<u8> = Vec::new();
        resp.push_to(&mut bytes);
        assert(bytes@ =~= resp.bytes());
        let response = if bytes.len() <= n {
            let have: usize = bytes.len();
            push_zeros(&mut bytes, n - have);
            bytes
        } else {
            let ghost all = bytes@;
            bytes.truncate(n);
            assert(bytes@ =~= all.take(n as int));
            bytes
        };
        Ok(BnicReply { response, action: BnicAction::Done })
    }

    fn create_wq(&self, state: &HwState, req: &ManaCreateWqobjReq, n: usize) -> (r: Result<
        BnicReply,
        HwcError,
    >)
        requires
            state.wf(),
        ensures
            is_outcome(wq_created(*self, state, *req, n as nat), self.vports@, self.vports@, r),
    {
        if req.vport >= self.vports.len() as u64 {
            return Err(HwcError::InvalidVport);
        }
        let vport = self.vports[req.vport as usize];
        let is_send = if req.wq_type.0 == GDMA_RQ {
            false
        } else if req.wq_type.0 == GDMA_SQ {
            true
        } else {
            return Err(HwcError::UnsupportedQueueType);
        };
        if (is_send && vport.tx.is_some()) || (!is_send && vport.rx.is_some()) {
            return Err(HwcError::QueueExists);
        }
        match state.get_dma_region(req.wq_gdma_region, req.wq_size) {
            Ok(_) => {},
            Err(err) => return Err(err),
        }
        match state.get_dma_region(req.cq_gdma_region, req.cq_size) {
            Ok(_) => {},
            Err(err) => return Err(err),
        }
        Ok(
            BnicReply {
                response: zero_response(n),
                action: BnicAction::AllocQueues {
                    vport: req.vport as usize,
                    is_send,
                    wq_gdma_region: req.wq_gdma_region,
                    cq_gdma_region: req.cq_gdma_region,
                    cq_parent_qid: req.cq_parent_qid,
                },
            },
        )
    }

    fn destroy_wq(&mut self, req: &ManaDestroyWqobjReq, n: usize) -> (r: Result<
        BnicReply,
        HwcError,
    >)
        ensures
            is_outcome(
                wq_destroyed(*old(self), *req, n as nat),
                old(self).vports@,
                final(self).vports@,
                r,
            ),
            final(self).config == old(self).config,
    {
        if req.wq_obj_handle >= self.vports.len() as u64 {
            return Err(HwcError::InvalidVport);
        }
        let i: usize = req.wq_obj_handle as usize;
        let mut vport = self.vports[i];
        if vport.has_task {
            return Err(HwcError::QueueInUse);
        }
        let is_send = if req.wq_type.0 == GDMA_RQ {
            false
        } else if req.wq_type.0 == GDMA_SQ {
            true
        } else {
            return Err(HwcError::UnsupportedQueueType);
        };
        let taken = if is_send {
            vport.tx
        } else {
            vport.rx
        };
        let queues = match taken {
            Some(queues) => queues,
            None => return Err(HwcError::NoQueue),
        };
        if is_send {
            vport.tx = None;
        } else {
            vport.rx = None;
        }
        self.vports.set(i, vport);
        Ok(
            BnicReply {
                response: zero_response(n),
                action: BnicAction::FreeQueues { is_send, queues },
            },
        )
    }

    fn config_vport_rx(&mut self, index: u64, rx_enable: u32, n: usize) -> (r: Result<
        BnicReply,
        HwcError,
    >)
        ensures
            is_outcome(
                rx_configured(*old(self), index, rx_enable, n as nat),
                old(self).vports@,
                final(self).vports@,
                r,
            ),
            final(self).config == old(self).config,
    {
        if index >= self.vports.len() as u64 {
            return Err(HwcError::InvalidVport);
        }
        let i: usize = index as usize;
        let mut vport = self.vports[i];
        if rx_enable == TRISTATE_FALSE && vport.task_running {
            vport.has_task = false;
            vport.task_running = false;
            self.vports.set(i, vport);
            return Ok(
                BnicReply {
                    response: zero_response(n),
                    action: BnicAction::StopTask { vport: i },
                },
            );
        }
        if rx_enable == TRISTATE_TRUE && !vport.task_running {
            return match (vport.tx, vport.rx) {
                (Some(tx), Some(rx)) => Ok(
                    BnicReply {
                        response: zero_response(n),
                        action: BnicAction::StartTask { vport: i, tx, rx },
                    },
                ),
                _ => Err(HwcError::QueuesNotConfigured),
            };
        }
        Ok(BnicReply { response: zero_response(n), action: BnicAction::Done })
    }

    fn query_vport_config(&self, read: &[u8], n: usize) -> (r: Result<BnicReply, HwcError>)
        ensures
            forall|state: HwState|
                is_outcome(
                    #[trigger] bnic_outcome(*self, &state, MANA_QUERY_VPORT_CONFIG, read@, n as nat),
                    self.vports@,
                    self.vports@,
                    r,
                ),
    {
        let req = match ManaQueryVportCfgReq::read(read) {
            Some(req) => req,
            None => return Err(HwcError::Access),
        };
        if req.vport_index as u64 >= self.vports.len() as u64 {
            return Err(HwcError::InvalidVport);
        }
        let vport = self.vports[req.vport_index as usize];
        let resp = ManaQueryVportCfgResp {
            max_num_sq: 1,
            max_num_rq: 1,
            num_indirection_ent: 128,
            reserved1: 0,
            mac_addr: vport.mac_address,
            reserved2: [0, 0],
            vport: req.vport_index as u64,
        };
        assert(resp.reserved2@ =~= zeros(2));
        let mut bytes: Vec<u8> = Vec::new();
        resp.push_to(&mut bytes);
        assert(bytes@ =~= vport_config(vport, req.vport_index));
        match pad(bytes, n) {
            Ok(response) => Ok(BnicReply { response, action: BnicAction::Done }),
            Err(err) => Err(err),
        }
    }

    fn config_vport_tx(&self, read: &[u8], n: usize) -> (r: Result<BnicReply, HwcError>)
        ensures
            forall|state: HwState|
                is_outcome(
                    #[trigger] bnic_outcome(*self, &state, MANA_CONFIG_VPORT_TX, read@, n as nat),
                    self.vports@,
                    self.vports@,
                    r,
                ),
    {
        let req = match ManaConfigVportReq::read(read) {
            Some(req) => req,
            None => return Err(HwcError::Access),
        };
        if req.vport >= self.vports.len() as u64 {
            return Err(HwcError::InvalidVport);
        }
        let resp = ManaConfigVportResp { tx_vport_offset: 0, short_form_allowed: 1, reserved: 0 };
        let mut bytes: Vec<u8> = Vec::new();
        resp.push_to(&mut bytes);
        assert(bytes@ =~= resp.bytes());
        match pad(bytes, n) {
            Ok(response) => Ok(BnicReply { response, action: BnicAction::Done }),
            Err(err) => Err(err),
        }
    }

    fn query_filter_state(&self, read: &[u8], n: usize) -> (r: Result<BnicReply, HwcError>)
        ensures
            forall|state: HwState|
                is_outcome(
                    #[trigger] bnic_outcome(*self, &state, MANA_VTL2_QUERY_FILTER_STATE, read@, n as nat),
                    self.vports@,
                    self.vports@,
                    r,
                ),
    {
        let req = match ManaQueryFilterStateReq::read(read) {
            Some(req) => req,
            None => return Err(HwcError::Access),
        };
        if req.vport >= self.vports.len() as u64 {
            return Err(HwcError::InvalidVport);
        }
        let bytes = zero_response(8);
        match pad(bytes, n) {
            Ok(response) => Ok(BnicReply { response, action: BnicAction::Done }),
            Err(err) => Err(err),
        }
    }

    fn set_serial_number(&mut self, read: &[u8], n: usize) -> (r: Result<BnicReply, HwcError>)
        ensures
            forall|state: HwState|
                is_outcome(
                    #[trigger] bnic_outcome(
                        *old(self),
                        &state,
                        MANA_VTL2_ASSIGN_SERIAL_NUMBER,
                        read@,
                        n as nat,
                    ),
                    old(self).vports@,
                    final(self).vports@,
                    r,
                ),
            final(self).config == old(self).config,
    {
        let req = match ManaSetVportSerialNo::read(read) {
            Some(req) => req,
            None => return Err(HwcError::Access),
        };
        if req.vport >= self.vports.len() as u64 {
            return Err(HwcError::InvalidVport);
        }
        let i: usize = req.vport as usize;
        let mut vport = self.vports[i];
        vport.serial_no = req.serial_no;
        self.vports.set(i, vport);
        Ok(BnicReply { response: zero_response(n), action: BnicAction::Done })
    }

    /// Handles a request, which has room for a response of `n` bytes. A request
    /// that fails changes nothing.
    pub fn handle_req(&mut self, state: &HwState, msg_type: u32, read: &[u8], n: usize) -> (r:
        Result<BnicReply, HwcError>)
        requires
            state.wf(),
        ensures
            is_outcome(
                bnic_outcome(*old(self), state, msg_type, read@, n as nat),
                old(self).vports@,
                final(self).vports@,
                r,
            ),
            final(self).config == old(self).config,
    {
        if msg_type == MANA_QUERY_DEV_CONFIG {
            self.query_dev_config(read, n)
        } else if msg_type == MANA_CONFIG_VPORT_TX {
            self.config_vport_tx(read, n)
        } else if msg_type == MANA_CREATE_WQ_OBJ {
            match ManaCreateWqobjReq::read(read) {
                Some(req) => self.create_wq(state, &req, n),
                None => Err(HwcError::Access),
            }
        } else if msg_type == MANA_DESTROY_WQ_OBJ {
            match ManaDestroyWqobjReq::read(read) {
                Some(req) => self.destroy_wq(&req, n),
                None => Err(HwcError::Access),
            }
        } else if msg_type == MANA_CONFIG_VPORT_RX {
            if read.len() < CFG_RX_STEER_REQ_LEN {
                return Err(HwcError::Access);
            }
            self.config_vport_rx(read_u64(read, 0), read_u32(read, 12), n)
        } else if msg_type == MANA_VTL2_QUERY_FILTER_STATE {
            self.query_filter_state(read, n)
        } else if msg_type == MANA_QUERY_VPORT_CONFIG {
            self.query_vport_config(read, n)
        } else if msg_type == MANA_VTL2_ASSIGN_SERIAL_NUMBER {
            self.set_serial_number(read, n)
        } else {
            Err(HwcError::UnsupportedMessage)
        }
    }

    /// Handles a request in the room for its response. Zeros are written first, so that
    /// a request that fails leaves the room zero, and so is what the device does not
    /// know.
    pub fn respond(&mut self, state: &HwState, msg_type: u32, read: &[u8], room: &mut Vec<u8>) -> (r:
        Result<BnicAction, HwcError>)
        requires
            state.wf(),
        ensures
            final(self).config == old(self).config,
            match bnic_outcome(*old(self), state, msg_type, read@, old(room)@.len()) {
                Ok(o) => {
                    &&& r == Ok::<BnicAction, HwcError>(o.action)
                    &&& final(room)@ == o.response
                    &&& final(self).vports@ == o.vports
                },
                Err(err) => {
                    &&& r == Err::<BnicAction, HwcError>(err)
                    &&& final(room)@ == zeros(old(room)@.len())
                    &&& final(self).vports@ == old(self).vports@
                },
            },
    {
        let n: usize = room.len();
        *room = zero_response(n);
        match self.handle_req(state, msg_type, read, n) {
            Ok(reply) => {
                *room = reply.response;
                Ok(reply.action)
            },
            Err(err) => Err(err),
        }
    }

    /// Ends the creation of queues, which takes ownership of their regions. The
    /// port serves as handle. `None` for queues that could not be allocated. If
    /// the response does not fit, the queues exist all the same.
    pub fn finish_create_wq(
        &mut self,
        state: &mut HwState,
        vport: usize,
        is_send: bool,
        wq_gdma_region: u64,
        cq_gdma_region: u64,
        queues: Option<QueuePair>,
        n: usize,
    ) -> (r: Result<Vec<u8>, HwcError>)
        requires
            old(state).wf(),
            vport < old(self).vports@.len(),
            old(state).regions().contains_key(region_key(wq_gdma_region)),
            old(state).regions().contains_key(region_key(cq_gdma_region)),
            region_key(wq_gdma_region) != region_key(cq_gdma_region),
        ensures
            final(state).wf(),
            final(self).config == old(self).config,
            match queues {
                None => {
                    &&& r == Err::<Vec<u8>, HwcError>(HwcError::QueueAlloc)
                    &&& final(self).vports@ == old(self).vports@
                    &&& final(state).regions() == old(state).regions()
                    &&& final(state).keys() == old(state).keys()
                },
                Some(q) => {
                    let before = old(self).vports@[vport as int];
                    let resp = ManaCreateWqobjResp {
                        wq_id: q.wq_id,
                        cq_id: q.cq_id,
                        wq_obj: vport as u64,
                    }.bytes();
                    &&& final(self).vports@ == old(self).vports@.update(
                        vport as int,
                        if is_send {
                            Vport { tx: Some(q), ..before }
                        } else {
                            Vport { rx: Some(q), ..before }
                        },
                    )
                    &&& match fitted(resp, n as nat) {
                        Ok(response) => {
                            &&& r is Ok
                            &&& r->Ok_0@ == response
                            &&& final(state).regions() == old(state).regions().remove(
                                region_key(wq_gdma_region),
                            ).remove(region_key(cq_gdma_region))
                            &&& final(state).keys() == old(state).keys().push(
                                region_key(wq_gdma_region),
                            ).push(region_key(cq_gdma_region))
                        },
                        Err(err) => {
                            &&& r == Err::<Vec<u8>, HwcError>(err)
                            &&& final(state).regions() == old(state).regions()
                            &&& final(state).keys() == old(state).keys()
                        },
                    }
                },
            },
    {
        let q = match queues {
            Some(q) => q,
            None => return Err(HwcError::QueueAlloc),
        };
        let mut v = self.vports[vport];
        if is_send {
            v.tx = Some(q);
        } else {
            v.rx = Some(q);
        }
        self.vports.set(vport, v);
        let resp = ManaCreateWqobjResp { wq_id: q.wq_id, cq_id: q.cq_id, wq_obj: vport as u64 };
        let mut bytes: Vec<u8> = Vec::new();
        resp.push_to(&mut bytes);
        assert(bytes@ =~= resp.bytes());
        let response = match pad(bytes, n) {
            Ok(response) => response,
            Err(err) => return Err(err),
        };
        let _ = state.remove_dma_region(wq_gdma_region);
        let _ = state.remove_dma_region(cq_gdma_region);
        Ok(response)
    }

    /// Takes note that the task of a port runs. `started` tells whether the endpoint had a
    /// queue for it. If it had none the request fails, and the port is as it was.
    pub fn task_started(&mut self, vport: usize, started: bool) -> (r: Result<(), HwcError>)
        requires
            vport < old(self).vports@.len(),
        ensures
            final(self).config == old(self).config,
            if started {
                &&& r is Ok
                &&& final(self).vports@ == old(self).vports@.update(
                    vport as int,
                    Vport { has_task: true, task_running: true, ..old(self).vports@[vport as int] },
                )
            } else {
                &&& r == Err::<(), HwcError>(HwcError::Endpoint)
                &&& final(self).vports@ == old(self).vports@
            },
    {
        if !started {
            return Err(HwcError::Endpoint);
        }
        let mut v = self.vports[vport];
        v.has_task = true;
        v.task_running = true;
        self.vports.set(vport, v);
        Ok(())
    }
}

/// Every response that succeeds fills the room that the driver has for it: what
/// the device does not know reads as zero.
pub proof fn responses_fill_their_buffer(
    nic: BasicNic,
    state: &HwState,
    msg_type: u32,
    read: Seq<u8>,
    n: nat,
)
    ensures
        bnic_outcome(nic, state, msg_type, read, n) matches Ok(o) ==> o.response.len() == n,
{
}

/// The link speed that the NIC was configured with is the one that the driver is
/// told, and zero by default.
pub proof fn link_speed_is_reported(
    nic: BasicNic,
    state: &HwState,
    read: Seq<u8>,
)
    requires
        read.len() >= QUERY_DEV_CONFIG_REQ_LEN,
    ensures
        bnic_outcome(nic, state, MANA_QUERY_DEV_CONFIG, read, 48) matches Ok(o) && u32_at(
            o.response,
            44,
        ) == nic.config.adapter_link_speed_mbps,
{
    let resp = device_config(nic.vports@.len() as u16, nic.config.adapter_link_speed_mbps).bytes();
    assert(resp.len() == 48);
    assert(padded(resp, 48) =~= resp);
    assert(resp.subrange(44, 48) =~= crate::wire::le32(nic.config.adapter_link_speed_mbps));
    crate::wire::lemma_le32_round_trip(nic.config.adapter_link_speed_mbps);
    crate::wire::lemma_u32_at_subrange(resp, 44);
}

/// Each request has its number and its least length. Those that are too short, or of another
/// number, are refused.
pub proof fn short_or_unknown_requests_are_refused(
    nic: BasicNic,
    state: &HwState,
    msg_type: u32,
    read: Seq<u8>,
    n: nat,
)
    ensures
        ({
            let r = bnic_outcome(nic, state, msg_type, read, n);
            let least: int = if msg_type == 0x20001 {
                48
            } else if msg_type == 0x20003 {
                16
            } else if msg_type == 0x20004 {
                48
            } else if msg_type == 0x20005 {
                16
            } else if msg_type == 0x20007 {
                72
            } else if msg_type == 0x20008 {
                4
            } else if msg_type == 0x27801 {
                16
            } else if msg_type == 0x27803 {
                8
            } else {
                -1
            };
            &&& least == -1 ==> r is Err && r->Err_0 == HwcError::UnsupportedMessage
            &&& read.len() < least ==> r is Err && r->Err_0 == HwcError::Access
            &&& read.len() >= least && least >= 0 ==> !(r is Err && r->Err_0
                == HwcError::UnsupportedMessage)
        }),
{
}

/// A request names a port by its number. One that is not there is told, before all else that
/// may be wrong with the request.
pub proof fn unknown_port_is_told(nic: BasicNic, state: &HwState, msg_type: u32, read: Seq<u8>, n: nat)
    requires
        read.len() >= 72,
    ensures
        ({
            let r = bnic_outcome(nic, state, msg_type, read, n);
            let port: int = if msg_type == 0x20005 {
                u64_at(read, 8) as int
            } else if msg_type == 0x20008 {
                u32_at(read, 0) as int
            } else {
                u64_at(read, 0) as int
            };
            (msg_type == 0x20003 || msg_type == 0x20004 || msg_type == 0x20005 || msg_type == 0x20007
                || msg_type == 0x20008 || msg_type == 0x27801 || msg_type == 0x27803) ==> (port
                >= nic.vports@.len() <==> r is Err && r->Err_0 == HwcError::InvalidVport)
        }),
{
}

/// A request changes no other port than the one it names, and no MAC address.
pub proof fn other_ports_stay(
    nic: BasicNic,
    state: &HwState,
    msg_type: u32,
    read: Seq<u8>,
    n: nat,
    k: int,
)
    requires
        0 <= k < nic.vports@.len(),
    ensures
        bnic_outcome(nic, state, msg_type, read, n) matches Ok(o) ==> {
            let port: int = if msg_type == 0x20005 {
                u64_at(read, 8) as int
            } else {
                u64_at(read, 0) as int
            };
            &&& o.vports.len() == nic.vports@.len()
            &&& k != port ==> o.vports[k] == nic.vports@[k]
            &&& o.vports[k].mac_address == nic.vports@[k].mac_address
            &&& msg_type != 0x27801 ==> o.vports[k].serial_no == nic.vports@[k].serial_no
            &&& msg_type != 0x20005 ==> o.vports[k].tx == nic.vports@[k].tx && o.vports[k].rx
                == nic.vports@[k].rx
            &&& msg_type != 0x20007 ==> o.vports[k].has_task == nic.vports@[k].has_task
                && o.vports[k].task_running == nic.vports@[k].task_running
        },
{
}

/// A queue is created on two regions of the sizes that the request gives, as the first of its
/// type on its port. Type 1 is a send queue and type 2 a receive queue.
pub proof fn queue_is_created_on_its_regions(nic: BasicNic, state: &HwState, read: Seq<u8>, n: nat)
    requires
        read.len() >= 48,
        u64_at(read, 0) < nic.vports@.len(),
        nic.vports@.len() <= usize::MAX,
    ensures
        ({
            let r = bnic_outcome(nic, state, 0x20004, read, n);
            let port = nic.vports@[u64_at(read, 0) as int];
            let ty = u32_at(read, 8);
            let exists_already = (ty == 1 && port.tx is Some) || (ty == 2 && port.rx is Some);
            let wq = state.region_error(u64_at(read, 16), u32_at(read, 32));
            let cq = state.region_error(u64_at(read, 24), u32_at(read, 36));
            &&& r is Ok <==> (ty == 1 || ty == 2) && !exists_already && wq is None && cq is None
            &&& ty != 1 && ty != 2 ==> r is Err && r->Err_0 == HwcError::UnsupportedQueueType
            &&& exists_already ==> r is Err && r->Err_0 == HwcError::QueueExists
            &&& (ty == 1 || ty == 2) && !exists_already && wq is Some ==> r is Err && r->Err_0
                == wq->0
            &&& (ty == 1 || ty == 2) && !exists_already && wq is None && cq is Some ==> r is Err
                && r->Err_0 == cq->0
            &&& r matches Ok(o) ==> o.action == (BnicAction::AllocQueues {
                vport: u64_at(read, 0) as usize,
                is_send: ty == 1,
                wq_gdma_region: u64_at(read, 16),
                cq_gdma_region: u64_at(read, 24),
                cq_parent_qid: u32_at(read, 44),
            })
        }),
{
}

/// A queue that is destroyed is freed, and its port has none of that type afterwards; the queue
/// of the other type stays. While a task serves the port, none is destroyed.
pub proof fn queue_is_destroyed(nic: BasicNic, state: &HwState, read: Seq<u8>, n: nat)
    requires
        read.len() >= 16,
        u64_at(read, 8) < nic.vports@.len(),
    ensures
        ({
            let r = bnic_outcome(nic, state, 0x20005, read, n);
            let i = u64_at(read, 8) as int;
            let port = nic.vports@[i];
            let ty = u32_at(read, 0);
            &&& port.has_task ==> r is Err && r->Err_0 == HwcError::QueueInUse
            &&& !port.has_task && ty != 1 && ty != 2 ==> r is Err && r->Err_0
                == HwcError::UnsupportedQueueType
            &&& !port.has_task && ty == 1 ==> match port.tx {
                None => r is Err && r->Err_0 == HwcError::NoQueue,
                Some(q) => r is Ok && r->Ok_0.vports[i].tx is None && r->Ok_0.vports[i].rx == port.rx
                    && r->Ok_0.action == (BnicAction::FreeQueues { is_send: true, queues: q }),
            }
            &&& !port.has_task && ty == 2 ==> match port.rx {
                None => r is Err && r->Err_0 == HwcError::NoQueue,
                Some(q) => r is Ok && r->Ok_0.vports[i].rx is None && r->Ok_0.vports[i].tx == port.tx
                    && r->Ok_0.action == (BnicAction::FreeQueues { is_send: false, queues: q }),
            }
        }),
{
}

/// Reception is switched by one word of the request: 1 starts the task of the port, which needs
/// both its queues, and 0 stops it. What is so already, and any other number, changes nothing.
pub proof fn reception_is_switched(nic: BasicNic, state: &HwState, read: Seq<u8>, n: nat)
    requires
        read.len() >= 72,
        u64_at(read, 0) < nic.vports@.len(),
        nic.vports@.len() <= usize::MAX,
    ensures
        ({
            let r = bnic_outcome(nic, state, 0x20007, read, n);
            let i = u64_at(read, 0) as int;
            let port = nic.vports@[i];
            let enable = u32_at(read, 12);
            let both = port.tx is Some && port.rx is Some;
            &&& enable == 1 && !port.task_running && both ==> r is Ok && r->Ok_0.action == (
            BnicAction::StartTask { vport: i as usize, tx: port.tx->0, rx: port.rx->0 })
                && r->Ok_0.vports == nic.vports@
            &&& enable == 1 && !port.task_running && !both ==> r is Err && r->Err_0
                == HwcError::QueuesNotConfigured
            &&& enable == 0 && port.task_running ==> r is Ok && r->Ok_0.action == (
            BnicAction::StopTask { vport: i as usize }) && !r->Ok_0.vports[i].task_running
                && !r->Ok_0.vports[i].has_task
            &&& enable == 1 && port.task_running ==> r is Ok && r->Ok_0.action == BnicAction::Done
                && r->Ok_0.vports == nic.vports@
            &&& enable == 0 && !port.task_running ==> r is Ok && r->Ok_0.action == BnicAction::Done
                && r->Ok_0.vports == nic.vports@
            &&& enable != 0 && enable != 1 ==> r is Ok && r->Ok_0.action == BnicAction::Done
                && r->Ok_0.vports == nic.vports@
        }),
{
}

/// The serial number in a request is the one that its port gets.
pub proof fn serial_number_is_set(nic: BasicNic, state: &HwState, read: Seq<u8>, n: nat)
    requires
        read.len() >= 16,
        u64_at(read, 0) < nic.vports@.len(),
    ensures
        ({
            let r = bnic_outcome(nic, state, 0x27801, read, n);
            &&& r is Ok
            &&& r->Ok_0.vports[u64_at(read, 0) as int].serial_no == u32_at(read, 8)
            &&& r->Ok_0.action == BnicAction::Done
        }),
{
}

/// The driver is told how many ports there are, that there are 64 event queues, and the link
/// speed; what it does not ask for is left out, and all else is zero.
pub proof fn device_configuration_is_told(nic: BasicNic, state: &HwState, read: Seq<u8>, n: nat, i: int)
    requires
        read.len() >= 48,
        n >= 48,
        nic.vports@.len() < 0x1_0000,
        0 <= i < n,
    ensures
        bnic_outcome(nic, state, 0x20001, read, n) matches Ok(o) && {
            &&& o.response.len() == n
            &&& o.response[32] + 256 * o.response[33] == nic.vports@.len()
            &&& u32_at(o.response, 36) == 64
            &&& u32_at(o.response, 44) == nic.config.adapter_link_speed_mbps
            &&& i < 32 || 34 <= i < 36 || 40 <= i < 44 || 48 <= i ==> o.response[i] == 0
            &&& o.action == BnicAction::Done
            &&& o.vports == nic.vports@
        },
{
    let c = device_config(nic.vports@.len() as u16, nic.config.adapter_link_speed_mbps);
    let resp = c.bytes();
    c.fields_are_placed();
    let b = padded(resp, n);
    assert forall|k: int| 0 <= k < 48 implies b[k] == resp[k] by {}
    assert(u32_at(b, 36) == u32_at(resp, 36));
    assert(u32_at(b, 44) == u32_at(resp, 44));
    assert(crate::wire::u16_at(resp, 32) == c.max_num_vports);
    if i < 48 {
        assert(b[i] == resp[i]);
        assert(resp.subrange(0, 8) =~= crate::wire::le64(0));
        assert(resp.subrange(8, 16) =~= crate::wire::le64(0));
        assert(resp.subrange(16, 24) =~= crate::wire::le64(0));
        assert(resp.subrange(24, 32) =~= crate::wire::le64(0));
        if i < 8 {
            assert(resp[i] == resp.subrange(0, 8)[i]);
        } else if i < 16 {
            assert(resp[i] == resp.subrange(8, 16)[i - 8]);
        } else if i < 24 {
            assert(resp[i] == resp.subrange(16, 24)[i - 16]);
        } else if i < 32 {
            assert(resp[i] == resp.subrange(24, 32)[i - 24]);
        }
    }
}

/// The driver is told of a port: one send and one receive queue, a table of 128 entries, the MAC
/// address and the number by which it is named.
pub proof fn port_configuration_is_told(nic: BasicNic, state: &HwState, read: Seq<u8>, n: nat)
    requires
        read.len() >= 4,
        n >= 32,
        u32_at(read, 0) < nic.vports@.len(),
    ensures
        bnic_outcome(nic, state, 0x20008, read, n) matches Ok(o) && {
            &&& u32_at(o.response, 0) == 1
            &&& u32_at(o.response, 4) == 1
            &&& u32_at(o.response, 8) == 128
            &&& u32_at(o.response, 12) == 0
            &&& o.response.subrange(16, 22) == nic.vports@[u32_at(read, 0) as int].mac_address@
            &&& u64_at(o.response, 24) == u32_at(read, 0)
            &&& o.action == BnicAction::Done
        },
{
    let i = u32_at(read, 0);
    let resp = vport_config(nic.vports@[i as int], i);
    let b = padded(resp, n);
    assert(resp.len() == 32);
    assert(b.subrange(0, 4) =~= crate::wire::le32(1));
    assert(b.subrange(4, 8) =~= crate::wire::le32(1));
    assert(b.subrange(8, 12) =~= crate::wire::le32(128));
    assert(b.subrange(12, 16) =~= crate::wire::le32(0));
    assert(b.subrange(16, 22) =~= nic.vports@[i as int].mac_address@);
    assert(b.subrange(24, 32) =~= crate::wire::le64(i as u64));
    crate::wire::lemma_u32_at_subrange(b, 0);
    crate::wire::lemma_u32_at_subrange(b, 4);
    crate::wire::lemma_u32_at_subrange(b, 8);
    crate::wire::lemma_u32_at_subrange(b, 12);
    crate::wire::lemma_u64_at_subrange(b, 24);
    crate::wire::lemma_le32_round_trip(1);
    crate::wire::lemma_le32_round_trip(128);
    crate::wire::lemma_le32_round_trip(0);
    crate::wire::lemma_le64_round_trip(i as u64);
}

/// A port that is set up for transmission may use short descriptors, from offset zero. The
/// packet filter of every port is with VTL2.
pub proof fn transmission_is_set_up(nic: BasicNic, state: &HwState, read: Seq<u8>, n: nat, i: int)
    requires
        read.len() >= 16,
        n >= 8,
        u64_at(read, 0) < nic.vports@.len(),
        0 <= i < n,
    ensures
        bnic_outcome(nic, state, 0x20003, read, n) matches Ok(o) && o.response[2] == 1 && (i != 2
            ==> o.response[i] == 0) && o.action == BnicAction::Done && o.vports == nic.vports@,
        bnic_outcome(nic, state, 0x27803, read, n) matches Ok(o) && o.response[i] == 0 && o.action
            == BnicAction::Done && o.vports == nic.vports@,
{
}

/// A response that does not fit is refused; one that fits is followed by zeros.
pub proof fn response_is_fitted(resp: Seq<u8>, n: nat, i: int)
    requires
        0 <= i < n,
    ensures
        resp.len() > n ==> fitted(resp, n) == Err::<Seq<u8>, HwcError>(HwcError::Write),
        resp.len() <= n ==> {
            &&& fitted(resp, n) is Ok
            &&& fitted(resp, n)->Ok_0.len() == n
            &&& i < resp.len() ==> fitted(resp, n)->Ok_0[i] == resp[i]
            &&& i >= resp.len() ==> fitted(resp, n)->Ok_0[i] == 0
        },
{
}

} // verus!
