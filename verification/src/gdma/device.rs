//! The registers of the device.
use crate::wire::{copy_bytes, read_u32, read_u64, u32_at, u64_at};
use vstd::prelude::*;

verus! {

/// Where the shared memory starts, behind the register map.
pub const SHMEM_START: usize = 40;

/// Where the shared memory ends.
pub const SHMEM_END: usize = 72;

/// Byte length of the shared memory.
pub const SHMEM_LEN: usize = 32;

/// Where the doorbells start.
pub const DOORBELLS_START: usize = 4096;

/// Where the doorbells end.
pub const DOORBELLS_END: usize = 8192;

/// The doorbell of send queues.
pub const DB_SQ: usize = 0x000;

/// The doorbell of receive queues.
pub const DB_RQ: usize = 0x400;

/// The doorbell of receive queues with client data.
pub const DB_RQ_CLIENT_DATA: usize = 0x408;

/// The doorbell of completion queues.
pub const DB_CQ: usize = 0x800;

/// The doorbell of event queues.
pub const DB_EQ: usize = 0xff8;

/// Establish the hardware channel.
pub const SMC_MSG_TYPE_ESTABLISH_HWC: u32 = 1;

/// Destroy the hardware channel.
pub const SMC_MSG_TYPE_DESTROY_HWC: u32 = 2;

/// Report that the hardware channel does not answer.
pub const SMC_MSG_TYPE_REPORT_HWC_TIMEOUT: u32 = 4;

/// The version of the message that establishes the channel.
pub const SMC_MSG_TYPE_ESTABLISH_HWC_VERSION: u32 = 0;

/// The version of the message that destroys the channel.
pub const SMC_MSG_TYPE_DESTROY_HWC_VERSION: u32 = 0;

/// The first version of the message that reports a timeout.
pub const SMC_MSG_TYPE_REPORT_HWC_TIMEOUT_VERSION: u32 = 1;

/// What the register map tells the driver. All other registers are zero.
#[derive(Debug, Clone, Copy, PartialEq, Eq, Structural)]
pub struct RegMap {
    /// The third part of the version.
    pub micro_version_number: u8,
    /// The second part of the version.
    pub minor_version_number: u8,
    /// The first part of the version.
    pub major_version_number: u8,
    /// Where the doorbells start.
    pub vf_db_pages_zone_offset: u64,
    /// The size of a page of doorbells.
    pub vf_db_page_sz: u16,
    /// Where the shared memory starts.
    pub vf_gdma_sriov_shared_reg_start: u64,
    /// The size of the shared memory.
    pub vf_gdma_sriov_shared_sz: u16,
}

/// What the register map tells the driver: version 1.0.1, one page of doorbells, and
/// where the doorbells and the shared memory are.
pub fn reg_map() -> (r: RegMap)
    ensures
        r.major_version_number == 1,
        r.minor_version_number == 0,
        r.micro_version_number == 1,
        r.vf_db_pages_zone_offset == DOORBELLS_START,
        r.vf_db_page_sz == DOORBELLS_END - DOORBELLS_START,
        r.vf_gdma_sriov_shared_reg_start == SHMEM_START,
        r.vf_gdma_sriov_shared_sz == SHMEM_LEN,
{
    RegMap {
        micro_version_number: 1,
        minor_version_number: 0,
        major_version_number: 1,
        vf_db_pages_zone_offset: DOORBELLS_START as u64,
        vf_db_page_sz: (DOORBELLS_END - DOORBELLS_START) as u16,
        vf_gdma_sriov_shared_reg_start: SHMEM_START as u64,
        vf_gdma_sriov_shared_sz: SHMEM_LEN as u16,
    }
}

/// A range of offsets, from `start` to before `end`.
#[derive(Debug, Clone, Copy, PartialEq, Eq, Structural)]
pub struct ByteRange {
    /// The first offset.
    pub start: usize,
    /// Behind the last offset.
    pub end: usize,
}

impl ByteRange {
    /// Whether `r` lies in this range.
    pub fn contains_range(&self, r: &ByteRange) -> (b: bool)
        ensures
            b == (r.start >= self.start && r.end <= self.end),
    {
        r.start >= self.start && r.end <= self.end
    }

    /// Whether `r` touches this range.
    pub fn overlaps_range(&self, r: &ByteRange) -> (b: bool)
        ensures
            b == (r.end >= self.start && self.end >= r.start),
    {
        r.end >= self.start && self.end >= r.start
    }
}

/// Why a message of the driver fails.
#[derive(Debug, Clone, Copy, PartialEq, Eq, Structural)]
pub enum SmcError {
    /// It is marked as a response.
    RequestIsResponse,
    /// Its version is not supported.
    UnsupportedVersion,
    /// The hardware channel is active already.
    HwcAlreadyActive,
    /// There are no queues for the hardware channel.
    QueueAlloc,
    /// Its type is unknown.
    UnsupportedRequest(u32),
}

/// The queues of the hardware channel.
#[derive(Debug, Clone, Copy, PartialEq, Eq, Structural)]
pub struct HwcQueues {
    /// The address of the send queue.
    pub sq_gpa: u64,
    /// The address of the receive queue.
    pub rq_gpa: u64,
    /// The address of the completion queue.
    pub cq_gpa: u64,
    /// The address of the event queue.
    pub eq_gpa: u64,
    /// The interrupt of the event queue.
    pub msix: u32,
}

/// What a message of the driver asks for.
#[derive(Debug, Clone, Copy, PartialEq, Eq, Structural)]
pub enum SmcRequest {
    /// Establish the hardware channel on its queues.
    Establish(HwcQueues),
    /// Destroy the hardware channel. The message stays pending until it has
    /// stopped.
    Destroy,
    /// Note that the hardware channel does not answer.
    ReportTimeout,
}

/// The device.
#[derive(Debug)]
pub struct GdmaDevice {
    /// The register map.
    pub regmap: Vec<u8>,
    /// The shared memory, by which the driver sends messages.
    pub shmem: Vec<u8>,
    /// Whether the hardware channel is being destroyed.
    pub destroying_hwc: bool,
    /// Whether the hardware channel is active.
    pub hwc_active: bool,
}

/// Two to the power of 48.
pub const POW48: u64 = 0x1_0000_0000_0000;

/// The page number of which the low 48 bits are in the eight bytes from `off`,
/// and the high four bits in bits `4 * n` to `4 * n + 3` of the word at 24. `pow`
/// is 16 to the power of `n`.
pub open spec fn packed_gpn(shmem: Seq<u8>, off: int, pow: int) -> int {
    u64_at(shmem, off) as int % (POW48 as int) + ((u32_at(shmem, 24) as int / pow) % 16) * (
    POW48 as int)
}

/// What the shared memory asks for.
pub open spec fn smc_request(shmem: Seq<u8>, hwc_active: bool) -> Result<SmcRequest, SmcError> {
    let hdr = u32_at(shmem, 28);
    let msg_type = hdr % 8;
    let version = (hdr / 8) % 8;
    let is_response = (hdr / 128) % 2 == 1;
    if is_response {
        Err(SmcError::RequestIsResponse)
    } else if msg_type == SMC_MSG_TYPE_ESTABLISH_HWC {
        if version != SMC_MSG_TYPE_ESTABLISH_HWC_VERSION {
            Err(SmcError::UnsupportedVersion)
        } else if hwc_active {
            Err(SmcError::HwcAlreadyActive)
        } else {
            Ok(
                SmcRequest::Establish(
                    HwcQueues {
                        eq_gpa: (packed_gpn(shmem, 0, 1) * 4096) as u64,
                        cq_gpa: (packed_gpn(shmem, 6, 16) * 4096) as u64,
                        rq_gpa: (packed_gpn(shmem, 12, 256) * 4096) as u64,
                        sq_gpa: (packed_gpn(shmem, 18, 4096) * 4096) as u64,
                        msix: u32_at(shmem, 24) / 65536,
                    },
                ),
            )
        }
    } else if msg_type == SMC_MSG_TYPE_DESTROY_HWC {
        if version != SMC_MSG_TYPE_DESTROY_HWC_VERSION {
            Err(SmcError::UnsupportedVersion)
        } else {
            Ok(SmcRequest::Destroy)
        }
    } else if msg_type == SMC_MSG_TYPE_REPORT_HWC_TIMEOUT {
        if version < SMC_MSG_TYPE_REPORT_HWC_TIMEOUT_VERSION {
            Err(SmcError::UnsupportedVersion)
        } else {
            Ok(SmcRequest::ReportTimeout)
        }
    } else {
        Err(SmcError::UnsupportedRequest(msg_type))
    }
}

/// The shared memory after a message was answered: the header is marked as a
/// response, with a status.
pub open spec fn smc_completed(shmem: Seq<u8>, status: u8) -> Seq<u8> {
    shmem.update(28, (shmem[28] % 128 + 128) as u8).update(29, status)
}

/// What a write to the registers asks for.
#[derive(Debug, Clone, Copy, PartialEq, Eq, Structural)]
pub enum RegWrite {
    /// Nothing, or nothing more.
    Done,
    /// The hardware channel has to be established; then
    /// [`GdmaDevice::finish_establish`].
    EstablishHwc(HwcQueues),
    /// The hardware channel has to be told to stop.
    StopHwc,
    /// A send queue has entries.
    DoorbellSq(u64),
    /// A receive queue has entries.
    DoorbellRq(u64),
    /// A completion queue was read.
    DoorbellCq(u64),
    /// An event queue was read.
    DoorbellEq(u64),
    /// The write has no meaning.
    Bad,
}

/// The part of `old` from `off` replaced by `new`.
pub open spec fn overwritten(old_bytes: Seq<u8>, off: int, new: Seq<u8>) -> Seq<u8> {
    Seq::new(
        old_bytes.len(),
        |i: int|
            if off <= i < off + new.len() {
                new[i - off]
            } else {
                old_bytes[i]
            },
    )
}

/// What a doorbell means.
pub open spec fn doorbell(offset: int, data: u64) -> RegWrite {
    if offset == DB_SQ {
        RegWrite::DoorbellSq(data)
    } else if offset == DB_RQ {
        RegWrite::DoorbellRq(data)
    } else if offset == DB_RQ_CLIENT_DATA {
        RegWrite::Done
    } else if offset == DB_CQ {
        RegWrite::DoorbellCq(data)
    } else if offset == DB_EQ {
        RegWrite::DoorbellEq(data)
    } else {
        RegWrite::Bad
    }
}

impl GdmaDevice {
    /// The register map and the shared memory have their sizes.
    pub open spec fn wf(&self) -> bool {
        self.regmap@.len() == SHMEM_START && self.shmem@.len() == SHMEM_LEN
    }

    /// A device with empty shared memory and no hardware channel. `regmap` holds the
    /// values of [`reg_map`].
    pub fn new(regmap: Vec<u8>) -> (d: GdmaDevice)
        requires
            regmap@.len() == SHMEM_START,
        ensures
            d.wf(),
            d.regmap == regmap,
            d.shmem@ == crate::wire::zeros(32),
            !d.destroying_hwc,
            !d.hwc_active,
    {
        let mut shmem: Vec<u8> = Vec::new();
        crate::wire::push_zeros(&mut shmem, SHMEM_LEN);
        assert(shmem@ =~= crate::wire::zeros(32));
        GdmaDevice { regmap, shmem, destroying_hwc: false, hwc_active: false }
    }

    /// Answers the message in the shared memory.
    pub fn complete_smc(&mut self, status: u8)
        requires
            old(self).wf(),
        ensures
            final(self).wf(),
            final(self).shmem@ == smc_completed(old(self).shmem@, status),
            final(self).regmap == old(self).regmap,
            final(self).destroying_hwc == old(self).destroying_hwc,
            final(self).hwc_active == old(self).hwc_active,
    {
        let b: u8 = self.shmem[28];
        self.shmem.set(28, b % 128 + 128);
        self.shmem.set(29, status);
    }

    /// Reads the message in the shared memory.
    pub fn handle_smc(&self) -> (r: Result<SmcRequest, SmcError>)
        requires
            self.wf(),
        ensures
            r == smc_request(self.shmem@, self.hwc_active),
    {
        let b = self.shmem.as_slice();
        let hdr: u32 = read_u32(b, 28);
        let msg_type: u32 = hdr % 8;
        let version: u32 = (hdr / 8) % 8;
        if (hdr / 128) % 2 == 1 {
            return Err(SmcError::RequestIsResponse);
        }
        if msg_type == SMC_MSG_TYPE_ESTABLISH_HWC {
            if version != SMC_MSG_TYPE_ESTABLISH_HWC_VERSION {
                return Err(SmcError::UnsupportedVersion);
            }
            if self.hwc_active {
                return Err(SmcError::HwcAlreadyActive);
            }
            let high: u64 = read_u32(b, 24) as u64;
            let eq_gpn: u64 = read_u64(b, 0) % POW48 + (high % 16) * POW48;
            let cq_gpn: u64 = read_u64(b, 6) % POW48 + ((high / 16) % 16) * POW48;
            let rq_gpn: u64 = read_u64(b, 12) % POW48 + ((high / 256) % 16) * POW48;
            let sq_gpn: u64 = read_u64(b, 18) % POW48 + ((high / 4096) % 16) * POW48;
            Ok(
                SmcRequest::Establish(
                    HwcQueues {
                        eq_gpa: eq_gpn * 4096,
                        cq_gpa: cq_gpn * 4096,
                        rq_gpa: rq_gpn * 4096,
                        sq_gpa: sq_gpn * 4096,
                        msix: (high / 65536) as u32,
                    },
                ),
            )
        } else if msg_type == SMC_MSG_TYPE_DESTROY_HWC {
            if version != SMC_MSG_TYPE_DESTROY_HWC_VERSION {
                return Err(SmcError::UnsupportedVersion);
            }
            Ok(SmcRequest::Destroy)
        } else if msg_type == SMC_MSG_TYPE_REPORT_HWC_TIMEOUT {
            if version < SMC_MSG_TYPE_REPORT_HWC_TIMEOUT_VERSION {
                return Err(SmcError::UnsupportedVersion);
            }
            Ok(SmcRequest::ReportTimeout)
        } else {
            Err(SmcError::UnsupportedRequest(msg_type))
        }
    }

    /// Writes to the shared memory. A write that reaches its last word sends a
    /// message.
    pub fn write_shmem(&mut self, offset: usize, data: &[u8]) -> (w: RegWrite)
        requires
            old(self).wf(),
            offset + data@.len() <= SHMEM_LEN,
        ensures
            final(self).wf(),
            final(self).regmap == old(self).regmap,
            final(self).hwc_active == old(self).hwc_active,
            ({
                let written = overwritten(old(self).shmem@, offset as int, data@);
                if offset + data@.len() < SHMEM_LEN - 4 {
                    &&& w == RegWrite::Done
                    &&& final(self).shmem@ == written
                    &&& final(self).destroying_hwc == old(self).destroying_hwc
                } else {
                    match smc_request(written, old(self).hwc_active) {
                        Err(_) => {
                            &&& w == RegWrite::Done
                            &&& final(self).shmem@ == smc_completed(written, 1)
                            &&& final(self).destroying_hwc == old(self).destroying_hwc
                        },
                        Ok(SmcRequest::Establish(queues)) => {
                            &&& w == RegWrite::EstablishHwc(queues)
                            &&& final(self).shmem@ == written
                            &&& final(self).destroying_hwc == old(self).destroying_hwc
                        },
                        Ok(SmcRequest::Destroy) => {
                            &&& w == RegWrite::StopHwc
                            &&& final(self).shmem@ == written
                            &&& final(self).destroying_hwc
                        },
                        Ok(SmcRequest::ReportTimeout) => {
                            &&& w == RegWrite::Done
                            &&& final(self).shmem@ == smc_completed(written, 0)
                            &&& final(self).destroying_hwc == old(self).destroying_hwc
                        },
                    }
                }
            }),
    {
        let mut i: usize = 0;
        let n: usize = data.len();
        assert(self.shmem@ =~= overwritten(old(self).shmem@, offset as int, data@.take(0)));
        while i < n
            invariant
                i <= n,
                n == data@.len(),
                offset + n <= SHMEM_LEN,
                self.wf(),
                old(self).wf(),
                self.regmap == old(self).regmap,
                self.hwc_active == old(self).hwc_active,
                self.destroying_hwc == old(self).destroying_hwc,
                self.shmem@ == overwritten(old(self).shmem@, offset as int, data@.take(i as int)),
            decreases n - i,
        {
            self.shmem.set(offset + i, data[i]);
            i = i + 1;
            assert(self.shmem@ =~= overwritten(
                old(self).shmem@,
                offset as int,
                data@.take(i as int),
            ));
        }
        assert(data@.take(i as int) =~= data@);
        let last = ByteRange { start: SHMEM_LEN - 4, end: SHMEM_LEN };
        if !last.overlaps_range(&ByteRange { start: offset, end: offset + n }) {
            return RegWrite::Done;
        }
        match self.handle_smc() {
            Err(_) => {
                self.complete_smc(1);
                RegWrite::Done
            },
            Ok(SmcRequest::Establish(queues)) => RegWrite::EstablishHwc(queues),
            Ok(SmcRequest::Destroy) => {
                // When the driver reads shared memory, it is polled whether the
                // channel has stopped yet.
                self.destroying_hwc = true;
                RegWrite::StopHwc
            },
            Ok(SmcRequest::ReportTimeout) => {
                self.complete_smc(0);
                RegWrite::Done
            },
        }
    }

    /// Ends the establishment of the hardware channel.
    pub fn finish_establish(&mut self, r: Result<(), SmcError>)
        requires
            old(self).wf(),
        ensures
            final(self).wf(),
            final(self).regmap == old(self).regmap,
            final(self).destroying_hwc == old(self).destroying_hwc,
            final(self).hwc_active == (old(self).hwc_active || r is Ok),
            final(self).shmem@ == smc_completed(
                old(self).shmem@,
                if r is Ok {
                    0
                } else {
                    1
                },
            ),
    {
        match r {
            Ok(()) => {
                self.hwc_active = true;
                self.complete_smc(0);
            },
            Err(_) => {
                self.complete_smc(1);
            },
        }
    }

    /// Reads the shared memory. `hwc_stopped` tells whether the hardware channel
    /// has stopped; if it is being destroyed, that ends here.
    pub fn read_shmem(&mut self, offset: usize, len: usize, hwc_stopped: bool) -> (data: Vec<u8>)
        requires
            old(self).wf(),
            offset + len <= SHMEM_LEN,
        ensures
            final(self).wf(),
            final(self).regmap == old(self).regmap,
            data@ == final(self).shmem@.subrange(offset as int, offset + len),
            if old(self).destroying_hwc && hwc_stopped {
                &&& !final(self).destroying_hwc
                &&& !final(self).hwc_active
                &&& final(self).shmem@ == smc_completed(old(self).shmem@, 0)
            } else {
                *final(self) == *old(self)
            },
    {
        if self.destroying_hwc && hwc_stopped {
            self.hwc_active = false;
            self.destroying_hwc = false;
            self.complete_smc(0);
        }
        copy_bytes(self.shmem.as_slice(), offset, len)
    }

    /// Reads registers. Where there are none, all bits are set.
    pub fn read_reg(&mut self, offset: usize, len: usize, hwc_stopped: bool) -> (data: Vec<u8>)
        requires
            old(self).wf(),
            offset + len <= usize::MAX,
        ensures
            final(self).wf(),
            final(self).regmap == old(self).regmap,
            data@.len() == len,
            if offset + len <= SHMEM_START {
                &&& data@ == old(self).regmap@.subrange(offset as int, offset + len)
                &&& *final(self) == *old(self)
            } else if offset >= SHMEM_START && offset + len <= SHMEM_END {
                &&& data@ == final(self).shmem@.subrange(
                    offset - SHMEM_START,
                    offset + len - SHMEM_START,
                )
                &&& if old(self).destroying_hwc && hwc_stopped {
                    &&& !final(self).destroying_hwc
                    &&& !final(self).hwc_active
                    &&& final(self).shmem@ == smc_completed(old(self).shmem@, 0)
                } else {
                    *final(self) == *old(self)
                }
            } else {
                &&& data@ == Seq::new(len as nat, |i: int| 255u8)
                &&& *final(self) == *old(self)
            },
    {
        let range = ByteRange { start: offset, end: offset + len };
        let regmap = ByteRange { start: 0, end: SHMEM_START };
        let shmem = ByteRange { start: SHMEM_START, end: SHMEM_END };
        if regmap.contains_range(&range) {
            copy_bytes(self.regmap.as_slice(), offset, len)
        } else if shmem.contains_range(&range) {
            self.read_shmem(offset - SHMEM_START, len, hwc_stopped)
        } else {
            let mut data: Vec<u8> = Vec::new();
            let mut i: usize = 0;
            while i < len
                invariant
                    i <= len,
                    data@ == Seq::new(i as nat, |k: int| 255u8),
                decreases len - i,
            {
                data.push(255);
                i = i + 1;
                assert(data@ =~= Seq::new(i as nat, |k: int| 255u8));
            }
            data
        }
    }

    /// Writes registers.
    pub fn write_reg(&mut self, offset: usize, data: &[u8]) -> (w: RegWrite)
        requires
            old(self).wf(),
            offset + data@.len() <= usize::MAX,
        ensures
            final(self).wf(),
            final(self).regmap == old(self).regmap,
            final(self).hwc_active == old(self).hwc_active,
            if SHMEM_START <= offset && offset + data@.len() <= SHMEM_END {
                let written = overwritten(old(self).shmem@, offset - SHMEM_START, data@);
                let sends = offset + data@.len() >= SHMEM_END - 4;
                let request = smc_request(written, old(self).hwc_active);
                &&& final(self).shmem@ == if sends && request is Err {
                    smc_completed(written, 1)
                } else if sends && request == Ok::<SmcRequest, SmcError>(
                    SmcRequest::ReportTimeout,
                ) {
                    smc_completed(written, 0)
                } else {
                    written
                }
                &&& final(self).destroying_hwc == (old(self).destroying_hwc || (sends && request
                    == Ok::<SmcRequest, SmcError>(SmcRequest::Destroy)))
                &&& w == if !sends {
                    RegWrite::Done
                } else {
                    match request {
                        Ok(SmcRequest::Establish(queues)) => RegWrite::EstablishHwc(queues),
                        Ok(SmcRequest::Destroy) => RegWrite::StopHwc,
                        _ => RegWrite::Done,
                    }
                }
            } else {
                &&& *final(self) == *old(self)
                &&& w == if DOORBELLS_START <= offset && offset + data@.len() <= DOORBELLS_END
                    && data@.len() == 8 {
                    doorbell(offset - DOORBELLS_START, u64_at(data@, 0))
                } else {
                    RegWrite::Bad
                }
            },
    {
        let range = ByteRange { start: offset, end: offset + data.len() };
        let shmem = ByteRange { start: SHMEM_START, end: SHMEM_END };
        let doorbells = ByteRange { start: DOORBELLS_START, end: DOORBELLS_END };
        if shmem.contains_range(&range) {
            self.write_shmem(offset - SHMEM_START, data)
        } else if doorbells.contains_range(&range) && data.len() == 8 {
            write_doorbell(offset - DOORBELLS_START, read_u64(data, 0))
        } else {
            RegWrite::Bad
        }
    }
}

/// What a doorbell means.
pub fn write_doorbell(offset: usize, data: u64) -> (w: RegWrite)
    ensures
        w == doorbell(offset as int, data),
{
    if offset == DB_SQ {
        RegWrite::DoorbellSq(data)
    } else if offset == DB_RQ {
        RegWrite::DoorbellRq(data)
    } else if offset == DB_RQ_CLIENT_DATA {
        RegWrite::Done
    } else if offset == DB_CQ {
        RegWrite::DoorbellCq(data)
    } else if offset == DB_EQ {
        RegWrite::DoorbellEq(data)
    } else {
        RegWrite::Bad
    }
}

/// An answer is not mistaken for a message: once the message in the shared memory
/// is answered, it asks for nothing.
pub proof fn answered_message_is_no_request(shmem: Seq<u8>, status: u8, hwc_active: bool)
    requires
        shmem.len() == SHMEM_LEN,
    ensures
        smc_request(smc_completed(shmem, status), hwc_active) == Err::<SmcRequest, SmcError>(
            SmcError::RequestIsResponse,
        ),
{
    let b = smc_completed(shmem, status);
    assert(b[28] >= 128);
    assert(b[28] < 256);
    let hdr = u32_at(b, 28);
    assert(hdr % 256 == b[28]);
    assert((hdr / 128) % 2 == 1);
}

/// The register map, the shared memory and the doorbells have their places, and do not overlap.
pub proof fn registers_have_their_places()
    ensures
        SHMEM_START == 40,
        SHMEM_END == 72,
        SHMEM_END - SHMEM_START == SHMEM_LEN,
        DOORBELLS_START == 0x1000,
        DOORBELLS_END == 0x2000,
{
}

/// A message says in its last word what it is. Its lowest byte has the type in three bits, the
/// version in the next three, and the highest bit set if it is an answer. The version of what
/// is known must be zero, but a timeout may have any version except zero.
#[verifier::rlimit(60)]
#[verifier::spinoff_prover]
pub proof fn message_kind_is_read(shmem: Seq<u8>, hwc_active: bool)
    requires
        shmem.len() == 32,
    ensures
        ({
            let b = shmem[28] as int;
            let r = smc_request(shmem, hwc_active);
            &&& b >= 128 <==> r == Err::<SmcRequest, SmcError>(SmcError::RequestIsResponse)
            &&& b < 128 && b % 8 == 1 && (b / 8) % 8 == 0 ==> (r is Ok <==> !hwc_active) && (r is Err
                ==> r->Err_0 == SmcError::HwcAlreadyActive) && (r is Ok ==> r->Ok_0 is Establish)
            &&& b < 128 && b % 8 == 1 && (b / 8) % 8 != 0 ==> r == Err::<SmcRequest, SmcError>(
                SmcError::UnsupportedVersion,
            )
            &&& b < 128 && b % 8 == 2 && (b / 8) % 8 == 0 ==> r == Ok::<SmcRequest, SmcError>(
                SmcRequest::Destroy,
            )
            &&& b < 128 && b % 8 == 2 && (b / 8) % 8 != 0 ==> r == Err::<SmcRequest, SmcError>(
                SmcError::UnsupportedVersion,
            )
            &&& b < 128 && b % 8 == 4 && (b / 8) % 8 != 0 ==> r == Ok::<SmcRequest, SmcError>(
                SmcRequest::ReportTimeout,
            )
            &&& b < 128 && b % 8 == 4 && (b / 8) % 8 == 0 ==> r == Err::<SmcRequest, SmcError>(
                SmcError::UnsupportedVersion,
            )
            &&& b < 128 && b % 8 != 1 && b % 8 != 2 && b % 8 != 4 ==> r == Err::<
                SmcRequest,
                SmcError,
            >(SmcError::UnsupportedRequest((b % 8) as u32))
        }),
{
    let rest = shmem[29] + 256 * shmem[30] + 65536 * shmem[31];
    assert(u32_at(shmem, 28) == shmem[28] + 256 * rest);
    lemma_lowest_byte(shmem[28] as int, rest, u32_at(shmem, 28) as int);
}

proof fn lemma_lowest_byte(b: int, rest: int, word: int)
    requires
        0 <= b < 256,
        0 <= rest,
        word == b + 256 * rest,
    ensures
        word % 8 == b % 8,
        (word / 8) % 8 == (b / 8) % 8,
        (word / 128) % 2 == b / 128,
{
}

proof fn lemma_nibbles(a: int, b: int, rest: int, word: int)
    requires
        0 <= a < 256,
        0 <= b < 256,
        0 <= rest,
        word == a + 256 * b + 65536 * rest,
    ensures
        (word / 1) % 16 == a % 16,
        (word / 16) % 16 == a / 16,
        (word / 256) % 16 == b % 16,
        (word / 4096) % 16 == b / 16,
        word / 65536 == rest,
{
    let third = b / 16 + 16 * rest;
    let second = b % 16 + 16 * third;
    let first = a / 16 + 16 * second;
    lemma_split(a % 16, 16, first);
    lemma_split(a / 16, 16, second);
    lemma_split(b % 16, 16, third);
    lemma_split(b / 16, 16, rest);
    lemma_split(a, 256, second);
    lemma_split(a + 256 * (b % 16), 4096, third);
    lemma_split(a + 256 * b, 65536, rest);
}

proof fn lemma_split(low: int, unit: int, high: int)
    by (nonlinear_arith)
    requires
        0 <= low < unit,
        0 <= high,
    ensures
        (low + unit * high) / unit == high,
        (low + unit * high) % unit == low,
{
}

/// The queues of the hardware channel are where the message says: each page number has six bytes
/// of its own and four bits of a shared word, whose upper half is the interrupt. The order is
/// event queue, completion queue, receive queue, send queue.
#[verifier::rlimit(60)]
#[verifier::spinoff_prover]
pub proof fn queue_addresses_are_read(shmem: Seq<u8>)
    requires
        shmem.len() == 32,
        smc_request(shmem, false) matches Ok(SmcRequest::Establish(_)),
    ensures
        ({
            let q = smc_request(shmem, false)->Ok_0->Establish_0;
            let low = |k: int|
                shmem[k] + 0x100 * shmem[k + 1] + 0x1_0000 * shmem[k + 2] + 0x100_0000 * shmem[k
                    + 3] + 0x1_0000_0000 * shmem[k + 4] + 0x100_0000_0000 * shmem[k + 5];
            &&& q.eq_gpa == 4096 * (low(0) + 0x1_0000_0000_0000 * (shmem[24] as int % 16))
            &&& q.cq_gpa == 4096 * (low(6) + 0x1_0000_0000_0000 * (shmem[24] as int / 16))
            &&& q.rq_gpa == 4096 * (low(12) + 0x1_0000_0000_0000 * (shmem[25] as int % 16))
            &&& q.sq_gpa == 4096 * (low(18) + 0x1_0000_0000_0000 * (shmem[25] as int / 16))
            &&& q.msix == shmem[26] + 0x100 * shmem[27]
        }),
{
    lemma_low48(shmem, 0);
    lemma_low48(shmem, 6);
    lemma_low48(shmem, 12);
    lemma_low48(shmem, 18);
    let w = u32_at(shmem, 24) as int;
    let high = shmem[26] + 0x100 * shmem[27];
    assert(w == shmem[24] + 256 * shmem[25] + 65536 * high);
    lemma_nibbles(shmem[24] as int, shmem[25] as int, high, w);
}

proof fn lemma_low48(shmem: Seq<u8>, k: int)
    requires
        0 <= k <= 18,
        shmem.len() == 32,
    ensures
        ({
            let low = shmem[k] + 0x100 * shmem[k + 1] + 0x1_0000 * shmem[k + 2] + 0x100_0000
                * shmem[k + 3] + 0x1_0000_0000 * shmem[k + 4] + 0x100_0000_0000 * shmem[k + 5];
            &&& u64_at(shmem, k) as int % 0x1_0000_0000_0000 == low
            &&& 0 <= low < 0x1_0000_0000_0000
        }),
{
    let low = shmem[k] + 0x100 * shmem[k + 1] + 0x1_0000 * shmem[k + 2] + 0x100_0000 * shmem[k + 3]
        + 0x1_0000_0000 * shmem[k + 4] + 0x100_0000_0000 * shmem[k + 5];
    let high = shmem[k + 6] + 0x100 * shmem[k + 7];
    assert(u64_at(shmem, k) as int == low + 0x1_0000_0000_0000 * high);
}

/// An answer keeps the message, except that it is marked as an answer and has its status in the
/// byte behind the type.
pub proof fn answer_keeps_message(shmem: Seq<u8>, status: u8, i: int)
    requires
        shmem.len() == 32,
        0 <= i < 32,
    ensures
        ({
            let b = smc_completed(shmem, status);
            &&& b.len() == 32
            &&& b[28] >= 128
            &&& b[28] as int % 128 == shmem[28] as int % 128
            &&& b[29] == status
            &&& i != 28 && i != 29 ==> b[i] == shmem[i]
        }),
{
}

/// What is written replaces the bytes that it covers, and no others.
pub proof fn written_bytes_are_read_back(before: Seq<u8>, off: int, data: Seq<u8>, i: int)
    requires
        0 <= off,
        off + data.len() <= before.len(),
        0 <= i < before.len(),
    ensures
        ({
            let b = overwritten(before, off, data);
            &&& b.len() == before.len()
            &&& b.subrange(off, off + data.len()) == data
            &&& i < off || off + data.len() <= i ==> b[i] == before[i]
        }),
{
    assert(overwritten(before, off, data).subrange(off, off + data.len()) =~= data);
}

/// Each kind of queue has its doorbell, and what is written there is handed on.
pub proof fn doorbells_are_told_apart(offset: int, data: u64)
    ensures
        doorbell(0, data) == RegWrite::DoorbellSq(data),
        doorbell(0x400, data) == RegWrite::DoorbellRq(data),
        doorbell(0x408, data) == RegWrite::Done,
        doorbell(0x800, data) == RegWrite::DoorbellCq(data),
        doorbell(0xff8, data) == RegWrite::DoorbellEq(data),
        offset != 0 && offset != 0x400 && offset != 0x408 && offset != 0x800 && offset != 0xff8
            ==> doorbell(offset, data) == RegWrite::Bad,
{
}

} // verus!
