//! Builds the configuration of a VM.
use crate::guid::Guid;
use crate::petri::config::{
    host_levels_supported, has_place, is_place, settings_view, ControllerType, Disk, Drive,
    GuestStateEncryptionPolicy, MemoryConfig, OpenHclConfig, OpenvmmLogConfig,
    PetriGuestStateLifetime, PetriHaltReason, PetriVmgsDisk, PetriVmgsResource, ProcessorTopology,
    SecureBootTemplate, StorageController, StorageControllerView, TpmConfig, UefiConfig,
    VmbusStorageController, VmbusStorageType, VmmQuirks, Vtl, Vtl2BaseAddressType, Vtl2Lun,
    Vtl2Settings, IsolationType, default_vtl2_settings,
};
use crate::petri::firmware::{
    Firmware, FirmwareEvent, GuestQuirksInner, InitialRebootCondition, MachineArch, OsFlavor,
    PetriVmRuntimeConfig, UefiGuest,
};
use crate::petri::name::{
    append_cmdline, appended, make_vm_safe_name, name_hash, safe_name, text_of,
};
use crate::text::owned;
use vstd::prelude::*;
use vstd::string::StringExecFns;

verus! {

/// What a VM boots from.
#[derive(Debug, Clone, Copy, PartialEq, Eq, Structural)]
pub enum BootDeviceType {
    /// Nothing.
    NoDevice,
    /// IDE.
    Ide,
    /// IDE, from SCSI in VTL2.
    IdeViaScsi,
    /// IDE, from NVMe in VTL2.
    IdeViaNvme,
    /// SCSI.
    Scsi,
    /// SCSI, from SCSI in VTL2.
    ScsiViaScsi,
    /// SCSI, from NVMe in VTL2.
    ScsiViaNvme,
    /// NVMe.
    Nvme,
    /// NVMe, from SCSI in VTL2.
    NvmeViaScsi,
    /// NVMe, from NVMe in VTL2.
    NvmeViaNvme,
}

impl BootDeviceType {
    /// Whether VTL2 is needed.
    pub open spec fn via_vtl2(self) -> bool {
        !(self == BootDeviceType::NoDevice || self == BootDeviceType::Ide || self
            == BootDeviceType::Scsi || self == BootDeviceType::Nvme)
    }

    /// Whether the device is on vPCI.
    pub open spec fn on_vpci(self) -> bool {
        self == BootDeviceType::Nvme || self == BootDeviceType::NvmeViaScsi || self
            == BootDeviceType::NvmeViaNvme
    }

    /// Whether VTL2 is needed.
    pub fn requires_vtl2(&self) -> (b: bool)
        ensures
            b == self.via_vtl2(),
    {
        match *self {
            BootDeviceType::NoDevice => false,
            BootDeviceType::Ide => false,
            BootDeviceType::Scsi => false,
            BootDeviceType::Nvme => false,
            _ => true,
        }
    }

    /// Whether the device is on vPCI.
    pub fn requires_vpci_boot(&self) -> (b: bool)
        ensures
            b == self.on_vpci(),
    {
        match *self {
            BootDeviceType::Nvme => true,
            BootDeviceType::NvmeViaScsi => true,
            BootDeviceType::NvmeViaNvme => true,
            _ => false,
        }
    }
}

/// A controller that every test can count on.
#[derive(Debug, Clone, Copy, PartialEq, Eq, Structural)]
pub enum PetriController {
    /// The IDE controller to boot from, offered by VTL2.
    IdeBoot,
    /// The SCSI controller of VTL0.
    ScsiVtl0,
    /// The SCSI controller of VTL2.
    ScsiVtl2,
    /// The SCSI controller that VTL2 offers.
    ScsiVtl0ViaVtl2,
    /// The NVMe controller of VTL0 to boot from.
    NvmeBootVtl0,
    /// The NVMe controller of VTL2 to boot from.
    NvmeBootVtl2,
}

impl PetriController {
    /// The instance of the controller.
    pub open spec fn id(self) -> Guid {
        match self {
            // ca56751f-e643-4bef-bf54-f73678e8b7b5
            PetriController::IdeBoot => Guid {
                data1: 0xca56751f,
                data2: 0xe643,
                data3: 0x4bef,
                data4: 0xbf54f73678e8b7b5,
            },
            // 27b553e8-8b39-411b-a55f-839971a7884f
            PetriController::ScsiVtl0 => Guid {
                data1: 0x27b553e8,
                data2: 0x8b39,
                data3: 0x411b,
                data4: 0xa55f839971a7884f,
            },
            // 766e96f8-2ceb-437e-afe3-a93169e48a7c
            PetriController::ScsiVtl2 => Guid {
                data1: 0x766e96f8,
                data2: 0x2ceb,
                data3: 0x437e,
                data4: 0xafe3a93169e48a7c,
            },
            // 6c474f47-ed39-49e6-bbb9-142177a1da6e
            PetriController::ScsiVtl0ViaVtl2 => Guid {
                data1: 0x6c474f47,
                data2: 0xed39,
                data3: 0x49e6,
                data4: 0xbbb9142177a1da6e,
            },
            // e23a04e2-90f5-4852-bc9d-e7ac691b756c
            PetriController::NvmeBootVtl0 => Guid {
                data1: 0xe23a04e2,
                data2: 0x90f5,
                data3: 0x4852,
                data4: 0xbc9de7ac691b756c,
            },
            // 92bc8346-718b-449a-8751-edbf3dcd27e4
            PetriController::NvmeBootVtl2 => Guid {
                data1: 0x92bc8346,
                data2: 0x718b,
                data3: 0x449a,
                data4: 0x8751edbf3dcd27e4,
            },
        }
    }

    /// The instance of the controller.
    pub fn guid(self) -> (g: Guid)
        ensures
            g == self.id(),
    {
        match self {
            PetriController::IdeBoot => Guid {
                data1: 0xca56751f,
                data2: 0xe643,
                data3: 0x4bef,
                data4: 0xbf54f73678e8b7b5,
            },
            PetriController::ScsiVtl0 => Guid {
                data1: 0x27b553e8,
                data2: 0x8b39,
                data3: 0x411b,
                data4: 0xa55f839971a7884f,
            },
            PetriController::ScsiVtl2 => Guid {
                data1: 0x766e96f8,
                data2: 0x2ceb,
                data3: 0x437e,
                data4: 0xafe3a93169e48a7c,
            },
            PetriController::ScsiVtl0ViaVtl2 => Guid {
                data1: 0x6c474f47,
                data2: 0xed39,
                data3: 0x49e6,
                data4: 0xbbb9142177a1da6e,
            },
            PetriController::NvmeBootVtl0 => Guid {
                data1: 0xe23a04e2,
                data2: 0x90f5,
                data3: 0x4852,
                data4: 0xbc9de7ac691b756c,
            },
            PetriController::NvmeBootVtl2 => Guid {
                data1: 0x92bc8346,
                data2: 0x718b,
                data3: 0x449a,
                data4: 0x8751edbf3dcd27e4,
            },
        }
    }
}

/// The IDE controller to boot from.
pub const PETRI_IDE_BOOT_CONTROLLER_NUMBER: u32 = 0;

/// The drive on it.
pub const PETRI_IDE_BOOT_LUN: u8 = 0;

/// The place of the boot disk on a SCSI controller.
pub const PETRI_SCSI_BOOT_LUN: u32 = 0;

/// The place of the agent.
pub const PETRI_SCSI_PIPETTE_LUN: u32 = 1;

/// The place of the disk for crash dumps.
pub const PETRI_SCSI_CRASH_LUN: u32 = 2;

/// The namespace of the boot disk on an NVMe controller.
pub const PETRI_NVME_BOOT_NSID: u32 = 37;

/// The agent to run in a VTL.
#[derive(Debug)]
pub struct AgentImage {
    /// The operating system that it runs on.
    pub os_flavor: OsFlavor,
    /// Whether the agent itself is on it.
    pub pipette: bool,
    /// Other files, with their names.
    pub files: Vec<(String, String)>,
}

impl AgentImage {
    /// An image without files.
    pub fn new(os_flavor: OsFlavor, pipette: bool) -> (a: AgentImage)
        ensures
            a.os_flavor == os_flavor,
            a.pipette == pipette,
            a.files@.len() == 0,
    {
        AgentImage { os_flavor, pipette, files: Vec::new() }
    }
}

/// The agents that a VM gets: one for the guest, and one for OpenHCL if there is
/// OpenHCL.
pub fn agent_images(firmware: &Firmware, with_vtl0_pipette: bool) -> (r: (
    AgentImage,
    Option<AgentImage>,
))
    ensures
        r.0.os_flavor == firmware.flavor(),
        r.0.pipette == with_vtl0_pipette,
        r.0.files@.len() == 0,
        match r.1 {
            Some(a) => firmware.openhcl_settings() is Some && a.os_flavor == OsFlavor::Linux
                && a.pipette && a.files@.len() == 0,
            None => firmware.openhcl_settings() is None,
        },
{
    (
        AgentImage::new(firmware.os_flavor(), with_vtl0_pipette),
        if firmware.is_openhcl() {
            Some(AgentImage::new(OsFlavor::Linux, true))
        } else {
            None
        },
    )
}

/// The configuration of a VM.
#[derive(Debug)]
pub struct PetriVmConfig {
    /// The name.
    pub name: String,
    /// The architecture.
    pub arch: MachineArch,
    /// What the VMM logs.
    pub host_log_levels: Option<OpenvmmLogConfig>,
    /// The firmware.
    pub firmware: Firmware,
    /// The memory.
    pub memory: MemoryConfig,
    /// The processors.
    pub proc_topology: ProcessorTopology,
    /// The guest state.
    pub vmgs: PetriVmgsResource,
    /// The TPM, if there is one.
    pub tpm: Option<TpmConfig>,
    /// The storage controllers on VMBus, by instance. No two have the same one.
    pub vmbus_storage_controllers: Vec<(Guid, VmbusStorageController)>,
}

/// A storage controller on VMBus.
#[verifier::ext_equal]
pub struct ControllerView {
    /// The instance.
    pub id: Guid,
    /// The VTL that it is for.
    pub target_vtl: Vtl,
    /// Its type.
    pub controller_type: VmbusStorageType,
    /// Its drives.
    pub drives: Map<u32, Drive>,
}

/// The storage controllers of a list.
pub open spec fn controllers(v: Seq<(Guid, VmbusStorageController)>) -> Seq<ControllerView> {
    v.map_values(
        |c: (Guid, VmbusStorageController)|
            ControllerView {
                id: c.0,
                target_vtl: c.1.target_vtl,
                controller_type: c.1.controller_type,
                drives: c.1.drives@,
            },
    )
}

/// The place of the controller with that instance; the length if there is none.
pub open spec fn position(v: Seq<ControllerView>, id: Guid) -> int
    decreases v.len(),
{
    if v.len() == 0 || v[0].id == id {
        0
    } else {
        1 + position(v.skip(1), id)
    }
}

/// Whether there is a controller with that instance.
pub open spec fn has_controller(v: Seq<ControllerView>, id: Guid) -> bool {
    position(v, id) < v.len()
}

/// Whether no two controllers have the same instance.
pub open spec fn ids_are_unique(v: Seq<ControllerView>) -> bool {
    forall|i: int, j: int|
        0 <= i < j < v.len() ==> (#[trigger] v[i]).id != (#[trigger] v[j]).id
}

/// The controllers with another one.
pub open spec fn with_controller(
    v: Seq<ControllerView>,
    id: Guid,
    target_vtl: Vtl,
    controller_type: VmbusStorageType,
) -> Seq<ControllerView> {
    v.push(ControllerView { id, target_vtl, controller_type, drives: Map::empty() })
}

/// The controllers with another drive.
pub open spec fn with_drive(v: Seq<ControllerView>, id: Guid, place: u32, drive: Drive) -> Seq<
    ControllerView,
> {
    let i = position(v, id);
    v.update(i, ControllerView { drives: v[i].drives.insert(place, drive), ..v[i] })
}

proof fn lemma_position(v: Seq<ControllerView>, id: Guid, i: int)
    requires
        0 <= i <= v.len(),
        forall|k: int| 0 <= k < i ==> (#[trigger] v[k]).id != id,
        i < v.len() ==> v[i].id == id,
    ensures
        position(v, id) == i,
    decreases i,
{
    if i > 0 {
        assert(v[0].id != id);
        let w = v.skip(1);
        assert forall|k: int| 0 <= k < i - 1 implies (#[trigger] w[k]).id != id by {
            assert(w[k] == v[k + 1]);
        }
        lemma_position(w, id, i - 1);
    }
}

proof fn lemma_position_push(v: Seq<ControllerView>, c: ControllerView)
    requires
        !has_controller(v, c.id),
        position(v, c.id) >= v.len(),
    ensures
        position(v.push(c), c.id) == v.len(),
    decreases v.len(),
{
    lemma_position_bound(v, c.id);
    let w = v.push(c);
    lemma_position(w, c.id, v.len() as int);
}

proof fn lemma_position_bound(v: Seq<ControllerView>, id: Guid)
    ensures
        0 <= position(v, id) <= v.len(),
        forall|k: int| 0 <= k < position(v, id) ==> (#[trigger] v[k]).id != id,
    decreases v.len(),
{
    if v.len() > 0 && v[0].id != id {
        let w = v.skip(1);
        lemma_position_bound(w, id);
        assert forall|k: int| 0 <= k < position(v, id) implies (#[trigger] v[k]).id != id by {
            if k > 0 {
                assert(w[k - 1] == v[k]);
            }
        }
    }
}

fn find_controller(v: &Vec<(Guid, VmbusStorageController)>, id: Guid) -> (r: Option<usize>)
    ensures
        match r {
            Some(i) => i < v@.len() && i == position(controllers(v@), id) && v@[i as int].0 == id,
            None => !has_controller(controllers(v@), id),
        },
{
    let ghost views = controllers(v@);
    let mut i: usize = 0;
    while i < v.len()
        invariant
            i <= v@.len(),
            views == controllers(v@),
            forall|k: int| 0 <= k < i ==> (#[trigger] views[k]).id != id,
        decreases v@.len() - i,
    {
        let found: Guid = v[i].0;
        assert(views[i as int].id == found);
        if found.data1 == id.data1 && found.data2 == id.data2 && found.data3 == id.data3
            && found.data4 == id.data4 {
            proof {
                lemma_position(views, id, i as int);
            }
            return Some(i);
        }
        i = i + 1;
    }
    proof {
        lemma_position(views, id, i as int);
    }
    None
}

/// Builds the configuration of a VM.
#[derive(Debug)]
pub struct PetriVmBuilder {
    /// The configuration.
    pub config: PetriVmConfig,
    /// Oddities of the guest.
    pub guest_quirks: GuestQuirksInner,
    /// Oddities of the VMM.
    pub vmm_quirks: VmmQuirks,
    /// What the firmware is expected to say about booting.
    pub expected_boot_event: Option<FirmwareEvent>,
    /// Whether the VM is expected to reset once, against all expectations.
    pub override_expect_reset: bool,
    /// The agent to run in the guest.
    pub agent_image: Option<AgentImage>,
    /// The agent to run in OpenHCL.
    pub openhcl_agent_image: Option<AgentImage>,
    /// What the VM boots from.
    pub boot_device_type: BootDeviceType,
}

/// What a VM is like.
#[derive(Debug, Clone, Copy, PartialEq, Eq, Structural)]
pub struct PetriVmProperties {
    /// Whether there is OpenHCL.
    pub is_openhcl: bool,
    /// Whether it is isolated.
    pub is_isolated: bool,
    /// Whether the firmware is PCAT.
    pub is_pcat: bool,
    /// Whether Linux is booted without firmware.
    pub is_linux_direct: bool,
    /// Whether an agent runs in VTL0.
    pub using_vtl0_pipette: bool,
    /// Whether it boots from vPCI.
    pub using_vpci: bool,
    /// The operating system.
    pub os_flavor: OsFlavor,
}

/// What a VM boots from unless told otherwise.
pub open spec fn default_boot_device(f: Firmware) -> BootDeviceType {
    match f {
        Firmware::LinuxDirect { .. } => BootDeviceType::NoDevice,
        Firmware::OpenhclLinuxDirect { .. } => BootDeviceType::NoDevice,
        Firmware::Pcat { .. } => BootDeviceType::Ide,
        Firmware::OpenhclPcat { .. } => BootDeviceType::IdeViaScsi,
        Firmware::Uefi { guest, .. } => if guest is NoGuest {
            BootDeviceType::NoDevice
        } else {
            BootDeviceType::Scsi
        },
        Firmware::OpenhclUefi { guest, .. } => if guest is NoGuest {
            BootDeviceType::NoDevice
        } else {
            BootDeviceType::Scsi
        },
    }
}

fn boot_device(f: &Firmware) -> (t: BootDeviceType)
    ensures
        t == default_boot_device(*f),
{
    match f {
        Firmware::LinuxDirect { .. } => BootDeviceType::NoDevice,
        Firmware::OpenhclLinuxDirect { .. } => BootDeviceType::NoDevice,
        Firmware::Pcat { .. } => BootDeviceType::Ide,
        Firmware::OpenhclPcat { .. } => BootDeviceType::IdeViaScsi,
        Firmware::Uefi { guest, .. } => match guest {
            UefiGuest::NoGuest => BootDeviceType::NoDevice,
            _ => BootDeviceType::Scsi,
        },
        Firmware::OpenhclUefi { guest, .. } => match guest {
            UefiGuest::NoGuest => BootDeviceType::NoDevice,
            _ => BootDeviceType::Scsi,
        },
    }
}

/// A controller to be added.
#[derive(Debug, Clone, Copy, PartialEq, Eq, Structural)]
pub struct NewController {
    /// The controller.
    pub controller: PetriController,
    /// The VTL that it is for.
    pub target_vtl: Vtl,
    /// Its type.
    pub controller_type: VmbusStorageType,
}

/// A disk that VTL2 is to offer.
#[derive(Debug, Clone, Copy, PartialEq, Eq, Structural)]
pub struct OfferedDisk {
    /// The type of the controller.
    pub controller_type: ControllerType,
    /// The controller.
    pub controller: PetriController,
    /// The disk.
    pub lun: Vtl2Lun,
}

/// Where the boot disk goes.
#[derive(Debug, Clone, Copy)]
pub struct BootPlan {
    /// A controller to be added for it.
    pub new_controller: Option<NewController>,
    /// The controller and the place, unless it is an IDE drive of the VMM.
    pub drive: Option<(PetriController, u32)>,
    /// What VTL2 offers it as.
    pub offered: Option<OfferedDisk>,
}

/// Where the boot disk goes. `None` if there is no place for one.
pub open spec fn plan_of(t: BootDeviceType) -> Option<BootPlan> {
    match t {
        BootDeviceType::Ide => Some(BootPlan { new_controller: None, drive: None, offered: None }),
        BootDeviceType::IdeViaScsi => Some(
            BootPlan {
                new_controller: None,
                drive: Some((PetriController::ScsiVtl2, PETRI_SCSI_BOOT_LUN)),
                offered: Some(
                    OfferedDisk {
                        controller_type: ControllerType::Ide,
                        controller: PetriController::IdeBoot,
                        lun: Vtl2Lun {
                            channel: Some(PETRI_IDE_BOOT_CONTROLLER_NUMBER),
                            location: PETRI_IDE_BOOT_LUN as u32,
                            backing_type: ControllerType::Scsi,
                            backing_controller: PetriController::ScsiVtl2.id(),
                            backing_location: PETRI_SCSI_BOOT_LUN,
                        },
                    },
                ),
            },
        ),
        BootDeviceType::Scsi => Some(
            BootPlan {
                new_controller: None,
                drive: Some((PetriController::ScsiVtl0, PETRI_SCSI_BOOT_LUN)),
                offered: None,
            },
        ),
        BootDeviceType::ScsiViaScsi => Some(
            BootPlan {
                new_controller: None,
                drive: Some((PetriController::ScsiVtl2, PETRI_SCSI_BOOT_LUN)),
                offered: Some(
                    OfferedDisk {
                        controller_type: ControllerType::Scsi,
                        controller: PetriController::ScsiVtl0ViaVtl2,
                        lun: Vtl2Lun {
                            channel: None,
                            location: PETRI_SCSI_BOOT_LUN,
                            backing_type: ControllerType::Scsi,
                            backing_controller: PetriController::ScsiVtl2.id(),
                            backing_location: PETRI_SCSI_BOOT_LUN,
                        },
                    },
                ),
            },
        ),
        BootDeviceType::ScsiViaNvme => Some(
            BootPlan {
                new_controller: Some(
                    NewController {
                        controller: PetriController::NvmeBootVtl2,
                        target_vtl: Vtl::Vtl2,
                        controller_type: VmbusStorageType::Nvme,
                    },
                ),
                drive: Some((PetriController::NvmeBootVtl2, PETRI_NVME_BOOT_NSID)),
                offered: Some(
                    OfferedDisk {
                        controller_type: ControllerType::Scsi,
                        controller: PetriController::ScsiVtl0ViaVtl2,
                        lun: Vtl2Lun {
                            channel: None,
                            location: PETRI_SCSI_BOOT_LUN,
                            backing_type: ControllerType::Nvme,
                            backing_controller: PetriController::NvmeBootVtl2.id(),
                            backing_location: PETRI_NVME_BOOT_NSID,
                        },
                    },
                ),
            },
        ),
        BootDeviceType::Nvme => Some(
            BootPlan {
                new_controller: Some(
                    NewController {
                        controller: PetriController::NvmeBootVtl0,
                        target_vtl: Vtl::Vtl0,
                        controller_type: VmbusStorageType::Nvme,
                    },
                ),
                drive: Some((PetriController::NvmeBootVtl0, PETRI_NVME_BOOT_NSID)),
                offered: None,
            },
        ),
        _ => None,
    }
}

/// Where the boot disk goes. `None` if there is no place for one.
pub fn boot_plan(t: BootDeviceType) -> (p: Option<BootPlan>)
    ensures
        p == plan_of(t),
{
    match t {
        BootDeviceType::Ide => Some(BootPlan { new_controller: None, drive: None, offered: None }),
        BootDeviceType::IdeViaScsi => Some(
            BootPlan {
                new_controller: None,
                drive: Some((PetriController::ScsiVtl2, PETRI_SCSI_BOOT_LUN)),
                offered: Some(
                    OfferedDisk {
                        controller_type: ControllerType::Ide,
                        controller: PetriController::IdeBoot,
                        lun: Vtl2Lun {
                            channel: Some(PETRI_IDE_BOOT_CONTROLLER_NUMBER),
                            location: PETRI_IDE_BOOT_LUN as u32,
                            backing_type: ControllerType::Scsi,
                            backing_controller: PetriController::ScsiVtl2.guid(),
                            backing_location: PETRI_SCSI_BOOT_LUN,
                        },
                    },
                ),
            },
        ),
        BootDeviceType::Scsi => Some(
            BootPlan {
                new_controller: None,
                drive: Some((PetriController::ScsiVtl0, PETRI_SCSI_BOOT_LUN)),
                offered: None,
            },
        ),
        BootDeviceType::ScsiViaScsi => Some(
            BootPlan {
                new_controller: None,
                drive: Some((PetriController::ScsiVtl2, PETRI_SCSI_BOOT_LUN)),
                offered: Some(
                    OfferedDisk {
                        controller_type: ControllerType::Scsi,
                        controller: PetriController::ScsiVtl0ViaVtl2,
                        lun: Vtl2Lun {
                            channel: None,
                            location: PETRI_SCSI_BOOT_LUN,
                            backing_type: ControllerType::Scsi,
                            backing_controller: PetriController::ScsiVtl2.guid(),
                            backing_location: PETRI_SCSI_BOOT_LUN,
                        },
                    },
                ),
            },
        ),
        BootDeviceType::ScsiViaNvme => Some(
            BootPlan {
                new_controller: Some(
                    NewController {
                        controller: PetriController::NvmeBootVtl2,
                        target_vtl: Vtl::Vtl2,
                        controller_type: VmbusStorageType::Nvme,
                    },
                ),
                drive: Some((PetriController::NvmeBootVtl2, PETRI_NVME_BOOT_NSID)),
                offered: Some(
                    OfferedDisk {
                        controller_type: ControllerType::Scsi,
                        controller: PetriController::ScsiVtl0ViaVtl2,
                        lun: Vtl2Lun {
                            channel: None,
                            location: PETRI_SCSI_BOOT_LUN,
                            backing_type: ControllerType::Nvme,
                            backing_controller: PetriController::NvmeBootVtl2.guid(),
                            backing_location: PETRI_NVME_BOOT_NSID,
                        },
                    },
                ),
            },
        ),
        BootDeviceType::Nvme => Some(
            BootPlan {
                new_controller: Some(
                    NewController {
                        controller: PetriController::NvmeBootVtl0,
                        target_vtl: Vtl::Vtl0,
                        controller_type: VmbusStorageType::Nvme,
                    },
                ),
                drive: Some((PetriController::NvmeBootVtl0, PETRI_NVME_BOOT_NSID)),
                offered: None,
            },
        ),
        _ => None,
    }
}

/// The controllers with the one that the plan adds.
pub open spec fn planned_controllers(v: Seq<ControllerView>, p: BootPlan) -> Seq<ControllerView> {
    match p.new_controller {
        Some(c) => with_controller(v, c.controller.id(), c.target_vtl, c.controller_type),
        None => v,
    }
}

/// The controllers with the boot disk on them.
pub open spec fn booting_controllers(v: Seq<ControllerView>, p: BootPlan, drive: Drive) -> Seq<
    ControllerView,
> {
    match p.drive {
        Some((c, place)) => with_drive(planned_controllers(v, p), c.id(), place, drive),
        None => planned_controllers(v, p),
    }
}

/// What VTL2 offers the boot disk as.
pub open spec fn offered_controller(o: OfferedDisk) -> StorageControllerView {
    StorageControllerView {
        controller_type: o.controller_type,
        instance_id: o.controller.id(),
        luns: seq![o.lun],
    }
}

/// The firmware, told to boot from vPCI if need be.
pub open spec fn vpci_firmware(f: Firmware, t: BootDeviceType) -> Firmware {
    if t.on_vpci() {
        f.with_uefi(UefiConfig { enable_vpci_boot: true, ..f.uefi_settings()->0 })
    } else {
        f
    }
}

/// Whether `after` is `before` with the settings of OpenHCL changed only in what VTL2
/// offers, which is `settings`.
pub open spec fn offers(before: Firmware, after: Firmware, settings: Seq<StorageControllerView>) -> bool {
    let c = before.openhcl_settings()->0;
    &&& after.openhcl_settings() matches Some(d)
    &&& after == before.with_openhcl(d)
    &&& d == (OpenHclConfig { vtl2_settings: d.vtl2_settings, ..c })
    &&& d.vtl2_settings is Some
    &&& settings_view(d.vtl2_settings) == settings
}

/// Whether `after` is `before` with an IDE drive changed.
pub open spec fn ide_changed(before: Firmware, after: Firmware, i: int, drive: Drive) -> bool {
    &&& after.ide_drives() matches Some(ide)
    &&& after == before.with_ide(ide)
    &&& ide.drives@ == before.ide_drives()->0.drives@.update(i, Some(drive))
}

impl PetriVmBuilder {
    /// The storage controllers.
    pub open spec fn storage(self) -> Seq<ControllerView> {
        controllers(self.config.vmbus_storage_controllers@)
    }

    /// The same with another firmware.
    pub open spec fn with_firmware(self, firmware: Firmware) -> PetriVmBuilder {
        PetriVmBuilder { config: PetriVmConfig { firmware, ..self.config }, ..self }
    }

    /// The same with other storage controllers.
    pub open spec fn with_storage(self, v: Vec<(Guid, VmbusStorageController)>) -> PetriVmBuilder {
        PetriVmBuilder {
            config: PetriVmConfig { vmbus_storage_controllers: v, ..self.config },
            ..self
        }
    }

    /// Adds a storage controller.
    pub fn add_vmbus_storage_controller(
        self,
        id: Guid,
        target_vtl: Vtl,
        controller_type: VmbusStorageType,
    ) -> (b: PetriVmBuilder)
        requires
            !has_controller(self.storage(), id),
        ensures
            b == self.with_storage(b.config.vmbus_storage_controllers),
            b.storage() == with_controller(self.storage(), id, target_vtl, controller_type),
            has_controller(b.storage(), id),
            ids_are_unique(self.storage()) ==> ids_are_unique(b.storage()),
    {
        let ghost before = self.storage();
        let mut b = self;
        b.config.vmbus_storage_controllers.push(
            (id, VmbusStorageController::new(target_vtl, controller_type)),
        );
        proof {
            let c = ControllerView { id, target_vtl, controller_type, drives: Map::empty() };
            assert(b.storage() =~= before.push(c));
            lemma_position_bound(before, id);
            lemma_position_push(before, c);
        }
        b
    }

    /// Adds a drive to a storage controller, at the given place or the first that is
    /// free.
    pub fn add_vmbus_drive(self, drive: Drive, controller_id: Guid, controller_location: Option<u32>) -> (b:
        PetriVmBuilder)
        requires
            has_controller(self.storage(), controller_id),
            ({
                let drives = self.storage()[position(self.storage(), controller_id)].drives;
                has_place(drives, controller_location) && (controller_location matches Some(lun)
                    ==> !drives.contains_key(lun))
            }),
        ensures
            b == self.with_storage(b.config.vmbus_storage_controllers),
            exists|place: u32|
                is_place(
                    self.storage()[position(self.storage(), controller_id)].drives,
                    controller_location,
                    place,
                ) && b.storage() == #[trigger] with_drive(
                    self.storage(),
                    controller_id,
                    place,
                    drive,
                ),
            ids_are_unique(self.storage()) ==> ids_are_unique(b.storage()),
    {
        let ghost before = self.storage();
        let found = find_controller(&self.config.vmbus_storage_controllers, controller_id);
        let mut b = self;
        if let Some(i) = found {
            let ghost old_controllers = b.config.vmbus_storage_controllers@;
            assert(before[i as int].drives == old_controllers[i as int].1.drives@);
            let entry = &mut b.config.vmbus_storage_controllers[i];
            let place: u32 = entry.1.set_drive(controller_location, drive, false);
            assert(b.storage() =~= with_drive(before, controller_id, place, drive));
        }
        b
    }

    /// Adds an IDE drive.
    pub fn add_ide_drive(self, drive: Drive, controller_number: u32, controller_location: u8) -> (b:
        PetriVmBuilder)
        requires
            self.config.firmware.wf(),
            self.config.firmware.ide_drives() is Some,
            controller_number < 2,
            controller_location < 2,
        ensures
            b == self.with_firmware(b.config.firmware),
            ide_changed(
                self.config.firmware,
                b.config.firmware,
                2 * controller_number + controller_location,
                drive,
            ),
            b.config.firmware.wf(),
    {
        let mut b = self;
        let ghost before = b.config.firmware;
        match b.config.firmware.ide_controllers_mut() {
            Some(ide) => {
                ide.drives.set(
                    2 * controller_number as usize + controller_location as usize,
                    Some(drive),
                );
            },
            None => {},
        }
        b
    }

    /// Changes the settings of VTL2 as `f` says. It is handed those that are there, or else
    /// the default ones.
    pub fn with_custom_vtl2_settings<F: FnOnce(Vtl2Settings) -> Vtl2Settings>(
        self,
        f: F,
    ) -> (b: PetriVmBuilder)
        requires
            self.config.firmware.openhcl_settings() is Some,
            forall|s: Vtl2Settings|
                s@ == settings_view(self.config.firmware.openhcl_settings()->0.vtl2_settings)
                    ==> #[trigger] f.requires((s,)),
        ensures
            b == self.with_firmware(b.config.firmware),
            b.config.firmware.openhcl_settings() is Some,
            ({
                let before = self.config.firmware.openhcl_settings()->0;
                let after = b.config.firmware.openhcl_settings()->0;
                &&& b.config.firmware == self.config.firmware.with_openhcl(after)
                &&& after == (OpenHclConfig { vtl2_settings: after.vtl2_settings, ..before })
                &&& exists|s: Vtl2Settings, t: Vtl2Settings|
                    s@ == settings_view(before.vtl2_settings) && after.vtl2_settings == Some(t)
                        && #[trigger] f.ensures((s,), t)
            }),
    {
        let mut b = self;
        let ghost before = b.config.firmware.openhcl_settings()->0;
        match b.config.firmware.openhcl_config_mut() {
            Some(c) => {
                let settings = match c.vtl2_settings.take() {
                    Some(s) => s,
                    None => default_vtl2_settings(),
                };
                let ghost given = settings;
                let changed = f(settings);
                assert(given@ == settings_view(before.vtl2_settings) && f.ensures(
                    (given,),
                    changed,
                ));
                c.vtl2_settings = Some(changed);
            },
            None => {},
        }
        b
    }

    /// Makes VTL2 offer a storage controller.
    pub fn add_vtl2_storage_controller(self, controller: StorageController) -> (b: PetriVmBuilder)
        requires
            self.config.firmware.openhcl_settings() is Some,
        ensures
            b == self.with_firmware(b.config.firmware),
            offers(
                self.config.firmware,
                b.config.firmware,
                settings_view(self.config.firmware.openhcl_settings()->0.vtl2_settings).push(
                    controller@,
                ),
            ),
    {
        let mut b = self;
        let ghost before = b.config.firmware;
        let ghost old_settings = settings_view(
            before.openhcl_settings()->0.vtl2_settings,
        );
        let ghost view = controller@;
        match b.config.firmware.openhcl_config_mut() {
            Some(c) => {
                let mut settings = match c.vtl2_settings.take() {
                    Some(s) => s,
                    None => default_vtl2_settings(),
                };
                assert(settings@ == old_settings);
                settings.storage_controllers.push(controller);
                assert(settings@ =~= old_settings.push(view));
                c.vtl2_settings = Some(settings);
            },
            None => {},
        }
        b
    }

    /// Whether the boot disk can be added: what it needs is there.
    pub open spec fn can_add_boot_disk(self) -> bool {
        let t = self.boot_device_type;
        let f = self.config.firmware;
        &&& f.wf()
        &&& t.via_vtl2() ==> f.openhcl_settings() is Some
        &&& t.on_vpci() ==> f.uefi_settings() is Some
        &&& f.has_boot_drive() ==> {
            &&& plan_of(t) matches Some(p)
            &&& p.drive is None ==> f.ide_drives() is Some
            &&& p.new_controller matches Some(c) ==> !has_controller(
                self.storage(),
                c.controller.id(),
            )
            &&& p.drive matches Some((c, place)) ==> {
                let v = planned_controllers(self.storage(), p);
                has_controller(v, c.id()) && !v[position(v, c.id())].drives.contains_key(place)
            }
        }
    }

    /// Adds the boot disk, where the type of the boot device wants it.
    pub fn add_boot_disk(self) -> (b: PetriVmBuilder)
        requires
            self.can_add_boot_disk(),
        ensures
            b == self.with_firmware(b.config.firmware).with_storage(
                b.config.vmbus_storage_controllers,
            ),
            ({
                let f = vpci_firmware(self.config.firmware, self.boot_device_type);
                if !f.has_boot_drive() {
                    b == self.with_firmware(f)
                } else {
                    let p = plan_of(self.boot_device_type)->0;
                    exists|drive: Drive| #[trigger]
                        f.is_boot_drive(drive) && b.storage() == booting_controllers(
                            self.storage(),
                            p,
                            drive,
                        ) && (match p.offered {
                            Some(o) => offers(
                                f,
                                b.config.firmware,
                                settings_view(f.openhcl_settings()->0.vtl2_settings).push(
                                    offered_controller(o),
                                ),
                            ),
                            None => if p.drive is None {
                                ide_changed(f, b.config.firmware, 0, drive)
                            } else {
                                b.config.firmware == f
                            },
                        })
                }
            }),
            ids_are_unique(self.storage()) ==> ids_are_unique(b.storage()),
    {
        let ghost first = self;
        let mut b = self;
        if b.boot_device_type.requires_vpci_boot() {
            match b.config.firmware.uefi_config_mut() {
                Some(c) => {
                    c.enable_vpci_boot = true;
                },
                None => {},
            }
        }
        let ghost f = vpci_firmware(first.config.firmware, first.boot_device_type);
        assert(b.config.firmware == f);
        let drive = match b.config.firmware.boot_drive() {
            Some(drive) => drive,
            None => {
                return b;
            },
        };
        let ghost boot = drive;
        let plan = match boot_plan(b.boot_device_type) {
            Some(plan) => plan,
            None => {
                return b;
            },
        };
        if let Some(c) = plan.new_controller {
            b = b.add_vmbus_storage_controller(
                c.controller.guid(),
                c.target_vtl,
                c.controller_type,
            );
        }
        assert(b.storage() == planned_controllers(first.storage(), plan));
        assert(b.config.firmware == f);
        match plan.drive {
            None => {
                b = b.add_ide_drive(drive, PETRI_IDE_BOOT_CONTROLLER_NUMBER, PETRI_IDE_BOOT_LUN);
            },
            Some((c, place)) => {
                b = b.add_vmbus_drive(drive, c.guid(), Some(place));
            },
        }
        if let Some(o) = plan.offered {
            let mut luns: Vec<Vtl2Lun> = Vec::new();
            luns.push(o.lun);
            let controller = StorageController {
                controller_type: o.controller_type,
                instance_id: o.controller.guid(),
                luns,
            };
            assert(controller@ =~= offered_controller(o));
            b = b.add_vtl2_storage_controller(controller);
        }
        assert(f.is_boot_drive(boot));
        b
    }
}


impl PetriVmBuilder {
    /// The configuration of a VM before anything is told: with the SCSI controllers
    /// that tests count on, one for VTL0 and one for OpenHCL if there is OpenHCL.
    pub fn new(
        test_name: &str,
        arch: MachineArch,
        firmware: Firmware,
        agent_image: Option<AgentImage>,
        openhcl_agent_image: Option<AgentImage>,
        guest_quirks: GuestQuirksInner,
        vmm_quirks: VmmQuirks,
    ) -> (b: PetriVmBuilder)
        ensures
            b.config.name@ == safe_name(test_name@, name_hash(test_name@)),
            b.config.arch == arch,
            b.config.host_log_levels is None,
            b.config.firmware == firmware,
            b.config.memory.startup_bytes == 0x1_0000_0000,
            b.config.memory.dynamic_memory_range is None,
            b.config.memory.mmio_gaps is Platform,
            b.config.proc_topology.vp_count == 2,
            b.config.proc_topology.enable_smt is None,
            b.config.proc_topology.vps_per_socket is None,
            b.config.proc_topology.apic_mode is None,
            b.config.vmgs is Ephemeral,
            b.config.tpm is None,
            b.guest_quirks == guest_quirks,
            b.vmm_quirks == vmm_quirks,
            !b.override_expect_reset,
            b.agent_image == agent_image,
            b.openhcl_agent_image == openhcl_agent_image,
            b.boot_device_type == default_boot_device(firmware),
            b.storage() == scsi_controllers(firmware.openhcl_settings() is Some),
            ids_are_unique(b.storage()),
            b.expected_boot_event == match firmware.uefi_guest() {
                Some(UefiGuest::GuestTestUefi(_)) => None,
                Some(UefiGuest::NoGuest) => Some(FirmwareEvent::NoBootDevice),
                Some(UefiGuest::Vhd(_)) => Some(FirmwareEvent::BootSuccess),
                None => if firmware.pcat_guest() is Some {
                    Some(FirmwareEvent::BootAttempt)
                } else {
                    None
                },
            },
    {
        let expected_boot_event = firmware.expected_boot_event();
        let boot_device_type = boot_device(&firmware);
        let b = PetriVmBuilder {
            config: PetriVmConfig {
                name: make_vm_safe_name(test_name),
                arch,
                host_log_levels: None,
                firmware,
                memory: MemoryConfig::default(),
                proc_topology: ProcessorTopology::default(),
                vmgs: PetriVmgsResource::Ephemeral,
                tpm: None,
                vmbus_storage_controllers: Vec::new(),
            },
            guest_quirks,
            vmm_quirks,
            expected_boot_event,
            override_expect_reset: false,
            agent_image,
            openhcl_agent_image,
            boot_device_type,
        };
        assert(b.storage() =~= Seq::empty());
        b.add_petri_scsi_controllers()
    }

    fn add_petri_scsi_controllers(self) -> (b: PetriVmBuilder)
        requires
            self.storage() == Seq::<ControllerView>::empty(),
        ensures
            b == self.with_storage(b.config.vmbus_storage_controllers),
            b.storage() == scsi_controllers(self.config.firmware.openhcl_settings() is Some),
            ids_are_unique(b.storage()),
    {
        let b = self.add_vmbus_storage_controller(
            PetriController::ScsiVtl0.guid(),
            Vtl::Vtl0,
            VmbusStorageType::Scsi,
        );
        if b.is_openhcl() {
            proof {
                assert(b.storage()[0].id != PetriController::ScsiVtl2.id());
                lemma_position(b.storage(), PetriController::ScsiVtl2.id(), 1);
            }
            b.add_vmbus_storage_controller(
                PetriController::ScsiVtl2.guid(),
                Vtl::Vtl2,
                VmbusStorageType::Scsi,
            )
        } else {
            b
        }
    }

    /// Adds the disk for crash dumps, if there is one.
    pub fn add_guest_crash_disk(self, disk: Option<Disk>) -> (b: PetriVmBuilder)
        requires
            disk is Some ==> self.can_add_drive(PetriController::ScsiVtl0, PETRI_SCSI_CRASH_LUN),
        ensures
            b == self.with_storage(b.config.vmbus_storage_controllers),
            disk is None ==> b == self,
            disk is Some ==> b.storage() == with_drive(
                self.storage(),
                PetriController::ScsiVtl0.id(),
                PETRI_SCSI_CRASH_LUN,
                (Drive { disk, is_dvd: false }),
            ),
            ids_are_unique(self.storage()) ==> ids_are_unique(b.storage()),
    {
        if disk.is_some() {
            self.add_vmbus_drive(
                Drive::new(disk, false),
                PetriController::ScsiVtl0.guid(),
                Some(PETRI_SCSI_CRASH_LUN),
            )
        } else {
            self
        }
    }

    /// Whether the place on the controller is free.
    pub open spec fn can_add_drive(self, c: PetriController, place: u32) -> bool {
        has_controller(self.storage(), c.id()) && !self.storage()[position(
            self.storage(),
            c.id(),
        )].drives.contains_key(place)
    }

    /// Adds the disk with the agent of a VTL, if there is one.
    pub fn add_agent_disk(self, target_vtl: Vtl, disk: Option<Disk>) -> (b: PetriVmBuilder)
        requires
            target_vtl != Vtl::Vtl1,
            disk is Some ==> self.can_add_drive(agent_controller(target_vtl), PETRI_SCSI_PIPETTE_LUN),
        ensures
            b == self.with_storage(b.config.vmbus_storage_controllers),
            disk is None ==> b == self,
            disk is Some ==> b.storage() == with_drive(
                self.storage(),
                agent_controller(target_vtl).id(),
                PETRI_SCSI_PIPETTE_LUN,
                (Drive { disk, is_dvd: false }),
            ),
            ids_are_unique(self.storage()) ==> ids_are_unique(b.storage()),
    {
        let controller = match target_vtl {
            Vtl::Vtl0 => PetriController::ScsiVtl0,
            _ => PetriController::ScsiVtl2,
        };
        if disk.is_some() {
            self.add_vmbus_drive(
                Drive::new(disk, false),
                controller.guid(),
                Some(PETRI_SCSI_PIPETTE_LUN),
            )
        } else {
            self
        }
    }

    /// What the VM is like.
    pub fn properties(&self) -> (p: PetriVmProperties)
        ensures
            p.is_openhcl == (self.config.firmware.openhcl_settings() is Some),
            p.is_isolated == (self.config.firmware matches Firmware::OpenhclUefi { isolation, .. }
                && isolation is Some),
            p.is_pcat == (self.config.firmware.pcat_guest() is Some),
            p.is_linux_direct == (self.config.firmware is LinuxDirect
                || self.config.firmware is OpenhclLinuxDirect),
            p.using_vtl0_pipette == (self.agent_image matches Some(a) && a.pipette),
            p.using_vpci == self.boot_device_type.on_vpci(),
            p.os_flavor == self.config.firmware.flavor(),
    {
        PetriVmProperties {
            is_openhcl: self.config.firmware.is_openhcl(),
            is_isolated: self.config.firmware.isolation().is_some(),
            is_pcat: self.config.firmware.is_pcat(),
            is_linux_direct: self.config.firmware.is_linux_direct(),
            using_vtl0_pipette: self.using_vtl0_pipette(),
            using_vpci: self.boot_device_type.requires_vpci_boot(),
            os_flavor: self.config.firmware.os_flavor(),
        }
    }

    /// Whether an agent runs in VTL0.
    pub fn using_vtl0_pipette(&self) -> (b: bool)
        ensures
            b == (self.agent_image matches Some(a) && a.pipette),
    {
        match &self.agent_image {
            Some(a) => a.pipette,
            None => false,
        }
    }

    /// Whether the VM is expected to reset once: if it is told, or if the guest is odd
    /// in that way and boots at all.
    pub fn expect_reset(&self) -> (b: bool)
        ensures
            b == (self.override_expect_reset || ((self.expected_boot_event == Some(
                FirmwareEvent::BootSuccess,
            ) || self.expected_boot_event == Some(FirmwareEvent::BootAttempt)) && (
            self.guest_quirks.initial_reboot == Some(InitialRebootCondition::Always) || (
            self.guest_quirks.initial_reboot == Some(InitialRebootCondition::WithTpm)
                && self.config.tpm is Some)))),
    {
        if self.override_expect_reset {
            return true;
        }
        let boots = match self.expected_boot_event {
            Some(FirmwareEvent::BootSuccess) => true,
            Some(FirmwareEvent::BootAttempt) => true,
            _ => false,
        };
        match self.guest_quirks.initial_reboot {
            Some(InitialRebootCondition::Always) => boots,
            Some(InitialRebootCondition::WithTpm) => boots && self.config.tpm.is_some(),
            None => false,
        }
    }

    /// Expects that the VM cannot boot.
    pub fn with_expect_boot_failure(self) -> (b: PetriVmBuilder)
        ensures
            b == (PetriVmBuilder { expected_boot_event: Some(FirmwareEvent::BootFailed), ..self }),
    {
        let mut b = self;
        b.expected_boot_event = Some(FirmwareEvent::BootFailed);
        b
    }

    /// Expects that the firmware says nothing about booting.
    pub fn with_expect_no_boot_event(self) -> (b: PetriVmBuilder)
        ensures
            b == (PetriVmBuilder { expected_boot_event: None, ..self }),
    {
        let mut b = self;
        b.expected_boot_event = None;
        b
    }

    /// Expects that the VM resets once.
    pub fn with_expect_reset(self) -> (b: PetriVmBuilder)
        ensures
            b == (PetriVmBuilder { override_expect_reset: true, ..self }),
    {
        let mut b = self;
        b.override_expect_reset = true;
        b
    }

    /// Enables secure boot, with the template of the operating system.
    pub fn with_secure_boot(self) -> (b: PetriVmBuilder)
        requires
            self.config.firmware.uefi_settings() is Some,
            self.config.firmware.flavor() == OsFlavor::Windows || self.config.firmware.flavor()
                == OsFlavor::Linux,
        ensures
            b == self.with_firmware(
                self.config.firmware.with_uefi(
                    (UefiConfig {
                        secure_boot_enabled: true,
                        secure_boot_template: Some(
                            if self.config.firmware.flavor() == OsFlavor::Windows {
                                SecureBootTemplate::MicrosoftWindows
                            } else {
                                SecureBootTemplate::MicrosoftUefiCertificateAuthority
                            },
                        ),
                        ..self.config.firmware.uefi_settings()->0
                    }),
                ),
            ),
    {
        let mut b = self;
        match b.config.firmware.uefi_config_mut() {
            Some(c) => {
                c.secure_boot_enabled = true;
            },
            None => {},
        }
        match b.os_flavor() {
            OsFlavor::Windows => b.with_windows_secure_boot_template(),
            _ => b.with_uefi_ca_secure_boot_template(),
        }
    }

    /// Uses the secure boot template of Windows.
    pub fn with_windows_secure_boot_template(self) -> (b: PetriVmBuilder)
        requires
            self.config.firmware.uefi_settings() is Some,
        ensures
            b == self.with_firmware(
                self.config.firmware.with_uefi(
                    (UefiConfig {
                        secure_boot_template: Some(SecureBootTemplate::MicrosoftWindows),
                        ..self.config.firmware.uefi_settings()->0
                    }),
                ),
            ),
    {
        let mut b = self;
        match b.config.firmware.uefi_config_mut() {
            Some(c) => {
                c.secure_boot_template = Some(SecureBootTemplate::MicrosoftWindows);
            },
            None => {},
        }
        b
    }

    /// Uses the secure boot template of the UEFI certificate authority.
    pub fn with_uefi_ca_secure_boot_template(self) -> (b: PetriVmBuilder)
        requires
            self.config.firmware.uefi_settings() is Some,
        ensures
            b == self.with_firmware(
                self.config.firmware.with_uefi(
                    (UefiConfig {
                        secure_boot_template: Some(
                            SecureBootTemplate::MicrosoftUefiCertificateAuthority,
                        ),
                        ..self.config.firmware.uefi_settings()->0
                    }),
                ),
            ),
    {
        let mut b = self;
        match b.config.firmware.uefi_config_mut() {
            Some(c) => {
                c.secure_boot_template = Some(
                    SecureBootTemplate::MicrosoftUefiCertificateAuthority,
                );
            },
            None => {},
        }
        b
    }

    /// Uses these processors.
    pub fn with_processor_topology(self, topology: ProcessorTopology) -> (b: PetriVmBuilder)
        ensures
            b == (PetriVmBuilder {
                config: (PetriVmConfig { proc_topology: topology, ..self.config }),
                ..self
            }),
    {
        let mut b = self;
        b.config.proc_topology = topology;
        b
    }

    /// Uses this memory.
    pub fn with_memory(self, memory: MemoryConfig) -> (b: PetriVmBuilder)
        ensures
            b == (PetriVmBuilder { config: (PetriVmConfig { memory, ..self.config }), ..self }),
    {
        let mut b = self;
        b.config.memory = memory;
        b
    }

    /// Places VTL2.
    pub fn with_vtl2_base_address_type(self, address_type: Vtl2BaseAddressType) -> (b:
        PetriVmBuilder)
        requires
            self.config.firmware.openhcl_settings() is Some,
        ensures
            b == self.with_firmware(
                self.config.firmware.with_openhcl(
                    (OpenHclConfig {
                        vtl2_base_address_type: Some(address_type),
                        ..self.config.firmware.openhcl_settings()->0
                    }),
                ),
            ),
    {
        let mut b = self;
        match b.config.firmware.openhcl_config_mut() {
            Some(c) => {
                c.vtl2_base_address_type = Some(address_type);
            },
            None => {},
        }
        b
    }

    /// Uses another IGVM file.
    pub fn with_custom_openhcl(self, artifact: String) -> (b: PetriVmBuilder)
        requires
            self.config.firmware.openhcl_settings() is Some,
        ensures
            b == self.with_firmware(self.config.firmware.with_igvm(artifact)),
    {
        let mut b = self;
        match &mut b.config.firmware {
            Firmware::OpenhclLinuxDirect { igvm_path, .. } => {
                *igvm_path = artifact;
            },
            Firmware::OpenhclPcat { igvm_path, .. } => {
                *igvm_path = artifact;
            },
            Firmware::OpenhclUefi { igvm_path, .. } => {
                *igvm_path = artifact;
            },
            _ => {},
        }
        b
    }

    /// Adds to the command line of OpenHCL.
    pub fn with_openhcl_command_line(self, additional_command_line: &str) -> (b: PetriVmBuilder)
        requires
            self.config.firmware.openhcl_settings() is Some,
        ensures
            b == self.with_firmware(b.config.firmware),
            command_line_added(
                self.config.firmware,
                b.config.firmware,
                additional_command_line@,
            ),
    {
        let mut b = self;
        match b.config.firmware.openhcl_config_mut() {
            Some(c) => {
                append_cmdline(&mut c.custom_command_line, additional_command_line);
            },
            None => {},
        }
        b
    }

    /// Makes OpenHCL filter what it logs as if the VM was confidential.
    pub fn with_confidential_filtering(self) -> (b: PetriVmBuilder)
        requires
            self.config.firmware.openhcl_settings() is Some,
        ensures
            b == self.with_firmware(b.config.firmware),
            command_line_added(
                self.config.firmware,
                b.config.firmware,
                "OPENHCL_CONFIDENTIAL=1 OPENHCL_CONFIDENTIAL_DEBUG=0"@,
            ),
    {
        self.with_openhcl_command_line("OPENHCL_CONFIDENTIAL=1 OPENHCL_CONFIDENTIAL_DEBUG=0")
    }

    /// Says what OpenHCL logs.
    pub fn with_openhcl_log_levels(self, levels: OpenvmmLogConfig) -> (b: PetriVmBuilder)
        requires
            self.config.firmware.openhcl_settings() is Some,
        ensures
            b == self.with_firmware(
                self.config.firmware.with_openhcl(
                    (OpenHclConfig {
                        log_levels: levels,
                        ..self.config.firmware.openhcl_settings()->0
                    }),
                ),
            ),
    {
        let mut b = self;
        match b.config.firmware.openhcl_config_mut() {
            Some(c) => {
                c.log_levels = levels;
            },
            None => {},
        }
        b
    }

    /// Says what the VMM logs.
    pub fn with_host_log_levels(self, levels: OpenvmmLogConfig) -> (b: PetriVmBuilder)
        requires
            host_levels_supported(levels),
        ensures
            b == (PetriVmBuilder {
                config: (PetriVmConfig { host_log_levels: Some(levels), ..self.config }),
                ..self
            }),
    {
        let mut b = self;
        b.config.host_log_levels = Some(levels);
        b
    }

    /// Adds a file for the agent of the guest.
    pub fn with_agent_file(self, name: String, artifact: String) -> (b: PetriVmBuilder)
        requires
            self.agent_image is Some,
        ensures
            b == (PetriVmBuilder { agent_image: b.agent_image, ..self }),
            b.agent_image is Some,
            file_added(self.agent_image->0, b.agent_image->0, name, artifact),
    {
        let mut b = self;
        match &mut b.agent_image {
            Some(a) => {
                a.files.push((name, artifact));
            },
            None => {},
        }
        b
    }

    /// Adds a file for the agent of OpenHCL.
    pub fn with_openhcl_agent_file(self, name: String, artifact: String) -> (b: PetriVmBuilder)
        requires
            self.openhcl_agent_image is Some,
        ensures
            b == (PetriVmBuilder { openhcl_agent_image: b.openhcl_agent_image, ..self }),
            b.openhcl_agent_image is Some,
            file_added(self.openhcl_agent_image->0, b.openhcl_agent_image->0, name, artifact),
    {
        let mut b = self;
        match &mut b.openhcl_agent_image {
            Some(a) => {
                a.files.push((name, artifact));
            },
            None => {},
        }
        b
    }

    /// Enables the UEFI frontpage, or not.
    pub fn with_uefi_frontpage(self, enable: bool) -> (b: PetriVmBuilder)
        requires
            self.config.firmware.uefi_settings() is Some,
        ensures
            b == self.with_firmware(
                self.config.firmware.with_uefi(
                    (UefiConfig {
                        disable_frontpage: !enable,
                        ..self.config.firmware.uefi_settings()->0
                    }),
                ),
            ),
    {
        let mut b = self;
        match b.config.firmware.uefi_config_mut() {
            Some(c) => {
                c.disable_frontpage = !enable;
            },
            None => {},
        }
        b
    }

    /// Makes UEFI always attempt a default boot, or not.
    pub fn with_default_boot_always_attempt(self, enable: bool) -> (b: PetriVmBuilder)
        requires
            self.config.firmware.uefi_settings() is Some,
        ensures
            b == self.with_firmware(
                self.config.firmware.with_uefi(
                    (UefiConfig {
                        default_boot_always_attempt: enable,
                        ..self.config.firmware.uefi_settings()->0
                    }),
                ),
            ),
    {
        let mut b = self;
        match b.config.firmware.uefi_config_mut() {
            Some(c) => {
                c.default_boot_always_attempt = enable;
            },
            None => {},
        }
        b
    }

    /// Makes VTL2 redirect VMBus, or not.
    pub fn with_vmbus_redirect(self, enable: bool) -> (b: PetriVmBuilder)
        requires
            self.config.firmware.openhcl_settings() is Some,
        ensures
            b == self.with_firmware(
                self.config.firmware.with_openhcl(
                    (OpenHclConfig {
                        vmbus_redirect: enable,
                        ..self.config.firmware.openhcl_settings()->0
                    }),
                ),
            ),
    {
        let mut b = self;
        match b.config.firmware.openhcl_config_mut() {
            Some(c) => {
                c.vmbus_redirect = enable;
            },
            None => {},
        }
        b
    }

    /// The same with other guest state.
    pub open spec fn with_vmgs(self, vmgs: PetriVmgsResource) -> PetriVmBuilder {
        PetriVmBuilder { config: PetriVmConfig { vmgs, ..self.config }, ..self }
    }

    /// Gives guest state another lifetime. State on a disk that is not in memory cannot
    /// become ephemeral.
    pub fn with_guest_state_lifetime(self, guest_state_lifetime: PetriGuestStateLifetime) -> (b:
        PetriVmBuilder)
        requires
            guest_state_lifetime == PetriGuestStateLifetime::Ephemeral ==> (
            self.config.vmgs.spec_disk() matches Some(d) ==> d.disk is Memory),
        ensures
            b == self.with_vmgs(self.config.vmgs.living(guest_state_lifetime)),
    {
        let mut b = self;
        let mut vmgs = PetriVmgsResource::Ephemeral;
        std::mem::swap(&mut vmgs, &mut b.config.vmgs);
        b.config.vmgs = vmgs.with_lifetime(guest_state_lifetime);
        b
    }

    /// Encrypts guest state, which must not be ephemeral.
    pub fn with_guest_state_encryption(self, policy: GuestStateEncryptionPolicy) -> (b:
        PetriVmBuilder)
        requires
            !(self.config.vmgs is Ephemeral),
        ensures
            b == self.with_vmgs(
                self.config.vmgs.with_disk(
                    (PetriVmgsDisk {
                        encryption_policy: policy,
                        ..self.config.vmgs.spec_disk()->0
                    }),
                ),
            ),
    {
        let mut b = self;
        let mut vmgs = PetriVmgsResource::Ephemeral;
        std::mem::swap(&mut vmgs, &mut b.config.vmgs);
        b.config.vmgs = vmgs.with_encryption(policy);
        b
    }

    /// Puts guest state on top of a file. That is told at most once, and not of
    /// ephemeral state.
    pub fn with_initial_vmgs(self, disk: String) -> (b: PetriVmBuilder)
        requires
            self.config.vmgs.spec_disk() matches Some(d) && d.disk is Memory,
        ensures
            b == self.with_vmgs(
                self.config.vmgs.with_disk(
                    (PetriVmgsDisk {
                        disk: Disk::Differencing(disk),
                        ..self.config.vmgs.spec_disk()->0
                    }),
                ),
            ),
    {
        self.with_backing_vmgs(Disk::Differencing(disk))
    }

    /// Puts guest state on a file. That is told at most once, and not of ephemeral
    /// state.
    pub fn with_persistent_vmgs(self, disk: String) -> (b: PetriVmBuilder)
        requires
            self.config.vmgs.spec_disk() matches Some(d) && d.disk is Memory,
        ensures
            b == self.with_vmgs(
                self.config.vmgs.with_disk(
                    (PetriVmgsDisk {
                        disk: Disk::Persistent(disk),
                        ..self.config.vmgs.spec_disk()->0
                    }),
                ),
            ),
    {
        self.with_backing_vmgs(Disk::Persistent(disk))
    }

    fn with_backing_vmgs(self, disk: Disk) -> (b: PetriVmBuilder)
        requires
            self.config.vmgs.spec_disk() matches Some(d) && d.disk is Memory,
        ensures
            b == self.with_vmgs(
                self.config.vmgs.with_disk(
                    (PetriVmgsDisk { disk, ..self.config.vmgs.spec_disk()->0 }),
                ),
            ),
    {
        let mut b = self;
        let mut vmgs = PetriVmgsResource::Ephemeral;
        std::mem::swap(&mut vmgs, &mut b.config.vmgs);
        b.config.vmgs = vmgs.with_backing(disk);
        b
    }

    /// Boots from this device.
    pub fn with_boot_device_type(self, boot: BootDeviceType) -> (b: PetriVmBuilder)
        ensures
            b == (PetriVmBuilder { boot_device_type: boot, ..self }),
    {
        let mut b = self;
        b.boot_device_type = boot;
        b
    }

    /// Adds a TPM unless there is one, or removes it.
    pub fn with_tpm(self, enable: bool) -> (b: PetriVmBuilder)
        ensures
            b == (PetriVmBuilder {
                config: (PetriVmConfig {
                    tpm: if !enable {
                        None
                    } else if self.config.tpm is Some {
                        self.config.tpm
                    } else {
                        Some(TpmConfig { no_persistent_secrets: true })
                    },
                    ..self.config
                }),
                ..self
            }),
    {
        let mut b = self;
        if enable {
            if b.config.tpm.is_none() {
                b.config.tpm = Some(TpmConfig::default());
            }
        } else {
            b.config.tpm = None;
        }
        b
    }

    /// Keeps the state of the TPM, or not.
    pub fn with_tpm_state_persistence(self, tpm_state_persistence: bool) -> (b: PetriVmBuilder)
        requires
            self.config.tpm is Some,
        ensures
            b == (PetriVmBuilder {
                config: (PetriVmConfig {
                    tpm: Some((TpmConfig { no_persistent_secrets: !tpm_state_persistence })),
                    ..self.config
                }),
                ..self
            }),
    {
        let mut b = self;
        b.config.tpm = Some(TpmConfig { no_persistent_secrets: !tpm_state_persistence });
        b
    }

    /// The operating system.
    pub fn os_flavor(&self) -> (f: OsFlavor)
        ensures
            f == self.config.firmware.flavor(),
    {
        self.config.firmware.os_flavor()
    }

    /// Whether there is OpenHCL.
    pub fn is_openhcl(&self) -> (b: bool)
        ensures
            b == (self.config.firmware.openhcl_settings() is Some),
    {
        self.config.firmware.is_openhcl()
    }

    /// The isolation.
    pub fn isolation(&self) -> (i: Option<IsolationType>)
        ensures
            i == match self.config.firmware {
                Firmware::OpenhclUefi { isolation, .. } => isolation,
                _ => None,
            },
    {
        self.config.firmware.isolation()
    }

    /// The architecture.
    pub fn arch(&self) -> (a: MachineArch)
        ensures
            a == self.config.arch,
    {
        self.config.arch
    }
}

impl PetriVmRuntimeConfig {
    /// The storage controllers.
    pub open spec fn storage(self) -> Seq<ControllerView> {
        controllers(self.vmbus_storage_controllers@)
    }

    /// Adds a drive to a storage controller, or replaces one. Returns its place.
    pub fn set_vmbus_drive(
        &mut self,
        drive: Drive,
        controller_id: Guid,
        controller_location: Option<u32>,
    ) -> (place: u32)
        requires
            has_controller(old(self).storage(), controller_id),
            has_place(
                old(self).storage()[position(old(self).storage(), controller_id)].drives,
                controller_location,
            ),
        ensures
            is_place(
                old(self).storage()[position(old(self).storage(), controller_id)].drives,
                controller_location,
                place,
            ),
            final(self).storage() == with_drive(old(self).storage(), controller_id, place, drive),
            final(self).vtl2_settings == old(self).vtl2_settings,
            final(self).ide_controllers == old(self).ide_controllers,
            ids_are_unique(old(self).storage()) ==> ids_are_unique(final(self).storage()),
    {
        let ghost before = self.storage();
        match find_controller(&self.vmbus_storage_controllers, controller_id) {
            Some(i) => {
                assert(before[i as int].drives
                    == self.vmbus_storage_controllers@[i as int].1.drives@);
                let entry = &mut self.vmbus_storage_controllers[i];
                let place: u32 = entry.1.set_drive(controller_location, drive, true);
                assert(self.storage() =~= with_drive(before, controller_id, place, drive));
                place
            },
            None => 0,
        }
    }
}

/// The SCSI controllers that tests count on.
pub open spec fn scsi_controllers(is_openhcl: bool) -> Seq<ControllerView> {
    let vtl0 = with_controller(
        Seq::empty(),
        PetriController::ScsiVtl0.id(),
        Vtl::Vtl0,
        VmbusStorageType::Scsi,
    );
    if is_openhcl {
        with_controller(vtl0, PetriController::ScsiVtl2.id(), Vtl::Vtl2, VmbusStorageType::Scsi)
    } else {
        vtl0
    }
}

/// The controller for the agent of a VTL.
pub open spec fn agent_controller(vtl: Vtl) -> PetriController {
    if vtl == Vtl::Vtl0 {
        PetriController::ScsiVtl0
    } else {
        PetriController::ScsiVtl2
    }
}

/// Whether `after` is `before` with something added to the command line of OpenHCL.
pub open spec fn command_line_added(before: Firmware, after: Firmware, add: Seq<char>) -> bool {
    let c = before.openhcl_settings()->0;
    &&& after.openhcl_settings() matches Some(d)
    &&& after == before.with_openhcl(d)
    &&& d == (OpenHclConfig { custom_command_line: d.custom_command_line, ..c })
    &&& text_of(d.custom_command_line) == appended(text_of(c.custom_command_line), add)
}

/// Whether `after` is `before` with another file.
pub open spec fn file_added(before: AgentImage, after: AgentImage, name: String, artifact: String) -> bool {
    &&& after.os_flavor == before.os_flavor
    &&& after.pipette == before.pipette
    &&& after.files@ == before.files@.push((name, artifact))
}

/// Whether a disk for crash dumps is of use.
pub fn needs_crash_disk(os_flavor: OsFlavor) -> (b: bool)
    ensures
        b == (os_flavor == OsFlavor::Windows || os_flavor == OsFlavor::Linux),
{
    match os_flavor {
        OsFlavor::Windows => true,
        OsFlavor::Linux => true,
        _ => false,
    }
}

/// The size of a sector of a disk.
pub const SECTOR_SIZE: u64 = 512;

/// The bytes of a partition: from its first sector on, up to the start of its last one.
pub fn partition_range(starting_lba: u64, ending_lba: u64) -> (r: Option<(u64, u64)>)
    ensures
        match r {
            Some((start, end)) => start == starting_lba * SECTOR_SIZE && end == ending_lba
                * SECTOR_SIZE,
            None => starting_lba * SECTOR_SIZE > u64::MAX || ending_lba * SECTOR_SIZE > u64::MAX,
        },
{
    match (starting_lba.checked_mul(SECTOR_SIZE), ending_lba.checked_mul(SECTOR_SIZE)) {
        (Some(start), Some(end)) => Some((start, end)),
        _ => None,
    }
}

/// Whether a VM that halted was shut down cleanly.
pub fn is_clean_shutdown(reason: PetriHaltReason) -> (b: bool)
    ensures
        b == (reason == PetriHaltReason::PowerOff),
{
    match reason {
        PetriHaltReason::PowerOff => true,
        _ => false,
    }
}

/// Whether a VM that halted was reset.
pub fn is_reset(reason: PetriHaltReason) -> (b: bool)
    ensures
        b == (reason == PetriHaltReason::Reset),
{
    match reason {
        PetriHaltReason::Reset => true,
        _ => false,
    }
}

/// Whether the firmware said what was expected. Nothing is waited for if nothing is
/// expected.
pub fn is_expected_boot_event(expected: Option<FirmwareEvent>, event: FirmwareEvent) -> (b: bool)
    ensures
        b == (expected matches Some(e) ==> e == event),
{
    match expected {
        Some(e) => e == event,
        None => true,
    }
}

/// How long guests are given before they are told to shut down.
pub const SHUTDOWN_WAIT_MS: u64 = 10000;

/// How long the guest is given before it is told to shut down: some need even more
/// time.
pub fn shutdown_wait_ms(quirks: &GuestQuirksInner) -> (ms: u64)
    requires
        quirks.hyperv_shutdown_ic_sleep_ms matches Some(s) ==> SHUTDOWN_WAIT_MS + s <= u64::MAX,
    ensures
        ms == SHUTDOWN_WAIT_MS + match quirks.hyperv_shutdown_ic_sleep_ms {
            Some(s) => s as int,
            None => 0,
        },
{
    match quirks.hyperv_shutdown_ic_sleep_ms {
        Some(s) => SHUTDOWN_WAIT_MS + s,
        None => SHUTDOWN_WAIT_MS,
    }
}

/// How long a test may take.
pub const TIMEOUT_DURATION_MINUTES: u64 = 10;

/// How often a screenshot is taken.
pub const SCREENSHOT_INTERVAL_MS: u64 = 2000;

/// Whether a screenshot differs from the last one.
pub fn is_screenshot_new(image: &Vec<u8>, last_image: &Vec<u8>) -> (b: bool)
    ensures
        b == (image@ != last_image@),
{
    if image.len() != last_image.len() {
        return true;
    }
    let mut i: usize = 0;
    while i < image.len()
        invariant
            i <= image@.len(),
            image@.len() == last_image@.len(),
            forall|k: int| 0 <= k < i ==> #[trigger] image@[k] == last_image@[k],
        decreases image@.len() - i,
    {
        if image[i] != last_image[i] {
            assert(image@[i as int] != last_image@[i as int]);
            return true;
        }
        i = i + 1;
    }
    assert(image@ =~= last_image@);
    false
}

/// The name of the log with what was inspected when a test timed out.
pub fn inspect_log_name(name: &str) -> (s: String)
    ensures
        s@ == "timeout_inspect_"@ + name@ + ".log"@,
{
    let mut s = owned("timeout_inspect_");
    s.append(name);
    s.append(".log");
    s
}

/// What is booted from by default can be added to a new configuration.
pub proof fn default_boot_disk_fits(b: PetriVmBuilder)
    requires
        b.config.firmware.wf(),
        b.boot_device_type == default_boot_device(b.config.firmware),
        b.storage() == scsi_controllers(b.config.firmware.openhcl_settings() is Some),
    ensures
        b.can_add_boot_disk(),
{
    let v = b.storage();
    assert(v[0].id == PetriController::ScsiVtl0.id());
    assert(PetriController::ScsiVtl0.id() != PetriController::ScsiVtl2.id());
    lemma_position(v, PetriController::ScsiVtl0.id(), 0);
    if b.config.firmware.openhcl_settings() is Some {
        assert(v[1].id == PetriController::ScsiVtl2.id());
        lemma_position(v, PetriController::ScsiVtl2.id(), 1);
    }
}

/// A boot disk behind VTL2 is offered to VTL0 from where it was put.
pub proof fn offered_disk_is_backed(t: BootDeviceType)
    requires
        plan_of(t) is Some,
    ensures
        plan_of(t)->0.offered is Some <==> t.via_vtl2(),
        plan_of(t)->0.offered matches Some(o) ==> plan_of(t)->0.drive matches Some((c, place))
            && o.lun.backing_controller == c.id() && o.lun.backing_location == place,
{
}

/// The controllers that tests count on have instances of their own.
pub proof fn controllers_have_their_instances(a: PetriController, b: PetriController)
    ensures
        a.id() == b.id() ==> a == b,
        PetriController::IdeBoot.id() == (Guid {
            data1: 0xca56751f,
            data2: 0xe643,
            data3: 0x4bef,
            data4: 0xbf54f73678e8b7b5,
        }),
        PetriController::ScsiVtl0.id() == (Guid {
            data1: 0x27b553e8,
            data2: 0x8b39,
            data3: 0x411b,
            data4: 0xa55f839971a7884f,
        }),
        PetriController::ScsiVtl2.id() == (Guid {
            data1: 0x766e96f8,
            data2: 0x2ceb,
            data3: 0x437e,
            data4: 0xafe3a93169e48a7c,
        }),
        PetriController::ScsiVtl0ViaVtl2.id() == (Guid {
            data1: 0x6c474f47,
            data2: 0xed39,
            data3: 0x49e6,
            data4: 0xbbb9142177a1da6e,
        }),
        PetriController::NvmeBootVtl0.id() == (Guid {
            data1: 0xe23a04e2,
            data2: 0x90f5,
            data3: 0x4852,
            data4: 0xbc9de7ac691b756c,
        }),
        PetriController::NvmeBootVtl2.id() == (Guid {
            data1: 0x92bc8346,
            data2: 0x718b,
            data3: 0x449a,
            data4: 0x8751edbf3dcd27e4,
        }),
{
}

/// A boot device that comes from another one needs VTL2 between them, and NVMe needs vPCI.
pub proof fn boot_devices_need_their_path(t: BootDeviceType)
    ensures
        t.via_vtl2() <==> t is IdeViaScsi || t is IdeViaNvme || t is ScsiViaScsi || t is ScsiViaNvme
            || t is NvmeViaScsi || t is NvmeViaNvme,
        t.on_vpci() <==> t is Nvme || t is NvmeViaScsi || t is NvmeViaNvme,
{
}

/// PCAT boots from IDE and UEFI from SCSI. OpenHCL gives PCAT its IDE drive from SCSI. Without
/// an image there is nothing to boot from.
pub proof fn boot_device_follows_firmware(f: Firmware)
    ensures
        ({
            let t = default_boot_device(f);
            &&& t is NoDevice <==> !f.has_boot_drive()
            &&& f.pcat_guest() is Some && f.openhcl_settings() is None ==> t is Ide
            &&& f.pcat_guest() is Some && f.openhcl_settings() is Some ==> t is IdeViaScsi
            &&& f.uefi_guest() is Some && f.has_boot_drive() ==> t is Scsi
            &&& !t.on_vpci()
            &&& t.via_vtl2() ==> f.openhcl_settings() is Some
        }),
{
}

/// Where the boot disk goes: an IDE drive of the VMM, the first place on a SCSI controller, or
/// namespace 37 of an NVMe controller that is added for it. It is on a controller of VTL2 if and
/// only if VTL2 offers it on.
pub proof fn boot_disk_has_its_place(t: BootDeviceType)
    ensures
        plan_of(t) is Some <==> t is Ide || t is IdeViaScsi || t is Scsi || t is ScsiViaScsi || t
            is ScsiViaNvme || t is Nvme,
        plan_of(t) matches Some(p) ==> {
            &&& p.drive is None <==> t is Ide
            &&& p.drive matches Some((c, place)) ==> {
                &&& t is Scsi <==> c is ScsiVtl0
                &&& t is IdeViaScsi || t is ScsiViaScsi <==> c is ScsiVtl2
                &&& t is ScsiViaNvme <==> c is NvmeBootVtl2
                &&& t is Nvme <==> c is NvmeBootVtl0
                &&& c is ScsiVtl0 || c is ScsiVtl2 ==> place == 0 && p.new_controller is None
                &&& c is NvmeBootVtl0 || c is NvmeBootVtl2 ==> place == 37 && p.new_controller is Some
                    && p.new_controller->0.controller == c
                    && p.new_controller->0.controller_type is Nvme
                &&& c is NvmeBootVtl0 ==> p.new_controller->0.target_vtl is Vtl0
                &&& c is NvmeBootVtl2 ==> p.new_controller->0.target_vtl is Vtl2
            }
            &&& t is Ide ==> p.new_controller is None
            &&& p.offered is Some <==> t is IdeViaScsi || t is ScsiViaScsi || t is ScsiViaNvme
            &&& p.offered matches Some(o) ==> {
                &&& t is IdeViaScsi ==> o.controller_type is Ide && o.controller is IdeBoot
                    && o.lun.channel == Some(0u32) && o.lun.location == 0
                &&& t is ScsiViaScsi || t is ScsiViaNvme ==> o.controller_type is Scsi
                    && o.controller is ScsiVtl0ViaVtl2 && o.lun.channel is None && o.lun.location
                    == 0
                &&& t is ScsiViaNvme ==> o.lun.backing_type is Nvme
                &&& t is IdeViaScsi || t is ScsiViaScsi ==> o.lun.backing_type is Scsi
            }
        },
{
}

/// A controller is found by its instance: the place is that of the first one with it, and the
/// length if there is none.
pub proof fn controller_is_found_by_instance(v: Seq<ControllerView>, id: Guid)
    ensures
        0 <= position(v, id) <= v.len(),
        forall|k: int| 0 <= k < position(v, id) ==> (#[trigger] v[k]).id != id,
        position(v, id) < v.len() ==> v[position(v, id)].id == id,
        has_controller(v, id) <==> exists|k: int| 0 <= k < v.len() && (#[trigger] v[k]).id == id,
{
    lemma_position_bound(v, id);
    lemma_position_is_found(v, id);
    if exists|k: int| 0 <= k < v.len() && (#[trigger] v[k]).id == id {
        let k = choose|k: int| 0 <= k < v.len() && (#[trigger] v[k]).id == id;
        assert(position(v, id) <= k) by {
            if position(v, id) > k {
                assert(v[k].id != id);
            }
        }
    }
}

proof fn lemma_position_is_found(v: Seq<ControllerView>, id: Guid)
    ensures
        position(v, id) < v.len() ==> v[position(v, id)].id == id,
    decreases v.len(),
{
    if v.len() > 0 && v[0].id != id {
        lemma_position_is_found(v.skip(1), id);
        lemma_position_bound(v.skip(1), id);
    }
}

/// A drive is added to the controller that is named, at its place. Its other drives stay, and so
/// do the other controllers. A controller is added without drives, behind the others.
pub proof fn drive_is_added_to_its_controller(
    v: Seq<ControllerView>,
    id: Guid,
    place: u32,
    drive: Drive,
    other: u32,
    k: int,
    target_vtl: Vtl,
    controller_type: VmbusStorageType,
)
    requires
        has_controller(v, id),
        0 <= k < v.len(),
        other != place,
    ensures
        ({
            let w = with_drive(v, id, place, drive);
            &&& w.len() == v.len()
            &&& w[k].id == v[k].id && w[k].target_vtl == v[k].target_vtl && w[k].controller_type
                == v[k].controller_type
            &&& k == position(v, id) ==> w[k].drives.contains_key(place) && w[k].drives[place]
                == drive
            &&& k != position(v, id) ==> w[k] == v[k]
            &&& w[k].drives.contains_key(other) <==> v[k].drives.contains_key(other)
            &&& v[k].drives.contains_key(other) ==> w[k].drives[other] == v[k].drives[other]
        }),
        ({
            let w = with_controller(v, id, target_vtl, controller_type);
            &&& w.len() == v.len() + 1
            &&& w[k] == v[k]
            &&& w.last().id == id && w.last().target_vtl == target_vtl && w.last().controller_type
                == controller_type
            &&& !w.last().drives.contains_key(place)
        }),
{
    lemma_position_bound(v, id);
}

/// Tests count on a SCSI controller for VTL0, and on one for VTL2 if there is OpenHCL. The agent
/// of each is on its own.
pub proof fn tests_count_on_scsi(is_openhcl: bool)
    ensures
        ({
            let v = scsi_controllers(is_openhcl);
            &&& v.len() == if is_openhcl {
                2int
            } else {
                1
            }
            &&& v[0].id == PetriController::ScsiVtl0.id() && v[0].target_vtl is Vtl0
            &&& v[0].controller_type is Scsi
            &&& is_openhcl ==> v[1].id == PetriController::ScsiVtl2.id() && v[1].target_vtl is Vtl2
                && v[1].controller_type is Scsi
        }),
        agent_controller(Vtl::Vtl0) is ScsiVtl0,
        agent_controller(Vtl::Vtl2) is ScsiVtl2,
{
}

/// What is offered to VTL0 and what is added to the command line of OpenHCL changes nothing else
/// of the firmware.
pub proof fn openhcl_changes_stay_in_openhcl(
    before: Firmware,
    after: Firmware,
    settings: Seq<StorageControllerView>,
    add: Seq<char>,
)
    requires
        before.openhcl_settings() is Some,
        offers(before, after, settings) || command_line_added(before, after, add),
    ensures
        after.uefi_settings() == before.uefi_settings(),
        after.pcat_guest() == before.pcat_guest(),
        after.uefi_guest() == before.uefi_guest(),
        after.ide_drives() == before.ide_drives(),
        after.openhcl_settings() is Some,
        after.openhcl_settings()->0.vmbus_redirect == before.openhcl_settings()->0.vmbus_redirect,
        after.openhcl_settings()->0.log_levels == before.openhcl_settings()->0.log_levels,
        offers(before, after, settings) ==> after.openhcl_settings()->0.vtl2_settings is Some,
        offers(before, after, settings) ==> settings_view(after.openhcl_settings()->0.vtl2_settings)
            == settings && after.openhcl_settings()->0.custom_command_line
            == before.openhcl_settings()->0.custom_command_line,
        command_line_added(before, after, add) ==> match before.openhcl_settings()->0.custom_command_line {
            Some(x) => text_of(after.openhcl_settings()->0.custom_command_line) == Some(
                x@.push(' ') + add,
            ),
            None => text_of(after.openhcl_settings()->0.custom_command_line) == Some(add),
        },
{
    crate::petri::firmware::openhcl_settings_are_set(before, after.openhcl_settings()->0);
    if let Some(x) = before.openhcl_settings()->0.custom_command_line {
        crate::petri::name::appended_text_follows_space(x@, add);
    }
}

/// vPCI is switched on for boot devices that need it, and left alone for others.
pub proof fn vpci_is_switched_on(f: Firmware, t: BootDeviceType)
    requires
        t.on_vpci() ==> f.uefi_settings() is Some,
    ensures
        t is Nvme || t is NvmeViaScsi || t is NvmeViaNvme ==> vpci_firmware(
            f,
            t,
        ).uefi_settings()->0.enable_vpci_boot,
        !(t is Nvme || t is NvmeViaScsi || t is NvmeViaNvme) ==> vpci_firmware(f, t) == f,
        vpci_firmware(f, t).openhcl_settings() == f.openhcl_settings(),
        vpci_firmware(f, t).uefi_guest() == f.uefi_guest(),
        f.uefi_settings() matches Some(c) ==> {
            let d = vpci_firmware(f, t).uefi_settings()->0;
            &&& d.secure_boot_enabled == c.secure_boot_enabled
            &&& d.secure_boot_template == c.secure_boot_template
            &&& d.disable_frontpage == c.disable_frontpage
            &&& d.default_boot_always_attempt == c.default_boot_always_attempt
        },
{
}

} // verus!
