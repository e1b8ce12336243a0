//! The firmware of a VM, and what it boots into.
use crate::petri::boot_image_type::{BootImageType, Iso, Vhd};
use crate::petri::config::{
    default_vtl2_settings, settings_view, Disk, Drive, IsolationType, OpenHclConfig, UefiConfig,
    VmbusStorageController, Vtl2Settings,
};
use crate::guid::Guid;
use crate::text::owned;
use std::marker::PhantomData;
use vstd::prelude::*;

verus! {

/// The architecture of a VM.
#[derive(Debug, Clone, Copy, PartialEq, Eq, Structural)]
pub enum MachineArch {
    /// x86-64.
    X86_64,
    /// Arm, 64 bits.
    Aarch64,
}

/// The operating system of a guest.
#[derive(Debug, Clone, Copy, PartialEq, Eq, Structural)]
pub enum OsFlavor {
    /// Windows.
    Windows,
    /// Linux.
    Linux,
    /// FreeBSD.
    FreeBsd,
    /// None beyond UEFI.
    Uefi,
}

/// When a guest reboots once after it was started first.
#[derive(Debug, Clone, Copy, PartialEq, Eq, Structural)]
pub enum InitialRebootCondition {
    /// Always.
    Always,
    /// If there is a TPM.
    WithTpm,
}

/// Oddities of a guest on one VMM.
#[derive(Debug, Clone, Copy, PartialEq, Eq, Structural)]
pub struct GuestQuirksInner {
    /// How much longer to wait before the guest is told to shut down.
    pub hyperv_shutdown_ic_sleep_ms: Option<u64>,
    /// When it reboots once.
    pub initial_reboot: Option<InitialRebootCondition>,
}

/// Oddities of a guest.
#[derive(Debug, Clone, Copy, PartialEq, Eq, Structural)]
pub struct GuestQuirks {
    /// On OpenVMM.
    pub openvmm: GuestQuirksInner,
    /// On Hyper-V.
    pub hyperv: GuestQuirksInner,
}

impl GuestQuirks {
    /// No oddities.
    pub open spec fn spec_default() -> GuestQuirks {
        GuestQuirks {
            openvmm: GuestQuirksInner { hyperv_shutdown_ic_sleep_ms: None, initial_reboot: None },
            hyperv: GuestQuirksInner { hyperv_shutdown_ic_sleep_ms: None, initial_reboot: None },
        }
    }
}

impl Default for GuestQuirks {
    fn default() -> (q: GuestQuirks)
        ensures
            q == GuestQuirks::spec_default(),
    {
        GuestQuirks {
            openvmm: GuestQuirksInner { hyperv_shutdown_ic_sleep_ms: None, initial_reboot: None },
            hyperv: GuestQuirksInner { hyperv_shutdown_ic_sleep_ms: None, initial_reboot: None },
        }
    }
}

/// What firmware says about booting.
#[derive(Debug, Clone, Copy, PartialEq, Eq, Structural)]
pub enum FirmwareEvent {
    /// It booted.
    BootSuccess,
    /// It could not boot.
    BootFailed,
    /// There was nothing to boot from.
    NoBootDevice,
    /// It tries to boot.
    BootAttempt,
}

/// A boot image.
#[derive(Debug)]
pub struct BootImageConfig<T: BootImageType> {
    /// The file.
    pub artifact: String,
    /// The operating system.
    pub os_flavor: OsFlavor,
    /// Oddities of the guest.
    pub quirks: GuestQuirks,
    /// What type of image it is.
    pub image_type: PhantomData<T>,
}

impl BootImageConfig<Vhd> {
    /// A VHD.
    pub fn from_vhd(artifact: String, os_flavor: OsFlavor, quirks: GuestQuirks) -> (c:
        BootImageConfig<Vhd>)
        ensures
            c.artifact == artifact,
            c.os_flavor == os_flavor,
            c.quirks == quirks,
    {
        BootImageConfig { artifact, os_flavor, quirks, image_type: PhantomData }
    }
}

impl BootImageConfig<Iso> {
    /// An ISO image.
    pub fn from_iso(artifact: String, os_flavor: OsFlavor, quirks: GuestQuirks) -> (c:
        BootImageConfig<Iso>)
        ensures
            c.artifact == artifact,
            c.os_flavor == os_flavor,
            c.quirks == quirks,
    {
        BootImageConfig { artifact, os_flavor, quirks, image_type: PhantomData }
    }
}

/// What PCAT boots into.
#[derive(Debug)]
pub enum PcatGuest {
    /// A VHD as the boot drive.
    Vhd(BootImageConfig<Vhd>),
    /// An ISO image in a DVD drive.
    Iso(BootImageConfig<Iso>),
}

impl PcatGuest {
    /// The file.
    pub open spec fn spec_artifact(self) -> Seq<char> {
        match self {
            PcatGuest::Vhd(c) => c.artifact@,
            PcatGuest::Iso(c) => c.artifact@,
        }
    }

    /// The operating system.
    pub open spec fn flavor(self) -> OsFlavor {
        match self {
            PcatGuest::Vhd(c) => c.os_flavor,
            PcatGuest::Iso(c) => c.os_flavor,
        }
    }

    /// The file.
    pub fn artifact(&self) -> (s: &str)
        ensures
            s@ == self.spec_artifact(),
    {
        match self {
            PcatGuest::Vhd(c) => c.artifact.as_str(),
            PcatGuest::Iso(c) => c.artifact.as_str(),
        }
    }

    /// Whether it is in a DVD drive.
    pub fn is_dvd(&self) -> (b: bool)
        ensures
            b == (self is Iso),
    {
        match self {
            PcatGuest::Vhd(_) => false,
            PcatGuest::Iso(_) => true,
        }
    }
}

/// What UEFI boots into.
#[derive(Debug)]
pub enum UefiGuest {
    /// A VHD as the boot drive.
    Vhd(BootImageConfig<Vhd>),
    /// The UEFI test image.
    GuestTestUefi(String),
    /// Nothing.
    NoGuest,
}

impl UefiGuest {
    /// The file, if there is one.
    pub open spec fn spec_artifact(self) -> Option<Seq<char>> {
        match self {
            UefiGuest::Vhd(c) => Some(c.artifact@),
            UefiGuest::GuestTestUefi(a) => Some(a@),
            UefiGuest::NoGuest => None,
        }
    }

    /// The operating system.
    pub open spec fn flavor(self) -> OsFlavor {
        match self {
            UefiGuest::Vhd(c) => c.os_flavor,
            _ => OsFlavor::Uefi,
        }
    }

    /// The file, if there is one.
    pub fn artifact(&self) -> (s: Option<&str>)
        ensures
            match s {
                Some(s) => self.spec_artifact() == Some(s@),
                None => self.spec_artifact() is None,
            },
    {
        match self {
            UefiGuest::Vhd(c) => Some(c.artifact.as_str()),
            UefiGuest::GuestTestUefi(a) => Some(a.as_str()),
            UefiGuest::NoGuest => None,
        }
    }
}

/// The IDE drives: two on each of two controllers.
#[derive(Debug)]
pub struct IdeControllers {
    /// The drives, those of the first controller first.
    pub drives: Vec<Option<Drive>>,
}

impl IdeControllers {
    /// Whether there are two drives on each of two controllers.
    pub open spec fn wf(self) -> bool {
        self.drives@.len() == 4
    }

    /// No drives.
    pub fn new() -> (c: IdeControllers)
        ensures
            c.wf(),
            c.drives@ == Seq::new(4, |i: int| None::<Drive>),
    {
        let mut drives: Vec<Option<Drive>> = Vec::new();
        drives.push(None);
        drives.push(None);
        drives.push(None);
        drives.push(None);
        assert(drives@ =~= Seq::new(4, |i: int| None::<Drive>));
        IdeControllers { drives }
    }
}

/// The firmware to load.
#[derive(Debug)]
#[allow(inconsistent_fields)]
pub enum Firmware {
    /// Linux without firmware.
    LinuxDirect {
        /// The kernel.
        kernel: String,
        /// The initial file system.
        initrd: String,
    },
    /// Linux without firmware, with OpenHCL in VTL2.
    OpenhclLinuxDirect {
        /// The IGVM file.
        igvm_path: String,
        /// OpenHCL settings.
        openhcl_config: OpenHclConfig,
    },
    /// PCAT.
    Pcat {
        /// What it boots into.
        guest: PcatGuest,
        /// The firmware.
        bios_firmware: Option<String>,
        /// The SVGA firmware.
        svga_firmware: Option<String>,
        /// The IDE drives.
        ide_controllers: IdeControllers,
    },
    /// PCAT with OpenHCL in VTL2.
    OpenhclPcat {
        /// What it boots into.
        guest: PcatGuest,
        /// The IGVM file.
        igvm_path: String,
        /// The firmware.
        bios_firmware: Option<String>,
        /// The SVGA firmware.
        svga_firmware: Option<String>,
        /// OpenHCL settings.
        openhcl_config: OpenHclConfig,
    },
    /// UEFI.
    Uefi {
        /// What it boots into.
        guest: UefiGuest,
        /// The firmware.
        uefi_firmware: String,
        /// UEFI settings.
        uefi_config: UefiConfig,
    },
    /// UEFI with OpenHCL in VTL2.
    OpenhclUefi {
        /// What it boots into.
        guest: UefiGuest,
        /// The isolation.
        isolation: Option<IsolationType>,
        /// The IGVM file.
        igvm_path: String,
        /// UEFI settings.
        uefi_config: UefiConfig,
        /// OpenHCL settings.
        openhcl_config: OpenHclConfig,
    },
}

/// A file that tests use.
#[derive(Debug, Clone, Copy, PartialEq, Eq, Structural)]
pub enum Artifact {
    /// The Linux kernel for x86-64.
    LinuxDirectTestKernelX64,
    /// Its initial file system.
    LinuxDirectTestInitrdX64,
    /// The Linux kernel for Arm.
    LinuxDirectTestKernelAarch64,
    /// Its initial file system.
    LinuxDirectTestInitrdAarch64,
    /// The IGVM file with a Linux kernel.
    LatestLinuxDirectTestX64,
    /// The IGVM file for x86-64.
    LatestStandardX64,
    /// The IGVM file for isolated VMs.
    LatestCvmX64,
    /// The IGVM file for Arm.
    LatestStandardAarch64,
    /// UEFI for x86-64.
    UefiFirmwareX64,
    /// UEFI for Arm.
    UefiFirmwareAarch64,
    /// The UEFI test image for x86-64.
    GuestTestUefiX64,
    /// The UEFI test image for Arm.
    GuestTestUefiAarch64,
}

/// The kernel and the initial file system to boot directly.
pub fn linux_direct_artifacts(arch: MachineArch) -> (r: (Artifact, Artifact))
    ensures
        r == match arch {
            MachineArch::X86_64 => (
                Artifact::LinuxDirectTestKernelX64,
                Artifact::LinuxDirectTestInitrdX64,
            ),
            MachineArch::Aarch64 => (
                Artifact::LinuxDirectTestKernelAarch64,
                Artifact::LinuxDirectTestInitrdAarch64,
            ),
        },
{
    match arch {
        MachineArch::X86_64 => (
            Artifact::LinuxDirectTestKernelX64,
            Artifact::LinuxDirectTestInitrdX64,
        ),
        MachineArch::Aarch64 => (
            Artifact::LinuxDirectTestKernelAarch64,
            Artifact::LinuxDirectTestInitrdAarch64,
        ),
    }
}

/// The IGVM file to boot Linux directly. There is none for Arm.
pub fn openhcl_linux_direct_artifact(arch: MachineArch) -> (r: Option<Artifact>)
    ensures
        r == match arch {
            MachineArch::X86_64 => Some(Artifact::LatestLinuxDirectTestX64),
            MachineArch::Aarch64 => None,
        },
{
    match arch {
        MachineArch::X86_64 => Some(Artifact::LatestLinuxDirectTestX64),
        MachineArch::Aarch64 => None,
    }
}

/// The UEFI firmware.
pub fn uefi_artifact(arch: MachineArch) -> (r: Artifact)
    ensures
        r == match arch {
            MachineArch::X86_64 => Artifact::UefiFirmwareX64,
            MachineArch::Aarch64 => Artifact::UefiFirmwareAarch64,
        },
{
    match arch {
        MachineArch::X86_64 => Artifact::UefiFirmwareX64,
        MachineArch::Aarch64 => Artifact::UefiFirmwareAarch64,
    }
}

/// The IGVM file with UEFI.
pub fn openhcl_uefi_artifact(arch: MachineArch, isolation: Option<IsolationType>) -> (r: Artifact)
    ensures
        r == match arch {
            MachineArch::X86_64 => if isolation is Some {
                Artifact::LatestCvmX64
            } else {
                Artifact::LatestStandardX64
            },
            MachineArch::Aarch64 => Artifact::LatestStandardAarch64,
        },
{
    match arch {
        MachineArch::X86_64 => if isolation.is_some() {
            Artifact::LatestCvmX64
        } else {
            Artifact::LatestStandardX64
        },
        MachineArch::Aarch64 => Artifact::LatestStandardAarch64,
    }
}

/// The UEFI test image.
pub fn guest_test_uefi_artifact(arch: MachineArch) -> (r: Artifact)
    ensures
        r == match arch {
            MachineArch::X86_64 => Artifact::GuestTestUefiX64,
            MachineArch::Aarch64 => Artifact::GuestTestUefiAarch64,
        },
{
    match arch {
        MachineArch::X86_64 => Artifact::GuestTestUefiX64,
        MachineArch::Aarch64 => Artifact::GuestTestUefiAarch64,
    }
}

/// What can change while a VM runs.
#[derive(Debug)]
pub struct PetriVmRuntimeConfig {
    /// VTL2 settings.
    pub vtl2_settings: Option<Vtl2Settings>,
    /// The IDE drives.
    pub ide_controllers: Option<IdeControllers>,
    /// The storage controllers on VMBus. No two have the same instance.
    pub vmbus_storage_controllers: Vec<(Guid, VmbusStorageController)>,
}

impl Firmware {
    /// The OpenHCL settings, if there is OpenHCL in VTL2.
    pub open spec fn openhcl_settings(self) -> Option<OpenHclConfig> {
        match self {
            Firmware::OpenhclLinuxDirect { openhcl_config, .. } => Some(openhcl_config),
            Firmware::OpenhclPcat { openhcl_config, .. } => Some(openhcl_config),
            Firmware::OpenhclUefi { openhcl_config, .. } => Some(openhcl_config),
            _ => None,
        }
    }

    /// The UEFI settings, if it is UEFI.
    pub open spec fn uefi_settings(self) -> Option<UefiConfig> {
        match self {
            Firmware::Uefi { uefi_config, .. } => Some(uefi_config),
            Firmware::OpenhclUefi { uefi_config, .. } => Some(uefi_config),
            _ => None,
        }
    }

    /// The IDE drives, if the VMM offers them.
    pub open spec fn ide_drives(self) -> Option<IdeControllers> {
        match self {
            Firmware::Pcat { ide_controllers, .. } => Some(ide_controllers),
            _ => None,
        }
    }

    /// Whether the IDE drives are as they should be.
    pub open spec fn wf(self) -> bool {
        self.ide_drives() matches Some(ide) ==> ide.wf()
    }

    /// The same with other OpenHCL settings.
    pub open spec fn with_openhcl(self, c: OpenHclConfig) -> Firmware {
        match self {
            Firmware::OpenhclLinuxDirect { igvm_path, .. } => Firmware::OpenhclLinuxDirect {
                igvm_path,
                openhcl_config: c,
            },
            Firmware::OpenhclPcat { guest, igvm_path, bios_firmware, svga_firmware, .. } =>
                Firmware::OpenhclPcat {
                guest,
                igvm_path,
                bios_firmware,
                svga_firmware,
                openhcl_config: c,
            },
            Firmware::OpenhclUefi { guest, isolation, igvm_path, uefi_config, .. } =>
                Firmware::OpenhclUefi {
                guest,
                isolation,
                igvm_path,
                uefi_config,
                openhcl_config: c,
            },
            _ => self,
        }
    }

    /// The same with other UEFI settings.
    pub open spec fn with_uefi(self, c: UefiConfig) -> Firmware {
        match self {
            Firmware::Uefi { guest, uefi_firmware, .. } => Firmware::Uefi {
                guest,
                uefi_firmware,
                uefi_config: c,
            },
            Firmware::OpenhclUefi { guest, isolation, igvm_path, openhcl_config, .. } =>
                Firmware::OpenhclUefi {
                guest,
                isolation,
                igvm_path,
                uefi_config: c,
                openhcl_config,
            },
            _ => self,
        }
    }

    /// The same with other IDE drives.
    pub open spec fn with_ide(self, c: IdeControllers) -> Firmware {
        match self {
            Firmware::Pcat { guest, bios_firmware, svga_firmware, .. } => Firmware::Pcat {
                guest,
                bios_firmware,
                svga_firmware,
                ide_controllers: c,
            },
            _ => self,
        }
    }

    /// The same with another IGVM file.
    pub open spec fn with_igvm(self, path: String) -> Firmware {
        match self {
            Firmware::OpenhclLinuxDirect { openhcl_config, .. } => Firmware::OpenhclLinuxDirect {
                igvm_path: path,
                openhcl_config,
            },
            Firmware::OpenhclPcat { guest, bios_firmware, svga_firmware, openhcl_config, .. } =>
                Firmware::OpenhclPcat {
                guest,
                igvm_path: path,
                bios_firmware,
                svga_firmware,
                openhcl_config,
            },
            Firmware::OpenhclUefi { guest, isolation, uefi_config, openhcl_config, .. } =>
                Firmware::OpenhclUefi {
                guest,
                isolation,
                igvm_path: path,
                uefi_config,
                openhcl_config,
            },
            _ => self,
        }
    }

    /// What PCAT boots into.
    pub open spec fn pcat_guest(self) -> Option<PcatGuest> {
        match self {
            Firmware::Pcat { guest, .. } => Some(guest),
            Firmware::OpenhclPcat { guest, .. } => Some(guest),
            _ => None,
        }
    }

    /// What UEFI boots into.
    pub open spec fn uefi_guest(self) -> Option<UefiGuest> {
        match self {
            Firmware::Uefi { guest, .. } => Some(guest),
            Firmware::OpenhclUefi { guest, .. } => Some(guest),
            _ => None,
        }
    }

    /// The operating system.
    pub open spec fn flavor(self) -> OsFlavor {
        match self.pcat_guest() {
            Some(g) => g.flavor(),
            None => match self.uefi_guest() {
                Some(g) => g.flavor(),
                None => OsFlavor::Linux,
            },
        }
    }

    /// Whether there is something to boot from.
    pub open spec fn has_boot_drive(self) -> bool {
        self.pcat_guest() is Some || (self.uefi_guest() matches Some(g) && g.spec_artifact()
            is Some)
    }

    /// Whether that drive is on top of the image, in a DVD drive if it is one.
    pub open spec fn is_boot_drive(self, d: Drive) -> bool {
        d.disk matches Some(Disk::Differencing(path)) && match self.pcat_guest() {
            Some(g) => path@ == g.spec_artifact() && d.is_dvd == (g is Iso),
            None => self.uefi_guest() matches Some(g) && g.spec_artifact() == Some(path@)
                && !d.is_dvd,
        }
    }

    /// A standard configuration of [`Firmware::LinuxDirect`].
    pub fn linux_direct(kernel: String, initrd: String) -> (f: Firmware)
        ensures
            f == (Firmware::LinuxDirect { kernel, initrd }),
            f.wf(),
    {
        Firmware::LinuxDirect { kernel, initrd }
    }

    /// A standard configuration of [`Firmware::OpenhclLinuxDirect`].
    pub fn openhcl_linux_direct(igvm_path: String) -> (f: Firmware)
        ensures
            f == (Firmware::OpenhclLinuxDirect {
                igvm_path,
                openhcl_config: OpenHclConfig::spec_default(),
            }),
            f.wf(),
    {
        Firmware::OpenhclLinuxDirect { igvm_path, openhcl_config: OpenHclConfig::default() }
    }

    /// A standard configuration of [`Firmware::Pcat`].
    pub fn pcat(guest: PcatGuest, bios_firmware: Option<String>, svga_firmware: Option<String>) -> (f:
        Firmware)
        ensures
            f matches Firmware::Pcat {
                guest: g,
                bios_firmware: b,
                svga_firmware: s,
                ide_controllers: c,
            } && g == guest && b == bios_firmware && s == svga_firmware && c.drives@ == Seq::new(
                4,
                |i: int| None::<Drive>,
            ),
            f.wf(),
    {
        Firmware::Pcat { guest, bios_firmware, svga_firmware, ide_controllers: IdeControllers::new() }
    }

    /// A standard configuration of [`Firmware::OpenhclPcat`]. VTL2 has to redirect
    /// VMBus to offer IDE.
    pub fn openhcl_pcat(
        guest: PcatGuest,
        igvm_path: String,
        bios_firmware: Option<String>,
        svga_firmware: Option<String>,
    ) -> (f: Firmware)
        ensures
            f == (Firmware::OpenhclPcat {
                guest,
                igvm_path,
                bios_firmware,
                svga_firmware,
                openhcl_config: (OpenHclConfig {
                    vmbus_redirect: true,
                    ..OpenHclConfig::spec_default()
                }),
            }),
            f.wf(),
    {
        let mut openhcl_config = OpenHclConfig::default();
        openhcl_config.vmbus_redirect = true;
        Firmware::OpenhclPcat { guest, igvm_path, bios_firmware, svga_firmware, openhcl_config }
    }

    /// A standard configuration of [`Firmware::Uefi`].
    pub fn uefi(uefi_firmware: String, guest: UefiGuest) -> (f: Firmware)
        ensures
            f == (Firmware::Uefi { guest, uefi_firmware, uefi_config: UefiConfig::spec_default() }),
            f.wf(),
    {
        Firmware::Uefi { guest, uefi_firmware, uefi_config: UefiConfig::default() }
    }

    /// A standard configuration of [`Firmware::OpenhclUefi`].
    pub fn openhcl_uefi(igvm_path: String, guest: UefiGuest, isolation: Option<IsolationType>) -> (f:
        Firmware)
        ensures
            f == (Firmware::OpenhclUefi {
                guest,
                isolation,
                igvm_path,
                uefi_config: UefiConfig::spec_default(),
                openhcl_config: OpenHclConfig::spec_default(),
            }),
            f.wf(),
    {
        Firmware::OpenhclUefi {
            guest,
            isolation,
            igvm_path,
            uefi_config: UefiConfig::default(),
            openhcl_config: OpenHclConfig::default(),
        }
    }

    /// Whether there is OpenHCL in VTL2.
    pub fn is_openhcl(&self) -> (b: bool)
        ensures
            b == (self.openhcl_settings() is Some),
    {
        match self {
            Firmware::OpenhclLinuxDirect { .. } => true,
            Firmware::OpenhclUefi { .. } => true,
            Firmware::OpenhclPcat { .. } => true,
            _ => false,
        }
    }

    /// The isolation.
    pub fn isolation(&self) -> (i: Option<IsolationType>)
        ensures
            i == match *self {
                Firmware::OpenhclUefi { isolation, .. } => isolation,
                _ => None,
            },
    {
        match self {
            Firmware::OpenhclUefi { isolation, .. } => *isolation,
            _ => None,
        }
    }

    /// Whether Linux is booted without firmware.
    pub fn is_linux_direct(&self) -> (b: bool)
        ensures
            b == (self is LinuxDirect || self is OpenhclLinuxDirect),
    {
        match self {
            Firmware::LinuxDirect { .. } => true,
            Firmware::OpenhclLinuxDirect { .. } => true,
            _ => false,
        }
    }

    /// Whether it is PCAT.
    pub fn is_pcat(&self) -> (b: bool)
        ensures
            b == (self.pcat_guest() is Some),
    {
        match self {
            Firmware::Pcat { .. } => true,
            Firmware::OpenhclPcat { .. } => true,
            _ => false,
        }
    }

    /// The operating system.
    pub fn os_flavor(&self) -> (f: OsFlavor)
        ensures
            f == self.flavor(),
    {
        match self {
            Firmware::LinuxDirect { .. } => OsFlavor::Linux,
            Firmware::OpenhclLinuxDirect { .. } => OsFlavor::Linux,
            Firmware::Pcat { guest, .. } => match guest {
                PcatGuest::Vhd(c) => c.os_flavor,
                PcatGuest::Iso(c) => c.os_flavor,
            },
            Firmware::OpenhclPcat { guest, .. } => match guest {
                PcatGuest::Vhd(c) => c.os_flavor,
                PcatGuest::Iso(c) => c.os_flavor,
            },
            Firmware::Uefi { guest, .. } => match guest {
                UefiGuest::Vhd(c) => c.os_flavor,
                _ => OsFlavor::Uefi,
            },
            Firmware::OpenhclUefi { guest, .. } => match guest {
                UefiGuest::Vhd(c) => c.os_flavor,
                _ => OsFlavor::Uefi,
            },
        }
    }

    /// Oddities of the guest. PCAT with OpenHCL has none.
    pub fn quirks(&self) -> (q: GuestQuirks)
        ensures
            q == match *self {
                Firmware::Pcat { guest: PcatGuest::Vhd(c), .. } => c.quirks,
                Firmware::Pcat { guest: PcatGuest::Iso(c), .. } => c.quirks,
                Firmware::Uefi { guest: UefiGuest::Vhd(c), .. } => c.quirks,
                Firmware::OpenhclUefi { guest: UefiGuest::Vhd(c), .. } => c.quirks,
                _ => GuestQuirks::spec_default(),
            },
    {
        match self {
            Firmware::Pcat { guest: PcatGuest::Vhd(c), .. } => c.quirks,
            Firmware::Pcat { guest: PcatGuest::Iso(c), .. } => c.quirks,
            Firmware::Uefi { guest: UefiGuest::Vhd(c), .. } => c.quirks,
            Firmware::OpenhclUefi { guest: UefiGuest::Vhd(c), .. } => c.quirks,
            _ => GuestQuirks::default(),
        }
    }

    /// What the firmware is expected to say about booting.
    pub fn expected_boot_event(&self) -> (e: Option<FirmwareEvent>)
        ensures
            e == match self.uefi_guest() {
                Some(UefiGuest::GuestTestUefi(_)) => None,
                Some(UefiGuest::NoGuest) => Some(FirmwareEvent::NoBootDevice),
                Some(UefiGuest::Vhd(_)) => Some(FirmwareEvent::BootSuccess),
                None => if self.pcat_guest() is Some {
                    Some(FirmwareEvent::BootAttempt)
                } else {
                    None
                },
            },
    {
        match self {
            Firmware::LinuxDirect { .. } => None,
            Firmware::OpenhclLinuxDirect { .. } => None,
            Firmware::Pcat { .. } => Some(FirmwareEvent::BootAttempt),
            Firmware::OpenhclPcat { .. } => Some(FirmwareEvent::BootAttempt),
            Firmware::Uefi { guest, .. } => match guest {
                UefiGuest::GuestTestUefi(_) => None,
                UefiGuest::NoGuest => Some(FirmwareEvent::NoBootDevice),
                UefiGuest::Vhd(_) => Some(FirmwareEvent::BootSuccess),
            },
            Firmware::OpenhclUefi { guest, .. } => match guest {
                UefiGuest::GuestTestUefi(_) => None,
                UefiGuest::NoGuest => Some(FirmwareEvent::NoBootDevice),
                UefiGuest::Vhd(_) => Some(FirmwareEvent::BootSuccess),
            },
        }
    }

    /// The OpenHCL settings, if there is OpenHCL.
    pub fn openhcl_config(&self) -> (c: Option<&OpenHclConfig>)
        ensures
            match c {
                Some(c) => self.openhcl_settings() == Some(*c),
                None => self.openhcl_settings() is None,
            },
    {
        match self {
            Firmware::OpenhclLinuxDirect { openhcl_config, .. } => Some(openhcl_config),
            Firmware::OpenhclUefi { openhcl_config, .. } => Some(openhcl_config),
            Firmware::OpenhclPcat { openhcl_config, .. } => Some(openhcl_config),
            _ => None,
        }
    }

    /// The OpenHCL settings to change.
    pub fn openhcl_config_mut(&mut self) -> (c: Option<&mut OpenHclConfig>)
        ensures
            match c {
                Some(c) => old(self).openhcl_settings() == Some(*c) && *final(self) == old(
                    self
                ).with_openhcl(*final(c)),
                None => old(self).openhcl_settings() is None && *final(self) == *old(self),
            },
    {
        match self {
            Firmware::OpenhclLinuxDirect { openhcl_config, .. } => Some(openhcl_config),
            Firmware::OpenhclUefi { openhcl_config, .. } => Some(openhcl_config),
            Firmware::OpenhclPcat { openhcl_config, .. } => Some(openhcl_config),
            _ => None,
        }
    }

    /// The UEFI settings, if it is UEFI.
    pub fn uefi_config(&self) -> (c: Option<&UefiConfig>)
        ensures
            match c {
                Some(c) => self.uefi_settings() == Some(*c),
                None => self.uefi_settings() is None,
            },
    {
        match self {
            Firmware::Uefi { uefi_config, .. } => Some(uefi_config),
            Firmware::OpenhclUefi { uefi_config, .. } => Some(uefi_config),
            _ => None,
        }
    }

    /// The UEFI settings to change.
    pub fn uefi_config_mut(&mut self) -> (c: Option<&mut UefiConfig>)
        ensures
            match c {
                Some(c) => old(self).uefi_settings() == Some(*c) && *final(self) == old(self).with_uefi(
                    *final(c),
                ),
                None => old(self).uefi_settings() is None && *final(self) == *old(self),
            },
    {
        match self {
            Firmware::Uefi { uefi_config, .. } => Some(uefi_config),
            Firmware::OpenhclUefi { uefi_config, .. } => Some(uefi_config),
            _ => None,
        }
    }

    /// The IDE drives to change.
    pub fn ide_controllers_mut(&mut self) -> (c: Option<&mut IdeControllers>)
        ensures
            match c {
                Some(c) => old(self).ide_drives() == Some(*c) && *final(self) == old(self).with_ide(
                    *final(c),
                ),
                None => old(self).ide_drives() is None && *final(self) == *old(self),
            },
    {
        match self {
            Firmware::Pcat { ide_controllers, .. } => Some(ide_controllers),
            _ => None,
        }
    }

    /// The IDE drives, if the VMM offers them.
    pub fn ide_controllers(&self) -> (c: Option<&IdeControllers>)
        ensures
            match c {
                Some(c) => self.ide_drives() == Some(*c),
                None => self.ide_drives() is None,
            },
    {
        match self {
            Firmware::Pcat { ide_controllers, .. } => Some(ide_controllers),
            _ => None,
        }
    }

    /// The drive to boot from: on top of the image, in a DVD drive if it is one.
    pub fn boot_drive(&self) -> (d: Option<Drive>)
        ensures
            d is Some <==> self.has_boot_drive(),
            d matches Some(d) ==> self.is_boot_drive(d),
    {
        match self {
            Firmware::LinuxDirect { .. } => None,
            Firmware::OpenhclLinuxDirect { .. } => None,
            Firmware::Pcat { guest, .. } => Some(
                Drive::new(Some(Disk::Differencing(owned(guest.artifact()))), guest.is_dvd()),
            ),
            Firmware::OpenhclPcat { guest, .. } => Some(
                Drive::new(Some(Disk::Differencing(owned(guest.artifact()))), guest.is_dvd()),
            ),
            Firmware::Uefi { guest, .. } => match guest.artifact() {
                Some(a) => Some(Drive::new(Some(Disk::Differencing(owned(a))), false)),
                None => None,
            },
            Firmware::OpenhclUefi { guest, .. } => match guest.artifact() {
                Some(a) => Some(Drive::new(Some(Disk::Differencing(owned(a))), false)),
                None => None,
            },
        }
    }

    /// What can change while the VM runs.
    pub fn into_runtime_config(
        self,
        vmbus_storage_controllers: Vec<(Guid, VmbusStorageController)>,
    ) -> (c: PetriVmRuntimeConfig)
        ensures
            c.vmbus_storage_controllers == vmbus_storage_controllers,
            c.ide_controllers == self.ide_drives(),
            match self.openhcl_settings() {
                Some(o) => c.vtl2_settings matches Some(s) && s@ == settings_view(o.vtl2_settings),
                None => c.vtl2_settings is None,
            },
    {
        match self {
            Firmware::OpenhclLinuxDirect { openhcl_config, .. } => PetriVmRuntimeConfig {
                vtl2_settings: Some(or_default(openhcl_config.vtl2_settings)),
                ide_controllers: None,
                vmbus_storage_controllers,
            },
            Firmware::OpenhclUefi { openhcl_config, .. } => PetriVmRuntimeConfig {
                vtl2_settings: Some(or_default(openhcl_config.vtl2_settings)),
                ide_controllers: None,
                vmbus_storage_controllers,
            },
            Firmware::OpenhclPcat { openhcl_config, .. } => PetriVmRuntimeConfig {
                vtl2_settings: Some(or_default(openhcl_config.vtl2_settings)),
                ide_controllers: None,
                vmbus_storage_controllers,
            },
            Firmware::Pcat { ide_controllers, .. } => PetriVmRuntimeConfig {
                vtl2_settings: None,
                ide_controllers: Some(ide_controllers),
                vmbus_storage_controllers,
            },
            Firmware::LinuxDirect { .. } => PetriVmRuntimeConfig {
                vtl2_settings: None,
                ide_controllers: None,
                vmbus_storage_controllers,
            },
            Firmware::Uefi { .. } => PetriVmRuntimeConfig {
                vtl2_settings: None,
                ide_controllers: None,
                vmbus_storage_controllers,
            },
        }
    }
}

fn or_default(s: Option<Vtl2Settings>) -> (r: Vtl2Settings)
    ensures
        r@ == settings_view(s),
{
    match s {
        Some(s) => s,
        None => default_vtl2_settings(),
    }
}

/// Settings that are set are the ones that are there, and nothing else changes.
pub proof fn openhcl_settings_are_set(f: Firmware, c: OpenHclConfig)
    ensures
        ({
            let g = f.with_openhcl(c);
            &&& f.openhcl_settings() is Some ==> g.openhcl_settings() == Some(c)
            &&& f.openhcl_settings() is None ==> g == f
            &&& g.uefi_settings() == f.uefi_settings()
            &&& g.ide_drives() == f.ide_drives()
            &&& g.pcat_guest() == f.pcat_guest()
            &&& g.uefi_guest() == f.uefi_guest()
            &&& g.with_openhcl(c) == g
            &&& f.openhcl_settings() matches Some(before) ==> g.with_openhcl(before) == f
        }),
{
}

/// Settings that are set are the ones that are there, and nothing else changes.
pub proof fn uefi_settings_are_set(f: Firmware, c: UefiConfig)
    ensures
        ({
            let g = f.with_uefi(c);
            &&& f.uefi_settings() is Some ==> g.uefi_settings() == Some(c)
            &&& f.uefi_settings() is None ==> g == f
            &&& g.openhcl_settings() == f.openhcl_settings()
            &&& g.ide_drives() == f.ide_drives()
            &&& g.pcat_guest() == f.pcat_guest()
            &&& g.uefi_guest() == f.uefi_guest()
            &&& f.uefi_settings() matches Some(before) ==> g.with_uefi(before) == f
        }),
{
}

/// IDE drives that are set are the ones that are there, and nothing else changes.
pub proof fn ide_drives_are_set(f: Firmware, c: IdeControllers)
    ensures
        ({
            let g = f.with_ide(c);
            &&& f.ide_drives() is Some ==> g.ide_drives() == Some(c)
            &&& f.ide_drives() is None ==> g == f
            &&& g.openhcl_settings() == f.openhcl_settings()
            &&& g.uefi_settings() == f.uefi_settings()
            &&& g.pcat_guest() == f.pcat_guest()
            &&& f.ide_drives() matches Some(before) ==> g.with_ide(before) == f
        }),
{
}

/// Another IGVM file changes no settings and no guest.
pub proof fn igvm_file_is_replaced(f: Firmware, path: String)
    ensures
        ({
            let g = f.with_igvm(path);
            &&& f.openhcl_settings() is None ==> g == f
            &&& g.openhcl_settings() == f.openhcl_settings()
            &&& g.uefi_settings() == f.uefi_settings()
            &&& g.pcat_guest() == f.pcat_guest()
            &&& g.uefi_guest() == f.uefi_guest()
            &&& g matches Firmware::OpenhclUefi { igvm_path, .. } ==> igvm_path == path
            &&& g matches Firmware::OpenhclPcat { igvm_path, .. } ==> igvm_path == path
            &&& g matches Firmware::OpenhclLinuxDirect { igvm_path, .. } ==> igvm_path == path
        }),
{
}

/// Each kind of firmware has its own settings: those of UEFI, those of OpenHCL where it is in
/// VTL2, and IDE drives of the VMM only for PCAT without it.
pub proof fn firmware_has_its_settings(f: Firmware)
    ensures
        f.openhcl_settings() is Some <==> f is OpenhclLinuxDirect || f is OpenhclPcat || f
            is OpenhclUefi,
        f.uefi_settings() is Some <==> f is Uefi || f is OpenhclUefi,
        f.ide_drives() is Some <==> f is Pcat,
        f.pcat_guest() is Some <==> f is Pcat || f is OpenhclPcat,
        f.uefi_guest() is Some <==> f is Uefi || f is OpenhclUefi,
{
}

/// The operating system is that of the image. A kernel that is booted directly is Linux, and
/// UEFI without an image of an operating system counts as one itself.
pub proof fn operating_system_is_that_of_image(f: Firmware)
    ensures
        f is LinuxDirect || f is OpenhclLinuxDirect ==> f.flavor() == OsFlavor::Linux,
        f.pcat_guest() matches Some(PcatGuest::Vhd(c)) ==> f.flavor() == c.os_flavor,
        f.pcat_guest() matches Some(PcatGuest::Iso(c)) ==> f.flavor() == c.os_flavor,
        f.uefi_guest() matches Some(UefiGuest::Vhd(c)) ==> f.flavor() == c.os_flavor,
        f.uefi_guest() matches Some(UefiGuest::GuestTestUefi(_)) ==> f.flavor() == OsFlavor::Uefi,
        f.uefi_guest() matches Some(UefiGuest::NoGuest) ==> f.flavor() == OsFlavor::Uefi,
{
}

/// There is a boot drive unless a kernel is booted directly or UEFI has no guest. It is on top
/// of the image, which stays as it is, and a DVD drive for an ISO image alone.
pub proof fn boot_drive_holds_image(f: Firmware, d: Drive, path: String)
    ensures
        !f.has_boot_drive() <==> f is LinuxDirect || f is OpenhclLinuxDirect || f.uefi_guest()
            == Some(UefiGuest::NoGuest),
        f.is_boot_drive(d) ==> d.disk is Some && d.disk->0 is Differencing && f.has_boot_drive(),
        d.disk == Some(Disk::Differencing(path)) ==> {
            &&& f.pcat_guest() matches Some(PcatGuest::Iso(c)) ==> (f.is_boot_drive(d) <==> path@
                == c.artifact@ && d.is_dvd)
            &&& f.pcat_guest() matches Some(PcatGuest::Vhd(c)) ==> (f.is_boot_drive(d) <==> path@
                == c.artifact@ && !d.is_dvd)
            &&& f.uefi_guest() matches Some(UefiGuest::Vhd(c)) ==> (f.is_boot_drive(d) <==> path@
                == c.artifact@ && !d.is_dvd)
            &&& f.uefi_guest() matches Some(UefiGuest::GuestTestUefi(a)) ==> (f.is_boot_drive(d)
                <==> path@ == a@ && !d.is_dvd)
        },
{
}

} // verus!
