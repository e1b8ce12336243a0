//! The parts of a VM configuration.
use crate::guid::Guid;
use crate::petri::log_levels::LogLevels;
use crate::petri::name::{append_cmdline, appended, text_of};
use crate::text::{owned, str_eq};
use std::collections::HashMap;
use vstd::prelude::*;
use vstd::string::StringExecFns;

verus! {

broadcast use vstd::std_specs::hash::group_hash_axioms;

/// For a VMM that cannot be inspected.
#[derive(Debug, Clone, Copy)]
pub struct NoPetriVmInspector;

/// For a VMM without access to the framebuffer.
#[derive(Debug, Clone, Copy)]
pub struct NoPetriVmFramebufferAccess;

/// The APIC mode.
#[derive(Debug, Clone, Copy, PartialEq, Eq, Structural)]
pub enum ApicMode {
    /// xAPIC only.
    Xapic,
    /// x2APIC is supported but not enabled at boot.
    X2apicSupported,
    /// x2APIC is enabled at boot.
    X2apicEnabled,
}

/// The processors.
#[derive(Debug, Clone, Copy, PartialEq, Eq, Structural)]
pub struct ProcessorTopology {
    /// The number of virtual processors.
    pub vp_count: u32,
    /// Whether SMT is enabled.
    pub enable_smt: Option<bool>,
    /// The number of virtual processors per socket.
    pub vps_per_socket: Option<u32>,
    /// The APIC mode, on x86-64.
    pub apic_mode: Option<ApicMode>,
}

impl Default for ProcessorTopology {
    fn default() -> (t: ProcessorTopology)
        ensures
            t.vp_count == 2,
            t.enable_smt is None,
            t.vps_per_socket is None,
            t.apic_mode is None,
    {
        ProcessorTopology { vp_count: 2, enable_smt: None, vps_per_socket: None, apic_mode: None }
    }
}

/// A range of addresses.
#[derive(Debug, Clone, Copy, PartialEq, Eq, Structural)]
pub struct MemoryRange {
    /// The first address.
    pub start: u64,
    /// The address after the last.
    pub end: u64,
}

/// The MMIO gaps.
#[derive(Debug)]
pub enum MmioConfig {
    /// Those of the platform.
    Platform,
    /// Others. Not all platforms support that.
    Custom(Vec<MemoryRange>),
}

/// The memory.
#[derive(Debug)]
pub struct MemoryConfig {
    /// The size in bytes.
    pub startup_bytes: u64,
    /// The least and the most of dynamic memory in bytes, if there is any.
    pub dynamic_memory_range: Option<(u64, u64)>,
    /// The MMIO gaps.
    pub mmio_gaps: MmioConfig,
}

impl Default for MemoryConfig {
    fn default() -> (m: MemoryConfig)
        ensures
            m == (MemoryConfig {
                startup_bytes: 0x1_0000_0000,
                dynamic_memory_range: None,
                mmio_gaps: MmioConfig::Platform,
            }),
    {
        MemoryConfig {
            startup_bytes: 0x1_0000_0000,
            dynamic_memory_range: None,
            mmio_gaps: MmioConfig::Platform,
        }
    }
}

/// The template for secure boot.
#[derive(Debug, Clone, Copy, PartialEq, Eq, Structural)]
pub enum SecureBootTemplate {
    /// Microsoft Windows.
    MicrosoftWindows,
    /// The Microsoft UEFI certificate authority.
    MicrosoftUefiCertificateAuthority,
}

/// UEFI settings.
#[derive(Debug, Clone, Copy, PartialEq, Eq, Structural)]
pub struct UefiConfig {
    /// Enable secure boot.
    pub secure_boot_enabled: bool,
    /// The template for secure boot.
    pub secure_boot_template: Option<SecureBootTemplate>,
    /// Shut down rather than show the frontpage if nothing can be booted.
    pub disable_frontpage: bool,
    /// Always attempt a default boot.
    pub default_boot_always_attempt: bool,
    /// Boot from vPCI devices.
    pub enable_vpci_boot: bool,
}

impl UefiConfig {
    /// The settings that are used unless told otherwise.
    pub open spec fn spec_default() -> UefiConfig {
        UefiConfig {
            secure_boot_enabled: false,
            secure_boot_template: None,
            disable_frontpage: true,
            default_boot_always_attempt: false,
            enable_vpci_boot: false,
        }
    }
}

impl Default for UefiConfig {
    fn default() -> (c: UefiConfig)
        ensures
            c == UefiConfig::spec_default(),
    {
        UefiConfig {
            secure_boot_enabled: false,
            secure_boot_template: None,
            disable_frontpage: true,
            default_boot_always_attempt: false,
            enable_vpci_boot: false,
        }
    }
}

/// What is logged.
#[derive(Debug)]
pub enum OpenvmmLogConfig {
    /// What tests use: OPENVMM_LOG and OPENVMM_SHOW_SPANS of the environment, or else
    /// `debug` and `true`.
    TestDefault,
    /// What is built in.
    BuiltInDefault,
    /// Variables and their values, ordered by name.
    Custom(LogLevels),
}

/// The variables that say what tests log.
#[derive(Debug)]
pub struct LogEnvironment {
    /// OPENVMM_LOG.
    pub openvmm_log: Option<String>,
    /// OPENVMM_SHOW_SPANS.
    pub openvmm_show_spans: Option<String>,
}

/// Whether the VMM on the host knows a variable.
pub open spec fn is_host_level(name: Seq<char>) -> bool {
    name == "OPENVMM_LOG"@ || name == "OPENVMM_SHOW_SPANS"@
}

/// Whether the VMM on the host knows all variables.
pub open spec fn host_levels_supported(levels: OpenvmmLogConfig) -> bool {
    levels matches OpenvmmLogConfig::Custom(v) ==> forall|i: int|
        0 <= i < v.entries().len() ==> is_host_level((#[trigger] v.entries()[i]).0@)
}

fn are_known(v: &LogLevels) -> (b: bool)
    ensures
        b == forall|i: int|
            0 <= i < v.entries().len() ==> is_host_level((#[trigger] v.entries()[i]).0@),
{
    let mut i: usize = 0;
    while i < v.len()
        invariant
            i <= v.entries().len(),
            forall|k: int| 0 <= k < i ==> is_host_level((#[trigger] v.entries()[k]).0@),
        decreases v.entries().len() - i,
    {
        let key = v.get(i).0.as_str();
        if !str_eq(key, "OPENVMM_LOG") && !str_eq(key, "OPENVMM_SHOW_SPANS") {
            assert(!is_host_level(v.entries()[i as int].0@));
            return false;
        }
        i = i + 1;
    }
    true
}

/// Whether the VMM on the host knows all variables.
pub fn are_host_levels_supported(levels: &OpenvmmLogConfig) -> (b: bool)
    ensures
        b == host_levels_supported(*levels),
{
    match levels {
        OpenvmmLogConfig::Custom(v) => are_known(v),
        _ => true,
    }
}

/// Where VTL2 is placed.
#[derive(Debug, Clone, Copy, PartialEq, Eq, Structural)]
pub enum Vtl2BaseAddressType {
    /// Where the file says.
    File,
    /// At that address.
    Absolute(u64),
    /// In memory of the VM, of that size if it is given.
    MemoryLayout {
        /// The size.
        size: Option<u64>,
    },
    /// Where VTL2 allocates it, of that size if it is given.
    Vtl2Allocate {
        /// The size.
        size: Option<u64>,
    },
}

/// The type of a storage controller that VTL2 offers or uses.
#[derive(Debug, Clone, Copy, PartialEq, Eq, Structural)]
pub enum ControllerType {
    /// SCSI.
    Scsi,
    /// IDE.
    Ide,
    /// NVMe.
    Nvme,
}

/// A disk that VTL2 offers, and what it is backed by.
#[derive(Debug, Clone, Copy, PartialEq, Eq, Structural)]
pub struct Vtl2Lun {
    /// The channel of an IDE controller.
    pub channel: Option<u32>,
    /// The place on the controller.
    pub location: u32,
    /// The type of the backing controller.
    pub backing_type: ControllerType,
    /// The backing controller.
    pub backing_controller: Guid,
    /// The place on the backing controller.
    pub backing_location: u32,
}

/// A storage controller that VTL2 offers.
#[derive(Debug)]
pub struct StorageController {
    /// Its type.
    pub controller_type: ControllerType,
    /// Its instance.
    pub instance_id: Guid,
    /// Its disks.
    pub luns: Vec<Vtl2Lun>,
}

/// A storage controller that VTL2 offers.
#[verifier::ext_equal]
pub struct StorageControllerView {
    /// Its type.
    pub controller_type: ControllerType,
    /// Its instance.
    pub instance_id: Guid,
    /// Its disks.
    pub luns: Seq<Vtl2Lun>,
}

impl View for StorageController {
    type V = StorageControllerView;

    open spec fn view(&self) -> StorageControllerView {
        StorageControllerView {
            controller_type: self.controller_type,
            instance_id: self.instance_id,
            luns: self.luns@,
        }
    }
}

/// VTL2 settings.
#[derive(Debug)]
pub struct Vtl2Settings {
    /// The storage controllers that VTL2 offers.
    pub storage_controllers: Vec<StorageController>,
}

impl View for Vtl2Settings {
    type V = Seq<StorageControllerView>;

    open spec fn view(&self) -> Seq<StorageControllerView> {
        self.storage_controllers@.map_values(|c: StorageController| c@)
    }
}

/// VTL2 settings without anything.
pub fn default_vtl2_settings() -> (s: Vtl2Settings)
    ensures
        s@ == Seq::<StorageControllerView>::empty(),
{
    let s = Vtl2Settings { storage_controllers: Vec::new() };
    assert(s@ =~= Seq::empty());
    s
}

/// The settings, or those without anything.
pub open spec fn settings_view(s: Option<Vtl2Settings>) -> Seq<StorageControllerView> {
    match s {
        Some(s) => s@,
        None => Seq::empty(),
    }
}

/// OpenHCL settings.
#[derive(Debug)]
pub struct OpenHclConfig {
    /// Whether VTL2 redirects VMBus.
    pub vmbus_redirect: bool,
    /// What the test adds to the command line.
    pub custom_command_line: Option<String>,
    /// What is logged.
    pub log_levels: OpenvmmLogConfig,
    /// Where VTL2 is placed, unless the VMM decides.
    pub vtl2_base_address_type: Option<Vtl2BaseAddressType>,
    /// VTL2 settings.
    pub vtl2_settings: Option<Vtl2Settings>,
}

impl OpenHclConfig {
    /// The settings that are used unless told otherwise.
    pub open spec fn spec_default() -> OpenHclConfig {
        OpenHclConfig {
            vmbus_redirect: false,
            custom_command_line: None,
            log_levels: OpenvmmLogConfig::TestDefault,
            vtl2_base_address_type: None,
            vtl2_settings: None,
        }
    }
}

impl Default for OpenHclConfig {
    fn default() -> (c: OpenHclConfig)
        ensures
            c == OpenHclConfig::spec_default(),
    {
        OpenHclConfig {
            vmbus_redirect: false,
            custom_command_line: None,
            log_levels: OpenvmmLogConfig::TestDefault,
            vtl2_base_address_type: None,
            vtl2_settings: None,
        }
    }
}

/// What tests log.
pub open spec fn default_levels(env: LogEnvironment) -> Seq<char> {
    "OPENVMM_LOG="@ + (match env.openvmm_log {
        Some(x) => x@,
        None => "debug"@,
    }) + " "@ + "OPENVMM_SHOW_SPANS="@ + (match env.openvmm_show_spans {
        Some(x) => x@,
        None => "true"@,
    })
}

/// A command line with the first `n` variables appended.
pub open spec fn levels_appended(
    cmd: Option<Seq<char>>,
    levels: Seq<(String, String)>,
    n: int,
) -> Option<Seq<char>>
    decreases n,
{
    if n <= 0 {
        cmd
    } else {
        appended(
            levels_appended(cmd, levels, n - 1),
            levels[n - 1].0@ + "="@ + levels[n - 1].1@,
        )
    }
}

impl OpenHclConfig {
    /// The command line for OpenHCL: what the test added, the setting that keeps MANA
    /// devices alive, and what is logged.
    pub open spec fn spec_command_line(self, env: LogEnvironment) -> Seq<char> {
        let base = appended(
            text_of(self.custom_command_line),
            "OPENHCL_MANA_KEEP_ALIVE=host,privatepool"@,
        );
        match self.log_levels {
            OpenvmmLogConfig::TestDefault => appended(base, default_levels(env))->0,
            OpenvmmLogConfig::BuiltInDefault => base->0,
            OpenvmmLogConfig::Custom(levels) => levels_appended(
                base,
                levels.entries(),
                levels.entries().len() as int,
            )->0,
        }
    }

    /// The command line for OpenHCL.
    pub fn command_line(&self, env: &LogEnvironment) -> (s: String)
        ensures
            s@ == self.spec_command_line(*env),
    {
        let mut cmdline: Option<String> = match &self.custom_command_line {
            Some(s) => Some(owned(s.as_str())),
            None => None,
        };
        // Devices are kept alive by default in all tests.
        append_cmdline(&mut cmdline, "OPENHCL_MANA_KEEP_ALIVE=host,privatepool");
        let ghost base = text_of(cmdline);
        match &self.log_levels {
            OpenvmmLogConfig::TestDefault => {
                let mut levels = owned("OPENVMM_LOG=");
                match &env.openvmm_log {
                    Some(x) => {
                        levels.append(x.as_str());
                    },
                    None => {
                        levels.append("debug");
                    },
                }
                levels.append(" ");
                levels.append("OPENVMM_SHOW_SPANS=");
                match &env.openvmm_show_spans {
                    Some(x) => {
                        levels.append(x.as_str());
                    },
                    None => {
                        levels.append("true");
                    },
                }
                append_cmdline(&mut cmdline, levels.as_str());
            },
            OpenvmmLogConfig::BuiltInDefault => {},
            OpenvmmLogConfig::Custom(levels) => {
                let mut i: usize = 0;
                while i < levels.len()
                    invariant
                        i <= levels.entries().len(),
                        base is Some,
                        cmdline is Some,
                        text_of(cmdline) == levels_appended(base, levels.entries(), i as int),
                    decreases levels.entries().len() - i,
                {
                    let level = levels.get(i);
                    let mut item = owned(level.0.as_str());
                    item.append("=");
                    item.append(level.1.as_str());
                    append_cmdline(&mut cmdline, item.as_str());
                    i = i + 1;
                }
            },
        }
        match cmdline {
            Some(s) => s,
            None => String::new(),
        }
    }
}

/// TPM settings.
#[derive(Debug, Clone, Copy, PartialEq, Eq, Structural)]
pub struct TpmConfig {
    /// Do not keep the state of the TPM.
    pub no_persistent_secrets: bool,
}

impl Default for TpmConfig {
    fn default() -> (c: TpmConfig)
        ensures
            c.no_persistent_secrets,
    {
        TpmConfig { no_persistent_secrets: true }
    }
}

/// The isolation of a VM.
#[derive(Debug, Clone, Copy, PartialEq, Eq, Structural)]
pub enum IsolationType {
    /// VBS.
    Vbs,
    /// SNP.
    Snp,
    /// TDX.
    Tdx,
}

/// How OpenHCL is serviced.
#[derive(Debug, Clone, Copy, PartialEq, Eq, Structural)]
pub struct OpenHclServicingFlags {
    /// Keep NVMe devices alive, if that is supported.
    pub enable_nvme_keepalive: bool,
    /// Keep MANA devices alive, if that is supported.
    pub enable_mana_keepalive: bool,
    /// Service even if the version does not change.
    pub override_version_checks: bool,
    /// How long to wait for OpenHCL to stop or save.
    pub stop_timeout_hint_secs: Option<u16>,
}

/// A disk.
#[derive(Debug)]
pub enum Disk {
    /// In memory, of that size.
    Memory(u64),
    /// In memory, on top of a VHD.
    Differencing(String),
    /// A VHD that is kept.
    Persistent(String),
    /// A VHD that is deleted.
    Temporary(String),
}

/// How the guest state is encrypted, and whether that is strict.
#[derive(Debug, Clone, Copy, PartialEq, Eq, Structural)]
pub enum GuestStateEncryptionPolicy {
    /// As it turns out.
    Auto,
    /// Not at all.
    Unencrypted(bool),
    /// By a GSP ID.
    GspById(bool),
    /// By a GSP key.
    GspKey(bool),
}

/// The size of guest state that is not given otherwise.
pub const VMGS_DEFAULT_CAPACITY: u64 = 0x400000;

/// Guest state on a disk.
#[derive(Debug)]
pub struct PetriVmgsDisk {
    /// The disk.
    pub disk: Disk,
    /// How it is encrypted.
    pub encryption_policy: GuestStateEncryptionPolicy,
}

impl PetriVmgsDisk {
    /// Guest state in memory, not encrypted.
    pub open spec fn spec_default() -> PetriVmgsDisk {
        PetriVmgsDisk {
            disk: Disk::Memory(VMGS_DEFAULT_CAPACITY),
            encryption_policy: GuestStateEncryptionPolicy::Unencrypted(false),
        }
    }
}

impl Default for PetriVmgsDisk {
    fn default() -> (d: PetriVmgsDisk)
        ensures
            d == PetriVmgsDisk::spec_default(),
    {
        PetriVmgsDisk {
            disk: Disk::Memory(VMGS_DEFAULT_CAPACITY),
            encryption_policy: GuestStateEncryptionPolicy::Unencrypted(false),
        }
    }
}

/// Guest state.
#[derive(Debug)]
pub enum PetriVmgsResource {
    /// On a disk.
    Disk(PetriVmgsDisk),
    /// On a disk, which is formatted if it cannot be read.
    ReprovisionOnFailure(PetriVmgsDisk),
    /// On a disk, which is formatted.
    Reprovision(PetriVmgsDisk),
    /// In memory.
    Ephemeral,
}

impl PetriVmgsResource {
    /// The disk, if there is one.
    pub open spec fn spec_disk(self) -> Option<PetriVmgsDisk> {
        match self {
            PetriVmgsResource::Disk(d) => Some(d),
            PetriVmgsResource::ReprovisionOnFailure(d) => Some(d),
            PetriVmgsResource::Reprovision(d) => Some(d),
            PetriVmgsResource::Ephemeral => None,
        }
    }

    /// The same with another disk, if there is one.
    pub open spec fn with_disk(self, d: PetriVmgsDisk) -> PetriVmgsResource {
        match self {
            PetriVmgsResource::Disk(_) => PetriVmgsResource::Disk(d),
            PetriVmgsResource::ReprovisionOnFailure(_) => PetriVmgsResource::ReprovisionOnFailure(
                d,
            ),
            PetriVmgsResource::Reprovision(_) => PetriVmgsResource::Reprovision(d),
            PetriVmgsResource::Ephemeral => PetriVmgsResource::Ephemeral,
        }
    }

    /// The same with another lifetime.
    pub open spec fn living(self, lifetime: PetriGuestStateLifetime) -> PetriVmgsResource {
        let d = match self.spec_disk() {
            Some(d) => d,
            None => PetriVmgsDisk::spec_default(),
        };
        match lifetime {
            PetriGuestStateLifetime::Disk => PetriVmgsResource::Disk(d),
            PetriGuestStateLifetime::ReprovisionOnFailure =>
                PetriVmgsResource::ReprovisionOnFailure(d),
            PetriGuestStateLifetime::Reprovision => PetriVmgsResource::Reprovision(d),
            PetriGuestStateLifetime::Ephemeral => PetriVmgsResource::Ephemeral,
        }
    }

    /// The disk, if there is one.
    pub fn disk(&self) -> (d: Option<&PetriVmgsDisk>)
        ensures
            match d {
                Some(d) => self.spec_disk() == Some(*d),
                None => self.spec_disk() is None,
            },
    {
        match self {
            PetriVmgsResource::Disk(d) => Some(d),
            PetriVmgsResource::ReprovisionOnFailure(d) => Some(d),
            PetriVmgsResource::Reprovision(d) => Some(d),
            PetriVmgsResource::Ephemeral => None,
        }
    }

    /// The state with another lifetime. State on a disk that is not in memory cannot
    /// become ephemeral.
    pub fn with_lifetime(self, lifetime: PetriGuestStateLifetime) -> (r: PetriVmgsResource)
        requires
            lifetime == PetriGuestStateLifetime::Ephemeral ==> (self.spec_disk() matches Some(d)
                ==> d.disk is Memory),
        ensures
            r == self.living(lifetime),
    {
        let disk = match self {
            PetriVmgsResource::Disk(d) => d,
            PetriVmgsResource::ReprovisionOnFailure(d) => d,
            PetriVmgsResource::Reprovision(d) => d,
            PetriVmgsResource::Ephemeral => PetriVmgsDisk::default(),
        };
        match lifetime {
            PetriGuestStateLifetime::Disk => PetriVmgsResource::Disk(disk),
            PetriGuestStateLifetime::ReprovisionOnFailure =>
                PetriVmgsResource::ReprovisionOnFailure(disk),
            PetriGuestStateLifetime::Reprovision => PetriVmgsResource::Reprovision(disk),
            PetriGuestStateLifetime::Ephemeral => PetriVmgsResource::Ephemeral,
        }
    }

    /// The state with another encryption. Ephemeral state is not encrypted.
    pub fn with_encryption(self, policy: GuestStateEncryptionPolicy) -> (r: PetriVmgsResource)
        requires
            !(self is Ephemeral),
        ensures
            r == self.with_disk(
                (PetriVmgsDisk { encryption_policy: policy, ..self.spec_disk()->0 }),
            ),
    {
        match self {
            PetriVmgsResource::Disk(d) => PetriVmgsResource::Disk(
                PetriVmgsDisk { disk: d.disk, encryption_policy: policy },
            ),
            PetriVmgsResource::ReprovisionOnFailure(d) => PetriVmgsResource::ReprovisionOnFailure(
                PetriVmgsDisk { disk: d.disk, encryption_policy: policy },
            ),
            PetriVmgsResource::Reprovision(d) => PetriVmgsResource::Reprovision(
                PetriVmgsDisk { disk: d.disk, encryption_policy: policy },
            ),
            PetriVmgsResource::Ephemeral => PetriVmgsResource::Ephemeral,
        }
    }

    /// The state on another disk. That is told at most once, and not of ephemeral
    /// state.
    pub fn with_backing(self, disk: Disk) -> (r: PetriVmgsResource)
        requires
            self.spec_disk() matches Some(d) && d.disk is Memory,
        ensures
            r == self.with_disk((PetriVmgsDisk { disk, ..self.spec_disk()->0 })),
    {
        match self {
            PetriVmgsResource::Disk(d) => PetriVmgsResource::Disk(
                PetriVmgsDisk { disk, encryption_policy: d.encryption_policy },
            ),
            PetriVmgsResource::ReprovisionOnFailure(d) => PetriVmgsResource::ReprovisionOnFailure(
                PetriVmgsDisk { disk, encryption_policy: d.encryption_policy },
            ),
            PetriVmgsResource::Reprovision(d) => PetriVmgsResource::Reprovision(
                PetriVmgsDisk { disk, encryption_policy: d.encryption_policy },
            ),
            PetriVmgsResource::Ephemeral => PetriVmgsResource::Ephemeral,
        }
    }
}

/// The lifetime of guest state.
#[derive(Debug, Clone, Copy, PartialEq, Eq, Structural)]
pub enum PetriGuestStateLifetime {
    /// On a disk on top of a blank file, or of another one if it is given.
    Disk,
    /// The same, but the disk is formatted if it cannot be read.
    ReprovisionOnFailure,
    /// The same, but the disk is formatted.
    Reprovision,
    /// In memory.
    Ephemeral,
}

/// Oddities of a VMM, whatever the guest.
#[derive(Debug, Clone, Copy, PartialEq, Eq, Structural)]
pub struct VmmQuirks {
    /// Reset the VM if it does not boot in that time.
    pub flaky_boot_ms: Option<u64>,
}

impl Default for VmmQuirks {
    fn default() -> (q: VmmQuirks)
        ensures
            q.flaky_boot_ms is None,
    {
        VmmQuirks { flaky_boot_ms: None }
    }
}

/// Why a VM halted.
#[derive(Debug, Clone, Copy, PartialEq, Eq, Structural)]
pub enum PetriHaltReason {
    /// It powered off.
    PowerOff,
    /// It reset.
    Reset,
    /// It hibernated.
    Hibernate,
    /// It triple faulted.
    TripleFault,
    /// Something else.
    Other,
}

/// A virtual trust level.
#[derive(Debug, Clone, Copy, PartialEq, Eq, Structural)]
pub enum Vtl {
    /// VTL 0.
    Vtl0,
    /// VTL 1.
    Vtl1,
    /// VTL 2.
    Vtl2,
}

/// The type of a storage controller on VMBus.
#[derive(Debug, Clone, Copy, PartialEq, Eq, Structural)]
pub enum VmbusStorageType {
    /// SCSI.
    Scsi,
    /// NVMe.
    Nvme,
}

/// A disk drive.
#[derive(Debug)]
pub struct Drive {
    /// The disk in it.
    pub disk: Option<Disk>,
    /// Whether it is a DVD drive.
    pub is_dvd: bool,
}

impl Drive {
    /// A drive with that disk in it.
    pub fn new(disk: Option<Disk>, is_dvd: bool) -> (d: Drive)
        ensures
            d == (Drive { disk, is_dvd }),
    {
        Drive { disk, is_dvd }
    }
}

/// A storage controller on VMBus.
#[derive(Debug)]
pub struct VmbusStorageController {
    /// The VTL that it is for.
    pub target_vtl: Vtl,
    /// Its type.
    pub controller_type: VmbusStorageType,
    /// Its drives.
    pub drives: HashMap<u32, Drive>,
}

/// The number of places that are tried for a drive without one.
pub const LUN_LIMIT: u32 = 255;

/// A place for a drive: the given one, or the first that is free.
pub open spec fn is_place(drives: Map<u32, Drive>, lun: Option<u32>, place: u32) -> bool {
    match lun {
        Some(lun) => place == lun,
        None => place < LUN_LIMIT && !drives.contains_key(place) && forall|x: u32|
            x < place ==> #[trigger] drives.contains_key(x),
    }
}

/// Whether there is a place.
pub open spec fn has_place(drives: Map<u32, Drive>, lun: Option<u32>) -> bool {
    lun is None ==> exists|x: u32| x < LUN_LIMIT && !#[trigger] drives.contains_key(x)
}

impl VmbusStorageController {
    /// A controller without drives.
    pub fn new(target_vtl: Vtl, controller_type: VmbusStorageType) -> (c: VmbusStorageController)
        ensures
            c.target_vtl == target_vtl,
            c.controller_type == controller_type,
            c.drives@ == Map::<u32, Drive>::empty(),
    {
        VmbusStorageController { target_vtl, controller_type, drives: HashMap::new() }
    }

    /// Adds a drive, or replaces one if that is allowed. Returns its place.
    pub fn set_drive(&mut self, lun: Option<u32>, drive: Drive, allow_modify_existing: bool) -> (place:
        u32)
        requires
            has_place(old(self).drives@, lun),
            !allow_modify_existing ==> (lun matches Some(lun) ==> !old(self).drives@.contains_key(
                lun,
            )),
        ensures
            is_place(old(self).drives@, lun, place),
            final(self).drives@ == old(self).drives@.insert(place, drive),
            final(self).target_vtl == old(self).target_vtl,
            final(self).controller_type == old(self).controller_type,
    {
        let place: u32 = match lun {
            Some(lun) => lun,
            None => {
                let mut x: u32 = 0;
                while x < LUN_LIMIT && self.drives.contains_key(&x)
                    invariant
                        x <= LUN_LIMIT,
                        *self == *old(self),
                        forall|y: u32| y < x ==> #[trigger] self.drives@.contains_key(y),
                    decreases LUN_LIMIT - x,
                {
                    x = x + 1;
                }
                x
            },
        };
        self.drives.insert(place, drive);
        place
    }
}

/// A drive without a place never replaces another one, and adding drives one after
/// another never reuses a place.
pub proof fn new_drive_replaces_none(drives: Map<u32, Drive>, place: u32, drive: Drive, next: u32)
    requires
        is_place(drives, None, place),
        is_place(drives.insert(place, drive), None, next),
    ensures
        !drives.contains_key(place),
        next > place,
{
    if next < place {
        assert(drives.contains_key(next));
    }
}

/// Unless told otherwise UEFI boots without secure boot, from nothing on vPCI, and shuts down
/// rather than show its frontpage. OpenHCL redirects nothing and logs what tests log.
pub proof fn settings_start_plain()
    ensures
        ({
            let u = UefiConfig::spec_default();
            &&& !u.secure_boot_enabled
            &&& u.secure_boot_template is None
            &&& u.disable_frontpage
            &&& !u.default_boot_always_attempt
            &&& !u.enable_vpci_boot
        }),
        ({
            let o = OpenHclConfig::spec_default();
            &&& !o.vmbus_redirect
            &&& o.custom_command_line is None
            &&& o.log_levels is TestDefault
            &&& o.vtl2_base_address_type is None
            &&& o.vtl2_settings is None
        }),
{
}

/// The VMM on the host knows two variables.
pub proof fn host_knows_two_variables(name: Seq<char>)
    ensures
        is_host_level("OPENVMM_LOG"@),
        is_host_level("OPENVMM_SHOW_SPANS"@),
        is_host_level(name) ==> name == "OPENVMM_LOG"@ || name == "OPENVMM_SHOW_SPANS"@,
        host_levels_supported(OpenvmmLogConfig::TestDefault),
        host_levels_supported(OpenvmmLogConfig::BuiltInDefault),
{
}

/// What tests log: the level and whether spans are shown, each as the environment says or else
/// as tests want it.
pub proof fn test_levels_are_written(env: LogEnvironment)
    ensures
        env.openvmm_log is None && env.openvmm_show_spans is None ==> default_levels(env)
            == "OPENVMM_LOG=debug OPENVMM_SHOW_SPANS=true"@,
        env.openvmm_log matches Some(x) ==> (env.openvmm_show_spans matches Some(y)
            ==> default_levels(env) == "OPENVMM_LOG="@ + x@ + " OPENVMM_SHOW_SPANS="@ + y@),
        env.openvmm_log matches Some(x) ==> (env.openvmm_show_spans is None ==> default_levels(env)
            == "OPENVMM_LOG="@ + x@ + " OPENVMM_SHOW_SPANS=true"@),
        env.openvmm_show_spans matches Some(y) ==> (env.openvmm_log is None ==> default_levels(env)
            == "OPENVMM_LOG=debug OPENVMM_SHOW_SPANS="@ + y@),
{
    reveal_strlit("OPENVMM_LOG=");
    reveal_strlit("debug");
    reveal_strlit(" ");
    reveal_strlit("OPENVMM_SHOW_SPANS=");
    reveal_strlit("true");
    reveal_strlit("OPENVMM_LOG=debug OPENVMM_SHOW_SPANS=true");
    reveal_strlit(" OPENVMM_SHOW_SPANS=");
    reveal_strlit(" OPENVMM_SHOW_SPANS=true");
    reveal_strlit("OPENVMM_LOG=debug OPENVMM_SHOW_SPANS=");
    match (env.openvmm_log, env.openvmm_show_spans) {
        (None, None) => {
            assert(default_levels(env) =~= "OPENVMM_LOG=debug OPENVMM_SHOW_SPANS=true"@);
        },
        (Some(x), Some(y)) => {
            assert(default_levels(env) =~= "OPENVMM_LOG="@ + x@ + " OPENVMM_SHOW_SPANS="@ + y@);
        },
        (Some(x), None) => {
            assert(default_levels(env) =~= "OPENVMM_LOG="@ + x@ + " OPENVMM_SHOW_SPANS=true"@);
        },
        (None, Some(y)) => {
            assert(default_levels(env) =~= "OPENVMM_LOG=debug OPENVMM_SHOW_SPANS="@ + y@);
        },
    }
}

/// Each variable is appended with its value, in the order of the list, behind a space.
pub proof fn levels_are_appended_in_order(
    cmd: Seq<char>,
    levels: Seq<(String, String)>,
    name: String,
    value: String,
)
    ensures
        levels_appended(Some(cmd), levels, 0) == Some(cmd),
        levels_appended(Some(cmd), levels, levels.len() as int) is Some,
        levels_appended(
            Some(cmd),
            levels.push((name, value)),
            levels.len() as int + 1,
        ) == Some(
            levels_appended(Some(cmd), levels, levels.len() as int)->0 + seq![' '] + name@ + seq!['=']
                + value@,
        ),
{
    let more = levels.push((name, value));
    let n = levels.len() as int;
    lemma_levels_prefix(cmd, levels, more, n);
    reveal_strlit(" ");
    reveal_strlit("=");
    let before = levels_appended(Some(cmd), levels, n)->0;
    assert(before + " "@ + (name@ + "="@ + value@) =~= before + seq![' '] + name@ + seq!['=']
        + value@);
}

proof fn lemma_levels_prefix(
    cmd: Seq<char>,
    levels: Seq<(String, String)>,
    more: Seq<(String, String)>,
    n: int,
)
    requires
        0 <= n <= levels.len() <= more.len(),
        forall|i: int| 0 <= i < levels.len() ==> #[trigger] levels[i] == more[i],
    ensures
        levels_appended(Some(cmd), levels, n) is Some,
        levels_appended(Some(cmd), more, n) == levels_appended(Some(cmd), levels, n),
    decreases n,
{
    if n > 0 {
        lemma_levels_prefix(cmd, levels, more, n - 1);
        assert(levels[n - 1] == more[n - 1]);
    }
}

/// The command line for OpenHCL starts with what the test gives, keeps MANA devices alive, and
/// ends with what is logged.
pub proof fn command_line_is_put_together(c: OpenHclConfig, env: LogEnvironment)
    ensures
        ({
            let keep = "OPENHCL_MANA_KEEP_ALIVE=host,privatepool"@;
            let s = c.spec_command_line(env);
            let start = match c.custom_command_line {
                Some(x) => x@ + seq![' '] + keep,
                None => keep,
            };
            &&& c.log_levels is BuiltInDefault ==> s == start
            &&& c.log_levels is TestDefault ==> s == start + seq![' '] + default_levels(env)
            &&& c.log_levels matches OpenvmmLogConfig::Custom(levels) ==> (levels.entries().len()
                == 0 ==> s == start) && (levels.entries().len() == 1 ==> s == start + seq![' ']
                + levels.entries()[0].0@ + seq!['='] + levels.entries()[0].1@)
        }),
{
    reveal_strlit(" ");
    reveal_strlit("=");
    let keep = "OPENHCL_MANA_KEEP_ALIVE=host,privatepool"@;
    let start = match c.custom_command_line {
        Some(x) => x@ + seq![' '] + keep,
        None => keep,
    };
    let base = appended(text_of(c.custom_command_line), keep);
    assert(base->0 =~= start);
    if let OpenvmmLogConfig::Custom(levels) = c.log_levels {
        reveal_with_fuel(levels_appended, 3);
        if levels.entries().len() == 1 {
            let e = levels.entries()[0];
            assert(start + " "@ + (e.0@ + "="@ + e.1@) =~= start + seq![' '] + e.0@ + seq!['=']
                + e.1@);
        }
    } else if c.log_levels is TestDefault {
        assert(start + " "@ + default_levels(env) =~= start + seq![' '] + default_levels(env));
    }
}

/// Guest state that gets another lifetime keeps its disk and its encryption. What was only in
/// memory starts on a new disk of four megabytes, which is not encrypted.
pub proof fn lifetime_keeps_disk(v: PetriVmgsResource, lifetime: PetriGuestStateLifetime)
    ensures
        ({
            let r = v.living(lifetime);
            &&& r is Disk <==> lifetime is Disk
            &&& r is ReprovisionOnFailure <==> lifetime is ReprovisionOnFailure
            &&& r is Reprovision <==> lifetime is Reprovision
            &&& r is Ephemeral <==> lifetime is Ephemeral
            &&& r.spec_disk() is None <==> r is Ephemeral
            &&& !(lifetime is Ephemeral) && !(v is Ephemeral) ==> r.spec_disk() == v.spec_disk()
            &&& !(lifetime is Ephemeral) && v is Ephemeral ==> r.spec_disk()->0.disk
                == Disk::Memory(4194304) && r.spec_disk()->0.encryption_policy
                == GuestStateEncryptionPolicy::Unencrypted(false)
        }),
{
}

/// Guest state that gets another disk keeps its lifetime.
pub proof fn new_disk_keeps_lifetime(v: PetriVmgsResource, d: PetriVmgsDisk)
    ensures
        v is Ephemeral ==> v.with_disk(d) is Ephemeral,
        !(v is Ephemeral) ==> v.with_disk(d).spec_disk() == Some(d),
        v is Disk <==> v.with_disk(d) is Disk,
        v is Reprovision <==> v.with_disk(d) is Reprovision,
        v is ReprovisionOnFailure <==> v.with_disk(d) is ReprovisionOnFailure,
{
}

/// A drive goes where it is told, or else to the first place that is free, below 255.
pub proof fn first_free_place_is_taken(drives: Map<u32, Drive>, lun: Option<u32>, place: u32, other: u32)
    requires
        is_place(drives, lun, place),
    ensures
        lun matches Some(x) ==> place == x,
        lun is None ==> place < 255 && !drives.contains_key(place) && (other < place
            ==> drives.contains_key(other)),
{
}

/// There is a place for a drive unless none is told and all of the first 255 are taken.
pub proof fn place_is_found(drives: Map<u32, Drive>, lun: Option<u32>, free: u32)
    ensures
        lun is Some ==> has_place(drives, lun),
        free < 255 && !drives.contains_key(free) ==> has_place(drives, lun),
        lun is None && (forall|x: u32| x < 255 ==> #[trigger] drives.contains_key(x)) ==> !has_place(
            drives,
            lun,
        ),
{
}

} // verus!
