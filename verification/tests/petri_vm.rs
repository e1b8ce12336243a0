use openvmm::guid::Guid;
use openvmm::petri::builder::{
    agent_images, boot_plan, inspect_log_name, is_clean_shutdown, is_expected_boot_event, is_reset,
    is_screenshot_new, needs_crash_disk, partition_range, shutdown_wait_ms, AgentImage,
    BootDeviceType, PetriController, PetriVmBuilder, PETRI_NVME_BOOT_NSID, PETRI_SCSI_CRASH_LUN,
    PETRI_SCSI_PIPETTE_LUN,
};
use openvmm::petri::config::{
    are_host_levels_supported, ControllerType, Disk, Drive, GuestStateEncryptionPolicy,
    IsolationType, LogEnvironment, MemoryConfig, OpenHclConfig, OpenvmmLogConfig,
    PetriGuestStateLifetime, PetriHaltReason, PetriVmgsDisk, PetriVmgsResource, ProcessorTopology,
    SecureBootTemplate, StorageController, TpmConfig, VmbusStorageType, VmmQuirks, Vtl,
};
use openvmm::petri::firmware::{
    guest_test_uefi_artifact, linux_direct_artifacts, openhcl_linux_direct_artifact,
    openhcl_uefi_artifact, uefi_artifact, Artifact, BootImageConfig, Firmware, FirmwareEvent,
    GuestQuirks, GuestQuirksInner, InitialRebootCondition, MachineArch, OsFlavor, PcatGuest,
    UefiGuest,
};
use openvmm::petri::log_levels::LogLevels;
use openvmm::petri::name::{append_cmdline, make_vm_safe_name, shorten_vm_name};

fn vhd(flavor: OsFlavor) -> UefiGuest {
    UefiGuest::Vhd(BootImageConfig::from_vhd(
        "disk.vhd".to_string(),
        flavor,
        GuestQuirks::default(),
    ))
}

fn uefi() -> Firmware {
    Firmware::uefi("fw".to_string(), vhd(OsFlavor::Linux))
}

fn openhcl() -> Firmware {
    Firmware::openhcl_uefi("igvm".to_string(), vhd(OsFlavor::Windows), None)
}

fn builder(firmware: Firmware) -> PetriVmBuilder {
    build("test", firmware)
}

fn builder_named(name: &str) -> PetriVmBuilder {
    build(name, uefi())
}

fn build(name: &str, firmware: Firmware) -> PetriVmBuilder {
    let (agent, openhcl_agent) = agent_images(&firmware, true);
    PetriVmBuilder::new(
        name,
        MachineArch::X86_64,
        firmware,
        Some(agent),
        openhcl_agent,
        GuestQuirks::default().openvmm,
        VmmQuirks::default(),
    )
}

fn no_env() -> LogEnvironment {
    LogEnvironment {
        openvmm_log: None,
        openvmm_show_spans: None,
    }
}

fn levels(items: &[(&str, &str)]) -> LogLevels {
    let mut levels = LogLevels::new();
    for (name, value) in items {
        levels.insert(name.to_string(), value.to_string());
    }
    levels
}

#[test]
fn levels_are_ordered_by_name() {
    let l = levels(&[("b", "1"), ("", "2"), ("ab", "3"), ("a\u{e9}", "4"), ("b", "5"), ("a", "6")]);
    let names: Vec<(&str, &str)> = (0..l.len())
        .map(|i| (l.get(i).0.as_str(), l.get(i).1.as_str()))
        .collect();
    assert_eq!(
        names,
        vec![("", "2"), ("a", "6"), ("ab", "3"), ("a\u{e9}", "4"), ("b", "5")]
    );
    assert_eq!(LogLevels::default().len(), 0);
}

#[test]
fn names_are_counted_in_characters() {
    let accents = "\u{e9}".repeat(60);
    assert_eq!(make_vm_safe_name(&accents), accents);
    let name = format!("a{accents}");
    assert_eq!(make_vm_safe_name(&name), name);
    let name = "\u{e9}".repeat(100);
    assert_eq!(make_vm_safe_name(&name), name);
    let name = "\u{e9}".repeat(101);
    assert_eq!(
        shorten_vm_name(&name, 0xabc),
        format!("{}0abc", "\u{e9}".repeat(96))
    );
    let safe = make_vm_safe_name(&name);
    assert_eq!(safe.chars().count(), 100);
    assert_eq!(safe, make_vm_safe_name(&name));
    assert_eq!(builder_named(&name).config.name, safe);
}

#[test]
fn long_names_end_with_their_hash() {
    let name = "x".repeat(101);
    assert_eq!(
        shorten_vm_name(&name, 0x1234_5678_9abc_def0),
        format!("{}def0", "x".repeat(96))
    );
    let safe = make_vm_safe_name(&name);
    assert_eq!(safe.len(), 100);
    assert!(safe.starts_with(&"x".repeat(96)));
    assert_ne!(safe, name);
}

#[test]
fn command_lines_are_joined() {
    let mut cmd = None;
    append_cmdline(&mut cmd, "A=1");
    assert_eq!(cmd.as_deref(), Some("A=1"));
    append_cmdline(&mut cmd, "B=2");
    assert_eq!(cmd.as_deref(), Some("A=1 B=2"));
}

#[test]
fn openhcl_command_line() {
    let mut c = OpenHclConfig::default();
    assert_eq!(
        c.command_line(&no_env()),
        "OPENHCL_MANA_KEEP_ALIVE=host,privatepool OPENVMM_LOG=debug OPENVMM_SHOW_SPANS=true"
    );
    let mut env = no_env();
    env.openvmm_log = Some("info".to_string());
    env.openvmm_show_spans = Some("false".to_string());
    assert_eq!(
        c.command_line(&env),
        "OPENHCL_MANA_KEEP_ALIVE=host,privatepool OPENVMM_LOG=info OPENVMM_SHOW_SPANS=false"
    );
    c.custom_command_line = Some("X=1".to_string());
    c.log_levels = OpenvmmLogConfig::Custom(levels(&[("B", "2"), ("A", "b"), ("B", "c")]));
    assert_eq!(
        c.command_line(&no_env()),
        "X=1 OPENHCL_MANA_KEEP_ALIVE=host,privatepool A=b B=c"
    );
    c.log_levels = OpenvmmLogConfig::BuiltInDefault;
    assert_eq!(
        c.command_line(&no_env()),
        "X=1 OPENHCL_MANA_KEEP_ALIVE=host,privatepool"
    );
    let b = builder(openhcl())
        .with_openhcl_command_line("Y=2")
        .with_confidential_filtering();
    assert_eq!(
        b.config.firmware.openhcl_config().unwrap().custom_command_line.as_deref(),
        Some("Y=2 OPENHCL_CONFIDENTIAL=1 OPENHCL_CONFIDENTIAL_DEBUG=0")
    );
}

#[test]
fn host_log_levels() {
    assert!(are_host_levels_supported(&OpenvmmLogConfig::TestDefault));
    let custom = |key: &str| OpenvmmLogConfig::Custom(levels(&[(key, "debug")]));
    assert!(are_host_levels_supported(&custom("OPENVMM_LOG")));
    assert!(!are_host_levels_supported(&custom("OTHER")));
}

#[test]
fn machines_have_defaults() {
    let b = builder(uefi());
    assert_eq!(b.config.name, "test");
    assert_eq!(b.config.memory.startup_bytes, 4 << 30);
    assert_eq!(b.config.proc_topology.vp_count, 2);
    assert_eq!(b.config.proc_topology.enable_smt, None);
    assert_eq!(b.config.proc_topology.vps_per_socket, None);
    assert!(b.config.proc_topology.apic_mode.is_none());
    assert_eq!(b.boot_device_type, BootDeviceType::Scsi);
    assert_eq!(b.expected_boot_event, Some(FirmwareEvent::BootSuccess));
    assert_eq!(b.config.vmbus_storage_controllers.len(), 1);
    assert_eq!(
        b.config.vmbus_storage_controllers[0].0,
        PetriController::ScsiVtl0.guid()
    );
    let p = b.properties();
    assert!(!p.is_openhcl && !p.is_isolated && !p.is_pcat && !p.is_linux_direct);
    assert!(p.using_vtl0_pipette && !p.using_vpci);
    assert_eq!(p.os_flavor, OsFlavor::Linux);

    let b = builder(openhcl());
    assert!(b.is_openhcl());
    assert_eq!(b.config.vmbus_storage_controllers.len(), 2);
    assert_eq!(b.openhcl_agent_image.as_ref().unwrap().os_flavor, OsFlavor::Linux);
    assert_eq!(MemoryConfig::default().dynamic_memory_range, None);
    assert_eq!(ProcessorTopology::default().enable_smt, None);
    assert!(TpmConfig::default().no_persistent_secrets);
}

#[test]
fn firmware_tells_what_it_is() {
    let f = Firmware::linux_direct("k".to_string(), "i".to_string());
    assert!(f.is_linux_direct() && !f.is_openhcl() && !f.is_pcat());
    assert_eq!(f.os_flavor(), OsFlavor::Linux);
    assert_eq!(f.expected_boot_event(), None);
    assert!(f.boot_drive().is_none() && f.uefi_config().is_none());
    let iso = BootImageConfig::from_iso("a.iso".to_string(), OsFlavor::FreeBsd, GuestQuirks::default());
    let f = Firmware::pcat(PcatGuest::Iso(iso), None, None);
    assert!(f.is_pcat());
    assert_eq!(f.expected_boot_event(), Some(FirmwareEvent::BootAttempt));
    let d = f.boot_drive().unwrap();
    assert!(d.is_dvd);
    assert!(matches!(d.disk, Some(Disk::Differencing(p)) if p == "a.iso"));
    let f = Firmware::openhcl_uefi("x".to_string(), UefiGuest::NoGuest, Some(IsolationType::Vbs));
    assert_eq!(f.isolation(), Some(IsolationType::Vbs));
    assert_eq!(f.expected_boot_event(), Some(FirmwareEvent::NoBootDevice));
    assert_eq!(f.os_flavor(), OsFlavor::Uefi);
    assert!(f.boot_drive().is_none());
}

#[test]
fn artifacts_follow_the_architecture() {
    assert_eq!(
        linux_direct_artifacts(MachineArch::X86_64),
        (Artifact::LinuxDirectTestKernelX64, Artifact::LinuxDirectTestInitrdX64)
    );
    assert_eq!(openhcl_linux_direct_artifact(MachineArch::Aarch64), None);
    assert_eq!(
        openhcl_linux_direct_artifact(MachineArch::X86_64),
        Some(Artifact::LatestLinuxDirectTestX64)
    );
    assert_eq!(uefi_artifact(MachineArch::Aarch64), Artifact::UefiFirmwareAarch64);
    assert_eq!(
        openhcl_uefi_artifact(MachineArch::X86_64, Some(IsolationType::Snp)),
        Artifact::LatestCvmX64
    );
    assert_eq!(openhcl_uefi_artifact(MachineArch::X86_64, None), Artifact::LatestStandardX64);
    assert_eq!(guest_test_uefi_artifact(MachineArch::X86_64), Artifact::GuestTestUefiX64);
}

#[test]
fn vtl2_settings_can_be_changed() {
    let offer = |id: Guid| StorageController {
        controller_type: ControllerType::Scsi,
        instance_id: id,
        luns: Vec::new(),
    };
    let first = PetriController::ScsiVtl0ViaVtl2.guid();
    let second = PetriController::NvmeBootVtl2.guid();
    // The default settings come first, then those that are there.
    let b = builder(openhcl())
        .with_custom_vtl2_settings(|mut s| {
            assert!(s.storage_controllers.is_empty());
            s.storage_controllers.push(offer(first));
            s
        })
        .add_vtl2_storage_controller(offer(second))
        .with_custom_vtl2_settings(|mut s| {
            assert_eq!(s.storage_controllers.len(), 2);
            s.storage_controllers.remove(0);
            s
        });
    let settings = b.config.firmware.openhcl_config().unwrap().vtl2_settings.as_ref().unwrap();
    assert_eq!(settings.storage_controllers.len(), 1);
    assert_eq!(settings.storage_controllers[0].instance_id, second);
}

#[test]
fn boot_disk_is_attached() {
    let b = builder(uefi()).add_boot_disk();
    let c = &b.config.vmbus_storage_controllers[0].1;
    let d = &c.drives[&0];
    assert!(matches!(&d.disk, Some(Disk::Differencing(p)) if p == "disk.vhd"));

    // Through the paravisor, on a controller of its own.
    let b = builder(openhcl())
        .with_boot_device_type(BootDeviceType::ScsiViaNvme)
        .add_boot_disk();
    let nvme = b
        .config
        .vmbus_storage_controllers
        .iter()
        .find(|c| c.0 == PetriController::NvmeBootVtl2.guid())
        .unwrap();
    assert_eq!(nvme.1.controller_type, VmbusStorageType::Nvme);
    assert_eq!(nvme.1.target_vtl, Vtl::Vtl2);
    assert!(nvme.1.drives.contains_key(&PETRI_NVME_BOOT_NSID));
    let settings = b.config.firmware.openhcl_config().unwrap().vtl2_settings.as_ref().unwrap();
    let offered = settings
        .storage_controllers
        .iter()
        .find(|c| c.instance_id == PetriController::ScsiVtl0ViaVtl2.guid())
        .unwrap();
    assert_eq!(offered.luns.len(), 1);
    assert_eq!(settings.storage_controllers.len(), 1);
    assert_eq!(offered.luns[0].backing_type, ControllerType::Nvme);
    assert_eq!(offered.luns[0].backing_location, PETRI_NVME_BOOT_NSID);
    assert!(boot_plan(BootDeviceType::NvmeViaNvme).is_none());
    assert!(BootDeviceType::ScsiViaNvme.requires_vtl2());
    assert!(!BootDeviceType::Nvme.requires_vtl2());
    assert!(BootDeviceType::Nvme.requires_vpci_boot());
}

#[test]
fn agent_and_crash_disks_are_attached() {
    let b = builder(openhcl())
        .add_agent_disk(Vtl::Vtl0, Some(Disk::Temporary("a".to_string())))
        .add_agent_disk(Vtl::Vtl2, None)
        .add_guest_crash_disk(Some(Disk::Memory(1)));
    let c = &b.config.vmbus_storage_controllers;
    assert!(c[0].1.drives.contains_key(&PETRI_SCSI_PIPETTE_LUN));
    assert!(c[0].1.drives.contains_key(&PETRI_SCSI_CRASH_LUN));
    assert!(c[1].1.drives.is_empty());
    assert!(needs_crash_disk(OsFlavor::Windows));
    assert!(!needs_crash_disk(OsFlavor::Uefi));
    let mut rt = b.config.firmware.into_runtime_config(b.config.vmbus_storage_controllers);
    let at = rt.set_vmbus_drive(Drive::new(None, false), PetriController::ScsiVtl0.guid(), None);
    assert_eq!(at, 0);
}

#[test]
fn builders_change_one_thing() {
    let b = builder(uefi())
        .with_secure_boot()
        .with_uefi_frontpage(true)
        .with_default_boot_always_attempt(true);
    let c = b.config.firmware.uefi_config().unwrap();
    assert!(c.secure_boot_enabled && !c.disable_frontpage && c.default_boot_always_attempt);
    assert_eq!(
        c.secure_boot_template,
        Some(SecureBootTemplate::MicrosoftUefiCertificateAuthority)
    );
    let b = builder(uefi()).with_tpm(true).with_tpm_state_persistence(true);
    assert_eq!(b.config.tpm, Some(TpmConfig { no_persistent_secrets: false }));
    assert_eq!(b.with_tpm(false).config.tpm, None);
    let b = builder(uefi()).with_expect_boot_failure();
    assert_eq!(b.expected_boot_event, Some(FirmwareEvent::BootFailed));
    assert_eq!(builder(uefi()).with_expect_no_boot_event().expected_boot_event, None);
    let b = builder(openhcl()).with_vmbus_redirect(true).with_custom_openhcl("other".to_string());
    assert!(b.config.firmware.openhcl_config().unwrap().vmbus_redirect);
    let b = builder(uefi()).with_agent_file("n".to_string(), "a".to_string());
    assert_eq!(
        b.agent_image.unwrap().files,
        vec![("n".to_string(), "a".to_string())]
    );
    assert!(AgentImage::new(OsFlavor::Linux, false).files.is_empty());
}

#[test]
fn resets_are_expected_after_first_boot() {
    let quirks = |initial_reboot| GuestQuirksInner {
        hyperv_shutdown_ic_sleep_ms: Some(5000),
        initial_reboot,
    };
    let mut b = builder(uefi());
    assert!(!b.expect_reset());
    b.guest_quirks = quirks(Some(InitialRebootCondition::Always));
    assert!(b.expect_reset());
    b.guest_quirks = quirks(Some(InitialRebootCondition::WithTpm));
    assert!(!b.expect_reset());
    let b = b.with_tpm(true);
    assert!(b.expect_reset());
    let b = b.with_expect_no_boot_event();
    assert!(!b.expect_reset());
    assert!(b.with_expect_reset().expect_reset());
    assert_eq!(shutdown_wait_ms(&quirks(None)), 15000);
    assert_eq!(shutdown_wait_ms(&GuestQuirks::default().hyperv), 10000);
}

#[test]
fn guest_state_is_kept_where_it_is_told() {
    let b = builder(uefi()).with_guest_state_lifetime(PetriGuestStateLifetime::Reprovision);
    assert!(matches!(
        &b.config.vmgs,
        PetriVmgsResource::Reprovision(PetriVmgsDisk { disk: Disk::Memory(0x400000), .. })
    ));
    let b = b
        .with_guest_state_encryption(GuestStateEncryptionPolicy::GspKey(true))
        .with_persistent_vmgs("v".to_string());
    let d = b.config.vmgs.disk().unwrap();
    assert_eq!(d.encryption_policy, GuestStateEncryptionPolicy::GspKey(true));
    assert!(matches!(&d.disk, Disk::Persistent(p) if p == "v"));
    assert!(PetriVmgsResource::Ephemeral.disk().is_none());
}

#[test]
fn halts_and_boots_are_judged() {
    assert!(is_clean_shutdown(PetriHaltReason::PowerOff));
    assert!(!is_clean_shutdown(PetriHaltReason::TripleFault));
    assert!(is_reset(PetriHaltReason::Reset) && !is_reset(PetriHaltReason::PowerOff));
    assert!(is_expected_boot_event(
        Some(FirmwareEvent::BootSuccess),
        FirmwareEvent::BootSuccess
    ));
    assert!(!is_expected_boot_event(
        Some(FirmwareEvent::BootSuccess),
        FirmwareEvent::BootFailed
    ));
    assert!(is_screenshot_new(&vec![1, 2], &vec![1, 3]));
    assert!(!is_screenshot_new(&vec![1, 2], &vec![1, 2]));
    assert_eq!(inspect_log_name("vmm"), "timeout_inspect_vmm.log");
    assert_eq!(partition_range(2, 10), Some((1024, 5120)));
    assert_eq!(partition_range(0, u64::MAX), None);
}
