use openvmm::guid::Guid;
use openvmm::underhill::options::{
    ArgState, Environment, GuestStateEncryptionPolicyCli, GuestStateLifetimeCli, KeepAliveConfig,
    Options, OptionsError, TestScenarioConfig,
};
use openvmm::underhill::saved_state::{restore_or_new, RuntimeSavedState};
use openvmm::underhill::vf_manager::{
    after_create_attempt, create_mana_device, device_paths, guest_ready_for_device, is_arrival,
    is_uevent_relevant, save_result, saved_device, CreateNext, CreatePlan, PciDeviceResetMethod,
    VfAction, VfEvent, VfManager, VfManagerSaveResult, VfRequest, Vtl0Bus, Vtl2DeviceState,
};

fn guid(n: u32) -> Guid {
    Guid {
        data1: n,
        data2: 0,
        data3: 0,
        data4: 0,
    }
}

fn env(vars: &[(&str, &str)]) -> Environment {
    Environment {
        vars: vars
            .iter()
            .map(|(n, v)| (n.to_string(), v.to_string()))
            .collect(),
        changes: vec![],
    }
}

fn args(xs: &[&str]) -> Vec<String> {
    xs.iter().map(|x| x.to_string()).collect()
}

fn parsed(vars: &[(&str, &str)]) -> Options {
    Options::parse(&env(vars), None, &vec![]).unwrap()
}

#[test]
fn options_have_defaults() {
    let o = parsed(&[]);
    assert!(!o.wait_for_start && !o.reformat_vmgs && !o.gdbstub && !o.nvme_vfio);
    assert_eq!(o.pid, None);
    assert_eq!(o.vmbus_max_version, None);
    assert_eq!(o.vmbus_enable_mnf, None);
    assert_eq!(o.vmbus_channel_unstick_delay_ms, 100);
    assert_eq!((o.vnc_port, o.gdbstub_port), (3, 4));
    assert_eq!(o.framebuffer_gpa_base, None);
    assert_eq!(o.nvme_keep_alive, KeepAliveConfig::Disabled);
    assert_eq!(o.guest_state_lifetime, None);
    assert_eq!(o.config_timeout_in_seconds, 5);
    assert_eq!(o.servicing_timeout_dump_collection_in_ms, 500);
}

#[test]
fn options_are_read_from_the_environment() {
    let o = parsed(&[
        ("OPENHCL_WAIT_FOR_START", "TRUE"),
        ("UNDERHILL_REFORMAT_VMGS", "1"),
        ("OPENHCL_NVME_VFIO", "yes"),
        ("OPENHCL_VMBUS_ENABLE_MNF", "0"),
        ("OPENHCL_VNC_PORT", "4294967297"),
        ("OPENHCL_PID_FILE_PATH", "/run/pid"),
        ("UNDERHILL_HIDE_ISOLATION", "1"),
        ("OPENHCL_DISABLE_UEFI_FRONTPAGE", "False"),
        ("HCL_STRICT_ENCRYPTION_POLICY", "maybe"),
        ("OPENHCL_NVME_KEEP_ALIVE", "Host,PrivatePool"),
        ("OPENHCL_MANA_KEEP_ALIVE", "sometimes"),
        ("OPENHCL_TEST_CONFIG", "SERVICING_SAVE_STUCK"),
        ("HCL_GUEST_STATE_LIFETIME", "EPHEMERAL"),
        ("HCL_GUEST_STATE_ENCRYPTION_POLICY", "GSP_KEY"),
        ("OPENHCL_CONFIG_TIMEOUT_IN_SECONDS", "+7"),
    ]);
    assert!(o.wait_for_start && o.reformat_vmgs);
    assert!(!o.nvme_vfio);
    assert_eq!(o.vmbus_enable_mnf, Some(false));
    assert_eq!(o.vnc_port, 1);
    assert_eq!(o.pid.as_deref(), Some("/run/pid"));
    // This one has no other name.
    assert!(!o.hide_isolation);
    assert_eq!(o.disable_uefi_frontpage, Some(false));
    assert_eq!(o.strict_encryption_policy, None);
    assert!(o.nvme_keep_alive.is_enabled());
    assert_eq!(o.mana_keep_alive, KeepAliveConfig::Disabled);
    assert_eq!(o.test_configuration, Some(TestScenarioConfig::SaveStuck));
    assert_eq!(o.guest_state_lifetime, Some(GuestStateLifetimeCli::Ephemeral));
    assert_eq!(
        o.guest_state_encryption_policy,
        Some(GuestStateEncryptionPolicyCli::GspKey)
    );
    assert_eq!(o.config_timeout_in_seconds, 7);
}

#[test]
fn later_changes_of_the_environment_count() {
    let mut e = env(&[("A", "1"), ("B", "2"), ("UNDERHILL_X", "3")]);
    e.changes = vec![
        ("A".to_string(), Some("4".to_string())),
        ("B".to_string(), None),
        ("A".to_string(), Some("5".to_string())),
    ];
    assert_eq!(e.read("A").as_deref(), Some("5"));
    assert_eq!(e.read("B"), None);
    assert_eq!(e.read("OPENHCL_X"), None);
    assert_eq!(e.read_legacy("OPENHCL_X").as_deref(), Some("3"));
    assert_eq!(e.read_legacy("X").as_deref(), Some("3"));
}

#[test]
fn arguments_override_the_environment() {
    let e = env(&[("OPENHCL_VNC_PORT", "8")]);
    let o = Options::parse(
        &e,
        None,
        &args(&["--wait-for-start", "--pid", "/p", "--vnc-port=9"]),
    )
    .unwrap();
    assert!(o.wait_for_start);
    assert_eq!(o.pid.as_deref(), Some("/p"));
    assert_eq!(o.vnc_port, 9);
}

#[test]
fn bad_options_are_refused() {
    let none = || ArgState {
        wait_for_start: false,
        reformat_vmgs: false,
        pid: None,
        vnc_port: None,
    };
    assert!(matches!(
        Options::parse_args(&args(&["--pid"]), none()),
        Err(OptionsError::ExpectedValue(s)) if s == "--pid"
    ));
    assert!(matches!(
        Options::parse_args(&args(&["pid"]), none()),
        Err(OptionsError::UnrecognizedArgument(s)) if s == "pid"
    ));
    assert!(matches!(
        Options::parse_args(&args(&["--what=1"]), none()),
        Err(OptionsError::UnrecognizedArgument(s)) if s == "--what"
    ));
    assert!(matches!(
        Options::parse_args(&args(&["--vnc-port=4294967296"]), none()),
        Err(OptionsError::InvalidVncPort(s)) if s == "4294967296"
    ));
    assert!(matches!(
        Options::parse(&env(&[("OPENHCL_VNC_PORT", "x")]), None, &vec![]),
        Err(OptionsError::InvalidNumber(_))
    ));
    let e = env(&[("OPENHCL_VMBUS_MAX_VERSION", "?")]);
    assert!(matches!(
        Options::parse(&e, None, &vec![]),
        Err(OptionsError::VmbusMaxVersion)
    ));
    assert_eq!(
        Options::parse(&e, Some(0x50003), &vec![]).unwrap().vmbus_max_version,
        Some(0x50003)
    );
}

#[test]
fn names_of_values_are_parsed() {
    assert_eq!(
        KeepAliveConfig::from_str("HOST,PrivatePool").unwrap(),
        KeepAliveConfig::EnabledHostAndPrivatePoolPresent
    );
    assert_eq!(KeepAliveConfig::from_lowercase("HOST,PrivatePool"), None);
    assert_eq!(
        KeepAliveConfig::from_str("Disabled,Host,PrivatePool").unwrap(),
        KeepAliveConfig::Disabled
    );
    let k = KeepAliveConfig::from_str("NoHost,PrivatePool").unwrap();
    assert_eq!(k, KeepAliveConfig::DisabledHostAndPrivatePoolPresent);
    assert!(!k.is_enabled());
    assert_eq!(k.as_str(), "nohost,privatepool");
    assert_eq!(
        KeepAliveConfig::from_str("no").err().unwrap().message,
        "Invalid keepalive config: no"
    );
    assert!(TestScenarioConfig::from_str("servicing_save_fail").is_err());
    assert_eq!(
        GuestStateLifetimeCli::from_str("x").err().unwrap().message,
        "Invalid lifetime: x"
    );
    assert_eq!(
        GuestStateEncryptionPolicyCli::from_str("NONE").unwrap(),
        GuestStateEncryptionPolicyCli::Unencrypted
    );
}

#[test]
fn vf_is_offered_and_revoked() {
    let mut m = VfManager::new(Some(5), None);
    assert_eq!(m.vtl0_bus.describe(), "Present(vtl0_vfid=5)");
    assert_eq!(m.run(VfEvent::AddVtl0Vf), vec![VfAction::OfferDevice { vfid: 5 }]);
    assert_eq!(m.run(VfEvent::OfferFinished { ok: false }), vec![]);
    assert!(!m.offered_to_guest);
    m.run(VfEvent::OfferFinished { ok: true });
    assert!(m.offered_to_guest);
    assert_eq!(m.run(VfEvent::AddVtl0Vf), vec![]);
    assert_eq!(
        m.run(VfEvent::RemoveVtl0Vf),
        vec![VfAction::RevokeDevice { vfid: 5 }]
    );
    assert!(!m.offered_to_guest);
    assert_eq!(m.run(VfEvent::RemoveVtl0Vf), vec![]);
}

#[test]
fn hidden_vf_is_taken_from_the_guest() {
    let mut m = VfManager::new(Some(5), None);
    m.run(VfEvent::OfferFinished { ok: true });
    let actions = m.run(VfEvent::HideVtl0Vf { hide: true });
    assert!(actions.contains(&VfAction::RevokeDevice { vfid: 5 }));
    assert_eq!(m.vtl0_bus, Vtl0Bus::HiddenPresent { vfid: 5 });
    assert_eq!(m.hidden_vtl0, Some(true));
    assert_eq!(m.vtl0_vfid, None);
    m.run(VfEvent::HideVtl0Vf { hide: false });
    assert_eq!(m.vtl0_bus, Vtl0Bus::Present { vfid: 5 });
    assert_eq!(m.vtl0_vfid, Some(5));
    let m = VfManager::new(None, Some(true));
    assert_eq!(m.vtl0_bus, Vtl0Bus::HiddenNotPresent);
}

#[test]
fn device_is_restarted_with_growing_delays() {
    let mut m = VfManager::new(None, None);
    let actions = m.run(VfEvent::VfReconfig);
    let first = match actions.last() {
        Some(VfAction::SetTimer { delay_ms }) => *delay_ms,
        _ => panic!("a timer is set"),
    };
    assert_eq!(m.vtl2_device, Vtl2DeviceState::Reconfiguring);
    assert_eq!(m.run(VfEvent::VfReconfigRestart), vec![VfAction::StartDevice]);
    let second = match m.run(VfEvent::RestartFinished { ok: false }).last() {
        Some(VfAction::SetTimer { delay_ms }) => *delay_ms,
        _ => panic!("a timer is set"),
    };
    assert_eq!(second, first * 2);
    m.run(VfEvent::VfReconfigRestart);
    m.run(VfEvent::RestartFinished { ok: true });
    assert_eq!(m.vtl2_device, Vtl2DeviceState::Present);
    assert_eq!(m.backoff, None);
    // A timer that fires late finds nothing to do.
    assert_eq!(m.run(VfEvent::VfReconfigRestart), vec![]);
}

#[test]
fn device_goes_and_comes() {
    let mut m = VfManager::new(None, None);
    let actions = m.run(VfEvent::DeviceRemoved);
    assert_eq!(m.vtl2_device, Vtl2DeviceState::Missing);
    assert!(actions.contains(&VfAction::ShutdownDevice { keep_vf_alive: false }));
    assert_eq!(actions.last(), Some(&VfAction::ReportBindState { is_bound: false }));
    assert_eq!(m.run(VfEvent::VfReconfig), vec![]);
    assert_eq!(
        m.run(VfEvent::DeviceArrived),
        vec![VfAction::WaitForPciPath, VfAction::StartDevice]
    );
    m.run(VfEvent::ArrivalFinished { ok: false });
    assert_eq!(m.vtl2_device, Vtl2DeviceState::Missing);
    m.run(VfEvent::ArrivalFinished { ok: true });
    assert_eq!(m.vtl2_device, Vtl2DeviceState::Present);
    assert!(is_arrival(Vtl2DeviceState::Missing, true));
    assert!(!is_arrival(Vtl2DeviceState::Present, true));
}

#[test]
fn shutdown_ends_the_manager() {
    let mut m = VfManager::new(Some(5), None);
    m.run(VfEvent::OfferFinished { ok: true });
    assert_eq!(
        m.run(VfEvent::ShutdownBegin { remove_vtl0_vf: true }),
        vec![VfAction::RevokeDevice { vfid: 5 }]
    );
    assert_eq!(m.run(VfEvent::AddVtl0Vf), vec![]);
    assert_eq!(m.run(VfEvent::HideVtl0Vf { hide: true }), vec![]);
    let mut other = m;
    assert_eq!(
        m.run(VfEvent::ShutdownComplete { keep_vf_alive: true }),
        vec![
            VfAction::ShutdownDevice { keep_vf_alive: true },
            VfAction::Exit
        ]
    );
    assert_eq!(
        other.run(VfEvent::SaveState),
        vec![VfAction::SaveDevice, VfAction::Exit]
    );
}

#[test]
fn guest_is_followed() {
    assert_eq!(guest_ready_for_device(false, true, Some(5)), Some(VfRequest::Add));
    assert_eq!(guest_ready_for_device(true, true, Some(5)), None);
    assert_eq!(guest_ready_for_device(true, false, Some(5)), Some(VfRequest::Remove));
}

#[test]
fn devices_are_created_or_restored() {
    assert_eq!(create_mana_device(true, true, true), Some(CreatePlan::Restore));
    assert!(matches!(
        create_mana_device(false, false, true),
        Some(CreatePlan::Fresh { .. })
    ));
    assert_eq!(
        after_create_attempt(PciDeviceResetMethod::NoReset, false),
        CreateNext::Retry(PciDeviceResetMethod::Flr)
    );
    assert_eq!(
        after_create_attempt(PciDeviceResetMethod::Flr, false),
        CreateNext::Fail
    );
    assert_eq!(
        after_create_attempt(PciDeviceResetMethod::Flr, true),
        CreateNext::Created { set_no_reset: true }
    );
}

#[test]
fn uevents_are_filtered() {
    let p = device_paths("abcd", 0x1f);
    assert_eq!(
        p.device_path,
        "/devices/platform/bus/bus:vmbus/abcd/pci001f:00/001f:00:00.0"
    );
    assert_eq!(p.fs_dev_path, "/sys/bus/vmbus/devices/abcd/pci001f:00/001f:00:00.0");
    let path = p.device_path.as_str();
    assert!(is_uevent_relevant(path, Some("add"), Some(path), None));
    assert!(is_uevent_relevant(path, Some("remove"), Some(path), None));
    assert!(!is_uevent_relevant(path, Some("bind"), Some(path), Some("true")));
    assert!(is_uevent_relevant(path, None, None, Some("true")));
    assert!(!is_uevent_relevant(path, Some("add"), Some("/other"), None));
}

#[test]
fn saved_devices_are_told_apart() {
    assert!(matches!(save_result(Some(Some(3))), VfManagerSaveResult::Saved(3)));
    assert!(matches!(save_result::<u8>(None), VfManagerSaveResult::DeviceMissing));
    assert!(matches!(save_result::<u8>(Some(None)), VfManagerSaveResult::SaveFailed));
    assert_eq!(saved_device(Some(VfManagerSaveResult::Saved(3))), Some(3));
    assert_eq!(saved_device::<u8>(Some(VfManagerSaveResult::SaveFailed)), None);
    assert_eq!(saved_device::<u8>(None), None);
}

#[test]
fn saved_state_is_found_again() {
    let mut s = RuntimeSavedState::new(guid(7));
    assert_eq!(s.direction_to_vtl0(0), None);
    s.track_vport(0);
    s.track_vport(1);
    s.vport_callback(1, true);
    s.hidden_vtl0 = Some(true);
    assert_eq!(s.direction_to_vtl0(1), Some(true));
    let all = vec![RuntimeSavedState::new(guid(6)).save(), s.save()];
    let r = restore_or_new(&all, guid(7));
    assert_eq!(r.direction_to_vtl0, vec![None, Some(true)]);
    assert_eq!(r.hidden_vtl0, Some(true));
    let r = restore_or_new(&all, guid(8));
    assert_eq!(r.instance_id, guid(8));
    assert!(r.direction_to_vtl0.is_empty());
    s.force_synthetic();
    assert_eq!(s.direction_to_vtl0, vec![Some(false), Some(false)]);
}
