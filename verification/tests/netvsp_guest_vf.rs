use openvmm::netvsp::adapter::{EndpointInfo, Nic, TxOffloadSupport};
use openvmm::netvsp::guest_vf::{
    data_path_request, guest_vf_is_available, handle_state_change, needs_state_change,
    restore_guest_vf_state, switch_data_path, CoordinatorMessage, GuestVfState, NdisConfig,
    Negotiated, PendingVfState, PrimaryChannelGuestVfState, RndisState, VfCoordination,
};
use openvmm::netvsp::outbox::{Effect, Outbox};
use openvmm::netvsp::protocol::{Version, PACKET_SIZE_V61};

fn negotiated(version: Version, capabilities: u64) -> Negotiated {
    let endpoint = EndpointInfo {
        max_queues: 1,
        indirection_table_size: 1,
        tx_fast_completions: false,
        tx_offloads: TxOffloadSupport {
            ipv4_header: false,
            tcp: false,
            udp: false,
            tso: false,
        },
        link_speed: 0,
    };
    Negotiated {
        adapter: Nic::builder().build(&endpoint, [0; 6], 0).adapter,
        packet_size: PACKET_SIZE_V61,
        version,
        ndis_config: NdisConfig {
            mtu: 1500,
            capabilities,
        },
    }
}

fn word(bytes: &[u8], i: usize) -> u32 {
    u32::from_le_bytes([bytes[4 * i], bytes[4 * i + 1], bytes[4 * i + 2], bytes[4 * i + 3]])
}

#[test]
fn vf_is_announced_to_guests_that_know_of_it() {
    // SR-IOV is the third capability.
    let sriov = 4;
    assert!(negotiated(Version::V61, sriov).ndis_config.has_sriov());
    let mut out = Outbox::new(1000);
    assert_eq!(
        guest_vf_is_available(&mut out, &negotiated(Version::V61, sriov), Some(5)),
        Ok(true)
    );
    match &out.effects[0] {
        Effect::Send(p) => {
            assert_eq!(word(&p.payload, 0), 128);
            assert_eq!(word(&p.payload, 1), 1);
            assert_eq!(word(&p.payload, 2), 5);
        }
        _ => panic!("a message is sent"),
    }
    let mut out = Outbox::new(1000);
    assert_eq!(
        guest_vf_is_available(&mut out, &negotiated(Version::V61, 0), Some(5)),
        Ok(false)
    );
    assert!(out.effects.is_empty());
    assert_eq!(
        guest_vf_is_available(&mut out, &negotiated(Version::V2, sriov), Some(5)),
        Ok(false)
    );
}

#[test]
fn available_vf_is_advertised_once_the_guest_runs() {
    let n = negotiated(Version::V61, 4);
    let mut state = PrimaryChannelGuestVfState::Available { vfid: 3 };
    assert!(needs_state_change(state));
    let mut out = Outbox::new(1000);
    let r = handle_state_change(&mut out, &n, RndisState::Initializing, &mut state).unwrap();
    assert_eq!(r, None);
    assert_eq!(state, PrimaryChannelGuestVfState::Available { vfid: 3 });
    let r = handle_state_change(&mut out, &n, RndisState::Operational, &mut state).unwrap();
    assert_eq!(state, PrimaryChannelGuestVfState::AvailableAdvertised);
    assert_eq!(r, Some(CoordinatorMessage::UpdateGuestVfState));
}

#[test]
fn data_path_is_set_while_a_switch_is_pending() {
    let pending = PrimaryChannelGuestVfState::DataPathSwitchPending {
        to_guest: true,
        id: Some(1),
        result: None,
    };
    assert_eq!(data_path_request(pending, Some(5)), Some(true));
    assert_eq!(data_path_request(PrimaryChannelGuestVfState::Ready, Some(5)), None);
    let c = VfCoordination {
        guest_vf_state: pending,
        is_data_path_switched: None,
        pending_vf_state: PendingVfState::Ready,
    };
    let r = restore_guest_vf_state(c, Some(5), true);
    assert_eq!(
        r.guest_vf_state,
        PrimaryChannelGuestVfState::DataPathSwitchPending {
            to_guest: true,
            id: Some(1),
            result: Some(true)
        }
    );
    assert_eq!(r.is_data_path_switched, Some(true));
}

#[test]
fn saved_state_comes_back() {
    let c = VfCoordination {
        guest_vf_state: PrimaryChannelGuestVfState::Restoring(GuestVfState::DataPathSwitched),
        is_data_path_switched: None,
        pending_vf_state: PendingVfState::Ready,
    };
    let r = restore_guest_vf_state(c, Some(5), true);
    assert_eq!(r.guest_vf_state.saved(), GuestVfState::DataPathSwitched);
}

#[test]
fn switch_request_restarts_the_queues() {
    let mut out = Outbox::new(1000);
    let mut state = PrimaryChannelGuestVfState::Ready;
    let mut restart = None;
    switch_data_path(&mut out, &mut state, Some(false), &mut restart, true, Some(9)).unwrap();
    assert_eq!(
        state,
        PrimaryChannelGuestVfState::DataPathSwitchPending {
            to_guest: true,
            id: Some(9),
            result: None
        }
    );
    assert_eq!(restart, Some(CoordinatorMessage::UpdateGuestVfState));
    assert!(out.effects.is_empty());
}

#[test]
fn states_have_names() {
    assert_eq!(PrimaryChannelGuestVfState::Initializing.describe(), "initializing");
    assert_eq!(
        PrimaryChannelGuestVfState::Ready.describe(),
        "\"available and present in guest\""
    );
    let pending = PrimaryChannelGuestVfState::DataPathSwitchPending {
        to_guest: true,
        id: None,
        result: Some(false),
    };
    assert_eq!(pending.describe(), "\"switching to guest failed\"");
    assert_eq!(
        PrimaryChannelGuestVfState::Available { vfid: 12 }.describe(),
        "available vfid: 12"
    );
}

#[test]
fn removed_vf_is_withdrawn_step_by_step() {
    let n = negotiated(Version::V61, 4);
    let mut state = PrimaryChannelGuestVfState::UnavailableFromDataPathSwitchPending {
        to_guest: true,
        id: Some(8),
    };
    let mut out = Outbox::new(1000);
    let r = handle_state_change(&mut out, &n, RndisState::Operational, &mut state).unwrap();
    assert_eq!(r, None);
    assert_eq!(state, PrimaryChannelGuestVfState::Unavailable);
    // The request is completed, the data path is synthetic, and the VF is gone.
    let types: Vec<u32> = out
        .effects
        .iter()
        .map(|e| match e {
            Effect::Send(p) if p.payload.is_empty() => 0,
            Effect::Send(p) => word(&p.payload, 0),
            _ => panic!("only messages are sent"),
        })
        .collect();
    assert_eq!(types, vec![0, 129, 128]);
}

#[test]
fn failed_switch_leaves_the_data_path() {
    let n = negotiated(Version::V61, 4);
    let mut state = PrimaryChannelGuestVfState::DataPathSwitchPending {
        to_guest: true,
        id: Some(8),
        result: Some(false),
    };
    let mut out = Outbox::new(1000);
    handle_state_change(&mut out, &n, RndisState::Operational, &mut state).unwrap();
    assert_eq!(state, PrimaryChannelGuestVfState::Ready);
    assert_eq!(out.effects.len(), 2);
}
