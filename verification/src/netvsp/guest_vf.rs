//! The life of the virtual function (VF) that accelerates the guest's network.
//!
//! The primary channel tracks what the guest has been told about the VF, and
//! whether packets travel through the VF or through the synthetic adapter.
use crate::netvsp::adapter::Adapter;
use crate::netvsp::error::WorkerError;
use crate::netvsp::outbox::{
    can_complete, completed, completion, ring_size, send_completion, Outbox, OutboxView,
};
use crate::netvsp::protocol::{
    fields, message, message_bytes, OutgoingPacket, OutgoingPacketType,
    PacketTypeView, PacketView, Version, DATA_PATH_SYNTHETIC, MESSAGE4_TYPE_SEND_VF_ASSOCIATION,
    MESSAGE4_TYPE_SWITCH_DATA_PATH, PACKET_SIZE_V61, SWITCH_DATA_PATH_TRANSACTION_ID,
    VF_ASSOCIATION_TRANSACTION_ID,
};
use crate::text::{decimal, owned, push_decimal};
use crate::wire::le32_list;
use vstd::prelude::*;
use vstd::string::StringExecFns;

verus! {

/// What is kept of the VF state when the adapter is saved.
#[derive(Debug, Clone, Copy, PartialEq, Eq, Structural)]
pub enum GuestVfState {
    /// The guest does not know of a VF.
    NoState,
    /// The guest has been told of a VF.
    AvailableAdvertised,
    /// The VF is present in the guest.
    Ready,
    /// The guest has asked to switch the data path.
    DataPathSwitchPending {
        /// Whether to the VF.
        to_guest: bool,
        /// The transaction that waits for the switch.
        id: Option<u64>,
        /// How the switch went, once it was tried.
        result: Option<bool>,
    },
    /// Packets travel through the VF.
    DataPathSwitched,
}

/// The VF state of a running primary channel.
#[derive(Debug, Clone, Copy, PartialEq, Eq, Structural)]
#[allow(inconsistent_fields)]
pub enum PrimaryChannelGuestVfState {
    /// No state has been assigned yet.
    Initializing,
    /// The state is being restored from a save.
    Restoring(GuestVfState),
    /// No VF is available for the guest.
    Unavailable,
    /// A VF was available to the guest, but no longer is.
    UnavailableFromAvailable,
    /// A VF was available and the guest has asked to switch the data path, but
    /// it no longer is.
    UnavailableFromDataPathSwitchPending {
        /// Whether to the VF.
        to_guest: bool,
        /// The transaction that waits for the switch.
        id: Option<u64>,
    },
    /// A VF was available and was the data path, but it no longer is.
    UnavailableFromDataPathSwitched,
    /// A VF is available for the guest.
    Available {
        /// Its ID.
        vfid: u32,
    },
    /// A VF is available and has been advertised to the guest.
    AvailableAdvertised,
    /// A VF is ready for guest use.
    Ready,
    /// A VF is ready in the guest and the guest has asked to switch the data
    /// path.
    DataPathSwitchPending {
        /// Whether to the VF.
        to_guest: bool,
        /// The transaction that waits for the switch.
        id: Option<u64>,
        /// How the switch went, once it was tried.
        result: Option<bool>,
    },
    /// A VF is ready in the guest and is the data path.
    DataPathSwitched,
    /// A VF is ready in the guest and was the data path, but an external change
    /// has moved it back to synthetic.
    DataPathSynthetic,
}

/// What the coordinator still has to do about the VF device.
#[derive(Debug, Clone, Copy, PartialEq, Eq, Structural)]
pub enum PendingVfState {
    /// Nothing.
    Ready,
    /// The device is offered after a delay of [`VF_DEVICE_DELAY_MS`].
    Delay,
    /// The device is being added or removed.
    Pending,
}

/// Arbitrary delay before adding the device to the guest. Older Linux guests
/// can race when they name the synthetic device: if the VF is offered too
/// quickly, it could get the name that the synthetic one is expected to have.
pub const VF_DEVICE_DELAY_MS: u64 = 1000;

/// State of the RNDIS protocol.
#[derive(Debug, Clone, Copy, PartialEq, Eq, Structural)]
pub enum RndisState {
    /// The guest has not initialized it yet.
    Initializing,
    /// It is in use.
    Operational,
    /// It has been shut down.
    Halted,
}

/// The MTU and the capabilities of the guest.
#[derive(Debug, Clone, Copy, PartialEq, Eq, Structural)]
pub struct NdisConfig {
    /// The MTU.
    pub mtu: u32,
    /// The capability bits.
    pub capabilities: u64,
}

impl NdisConfig {
    /// Whether the guest can use a virtual function: the third capability bit.
    pub open spec fn sriov(self) -> bool {
        (self.capabilities / 4) % 2 == 1
    }

    /// Whether the guest can use a virtual function.
    pub fn has_sriov(&self) -> (b: bool)
        ensures
            b == self.sriov(),
    {
        (self.capabilities / 4) % 2 == 1
    }
}

/// A data path switch that the guest has asked for.
pub struct DataPathSwitch {
    /// Whether to the VF.
    pub to_guest: bool,
    /// The transaction that waits for the switch.
    pub id: Option<u64>,
}

/// Where the two sides of the VF stand.
#[derive(Debug, Clone, Copy, PartialEq, Eq, Structural)]
pub struct VfCoordination {
    /// What the guest has been told.
    pub guest_vf_state: PrimaryChannelGuestVfState,
    /// Whether packets travel through the VF, where it is known.
    pub is_data_path_switched: Option<bool>,
    /// What the coordinator still has to do.
    pub pending_vf_state: PendingVfState,
}

impl PrimaryChannelGuestVfState {
    /// The data path switch that the guest waits for.
    pub open spec fn requested_switch(self) -> Option<DataPathSwitch> {
        match self {
            PrimaryChannelGuestVfState::UnavailableFromDataPathSwitchPending { to_guest, id }
            | PrimaryChannelGuestVfState::DataPathSwitchPending { to_guest, id, .. }
            | PrimaryChannelGuestVfState::Restoring(
                GuestVfState::DataPathSwitchPending { to_guest, id, .. },
            ) => Some(DataPathSwitch { to_guest, id }),
            _ => None,
        }
    }

    /// Whether the state was saved after the data path switch had been tried.
    pub open spec fn switched_before_save(self) -> bool {
        match self {
            PrimaryChannelGuestVfState::Restoring(
                GuestVfState::DataPathSwitchPending { result, .. },
            ) => result is Some,
            _ => false,
        }
    }

    /// Whether the guest has been told of a VF, but does not have it yet.
    pub open spec fn is_advertised(self) -> bool {
        self is AvailableAdvertised || self == PrimaryChannelGuestVfState::Restoring(
            GuestVfState::AvailableAdvertised,
        )
    }

    /// Whether the VF is present in the guest.
    pub open spec fn is_ready(self) -> bool {
        self is Ready || self == PrimaryChannelGuestVfState::Restoring(GuestVfState::Ready)
    }

    /// Whether packets travel through the VF.
    pub open spec fn is_switched(self) -> bool {
        self is DataPathSwitched || self == PrimaryChannelGuestVfState::Restoring(
            GuestVfState::DataPathSwitched,
        )
    }

    /// Whether the guest has no VF and has not been told of one.
    pub open spec fn is_unassigned(self) -> bool {
        self is Initializing || self == PrimaryChannelGuestVfState::Restoring(GuestVfState::NoState)
    }

    /// Whether the state is one that a worker can act on.
    pub open spec fn is_settled(self) -> bool {
        match self {
            PrimaryChannelGuestVfState::Initializing => false,
            PrimaryChannelGuestVfState::Restoring(_) => false,
            PrimaryChannelGuestVfState::DataPathSwitchPending { result, .. } => result is Some,
            _ => true,
        }
    }

    /// What is kept of the state when the adapter is saved.
    pub open spec fn spec_saved(self) -> GuestVfState {
        match self {
            PrimaryChannelGuestVfState::Restoring(saved) => saved,
            PrimaryChannelGuestVfState::DataPathSwitchPending { to_guest, id, result } =>
                GuestVfState::DataPathSwitchPending { to_guest, id, result },
            PrimaryChannelGuestVfState::UnavailableFromDataPathSwitchPending { to_guest, id } =>
                GuestVfState::DataPathSwitchPending { to_guest, id, result: None },
            PrimaryChannelGuestVfState::Ready => GuestVfState::Ready,
            PrimaryChannelGuestVfState::DataPathSwitched
            | PrimaryChannelGuestVfState::DataPathSynthetic
            | PrimaryChannelGuestVfState::UnavailableFromDataPathSwitched =>
                GuestVfState::DataPathSwitched,
            PrimaryChannelGuestVfState::AvailableAdvertised
            | PrimaryChannelGuestVfState::UnavailableFromAvailable =>
                GuestVfState::AvailableAdvertised,
            _ => GuestVfState::NoState,
        }
    }

    /// What is kept of the state when the adapter is saved.
    pub fn saved(&self) -> (s: GuestVfState)
        ensures
            s == self.spec_saved(),
    {
        match *self {
            PrimaryChannelGuestVfState::Initializing
            | PrimaryChannelGuestVfState::Unavailable
            | PrimaryChannelGuestVfState::Available { .. } => GuestVfState::NoState,
            PrimaryChannelGuestVfState::UnavailableFromAvailable
            | PrimaryChannelGuestVfState::AvailableAdvertised => GuestVfState::AvailableAdvertised,
            PrimaryChannelGuestVfState::Ready => GuestVfState::Ready,
            PrimaryChannelGuestVfState::UnavailableFromDataPathSwitchPending { to_guest, id } =>
                GuestVfState::DataPathSwitchPending { to_guest, id, result: None },
            PrimaryChannelGuestVfState::DataPathSwitchPending { to_guest, id, result } =>
                GuestVfState::DataPathSwitchPending { to_guest, id, result },
            PrimaryChannelGuestVfState::UnavailableFromDataPathSwitched
            | PrimaryChannelGuestVfState::DataPathSwitched
            | PrimaryChannelGuestVfState::DataPathSynthetic => GuestVfState::DataPathSwitched,
            PrimaryChannelGuestVfState::Restoring(saved) => saved,
        }
    }
}

/// How a data path switch stands, as text.
pub open spec fn switch_progress(result: Option<bool>) -> Seq<char> {
    match result {
        Some(true) => "succeeded\""@,
        Some(false) => "failed\""@,
        None => "in progress\""@,
    }
}

/// The data path that is switched to, as text.
pub open spec fn switch_target(to_guest: bool) -> Seq<char> {
    if to_guest {
        "guest"@
    } else {
        "synthetic"@
    }
}

impl PrimaryChannelGuestVfState {
    /// The state as it is shown to an operator.
    pub open spec fn text(self) -> Seq<char> {
        match self {
            PrimaryChannelGuestVfState::Initializing => "initializing"@,
            PrimaryChannelGuestVfState::Restoring(GuestVfState::NoState) => "restoring"@,
            PrimaryChannelGuestVfState::Restoring(GuestVfState::AvailableAdvertised) =>
                "restoring from guest notified of vfid"@,
            PrimaryChannelGuestVfState::Restoring(GuestVfState::Ready) =>
                "restoring from vf present"@,
            PrimaryChannelGuestVfState::Restoring(
                GuestVfState::DataPathSwitchPending { to_guest, result, .. },
            ) => "restoring from client requested data path switch: to "@ + switch_target(to_guest)
                + " "@ + switch_progress(result),
            PrimaryChannelGuestVfState::Restoring(GuestVfState::DataPathSwitched) =>
                "restoring from data path in guest"@,
            PrimaryChannelGuestVfState::Unavailable => "unavailable"@,
            PrimaryChannelGuestVfState::UnavailableFromAvailable =>
                "\"unavailable (previously available)\""@,
            PrimaryChannelGuestVfState::UnavailableFromDataPathSwitchPending { .. } =>
                "unavailable (previously switching data path)"@,
            PrimaryChannelGuestVfState::UnavailableFromDataPathSwitched =>
                "\"unavailable (previously using guest VF)\""@,
            PrimaryChannelGuestVfState::Available { vfid } => "available vfid: "@ + decimal(
                vfid as nat,
            ),
            PrimaryChannelGuestVfState::AvailableAdvertised => "\"available, guest notified\""@,
            PrimaryChannelGuestVfState::Ready => "\"available and present in guest\""@,
            PrimaryChannelGuestVfState::DataPathSwitchPending { to_guest, result, .. } =>
                "\"switching to "@ + switch_target(to_guest) + " "@ + switch_progress(result),
            PrimaryChannelGuestVfState::DataPathSwitched =>
                "\"available and data path switched\""@,
            PrimaryChannelGuestVfState::DataPathSynthetic =>
                "\"available but data path switched back to synthetic due to external state change\""@,
        }
    }

    /// The state as it is shown to an operator.
    pub fn describe(&self) -> (s: String)
        ensures
            s@ == self.text(),
    {
        match *self {
            PrimaryChannelGuestVfState::Initializing => owned("initializing"),
            PrimaryChannelGuestVfState::Restoring(GuestVfState::NoState) => owned("restoring"),
            PrimaryChannelGuestVfState::Restoring(GuestVfState::AvailableAdvertised) => owned(
                "restoring from guest notified of vfid",
            ),
            PrimaryChannelGuestVfState::Restoring(GuestVfState::Ready) => owned(
                "restoring from vf present",
            ),
            PrimaryChannelGuestVfState::Restoring(
                GuestVfState::DataPathSwitchPending { to_guest, result, .. },
            ) => {
                let mut s = owned("restoring from client requested data path switch: to ");
                push_switch(&mut s, to_guest, result);
                s
            },
            PrimaryChannelGuestVfState::Restoring(GuestVfState::DataPathSwitched) => owned(
                "restoring from data path in guest",
            ),
            PrimaryChannelGuestVfState::Unavailable => owned("unavailable"),
            PrimaryChannelGuestVfState::UnavailableFromAvailable => owned(
                "\"unavailable (previously available)\"",
            ),
            PrimaryChannelGuestVfState::UnavailableFromDataPathSwitchPending { .. } => owned(
                "unavailable (previously switching data path)",
            ),
            PrimaryChannelGuestVfState::UnavailableFromDataPathSwitched => owned(
                "\"unavailable (previously using guest VF)\"",
            ),
            PrimaryChannelGuestVfState::Available { vfid } => {
                let mut s = owned("available vfid: ");
                push_decimal(&mut s, vfid as u64);
                s
            },
            PrimaryChannelGuestVfState::AvailableAdvertised => owned(
                "\"available, guest notified\"",
            ),
            PrimaryChannelGuestVfState::Ready => owned("\"available and present in guest\""),
            PrimaryChannelGuestVfState::DataPathSwitchPending { to_guest, result, .. } => {
                let mut s = owned("\"switching to ");
                push_switch(&mut s, to_guest, result);
                s
            },
            PrimaryChannelGuestVfState::DataPathSwitched => owned(
                "\"available and data path switched\"",
            ),
            PrimaryChannelGuestVfState::DataPathSynthetic => owned(
                "\"available but data path switched back to synthetic due to external state change\"",
            ),
        }
    }
}

fn push_switch(s: &mut String, to_guest: bool, result: Option<bool>)
    ensures
        final(s)@ == old(s)@ + switch_target(to_guest) + " "@ + switch_progress(result),
{
    if to_guest {
        s.append("guest");
    } else {
        s.append("synthetic");
    }
    s.append(" ");
    match result {
        Some(true) => s.append("succeeded\""),
        Some(false) => s.append("failed\""),
        None => s.append("in progress\""),
    }
}

/// The data path that the endpoint has to be switched to (`true` for the VF)
/// before the coordinator can go on, given the VF that is there now.
pub open spec fn data_path_to_set(
    state: PrimaryChannelGuestVfState,
    guest_vf_id: Option<u32>,
) -> Option<bool> {
    if guest_vf_id is Some {
        if state.switched_before_save() {
            // If the save was after the switch, don't do it again.
            None
        } else if state.requested_switch() is Some {
            Some(state.requested_switch()->Some_0.to_guest)
        } else if state is DataPathSynthetic || state is UnavailableFromDataPathSwitched {
            Some(true)
        } else {
            None
        }
    } else if state.is_switched() {
        // The device was just removed.
        Some(false)
    } else if state.requested_switch() is Some && !(
    state is UnavailableFromDataPathSwitchPending) && !state.requested_switch()->Some_0.to_guest {
        Some(false)
    } else {
        None
    }
}

/// Where the guest stands when the VF `vfid` is there, and setting the data
/// path, if that was needed, went as `data_path_set` says.
pub open spec fn state_with_vf(c: VfCoordination, vfid: u32, data_path_set: bool) ->
    PrimaryChannelGuestVfState {
    let state = c.guest_vf_state;
    if state.switched_before_save() {
        PrimaryChannelGuestVfState::DataPathSwitchPending {
            to_guest: state.requested_switch()->Some_0.to_guest,
            id: state.requested_switch()->Some_0.id,
            result: state->Restoring_0->DataPathSwitchPending_result,
        }
    } else if state.requested_switch() is Some {
        PrimaryChannelGuestVfState::DataPathSwitchPending {
            to_guest: state.requested_switch()->Some_0.to_guest,
            id: state.requested_switch()->Some_0.id,
            result: Some(data_path_set),
        }
    } else if state is DataPathSynthetic || state is UnavailableFromDataPathSwitched {
        if data_path_set {
            PrimaryChannelGuestVfState::DataPathSwitched
        } else {
            PrimaryChannelGuestVfState::DataPathSynthetic
        }
    } else if state.is_unassigned() || state is Unavailable {
        PrimaryChannelGuestVfState::Available { vfid }
    } else if state.is_advertised() {
        if c.is_data_path_switched == Some(true) {
            // A previous instantiation already switched the data path.
            PrimaryChannelGuestVfState::DataPathSwitched
        } else {
            PrimaryChannelGuestVfState::AvailableAdvertised
        }
    } else if state.is_switched() {
        PrimaryChannelGuestVfState::DataPathSwitched
    } else if state.is_ready() {
        PrimaryChannelGuestVfState::Ready
    } else {
        state
    }
}

/// Where the guest stands when no VF is there.
pub open spec fn state_without_vf(state: PrimaryChannelGuestVfState) ->
    PrimaryChannelGuestVfState {
    if state.is_unassigned() || state is Available {
        PrimaryChannelGuestVfState::Unavailable
    } else if state.is_advertised() || state.is_ready() {
        PrimaryChannelGuestVfState::UnavailableFromAvailable
    } else if state.requested_switch() is Some {
        PrimaryChannelGuestVfState::UnavailableFromDataPathSwitchPending {
            to_guest: state.requested_switch()->Some_0.to_guest,
            id: state.requested_switch()->Some_0.id,
        }
    } else if state.is_switched() || state is DataPathSynthetic {
        PrimaryChannelGuestVfState::UnavailableFromDataPathSwitched
    } else {
        state
    }
}

/// What the coordinator still has to do about the VF device.
pub open spec fn pending_after(c: VfCoordination, guest_vf_id: Option<u32>) -> PendingVfState {
    let state = c.guest_vf_state;
    if guest_vf_id is Some {
        if state.is_advertised() {
            if c.is_data_path_switched == Some(true) {
                c.pending_vf_state
            } else {
                PendingVfState::Delay
            }
        } else if state.requested_switch() is Some || state.is_ready() || state.is_switched()
            || state is UnavailableFromDataPathSwitched || state is DataPathSynthetic {
            PendingVfState::Pending
        } else {
            c.pending_vf_state
        }
    } else if state is AvailableAdvertised {
        PendingVfState::Ready
    } else {
        c.pending_vf_state
    }
}

/// The coordination after the VF that is there now has been looked at.
pub open spec fn restored(
    c: VfCoordination,
    guest_vf_id: Option<u32>,
    data_path_set: bool,
) -> VfCoordination {
    VfCoordination {
        guest_vf_state: match guest_vf_id {
            Some(vfid) => state_with_vf(c, vfid, data_path_set),
            None => state_without_vf(c.guest_vf_state),
        },
        is_data_path_switched: match data_path_to_set(c.guest_vf_state, guest_vf_id) {
            // Without a VF the path counts as synthetic, even if the endpoint
            // failed to switch.
            Some(to_guest) if data_path_set || guest_vf_id is None => Some(to_guest),
            _ => c.is_data_path_switched,
        },
        pending_vf_state: pending_after(c, guest_vf_id),
    }
}

/// The data path that the endpoint has to be switched to before
/// [`restore_guest_vf_state`] is called.
pub fn data_path_request(state: PrimaryChannelGuestVfState, guest_vf_id: Option<u32>) -> (r: Option<
    bool,
>)
    ensures
        r == data_path_to_set(state, guest_vf_id),
{
    if guest_vf_id.is_some() {
        match state {
            PrimaryChannelGuestVfState::Restoring(
                GuestVfState::DataPathSwitchPending { to_guest, result, .. },
            ) => if result.is_some() {
                None
            } else {
                Some(to_guest)
            },
            PrimaryChannelGuestVfState::UnavailableFromDataPathSwitchPending { to_guest, .. } =>
                Some(to_guest),
            PrimaryChannelGuestVfState::DataPathSwitchPending { to_guest, .. } => Some(to_guest),
            PrimaryChannelGuestVfState::UnavailableFromDataPathSwitched
            | PrimaryChannelGuestVfState::DataPathSynthetic => Some(true),
            _ => None,
        }
    } else {
        match state {
            PrimaryChannelGuestVfState::DataPathSwitchPending { to_guest, .. }
            | PrimaryChannelGuestVfState::Restoring(
                GuestVfState::DataPathSwitchPending { to_guest, .. },
            ) => if to_guest {
                None
            } else {
                Some(false)
            },
            PrimaryChannelGuestVfState::DataPathSwitched
            | PrimaryChannelGuestVfState::Restoring(GuestVfState::DataPathSwitched) => Some(false),
            _ => None,
        }
    }
}

/// Brings the VF state in line with the VF that is there now. `data_path_set`
/// tells whether the endpoint carried out the [`data_path_request`].
pub fn restore_guest_vf_state(
    c: VfCoordination,
    guest_vf_id: Option<u32>,
    data_path_set: bool,
) -> (r: VfCoordination)
    ensures
        r == restored(c, guest_vf_id, data_path_set),
{
    let state = c.guest_vf_state;
    let mut switched = c.is_data_path_switched;
    let mut pending = c.pending_vf_state;
    let is_switched = match switched {
        Some(to_guest) => to_guest,
        None => false,
    };
    let request = data_path_request(state, guest_vf_id);
    if let Some(to_guest) = request {
        if data_path_set || guest_vf_id.is_none() {
            switched = Some(to_guest);
        }
    }
    let next = match guest_vf_id {
        Some(vfid) => {
            // Ensure the guest VF is in the proper state.
            match state {
                PrimaryChannelGuestVfState::AvailableAdvertised
                | PrimaryChannelGuestVfState::Restoring(GuestVfState::AvailableAdvertised) => {
                    if !is_switched {
                        pending = PendingVfState::Delay;
                    }
                },
                PrimaryChannelGuestVfState::UnavailableFromDataPathSwitchPending { .. }
                | PrimaryChannelGuestVfState::UnavailableFromDataPathSwitched
                | PrimaryChannelGuestVfState::Ready
                | PrimaryChannelGuestVfState::Restoring(GuestVfState::Ready)
                | PrimaryChannelGuestVfState::DataPathSwitchPending { .. }
                | PrimaryChannelGuestVfState::Restoring(
                    GuestVfState::DataPathSwitchPending { .. },
                )
                | PrimaryChannelGuestVfState::DataPathSwitched
                | PrimaryChannelGuestVfState::Restoring(GuestVfState::DataPathSwitched)
                | PrimaryChannelGuestVfState::DataPathSynthetic => {
                    pending = PendingVfState::Pending;
                },
                _ => {},
            }
            match state {
                PrimaryChannelGuestVfState::Restoring(
                    GuestVfState::DataPathSwitchPending { to_guest, id, result },
                ) => PrimaryChannelGuestVfState::DataPathSwitchPending {
                    to_guest,
                    id,
                    result: if result.is_some() {
                        result
                    } else {
                        Some(data_path_set)
                    },
                },
                PrimaryChannelGuestVfState::UnavailableFromDataPathSwitchPending { to_guest, id }
                | PrimaryChannelGuestVfState::DataPathSwitchPending { to_guest, id, .. } =>
                    PrimaryChannelGuestVfState::DataPathSwitchPending {
                    to_guest,
                    id,
                    result: Some(data_path_set),
                },
                PrimaryChannelGuestVfState::UnavailableFromDataPathSwitched
                | PrimaryChannelGuestVfState::DataPathSynthetic => if data_path_set {
                    PrimaryChannelGuestVfState::DataPathSwitched
                } else {
                    PrimaryChannelGuestVfState::DataPathSynthetic
                },
                PrimaryChannelGuestVfState::Initializing
                | PrimaryChannelGuestVfState::Unavailable
                | PrimaryChannelGuestVfState::Restoring(GuestVfState::NoState) =>
                    PrimaryChannelGuestVfState::Available { vfid },
                PrimaryChannelGuestVfState::AvailableAdvertised
                | PrimaryChannelGuestVfState::Restoring(GuestVfState::AvailableAdvertised) =>
                    if !is_switched {
                    PrimaryChannelGuestVfState::AvailableAdvertised
                } else {
                    PrimaryChannelGuestVfState::DataPathSwitched
                },
                PrimaryChannelGuestVfState::Restoring(GuestVfState::DataPathSwitched) =>
                    PrimaryChannelGuestVfState::DataPathSwitched,
                PrimaryChannelGuestVfState::Restoring(GuestVfState::Ready) =>
                    PrimaryChannelGuestVfState::Ready,
                _ => state,
            }
        },
        None => {
            if let PrimaryChannelGuestVfState::AvailableAdvertised = state {
                pending = PendingVfState::Ready;
            }
            match state {
                PrimaryChannelGuestVfState::Initializing
                | PrimaryChannelGuestVfState::Restoring(GuestVfState::NoState)
                | PrimaryChannelGuestVfState::Available { .. } =>
                    PrimaryChannelGuestVfState::Unavailable,
                PrimaryChannelGuestVfState::AvailableAdvertised
                | PrimaryChannelGuestVfState::Restoring(GuestVfState::AvailableAdvertised)
                | PrimaryChannelGuestVfState::Ready
                | PrimaryChannelGuestVfState::Restoring(GuestVfState::Ready) =>
                    PrimaryChannelGuestVfState::UnavailableFromAvailable,
                PrimaryChannelGuestVfState::DataPathSwitchPending { to_guest, id, .. }
                | PrimaryChannelGuestVfState::Restoring(
                    GuestVfState::DataPathSwitchPending { to_guest, id, .. },
                ) => PrimaryChannelGuestVfState::UnavailableFromDataPathSwitchPending {
                    to_guest,
                    id,
                },
                PrimaryChannelGuestVfState::DataPathSwitched
                | PrimaryChannelGuestVfState::Restoring(GuestVfState::DataPathSwitched)
                | PrimaryChannelGuestVfState::DataPathSynthetic =>
                    PrimaryChannelGuestVfState::UnavailableFromDataPathSwitched,
                _ => state,
            }
        },
    };
    VfCoordination {
        guest_vf_state: next,
        is_data_path_switched: switched,
        pending_vf_state: pending,
    }
}

/// The ring space that is required to handle external state changes.
pub const MIN_STATE_CHANGE_RING_SIZE: usize = 196;

/// A message from a channel to the coordinator.
#[derive(Debug, Clone, Copy, PartialEq, Eq, Structural)]
pub enum CoordinatorMessage {
    /// Update the guest VF state based on what is available and what the
    /// primary channel has tracked. This adds the VF device and switches the
    /// data path.
    UpdateGuestVfState,
    /// Restart the endpoint and resume processing. This also attempts to bring
    /// VF and data path in line with the expectations.
    Restart,
    /// Start a timer.
    StartTimer {
        /// After how many milliseconds it expires.
        delay_ms: u64,
    },
}

/// What has been negotiated with the guest.
#[derive(Debug, Clone, Copy)]
pub struct Negotiated {
    /// The adapter.
    pub adapter: Adapter,
    /// The byte length of a packet.
    pub packet_size: usize,
    /// The version.
    pub version: Version,
    /// The guest configuration.
    pub ndis_config: NdisConfig,
}

impl Negotiated {
    /// Whether the guest is told about virtual functions.
    pub open spec fn wants_vf(self) -> bool {
        self.version.number() >= Version::V4.number() && self.ndis_config.sriov()
    }

    /// The serial number that stands for the VF `vfid`.
    pub open spec fn serial_number(self, vfid: u32) -> u32 {
        if self.adapter.is_windows() {
            self.adapter.adapter_index
        } else {
            vfid
        }
    }

    /// The message that announces the VF `vfid`, or withdraws it.
    pub open spec fn vf_association(self, vfid: Option<u32>) -> PacketView {
        PacketView {
            transaction_id: VF_ASSOCIATION_TRANSACTION_ID,
            packet_type: PacketTypeView::InBandWithCompletion,
            payload: message_bytes(
                self.packet_size as int,
                MESSAGE4_TYPE_SEND_VF_ASSOCIATION,
                match vfid {
                    Some(vfid) => le32_list(seq![1u32, self.serial_number(vfid)]),
                    None => le32_list(seq![0u32, 0u32]),
                },
            ),
        }
    }
}

/// The message that says that the data path is synthetic again.
pub open spec fn switched_to_synthetic() -> PacketView {
    PacketView {
        transaction_id: SWITCH_DATA_PATH_TRANSACTION_ID,
        packet_type: PacketTypeView::InBandWithCompletion,
        payload: message_bytes(
            0,
            MESSAGE4_TYPE_SWITCH_DATA_PATH,
            le32_list(seq![DATA_PATH_SYNTHETIC]),
        ),
    }
}

/// Tells the guest that a VF is available or no longer is. Returns whether the
/// guest has negotiated to be told.
pub fn guest_vf_is_available(out: &mut Outbox, n: &Negotiated, guest_vf_id: Option<u32>) -> (r:
    Result<bool, WorkerError>)
    requires
        n.packet_size <= PACKET_SIZE_V61,
    ensures
        !n.wants_vf() ==> r == Ok::<bool, WorkerError>(false) && final(out)@ == old(out)@,
        n.wants_vf() ==> {
            let p = n.vf_association(guest_vf_id);
            &&& final(out)@ == old(out)@.sent_if_fits(p)
            &&& r == if old(out)@.fits(p) {
                Ok::<bool, WorkerError>(true)
            } else {
                Err::<bool, WorkerError>(WorkerError::OutOfSpace)
            }
        },
{
    if n.version.at_least(Version::V4) && n.ndis_config.has_sriov() {
        let data = match guest_vf_id {
            Some(vfid) => {
                let serial_number: u32 = n.adapter.get_guest_vf_serial_number(vfid);
                let a: [u32; 2] = [1, serial_number];
                assert(a@ =~= seq![1u32, n.serial_number(vfid)]);
                fields(&a)
            },
            None => {
                let a: [u32; 2] = [0, 0];
                assert(a@ =~= seq![0u32, 0u32]);
                fields(&a)
            },
        };
        let m = message(n.packet_size, MESSAGE4_TYPE_SEND_VF_ASSOCIATION, data);
        let p = OutgoingPacket {
            transaction_id: VF_ASSOCIATION_TRANSACTION_ID,
            packet_type: OutgoingPacketType::InBandWithCompletion,
            payload: m.payload(),
        };
        assert(p@ == n.vf_association(guest_vf_id));
        match out.try_write(p) {
            Ok(()) => Ok(true),
            Err(_) => Err(WorkerError::OutOfSpace),
        }
    } else {
        Ok(false)
    }
}

/// Tells the guest that the data path is synthetic again due to some external
/// state change. The message is dropped if the ring is full.
pub fn guest_vf_data_path_switched_to_synthetic(out: &mut Outbox)
    ensures
        final(out)@ == old(out)@.sent_if_fits(switched_to_synthetic()),
{
    let a: [u32; 1] = [DATA_PATH_SYNTHETIC];
    assert(a@ =~= seq![DATA_PATH_SYNTHETIC]);
    let m = message(0, MESSAGE4_TYPE_SWITCH_DATA_PATH, fields(&a));
    let p = OutgoingPacket {
        transaction_id: SWITCH_DATA_PATH_TRANSACTION_ID,
        packet_type: OutgoingPacketType::InBandWithCompletion,
        payload: m.payload(),
    };
    assert(p@ == switched_to_synthetic());
    let _ = out.try_write(p);
}

/// How many steps a state is away from one that needs no message.
pub open spec fn steps_left(state: PrimaryChannelGuestVfState) -> nat {
    match state {
        PrimaryChannelGuestVfState::UnavailableFromDataPathSwitchPending { .. } => 3,
        PrimaryChannelGuestVfState::UnavailableFromDataPathSwitched => 2,
        PrimaryChannelGuestVfState::UnavailableFromAvailable => 1,
        PrimaryChannelGuestVfState::DataPathSwitchPending { .. } => 2,
        PrimaryChannelGuestVfState::DataPathSynthetic => 1,
        _ => 0,
    }
}

/// Where one message to the guest leads to: the outbox and the next state, or
/// `None` if a message that has to be sent does not fit.
pub open spec fn state_change_step(
    n: Negotiated,
    rndis_state: RndisState,
    o: OutboxView,
    state: PrimaryChannelGuestVfState,
) -> (OutboxView, Option<PrimaryChannelGuestVfState>) {
    match state {
        PrimaryChannelGuestVfState::UnavailableFromAvailable => if rndis_state
            == RndisState::Operational && n.wants_vf() {
            // The VF has already been surprise removed.
            (
                o.sent_if_fits(n.vf_association(None)),
                if o.fits(n.vf_association(None)) {
                    Some(PrimaryChannelGuestVfState::Unavailable)
                } else {
                    None
                },
            )
        } else {
            (o, Some(PrimaryChannelGuestVfState::Unavailable))
        },
        PrimaryChannelGuestVfState::UnavailableFromDataPathSwitchPending { to_guest, id } => (
            completed(o, id, Seq::empty()),
            if !can_complete(o, id, Seq::empty()) {
                None
            } else if to_guest {
                Some(PrimaryChannelGuestVfState::UnavailableFromDataPathSwitched)
            } else {
                Some(PrimaryChannelGuestVfState::UnavailableFromAvailable)
            },
        ),
        PrimaryChannelGuestVfState::UnavailableFromDataPathSwitched => (
            o.sent_if_fits(switched_to_synthetic()),
            Some(PrimaryChannelGuestVfState::UnavailableFromAvailable),
        ),
        PrimaryChannelGuestVfState::DataPathSynthetic => (
            o.sent_if_fits(switched_to_synthetic()),
            Some(PrimaryChannelGuestVfState::Ready),
        ),
        PrimaryChannelGuestVfState::DataPathSwitchPending { to_guest, id, result } => (
            completed(o, id, Seq::empty()),
            if !can_complete(o, id, Seq::empty()) {
                None
            } else if result == Some(true) {
                if to_guest {
                    Some(PrimaryChannelGuestVfState::DataPathSwitched)
                } else {
                    Some(PrimaryChannelGuestVfState::Ready)
                }
            } else if to_guest {
                Some(PrimaryChannelGuestVfState::DataPathSynthetic)
            } else {
                Some(PrimaryChannelGuestVfState::DataPathSwitched)
            },
        ),
        _ => (o, Some(state)),
    }
}

/// Where all messages that a state calls for lead to: the outbox, the state, and
/// whether all of them could be sent.
pub open spec fn state_change_settled(
    n: Negotiated,
    rndis_state: RndisState,
    o: OutboxView,
    state: PrimaryChannelGuestVfState,
) -> (OutboxView, PrimaryChannelGuestVfState, bool)
    decreases steps_left(state),
{
    if steps_left(state) == 0 {
        (o, state, true)
    } else {
        let step = state_change_step(n, rndis_state, o, state);
        match step.1 {
            Some(next) if steps_left(next) < steps_left(state) => state_change_settled(
                n,
                rndis_state,
                step.0,
                next,
            ),
            _ => (step.0, state, false),
        }
    }
}

/// What [`handle_state_change`] does: the outbox, the next state and the result.
pub open spec fn state_change(
    n: Negotiated,
    rndis_state: RndisState,
    o: OutboxView,
    state: PrimaryChannelGuestVfState,
) -> (OutboxView, PrimaryChannelGuestVfState, Result<Option<CoordinatorMessage>, WorkerError>) {
    match state {
        PrimaryChannelGuestVfState::Available { vfid } => {
            // A VF capability has recently arrived.
            if rndis_state != RndisState::Operational || !n.wants_vf() {
                (o, state, Ok(None))
            } else if o.fits(n.vf_association(Some(vfid))) {
                (
                    o.sent(n.vf_association(Some(vfid))),
                    PrimaryChannelGuestVfState::AvailableAdvertised,
                    Ok(Some(CoordinatorMessage::UpdateGuestVfState)),
                )
            } else {
                (o, state, Err(WorkerError::OutOfSpace))
            }
        },
        _ => {
            let settled = state_change_settled(n, rndis_state, o, state);
            (
                settled.0,
                settled.1,
                if settled.2 {
                    Ok(None)
                } else {
                    Err(WorkerError::OutOfSpace)
                },
            )
        },
    }
}

/// Sends the messages that a change of the VF state calls for.
pub fn handle_state_change(
    out: &mut Outbox,
    n: &Negotiated,
    rndis_state: RndisState,
    guest_vf_state: &mut PrimaryChannelGuestVfState,
) -> (r: Result<Option<CoordinatorMessage>, WorkerError>)
    requires
        n.packet_size <= PACKET_SIZE_V61,
        old(guest_vf_state).is_settled(),
    ensures
        (final(out)@, *final(guest_vf_state), r) == state_change(
            *n,
            rndis_state,
            old(out)@,
            *old(guest_vf_state),
        ),
{
    if let PrimaryChannelGuestVfState::Available { vfid } = *guest_vf_state {
        if let RndisState::Operational = rndis_state {
            match guest_vf_is_available(out, n, Some(vfid)) {
                Ok(true) => {
                    *guest_vf_state = PrimaryChannelGuestVfState::AvailableAdvertised;
                    return Ok(Some(CoordinatorMessage::UpdateGuestVfState));
                },
                Ok(false) => {},
                Err(err) => return Err(err),
            }
        }
        return Ok(None);
    }
    loop
        invariant
            n.packet_size <= PACKET_SIZE_V61,
            guest_vf_state.is_settled(),
            !(*old(guest_vf_state) is Available),
            state_change_settled(*n, rndis_state, old(out)@, *old(guest_vf_state))
                == state_change_settled(*n, rndis_state, out@, *guest_vf_state),
        decreases steps_left(*guest_vf_state),
    {
        let next = match *guest_vf_state {
            PrimaryChannelGuestVfState::UnavailableFromAvailable => {
                if let RndisState::Operational = rndis_state {
                    match guest_vf_is_available(out, n, None) {
                        Ok(_) => {},
                        Err(err) => return Err(err),
                    }
                }
                PrimaryChannelGuestVfState::Unavailable
            },
            PrimaryChannelGuestVfState::UnavailableFromDataPathSwitchPending { to_guest, id } => {
                let empty: Vec<u8> = Vec::new();
                assert(empty@ =~= Seq::<u8>::empty());
                match send_completion(out, id, empty) {
                    Ok(()) => {},
                    Err(err) => return Err(err),
                }
                if to_guest {
                    PrimaryChannelGuestVfState::UnavailableFromDataPathSwitched
                } else {
                    PrimaryChannelGuestVfState::UnavailableFromAvailable
                }
            },
            PrimaryChannelGuestVfState::UnavailableFromDataPathSwitched => {
                guest_vf_data_path_switched_to_synthetic(out);
                PrimaryChannelGuestVfState::UnavailableFromAvailable
            },
            PrimaryChannelGuestVfState::DataPathSynthetic => {
                guest_vf_data_path_switched_to_synthetic(out);
                PrimaryChannelGuestVfState::Ready
            },
            PrimaryChannelGuestVfState::DataPathSwitchPending { to_guest, id, result } => {
                let empty: Vec<u8> = Vec::new();
                assert(empty@ =~= Seq::<u8>::empty());
                match send_completion(out, id, empty) {
                    Ok(()) => {},
                    Err(err) => return Err(err),
                }
                if let Some(true) = result {
                    if to_guest {
                        PrimaryChannelGuestVfState::DataPathSwitched
                    } else {
                        PrimaryChannelGuestVfState::Ready
                    }
                } else {
                    if to_guest {
                        PrimaryChannelGuestVfState::DataPathSynthetic
                    } else {
                        PrimaryChannelGuestVfState::DataPathSwitched
                    }
                }
            },
            _ => return Ok(None),
        };
        *guest_vf_state = next;
    }
}

/// Whether the worker has to send messages because of the VF state.
pub fn needs_state_change(state: PrimaryChannelGuestVfState) -> (b: bool)
    ensures
        b == (state is Available || steps_left(state) > 0),
{
    match state {
        PrimaryChannelGuestVfState::Available { .. }
        | PrimaryChannelGuestVfState::UnavailableFromAvailable
        | PrimaryChannelGuestVfState::UnavailableFromDataPathSwitchPending { .. }
        | PrimaryChannelGuestVfState::UnavailableFromDataPathSwitched
        | PrimaryChannelGuestVfState::DataPathSwitchPending { .. }
        | PrimaryChannelGuestVfState::DataPathSynthetic => true,
        _ => false,
    }
}

/// Whether a request of the guest to use the VF, or to stop using it, is carried
/// out; otherwise it is only completed.
pub open spec fn switch_is_queued(
    state: PrimaryChannelGuestVfState,
    is_data_path_switched: Option<bool>,
    use_guest_vf: bool,
) -> bool {
    match state {
        // Allow the guest to switch to the VF, or if the current data path is
        // unknown, to switch away from it: the data path may have been switched
        // before the synthetic device was restarted.
        PrimaryChannelGuestVfState::AvailableAdvertised | PrimaryChannelGuestVfState::Ready =>
            use_guest_vf || is_data_path_switched is None,
        PrimaryChannelGuestVfState::DataPathSwitched => !use_guest_vf,
        _ => false,
    }
}

/// What a request of the guest to switch the data path leads to: the outbox, the VF state,
/// what the coordinator has to do, and the result.
pub open spec fn switch_handled(
    o: OutboxView,
    state: PrimaryChannelGuestVfState,
    is_data_path_switched: Option<bool>,
    restart: Option<CoordinatorMessage>,
    use_guest_vf: bool,
    transaction_id: Option<u64>,
) -> (
    OutboxView,
    PrimaryChannelGuestVfState,
    Option<CoordinatorMessage>,
    Result<(), WorkerError>,
) {
    if switch_is_queued(state, is_data_path_switched, use_guest_vf) {
        (
            o,
            PrimaryChannelGuestVfState::DataPathSwitchPending {
                to_guest: use_guest_vf,
                id: transaction_id,
                result: None,
            },
            if restart is None {
                Some(CoordinatorMessage::UpdateGuestVfState)
            } else {
                restart
            },
            Ok(()),
        )
    } else {
        (
            completed(o, transaction_id, Seq::empty()),
            state,
            restart,
            if can_complete(o, transaction_id, Seq::empty()) {
                Ok(())
            } else {
                Err(WorkerError::OutOfSpace)
            },
        )
    }
}

/// Handles a request of the guest to switch the data path. A request that has to
/// be carried out is handed to the coordinator, by way of `restart`; any other
/// is completed at once.
pub fn switch_data_path(
    out: &mut Outbox,
    guest_vf_state: &mut PrimaryChannelGuestVfState,
    is_data_path_switched: Option<bool>,
    restart: &mut Option<CoordinatorMessage>,
    use_guest_vf: bool,
    transaction_id: Option<u64>,
) -> (r: Result<(), WorkerError>)
    ensures
        (final(out)@, *final(guest_vf_state), *final(restart), r) == switch_handled(
            old(out)@,
            *old(guest_vf_state),
            is_data_path_switched,
            *old(restart),
            use_guest_vf,
            transaction_id,
        ),
        switch_is_queued(*old(guest_vf_state), is_data_path_switched, use_guest_vf) ==> {
            &&& r is Ok
            &&& final(out)@ == old(out)@
            &&& *final(guest_vf_state) == PrimaryChannelGuestVfState::DataPathSwitchPending {
                to_guest: use_guest_vf,
                id: transaction_id,
                result: None,
            }
            &&& *final(restart) == if *old(restart) is None {
                Some(CoordinatorMessage::UpdateGuestVfState)
            } else {
                *old(restart)
            }
        },
        !switch_is_queued(*old(guest_vf_state), is_data_path_switched, use_guest_vf) ==> {
            &&& *final(guest_vf_state) == *old(guest_vf_state)
            &&& *final(restart) == *old(restart)
            &&& final(out)@ == completed(old(out)@, transaction_id, Seq::empty())
            &&& r == if can_complete(old(out)@, transaction_id, Seq::empty()) {
                Ok::<(), WorkerError>(())
            } else {
                Err::<(), WorkerError>(WorkerError::OutOfSpace)
            }
        },
{
    let queue_switch_operation = match *guest_vf_state {
        PrimaryChannelGuestVfState::AvailableAdvertised | PrimaryChannelGuestVfState::Ready =>
            use_guest_vf || is_data_path_switched.is_none(),
        PrimaryChannelGuestVfState::DataPathSwitched => !use_guest_vf,
        _ => false,
    };
    if queue_switch_operation {
        *guest_vf_state = PrimaryChannelGuestVfState::DataPathSwitchPending {
            to_guest: use_guest_vf,
            id: transaction_id,
            result: None,
        };
        // A restart also tries to switch the data path.
        if restart.is_none() {
            *restart = Some(CoordinatorMessage::UpdateGuestVfState);
        }
        Ok(())
    } else {
        let empty: Vec<u8> = Vec::new();
        assert(empty@ =~= Seq::<u8>::empty());
        send_completion(out, transaction_id, empty)
    }
}

/// Once the coordinator has looked at the VF, a worker can act on the state.
pub proof fn restored_state_is_settled(
    c: VfCoordination,
    guest_vf_id: Option<u32>,
    data_path_set: bool,
)
    ensures
        restored(c, guest_vf_id, data_path_set).guest_vf_state.is_settled(),
{
}

/// A state that is saved and restored is saved as the same state again.
pub proof fn save_after_restore_is_unchanged(state: PrimaryChannelGuestVfState)
    ensures
        PrimaryChannelGuestVfState::Restoring(state.spec_saved()).spec_saved()
            == state.spec_saved(),
{
}

/// Without a VF, the guest ends up without one: no state that the coordinator
/// leaves, followed by the messages that it calls for, has the guest use a VF.
pub proof fn removed_vf_is_not_used(
    n: Negotiated,
    rndis_state: RndisState,
    o: OutboxView,
    c: VfCoordination,
    data_path_set: bool,
)
    requires
        n.packet_size <= PACKET_SIZE_V61,
        o.free >= MIN_STATE_CHANGE_RING_SIZE,
    ensures
        ({
            let next = restored(c, None, data_path_set);
            &&& next.is_data_path_switched == Some(true) ==> c.is_data_path_switched == Some(true)
            &&& state_change(n, rndis_state, o, next.guest_vf_state).1
                == PrimaryChannelGuestVfState::Unavailable
        }),
{
    reveal_with_fuel(state_change_settled, 5);
    assert(ring_size(n.vf_association(None)) <= 64);
    assert(ring_size(switched_to_synthetic()) == 32);
    assert(forall|id: u64| #[trigger] ring_size(completion(id, Seq::empty())) == 24);
}

/// The ring space that is made sure of before a state change is enough for all
/// of its messages, which leave a state that needs no further ones.
pub proof fn state_change_fits(
    n: Negotiated,
    rndis_state: RndisState,
    o: OutboxView,
    state: PrimaryChannelGuestVfState,
)
    requires
        n.packet_size <= PACKET_SIZE_V61,
        o.free >= MIN_STATE_CHANGE_RING_SIZE,
        state.is_settled(),
    ensures
        state_change(n, rndis_state, o, state).2 is Ok,
        steps_left(state_change(n, rndis_state, o, state).1) == 0,
{
    reveal_with_fuel(state_change_settled, 5);
    assert(ring_size(n.vf_association(None)) <= 64);
    if state is Available {
        assert(ring_size(n.vf_association(Some(state->Available_vfid))) <= 64);
    }
    assert(ring_size(switched_to_synthetic()) == 32);
    assert(forall|id: u64| #[trigger] ring_size(completion(id, Seq::empty())) == 24);
}

/// Whether packets travel through the VF, as far as the state of a VF that the guest has
/// says so. While the guest does not use it, an earlier instance of the adapter may have
/// left the path either way; then it is not known.
pub open spec fn path_in_use(
    state: PrimaryChannelGuestVfState,
    is_data_path_switched: Option<bool>,
) -> Option<bool> {
    if state is DataPathSwitched {
        Some(true)
    } else if is_data_path_switched is Some {
        Some(false)
    } else {
        None
    }
}

/// A request of a guest that has the VF is carried out exactly if its target is not known
/// to be the path in use: then the transaction waits for the switch, the coordinator is asked
/// to act and nothing is sent. A request whose target is in use already is completed at once
/// and changes nothing, and so is any request without a VF, or while a switch is under way.
pub proof fn switch_request_reaches_target(
    o: OutboxView,
    state: PrimaryChannelGuestVfState,
    is_data_path_switched: Option<bool>,
    restart: Option<CoordinatorMessage>,
    use_guest_vf: bool,
    transaction_id: Option<u64>,
)
    ensures
        ({
            let (out, next, message, r) = switch_handled(
                o,
                state,
                is_data_path_switched,
                restart,
                use_guest_vf,
                transaction_id,
            );
            let has_vf = state is AvailableAdvertised || state is Ready || state is DataPathSwitched;
            if has_vf && path_in_use(state, is_data_path_switched) != Some(use_guest_vf) {
                &&& r is Ok
                &&& out == o
                &&& next == PrimaryChannelGuestVfState::DataPathSwitchPending {
                    to_guest: use_guest_vf,
                    id: transaction_id,
                    result: None,
                }
                &&& message is Some
                &&& restart is Some ==> message == restart
                &&& restart is None ==> message == Some(CoordinatorMessage::UpdateGuestVfState)
            } else {
                &&& next == state
                &&& message == restart
                &&& transaction_id is None ==> r is Ok && out == o
                &&& transaction_id is Some && o.free >= 24 ==> r is Ok && out.log == o.log.push(
                    crate::netvsp::outbox::EffectView::Send(
                        PacketView {
                            transaction_id: transaction_id->0,
                            packet_type: PacketTypeView::Completion,
                            payload: Seq::empty(),
                        },
                    ),
                )
                &&& transaction_id is Some && o.free < 24 ==> r == Err::<(), WorkerError>(
                    WorkerError::OutOfSpace,
                ) && out == o
            }
        }),
{
}

/// A guest that uses the VF and asks to leave it is not told that this was done before it
/// was: the request waits, whatever is known of the data path.
pub proof fn leaving_the_vf_is_carried_out(
    o: OutboxView,
    is_data_path_switched: Option<bool>,
    restart: Option<CoordinatorMessage>,
    transaction_id: Option<u64>,
)
    ensures
        ({
            let (out, next, message, r) = switch_handled(
                o,
                PrimaryChannelGuestVfState::DataPathSwitched,
                is_data_path_switched,
                restart,
                false,
                transaction_id,
            );
            &&& r is Ok
            &&& out == o
            &&& next == PrimaryChannelGuestVfState::DataPathSwitchPending {
                to_guest: false,
                id: transaction_id,
                result: None,
            }
            &&& message is Some
            &&& data_path_to_set(next, Some(0)) == Some(false)
        }),
{
}

/// A switch that the guest waits for is tried with its own target while the VF is there.
/// How that went is kept, the transaction is completed, and the state that follows is the
/// target if it worked and the other path if not.
pub proof fn requested_switch_is_carried_out(
    n: Negotiated,
    rndis_state: RndisState,
    o: OutboxView,
    c: VfCoordination,
    vfid: u32,
    to_guest: bool,
    id: Option<u64>,
    data_path_set: bool,
)
    requires
        c.guest_vf_state == (PrimaryChannelGuestVfState::DataPathSwitchPending {
            to_guest,
            id,
            result: None,
        }) || c.guest_vf_state
            == (PrimaryChannelGuestVfState::UnavailableFromDataPathSwitchPending { to_guest, id })
            || c.guest_vf_state == PrimaryChannelGuestVfState::Restoring(
            GuestVfState::DataPathSwitchPending { to_guest, id, result: None },
        ),
        o.free >= MIN_STATE_CHANGE_RING_SIZE,
    ensures
        data_path_to_set(c.guest_vf_state, Some(vfid)) == Some(to_guest),
        ({
            let next = restored(c, Some(vfid), data_path_set);
            let (out, state, r) = state_change(n, rndis_state, o, next.guest_vf_state);
            &&& next.guest_vf_state == PrimaryChannelGuestVfState::DataPathSwitchPending {
                to_guest,
                id,
                result: Some(data_path_set),
            }
            &&& next.pending_vf_state == PendingVfState::Pending
            &&& next.is_data_path_switched == if data_path_set {
                Some(to_guest)
            } else {
                c.is_data_path_switched
            }
            &&& r == Ok::<Option<CoordinatorMessage>, WorkerError>(None)
            &&& state == if to_guest == data_path_set {
                PrimaryChannelGuestVfState::DataPathSwitched
            } else {
                PrimaryChannelGuestVfState::Ready
            }
            &&& id is Some ==> out.log.len() > o.log.len() && out.log[o.log.len() as int]
                == crate::netvsp::outbox::EffectView::Send(completion(id->0, Seq::empty()))
            &&& out.log.take(o.log.len() as int) == o.log
            &&& to_guest && !data_path_set ==> out.log.last()
                == crate::netvsp::outbox::EffectView::Send(switched_to_synthetic())
        }),
{
    reveal_with_fuel(state_change_settled, 5);
    assert(ring_size(switched_to_synthetic()) == 32);
    assert(forall|id: u64| #[trigger] ring_size(completion(id, Seq::empty())) == 24);
    let next = restored(c, Some(vfid), data_path_set);
    let (out, state, r) = state_change(n, rndis_state, o, next.guest_vf_state);
    assert(out.log.take(o.log.len() as int) =~= o.log);
}

/// A VF that arrives is taken up where the guest stands: a guest that knows of none gets to
/// know of it, one that was told before is offered the device after a delay, and one that
/// used the VF uses it again if the data path can be set. A VF that a guest has is kept.
pub proof fn arrived_vf_is_taken_up(c: VfCoordination, vfid: u32, data_path_set: bool)
    ensures
        ({
            let s = c.guest_vf_state;
            let next = restored(c, Some(vfid), data_path_set);
            let path = data_path_to_set(s, Some(vfid));
            &&& s is Initializing || s is Unavailable || s == PrimaryChannelGuestVfState::Restoring(
                GuestVfState::NoState,
            ) ==> next.guest_vf_state == (PrimaryChannelGuestVfState::Available { vfid })
                && next.pending_vf_state == c.pending_vf_state && path is None
            &&& s is AvailableAdvertised || s == PrimaryChannelGuestVfState::Restoring(
                GuestVfState::AvailableAdvertised,
            ) ==> path is None && if c.is_data_path_switched == Some(true) {
                next.guest_vf_state is DataPathSwitched && next.pending_vf_state
                    == c.pending_vf_state
            } else {
                next.guest_vf_state is AvailableAdvertised && next.pending_vf_state
                    == PendingVfState::Delay
            }
            &&& s is Ready || s == PrimaryChannelGuestVfState::Restoring(GuestVfState::Ready)
                ==> path is None && next.guest_vf_state is Ready && next.pending_vf_state
                == PendingVfState::Pending
            &&& s is DataPathSwitched || s == PrimaryChannelGuestVfState::Restoring(
                GuestVfState::DataPathSwitched,
            ) ==> path is None && next.guest_vf_state is DataPathSwitched && next.pending_vf_state
                == PendingVfState::Pending
            &&& s is UnavailableFromDataPathSwitched || s is DataPathSynthetic ==> path == Some(
                true,
            ) && next.pending_vf_state == PendingVfState::Pending && next.guest_vf_state
                == if data_path_set {
                PrimaryChannelGuestVfState::DataPathSwitched
            } else {
                PrimaryChannelGuestVfState::DataPathSynthetic
            }
            &&& s is Available || s is UnavailableFromAvailable ==> path is None
                && next.guest_vf_state == s && next.pending_vf_state == c.pending_vf_state
            &&& path is None ==> next.is_data_path_switched == c.is_data_path_switched
            &&& path is Some && data_path_set ==> next.is_data_path_switched == path
            &&& path is Some && !data_path_set ==> next.is_data_path_switched
                == c.is_data_path_switched
        }),
{
}

/// When the VF goes, packets go through the synthetic adapter again: the data path is set to
/// it if the guest used the VF, and it is remembered what the guest still has to be told.
pub proof fn removed_vf_is_remembered(c: VfCoordination, data_path_set: bool)
    ensures
        ({
            let s = c.guest_vf_state;
            let next = restored(c, None, data_path_set);
            let path = data_path_to_set(s, None);
            &&& path != Some(true)
            &&& path is Some ==> next.is_data_path_switched == Some(false)
            &&& path is None ==> next.is_data_path_switched == c.is_data_path_switched
            &&& s is DataPathSwitched || s == PrimaryChannelGuestVfState::Restoring(
                GuestVfState::DataPathSwitched,
            ) ==> path == Some(false) && next.guest_vf_state is UnavailableFromDataPathSwitched
            &&& s is DataPathSynthetic ==> next.guest_vf_state is UnavailableFromDataPathSwitched
            &&& s is Ready || s is AvailableAdvertised || s
                == PrimaryChannelGuestVfState::Restoring(GuestVfState::Ready) || s
                == PrimaryChannelGuestVfState::Restoring(GuestVfState::AvailableAdvertised)
                ==> path is None && next.guest_vf_state is UnavailableFromAvailable
            &&& s is Initializing || s is Available || s is Unavailable || s
                == PrimaryChannelGuestVfState::Restoring(GuestVfState::NoState) ==> path is None
                && next.guest_vf_state is Unavailable
            &&& s matches PrimaryChannelGuestVfState::DataPathSwitchPending { to_guest, id, .. }
                ==> (path == Some(false)) == !to_guest && next.guest_vf_state
                == (PrimaryChannelGuestVfState::UnavailableFromDataPathSwitchPending {
                to_guest,
                id,
            })
            &&& s matches PrimaryChannelGuestVfState::Restoring(
                GuestVfState::DataPathSwitchPending { to_guest, id, .. },
            ) ==> (path == Some(false)) == !to_guest && next.guest_vf_state
                == (PrimaryChannelGuestVfState::UnavailableFromDataPathSwitchPending {
                to_guest,
                id,
            })
            &&& next.pending_vf_state == if s is AvailableAdvertised {
                PendingVfState::Ready
            } else {
                c.pending_vf_state
            }
        }),
{
}

/// A switch that was tried before the save is not tried again: its outcome is what the guest
/// is told.
pub proof fn tried_switch_is_not_repeated(
    c: VfCoordination,
    vfid: u32,
    to_guest: bool,
    id: Option<u64>,
    result: bool,
    data_path_set: bool,
)
    requires
        c.guest_vf_state == PrimaryChannelGuestVfState::Restoring(
            GuestVfState::DataPathSwitchPending { to_guest, id, result: Some(result) },
        ),
    ensures
        data_path_to_set(c.guest_vf_state, Some(vfid)) is None,
        restored(c, Some(vfid), data_path_set).guest_vf_state
            == (PrimaryChannelGuestVfState::DataPathSwitchPending {
            to_guest,
            id,
            result: Some(result),
        }),
        restored(c, Some(vfid), data_path_set).is_data_path_switched == c.is_data_path_switched,
{
}

/// A guest that negotiated virtual functions is told of a new one, by its serial number, and
/// the coordinator goes on. A guest that did not, or whose RNDIS is not up, is told nothing.
pub proof fn new_vf_is_announced(
    n: Negotiated,
    rndis_state: RndisState,
    o: OutboxView,
    vfid: u32,
)
    requires
        n.packet_size <= PACKET_SIZE_V61,
        o.free >= MIN_STATE_CHANGE_RING_SIZE,
    ensures
        ({
            let s = PrimaryChannelGuestVfState::Available { vfid };
            let (out, next, r) = state_change(n, rndis_state, o, s);
            let sriov = (n.ndis_config.capabilities / 4) % 2 == 1 && n.version != Version::V1
                && n.version != Version::V2;
            if sriov && rndis_state == RndisState::Operational {
                &&& next is AvailableAdvertised
                &&& r == Ok::<Option<CoordinatorMessage>, WorkerError>(
                    Some(CoordinatorMessage::UpdateGuestVfState),
                )
                &&& out.log.len() == o.log.len() + 1
                &&& out.log.drop_last() == o.log
                &&& out.log.last() is Send
                &&& ({
                    let p = out.log.last()->Send_0;
                    &&& p.packet_type is InBandWithCompletion
                    &&& crate::wire::u32_at(p.payload, 0) == 128
                    &&& crate::wire::u32_at(p.payload, 4) == 1
                    &&& crate::wire::u32_at(p.payload, 8) == n.serial_number(vfid)
                })
            } else {
                &&& next == s
                &&& r == Ok::<Option<CoordinatorMessage>, WorkerError>(None)
                &&& out == o
            }
        }),
{
    let xs = seq![1u32, n.serial_number(vfid)];
    crate::netvsp::protocol::message_is_read_back(
        n.packet_size as int,
        MESSAGE4_TYPE_SEND_VF_ASSOCIATION,
        xs,
        0,
    );
    crate::netvsp::protocol::message_is_read_back(
        n.packet_size as int,
        MESSAGE4_TYPE_SEND_VF_ASSOCIATION,
        xs,
        1,
    );
    assert(ring_size(n.vf_association(Some(vfid))) <= 64);
    let (out, next, r) = state_change(
        n,
        rndis_state,
        o,
        PrimaryChannelGuestVfState::Available { vfid },
    );
    if out.log.len() == o.log.len() + 1 {
        assert(out.log.drop_last() =~= o.log);
    }
}

/// A guest that knows of the VF is told that it is gone: after the messages that a removed
/// VF calls for, the last one withdraws it, and a guest that used the VF is told before that
/// the data path is synthetic again.
pub proof fn removed_vf_is_withdrawn(
    n: Negotiated,
    rndis_state: RndisState,
    o: OutboxView,
    state: PrimaryChannelGuestVfState,
)
    requires
        n.packet_size <= PACKET_SIZE_V61,
        o.free >= MIN_STATE_CHANGE_RING_SIZE,
        n.wants_vf(),
        rndis_state == RndisState::Operational,
        state is UnavailableFromAvailable || state is UnavailableFromDataPathSwitched
            || state is UnavailableFromDataPathSwitchPending,
    ensures
        ({
            let (out, next, r) = state_change(n, rndis_state, o, state);
            let p = out.log.last()->Send_0;
            let m = out.log[out.log.len() - 2];
            &&& next is Unavailable
            &&& r == Ok::<Option<CoordinatorMessage>, WorkerError>(None)
            &&& out.log.len() > o.log.len()
            &&& out.log.last() is Send
            &&& crate::wire::u32_at(p.payload, 0) == 128
            &&& crate::wire::u32_at(p.payload, 4) == 0
            &&& crate::wire::u32_at(p.payload, 8) == 0
            &&& state is UnavailableFromDataPathSwitched || (state matches
                PrimaryChannelGuestVfState::UnavailableFromDataPathSwitchPending { to_guest, .. }
                && to_guest) ==> out.log.len() >= o.log.len() + 2 && m is Send
                && crate::wire::u32_at(m->Send_0.payload, 0) == 129 && crate::wire::u32_at(
                m->Send_0.payload,
                4,
            ) == 0
        }),
{
    reveal_with_fuel(state_change_settled, 5);
    crate::netvsp::protocol::message_is_read_back(
        n.packet_size as int,
        MESSAGE4_TYPE_SEND_VF_ASSOCIATION,
        seq![0u32, 0u32],
        0,
    );
    crate::netvsp::protocol::message_is_read_back(
        n.packet_size as int,
        MESSAGE4_TYPE_SEND_VF_ASSOCIATION,
        seq![0u32, 0u32],
        1,
    );
    crate::netvsp::protocol::message_is_read_back(
        0,
        MESSAGE4_TYPE_SWITCH_DATA_PATH,
        seq![DATA_PATH_SYNTHETIC],
        0,
    );
    assert(ring_size(n.vf_association(None)) <= 64);
    assert(ring_size(switched_to_synthetic()) == 32);
    assert(forall|id: u64| #[trigger] ring_size(completion(id, Seq::empty())) == 24);
}

/// What is saved says where the guest stands with the VF: a guest that used it, asked for a
/// switch, has it, or was told of it is restored as such, and any other one as a guest that
/// knows of none.
pub proof fn saved_state_tells_where_guest_stands(s: PrimaryChannelGuestVfState)
    ensures
        !(s is Restoring) ==> {
            &&& (s.spec_saved() is DataPathSwitched) == (s is DataPathSwitched
                || s is DataPathSynthetic || s is UnavailableFromDataPathSwitched)
            &&& (s.spec_saved() is Ready) == (s is Ready)
            &&& (s.spec_saved() is AvailableAdvertised) == (s is AvailableAdvertised
                || s is UnavailableFromAvailable)
            &&& (s.spec_saved() is DataPathSwitchPending) == (s is DataPathSwitchPending
                || s is UnavailableFromDataPathSwitchPending)
            &&& (s.spec_saved() is NoState) == (s is Initializing || s is Unavailable
                || s is Available)
        },
        s matches PrimaryChannelGuestVfState::DataPathSwitchPending { to_guest, id, result }
            ==> s.spec_saved() == (GuestVfState::DataPathSwitchPending { to_guest, id, result }),
        s matches PrimaryChannelGuestVfState::UnavailableFromDataPathSwitchPending {
            to_guest,
            id,
        } ==> s.spec_saved() == (GuestVfState::DataPathSwitchPending {
            to_guest,
            id,
            result: None,
        }),
        s matches PrimaryChannelGuestVfState::Restoring(saved) ==> s.spec_saved() == saved,
{
}

/// The guest is told of a VF by a serial number: Windows knows it by the index of the adapter,
/// and other guests by the ID of the VF. A VF that is gone is told with zeros.
pub proof fn vf_is_told_by_serial_number(n: Negotiated, vfid: u32)
    ensures
        ({
            let there = n.vf_association(Some(vfid));
            let gone = n.vf_association(None);
            &&& there.packet_type is InBandWithCompletion && gone.packet_type is InBandWithCompletion
            &&& there.transaction_id == 0x8000_0000_0000_0000 && gone.transaction_id
                == 0x8000_0000_0000_0000
            &&& crate::wire::u32_at(there.payload, 0) == 128
            &&& crate::wire::u32_at(there.payload, 4) == 1
            &&& n.adapter.is_windows() ==> crate::wire::u32_at(there.payload, 8)
                == n.adapter.adapter_index
            &&& !n.adapter.is_windows() ==> crate::wire::u32_at(there.payload, 8) == vfid
            &&& crate::wire::u32_at(gone.payload, 0) == 128
            &&& crate::wire::u32_at(gone.payload, 4) == 0
            &&& crate::wire::u32_at(gone.payload, 8) == 0
        }),
        n.wants_vf() <==> (n.ndis_config.capabilities / 4) % 2 == 1 && n.version.number() >= 0x40000,
{
    let t = MESSAGE4_TYPE_SEND_VF_ASSOCIATION;
    let size = n.packet_size as int;
    let xs = seq![1u32, n.serial_number(vfid)];
    let ys = seq![0u32, 0u32];
    crate::netvsp::protocol::message_is_read_back(size, t, xs, 0);
    crate::netvsp::protocol::message_is_read_back(size, t, xs, 1);
    crate::netvsp::protocol::message_is_read_back(size, t, ys, 0);
    crate::netvsp::protocol::message_is_read_back(size, t, ys, 1);
}

/// A data path switch is shown with its target and how it stands.
pub proof fn switch_is_shown(id: Option<u64>)
    ensures
        ({
            let shown = |to_guest: bool, result: Option<bool>|
                (PrimaryChannelGuestVfState::DataPathSwitchPending { to_guest, id, result }).text();
            let restoring = |to_guest: bool, result: Option<bool>|
                PrimaryChannelGuestVfState::Restoring(
                    GuestVfState::DataPathSwitchPending { to_guest, id, result },
                ).text();
            let head = "restoring from client requested data path switch: to "@;
            &&& shown(true, None) == "\"switching to guest in progress\""@
            &&& shown(true, Some(true)) == "\"switching to guest succeeded\""@
            &&& shown(true, Some(false)) == "\"switching to guest failed\""@
            &&& shown(false, None) == "\"switching to synthetic in progress\""@
            &&& shown(false, Some(true)) == "\"switching to synthetic succeeded\""@
            &&& shown(false, Some(false)) == "\"switching to synthetic failed\""@
            &&& restoring(true, None) == head + "guest in progress\""@
            &&& restoring(false, Some(false)) == head + "synthetic failed\""@
        }),
{
    reveal_strlit("\"switching to ");
    reveal_strlit("guest");
    reveal_strlit("synthetic");
    reveal_strlit(" ");
    reveal_strlit("in progress\"");
    reveal_strlit("succeeded\"");
    reveal_strlit("failed\"");
    reveal_strlit("\"switching to guest in progress\"");
    reveal_strlit("\"switching to guest succeeded\"");
    reveal_strlit("\"switching to guest failed\"");
    reveal_strlit("\"switching to synthetic in progress\"");
    reveal_strlit("\"switching to synthetic succeeded\"");
    reveal_strlit("\"switching to synthetic failed\"");
    reveal_strlit("guest in progress\"");
    reveal_strlit("synthetic failed\"");
    let a = "\"switching to "@;
    let g = "guest"@;
    let s = "synthetic"@;
    let b = " "@;
    assert(a + g + b + "in progress\""@ =~= "\"switching to guest in progress\""@);
    assert(a + g + b + "succeeded\""@ =~= "\"switching to guest succeeded\""@);
    assert(a + g + b + "failed\""@ =~= "\"switching to guest failed\""@);
    assert(a + s + b + "in progress\""@ =~= "\"switching to synthetic in progress\""@);
    assert(a + s + b + "succeeded\""@ =~= "\"switching to synthetic succeeded\""@);
    assert(a + s + b + "failed\""@ =~= "\"switching to synthetic failed\""@);
    let head = "restoring from client requested data path switch: to "@;
    assert(head + g + b + "in progress\""@ =~= head + "guest in progress\""@);
    assert(head + s + b + "failed\""@ =~= head + "synthetic failed\""@);
}

/// A VF that is there is shown with its ID in decimal.
pub proof fn available_vf_is_shown(vfid: u32)
    ensures
        ({
            let t = (PrimaryChannelGuestVfState::Available { vfid }).text();
            let head = "available vfid: "@;
            &&& head.is_prefix_of(t)
            &&& crate::text::number(t.skip(head.len() as int), u32::MAX as nat) == Some(
                vfid as nat,
            )
        }),
{
    let head = "available vfid: "@;
    let t = head + decimal(vfid as nat);
    assert(t.skip(head.len() as int) =~= decimal(vfid as nat));
    assert(t.take(head.len() as int) =~= head);
    crate::text::decimal_is_read_back(vfid as nat, u32::MAX as nat);
}

} // verus!
