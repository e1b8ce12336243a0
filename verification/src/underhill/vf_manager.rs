//! The manager of a virtual function (VF) that VTL2 drives and may lend to VTL0.
use crate::text::{decimal, hex4, owned, push_decimal, push_hex4, str_eq};
use vstd::prelude::*;
use vstd::string::StringExecFns;

verus! {

/// The first delay before a device that was reconfigured is started again.
pub const RECONFIG_INITIAL_SLEEP_MS: u64 = 100;

/// The longest such delay.
pub const RECONFIG_MAX_SLEEP_MS: u64 = 2000;

/// How often that is tried: about ten minutes at the longest delay.
pub const RECONFIG_MAX_ATTEMPTS: u64 = 300;

/// The VF as VTL0 sees it.
#[derive(Debug, Clone, Copy, PartialEq, Eq, Structural)]
pub enum Vtl0Bus {
    /// There is none.
    NotPresent,
    /// There is one.
    Present {
        /// Its ID.
        vfid: u32,
    },
    /// There is none, and it would be hidden.
    HiddenNotPresent,
    /// There is one, but it is hidden.
    HiddenPresent {
        /// Its ID.
        vfid: u32,
    },
}

impl Vtl0Bus {
    /// The ID of a VF that VTL0 can see.
    pub open spec fn spec_vfid(self) -> Option<u32> {
        match self {
            Vtl0Bus::Present { vfid } => Some(vfid),
            _ => None,
        }
    }

    /// The text of the state.
    pub open spec fn text(self) -> Seq<char> {
        match self {
            Vtl0Bus::NotPresent => "NotPresent"@,
            Vtl0Bus::Present { vfid } => "Present(vtl0_vfid="@ + decimal(vfid as nat) + ")"@,
            Vtl0Bus::HiddenNotPresent => "HiddenNotPresent"@,
            Vtl0Bus::HiddenPresent { vfid } => "HiddenPresent(vtl0_vfid="@ + decimal(vfid as nat)
                + ")"@,
        }
    }

    /// The text of the state.
    pub fn describe(&self) -> (s: String)
        ensures
            s@ == self.text(),
    {
        match *self {
            Vtl0Bus::NotPresent => owned("NotPresent"),
            Vtl0Bus::Present { vfid } => {
                let mut s = owned("Present(vtl0_vfid=");
                push_decimal(&mut s, vfid as u64);
                s.append(")");
                s
            },
            Vtl0Bus::HiddenNotPresent => owned("HiddenNotPresent"),
            Vtl0Bus::HiddenPresent { vfid } => {
                let mut s = owned("HiddenPresent(vtl0_vfid=");
                push_decimal(&mut s, vfid as u64);
                s.append(")");
                s
            },
        }
    }
}

/// The ID of a VF that VTL0 can see.
pub fn vtl0_vfid_from_bus_control(bus: &Vtl0Bus) -> (r: Option<u32>)
    ensures
        r == bus.spec_vfid(),
{
    match *bus {
        Vtl0Bus::Present { vfid } => Some(vfid),
        _ => None,
    }
}

/// The device in VTL2.
#[derive(Debug, Clone, Copy, PartialEq, Eq, Structural)]
pub enum Vtl2DeviceState {
    /// It works.
    Present,
    /// It is gone.
    Missing,
    /// It is being reconfigured.
    Reconfiguring,
}

/// The attempts to start a device that was reconfigured.
#[derive(Debug, Clone, Copy, PartialEq, Eq, Structural)]
pub struct VfReconfigBackoff {
    /// The delay before the next attempt.
    pub sleep_ms: u64,
    /// The number of attempts so far.
    pub attempts: u64,
}

/// The state of the manager.
#[derive(Debug, Clone, Copy, PartialEq, Eq, Structural)]
pub struct VfManager {
    /// Whether it is shutting down.
    pub is_shutdown_active: bool,
    /// Whether the VF is offered to VTL0.
    pub offered_to_guest: bool,
    /// The VF that the network adapters know of.
    pub vtl0_vfid: Option<u32>,
    /// The VF as VTL0 sees it.
    pub vtl0_bus: Vtl0Bus,
    /// The device in VTL2.
    pub vtl2_device: Vtl2DeviceState,
    /// The attempts to start it again.
    pub backoff: Option<VfReconfigBackoff>,
    /// Whether the VF is hidden, for the saved state.
    pub hidden_vtl0: Option<bool>,
}

/// Something that the manager reacts to.
#[derive(Debug, Clone, Copy, PartialEq, Eq, Structural)]
pub enum VfEvent {
    /// A network adapter is ready for the VF.
    AddVtl0Vf,
    /// The VF was offered to VTL0, or that failed.
    OfferFinished {
        /// Whether it worked.
        ok: bool,
    },
    /// A network adapter is done with the VF.
    RemoveVtl0Vf,
    /// The VF came, or went.
    UpdateVtl0Vf {
        /// Its ID, if it came.
        vfid: Option<u32>,
    },
    /// The VF is to be hidden, or not.
    HideVtl0Vf {
        /// Whether to hide it.
        hide: bool,
    },
    /// The manager is to shut down.
    ShutdownBegin {
        /// Whether to take the VF from VTL0.
        remove_vtl0_vf: bool,
    },
    /// The shutdown is to end.
    ShutdownComplete {
        /// Whether the VF goes on working.
        keep_vf_alive: bool,
    },
    /// The state is to be saved, which ends a shutdown too.
    SaveState,
    /// The device asks to be reconfigured.
    VfReconfig,
    /// It is time to start the device again.
    VfReconfigRestart,
    /// An attempt to start the device again is over.
    RestartFinished {
        /// Whether it worked.
        ok: bool,
    },
    /// The device has arrived.
    DeviceArrived,
    /// An attempt to start a device that has arrived is over.
    ArrivalFinished {
        /// Whether it worked.
        ok: bool,
    },
    /// The device is about to be removed.
    DeviceRemoved,
    /// The manager is no longer needed.
    ExitWorker,
}

/// What has to be done.
#[derive(Debug, Clone, Copy, PartialEq, Eq, Structural)]
pub enum VfAction {
    /// Offer the VF to VTL0; then [`VfEvent::OfferFinished`].
    OfferDevice {
        /// Its ID.
        vfid: u32,
    },
    /// Take the VF from VTL0.
    RevokeDevice {
        /// Its ID.
        vfid: u32,
    },
    /// Tell the network adapters of the VF, without waiting for them.
    NotifyArrival,
    /// Tell the network adapters that the VF goes, and wait for them. If that
    /// fails, force the data path to VTL2, also in the saved state.
    NotifyRemoval,
    /// Disconnect the endpoints and shut the device down.
    ShutdownDevice {
        /// Whether the VF goes on working.
        keep_vf_alive: bool,
    },
    /// Disconnect the endpoints and save the device.
    SaveDevice,
    /// Wait until the system knows the device.
    WaitForPciPath,
    /// Start the device and connect the endpoints; then
    /// [`VfEvent::RestartFinished`] or [`VfEvent::ArrivalFinished`].
    StartDevice,
    /// Tell the host whether VTL2 drives the device.
    ReportBindState {
        /// Whether it does.
        is_bound: bool,
    },
    /// Send [`VfEvent::VfReconfigRestart`] after a delay.
    SetTimer {
        /// The delay.
        delay_ms: u64,
    },
    /// Stop.
    Exit,
}

impl VfManager {
    /// What holds between events: the network adapters know of a VF exactly if
    /// VTL0 can see it and the device works, only such a VF is offered, and
    /// attempts to start the device are only made while it is reconfigured.
    pub open spec fn wf(self) -> bool {
        &&& self.vtl2_device == Vtl2DeviceState::Present ==> self.vtl0_vfid
            == self.vtl0_bus.spec_vfid()
        &&& self.vtl2_device != Vtl2DeviceState::Present ==> self.vtl0_vfid is None
            && !self.offered_to_guest
        &&& self.offered_to_guest ==> self.vtl0_bus is Present
        &&& self.backoff matches Some(b) ==> self.vtl2_device == Vtl2DeviceState::Reconfiguring
            && b.attempts < RECONFIG_MAX_ATTEMPTS && RECONFIG_INITIAL_SLEEP_MS <= b.sleep_ms
            <= RECONFIG_MAX_SLEEP_MS
    }

    /// Whether the event can happen in this state.
    pub open spec fn expects(self, event: VfEvent) -> bool {
        match event {
            // The VF comes only if it is not there, and goes only if it is.
            VfEvent::UpdateVtl0Vf { vfid } => !self.is_shutdown_active ==> (vfid is Some) != (
            self.vtl0_bus is Present || self.vtl0_bus is HiddenPresent),
            VfEvent::ShutdownComplete { .. } => self.is_shutdown_active,
            VfEvent::SaveState => self.is_shutdown_active,
            VfEvent::DeviceArrived => !self.is_shutdown_active && self.vtl2_device
                == Vtl2DeviceState::Missing,
            VfEvent::ArrivalFinished { .. } => self.vtl2_device == Vtl2DeviceState::Missing,
            VfEvent::RestartFinished { .. } => self.backoff is Some,
            VfEvent::DeviceRemoved => !self.is_shutdown_active,
            VfEvent::OfferFinished { .. } => self.vtl0_bus is Present && self.vtl2_device
                == Vtl2DeviceState::Present,
            _ => true,
        }
    }

    /// The manager of a device that works, on a VF that VTL0 may see.
    pub fn new(vtl0_vfid: Option<u32>, hidden_vtl0: Option<bool>) -> (m: VfManager)
        ensures
            m.wf(),
            !m.is_shutdown_active,
            !m.offered_to_guest,
            m.vtl2_device == Vtl2DeviceState::Present,
            m.backoff is None,
            m.hidden_vtl0 == hidden_vtl0,
            m.vtl0_bus == match vtl0_vfid {
                Some(vfid) => if hidden_vtl0 == Some(true) {
                    Vtl0Bus::HiddenPresent { vfid }
                } else {
                    Vtl0Bus::Present { vfid }
                },
                None => if hidden_vtl0 == Some(true) {
                    Vtl0Bus::HiddenNotPresent
                } else {
                    Vtl0Bus::NotPresent
                },
            },
    {
        let hidden = match hidden_vtl0 {
            Some(hidden) => hidden,
            None => false,
        };
        let vtl0_bus = match vtl0_vfid {
            Some(vfid) => if hidden {
                Vtl0Bus::HiddenPresent { vfid }
            } else {
                Vtl0Bus::Present { vfid }
            },
            None => if hidden {
                Vtl0Bus::HiddenNotPresent
            } else {
                Vtl0Bus::NotPresent
            },
        };
        VfManager {
            is_shutdown_active: false,
            offered_to_guest: false,
            vtl0_vfid: vtl0_vfid_from_bus_control(&vtl0_bus),
            vtl0_bus,
            vtl2_device: Vtl2DeviceState::Present,
            backoff: None,
            hidden_vtl0,
        }
    }
}

/// The VF is taken from VTL0 without asking anybody.
pub open spec fn vf_removed(m: VfManager) -> (VfManager, Seq<VfAction>) {
    (
        VfManager { offered_to_guest: false, ..m },
        if m.offered_to_guest && m.vtl0_bus is Present {
            seq![VfAction::RevokeDevice { vfid: m.vtl0_bus->Present_vfid }]
        } else {
            Seq::empty()
        },
    )
}

/// The VF `vfid` is taken from VTL0 if it was offered, after the network adapters
/// had a chance to prepare.
pub open spec fn vf_revoked(m: VfManager, vfid: u32) -> (VfManager, Seq<VfAction>) {
    (
        VfManager { offered_to_guest: false, ..m },
        if m.offered_to_guest {
            seq![VfAction::NotifyRemoval, VfAction::RevokeDevice { vfid }]
        } else {
            Seq::empty()
        },
    )
}

/// The device works again.
pub open spec fn device_back(m: VfManager) -> (VfManager, Seq<VfAction>) {
    let m = VfManager { vtl2_device: Vtl2DeviceState::Present, backoff: None, ..m };
    if m.vtl0_bus is Present {
        (VfManager { vtl0_vfid: m.vtl0_bus.spec_vfid(), ..m }, seq![VfAction::NotifyArrival])
    } else {
        (m, Seq::empty())
    }
}

/// The device goes: no VF for VTL0 either.
pub open spec fn device_gone(m: VfManager) -> (VfManager, Seq<VfAction>) {
    let m2 = VfManager { vtl0_vfid: None, ..m };
    let revoked = vf_revoked(m2, m2.vtl0_bus->Present_vfid);
    (revoked.0, revoked.1 + seq![VfAction::ShutdownDevice { keep_vf_alive: false }])
}

/// The VF comes or goes.
pub open spec fn vf_updated(m: VfManager, vfid: Option<u32>) -> (VfManager, Seq<VfAction>) {
    let shown = match vfid {
        Some(vfid) => Vtl0Bus::Present { vfid },
        None => Vtl0Bus::NotPresent,
    };
    match m.vtl0_bus {
        Vtl0Bus::HiddenNotPresent => (
            VfManager { vtl0_bus: Vtl0Bus::HiddenPresent { vfid: vfid->0 }, ..m },
            Seq::empty(),
        ),
        Vtl0Bus::HiddenPresent { .. } => (
            VfManager { vtl0_bus: Vtl0Bus::HiddenNotPresent, ..m },
            Seq::empty(),
        ),
        _ => if m.vtl2_device == Vtl2DeviceState::Present {
            let updated = VfManager { vtl0_bus: shown, vtl0_vfid: vfid, ..m };
            match m.vtl0_bus {
                Vtl0Bus::Present { vfid } => vf_revoked(updated, vfid),
                _ => (updated, seq![VfAction::NotifyArrival]),
            }
        } else {
            // The change is applied when the device works again.
            (VfManager { vtl0_bus: shown, ..m }, Seq::empty())
        },
    }
}

/// The VF is hidden, or shown again.
pub open spec fn vf_hidden(m: VfManager, hide: bool) -> (VfManager, Seq<VfAction>) {
    let m = VfManager { hidden_vtl0: Some(hide), ..m };
    if hide {
        match m.vtl0_bus {
            Vtl0Bus::HiddenPresent { .. } => (m, Seq::empty()),
            Vtl0Bus::Present { vfid } => {
                let hidden = VfManager {
                    vtl0_bus: Vtl0Bus::HiddenPresent { vfid },
                    vtl0_vfid: if m.vtl2_device == Vtl2DeviceState::Present {
                        None
                    } else {
                        m.vtl0_vfid
                    },
                    ..m
                };
                if m.vtl2_device == Vtl2DeviceState::Present {
                    vf_revoked(hidden, vfid)
                } else {
                    (hidden, Seq::empty())
                }
            },
            _ => (VfManager { vtl0_bus: Vtl0Bus::HiddenNotPresent, ..m }, Seq::empty()),
        }
    } else {
        match m.vtl0_bus {
            Vtl0Bus::HiddenPresent { vfid } => {
                let shown = VfManager { vtl0_bus: Vtl0Bus::Present { vfid }, ..m };
                if m.vtl2_device == Vtl2DeviceState::Present {
                    (
                        VfManager { vtl0_vfid: Some(vfid), ..shown },
                        seq![VfAction::NotifyArrival],
                    )
                } else {
                    (shown, Seq::empty())
                }
            },
            Vtl0Bus::HiddenNotPresent => (
                VfManager { vtl0_bus: Vtl0Bus::NotPresent, ..m },
                Seq::empty(),
            ),
            _ => (m, Seq::empty()),
        }
    }
}

/// The delay after a failed attempt: twice as long, up to the longest.
pub open spec fn next_sleep(sleep_ms: u64) -> u64 {
    if 2 * sleep_ms > RECONFIG_MAX_SLEEP_MS {
        RECONFIG_MAX_SLEEP_MS
    } else {
        (2 * sleep_ms) as u64
    }
}

/// An attempt to start a device that was reconfigured is over.
pub open spec fn restart_finished(m: VfManager, ok: bool) -> (VfManager, Seq<VfAction>) {
    let b = m.backoff->0;
    if ok {
        device_back(m)
    } else if b.attempts + 1 >= RECONFIG_MAX_ATTEMPTS {
        (
            VfManager { vtl2_device: Vtl2DeviceState::Missing, backoff: None, ..m },
            Seq::empty(),
        )
    } else {
        let sleep_ms = next_sleep(b.sleep_ms);
        (
            VfManager {
                backoff: Some(
                    VfReconfigBackoff { sleep_ms, attempts: (b.attempts + 1) as u64 },
                ),
                ..m
            },
            seq![VfAction::SetTimer { delay_ms: sleep_ms }],
        )
    }
}

/// What an event does: the state, and what has to be done, in order.
pub open spec fn managed(m: VfManager, event: VfEvent) -> (VfManager, Seq<VfAction>) {
    match event {
        VfEvent::AddVtl0Vf => (
            m,
            if !m.is_shutdown_active && !m.offered_to_guest && m.vtl0_vfid is Some
                && m.vtl0_bus is Present {
                seq![VfAction::OfferDevice { vfid: m.vtl0_bus->Present_vfid }]
            } else {
                Seq::empty()
            },
        ),
        VfEvent::OfferFinished { ok } => (
            VfManager { offered_to_guest: m.offered_to_guest || ok, ..m },
            Seq::empty(),
        ),
        VfEvent::RemoveVtl0Vf => if m.is_shutdown_active {
            (m, Seq::empty())
        } else {
            vf_removed(m)
        },
        VfEvent::UpdateVtl0Vf { vfid } => if m.is_shutdown_active {
            (m, Seq::empty())
        } else {
            vf_updated(m, vfid)
        },
        VfEvent::HideVtl0Vf { hide } => if m.is_shutdown_active {
            (m, Seq::empty())
        } else {
            vf_hidden(m, hide)
        },
        VfEvent::ShutdownBegin { remove_vtl0_vf } => {
            let removed = if remove_vtl0_vf {
                vf_removed(m)
            } else {
                (m, Seq::empty())
            };
            (VfManager { is_shutdown_active: true, ..removed.0 }, removed.1)
        },
        VfEvent::ShutdownComplete { keep_vf_alive } => (
            m,
            seq![VfAction::ShutdownDevice { keep_vf_alive }, VfAction::Exit],
        ),
        VfEvent::SaveState => (m, seq![VfAction::SaveDevice, VfAction::Exit]),
        VfEvent::VfReconfig => if m.is_shutdown_active || m.vtl2_device
            == Vtl2DeviceState::Missing {
            (m, Seq::empty())
        } else {
            let gone = device_gone(m);
            (
                VfManager {
                    vtl2_device: Vtl2DeviceState::Reconfiguring,
                    backoff: Some(
                        VfReconfigBackoff { sleep_ms: RECONFIG_INITIAL_SLEEP_MS, attempts: 0 },
                    ),
                    ..gone.0
                },
                gone.1 + seq![VfAction::SetTimer { delay_ms: RECONFIG_INITIAL_SLEEP_MS }],
            )
        },
        VfEvent::VfReconfigRestart => if m.backoff is None {
            (m, Seq::empty())
        } else if m.is_shutdown_active {
            (VfManager { backoff: None, ..m }, Seq::empty())
        } else {
            (m, seq![VfAction::StartDevice])
        },
        VfEvent::RestartFinished { ok } => restart_finished(m, ok),
        VfEvent::DeviceArrived => (m, seq![VfAction::WaitForPciPath, VfAction::StartDevice]),
        VfEvent::ArrivalFinished { ok } => {
            let back = if ok {
                device_back(m)
            } else {
                (m, Seq::empty())
            };
            (back.0, seq![VfAction::ReportBindState { is_bound: ok }] + back.1)
        },
        VfEvent::DeviceRemoved => {
            let gone = device_gone(m);
            (
                VfManager { vtl2_device: Vtl2DeviceState::Missing, backoff: None, ..gone.0 },
                gone.1 + seq![VfAction::ReportBindState { is_bound: false }],
            )
        },
        VfEvent::ExitWorker => (m, seq![VfAction::Exit]),
    }
}

impl VfManager {
    fn remove_vtl0_vf(&mut self, actions: &mut Vec<VfAction>)
        ensures
            *final(self) == vf_removed(*old(self)).0,
            final(actions)@ == old(actions)@ + vf_removed(*old(self)).1,
    {
        if self.offered_to_guest {
            self.offered_to_guest = false;
            if let Vtl0Bus::Present { vfid } = self.vtl0_bus {
                actions.push(VfAction::RevokeDevice { vfid });
            }
        }
        assert(actions@ =~= old(actions)@ + vf_removed(*old(self)).1);
    }

    fn try_notify_guest_and_revoke_vtl0_vf(&mut self, vfid: u32, actions: &mut Vec<VfAction>)
        ensures
            *final(self) == vf_revoked(*old(self), vfid).0,
            final(actions)@ == old(actions)@ + vf_revoked(*old(self), vfid).1,
    {
        if self.offered_to_guest {
            // A removal request of an adapter has nothing to do any more.
            self.offered_to_guest = false;
            actions.push(VfAction::NotifyRemoval);
            actions.push(VfAction::RevokeDevice { vfid });
        }
        assert(actions@ =~= old(actions)@ + vf_revoked(*old(self), vfid).1);
    }

    fn startup_vtl2_device(&mut self, actions: &mut Vec<VfAction>)
        ensures
            *final(self) == device_back(*old(self)).0,
            final(actions)@ == old(actions)@ + device_back(*old(self)).1,
    {
        self.vtl2_device = Vtl2DeviceState::Present;
        self.backoff = None;
        if let Vtl0Bus::Present { vfid } = self.vtl0_bus {
            self.vtl0_vfid = Some(vfid);
            actions.push(VfAction::NotifyArrival);
        }
        assert(actions@ =~= old(actions)@ + device_back(*old(self)).1);
    }

    fn shutdown_vtl2_device(&mut self, actions: &mut Vec<VfAction>)
        requires
            old(self).wf(),
        ensures
            *final(self) == device_gone(*old(self)).0,
            final(actions)@ == old(actions)@ + device_gone(*old(self)).1,
    {
        self.vtl0_vfid = None;
        if let Vtl0Bus::Present { vfid } = self.vtl0_bus {
            self.try_notify_guest_and_revoke_vtl0_vf(vfid, actions);
        }
        actions.push(VfAction::ShutdownDevice { keep_vf_alive: false });
        assert(actions@ =~= old(actions)@ + device_gone(*old(self)).1);
    }

    fn update_vtl0_vf(&mut self, vfid: Option<u32>, actions: &mut Vec<VfAction>)
        requires
            old(self).wf(),
            !old(self).is_shutdown_active,
            old(self).expects(VfEvent::UpdateVtl0Vf { vfid }),
        ensures
            *final(self) == vf_updated(*old(self), vfid).0,
            final(actions)@ == old(actions)@ + vf_updated(*old(self), vfid).1,
    {
        let old_bus = self.vtl0_bus;
        let shown = match vfid {
            Some(vfid) => Vtl0Bus::Present { vfid },
            None => Vtl0Bus::NotPresent,
        };
        match old_bus {
            Vtl0Bus::HiddenNotPresent => {
                let id: u32 = match vfid {
                    Some(id) => id,
                    None => 0,
                };
                self.vtl0_bus = Vtl0Bus::HiddenPresent { vfid: id };
            },
            Vtl0Bus::HiddenPresent { .. } => {
                self.vtl0_bus = Vtl0Bus::HiddenNotPresent;
            },
            _ => {
                self.vtl0_bus = shown;
                if let Vtl2DeviceState::Present = self.vtl2_device {
                    self.vtl0_vfid = vfid;
                    match old_bus {
                        Vtl0Bus::Present { vfid } => {
                            self.try_notify_guest_and_revoke_vtl0_vf(vfid, actions);
                        },
                        _ => {
                            actions.push(VfAction::NotifyArrival);
                        },
                    }
                }
            },
        }
        assert(actions@ =~= old(actions)@ + vf_updated(*old(self), vfid).1);
    }

    fn hide_vtl0_vf(&mut self, hide: bool, actions: &mut Vec<VfAction>)
        requires
            old(self).wf(),
        ensures
            *final(self) == vf_hidden(*old(self), hide).0,
            final(actions)@ == old(actions)@ + vf_hidden(*old(self), hide).1,
    {
        self.hidden_vtl0 = Some(hide);
        let is_present = match self.vtl2_device {
            Vtl2DeviceState::Present => true,
            _ => false,
        };
        if hide {
            match self.vtl0_bus {
                Vtl0Bus::HiddenPresent { .. } => {},
                Vtl0Bus::Present { vfid } => {
                    self.vtl0_bus = Vtl0Bus::HiddenPresent { vfid };
                    if is_present {
                        self.vtl0_vfid = None;
                        self.try_notify_guest_and_revoke_vtl0_vf(vfid, actions);
                    }
                },
                _ => {
                    self.vtl0_bus = Vtl0Bus::HiddenNotPresent;
                },
            }
        } else {
            match self.vtl0_bus {
                Vtl0Bus::HiddenPresent { vfid } => {
                    self.vtl0_bus = Vtl0Bus::Present { vfid };
                    if is_present {
                        self.vtl0_vfid = Some(vfid);
                        actions.push(VfAction::NotifyArrival);
                    }
                },
                Vtl0Bus::HiddenNotPresent => {
                    self.vtl0_bus = Vtl0Bus::NotPresent;
                },
                _ => {},
            }
        }
        assert(actions@ =~= old(actions)@ + vf_hidden(*old(self), hide).1);
    }

    fn finish_restart(&mut self, ok: bool, actions: &mut Vec<VfAction>)
        requires
            old(self).wf(),
            old(self).backoff is Some,
        ensures
            *final(self) == restart_finished(*old(self), ok).0,
            final(actions)@ == old(actions)@ + restart_finished(*old(self), ok).1,
    {
        if ok {
            self.startup_vtl2_device(actions);
        } else if let Some(b) = self.backoff {
            if b.attempts + 1 >= RECONFIG_MAX_ATTEMPTS {
                // Stop further attempts.
                self.vtl2_device = Vtl2DeviceState::Missing;
                self.backoff = None;
            } else {
                let sleep_ms: u64 = if 2 * b.sleep_ms > RECONFIG_MAX_SLEEP_MS {
                    RECONFIG_MAX_SLEEP_MS
                } else {
                    2 * b.sleep_ms
                };
                self.backoff = Some(VfReconfigBackoff { sleep_ms, attempts: b.attempts + 1 });
                actions.push(VfAction::SetTimer { delay_ms: sleep_ms });
            }
        }
        assert(actions@ =~= old(actions)@ + restart_finished(*old(self), ok).1);
    }

    /// Reacts to an event.
    pub fn run(&mut self, event: VfEvent) -> (actions: Vec<VfAction>)
        requires
            old(self).wf(),
            old(self).expects(event),
        ensures
            (*final(self), actions@) == managed(*old(self), event),
            final(self).wf(),
    {
        let mut actions: Vec<VfAction> = Vec::new();
        match event {
            VfEvent::AddVtl0Vf => {
                if !self.is_shutdown_active && !self.offered_to_guest && self.vtl0_vfid.is_some() {
                    if let Vtl0Bus::Present { vfid } = self.vtl0_bus {
                        actions.push(VfAction::OfferDevice { vfid });
                    }
                }
            },
            VfEvent::OfferFinished { ok } => {
                if ok {
                    self.offered_to_guest = true;
                }
            },
            VfEvent::RemoveVtl0Vf => {
                if !self.is_shutdown_active {
                    self.remove_vtl0_vf(&mut actions);
                }
            },
            VfEvent::UpdateVtl0Vf { vfid } => {
                if !self.is_shutdown_active {
                    self.update_vtl0_vf(vfid, &mut actions);
                }
            },
            VfEvent::HideVtl0Vf { hide } => {
                if !self.is_shutdown_active {
                    self.hide_vtl0_vf(hide, &mut actions);
                }
            },
            VfEvent::ShutdownBegin { remove_vtl0_vf } => {
                if remove_vtl0_vf {
                    self.remove_vtl0_vf(&mut actions);
                }
                self.is_shutdown_active = true;
            },
            VfEvent::ShutdownComplete { keep_vf_alive } => {
                actions.push(VfAction::ShutdownDevice { keep_vf_alive });
                actions.push(VfAction::Exit);
            },
            VfEvent::SaveState => {
                actions.push(VfAction::SaveDevice);
                actions.push(VfAction::Exit);
            },
            VfEvent::VfReconfig => {
                let missing = match self.vtl2_device {
                    Vtl2DeviceState::Missing => true,
                    _ => false,
                };
                if !self.is_shutdown_active && !missing {
                    self.shutdown_vtl2_device(&mut actions);
                    // The hardware may need time to recover, so starting the
                    // device is retried with growing delays.
                    self.vtl2_device = Vtl2DeviceState::Reconfiguring;
                    self.backoff = Some(
                        VfReconfigBackoff { sleep_ms: RECONFIG_INITIAL_SLEEP_MS, attempts: 0 },
                    );
                    actions.push(VfAction::SetTimer { delay_ms: RECONFIG_INITIAL_SLEEP_MS });
                }
            },
            VfEvent::VfReconfigRestart => {
                if self.backoff.is_some() {
                    if self.is_shutdown_active {
                        self.backoff = None;
                    } else {
                        actions.push(VfAction::StartDevice);
                    }
                }
            },
            VfEvent::RestartFinished { ok } => {
                self.finish_restart(ok, &mut actions);
            },
            VfEvent::DeviceArrived => {
                actions.push(VfAction::WaitForPciPath);
                actions.push(VfAction::StartDevice);
            },
            VfEvent::ArrivalFinished { ok } => {
                actions.push(VfAction::ReportBindState { is_bound: ok });
                if ok {
                    self.startup_vtl2_device(&mut actions);
                }
            },
            VfEvent::DeviceRemoved => {
                self.shutdown_vtl2_device(&mut actions);
                self.vtl2_device = Vtl2DeviceState::Missing;
                // Outstanding attempts to start the device are moot.
                self.backoff = None;
                actions.push(VfAction::ReportBindState { is_bound: false });
            },
            VfEvent::ExitWorker => {
                actions.push(VfAction::Exit);
            },
        }
        assert(actions@ =~= managed(*old(self), event).1);
        actions
    }
}

/// Whether a uevent about the device means that it has arrived.
pub fn is_arrival(state: Vtl2DeviceState, exists_in_fs: bool) -> (b: bool)
    ensures
        b == (state == Vtl2DeviceState::Missing && exists_in_fs),
{
    match state {
        Vtl2DeviceState::Missing => exists_in_fs,
        _ => false,
    }
}

/// A message to the manager.
#[derive(Debug, Clone, Copy, PartialEq, Eq, Structural)]
pub enum VfRequest {
    /// Offer the VF.
    Add,
    /// Take it back.
    Remove,
}

/// What a network adapter asks for once the guest is ready: that the VF is
/// offered exactly if it should be, and only if there is one.
pub fn guest_ready_for_device(offered: bool, should_be_offered: bool, vfid: Option<u32>) -> (r:
    Option<VfRequest>)
    ensures
        r == if offered == should_be_offered || (should_be_offered && vfid is None) {
            None::<VfRequest>
        } else if should_be_offered {
            Some(VfRequest::Add)
        } else {
            Some(VfRequest::Remove)
        },
{
    if offered == should_be_offered {
        return None;
    }
    if should_be_offered && vfid.is_none() {
        return None;
    }
    if should_be_offered {
        Some(VfRequest::Add)
    } else {
        Some(VfRequest::Remove)
    }
}

/// How a device is reset when it is attached.
#[derive(Debug, Clone, Copy, PartialEq, Eq, Structural)]
pub enum PciDeviceResetMethod {
    /// Not at all.
    NoReset,
    /// By a function level reset.
    Flr,
}

/// How a device is created.
#[derive(Debug, Clone, Copy, PartialEq, Eq, Structural)]
pub enum CreatePlan {
    /// From its saved state.
    Restore,
    /// Anew, without a reset first.
    Fresh {
        /// Whether buffers of the saved state, which cannot be used, have to be
        /// freed first.
        free_buffers: bool,
    },
}

/// Decides how a device is created. Saved state is of no use if keep-alive is not
/// enabled; its buffers can only be freed if there are clients for both kinds of
/// memory. `None` if there are not.
pub fn create_mana_device(keepalive: bool, has_saved_state: bool, has_both_clients: bool) -> (r:
    Option<CreatePlan>)
    ensures
        r == if has_saved_state && keepalive {
            Some(CreatePlan::Restore)
        } else if has_saved_state && !has_both_clients {
            None::<CreatePlan>
        } else {
            Some(CreatePlan::Fresh { free_buffers: has_saved_state })
        },
{
    if has_saved_state && !keepalive && !has_both_clients {
        return None;
    }
    if keepalive && has_saved_state {
        Some(CreatePlan::Restore)
    } else {
        Some(CreatePlan::Fresh { free_buffers: has_saved_state })
    }
}

/// What follows an attempt to create a device anew.
#[derive(Debug, Clone, Copy, PartialEq, Eq, Structural)]
pub enum CreateNext {
    /// The device is there. The reset method may have to be set back.
    Created {
        /// Whether to set it back.
        set_no_reset: bool,
    },
    /// Try again with a reset.
    Retry(PciDeviceResetMethod),
    /// Give up.
    Fail,
}

/// What follows an attempt to create a device anew: without a reset first, since
/// that is faster, and with one if that fails.
pub fn after_create_attempt(method: PciDeviceResetMethod, ok: bool) -> (n: CreateNext)
    ensures
        n == if ok {
            CreateNext::Created { set_no_reset: method == PciDeviceResetMethod::Flr }
        } else if method == PciDeviceResetMethod::NoReset {
            CreateNext::Retry(PciDeviceResetMethod::Flr)
        } else {
            CreateNext::Fail
        },
{
    match method {
        PciDeviceResetMethod::NoReset => if ok {
            CreateNext::Created { set_no_reset: false }
        } else {
            CreateNext::Retry(PciDeviceResetMethod::Flr)
        },
        PciDeviceResetMethod::Flr => if ok {
            CreateNext::Created { set_no_reset: true }
        } else {
            CreateNext::Fail
        },
    }
}

/// The PCI part of the paths of a device.
pub open spec fn pci_part(data2: u16) -> Seq<char> {
    "pci"@ + hex4(data2 as u64) + ":00/"@ + hex4(data2 as u64) + ":00:00.0"@
}

/// The paths of a device: in uevents and in the file system.
#[derive(Debug)]
pub struct DevicePaths {
    /// In uevents.
    pub device_path: String,
    /// In the file system.
    pub fs_dev_path: String,
}

/// The paths of the device with that instance ID, given as text and by its second
/// part.
pub fn device_paths(instance_id: &str, data2: u16) -> (p: DevicePaths)
    ensures
        p.device_path@ == "/devices/platform/bus/bus:vmbus/"@ + instance_id@ + "/"@ + pci_part(
            data2,
        ),
        p.fs_dev_path@ == "/sys/bus/vmbus/devices/"@ + instance_id@ + "/"@ + pci_part(data2),
{
    let mut pci_id = owned("pci");
    push_hex4(&mut pci_id, data2 as u64);
    pci_id.append(":00/");
    push_hex4(&mut pci_id, data2 as u64);
    pci_id.append(":00:00.0");
    let mut device_path = owned("/devices/platform/bus/bus:vmbus/");
    device_path.append(instance_id);
    device_path.append("/");
    device_path.append(pci_id.as_str());
    let mut fs_dev_path = owned("/sys/bus/vmbus/devices/");
    fs_dev_path.append(instance_id);
    fs_dev_path.append("/");
    fs_dev_path.append(pci_id.as_str());
    DevicePaths { device_path, fs_dev_path }
}

/// Whether a uevent has to be looked at: the device was added or removed, or all
/// devices were scanned.
pub fn is_uevent_relevant(
    device_path: &str,
    action: Option<&str>,
    dev_path: Option<&str>,
    rescan: Option<&str>,
) -> (b: bool)
    ensures
        b == {
            let path = match dev_path {
                Some(p) => p@,
                None => "unknown"@,
            };
            if path == device_path@ {
                action matches Some(a) && (a@ == "add"@ || a@ == "remove"@)
            } else {
                rescan matches Some(r) && r@ == "true"@
            }
        },
{
    let path = match dev_path {
        Some(p) => p,
        None => "unknown",
    };
    if str_eq(path, device_path) {
        match action {
            Some(a) => str_eq(a, "add") || str_eq(a, "remove"),
            None => false,
        }
    } else {
        match rescan {
            Some(r) => str_eq(r, "true"),
            None => false,
        }
    }
}

/// How saving a device went.
#[derive(Debug)]
pub enum VfManagerSaveResult<T> {
    /// It was saved.
    Saved(T),
    /// There was none.
    DeviceMissing,
    /// It could not be saved.
    SaveFailed,
}

/// How saving a device went: `None` if there was none.
pub fn save_result<T>(device: Option<Option<T>>) -> (r: VfManagerSaveResult<T>)
    ensures
        r == match device {
            None => VfManagerSaveResult::DeviceMissing::<T>,
            Some(None) => VfManagerSaveResult::SaveFailed::<T>,
            Some(Some(state)) => VfManagerSaveResult::Saved(state),
        },
{
    match device {
        None => VfManagerSaveResult::DeviceMissing,
        Some(None) => VfManagerSaveResult::SaveFailed,
        Some(Some(state)) => VfManagerSaveResult::Saved(state),
    }
}

/// The state that was saved, if any; `None` as well if the manager did not
/// answer.
pub fn saved_device<T>(r: Option<VfManagerSaveResult<T>>) -> (s: Option<T>)
    ensures
        s == match r {
            Some(VfManagerSaveResult::Saved(state)) => Some(state),
            _ => None::<T>,
        },
{
    match r {
        Some(VfManagerSaveResult::Saved(state)) => Some(state),
        _ => None,
    }
}

/// A VF that VTL0 uses is taken away whenever the device goes, it is hidden, or it
/// goes itself: afterwards it is not offered, and if it was before then it is
/// revoked.
pub proof fn vf_is_revoked_before_it_goes(m: VfManager, event: VfEvent)
    requires
        m.wf(),
        m.expects(event),
        !m.is_shutdown_active,
        event is DeviceRemoved || event == (VfEvent::HideVtl0Vf { hide: true }) || event
            == (VfEvent::UpdateVtl0Vf { vfid: None }) || (event is VfReconfig && m.vtl2_device
            != Vtl2DeviceState::Missing),
    ensures
        !managed(m, event).0.offered_to_guest,
        managed(m, event).0.vtl0_vfid is None,
        m.offered_to_guest ==> managed(m, event).1.contains(
            VfAction::RevokeDevice { vfid: m.vtl0_bus->Present_vfid },
        ),
{
    if m.offered_to_guest {
        let actions = managed(m, event).1;
        assert(actions[1] == (VfAction::RevokeDevice { vfid: m.vtl0_bus->Present_vfid }));
    }
}

/// While the manager shuts down, requests about the VF change nothing.
pub proof fn shutdown_ignores_vf_requests(m: VfManager, event: VfEvent)
    requires
        m.is_shutdown_active,
        event is AddVtl0Vf || event is RemoveVtl0Vf || event is UpdateVtl0Vf
            || event is HideVtl0Vf || event is VfReconfig,
    ensures
        managed(m, event) == (m, Seq::<VfAction>::empty()),
{
}

/// Hiding a VF and showing it again restores what VTL0 sees.
pub proof fn hide_is_undone(m: VfManager)
    requires
        m.wf(),
        !m.is_shutdown_active,
        m.vtl0_bus is Present || m.vtl0_bus is NotPresent,
    ensures
        ({
            let hidden = managed(m, VfEvent::HideVtl0Vf { hide: true }).0;
            let shown = managed(hidden, VfEvent::HideVtl0Vf { hide: false }).0;
            &&& hidden.vtl0_vfid is None
            &&& shown.vtl0_bus == m.vtl0_bus
            &&& shown.vtl0_vfid == m.vtl0_vfid
            &&& shown.vtl2_device == m.vtl2_device
        }),
{
}

/// Whether VTL0 has a VF, hidden or not.
pub open spec fn bus_vf(bus: Vtl0Bus) -> Option<u32> {
    match bus {
        Vtl0Bus::Present { vfid } => Some(vfid),
        Vtl0Bus::HiddenPresent { vfid } => Some(vfid),
        _ => None,
    }
}

/// Whether the VF of VTL0 is hidden, or would be.
pub open spec fn is_hidden(bus: Vtl0Bus) -> bool {
    bus is HiddenPresent || bus is HiddenNotPresent
}

/// The network adapters hear of every VF that becomes visible to VTL0, whether it arrives, is
/// shown again, or the device is back; and only of such a VF.
pub proof fn visible_vf_is_announced(m: VfManager, event: VfEvent)
    requires
        m.wf(),
        m.expects(event),
    ensures
        ({
            let (next, actions) = managed(m, event);
            &&& m.vtl0_vfid is None && next.vtl0_vfid is Some ==> actions.contains(
                VfAction::NotifyArrival,
            )
            &&& actions.contains(VfAction::NotifyArrival) ==> next.vtl0_vfid is Some
        }),
{
    let (next, actions) = managed(m, event);
    if m.vtl0_vfid is None && next.vtl0_vfid is Some {
        assert(actions.last() == VfAction::NotifyArrival);
    }
}

/// The network adapters know of a VF exactly if there is one that is not hidden and the device
/// works, whatever has happened.
pub proof fn adapters_know_of_visible_vf(m: VfManager, event: VfEvent)
    requires
        m.wf(),
        m.expects(event),
    ensures
        ({
            let next = managed(m, event).0;
            &&& next.vtl0_vfid == if next.vtl2_device == Vtl2DeviceState::Present && !is_hidden(
                next.vtl0_bus,
            ) {
                bus_vf(next.vtl0_bus)
            } else {
                None
            }
            &&& next.offered_to_guest ==> next.vtl0_vfid is Some
        }),
{
}

/// A VF that comes or goes is there afterwards, or not, and stays hidden if it was. It is seen
/// at once if the device works.
pub proof fn vf_update_is_applied(m: VfManager, vfid: Option<u32>)
    requires
        m.wf(),
        m.expects(VfEvent::UpdateVtl0Vf { vfid }),
        !m.is_shutdown_active,
    ensures
        ({
            let (next, actions) = managed(m, VfEvent::UpdateVtl0Vf { vfid });
            &&& bus_vf(next.vtl0_bus) == vfid
            &&& is_hidden(next.vtl0_bus) == is_hidden(m.vtl0_bus)
            &&& next.vtl2_device == m.vtl2_device
            &&& next.backoff == m.backoff
            &&& next.hidden_vtl0 == m.hidden_vtl0
            &&& !next.is_shutdown_active
            &&& is_hidden(m.vtl0_bus) || m.vtl2_device != Vtl2DeviceState::Present
                ==> actions.len() == 0 && next.vtl0_vfid == m.vtl0_vfid
            &&& !is_hidden(m.vtl0_bus) && m.vtl2_device == Vtl2DeviceState::Present
                ==> next.vtl0_vfid == vfid && (vfid is Some ==> actions == seq![
                VfAction::NotifyArrival,
            ])
        }),
{
    let (next, actions) = managed(m, VfEvent::UpdateVtl0Vf { vfid });
    if !is_hidden(m.vtl0_bus) && m.vtl2_device == Vtl2DeviceState::Present && vfid is Some {
        assert(actions =~= seq![VfAction::NotifyArrival]);
    }
}

/// A VF is hidden, or shown, as it was asked for, and is otherwise the same one.
pub proof fn hide_request_is_applied(m: VfManager, hide: bool)
    requires
        m.wf(),
        !m.is_shutdown_active,
    ensures
        ({
            let (next, actions) = managed(m, VfEvent::HideVtl0Vf { hide });
            &&& is_hidden(next.vtl0_bus) == hide
            &&& bus_vf(next.vtl0_bus) == bus_vf(m.vtl0_bus)
            &&& next.hidden_vtl0 == Some(hide)
            &&& next.vtl2_device == m.vtl2_device
            &&& next.backoff == m.backoff
            &&& is_hidden(m.vtl0_bus) == hide ==> actions.len() == 0 && next.offered_to_guest
                == m.offered_to_guest
        }),
{
}

/// A VF is offered only to a guest that does not have it, while it is visible and the manager
/// does not shut down; and then a request for it is always met.
pub proof fn visible_vf_is_offered_once(m: VfManager, event: VfEvent, vfid: u32)
    requires
        m.wf(),
        m.expects(event),
    ensures
        managed(m, event).1.contains(VfAction::OfferDevice { vfid }) <==> event
            == VfEvent::AddVtl0Vf && !m.is_shutdown_active && !m.offered_to_guest && m.vtl0_vfid
            == Some(vfid),
        event == VfEvent::AddVtl0Vf ==> managed(m, event).0 == m && managed(m, event).1.len() <= 1,
        managed(m, event).0.offered_to_guest && !m.offered_to_guest ==> event
            == (VfEvent::OfferFinished { ok: true }),
        event == (VfEvent::OfferFinished { ok: true }) ==> managed(m, event).0 == (VfManager {
            offered_to_guest: true,
            ..m
        }),
        event == (VfEvent::OfferFinished { ok: false }) ==> managed(m, event).0 == m,
{
    let actions = managed(m, event).1;
    if event == VfEvent::AddVtl0Vf && !m.is_shutdown_active && !m.offered_to_guest && m.vtl0_vfid
        == Some(vfid) {
        assert(actions[0] == (VfAction::OfferDevice { vfid }));
    }
}

/// A VF that is offered is taken back exactly when it stops being offered, by its own ID, and
/// once. Unless a network adapter or a shutdown takes it back, the adapters are told before.
pub proof fn offered_vf_is_taken_back(m: VfManager, event: VfEvent)
    requires
        m.wf(),
        m.expects(event),
    ensures
        ({
            let (next, actions) = managed(m, event);
            let vfid = bus_vf(m.vtl0_bus);
            &&& m.offered_to_guest && !next.offered_to_guest <==> exists|i: int, id: u32|
                0 <= i < actions.len() && actions[i] == #[trigger] revoke_at(i, id)
            &&& forall|i: int, id: u32|
                0 <= i < actions.len() && actions[i] == #[trigger] revoke_at(i, id) ==> Some(id)
                    == vfid && (event is RemoveVtl0Vf || event is ShutdownBegin || (i == 1
                    && actions[0] == VfAction::NotifyRemoval))
            &&& actions.contains(VfAction::NotifyRemoval) ==> m.offered_to_guest
                && !next.offered_to_guest
        }),
{
    let (next, actions) = managed(m, event);
    if m.offered_to_guest && !next.offered_to_guest {
        let id = m.vtl0_bus->Present_vfid;
        if event is RemoveVtl0Vf || event is ShutdownBegin {
            assert(actions[0] == revoke_at(0, id));
        } else {
            assert(actions[1] == revoke_at(1, id));
        }
    }
}

/// The action that takes a VF back; `i` is its place.
pub open spec fn revoke_at(i: int, id: u32) -> VfAction {
    VfAction::RevokeDevice { vfid: id }
}

/// A request of a network adapter to take the VF back is met, and keeps the VF visible.
pub proof fn adapter_gives_vf_back(m: VfManager)
    requires
        m.wf(),
        !m.is_shutdown_active,
    ensures
        ({
            let (next, actions) = managed(m, VfEvent::RemoveVtl0Vf);
            &&& next == (VfManager { offered_to_guest: false, ..m })
            &&& actions == if m.offered_to_guest {
                seq![VfAction::RevokeDevice { vfid: bus_vf(m.vtl0_bus)->0 }]
            } else {
                Seq::<VfAction>::empty()
            }
        }),
{
}

/// A device that goes is shut down after the VF was taken back, and VTL0 then has no VF to
/// see. A device that was removed is missing, and the host is told so; one that is
/// reconfigured is started again after the first delay.
pub proof fn device_goes_in_order(m: VfManager, event: VfEvent)
    requires
        m.wf(),
        m.expects(event),
        event is DeviceRemoved || (event is VfReconfig && !m.is_shutdown_active && m.vtl2_device
            != Vtl2DeviceState::Missing),
    ensures
        ({
            let (next, actions) = managed(m, event);
            let n = actions.len() as int;
            &&& n >= 2
            &&& actions[n - 2] == (VfAction::ShutdownDevice { keep_vf_alive: false })
            &&& next.vtl0_vfid is None
            &&& !next.offered_to_guest
            &&& next.vtl0_bus == m.vtl0_bus
            &&& next.hidden_vtl0 == m.hidden_vtl0
            &&& next.is_shutdown_active == m.is_shutdown_active
            &&& m.offered_to_guest ==> n == 4 && actions[0] == VfAction::NotifyRemoval
                && actions[1] == (VfAction::RevokeDevice { vfid: bus_vf(m.vtl0_bus)->0 })
            &&& !m.offered_to_guest ==> n == 2
            &&& event is DeviceRemoved ==> next.vtl2_device == Vtl2DeviceState::Missing
                && next.backoff is None && actions[n - 1] == (VfAction::ReportBindState {
                is_bound: false,
            })
            &&& event is VfReconfig ==> next.vtl2_device == Vtl2DeviceState::Reconfiguring
                && next.backoff == Some(VfReconfigBackoff { sleep_ms: 100, attempts: 0 })
                && actions[n - 1] == (VfAction::SetTimer { delay_ms: 100 })
        }),
{
}

/// A device that was reconfigured is started again when its delay is over. If that fails, the
/// delay is doubled up to two seconds and it is tried again, 300 times in all; then the device
/// counts as missing. If it works, the device is back, and the attempts are forgotten.
pub proof fn reconfigured_device_is_retried(m: VfManager, ok: bool)
    requires
        m.wf(),
        m.backoff is Some,
    ensures
        ({
            let b = m.backoff->0;
            let (next, actions) = managed(m, VfEvent::RestartFinished { ok });
            let (waited, start) = managed(m, VfEvent::VfReconfigRestart);
            &&& !m.is_shutdown_active ==> waited == m && start == seq![VfAction::StartDevice]
            &&& m.is_shutdown_active ==> waited.backoff is None && start.len() == 0
            &&& next.vtl0_bus == m.vtl0_bus
            &&& ok ==> next.vtl2_device == Vtl2DeviceState::Present && next.backoff is None
                && next.vtl0_vfid == if is_hidden(m.vtl0_bus) {
                None
            } else {
                bus_vf(m.vtl0_bus)
            }
            &&& !ok && b.attempts >= 299 ==> next.vtl2_device == Vtl2DeviceState::Missing
                && next.backoff is None && actions.len() == 0
            &&& !ok && b.attempts < 299 ==> {
                let sleep_ms = if b.sleep_ms > 1000 {
                    2000
                } else {
                    2 * b.sleep_ms
                };
                &&& next.vtl2_device == Vtl2DeviceState::Reconfiguring
                &&& next.backoff is Some
                &&& next.backoff->0.sleep_ms == sleep_ms
                &&& next.backoff->0.attempts == b.attempts + 1
                &&& actions == seq![VfAction::SetTimer { delay_ms: sleep_ms as u64 }]
            }
        }),
{
}

/// A device that arrives is started once the system knows it. Whether that worked is reported
/// to the host, and only if it did the device is back.
pub proof fn arrived_device_is_started(m: VfManager, ok: bool)
    requires
        m.wf(),
        m.vtl2_device == Vtl2DeviceState::Missing,
    ensures
        ({
            let (next, actions) = managed(m, VfEvent::ArrivalFinished { ok });
            &&& managed(m, VfEvent::DeviceArrived) == (
                m,
                seq![VfAction::WaitForPciPath, VfAction::StartDevice],
            )
            &&& actions.len() >= 1
            &&& actions[0] == (VfAction::ReportBindState { is_bound: ok })
            &&& next.vtl0_bus == m.vtl0_bus
            &&& !ok ==> next == m && actions.len() == 1
            &&& ok ==> next.vtl2_device == Vtl2DeviceState::Present && next.vtl0_vfid
                == if is_hidden(m.vtl0_bus) {
                None
            } else {
                bus_vf(m.vtl0_bus)
            }
        }),
{
}

/// A shutdown takes the VF from VTL0 only if it is asked to, and ends with the device shut
/// down as it was asked to, or saved, and then the manager.
pub proof fn shutdown_is_carried_out(m: VfManager, remove_vtl0_vf: bool, keep_vf_alive: bool)
    requires
        m.wf(),
    ensures
        ({
            let (begun, actions) = managed(m, VfEvent::ShutdownBegin { remove_vtl0_vf });
            &&& begun == (VfManager {
                is_shutdown_active: true,
                offered_to_guest: m.offered_to_guest && !remove_vtl0_vf,
                ..m
            })
            &&& actions == if m.offered_to_guest && remove_vtl0_vf {
                seq![VfAction::RevokeDevice { vfid: bus_vf(m.vtl0_bus)->0 }]
            } else {
                Seq::<VfAction>::empty()
            }
            &&& managed(m, VfEvent::ShutdownComplete { keep_vf_alive }) == (
                m,
                seq![VfAction::ShutdownDevice { keep_vf_alive }, VfAction::Exit],
            )
            &&& managed(m, VfEvent::SaveState) == (m, seq![VfAction::SaveDevice, VfAction::Exit])
            &&& managed(m, VfEvent::ExitWorker) == (m, seq![VfAction::Exit])
        }),
{
}

/// The PCI part of the paths names the device by its number, twice, in four hexadecimal digits.
pub proof fn device_is_named_by_number(data2: u16)
    ensures
        ({
            let s = pci_part(data2);
            &&& s.len() == 23
            &&& s.subrange(0, 3) == "pci"@
            &&& s.subrange(3, 7) == hex4(data2 as u64)
            &&& s.subrange(7, 11) == ":00/"@
            &&& s.subrange(11, 15) == hex4(data2 as u64)
            &&& s.subrange(15, 23) == ":00:00.0"@
        }),
{
    reveal_strlit("pci");
    reveal_strlit(":00/");
    reveal_strlit(":00:00.0");
    let s = pci_part(data2);
    assert(s.subrange(0, 3) =~= "pci"@);
    assert(s.subrange(3, 7) =~= hex4(data2 as u64));
    assert(s.subrange(7, 11) =~= ":00/"@);
    assert(s.subrange(11, 15) =~= hex4(data2 as u64));
    assert(s.subrange(15, 23) =~= ":00:00.0"@);
}

/// The ID of a VF can be read from the text of its state.
pub proof fn vf_can_be_read_from_text(vfid: u32)
    ensures
        ({
            let shown = (Vtl0Bus::Present { vfid }).text();
            let hidden = (Vtl0Bus::HiddenPresent { vfid }).text();
            &&& crate::text::number(shown.subrange(18, shown.len() - 1), u32::MAX as nat) == Some(
                vfid as nat,
            )
            &&& crate::text::number(hidden.subrange(24, hidden.len() - 1), u32::MAX as nat) == Some(
                vfid as nat,
            )
            &&& (Vtl0Bus::Present { vfid }).spec_vfid() == Some(vfid)
            &&& (Vtl0Bus::HiddenPresent { vfid }).spec_vfid() is None
        }),
{
    reveal_strlit("Present(vtl0_vfid=");
    reveal_strlit("HiddenPresent(vtl0_vfid=");
    reveal_strlit(")");
    let shown = (Vtl0Bus::Present { vfid }).text();
    let hidden = (Vtl0Bus::HiddenPresent { vfid }).text();
    assert(shown.subrange(18, shown.len() - 1) =~= decimal(vfid as nat));
    assert(hidden.subrange(24, hidden.len() - 1) =~= decimal(vfid as nat));
    crate::text::decimal_is_read_back(vfid as nat, u32::MAX as nat);
}

} // verus!
