//! Opening and closing the channels of an adapter, and what the worker of a channel
//! does next.
use crate::netvsp::error::WorkerError;
use crate::netvsp::guest_vf::CoordinatorMessage;
use vstd::prelude::*;

verus! {

/// A target processor that stands for no interrupts.
pub const VP_INDEX_DISABLE_INTERRUPT: u32 = 0xffff_ffff;

/// One channel.
#[derive(Debug, Clone, Copy, PartialEq, Eq, Structural)]
pub struct ChannelSlot {
    /// Whether it is open: whether there is a worker.
    pub open: bool,
    /// Whether the worker is running.
    pub running: bool,
    /// The processor that interrupts go to.
    pub target_vp: u32,
    /// Whether there is a queue, and if so, whether it knows that processor.
    pub queue: Option<bool>,
}

impl ChannelSlot {
    /// A channel that was never opened.
    pub open spec fn closed() -> ChannelSlot {
        ChannelSlot { open: false, running: false, target_vp: 0, queue: None }
    }
}

/// The coordinator, which is there while the primary channel is open.
#[derive(Debug)]
pub struct CoordinatorSlot {
    /// Whether it is running.
    pub running: bool,
    /// Whether it restarts the queues as soon as it runs.
    pub restart: bool,
    /// The number of queues that the guest asked for.
    pub num_queues: u16,
    /// Whether the guest has provided its buffers.
    pub has_buffers: bool,
    /// The channels, the primary one first.
    pub slots: Vec<ChannelSlot>,
}

/// The coordinator.
#[verifier::ext_equal]
pub struct CoordinatorView {
    /// Whether it is running.
    pub running: bool,
    /// Whether it restarts the queues as soon as it runs.
    pub restart: bool,
    /// The number of queues that the guest asked for.
    pub num_queues: u16,
    /// Whether the guest has provided its buffers.
    pub has_buffers: bool,
    /// The channels, the primary one first.
    pub slots: Seq<ChannelSlot>,
}

impl View for CoordinatorSlot {
    type V = CoordinatorView;

    open spec fn view(&self) -> CoordinatorView {
        CoordinatorView {
            running: self.running,
            restart: self.restart,
            num_queues: self.num_queues,
            has_buffers: self.has_buffers,
            slots: self.slots@,
        }
    }
}

/// The channels of an adapter.
#[derive(Debug)]
pub struct Channels {
    /// The most channels that can be open.
    pub max_queues: u16,
    /// The number of channels that were opened and not closed again.
    pub num_opened: u64,
    /// The coordinator.
    pub coordinator: Option<CoordinatorSlot>,
}

/// The channels of an adapter.
#[verifier::ext_equal]
pub struct ChannelsView {
    /// The most channels that can be open.
    pub max_queues: u16,
    /// The number of channels that were opened and not closed again.
    pub num_opened: u64,
    /// The coordinator.
    pub coordinator: Option<CoordinatorView>,
}

impl View for Channels {
    type V = ChannelsView;

    open spec fn view(&self) -> ChannelsView {
        ChannelsView {
            max_queues: self.max_queues,
            num_opened: self.num_opened,
            coordinator: match self.coordinator {
                Some(c) => Some(c@),
                None => None,
            },
        }
    }
}

impl ChannelsView {
    /// Whether there is a place for each channel.
    pub open spec fn wf(self) -> bool {
        self.coordinator matches Some(c) ==> c.slots.len() == self.max_queues
    }

    /// Whether a channel can be opened: the primary one first, and others once there
    /// are buffers.
    pub open spec fn can_open(self, channel_idx: u16) -> bool {
        &&& channel_idx < self.max_queues
        &&& self.num_opened < u64::MAX
        &&& channel_idx == 0 ==> self.coordinator is None
        &&& channel_idx != 0 ==> (self.coordinator matches Some(c) && c.has_buffers)
    }
}

/// A coordinator without open channels.
pub open spec fn new_coordinator(max_queues: u16, num_queues: u16, restoring: bool) -> CoordinatorView {
    CoordinatorView {
        running: false,
        restart: restoring,
        num_queues,
        has_buffers: false,
        slots: Seq::new(max_queues as nat, |i: int| ChannelSlot::closed()),
    }
}

/// The coordinator with another open channel, or without it if `ok` is not set, and
/// with the primary worker stopped if that was the last channel to be opened.
pub open spec fn with_channel(
    c: CoordinatorView,
    channel_idx: u16,
    target_vp: u32,
    ok: bool,
    num_opened: u64,
) -> CoordinatorView {
    let slots = if ok {
        c.slots.update(
            channel_idx as int,
            ChannelSlot { open: true, running: true, target_vp, ..c.slots[channel_idx as int] },
        )
    } else {
        c.slots
    };
    CoordinatorView {
        running: true,
        slots: if channel_idx != 0 && num_opened == c.num_queues {
            slots.update(0, ChannelSlot { running: false, ..slots[0] })
        } else {
            slots
        },
        ..c
    }
}

/// The channels after one was opened, or after that failed, if `ok` is not set.
pub open spec fn opened(v: ChannelsView, channel_idx: u16, target_vp: u32, ok: bool) -> ChannelsView {
    let num_opened = (v.num_opened + 1) as u64;
    let c = if channel_idx == 0 {
        new_coordinator(v.max_queues, 1, false)
    } else {
        v.coordinator->0
    };
    ChannelsView {
        num_opened,
        coordinator: if !ok && channel_idx == 0 {
            None
        } else {
            Some(with_channel(c, channel_idx, target_vp, ok, num_opened))
        },
        ..v
    }
}

/// The channels after one was closed. Nothing is left once the primary one is closed.
pub open spec fn closed(v: ChannelsView, channel_idx: u16) -> ChannelsView {
    match v.coordinator {
        None => v,
        Some(c) => ChannelsView {
            num_opened: (v.num_opened - 1) as u64,
            coordinator: if channel_idx == 0 {
                None
            } else {
                Some(
                    CoordinatorView {
                        slots: c.slots.update(
                            channel_idx as int,
                            ChannelSlot {
                                open: false,
                                running: false,
                                ..c.slots[channel_idx as int]
                            },
                        ),
                        ..c
                    },
                )
            },
            ..v
        },
    }
}

/// The channels after interrupts of one were sent to another processor. Its worker is
/// stopped, and tells the queue when the coordinator starts it again.
pub open spec fn retargeted(v: ChannelsView, channel_idx: u16, target_vp: u32) -> ChannelsView {
    match v.coordinator {
        None => v,
        Some(c) => {
            let s = c.slots[channel_idx as int];
            ChannelsView {
                coordinator: Some(
                    CoordinatorView {
                        slots: c.slots.update(
                            channel_idx as int,
                            if s.open {
                                ChannelSlot {
                                    running: false,
                                    target_vp,
                                    queue: if s.queue is Some {
                                        Some(false)
                                    } else {
                                        None
                                    },
                                    ..s
                                }
                            } else {
                                ChannelSlot { running: false, ..s }
                            },
                        ),
                        ..c
                    },
                ),
                ..v
            }
        },
    }
}

fn insert_coordinator(max_queues: u16, num_queues: u16, restoring: bool) -> (c: CoordinatorSlot)
    ensures
        c@ == new_coordinator(max_queues, num_queues, restoring),
{
    let mut slots: Vec<ChannelSlot> = Vec::new();
    let mut i: u16 = 0;
    while i < max_queues
        invariant
            i <= max_queues,
            slots@ == Seq::new(i as nat, |k: int| ChannelSlot::closed()),
        decreases max_queues - i,
    {
        slots.push(ChannelSlot { open: false, running: false, target_vp: 0, queue: None });
        i = i + 1;
        assert(slots@ =~= Seq::new(i as nat, |k: int| ChannelSlot::closed()));
    }
    CoordinatorSlot { running: false, restart: restoring, num_queues, has_buffers: false, slots }
}

impl Channels {
    /// The channels of a new adapter.
    pub fn new(max_queues: u16) -> (c: Channels)
        ensures
            c@ == (ChannelsView { max_queues, num_opened: 0, coordinator: None }),
            c@.wf(),
    {
        Channels { max_queues, num_opened: 0, coordinator: None }
    }

    /// Opens a channel. `ring_ok` says whether its ring could be opened.
    pub fn open(&mut self, channel_idx: u16, target_vp: u32, ring_ok: bool)
        requires
            old(self)@.wf(),
            old(self)@.can_open(channel_idx),
        ensures
            final(self)@ == opened(old(self)@, channel_idx, target_vp, ring_ok),
            final(self)@.wf(),
    {
        let ghost first = self@;
        let current = self.coordinator.take();
        let mut c = match current {
            Some(c) => c,
            None => insert_coordinator(self.max_queues, 1, false),
        };
        let ghost before = c@;
        self.num_opened = self.num_opened + 1;
        if ring_ok {
            let slot = c.slots[channel_idx as usize];
            c.slots.set(
                channel_idx as usize,
                ChannelSlot { open: true, running: true, target_vp, queue: slot.queue },
            );
        }
        if channel_idx != 0 && self.num_opened == c.num_queues as u64 {
            let slot = c.slots[0];
            c.slots.set(
                0,
                ChannelSlot {
                    open: slot.open,
                    running: false,
                    target_vp: slot.target_vp,
                    queue: slot.queue,
                },
            );
        }
        if ring_ok || channel_idx != 0 {
            // The coordinator starts all workers that are stopped.
            c.running = true;
            assert(c@ =~= with_channel(before, channel_idx, target_vp, ring_ok, self.num_opened));
            self.coordinator = Some(c);
        }
    }

    /// Closes a channel. Returns whether the endpoint has to be stopped, which is
    /// when the primary channel is closed. A VF that the guest has stays, since some
    /// applications rely on that.
    pub fn close(&mut self, channel_idx: u16) -> (stop_endpoint: bool)
        requires
            old(self)@.wf(),
            channel_idx < old(self)@.max_queues,
            old(self)@.coordinator is Some ==> old(self)@.num_opened > 0,
        ensures
            final(self)@ == closed(old(self)@, channel_idx),
            final(self)@.wf(),
            stop_endpoint == (old(self)@.coordinator is Some && channel_idx == 0),
    {
        let ghost first = self@;
        match self.coordinator.take() {
            None => false,
            Some(c) => {
                let mut c = c;
                self.num_opened = self.num_opened - 1;
                if channel_idx == 0 {
                    true
                } else {
                    let slot = c.slots[channel_idx as usize];
                    c.slots.set(
                        channel_idx as usize,
                        ChannelSlot {
                            open: false,
                            running: false,
                            target_vp: slot.target_vp,
                            queue: slot.queue,
                        },
                    );
                    self.coordinator = Some(c);
                    false
                }
            },
        }
    }

    /// Sends the interrupts of a channel to another processor.
    pub fn retarget_vp(&mut self, channel_idx: u16, target_vp: u32)
        requires
            old(self)@.wf(),
            channel_idx < old(self)@.max_queues,
        ensures
            final(self)@ == retargeted(old(self)@, channel_idx, target_vp),
            final(self)@.wf(),
    {
        match self.coordinator.take() {
            None => {},
            Some(c) => {
                let mut c = c;
                let slot = c.slots[channel_idx as usize];
                let queue: Option<bool> = if slot.open && slot.queue.is_some() {
                    Some(false)
                } else {
                    slot.queue
                };
                let target_vp: u32 = if slot.open {
                    target_vp
                } else {
                    slot.target_vp
                };
                c.slots.set(
                    channel_idx as usize,
                    ChannelSlot { open: slot.open, running: false, target_vp, queue },
                );
                self.coordinator = Some(c);
            },
        }
    }
}

/// Closing a subchannel takes back that it was opened, unless it was the last one,
/// which stops the primary worker.
pub proof fn close_takes_back_open(v: ChannelsView, channel_idx: u16, target_vp: u32)
    requires
        v.wf(),
        v.can_open(channel_idx),
        channel_idx != 0,
        v.num_opened + 1 != v.coordinator->0.num_queues,
        v.coordinator->0.running,
        !v.coordinator->0.slots[channel_idx as int].open,
        !v.coordinator->0.slots[channel_idx as int].running,
    ensures
        ({
            let w = closed(opened(v, channel_idx, target_vp, true), channel_idx);
            let i = channel_idx as int;
            &&& w.num_opened == v.num_opened
            &&& w.coordinator is Some
            &&& w.coordinator->0.slots == v.coordinator->0.slots.update(
                i,
                ChannelSlot { target_vp, ..v.coordinator->0.slots[i] },
            )
        }),
{
    let w = closed(opened(v, channel_idx, target_vp, true), channel_idx);
    let i = channel_idx as int;
    assert(w.coordinator->0.slots =~= v.coordinator->0.slots.update(
        i,
        ChannelSlot { target_vp, ..v.coordinator->0.slots[i] },
    ));
}

/// Once the primary channel is closed nothing is open.
pub proof fn nothing_outlives_primary(v: ChannelsView)
    requires
        v.wf(),
    ensures
        closed(v, 0).coordinator is None,
{
}

/// What a worker has got to.
#[derive(Debug, Clone, Copy, PartialEq, Eq, Structural)]
pub enum WorkerPhase {
    /// The channel is being negotiated.
    Init,
    /// The channel is ready.
    Ready,
}

/// What a worker does next.
#[derive(Debug, Clone, Copy, PartialEq, Eq, Structural)]
pub enum WorkerStep {
    /// Wait to be stopped.
    WaitForStop,
    /// Negotiate the channel.
    Initialize,
    /// Tell the queue which processor interrupts go to, and then run the channel.
    UpdateTargetVp,
    /// Run the channel.
    Run,
}

/// What a worker does next. A subchannel cannot do anything before the coordinator
/// has buffers for it, nor any channel before there is a queue.
pub fn worker_step(phase: WorkerPhase, channel_idx: u16, slot: &ChannelSlot) -> (s: WorkerStep)
    ensures
        s == match phase {
            WorkerPhase::Init => if channel_idx != 0 {
                WorkerStep::WaitForStop
            } else {
                WorkerStep::Initialize
            },
            WorkerPhase::Ready => match slot.queue {
                None => WorkerStep::WaitForStop,
                Some(target_vp_set) => if !target_vp_set && slot.target_vp
                    != VP_INDEX_DISABLE_INTERRUPT {
                    WorkerStep::UpdateTargetVp
                } else {
                    WorkerStep::Run
                },
            },
        },
{
    match phase {
        WorkerPhase::Init => if channel_idx != 0 {
            WorkerStep::WaitForStop
        } else {
            WorkerStep::Initialize
        },
        WorkerPhase::Ready => match slot.queue {
            None => WorkerStep::WaitForStop,
            Some(target_vp_set) => if !target_vp_set && slot.target_vp
                != VP_INDEX_DISABLE_INTERRUPT {
                WorkerStep::UpdateTargetVp
            } else {
                WorkerStep::Run
            },
        },
    }
}

/// What follows when a channel has stopped running.
#[derive(Debug, Clone, Copy, PartialEq, Eq, Structural)]
pub enum AfterRun {
    /// Send this to the coordinator, whatever comes of that, and wait to be stopped.
    Send(CoordinatorMessage),
    /// Have the coordinator restart the queues, and wait to be stopped; fail if it
    /// cannot be told.
    Restart,
    /// Fail.
    Fail(WorkerError),
}

/// What follows when a channel has stopped running. Only the primary channel stops
/// to tell the coordinator something.
pub fn after_run(channel_idx: u16, r: Result<CoordinatorMessage, WorkerError>) -> (a: AfterRun)
    requires
        r is Ok ==> channel_idx == 0,
    ensures
        a == match r {
            Ok(m) => AfterRun::Send(m),
            Err(WorkerError::EndpointRequiresQueueRestart) => AfterRun::Restart,
            Err(e) => AfterRun::Fail(e),
        },
{
    match r {
        Ok(m) => AfterRun::Send(m),
        Err(WorkerError::EndpointRequiresQueueRestart) => AfterRun::Restart,
        Err(e) => AfterRun::Fail(e),
    }
}

/// Whether an error of a worker is worth a report: not if the guest took a buffer
/// back or the worker was stopped.
pub fn is_reported(e: &WorkerError) -> (b: bool)
    ensures
        b == !(e is BufferRevoked),
{
    match e {
        WorkerError::BufferRevoked => false,
        _ => true,
    }
}

/// Opening the primary channel brings the coordinator, with one queue and no buffers yet, and
/// every other channel closed. If it fails there is none. The channel that was opened runs, on
/// the processor that it was opened for.
pub proof fn primary_channel_brings_coordinator(v: ChannelsView, target_vp: u32, ok: bool)
    requires
        v.can_open(0),
    ensures
        ({
            let w = opened(v, 0, target_vp, ok);
            &&& w.max_queues == v.max_queues
            &&& w.num_opened == v.num_opened + 1
            &&& w.coordinator is Some <==> ok
            &&& w.coordinator matches Some(c) ==> {
                &&& c.running
                &&& !c.restart
                &&& c.num_queues == 1
                &&& !c.has_buffers
                &&& c.slots.len() == v.max_queues
                &&& c.slots[0].open && c.slots[0].running && c.slots[0].target_vp == target_vp
                &&& c.slots[0].queue is None
                &&& forall|k: int|
                    0 < k < v.max_queues ==> !(#[trigger] c.slots[k]).open && !c.slots[k].running
                        && c.slots[k].queue is None
            }
        }),
{
}

/// Opening a subchannel opens that one, on its processor, and leaves the others as they are,
/// except that the primary worker is stopped when the last channel that the guest asked for is
/// there, so that it can tell the guest. The coordinator runs either way.
pub proof fn subchannel_is_opened(v: ChannelsView, channel_idx: u16, target_vp: u32, ok: bool)
    requires
        v.wf(),
        v.can_open(channel_idx),
        channel_idx != 0,
    ensures
        ({
            let c = v.coordinator->0;
            let i = channel_idx as int;
            let w = opened(v, channel_idx, target_vp, ok);
            let d = w.coordinator->0;
            let all = v.num_opened + 1 == c.num_queues;
            &&& w.num_opened == v.num_opened + 1
            &&& w.coordinator is Some
            &&& d.running
            &&& d.restart == c.restart && d.num_queues == c.num_queues && d.has_buffers
                == c.has_buffers
            &&& d.slots.len() == c.slots.len()
            &&& ok ==> d.slots[i].open && d.slots[i].running && d.slots[i].target_vp == target_vp
                && d.slots[i].queue == c.slots[i].queue
            &&& !ok ==> d.slots[i] == c.slots[i]
            &&& forall|k: int|
                0 < k < c.slots.len() && k != i ==> #[trigger] d.slots[k] == c.slots[k]
            &&& d.slots[0].running == (c.slots[0].running && !all)
            &&& d.slots[0].open == c.slots[0].open
        }),
{
}

/// Closing a channel closes and stops that one. The others stay as they are, unless it was the
/// primary one: then the coordinator is gone with all of them.
pub proof fn channel_is_closed(v: ChannelsView, channel_idx: u16)
    requires
        v.wf(),
        v.coordinator is Some,
        v.num_opened >= 1,
        channel_idx < v.max_queues,
    ensures
        ({
            let c = v.coordinator->0;
            let i = channel_idx as int;
            let w = closed(v, channel_idx);
            &&& w.num_opened == v.num_opened - 1
            &&& w.max_queues == v.max_queues
            &&& w.coordinator is Some <==> channel_idx != 0
            &&& w.coordinator matches Some(d) ==> {
                &&& d.slots.len() == c.slots.len()
                &&& !d.slots[i].open && !d.slots[i].running
                &&& d.slots[i].queue == c.slots[i].queue
                &&& forall|k: int|
                    0 <= k < c.slots.len() && k != i ==> #[trigger] d.slots[k] == c.slots[k]
                &&& d.running == c.running && d.restart == c.restart && d.num_queues
                    == c.num_queues && d.has_buffers == c.has_buffers
            }
        }),
{
}

/// An open channel whose interrupts go elsewhere is stopped, and its queue has to be told of
/// the processor before it runs again. A channel that is not open is only stopped.
pub proof fn retargeted_channel_tells_queue(v: ChannelsView, channel_idx: u16, target_vp: u32)
    requires
        v.wf(),
        v.coordinator is Some,
        channel_idx < v.max_queues,
    ensures
        ({
            let c = v.coordinator->0;
            let i = channel_idx as int;
            let w = retargeted(v, channel_idx, target_vp);
            let d = w.coordinator->0;
            &&& w.num_opened == v.num_opened
            &&& w.coordinator is Some
            &&& d.slots.len() == c.slots.len()
            &&& !d.slots[i].running
            &&& d.slots[i].open == c.slots[i].open
            &&& d.slots[i].queue is Some <==> c.slots[i].queue is Some
            &&& c.slots[i].open ==> d.slots[i].target_vp == target_vp
            &&& c.slots[i].open && c.slots[i].queue is Some ==> d.slots[i].queue == Some(false)
            &&& !c.slots[i].open ==> d.slots[i].target_vp == c.slots[i].target_vp
                && d.slots[i].queue == c.slots[i].queue
            &&& forall|k: int|
                0 <= k < c.slots.len() && k != i ==> #[trigger] d.slots[k] == c.slots[k]
        }),
{
}

/// Channels are opened in order: the primary one while there is none, and others once the
/// guest has provided its buffers.
pub proof fn channels_are_opened_in_order(v: ChannelsView, channel_idx: u16)
    requires
        v.num_opened < u64::MAX,
    ensures
        v.can_open(0) <==> v.max_queues > 0 && v.coordinator is None,
        channel_idx != 0 ==> (v.can_open(channel_idx) <==> channel_idx < v.max_queues
            && v.coordinator is Some && v.coordinator->0.has_buffers),
{
}

} // verus!
