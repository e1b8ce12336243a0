//! The queue of control messages.
use crate::netvsp::control::{
    buffers_wf, control_outcome, fit_result, status_message, ChannelView, NetChannel,
    MIN_CONTROL_RING_SIZE,
};
use crate::netvsp::error::WorkerError;
use crate::netvsp::guest_vf::RndisState;
use crate::netvsp::rndis::STATUS_TASK_OFFLOAD_CURRENT_CONFIG;
use crate::netvsp::rx::{first_conflict, in_groups, RxBuffers, RX_RESERVED_CONTROL_BUFFERS};
use crate::netvsp::state::{
    lemma_total_len_nonneg, lemma_total_len_push, total_len, ActiveState, ActiveView,
    ChannelBuffers, ControlMessage, ControlMessageView, PrimaryChannelState, PrimaryView,
};
use crate::wire::copy_bytes;
use vstd::prelude::*;

verus! {

/// The most bytes of control messages that may wait.
pub const CONTROL_MESSAGE_MAX_QUEUED_BYTES: usize = 102400;

/// Why a control message is not queued.
pub open spec fn queue_error(p: PrimaryView, data: Seq<u8>) -> Option<WorkerError> {
    if data.len() == 0 {
        Some(WorkerError::RndisMessageTooSmall)
    } else if total_len(p.control_messages) + data.len() > CONTROL_MESSAGE_MAX_QUEUED_BYTES {
        // The guest should not be sending very many control messages at a time.
        Some(WorkerError::TooManyControlMessages)
    } else {
        None
    }
}

/// Queues a control message. Answering it needs a suballocation, which may not
/// be available right now.
pub fn queue_control_message(
    primary: &mut PrimaryChannelState,
    message_type: u32,
    data: &[u8],
) -> (r: Result<(), WorkerError>)
    requires
        old(primary).wf(),
        old(primary).control_messages_len <= CONTROL_MESSAGE_MAX_QUEUED_BYTES,
    ensures
        final(primary).wf(),
        final(primary).control_messages_len <= CONTROL_MESSAGE_MAX_QUEUED_BYTES,
        match queue_error(old(primary)@, data@) {
            Some(err) => r == Err::<(), WorkerError>(err) && *final(primary) == *old(primary),
            None => {
                &&& r is Ok
                &&& final(primary)@ == (PrimaryView {
                    control_messages: old(primary)@.control_messages.push(
                        ControlMessageView { message_type, data: data@ },
                    ),
                    ..old(primary)@
                })
            },
        },
{
    if data.len() == 0 {
        return Err(WorkerError::RndisMessageTooSmall);
    }
    if CONTROL_MESSAGE_MAX_QUEUED_BYTES - primary.control_messages_len < data.len() {
        return Err(WorkerError::TooManyControlMessages);
    }
    primary.control_messages_len = primary.control_messages_len + data.len();
    let copy = copy_bytes(data, 0, data.len());
    assert(copy@ =~= data@);
    primary.control_messages.push_back(ControlMessage { message_type, data: copy });
    proof {
        lemma_total_len_push(
            old(primary)@.control_messages,
            ControlMessageView { message_type, data: data@ },
        );
        assert(primary@.control_messages =~= old(primary)@.control_messages.push(
            ControlMessageView { message_type, data: data@ },
        ));
    }
    Ok(())
}

/// What the processing of control messages works on.
pub struct ControlRun {
    /// The channel.
    pub channel: ChannelView,
    /// The primary state.
    pub primary: PrimaryView,
    /// The receive buffers that the guest holds.
    pub rx_groups: Seq<Seq<u32>>,
}

/// Whether the free control buffers are reserved ones, each listed once, that
/// the guest does not hold.
pub open spec fn control_buffers_free(free: Seq<u32>, rx_groups: Seq<Seq<u32>>) -> bool {
    &&& forall|i: int|
        0 <= i < free.len() ==> #[trigger] free[i] < RX_RESERVED_CONTROL_BUFFERS && !in_groups(
            rx_groups,
            free[i],
        )
    &&& forall|i: int, j: int| 0 <= i < j < free.len() ==> free[i] != free[j]
}

/// Whether something waits to be sent to the guest.
pub open spec fn control_work_left(p: PrimaryView) -> bool {
    p.control_messages.len() > 0 || (p.pending_offload_change && p.rndis_state
        == RndisState::Operational)
}

/// One step: the oldest control message is answered, or else the guest is told
/// of the offloads. A receive buffer is handed to the guest with it.
#[verifier::opaque]
pub open spec fn control_step(b: ChannelBuffers, s: ControlRun) -> (
    ControlRun,
    Result<(), WorkerError>,
) {
    let id = s.primary.free_control_buffers.last();
    let taken = PrimaryView {
        free_control_buffers: s.primary.free_control_buffers.drop_last(),
        ..s.primary
    };
    let rx_groups = s.rx_groups.push(seq![id]);
    if s.primary.control_messages.len() > 0 {
        let m = s.primary.control_messages[0];
        let outcome = control_outcome(
            s.channel,
            b,
            PrimaryView { control_messages: taken.control_messages.drop_first(), ..taken },
            m.message_type,
            m.data,
            id,
        );
        (
            ControlRun { channel: outcome.channel, primary: outcome.primary, rx_groups },
            outcome.result,
        )
    } else {
        let reply = s.channel.replied(
            b,
            id,
            status_message(
                STATUS_TASK_OFFLOAD_CURRENT_CONFIG,
                taken.offload_config.ndis_offload_bytes(),
            ),
        );
        (
            ControlRun {
                channel: reply.0,
                primary: if reply.1 {
                    PrimaryView { pending_offload_change: false, ..taken }
                } else {
                    taken
                },
                rx_groups,
            },
            fit_result(reply.1),
        )
    }
}

/// All steps, until nothing waits, the ring is too full, or no receive buffer is
/// free.
pub open spec fn control_run(b: ChannelBuffers, s: ControlRun) -> (
    ControlRun,
    Result<(), WorkerError>,
)
    decreases s.primary.free_control_buffers.len(),
{
    if !control_work_left(s.primary) {
        (s, Ok(()))
    } else if s.channel.out.free < MIN_CONTROL_RING_SIZE {
        (
            ControlRun {
                channel: ChannelView { pending_send_size: MIN_CONTROL_RING_SIZE, ..s.channel },
                ..s
            },
            Ok(()),
        )
    } else if s.primary.free_control_buffers.len() == 0 {
        (s, Ok(()))
    } else {
        let step = control_step(b, s);
        if step.1 is Ok && step.0.primary.free_control_buffers.len()
            < s.primary.free_control_buffers.len() {
            control_run(b, step.0)
        } else {
            step
        }
    }
}

/// A control message uses no receive buffer but the one that it was given, and
/// leaves the queue alone.
pub proof fn control_message_keeps_queue(
    c: ChannelView,
    b: ChannelBuffers,
    p: PrimaryView,
    message_type: u32,
    data: Seq<u8>,
    id: u32,
)
    ensures
        ({
            let after = control_outcome(c, b, p, message_type, data, id);
            &&& after.primary.free_control_buffers == p.free_control_buffers
            &&& after.primary.control_messages == p.control_messages
            &&& after.channel.adapter == c.adapter
            &&& after.channel.packet_size == c.packet_size
            &&& after.channel.pending_send_size == c.pending_send_size
        }),
{
}

impl NetChannel {
    fn process_control_message(
        &mut self,
        buffers: &ChannelBuffers,
        primary: &mut PrimaryChannelState,
        id: u32,
    ) -> (r: Result<(), WorkerError>)
        requires
            buffers_wf(old(self).packet_size, *buffers),
            id < buffers.recv_buffer.count,
            old(primary).wf(),
            old(primary)@.control_messages.len() > 0,
        ensures
            ({
                let p = old(primary)@;
                let outcome = control_outcome(
                    old(self)@,
                    *buffers,
                    PrimaryView { control_messages: p.control_messages.drop_first(), ..p },
                    p.control_messages[0].message_type,
                    p.control_messages[0].data,
                    id,
                );
                &&& final(self)@ == outcome.channel
                &&& final(primary)@ == outcome.primary
                &&& r == outcome.result
            }),
            final(primary).wf(),
            final(primary).control_messages_len <= old(primary).control_messages_len,
    {
        match primary.control_messages.pop_front() {
            Some(m) => {
                proof {
                    lemma_total_len_nonneg(old(primary)@.control_messages.drop_first());
                    assert(old(primary)@.control_messages[0] == m@);
                }
                primary.control_messages_len = primary.control_messages_len - m.data.len();
                assert(primary@.control_messages =~= old(
                    primary,
                )@.control_messages.drop_first());
                self.handle_rndis_control_message(
                    primary,
                    buffers,
                    m.message_type,
                    m.data.as_slice(),
                    id,
                )
            },
            None => Ok(()),
        }
    }

    fn report_offload_change(
        &mut self,
        buffers: &ChannelBuffers,
        primary: &mut PrimaryChannelState,
        id: u32,
    ) -> (r: Result<(), WorkerError>)
        requires
            buffers_wf(old(self).packet_size, *buffers),
            id < buffers.recv_buffer.count,
            old(primary).wf(),
        ensures
            ({
                let p = old(primary)@;
                let reply = old(self)@.replied(
                    *buffers,
                    id,
                    status_message(
                        STATUS_TASK_OFFLOAD_CURRENT_CONFIG,
                        p.offload_config.ndis_offload_bytes(),
                    ),
                );
                &&& final(self)@ == reply.0
                &&& final(primary)@ == if reply.1 {
                    PrimaryView { pending_offload_change: false, ..p }
                } else {
                    p
                }
                &&& r == fit_result(reply.1)
            }),
            final(primary).wf(),
            final(primary).control_messages_len == old(primary).control_messages_len,
    {
        let ndis_offload = primary.offload_config.ndis_offload();
        match self.indicate_status(
            buffers,
            id,
            STATUS_TASK_OFFLOAD_CURRENT_CONFIG,
            &ndis_offload,
        ) {
            Ok(()) => {
                primary.pending_offload_change = false;
                Ok(())
            },
            Err(err) => Err(err),
        }
    }

    fn take_control_step(
        &mut self,
        buffers: &ChannelBuffers,
        primary: &mut PrimaryChannelState,
        rx_bufs: &mut RxBuffers,
    ) -> (r: Result<(), WorkerError>)
        requires
            buffers_wf(old(self).packet_size, *buffers),
            old(rx_bufs).spec_count() == buffers.recv_buffer.count,
            old(primary).wf(),
            old(primary)@.free_control_buffers.len() > 0,
            control_buffers_free(old(primary)@.free_control_buffers, old(rx_bufs).spec_groups()),
        ensures
            ({
                let step = control_step(
                    *buffers,
                    ControlRun {
                        channel: old(self)@,
                        primary: old(primary)@,
                        rx_groups: old(rx_bufs).spec_groups(),
                    },
                );
                &&& r == step.1
                &&& final(self)@ == step.0.channel
                &&& final(primary)@ == step.0.primary
                &&& final(rx_bufs).spec_groups() == step.0.rx_groups
            }),
            final(rx_bufs).spec_count() == old(rx_bufs).spec_count(),
            final(self).packet_size == old(self).packet_size,
            final(primary).wf(),
            final(primary).control_messages_len <= old(primary).control_messages_len,
            final(primary)@.free_control_buffers.len() < old(primary)@.free_control_buffers.len(),
            control_buffers_free(final(primary)@.free_control_buffers, final(rx_bufs).spec_groups()),
    {
        reveal(control_step);
        let ghost free = primary@.free_control_buffers;
        let ghost groups = rx_bufs.spec_groups();
        let id: u32 = match primary.free_control_buffers.pop() {
            Some(id) => id,
            None => return Ok(()),
        };
        // Mark the receive buffer in use to allow the guest to release it.
        let mut ids: Vec<u32> = Vec::new();
        ids.push(id);
        assert(ids@ =~= seq![id]);
        proof {
            assert(id == free.last());
            assert(id == free[free.len() - 1]);
            assert(!in_groups(groups, id));
            reveal_with_fuel(first_conflict, 2);
            assert(!seq![id].take(0).contains(id));
            lemma_still_free(free, groups);
        }
        let allocated = rx_bufs.allocate(ids);
        assert(allocated is Ok);
        if primary.control_messages.len() > 0 {
            proof {
                control_message_keeps_queue(
                    self@,
                    *buffers,
                    PrimaryView {
                        control_messages: primary@.control_messages.drop_first(),
                        ..primary@
                    },
                    primary@.control_messages[0].message_type,
                    primary@.control_messages[0].data,
                    id,
                );
            }
            self.process_control_message(buffers, primary, id)
        } else {
            self.report_offload_change(buffers, primary, id)
        }
    }

    /// Processes pending control messages until all are processed or there are
    /// no free suballocations. Does nothing on a subchannel.
    #[verifier::rlimit(60)]
    #[verifier::spinoff_prover]
    pub fn process_control_messages(
        &mut self,
        buffers: &ChannelBuffers,
        state: &mut ActiveState,
    ) -> (r: Result<(), WorkerError>)
        requires
            buffers_wf(old(self).packet_size, *buffers),
            old(state)@.rx_count == buffers.recv_buffer.count,
            old(state).primary matches Some(p) ==> p.wf() && control_buffers_free(
                p@.free_control_buffers,
                old(state)@.rx_groups,
            ),
        ensures
            match old(state)@.primary {
                None => r is Ok && *final(self) == *old(self) && *final(state) == *old(state),
                Some(p) => {
                    let run = control_run(
                        *buffers,
                        ControlRun {
                            channel: old(self)@,
                            primary: p,
                            rx_groups: old(state)@.rx_groups,
                        },
                    );
                    &&& r == run.1
                    &&& final(self)@ == run.0.channel
                    &&& final(state)@ == (ActiveView {
                        primary: Some(run.0.primary),
                        rx_groups: run.0.rx_groups,
                        ..old(state)@
                    })
                    &&& final(state).primary is Some
                    &&& final(state).primary->0.wf()
                    &&& final(state).primary->0.control_messages_len <= old(
                        state,
                    ).primary->0.control_messages_len
                    &&& control_buffers_free(
                        final(state)@.primary->0.free_control_buffers,
                        final(state)@.rx_groups,
                    )
                },
            },
    {
        let mut primary = match state.primary.take() {
            Some(primary) => primary,
            None => {
                return Ok(());
            },
        };
        let ghost start = ControlRun {
            channel: self@,
            primary: primary@,
            rx_groups: state@.rx_groups,
        };
        let mut result: Result<(), WorkerError> = Ok(());
        let mut done = false;
        while !done
            invariant
                !done ==> result == Ok::<(), WorkerError>(()),
                buffers_wf(self.packet_size, *buffers),
                state@.rx_count == buffers.recv_buffer.count,
                state@ == (ActiveView { primary: None, rx_groups: state@.rx_groups, ..old(state)@ }),
                primary.wf(),
                primary.control_messages_len <= old(state).primary->0.control_messages_len,
                control_buffers_free(primary@.free_control_buffers, state@.rx_groups),
                ({
                    let now = ControlRun {
                        channel: self@,
                        primary: primary@,
                        rx_groups: state@.rx_groups,
                    };
                    if done {
                        control_run(*buffers, start) == (now, result)
                    } else {
                        control_run(*buffers, start) == control_run(*buffers, now)
                    }
                }),
            decreases
                    primary@.free_control_buffers.len() + (if done {
                        0int
                    } else {
                        1
                    }),
        {
            let ghost before = ControlRun {
                channel: self@,
                primary: primary@,
                rx_groups: state@.rx_groups,
            };
            assert(primary@.control_messages.len() == primary.control_messages@.len());
            let pending_offload = primary.pending_offload_change && match primary.rndis_state {
                RndisState::Operational => true,
                _ => false,
            };
            if primary.control_messages.len() == 0 && !pending_offload {
                done = true;
            } else if !self.out.can_write(MIN_CONTROL_RING_SIZE) {
                // Ensure the ring has enough room to handle a message.
                self.pending_send_size = MIN_CONTROL_RING_SIZE;
                done = true;
                assert(control_run(*buffers, before).0.channel == self@);
            } else {
                if primary.free_control_buffers.len() == 0 {
                    done = true;
                } else if let Err(err) = self.take_control_step(
                    buffers,
                    &mut primary,
                    &mut state.rx_bufs,
                ) {
                    result = Err(err);
                    done = true;
                    assert(control_run(*buffers, before) == control_step(*buffers, before));
                } else {
                    assert(control_run(*buffers, before) == control_run(
                        *buffers,
                        control_step(*buffers, before).0,
                    ));
                }
            }
        }
        state.primary = Some(primary);
        result
    }
}

/// Handing out the last free control buffer leaves the others free.
pub proof fn lemma_still_free(free: Seq<u32>, rx_groups: Seq<Seq<u32>>)
    requires
        free.len() > 0,
        control_buffers_free(free, rx_groups),
    ensures
        control_buffers_free(free.drop_last(), rx_groups.push(seq![free.last()])),
{
    let groups = rx_groups.push(seq![free.last()]);
    assert forall|i: int| 0 <= i < free.drop_last().len() implies #[trigger] free.drop_last()[i]
        < RX_RESERVED_CONTROL_BUFFERS && !in_groups(groups, free.drop_last()[i]) by {
        let id = free[i];
        assert(id != free.last());
        assert forall|g: int| 0 <= g < groups.len() implies !(#[trigger] groups[g]).contains(
            id,
        ) by {
            if g < rx_groups.len() {
                assert(groups[g] == rx_groups[g]);
            }
        }
    }
}

/// Control messages are handled one at a time, the oldest first, each with a control buffer of
/// its own that the guest then holds. The offloads are reported once no message waits.
pub proof fn oldest_control_message_goes_first(b: ChannelBuffers, s: ControlRun)
    requires
        s.primary.free_control_buffers.len() > 0,
        control_work_left(s.primary),
    ensures
        ({
            let (next, r) = control_step(b, s);
            let id = s.primary.free_control_buffers.last();
            &&& next.primary.free_control_buffers == s.primary.free_control_buffers.drop_last()
            &&& next.rx_groups == s.rx_groups.push(seq![id])
            &&& if s.primary.control_messages.len() > 0 {
                let m = s.primary.control_messages[0];
                let rest = PrimaryView {
                    control_messages: s.primary.control_messages.skip(1),
                    free_control_buffers: s.primary.free_control_buffers.drop_last(),
                    ..s.primary
                };
                let o = control_outcome(s.channel, b, rest, m.message_type, m.data, id);
                &&& next.primary.control_messages == s.primary.control_messages.skip(1)
                &&& next.channel == o.channel
                &&& next.primary == o.primary
                &&& r == o.result
            } else {
                let told = s.channel.replied(
                    b,
                    id,
                    status_message(0x40020006, s.primary.offload_config.ndis_offload_bytes()),
                );
                &&& next.channel == told.0
                &&& (r is Ok) == told.1
                &&& next.primary.pending_offload_change == !told.1
                &&& next.primary.control_messages.len() == 0
            }
        }),
{
    reveal(control_step);
    if s.primary.control_messages.len() > 0 {
        assert(s.primary.control_messages.skip(1) =~= s.primary.control_messages.drop_first());
        let m = s.primary.control_messages[0];
        control_message_keeps_queue(
            s.channel,
            b,
            PrimaryView {
                control_messages: s.primary.control_messages.drop_first(),
                free_control_buffers: s.primary.free_control_buffers.drop_last(),
                ..s.primary
            },
            m.message_type,
            m.data,
            s.primary.free_control_buffers.last(),
        );
    }
}

/// The queue is worked on until there is a reason to stop: nothing waits, no control buffer is
/// free, a message ended the channel, or the ring is too full; then the channel waits for room.
pub proof fn control_queue_is_worked_off(b: ChannelBuffers, s: ControlRun)
    ensures
        ({
            let (after, r) = control_run(b, s);
            let p = after.primary;
            let idle = p.control_messages.len() == 0 && !(p.pending_offload_change && p.rndis_state
                == RndisState::Operational);
            &&& r is Ok && !idle && p.free_control_buffers.len() > 0 ==> after.channel.out.free
                < 144 && after.channel.pending_send_size == 144
            &&& p.free_control_buffers.len() <= s.primary.free_control_buffers.len()
            &&& after.rx_groups.len() + p.free_control_buffers.len() == s.rx_groups.len()
                + s.primary.free_control_buffers.len()
        }),
    decreases s.primary.free_control_buffers.len(),
{
    if control_work_left(s.primary) && s.channel.out.free >= MIN_CONTROL_RING_SIZE
        && s.primary.free_control_buffers.len() > 0 {
        oldest_control_message_goes_first(b, s);
        let step = control_step(b, s);
        if step.1 is Ok {
            control_queue_is_worked_off(b, step.0);
        }
    }
}

/// A control message waits unless it is empty or too much waits already.
pub proof fn control_message_waits_its_turn(p: PrimaryView, data: Seq<u8>)
    ensures
        queue_error(p, data) is None <==> data.len() > 0 && total_len(p.control_messages)
            + data.len() <= 100 * 1024,
        data.len() == 0 ==> queue_error(p, data) == Some(WorkerError::RndisMessageTooSmall),
        data.len() > 0 && queue_error(p, data) is Some ==> queue_error(p, data) == Some(
            WorkerError::TooManyControlMessages,
        ),
{
}

} // verus!
