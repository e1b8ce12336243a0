//! The slots that packets of the guest take: each is free, in flight, or waits
//! for its completion to be sent, and never two of these.
use crate::netvsp::control::ChannelView;
use crate::netvsp::state::{
    quota_used, ActiveView, PendingTxCompletion, PendingTxPacket, PrimaryView,
};
use crate::netvsp::tx::{
    all_landed, frames_taken, inflight_completions, pending_sent, tx_completed,
    tx_completion_tried, tx_done_all, tx_done_all_valid, tx_done_one, tx_done_valid,
};
use vstd::prelude::*;

verus! {

/// How often `id` is among the free slots.
pub open spec fn times_free(s: Seq<u32>, id: u32) -> nat
    decreases s.len(),
{
    if s.len() == 0 {
        0
    } else {
        times_free(s.drop_last(), id) + if s.last() == id {
            1nat
        } else {
            0nat
        }
    }
}

/// How often a completion of slot `id` waits.
pub open spec fn times_waiting(s: Seq<PendingTxCompletion>, id: u32) -> nat
    decreases s.len(),
{
    if s.len() == 0 {
        0
    } else {
        times_waiting(s.drop_last(), id) + if s.last().tx_id == Some(id) {
            1nat
        } else {
            0nat
        }
    }
}

/// One if frames of slot `id` are in flight.
pub open spec fn times_in_flight(s: Seq<PendingTxPacket>, id: u32) -> nat {
    if id < s.len() && s[id as int].pending_packet_count > 0 {
        1
    } else {
        0
    }
}

/// In how many places slot `id` is.
pub open spec fn places(a: ActiveView, id: u32) -> nat {
    times_free(a.free_tx_packets, id) + times_waiting(a.pending_tx_completions, id)
        + times_in_flight(a.pending_tx_packets, id)
}

/// Each slot is in one place, and there are no others.
pub open spec fn slots_ok(a: ActiveView) -> bool {
    forall|id: u32| #[trigger]
        places(a, id) == if id < a.pending_tx_packets.len() {
            1nat
        } else {
            0nat
        }
}

/// Slot `id` is in no place: a packet that was taken from the ring is being
/// handled. Every other slot is in one.
pub open spec fn slots_ok_without(a: ActiveView, id: u32) -> bool {
    &&& id < a.pending_tx_packets.len()
    &&& places(a, id) == 0
    &&& forall|other: u32|
        other != id ==> #[trigger] places(a, other) == if other < a.pending_tx_packets.len() {
            1nat
        } else {
            0nat
        }
}

proof fn lemma_free_push(s: Seq<u32>, x: u32, id: u32)
    ensures
        times_free(s.push(x), id) == times_free(s, id) + if x == id {
            1nat
        } else {
            0nat
        },
{
    assert(s.push(x).drop_last() =~= s);
}

proof fn lemma_waiting_push(s: Seq<PendingTxCompletion>, x: PendingTxCompletion, id: u32)
    ensures
        times_waiting(s.push(x), id) == times_waiting(s, id) + if x.tx_id == Some(id) {
            1nat
        } else {
            0nat
        },
{
    assert(s.push(x).drop_last() =~= s);
}

proof fn lemma_waiting_first(s: Seq<PendingTxCompletion>, id: u32)
    requires
        s.len() > 0,
    ensures
        times_waiting(s, id) == times_waiting(s.drop_first(), id) + if s[0].tx_id == Some(id) {
            1nat
        } else {
            0nat
        },
    decreases s.len(),
{
    if s.len() == 1 {
        assert(s.drop_last() =~= Seq::empty());
        assert(s.drop_first() =~= Seq::empty());
    } else {
        lemma_waiting_first(s.drop_last(), id);
        assert(s.drop_first().drop_last() =~= s.drop_last().drop_first());
        assert(s.drop_last()[0] == s[0]);
    }
}

proof fn lemma_waiting_add(s: Seq<PendingTxCompletion>, t: Seq<PendingTxCompletion>, id: u32)
    ensures
        times_waiting(s + t, id) == times_waiting(s, id) + times_waiting(t, id),
    decreases t.len(),
{
    if t.len() == 0 {
        assert(s + t =~= s);
    } else {
        assert((s + t).drop_last() =~= s + t.drop_last());
        lemma_waiting_add(s, t.drop_last(), id);
    }
}

proof fn lemma_inflight_waiting(packets: Seq<PendingTxPacket>, id: u32)
    requires
        packets.len() <= u32::MAX,
    ensures
        times_waiting(inflight_completions(packets), id) == times_in_flight(packets, id),
    decreases packets.len(),
{
    if packets.len() > 0 {
        let rest = packets.drop_last();
        lemma_inflight_waiting(rest, id);
        assert(id < rest.len() ==> rest[id as int] == packets[id as int]);
        if packets.last().pending_packet_count > 0 {
            lemma_waiting_push(
                inflight_completions(rest),
                PendingTxCompletion {
                    transaction_id: packets.last().transaction_id,
                    tx_id: Some((packets.len() - 1) as u32),
                },
                id,
            );
        }
    }
}

proof fn lemma_free_countdown(n: nat, id: u32)
    requires
        n <= 1024,
    ensures
        times_free(Seq::new(n, |i: int| (1023 - i) as u32), id) == if 1024 - n <= id < 1024 {
            1nat
        } else {
            0nat
        },
    decreases n,
{
    let s = Seq::new(n, |i: int| (1023 - i) as u32);
    if n > 0 {
        assert(s.drop_last() =~= Seq::new((n - 1) as nat, |i: int| (1023 - i) as u32));
        lemma_free_countdown((n - 1) as nat, id);
        assert(s.last() == (1024 - n) as u32);
    }
}

/// The completions of a channel that was restored.
pub open spec fn restored_completions(completions: Seq<u64>) -> Seq<PendingTxCompletion> {
    ActiveView::restored(0, completions, Seq::empty()).pending_tx_completions
}

proof fn lemma_restored_waiting(completions: Seq<u64>, id: u32)
    ensures
        times_waiting(restored_completions(completions), id) == if id < quota_used(
            completions.len(),
        ) {
            1nat
        } else {
            0nat
        },
    decreases completions.len(),
{
    let s = restored_completions(completions);
    if completions.len() > 0 {
        let before = completions.drop_last();
        assert(s.drop_last() =~= restored_completions(before));
        lemma_restored_waiting(before, id);
    }
}

/// All slots of a new channel are free; a restored channel uses one for each
/// completion that is still to be sent, as long as there are any.
pub proof fn channels_start_with_all_slots(
    primary: Option<PrimaryView>,
    count: u32,
    completions: Seq<u64>,
    in_use_rx: Seq<Seq<u32>>,
)
    ensures
        slots_ok(ActiveView::fresh(primary, count)),
        slots_ok(ActiveView::restored(count, completions, in_use_rx)),
        slots_ok(
            ActiveView { primary, ..ActiveView::restored(count, completions, in_use_rx) },
        ),
{
    let fresh = ActiveView::fresh(primary, count);
    assert forall|id: u32| #[trigger]
        places(fresh, id) == if id < fresh.pending_tx_packets.len() {
            1nat
        } else {
            0nat
        } by {
        lemma_free_countdown(1024, id);
    }
    let a = ActiveView::restored(count, completions, in_use_rx);
    let b = ActiveView { primary, ..a };
    assert forall|id: u32|
        places(a, id) == places(b, id) && #[trigger] places(a, id) == if id
            < a.pending_tx_packets.len() {
            1nat
        } else {
            0nat
        } by {
        lemma_free_countdown((1024 - quota_used(completions.len())) as nat, id);
        lemma_restored_waiting(completions, id);
        assert(a.pending_tx_completions =~= restored_completions(completions));
    }
    assert forall|id: u32| #[trigger]
        places(b, id) == if id < b.pending_tx_packets.len() {
            1nat
        } else {
            0nat
        } by {
        assert(places(a, id) == places(b, id));
    }
}

/// A packet of the guest takes a free slot, which has nothing in flight. While it
/// is handled the slot is in no place.
pub proof fn packet_takes_free_slot(a: ActiveView)
    requires
        slots_ok(a),
        a.free_tx_packets.len() > 0,
    ensures
        ({
            let id = a.free_tx_packets.last();
            let taken = ActiveView { free_tx_packets: a.free_tx_packets.drop_last(), ..a };
            &&& id < a.pending_tx_packets.len()
            &&& a.pending_tx_packets[id as int].pending_packet_count == 0
            &&& slots_ok_without(taken, id)
        }),
{
    let id = a.free_tx_packets.last();
    let taken = ActiveView { free_tx_packets: a.free_tx_packets.drop_last(), ..a };
    assert(places(a, id) >= 1);
    assert forall|other: u32| other != id implies #[trigger] places(taken, other) == if other
        < taken.pending_tx_packets.len() {
        1nat
    } else {
        0nat
    } by {
        assert(places(a, other) == places(taken, other));
    }
}

/// Once its frames are in flight, the slot of a packet is in one place again.
pub proof fn flight_uses_slot(a: ActiveView, id: u32, slot: PendingTxPacket)
    requires
        slots_ok_without(a, id),
        slot.pending_packet_count > 0,
    ensures
        slots_ok(
            ActiveView { pending_tx_packets: a.pending_tx_packets.update(id as int, slot), ..a },
        ),
{
    let b = ActiveView {
        pending_tx_packets: a.pending_tx_packets.update(id as int, slot),
        ..a
    };
    assert forall|other: u32| #[trigger]
        places(b, other) == if other < b.pending_tx_packets.len() {
            1nat
        } else {
            0nat
        } by {
        assert(other != id ==> places(a, other) == places(b, other));
        assert(places(a, id) == 0);
    }
}

/// Completing a packet gives its slot back, at once or when its completion is
/// sent.
pub proof fn completion_gives_slot_back(c: ChannelView, a: ActiveView, id: u32)
    requires
        slots_ok_without(a, id),
    ensures
        slots_ok(tx_completed(c, a, id).1),
{
    let b = tx_completed(c, a, id).1;
    let pending = PendingTxCompletion {
        transaction_id: a.pending_tx_packets[id as int].transaction_id,
        tx_id: Some(id),
    };
    assert forall|other: u32| #[trigger]
        places(b, other) == if other < b.pending_tx_packets.len() {
            1nat
        } else {
            0nat
        } by {
        lemma_free_push(a.free_tx_packets, id, other);
        lemma_waiting_push(a.pending_tx_completions, pending, other);
        assert(places(a, id) == 0);
        assert(other != id ==> places(a, other) == if other < a.pending_tx_packets.len() {
            1nat
        } else {
            0nat
        });
    }
}

/// Completions that are sent late give their slots back.
pub proof fn late_completions_give_slots_back(c: ChannelView, a: ActiveView)
    requires
        slots_ok(a),
    ensures
        slots_ok(pending_sent(c, a).1),
    decreases a.pending_tx_completions.len(),
{
    if a.pending_tx_completions.len() > 0 {
        let first = a.pending_tx_completions[0];
        let tried = tx_completion_tried(c, first.transaction_id);
        if tried.1 {
            let b = ActiveView {
                pending_tx_completions: a.pending_tx_completions.drop_first(),
                free_tx_packets: match first.tx_id {
                    Some(id) => a.free_tx_packets.push(id),
                    None => a.free_tx_packets,
                },
                ..a
            };
            assert forall|other: u32| #[trigger]
                places(b, other) == if other < b.pending_tx_packets.len() {
                    1nat
                } else {
                    0nat
                } by {
                lemma_waiting_first(a.pending_tx_completions, other);
                if let Some(id) = first.tx_id {
                    lemma_free_push(a.free_tx_packets, id, other);
                }
                assert(places(a, other) == places(b, other));
            }
            late_completions_give_slots_back(tried.0, b);
        }
    }
}

/// Taking frames out of flight keeps each slot in one place: while some are left,
/// the slot is in flight, and with the last one it is completed.
pub proof fn landing_keeps_slots(c: ChannelView, a: ActiveView, id: u32, n: nat)
    requires
        slots_ok(a),
        tx_done_valid(a.pending_tx_packets, id),
        n <= a.pending_tx_packets[id as int].pending_packet_count,
    ensures
        ({
            let b = frames_taken(a, id, n, true);
            slots_ok(
                if b.pending_tx_packets[id as int].pending_packet_count == 0 {
                    tx_completed(c, b, id).1
                } else {
                    b
                },
            )
        }),
{
    let b = frames_taken(a, id, n, true);
    assert(places(a, id) == 1);
    assert forall|other: u32| other != id implies places(a, other) == #[trigger] places(b, other) by {}
    if b.pending_tx_packets[id as int].pending_packet_count == 0 {
        assert(places(b, id) == 0);
        assert forall|other: u32| other != id implies #[trigger] places(b, other) == if other
            < b.pending_tx_packets.len() {
            1nat
        } else {
            0nat
        } by {
            assert(places(a, other) == places(b, other));
        }
        completion_gives_slot_back(c, b, id);
    } else {
        assert forall|other: u32| #[trigger]
            places(b, other) == if other < b.pending_tx_packets.len() {
                1nat
            } else {
                0nat
            } by {
            assert(places(a, other) == places(b, other));
        }
    }
}

/// What the endpoint completes keeps each slot in one place.
pub proof fn endpoint_completions_keep_slots(c: ChannelView, a: ActiveView, ids: Seq<u32>)
    requires
        slots_ok(a),
        tx_done_all_valid(c, a, ids),
    ensures
        slots_ok(tx_done_all(c, a, ids).1),
    decreases ids.len(),
{
    if ids.len() > 0 {
        let rest = ids.drop_last();
        assert forall|i: int| 0 <= i < rest.len() implies tx_done_valid(
            tx_done_all(c, a, rest.take(i)).1.pending_tx_packets,
            #[trigger] rest[i],
        ) by {
            assert(rest.take(i) =~= ids.take(i));
            assert(ids[i] == rest[i]);
        }
        endpoint_completions_keep_slots(c, a, rest);
        let before = tx_done_all(c, a, rest);
        assert(ids.take(ids.len() - 1) =~= rest);
        assert(tx_done_valid(before.1.pending_tx_packets, ids[ids.len() - 1]));
        landing_keeps_slots(before.0, before.1, ids.last(), 1);
        assert(tx_done_all(c, a, ids) == tx_done_one(before.0, before.1, ids.last()));
    }
}

/// A restart of the queues completes what is in flight, and loses no slot.
pub proof fn restart_keeps_slots(a: ActiveView)
    requires
        slots_ok(a),
        a.pending_tx_packets.len() <= u32::MAX,
    ensures
        slots_ok(
            ActiveView {
                pending_tx_packets: all_landed(a.pending_tx_packets),
                pending_tx_completions: a.pending_tx_completions + inflight_completions(
                    a.pending_tx_packets,
                ),
                ..a
            },
        ),
{
    let b = ActiveView {
        pending_tx_packets: all_landed(a.pending_tx_packets),
        pending_tx_completions: a.pending_tx_completions + inflight_completions(
            a.pending_tx_packets,
        ),
        ..a
    };
    assert forall|id: u32| #[trigger]
        places(b, id) == if id < b.pending_tx_packets.len() {
            1nat
        } else {
            0nat
        } by {
        lemma_inflight_waiting(a.pending_tx_packets, id);
        lemma_waiting_add(
            a.pending_tx_completions,
            inflight_completions(a.pending_tx_packets),
            id,
        );
        assert(places(a, id) == places(b, id));
    }
}

} // verus!
