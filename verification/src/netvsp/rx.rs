//! Ownership of the receive buffers.
//!
//! The receive buffer that the guest provides is cut into suballocations, each
//! known by its ID. The first [`RX_RESERVED_CONTROL_BUFFERS`] answer control
//! messages, the others are spread over the queues.
use vstd::prelude::*;

verus! {

/// The number of receive buffers that are reserved for control messages.
pub const RX_RESERVED_CONTROL_BUFFERS: u32 = 16;

/// The most packets that are handed to the guest at once.
pub const RX_BATCH_SIZE: usize = 375;

/// A receive buffer was handed out twice.
#[derive(Debug, Clone, Copy, PartialEq, Eq, Structural)]
pub struct SubAllocationInUse(pub u32);

/// The receive buffers that the guest holds, grouped by the packet with which
/// they were handed out.
#[derive(Debug)]
pub struct RxBuffers {
    count: u32,
    groups: Vec<Vec<u32>>,
}

/// Whether `id` is in one of the groups.
pub open spec fn in_groups(groups: Seq<Seq<u32>>, id: u32) -> bool {
    exists|g: int| 0 <= g < groups.len() && #[trigger] groups[g].contains(id)
}

/// No ID occurs twice.
pub open spec fn all_distinct(ids: Seq<u32>) -> bool {
    forall|i: int, j: int| 0 <= i < j < ids.len() ==> ids[i] != ids[j]
}

/// The index of the first ID that is out of range, in one of the groups, or a
/// repetition; the length of `ids` if there is none.
pub open spec fn first_conflict(count: u32, groups: Seq<Seq<u32>>, ids: Seq<u32>, from: int) -> int
    decreases ids.len() - from,
{
    if from < 0 || from >= ids.len() || ids[from] >= count || in_groups(groups, ids[from])
        || ids.take(from).contains(ids[from]) {
        from
    } else {
        first_conflict(count, groups, ids, from + 1)
    }
}

/// The index of the group that starts with `id`, or the number of groups.
pub open spec fn group_of(groups: Seq<Seq<u32>>, id: u32, from: int) -> int
    decreases groups.len() - from,
{
    if from < 0 || from >= groups.len() || (groups[from].len() > 0 && groups[from][0] == id) {
        from
    } else {
        group_of(groups, id, from + 1)
    }
}

impl RxBuffers {
    /// The number of receive buffers.
    pub closed spec fn spec_count(&self) -> u32 {
        self.count
    }

    /// The groups that the guest holds, oldest first.
    pub closed spec fn spec_groups(&self) -> Seq<Seq<u32>> {
        self.groups@.map_values(|g: Vec<u32>| g@)
    }

    /// Whether the guest does not hold `id`.
    pub open spec fn spec_is_free(&self, id: u32) -> bool {
        !in_groups(self.spec_groups(), id)
    }

    /// The guest holds nothing.
    pub fn new(count: u32) -> (r: RxBuffers)
        ensures
            r.spec_count() == count,
            r.spec_groups() == Seq::<Seq<u32>>::empty(),
    {
        let r = RxBuffers { count, groups: Vec::new() };
        assert(r.spec_groups() =~= Seq::<Seq<u32>>::empty());
        r
    }

    /// The number of receive buffers.
    pub fn count(&self) -> (n: u32)
        ensures
            n == self.spec_count(),
    {
        self.count
    }

    /// Whether the guest does not hold `id`.
    pub fn is_free(&self, id: u32) -> (b: bool)
        ensures
            b == self.spec_is_free(id),
    {
        let mut g: usize = 0;
        while g < self.groups.len()
            invariant
                g <= self.groups@.len(),
                forall|k: int| 0 <= k < g ==> !(#[trigger] self.spec_groups()[k]).contains(id),
            decreases self.groups@.len() - g,
        {
            let mut i: usize = 0;
            assert(self.spec_groups()[g as int] == self.groups@[g as int]@);
            while i < self.groups[g].len()
                invariant
                    g < self.groups@.len(),
                    i <= self.groups@[g as int]@.len(),
                    self.spec_groups()[g as int] == self.groups@[g as int]@,
                    self.spec_groups().len() == self.groups@.len(),
                    forall|k: int| 0 <= k < i ==> self.groups@[g as int]@[k] != id,
                decreases self.groups@[g as int]@.len() - i,
            {
                if self.groups[g][i] == id {
                    assert(self.spec_groups()[g as int].contains(id));
                    return false;
                }
                i = i + 1;
            }
            g = g + 1;
        }
        true
    }

    /// Hands a group of buffers to the guest. Nothing changes if one of them is
    /// unknown, occurs twice, or is already with the guest: the first such ID is
    /// reported.
    pub fn allocate(&mut self, ids: Vec<u32>) -> (r: Result<(), SubAllocationInUse>)
        ensures
            final(self).spec_count() == old(self).spec_count(),
            ({
                let bad = first_conflict(
                    old(self).spec_count(),
                    old(self).spec_groups(),
                    ids@,
                    0,
                );
                if bad < ids@.len() {
                    &&& r == Err::<(), SubAllocationInUse>(SubAllocationInUse(ids@[bad]))
                    &&& final(self).spec_groups() == old(self).spec_groups()
                } else {
                    &&& r is Ok
                    &&& final(self).spec_groups() == old(self).spec_groups().push(ids@)
                }
            }),
    {
        let mut i: usize = 0;
        while i < ids.len()
            invariant
                i <= ids@.len(),
                *self == *old(self),
                first_conflict(self.spec_count(), self.spec_groups(), ids@, 0) == first_conflict(
                    self.spec_count(),
                    self.spec_groups(),
                    ids@,
                    i as int,
                ),
            decreases ids@.len() - i,
        {
            let id: u32 = ids[i];
            if id >= self.count || !self.is_free(id) {
                return Err(SubAllocationInUse(id));
            }
            let mut j: usize = 0;
            while j < i
                invariant
                    j <= i,
                    i < ids@.len(),
                    *self == *old(self),
                    id == ids@[i as int],
                    id < self.spec_count(),
                    self.spec_is_free(id),
                    first_conflict(self.spec_count(), self.spec_groups(), ids@, 0)
                        == first_conflict(
                        self.spec_count(),
                        self.spec_groups(),
                        ids@,
                        i as int,
                    ),
                    forall|k: int| 0 <= k < j ==> ids@[k] != id,
                decreases i - j,
            {
                if ids[j] == id {
                    assert(ids@.take(i as int)[j as int] == id);
                    return Err(SubAllocationInUse(id));
                }
                j = j + 1;
            }
            assert(!ids@.take(i as int).contains(id));
            i = i + 1;
        }
        self.groups.push(ids);
        assert(self.spec_groups() =~= old(self).spec_groups().push(ids@));
        Ok(())
    }

    /// Takes the group that starts with `first_id` back from the guest.
    pub fn free(&mut self, first_id: u32) -> (r: Option<Vec<u32>>)
        ensures
            final(self).spec_count() == old(self).spec_count(),
            ({
                let g = group_of(old(self).spec_groups(), first_id, 0);
                if g < old(self).spec_groups().len() {
                    &&& r is Some
                    &&& r->0@ == old(self).spec_groups()[g]
                    &&& final(self).spec_groups() == old(self).spec_groups().remove(g)
                } else {
                    &&& r is None
                    &&& final(self).spec_groups() == old(self).spec_groups()
                }
            }),
    {
        let mut g: usize = 0;
        while g < self.groups.len()
            invariant
                g <= self.groups@.len(),
                *self == *old(self),
                group_of(self.spec_groups(), first_id, 0) == group_of(
                    self.spec_groups(),
                    first_id,
                    g as int,
                ),
            decreases self.groups@.len() - g,
        {
            assert(self.spec_groups()[g as int] == self.groups@[g as int]@);
            if self.groups[g].len() > 0 && self.groups[g][0] == first_id {
                let ids = self.groups.remove(g);
                assert(self.spec_groups() =~= old(self).spec_groups().remove(g as int));
                return Some(ids);
            }
            g = g + 1;
        }
        None
    }

    /// The groups that the guest holds.
    pub fn allocated(&self) -> (r: Vec<Vec<u32>>)
        ensures
            r@.map_values(|g: Vec<u32>| g@) == self.spec_groups(),
    {
        let mut out: Vec<Vec<u32>> = Vec::new();
        let mut g: usize = 0;
        while g < self.groups.len()
            invariant
                g <= self.groups@.len(),
                out@.len() == g,
                forall|k: int| 0 <= k < g ==> (#[trigger] out@[k])@ == self.groups@[k]@,
            decreases self.groups@.len() - g,
        {
            let ids = copy_ids(&self.groups[g]);
            out.push(ids);
            g = g + 1;
        }
        assert(out@.map_values(|g: Vec<u32>| g@) =~= self.spec_groups());
        out
    }
}

/// A copy of `ids`.
pub fn copy_ids(ids: &Vec<u32>) -> (r: Vec<u32>)
    ensures
        r@ == ids@,
{
    let mut out: Vec<u32> = Vec::new();
    let mut i: usize = 0;
    while i < ids.len()
        invariant
            i <= ids@.len(),
            out@ == ids@.take(i as int),
        decreases ids@.len() - i,
    {
        out.push(ids[i]);
        i = i + 1;
        assert(out@ =~= ids@.take(i as int));
    }
    assert(ids@.take(i as int) =~= ids@);
    out
}

/// How the receive buffers are spread over the active queues.
#[derive(Debug, Clone, Copy, PartialEq, Eq, Structural)]
pub struct RxBufferRanges {
    /// The number of buffers that each queue gets.
    pub buffers_per_queue: u32,
    /// The number of active queues.
    pub queue_count: u32,
}

/// The receive buffers of one queue.
#[derive(Debug, Clone, Copy, PartialEq, Eq, Structural)]
pub struct RxBufferRange {
    /// The first ID.
    pub start: u32,
    /// The first ID behind the range.
    pub end: u32,
    /// Which of the active queues this is, if it is one: buffers that another
    /// queue takes back are sent here.
    pub active_index: Option<u32>,
    /// All ranges.
    pub ranges: RxBufferRanges,
}

impl RxBufferRanges {
    /// Spreads the buffers that are not reserved evenly.
    pub fn new(buffer_count: u32, queue_count: u32) -> (r: RxBufferRanges)
        requires
            buffer_count >= RX_RESERVED_CONTROL_BUFFERS,
            queue_count >= 1,
        ensures
            r.buffers_per_queue == (buffer_count - RX_RESERVED_CONTROL_BUFFERS) as int
                / queue_count as int,
            r.queue_count == queue_count,
    {
        RxBufferRanges {
            buffers_per_queue: (buffer_count - RX_RESERVED_CONTROL_BUFFERS) / queue_count,
            queue_count,
        }
    }
}

impl RxBufferRange {
    /// Whether this queue keeps `id` when the guest returns it: only queue zero
    /// gets reserved buffers, and keeps them.
    pub open spec fn keeps(self, id: u32) -> bool {
        id < RX_RESERVED_CONTROL_BUFFERS || self.start <= id < self.end
    }

    /// The active queue that owns `id`. The buffers may not divide evenly: the
    /// last queue has the extra ones.
    pub open spec fn owner(self, id: u32) -> int {
        let i = (id - RX_RESERVED_CONTROL_BUFFERS) / self.ranges.buffers_per_queue as int;
        if i >= self.ranges.queue_count {
            self.ranges.queue_count - 1
        } else {
            i
        }
    }

    /// The active queue that `id` has to be sent to, if this queue does not keep
    /// it.
    pub fn send_if_remote(&self, id: u32) -> (r: Option<u32>)
        requires
            self.ranges.queue_count >= 1,
            self.ranges.buffers_per_queue >= 1,
        ensures
            self.keeps(id) ==> r is None,
            !self.keeps(id) ==> r is Some && r->0 == self.owner(id),
            r is Some ==> r->0 < self.ranges.queue_count,
    {
        if id < RX_RESERVED_CONTROL_BUFFERS || (self.start <= id && id < self.end) {
            None
        } else {
            let i: u32 = (id - RX_RESERVED_CONTROL_BUFFERS) / self.ranges.buffers_per_queue;
            if i >= self.ranges.queue_count {
                Some(self.ranges.queue_count - 1)
            } else {
                Some(i)
            }
        }
    }
}

/// What is freed can be handed out again: freeing a group makes each of its IDs
/// free, unless another group holds it too.
pub proof fn freed_ids_are_free(groups: Seq<Seq<u32>>, g: int, id: u32)
    requires
        0 <= g < groups.len(),
        groups[g].contains(id),
        forall|k: int| 0 <= k < groups.len() && k != g ==> !(#[trigger] groups[k]).contains(id),
    ensures
        in_groups(groups, id),
        !in_groups(groups.remove(g), id),
{
    assert forall|k: int| 0 <= k < groups.remove(g).len() implies !(#[trigger] groups.remove(
        g,
    )[k]).contains(id) by {
        if k < g {
            assert(groups.remove(g)[k] == groups[k]);
        } else {
            assert(groups.remove(g)[k] == groups[k + 1]);
        }
    }
}

/// An allocation that succeeds hands out exactly `ids`: all of them were free
/// before, and each is held by the guest afterwards.
pub proof fn allocation_takes_free_ids(count: u32, groups: Seq<Seq<u32>>, ids: Seq<u32>)
    requires
        first_conflict(count, groups, ids, 0) >= ids.len(),
    ensures
        all_distinct(ids),
        forall|i: int|
            0 <= i < ids.len() ==> #[trigger] ids[i] < count && !in_groups(groups, ids[i])
                && in_groups(groups.push(ids), ids[i]),
{
    no_conflict_from(count, groups, ids, 0);
    assert forall|i: int, j: int| 0 <= i < j < ids.len() implies ids[i] != ids[j] by {
        assert(!ids.take(j).contains(ids[j]));
        assert(ids.take(j)[i] == ids[i]);
    }
    assert forall|i: int| 0 <= i < ids.len() implies #[trigger] ids[i] < count && !in_groups(
        groups,
        ids[i],
    ) && in_groups(groups.push(ids), ids[i]) by {
        assert(groups.push(ids)[groups.len() as int].contains(ids[i]));
    }
}

proof fn no_conflict_from(count: u32, groups: Seq<Seq<u32>>, ids: Seq<u32>, from: int)
    requires
        0 <= from <= ids.len(),
        first_conflict(count, groups, ids, from) >= ids.len(),
    ensures
        forall|i: int|
            from <= i < ids.len() ==> #[trigger] ids[i] < count && !in_groups(groups, ids[i])
                && !ids.take(i).contains(ids[i]),
    decreases ids.len() - from,
{
    if from < ids.len() {
        no_conflict_from(count, groups, ids, from + 1);
    }
}

/// Every buffer is with the guest at most once, and all of them exist.
pub open spec fn groups_ok(count: u32, groups: Seq<Seq<u32>>) -> bool {
    &&& forall|g: int, i: int|
        0 <= g < groups.len() && 0 <= i < groups[g].len() ==> #[trigger] groups[g][i] < count
    &&& forall|g: int| 0 <= g < groups.len() ==> all_distinct(#[trigger] groups[g])
    &&& forall|g: int, h: int, id: u32|
        0 <= g < h < groups.len() && #[trigger] groups[g].contains(id)
            ==> !(#[trigger] groups[h].contains(id))
}

/// No buffer is handed out twice: whatever is allocated and freed, every buffer
/// stays with the guest at most once.
pub proof fn buffers_are_handed_out_once(
    count: u32,
    groups: Seq<Seq<u32>>,
    ids: Seq<u32>,
    g: int,
)
    requires
        groups_ok(count, groups),
    ensures
        groups_ok(count, Seq::<Seq<u32>>::empty()),
        first_conflict(count, groups, ids, 0) >= ids.len() ==> groups_ok(count, groups.push(ids)),
        0 <= g < groups.len() ==> groups_ok(count, groups.remove(g)),
{
    if first_conflict(count, groups, ids, 0) >= ids.len() {
        allocation_takes_free_ids(count, groups, ids);
        let after = groups.push(ids);
        assert forall|g: int, i: int| 0 <= g < after.len() && 0 <= i < after[g].len() implies
            #[trigger] after[g][i] < count by {
            if g < groups.len() {
                assert(groups[g][i] < count);
            }
        }
        assert forall|g: int| 0 <= g < after.len() implies all_distinct(#[trigger] after[g]) by {
            if g < groups.len() {
                assert(all_distinct(groups[g]));
            }
        }
        assert forall|g: int, h: int, id: u32|
            0 <= g < h < after.len() && #[trigger] after[g].contains(id) implies !(
        #[trigger] after[h].contains(id)) by {
            assert(groups[g].contains(id));
            if h < groups.len() {
                assert(!groups[h].contains(id));
            } else if ids.contains(id) {
                let i = choose|i: int| 0 <= i < ids.len() && ids[i] == id;
                assert(!in_groups(groups, ids[i]));
            }
        }
    }
    if 0 <= g < groups.len() {
        let after = groups.remove(g);
        let from = |k: int| if k < g {
            k
        } else {
            k + 1
        };
        assert forall|k: int| 0 <= k < after.len() implies #[trigger] after[k] == groups[from(k)] by {}
        assert forall|k: int, i: int| 0 <= k < after.len() && 0 <= i < after[k].len() implies
            #[trigger] after[k][i] < count by {
            assert(groups[from(k)][i] < count);
        }
        assert forall|k: int| 0 <= k < after.len() implies all_distinct(#[trigger] after[k]) by {
            assert(all_distinct(groups[from(k)]));
        }
        assert forall|k: int, h: int, id: u32|
            0 <= k < h < after.len() && #[trigger] after[k].contains(id) implies !(
        #[trigger] after[h].contains(id)) by {
            assert(groups[from(k)].contains(id));
            assert(!groups[from(h)].contains(id));
        }
    }
}

/// Groups that are in order can be handed out again, one after another.
pub proof fn lemma_group_fits(count: u32, groups: Seq<Seq<u32>>, g: int, from: int)
    requires
        groups_ok(count, groups),
        0 <= g < groups.len(),
        0 <= from <= groups[g].len(),
    ensures
        first_conflict(count, groups.take(g), groups[g], from) >= groups[g].len(),
    decreases groups[g].len() - from,
{
    if from < groups[g].len() {
        let ids = groups[g];
        let id = ids[from];
        assert(groups[g][from] < count);
        if in_groups(groups.take(g), id) {
            let k = choose|k: int|
                0 <= k < groups.take(g).len() && #[trigger] groups.take(g)[k].contains(id);
            assert(groups[k].contains(id));
            assert(groups[g].contains(id));
        }
        assert(all_distinct(groups[g]));
        if ids.take(from).contains(id) {
            let j = choose|j: int| 0 <= j < from && ids.take(from)[j] == id;
            assert(ids[j] == ids[from]);
        }
        lemma_group_fits(count, groups, g, from + 1);
    }
}

/// An allocation is refused if and only if one of its buffers does not exist, is with the
/// guest already, or is named twice. The one that is told is at fault, and none before it is.
pub proof fn allocation_is_refused_for_first_conflict(
    count: u32,
    groups: Seq<Seq<u32>>,
    ids: Seq<u32>,
)
    ensures
        ({
            let bad = first_conflict(count, groups, ids, 0);
            &&& 0 <= bad <= ids.len()
            &&& bad < ids.len() ==> ids[bad] >= count || in_groups(groups, ids[bad]) || exists|k: int|
                0 <= k < bad && #[trigger] ids[k] == ids[bad]
            &&& forall|i: int, j: int|
                0 <= i < j < bad ==> #[trigger] ids[i] != #[trigger] ids[j]
            &&& forall|i: int|
                0 <= i < bad ==> #[trigger] ids[i] < count && !in_groups(groups, ids[i])
        }),
{
    lemma_first_conflict(count, groups, ids, 0);
    let bad = first_conflict(count, groups, ids, 0);
    assert forall|i: int, j: int| 0 <= i < j < bad implies #[trigger] ids[i] != #[trigger] ids[j] by {
        assert(!ids.take(j).contains(ids[j]));
        assert(ids.take(j)[i] == ids[i]);
    }
    if bad < ids.len() && ids.take(bad).contains(ids[bad]) {
        let k = choose|k: int| 0 <= k < ids.take(bad).len() && ids.take(bad)[k] == ids[bad];
        assert(ids[k] == ids[bad]);
    }
}

proof fn lemma_first_conflict(count: u32, groups: Seq<Seq<u32>>, ids: Seq<u32>, from: int)
    requires
        0 <= from <= ids.len(),
    ensures
        ({
            let bad = first_conflict(count, groups, ids, from);
            &&& from <= bad <= ids.len()
            &&& bad < ids.len() ==> ids[bad] >= count || in_groups(groups, ids[bad]) || ids.take(
                bad,
            ).contains(ids[bad])
            &&& forall|i: int|
                from <= i < bad ==> #[trigger] ids[i] < count && !in_groups(groups, ids[i])
                    && !ids.take(i).contains(ids[i])
        }),
    decreases ids.len() - from,
{
    if from < ids.len() {
        lemma_first_conflict(count, groups, ids, from + 1);
    }
}

/// The guest gives a group back by its first buffer: the oldest group that starts with it is
/// found, if there is one.
pub proof fn group_is_found_by_first_id(groups: Seq<Seq<u32>>, id: u32)
    ensures
        ({
            let g = group_of(groups, id, 0);
            &&& 0 <= g <= groups.len()
            &&& g < groups.len() ==> groups[g].len() > 0 && groups[g][0] == id
            &&& forall|k: int|
                0 <= k < g ==> (#[trigger] groups[k]).len() == 0 || groups[k][0] != id
        }),
{
    lemma_group_of(groups, id, 0);
}

proof fn lemma_group_of(groups: Seq<Seq<u32>>, id: u32, from: int)
    requires
        0 <= from <= groups.len(),
    ensures
        ({
            let g = group_of(groups, id, from);
            &&& from <= g <= groups.len()
            &&& g < groups.len() ==> groups[g].len() > 0 && groups[g][0] == id
            &&& forall|k: int|
                from <= k < g ==> (#[trigger] groups[k]).len() == 0 || groups[k][0] != id
        }),
    decreases groups.len() - from,
{
    if from < groups.len() {
        lemma_group_of(groups, id, from + 1);
    }
}

/// Each buffer that is not reserved belongs to one queue: its share starts behind the 16
/// reserved buffers and the shares of the queues before it, and the last queue has what is
/// left over. Reserved buffers never leave.
pub proof fn returned_buffer_goes_to_its_share(range: RxBufferRange, id: u32)
    requires
        range.ranges.queue_count >= 1,
        range.ranges.buffers_per_queue >= 1,
    ensures
        range.keeps(id) <==> id < 16 || range.start <= id < range.end,
        id >= 16 ==> {
            let q = range.owner(id);
            let share = range.ranges.buffers_per_queue as int;
            &&& 0 <= q < range.ranges.queue_count
            &&& 16 + q * share <= id
            &&& q + 1 < range.ranges.queue_count ==> id < 16 + (q + 1) * share
        },
{
    if id >= 16 {
        let share = range.ranges.buffers_per_queue as int;
        let d = id - 16;
        let i = d / share;
        let q = range.owner(id);
        assert(i * share <= d < (i + 1) * share && i >= 0) by (nonlinear_arith)
            requires
                i == d / share,
                share >= 1,
                d >= 0,
        ;
        assert(q * share <= i * share) by (nonlinear_arith)
            requires
                q <= i,
                share >= 1,
        ;
    }
}

} // verus!
