//! The coordinator: it spreads the work over the queues and reacts to changes of
//! the endpoint, the VF and the channels.
use crate::netvsp::guest_vf::{CoordinatorMessage, PendingVfState, PrimaryChannelGuestVfState};
use crate::netvsp::rx::{in_groups, RxBufferRange, RxBufferRanges, RX_RESERVED_CONTROL_BUFFERS};
use crate::netvsp::state::{OpenNic, PendingLinkAction, WorkerState};
use vstd::prelude::*;

verus! {

/// The queues below `n` that occur in the RSS indirection table, in order.
pub open spec fn active_below(table: Seq<u16>, n: nat) -> Seq<u16>
    decreases n,
{
    if n == 0 {
        Seq::empty()
    } else if table.contains((n - 1) as u16) {
        active_below(table, (n - 1) as nat).push((n - 1) as u16)
    } else {
        active_below(table, (n - 1) as nat)
    }
}

/// The queues that packets are spread over. Without RSS, or with a table that
/// names no queue that is there, the list is empty and all queues are active.
pub open spec fn active_queues(table: Option<Seq<u16>>, num_queues: u16) -> Seq<u16> {
    match table {
        Some(table) => active_below(table, num_queues as nat),
        None => Seq::empty(),
    }
}

/// The number of active queues.
pub open spec fn active_count(active: Seq<u16>, num_queues: u16) -> int {
    if active.len() > 0 {
        active.len() as int
    } else {
        num_queues as int
    }
}

/// Whether queue `q` is active.
pub open spec fn is_active(active: Seq<u16>, q: int) -> bool {
    active.len() == 0 || active.contains(q as u16)
}

/// How the receive buffers are spread over queues.
pub struct Spread {
    /// The active queues.
    pub active: Seq<u16>,
    /// The number of active queues.
    pub count: int,
    /// The number of receive buffers.
    pub buffers: u32,
}

impl Spread {
    /// The number of buffers that each active queue gets.
    pub open spec fn per_queue(self) -> int {
        (self.buffers - RX_RESERVED_CONTROL_BUFFERS) / self.count
    }

    /// Whether the guest has left out queue zero. It then has just the reserved
    /// buffers.
    pub open spec fn primary_excluded(self) -> bool {
        self.active.len() > 0 && self.active[0] != 0
    }

    /// The last active queue: none after it is active.
    pub open spec fn last(self) -> int {
        if self.active.len() > 0 {
            self.active.last() as int
        } else {
            self.count - 1
        }
    }

    /// Where the buffers of queue `q` start: where those of the queue before it
    /// end.
    pub open spec fn start(self, q: int) -> int
        decreases q,
    {
        if q <= 0 {
            0
        } else {
            self.end(q - 1)
        }
    }

    /// Where the buffers of queue `q` end.
    pub open spec fn end(self, q: int) -> int
        decreases q,
    {
        let start = if q <= 0 {
            0
        } else {
            self.end(q - 1)
        };
        if q <= 0 && self.primary_excluded() {
            RX_RESERVED_CONTROL_BUFFERS as int
        } else if !is_active(self.active, q) {
            start
        } else if q == self.last() {
            // The last active queue gets all the remaining buffers.
            self.buffers as int
        } else if q <= 0 {
            // Queue zero always has the reserved buffers.
            RX_RESERVED_CONTROL_BUFFERS + self.per_queue()
        } else {
            start + self.per_queue()
        }
    }

    /// How many active queues there are before queue `q`.
    pub open spec fn active_before(self, q: int) -> int
        decreases q,
    {
        if q <= 0 {
            0
        } else if is_active(self.active, q - 1) && !(q - 1 == 0 && self.primary_excluded()) {
            self.active_before(q - 1) + 1
        } else {
            self.active_before(q - 1)
        }
    }

    /// The buffers of queue `q`.
    pub open spec fn range(self, q: int) -> RxBufferRange {
        RxBufferRange {
            start: self.start(q) as u32,
            end: self.end(q) as u32,
            active_index: if is_active(self.active, q) && !(q == 0 && self.primary_excluded()) {
                Some(self.active_before(q) as u32)
            } else {
                None
            },
            ranges: RxBufferRanges {
                buffers_per_queue: self.per_queue() as u32,
                queue_count: self.count as u32,
            },
        }
    }
}

/// How the receive buffers are spread over queues with an indirection table.
pub open spec fn spread(table: Option<Seq<u16>>, num_queues: u16, buffers: u32) -> Spread {
    let active = active_queues(table, num_queues);
    Spread { active, count: active_count(active, num_queues), buffers }
}

/// The part of `ids` from `start` to `end`.
pub open spec fn within(ids: Seq<u32>, start: u32, end: u32) -> Seq<u32>
    decreases ids.len(),
{
    if ids.len() == 0 {
        Seq::empty()
    } else if start <= ids.last() < end {
        within(ids.drop_last(), start, end).push(ids.last())
    } else {
        within(ids.drop_last(), start, end)
    }
}

/// What one queue gets.
#[derive(Debug)]
pub struct QueuePlan {
    /// Its receive buffers.
    pub range: RxBufferRange,
    /// Those of them that the endpoint can use from the start.
    pub initial_rx: Vec<u32>,
}

/// How the queues are set up.
#[derive(Debug)]
pub struct RestartPlan {
    /// What each queue gets.
    pub queues: Vec<QueuePlan>,
    /// The number of queues.
    pub num_queues: u16,
    /// The number of subchannels that the guest can open.
    pub subchannels: u16,
}

fn table_contains(table: &Vec<u16>, q: u16) -> (b: bool)
    ensures
        b == table@.contains(q),
{
    let mut i: usize = 0;
    while i < table.len()
        invariant
            i <= table@.len(),
            forall|k: int| 0 <= k < i ==> table@[k] != q,
        decreases table@.len() - i,
    {
        if table[i] == q {
            return true;
        }
        i = i + 1;
    }
    false
}

fn find_active_queues(table: &Vec<u16>, num_queues: u16) -> (r: Vec<u16>)
    ensures
        r@ == active_below(table@, num_queues as nat),
{
    let mut out: Vec<u16> = Vec::new();
    let mut q: u16 = 0;
    while q < num_queues
        invariant
            q <= num_queues,
            out@ == active_below(table@, q as nat),
        decreases num_queues - q,
    {
        if table_contains(table, q) {
            out.push(q);
        }
        q = q + 1;
    }
    out
}

fn pick_within(ids: &Vec<u32>, start: u32, end: u32) -> (r: Vec<u32>)
    ensures
        r@ == within(ids@, start, end),
{
    let mut out: Vec<u32> = Vec::new();
    let mut i: usize = 0;
    assert(ids@.take(0) =~= Seq::empty());
    while i < ids.len()
        invariant
            i <= ids@.len(),
            out@ == within(ids@.take(i as int), start, end),
        decreases ids@.len() - i,
    {
        let id: u32 = ids[i];
        assert(ids@.take(i + 1).drop_last() =~= ids@.take(i as int));
        assert(ids@.take(i + 1).last() == id);
        if start <= id && id < end {
            out.push(id);
        }
        i = i + 1;
    }
    assert(ids@.take(i as int) =~= ids@);
    out
}

/// Whether no channel has buffer `id` with the guest.
pub open spec fn free_everywhere(nic: &OpenNic, id: u32) -> bool {
    forall|w: int|
        0 <= w < nic.workers@.len() ==> match #[trigger] nic.workers@[w] {
            Some(WorkerState::Ready(ready)) => !in_groups(ready.state@.rx_groups, id),
            _ => true,
        }
}

/// The buffers below `n`, without the reserved ones, that no channel has with the
/// guest.
pub open spec fn free_rx(nic: &OpenNic, n: u32) -> Seq<u32>
    decreases n,
{
    if n <= RX_RESERVED_CONTROL_BUFFERS {
        Seq::empty()
    } else if free_everywhere(nic, (n - 1) as u32) {
        free_rx(nic, (n - 1) as u32).push((n - 1) as u32)
    } else {
        free_rx(nic, (n - 1) as u32)
    }
}

fn is_free_everywhere(nic: &OpenNic, id: u32) -> (b: bool)
    ensures
        b == free_everywhere(nic, id),
{
    let mut w: usize = 0;
    while w < nic.workers.len()
        invariant
            w <= nic.workers@.len(),
            forall|k: int|
                0 <= k < w ==> match #[trigger] nic.workers@[k] {
                    Some(WorkerState::Ready(ready)) => !in_groups(ready.state@.rx_groups, id),
                    _ => true,
                },
        decreases nic.workers@.len() - w,
    {
        if let Some(WorkerState::Ready(ready)) = &nic.workers[w] {
            if !ready.state.rx_bufs.is_free(id) {
                return false;
            }
        }
        w = w + 1;
    }
    true
}

/// Finds the receive buffers that the endpoint can use from the start.
pub fn find_free_rx(nic: &OpenNic, count: u32) -> (r: Vec<u32>)
    ensures
        r@ == free_rx(nic, count),
{
    let mut out: Vec<u32> = Vec::new();
    if count <= RX_RESERVED_CONTROL_BUFFERS {
        return out;
    }
    let mut id: u32 = RX_RESERVED_CONTROL_BUFFERS;
    while id < count
        invariant
            RX_RESERVED_CONTROL_BUFFERS <= id <= count,
            out@ == free_rx(nic, id),
        decreases count - id,
    {
        if is_free_everywhere(nic, id) {
            out.push(id);
        }
        id = id + 1;
    }
    out
}

/// The receive buffers are few enough to lie within 32 bits of offset, and the
/// reserved ones are there.
pub open spec fn buffer_count_ok(buffers: u32) -> bool {
    RX_RESERVED_CONTROL_BUFFERS <= buffers <= 0x100_0000
}

proof fn lemma_active_below(table: Seq<u16>, n: nat)
    requires
        n <= 0x1_0000,
    ensures
        active_below(table, n).len() <= n,
        forall|i: int|
            0 <= i < active_below(table, n).len() ==> (#[trigger] active_below(table, n)[i]) < n,
        forall|i: int, j: int|
            0 <= i < j < active_below(table, n).len() ==> (#[trigger] active_below(table, n)[i])
                < #[trigger] active_below(table, n)[j],
        forall|q: u16|
            q < n ==> (#[trigger] active_below(table, n).contains(q)) == table.contains(q),
    decreases n,
{
    if n > 0 {
        lemma_active_below(table, (n - 1) as nat);
        let before = active_below(table, (n - 1) as nat);
        let after = active_below(table, n);
        assert forall|q: u16| q < n implies (#[trigger] after.contains(q)) == table.contains(q) by {
            if q < n - 1 {
                if before.contains(q) {
                    let i = choose|i: int| 0 <= i < before.len() && before[i] == q;
                    assert(after[i] == q);
                }
                if after.contains(q) {
                    let i = choose|i: int| 0 <= i < after.len() && after[i] == q;
                    assert(before[i] == q);
                }
            } else if table.contains(q) {
                assert(after.last() == q);
            } else if after.contains(q) {
                let i = choose|i: int| 0 <= i < after.len() && after[i] == q;
                assert(before[i] == q);
            }
        }
    }
}

proof fn lemma_fewer_below(table: Seq<u16>, m: nat, n: nat)
    requires
        m <= n,
    ensures
        active_below(table, m).len() <= active_below(table, n).len(),
    decreases n,
{
    if m < n {
        lemma_fewer_below(table, m, (n - 1) as nat);
    }
}

proof fn lemma_last_active(table: Seq<u16>, n: nat)
    requires
        n <= 0x1_0000,
        active_below(table, n).len() > 0,
    ensures
        active_below(table, n).last() < n,
        table.contains(active_below(table, n).last()),
        active_below(table, active_below(table, n).last() as nat).len() + 1
            == active_below(table, n).len(),
    decreases n,
{
    if !table.contains((n - 1) as u16) {
        lemma_last_active(table, (n - 1) as nat);
    }
}

proof fn lemma_active_before(table: Option<Seq<u16>>, num_queues: u16, buffers: u32, q: int)
    requires
        0 <= q <= num_queues,
    ensures
        ({
            let s = spread(table, num_queues, buffers);
            s.active_before(q) == if s.active.len() == 0 {
                q
            } else {
                active_below(table->0, q as nat).len() as int
            }
        }),
    decreases q,
{
    let s = spread(table, num_queues, buffers);
    if q > 0 {
        lemma_active_before(table, num_queues, buffers, q - 1);
        if s.active.len() > 0 {
            lemma_active_below(table->0, num_queues as nat);
            assert(s.active.contains((q - 1) as u16) == table->0.contains((q - 1) as u16));
        }
    }
}

/// Where the buffers of the queues end: after the reserved ones come those of the
/// active queues in turn, and nothing is left behind the last one.
proof fn lemma_spread(table: Option<Seq<u16>>, num_queues: u16, buffers: u32, q: int)
    requires
        num_queues >= 1,
        buffer_count_ok(buffers),
        0 <= q < num_queues,
    ensures
        ({
            let s = spread(table, num_queues, buffers);
            &&& 1 <= s.count <= num_queues
            &&& 0 <= s.per_queue() <= buffers
            &&& 0 <= s.last() < num_queues
            &&& q > s.last() ==> !is_active(s.active, q)
            &&& is_active(s.active, s.last())
            &&& s.active_before(s.last()) == s.count - 1
            &&& 0 <= s.active_before(q)
            &&& q <= s.last() ==> s.active_before(q) < s.count
            &&& s.end(q) == if q < s.last() {
                RX_RESERVED_CONTROL_BUFFERS + s.active_before(q + 1) * s.per_queue()
            } else {
                buffers as int
            }
            &&& s.start(q) <= s.end(q) <= buffers
        }),
    decreases q,
{
    let s = spread(table, num_queues, buffers);
    let n = num_queues as nat;
    if table is Some {
        lemma_active_below(table->0, n);
    }
    assert(0 <= s.per_queue() <= buffers && s.count * s.per_queue() <= buffers - 16)
        by (nonlinear_arith)
        requires
            s.per_queue() == (buffers - 16) / s.count,
            s.count >= 1,
            16 <= buffers,
    ;
    if s.active.len() > 0 {
        lemma_last_active(table->0, n);
        assert(s.active[s.active.len() - 1] == s.active.last());
        if s.active.contains(q as u16) {
            let i = choose|i: int| 0 <= i < s.active.len() && s.active[i] == q as u16;
            assert(s.active[i] <= s.active.last());
        }
        if q <= s.last() {
            lemma_fewer_below(table->0, q as nat, s.last() as nat);
        }
        if q < s.last() {
            lemma_fewer_below(table->0, (q + 1) as nat, s.last() as nat);
        }
        if s.active.contains(0) {
            let i = choose|i: int| 0 <= i < s.active.len() && s.active[i] == 0;
            assert(s.active[0] <= s.active[i]);
        }
        assert(s.active[0] == 0 ==> s.active.contains(0));
        assert(s.active[0] <= s.active.last());
    }
    lemma_active_before(table, num_queues, buffers, q);
    lemma_active_before(table, num_queues, buffers, q + 1);
    lemma_active_before(table, num_queues, buffers, s.last());
    let before = s.active_before(q);
    let after = s.active_before(q + 1);
    let per = s.per_queue();
    if q < s.last() {
        assert(after * per <= s.count * per) by (nonlinear_arith)
            requires
                after <= s.count,
                per >= 0,
        ;
    }
    assert(0 <= before * per <= after * per && (after == before + 1 ==> after * per == before * per
        + per)) by (nonlinear_arith)
        requires
            0 <= before <= after,
            per >= 0,
    ;
    if q > 0 {
        lemma_spread(table, num_queues, buffers, q - 1);
    } else {
        assert(before * per == 0) by (nonlinear_arith)
            requires
                before == 0,
        ;
    }
}

/// Plans the queues: distributes the receive buffers to the active queues. A
/// table that leaves out queue zero leaves it the reserved buffers.
pub fn plan_queues(
    table: Option<&Vec<u16>>,
    num_queues: u16,
    buffers: u32,
    initial_rx: &Vec<u32>,
) -> (plan: RestartPlan)
    requires
        num_queues >= 1,
        buffer_count_ok(buffers),
    ensures
        plan.num_queues == num_queues,
        plan.subchannels == num_queues - 1,
        plan.queues@.len() == num_queues,
        ({
            let s = spread(
                match table {
                    Some(t) => Some(t@),
                    None => None,
                },
                num_queues,
                buffers,
            );
            forall|q: int|
                0 <= q < num_queues ==> {
                    &&& (#[trigger] plan.queues@[q]).range == s.range(q)
                    &&& plan.queues@[q].initial_rx@ == within(
                        initial_rx@,
                        s.range(q).start,
                        s.range(q).end,
                    )
                }
        }),
{
    let active: Vec<u16> = match table {
        Some(table) => find_active_queues(table, num_queues),
        None => Vec::new(),
    };
    assert(table is None ==> active@ =~= Seq::empty());
    let ghost t = match table {
        Some(t) => Some(t@),
        None => None,
    };
    proof {
        if let Some(t) = t {
            lemma_active_below(t, num_queues as nat);
        }
        lemma_spread(t, num_queues, buffers, 0);
    }
    let last: u16 = if active.len() > 0 {
        active[active.len() - 1]
    } else {
        num_queues - 1
    };
    let count: u16 = if active.len() > 0 {
        active.len() as u16
    } else {
        num_queues
    };
    let ghost s = Spread { active: active@, count: count as int, buffers };
    let ranges = RxBufferRanges::new(buffers, count as u32);
    let per: u32 = ranges.buffers_per_queue;
    let excluded = active.len() > 0 && active[0] != 0;
    let mut queues: Vec<QueuePlan> = Vec::new();
    let mut start: u32 = 0;
    let mut next_active: u32 = 0;
    let mut q: u16 = 0;
    while q < num_queues
        invariant
            q <= num_queues,
            buffer_count_ok(buffers),
            s == (Spread { active: active@, count: count as int, buffers }),
            s == spread(t, num_queues, buffers),
            last == s.last(),
            per == s.per_queue(),
            ranges == (RxBufferRanges { buffers_per_queue: per, queue_count: count as u32 }),
            excluded == s.primary_excluded(),
            queues@.len() == q,
            start == s.start(q as int),
            next_active == s.active_before(q as int),
            next_active <= q,
            forall|k: int|
                0 <= k < q ==> {
                    &&& (#[trigger] queues@[k]).range == s.range(k)
                    &&& queues@[k].initial_rx@ == within(
                        initial_rx@,
                        s.range(k).start,
                        s.range(k).end,
                    )
                },
        decreases num_queues - q,
    {
        proof {
            lemma_spread(t, num_queues, buffers, q as int);
        }
        let is_queue_active = active.len() == 0 || table_contains(&active, q);
        let mut active_index: Option<u32> = None;
        let end: u32 = if q == 0 && excluded {
            RX_RESERVED_CONTROL_BUFFERS
        } else if !is_queue_active {
            start
        } else {
            active_index = Some(next_active);
            if q == last {
                buffers
            } else if q == 0 {
                RX_RESERVED_CONTROL_BUFFERS + per
            } else {
                start + per
            }
        };
        if active_index.is_some() {
            next_active = next_active + 1;
        }
        assert(end == s.end(q as int));
        let range = RxBufferRange { start, end, active_index, ranges };
        let rx = pick_within(initial_rx, start, end);
        queues.push(QueuePlan { range, initial_rx: rx });
        start = end;
        q = q + 1;
    }
    RestartPlan { queues, num_queues, subchannels: num_queues - 1 }
}

/// Plans the queues of an adapter whose primary channel is ready; `None` if it is
/// not.
pub fn restart_queues(nic: &OpenNic) -> (r: Option<RestartPlan>)
    requires
        nic.wf(),
        nic.workers@[0] matches Some(WorkerState::Ready(ready)) ==> {
            &&& 1 <= ready.state.primary->0.requested_num_queues
            &&& buffer_count_ok(ready.buffers.recv_buffer.count)
        },
    ensures
        match nic.workers@[0] {
            Some(WorkerState::Ready(ready)) => {
                let p = ready.state@.primary->0;
                let buffers = ready.buffers.recv_buffer.count;
                let s = spread(
                    match p.rss_state {
                        Some(rss) => Some(rss.indirection_table),
                        None => None,
                    },
                    p.requested_num_queues,
                    buffers,
                );
                &&& r is Some
                &&& r->0.num_queues == p.requested_num_queues
                &&& r->0.subchannels == p.requested_num_queues - 1
                &&& r->0.queues@.len() == p.requested_num_queues
                &&& forall|q: int|
                    0 <= q < p.requested_num_queues ==> {
                        &&& (#[trigger] r->0.queues@[q]).range == s.range(q)
                        &&& r->0.queues@[q].initial_rx@ == within(
                            free_rx(nic, buffers),
                            s.range(q).start,
                            s.range(q).end,
                        )
                    }
            },
            _ => r is None,
        },
{
    match &nic.workers[0] {
        Some(WorkerState::Ready(ready)) => {
            let buffers: u32 = ready.buffers.recv_buffer.count;
            let initial_rx = find_free_rx(nic, buffers);
            match &ready.state.primary {
                Some(primary) => {
                    let table = match &primary.rss_state {
                        Some(rss) => Some(&rss.indirection_table),
                        None => None,
                    };
                    Some(plan_queues(table, primary.requested_num_queues, buffers, &initial_rx))
                },
                None => None,
            }
        },
        _ => None,
    }
}

/// Whatever the indirection table names, every receive buffer belongs to exactly one
/// queue: the ranges start at zero, each begins where the one before it ends, and the
/// last ends with the last buffer. The reserved buffers are those of queue zero. Each
/// active queue has its share besides, the last one with the remainder, and a queue
/// that is not active has none.
pub proof fn ranges_cover_all_buffers(
    table: Option<Seq<u16>>,
    num_queues: u16,
    buffers: u32,
    q: int,
)
    requires
        num_queues >= 1,
        buffer_count_ok(buffers),
        0 <= q < num_queues,
    ensures
        ({
            let s = spread(table, num_queues, buffers);
            let first = if q == 0 {
                RX_RESERVED_CONTROL_BUFFERS as int
            } else {
                s.start(q)
            };
            &&& s.start(0) == 0
            &&& RX_RESERVED_CONTROL_BUFFERS <= s.end(0)
            &&& s.start(q) <= s.end(q) <= buffers
            &&& q + 1 < num_queues ==> s.end(q) == s.start(q + 1)
            &&& s.end(num_queues - 1) == buffers
            &&& !is_active(s.active, q) ==> s.end(q) == first
            &&& is_active(s.active, q) && q != s.last() ==> s.end(q) == first + s.per_queue()
            &&& q == s.last() ==> s.end(q) == buffers && s.end(q) >= first + s.per_queue()
            &&& q > s.last() ==> !is_active(s.active, q)
        }),
{
    let s = spread(table, num_queues, buffers);
    let per = s.per_queue();
    lemma_spread(table, num_queues, buffers, 0);
    lemma_spread(table, num_queues, buffers, q);
    lemma_spread(table, num_queues, buffers, num_queues - 1);
    lemma_active_before(table, num_queues, buffers, 1);
    assert(s.active_before(0) == 0);
    assert(0 <= s.active_before(1) * per) by (nonlinear_arith)
        requires
            0 <= s.active_before(1),
            0 <= per,
    ;
    if s.active.len() > 0 {
        lemma_active_below(table->0, num_queues as nat);
        if s.active.contains(0) {
            let i = choose|i: int| 0 <= i < s.active.len() && s.active[i] == 0;
            assert(s.active[0] <= s.active[i]);
        }
        assert(s.active[0] == 0 ==> s.active.contains(0));
    }
    if q == s.last() {
        if q > 0 {
            lemma_spread(table, num_queues, buffers, q - 1);
        }
        assert(16 + (s.count - 1) * per + per <= buffers) by (nonlinear_arith)
            requires
                per == (buffers - 16) / s.count,
                s.count >= 1,
                16 <= buffers,
        ;
        assert(0 <= (s.count - 1) * per) by (nonlinear_arith)
            requires
                s.count >= 1,
                0 <= per,
        ;
    }
}

/// A buffer that a queue gets from another one is sent to the queue that owns it:
/// whatever the indirection table names, the owner of each buffer that is not reserved
/// is the active queue in whose range it lies.
pub proof fn buffer_returns_to_owner(
    table: Option<Seq<u16>>,
    num_queues: u16,
    buffers: u32,
    q: int,
    from: int,
    id: u32,
)
    requires
        num_queues >= 1,
        buffer_count_ok(buffers),
        0 <= q < num_queues,
        0 <= from < num_queues,
        RX_RESERVED_CONTROL_BUFFERS <= id,
        spread(table, num_queues, buffers).per_queue() >= 1,
        spread(table, num_queues, buffers).start(q) <= id,
        id < spread(table, num_queues, buffers).end(q),
    ensures
        is_active(spread(table, num_queues, buffers).active, q),
        spread(table, num_queues, buffers).range(q).active_index == Some(
            spread(table, num_queues, buffers).range(from).owner(id) as u32,
        ),
{
    let s = spread(table, num_queues, buffers);
    let per = s.per_queue();
    ranges_cover_all_buffers(table, num_queues, buffers, q);
    lemma_spread(table, num_queues, buffers, q);
    let k = s.active_before(q);
    if q > 0 {
        lemma_spread(table, num_queues, buffers, q - 1);
    } else {
        assert(k * per == 0) by (nonlinear_arith)
            requires
                k == 0,
        ;
    }
    let x = id - 16;
    assert(q <= s.last());
    assert(x >= k * per);
    if q < s.last() {
        assert(s.active_before(q + 1) == k + 1);
        assert(x / per == k) by (nonlinear_arith)
            requires
                k * per <= x < (k + 1) * per,
                per >= 1,
                k >= 0,
        ;
    } else {
        assert(x / per >= k) by (nonlinear_arith)
            requires
                k * per <= x,
                per >= 1,
        ;
    }
}

/// What the coordinator keeps.
#[derive(Debug, Clone, Copy, PartialEq, Eq, Structural)]
pub struct Coordinator {
    /// Whether the queues have to be restarted.
    pub restart: bool,
    /// The timer that is running, by its delay in milliseconds.
    pub timer: Option<u64>,
    /// What it still has to do about the VF device.
    pub pending_vf_state: PendingVfState,
}

/// What the coordinator reads and writes of the primary channel.
#[derive(Debug, Clone, Copy, PartialEq, Eq, Structural)]
pub struct PrimaryStatus {
    /// What the guest knows of the VF.
    pub guest_vf_state: PrimaryChannelGuestVfState,
    /// The link state that the guest has to be told of.
    pub pending_link_action: PendingLinkAction,
}

/// Something that the coordinator reacts to.
#[derive(Debug, Clone, Copy, PartialEq, Eq, Structural)]
pub enum CoordinatorEvent {
    /// A message of a channel.
    Internal(CoordinatorMessage),
    /// The primary channel is gone.
    ChannelDisconnected,
    /// The endpoint asks for its queues to be restarted.
    RestartRequired,
    /// The link went up (or down).
    LinkStatusNotify(bool),
    /// The VF came or went.
    UpdateFromVf,
    /// The delay before the VF device is offered is over.
    OfferVfDevice,
    /// The VF device was added or removed.
    PendingVfStateComplete,
    /// The timer has expired.
    TimerExpired {
        /// Whether the worker of the primary channel runs.
        primary_running: bool,
    },
}

/// What has to be done after an event.
#[derive(Debug, Clone, Copy, PartialEq, Eq, Structural)]
pub enum CoordinatorAction {
    /// Wait for the next event.
    Continue,
    /// Stop the worker of the primary channel, so that it sees its new state, and
    /// wait for the next event.
    StopPrimary,
    /// Stop the worker of the primary channel and bring the VF state in line.
    UpdateGuestVfState,
    /// Stop.
    Exit,
}

/// What the coordinator waits for.
#[derive(Debug, Clone, Copy, PartialEq, Eq, Structural)]
pub enum WaitMode {
    /// Only for the VF device to be added or removed. This can make the guest
    /// switch the data path, so the workers go on, but nothing else is looked
    /// at.
    VfChange,
    /// For any event.
    Any {
        /// Also for the VF.
        vf: bool,
        /// Also for the delay of the VF device.
        offer: bool,
    },
}

/// What the coordinator waits for.
pub fn wait_mode(has_virtual_function: bool, pending: PendingVfState) -> (m: WaitMode)
    ensures
        m == if has_virtual_function && pending == PendingVfState::Pending {
            WaitMode::VfChange
        } else {
            WaitMode::Any {
                vf: has_virtual_function,
                offer: has_virtual_function && pending == PendingVfState::Delay,
            }
        },
{
    if !has_virtual_function {
        return WaitMode::Any { vf: false, offer: false };
    }
    match pending {
        PendingVfState::Pending => WaitMode::VfChange,
        PendingVfState::Ready => WaitMode::Any { vf: true, offer: false },
        PendingVfState::Delay => WaitMode::Any { vf: true, offer: true },
    }
}

/// What an event does: the coordinator, the primary channel, and what has to be
/// done.
pub open spec fn coordinated(
    c: Coordinator,
    p: Option<PrimaryStatus>,
    event: CoordinatorEvent,
) -> (Coordinator, Option<PrimaryStatus>, CoordinatorAction) {
    match event {
        CoordinatorEvent::UpdateFromVf => (c, p, CoordinatorAction::UpdateGuestVfState),
        CoordinatorEvent::Internal(CoordinatorMessage::UpdateGuestVfState) => (
            c,
            p,
            CoordinatorAction::UpdateGuestVfState,
        ),
        CoordinatorEvent::Internal(CoordinatorMessage::Restart)
        | CoordinatorEvent::RestartRequired => (
            Coordinator { restart: true, ..c },
            p,
            CoordinatorAction::Continue,
        ),
        CoordinatorEvent::Internal(CoordinatorMessage::StartTimer { delay_ms }) => (
            Coordinator { timer: Some(delay_ms), ..c },
            p,
            CoordinatorAction::StopPrimary,
        ),
        CoordinatorEvent::OfferVfDevice => (
            Coordinator { pending_vf_state: PendingVfState::Pending, ..c },
            match p {
                Some(p) if p.guest_vf_state is AvailableAdvertised => Some(
                    PrimaryStatus { guest_vf_state: PrimaryChannelGuestVfState::Ready, ..p },
                ),
                _ => p,
            },
            CoordinatorAction::StopPrimary,
        ),
        CoordinatorEvent::PendingVfStateComplete => (
            Coordinator { pending_vf_state: PendingVfState::Ready, ..c },
            p,
            CoordinatorAction::Continue,
        ),
        CoordinatorEvent::TimerExpired { primary_running } => (
            Coordinator { timer: None, ..c },
            if primary_running {
                match p {
                    Some(p) => Some(
                        PrimaryStatus {
                            pending_link_action: match p.pending_link_action {
                                PendingLinkAction::Delay(up) => PendingLinkAction::Active(up),
                                other => other,
                            },
                            ..p
                        },
                    ),
                    None => None,
                }
            } else {
                p
            },
            if primary_running {
                CoordinatorAction::StopPrimary
            } else {
                CoordinatorAction::Continue
            },
        ),
        // Only two transitions are tracked: up and down, or down and up. All
        // others are coalesced into these: the last state counts.
        CoordinatorEvent::LinkStatusNotify(connect) => (
            Coordinator { timer: None, ..c },
            match p {
                Some(p) => Some(
                    PrimaryStatus { pending_link_action: PendingLinkAction::Active(connect), ..p },
                ),
                None => None,
            },
            CoordinatorAction::StopPrimary,
        ),
        CoordinatorEvent::ChannelDisconnected => (c, p, CoordinatorAction::Exit),
    }
}

impl Coordinator {
    /// Reacts to an event.
    pub fn process(&mut self, primary: &mut Option<PrimaryStatus>, event: CoordinatorEvent) -> (a:
        CoordinatorAction)
        ensures
            (*final(self), *final(primary), a) == coordinated(*old(self), *old(primary), event),
    {
        match event {
            CoordinatorEvent::UpdateFromVf => CoordinatorAction::UpdateGuestVfState,
            CoordinatorEvent::Internal(CoordinatorMessage::UpdateGuestVfState) =>
                CoordinatorAction::UpdateGuestVfState,
            CoordinatorEvent::Internal(CoordinatorMessage::Restart)
            | CoordinatorEvent::RestartRequired => {
                self.restart = true;
                CoordinatorAction::Continue
            },
            CoordinatorEvent::Internal(CoordinatorMessage::StartTimer { delay_ms }) => {
                self.timer = Some(delay_ms);
                CoordinatorAction::StopPrimary
            },
            CoordinatorEvent::OfferVfDevice => {
                if let Some(p) = *primary {
                    if let PrimaryChannelGuestVfState::AvailableAdvertised = p.guest_vf_state {
                        *primary = Some(
                            PrimaryStatus {
                                guest_vf_state: PrimaryChannelGuestVfState::Ready,
                                pending_link_action: p.pending_link_action,
                            },
                        );
                    }
                }
                self.pending_vf_state = PendingVfState::Pending;
                CoordinatorAction::StopPrimary
            },
            CoordinatorEvent::PendingVfStateComplete => {
                self.pending_vf_state = PendingVfState::Ready;
                CoordinatorAction::Continue
            },
            CoordinatorEvent::TimerExpired { primary_running } => {
                self.timer = None;
                if primary_running {
                    if let Some(p) = *primary {
                        if let PendingLinkAction::Delay(up) = p.pending_link_action {
                            *primary = Some(
                                PrimaryStatus {
                                    guest_vf_state: p.guest_vf_state,
                                    pending_link_action: PendingLinkAction::Active(up),
                                },
                            );
                        }
                    }
                    CoordinatorAction::StopPrimary
                } else {
                    CoordinatorAction::Continue
                }
            },
            CoordinatorEvent::LinkStatusNotify(connect) => {
                if let Some(p) = *primary {
                    *primary = Some(
                        PrimaryStatus {
                            guest_vf_state: p.guest_vf_state,
                            pending_link_action: PendingLinkAction::Active(connect),
                        },
                    );
                }
                // If there is any timer running, cancel it.
                self.timer = None;
                CoordinatorAction::StopPrimary
            },
            CoordinatorEvent::ChannelDisconnected => CoordinatorAction::Exit,
        }
    }
}

/// The active queues are those that the indirection table names and that are there, each once,
/// the smallest first. Without a table, or if it names none of them, all are active.
pub proof fn active_queues_are_named(table: Option<Seq<u16>>, num_queues: u16, q: u16)
    requires
        q < num_queues,
    ensures
        ({
            let active = active_queues(table, num_queues);
            let named = |x: u16| table is Some && table->0.contains(x) && x < num_queues;
            let any = exists|x: u16| #[trigger] named(x);
            &&& forall|x: u16| #[trigger] active.contains(x) <==> named(x)
            &&& forall|i: int, j: int|
                0 <= i < j < active.len() ==> (#[trigger] active[i]) < #[trigger] active[j]
            &&& is_active(active, q as int) <==> named(q) || !any
            &&& !any ==> active_count(active, num_queues) == num_queues
            &&& any ==> active_count(active, num_queues) == active.len() && active.len() > 0
        }),
{
    let active = active_queues(table, num_queues);
    let named = |x: u16| table is Some && table->0.contains(x) && x < num_queues;
    if let Some(t) = table {
        lemma_active_below(t, num_queues as nat);
    }
    assert forall|x: u16| #[trigger] active.contains(x) <==> named(x) by {
        if active.contains(x) {
            let i = choose|i: int| 0 <= i < active.len() && active[i] == x;
            assert(active[i] < num_queues);
        }
    }
    if active.len() > 0 {
        assert(active.contains(active[0]));
        assert(named(active[0]));
    } else {
        assert forall|x: u16| !(#[trigger] named(x)) by {
            assert(!active.contains(x));
        }
    }
}

/// The buffers that are not reserved are shared out evenly: each active queue gets as many as
/// it can without another getting fewer. The last active queue is the largest.
pub proof fn shares_are_even(table: Option<Seq<u16>>, num_queues: u16, buffers: u32)
    requires
        num_queues >= 1,
        buffer_count_ok(buffers),
    ensures
        ({
            let s = spread(table, num_queues, buffers);
            &&& s.buffers == buffers
            &&& s.count >= 1
            &&& s.count * s.per_queue() <= buffers - 16 < s.count * (s.per_queue() + 1)
            &&& is_active(s.active, s.last())
            &&& s.primary_excluded() <==> !is_active(s.active, 0)
        }),
{
    let s = spread(table, num_queues, buffers);
    active_queues_are_named(table, num_queues, 0);
    let d = buffers - 16;
    let k = s.count;
    let per = d / k;
    assert(k * per <= d < k * (per + 1)) by (nonlinear_arith)
        requires
            per == d / k,
            k >= 1,
    ;
    if s.active.len() > 0 {
        assert(s.active.contains(s.active.last()));
        if s.active.contains(0) {
            let i = choose|i: int| 0 <= i < s.active.len() && s.active[i] == 0;
            if i > 0 {
                assert(s.active[0] < s.active[i]);
            }
        }
        if s.active[0] == 0 {
            assert(s.active.contains(0));
        }
    }
}

/// A queue gets those of the free buffers that lie in its range, in their order.
pub proof fn queue_gets_buffers_of_its_range(ids: Seq<u32>, start: u32, end: u32)
    ensures
        within(ids, start, end) == ids.filter(|id: u32| start <= id < end),
    decreases ids.len(),
{
    reveal(Seq::filter);
    if ids.len() > 0 {
        queue_gets_buffers_of_its_range(ids.drop_last(), start, end);
    }
}

/// A buffer can be used by the endpoint from the start if and only if it is not reserved and
/// no channel has it with the guest. Each is listed once, the smallest first.
pub proof fn free_buffers_are_found(nic: &OpenNic, n: u32)
    ensures
        ({
            let s = free_rx(nic, n);
            &&& forall|id: u32| #[trigger] s.contains(id) <==> 16 <= id < n && free_everywhere(nic, id)
            &&& forall|i: int, j: int| 0 <= i < j < s.len() ==> s[i] < s[j]
        }),
    decreases n,
{
    if n > 16 {
        let m = (n - 1) as u32;
        free_buffers_are_found(nic, m);
        let before = free_rx(nic, m);
        let s = free_rx(nic, n);
        assert forall|id: u32| #[trigger] s.contains(id) <==> 16 <= id < n && free_everywhere(
            nic,
            id,
        ) by {
            assert(before.contains(id) <==> 16 <= id < m && free_everywhere(nic, id));
            if s.contains(id) {
                let i = choose|i: int| 0 <= i < s.len() && s[i] == id;
                if i < before.len() {
                    assert(before[i] == id);
                }
            }
            if before.contains(id) {
                let i = choose|i: int| 0 <= i < before.len() && before[i] == id;
                assert(s[i] == id);
            }
            if id == m && free_everywhere(nic, id) {
                assert(s[before.len() as int] == id);
            }
        }
        assert forall|i: int, j: int| 0 <= i < j < s.len() implies s[i] < s[j] by {
            assert(before.contains(before[i]));
        }
    }
}

/// The position of a queue among the active ones counts those before it.
pub proof fn active_queues_are_numbered(s: Spread, q: int)
    requires
        q >= 0,
    ensures
        s.active_before(0) == 0,
        is_active(s.active, q) && !(q == 0 && s.primary_excluded()) ==> s.active_before(q + 1)
            == s.active_before(q) + 1 && s.range(q).active_index == Some(
            s.active_before(q) as u32,
        ),
        !(is_active(s.active, q) && !(q == 0 && s.primary_excluded())) ==> s.active_before(q + 1)
            == s.active_before(q) && s.range(q).active_index is None,
{
}

/// A change of the link replaces what the guest still had to be told of it, and a timer that
/// runs is stopped: the last change counts. The worker sees it once it was stopped.
pub proof fn link_change_is_passed_on(c: Coordinator, p: Option<PrimaryStatus>, up: bool)
    ensures
        ({
            let r = coordinated(c, p, CoordinatorEvent::LinkStatusNotify(up));
            &&& r.0.timer is None
            &&& r.0.restart == c.restart
            &&& r.0.pending_vf_state == c.pending_vf_state
            &&& r.1 is Some <==> p is Some
            &&& p matches Some(s) ==> r.1->0.pending_link_action == PendingLinkAction::Active(up)
                && r.1->0.guest_vf_state == s.guest_vf_state
            &&& r.2 == CoordinatorAction::StopPrimary
        }),
{
}

/// What was delayed is told when its timer runs out, unless something newer has taken its
/// place. While the worker does not run, nothing changes but the timer.
pub proof fn delayed_link_change_is_told(
    c: Coordinator,
    p: PrimaryStatus,
    up: bool,
    primary_running: bool,
)
    ensures
        ({
            let r = coordinated(
                c,
                Some(p),
                CoordinatorEvent::TimerExpired { primary_running },
            );
            &&& r.0.timer is None
            &&& r.0.restart == c.restart
            &&& r.0.pending_vf_state == c.pending_vf_state
            &&& r.1 is Some
            &&& r.1->0.guest_vf_state == p.guest_vf_state
            &&& primary_running && p.pending_link_action == PendingLinkAction::Delay(up)
                ==> r.1->0.pending_link_action == PendingLinkAction::Active(up)
            &&& !primary_running || !(p.pending_link_action is Delay)
                ==> r.1->0.pending_link_action == p.pending_link_action
            &&& primary_running ==> r.2 == CoordinatorAction::StopPrimary
            &&& !primary_running ==> r.2 == CoordinatorAction::Continue
        }),
{
}

/// A channel that wants to be woken later gets its timer, and one that wants its queues
/// restarted, like an endpoint that does, has that remembered. Neither touches the VF.
pub proof fn channel_requests_are_remembered(
    c: Coordinator,
    p: Option<PrimaryStatus>,
    delay_ms: u64,
)
    ensures
        ({
            let timed = coordinated(
                c,
                p,
                CoordinatorEvent::Internal(CoordinatorMessage::StartTimer { delay_ms }),
            );
            let asked = coordinated(c, p, CoordinatorEvent::Internal(CoordinatorMessage::Restart));
            let required = coordinated(c, p, CoordinatorEvent::RestartRequired);
            &&& timed.0.timer == Some(delay_ms) && timed.0.restart == c.restart
            &&& timed.0.pending_vf_state == c.pending_vf_state && timed.1 == p
            &&& timed.2 == CoordinatorAction::StopPrimary
            &&& asked.0.restart && asked.0.timer == c.timer && asked.1 == p
            &&& asked.0.pending_vf_state == c.pending_vf_state
            &&& asked.2 == CoordinatorAction::Continue
            &&& required == asked
        }),
{
}

/// A VF that the guest was told of is offered once its delay is over, and the coordinator then
/// waits for that only until it is done. A VF that the guest was not told of, or is past that,
/// stays as it is.
pub proof fn vf_device_is_offered_in_time(c: Coordinator, p: PrimaryStatus)
    ensures
        ({
            let r = coordinated(c, Some(p), CoordinatorEvent::OfferVfDevice);
            let done = coordinated(r.0, r.1, CoordinatorEvent::PendingVfStateComplete);
            &&& r.0.pending_vf_state == PendingVfState::Pending
            &&& r.0.timer == c.timer && r.0.restart == c.restart
            &&& r.1 is Some && r.1->0.pending_link_action == p.pending_link_action
            &&& p.guest_vf_state is AvailableAdvertised ==> r.1->0.guest_vf_state is Ready
            &&& !(p.guest_vf_state is AvailableAdvertised) ==> r.1->0.guest_vf_state
                == p.guest_vf_state
            &&& r.2 == CoordinatorAction::StopPrimary
            &&& done.0.pending_vf_state == PendingVfState::Ready
            &&& done.0.timer == c.timer && done.0.restart == c.restart
            &&& done.1 == r.1
            &&& done.2 == CoordinatorAction::Continue
        }),
{
}

/// Whoever says that the VF has changed, its state is brought in line. The coordinator stops
/// only when the primary channel is gone.
pub proof fn vf_change_is_looked_at(c: Coordinator, p: Option<PrimaryStatus>, e: CoordinatorEvent)
    ensures
        coordinated(c, p, CoordinatorEvent::UpdateFromVf) == (
            c,
            p,
            CoordinatorAction::UpdateGuestVfState,
        ),
        coordinated(
            c,
            p,
            CoordinatorEvent::Internal(CoordinatorMessage::UpdateGuestVfState),
        ) == (c, p, CoordinatorAction::UpdateGuestVfState),
        coordinated(c, p, e).2 == CoordinatorAction::Exit <==> e
            == CoordinatorEvent::ChannelDisconnected,
        coordinated(c, p, CoordinatorEvent::ChannelDisconnected).0 == c,
{
}

} // verus!
