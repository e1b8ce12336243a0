//! Operations on a set of state units.
use crate::state_unit::units::{
    added, holds, increasing, linked, State, StateUnits, Unit, UnitHandle, UnitView, UnitsView,
};
use crate::text::owned;
use vstd::prelude::*;
use vstd::string::StringExecFns;

verus! {

/// An operation on all units.
#[derive(Debug, Clone, Copy, PartialEq, Eq, Structural)]
pub enum StateOp {
    /// Start asynchronous operations.
    Start,
    /// Stop asynchronous operations.
    Stop,
    /// Reset stopped units to their initial state.
    Reset,
    /// Save the state of stopped units.
    Save,
    /// Restore the state of stopped units.
    Restore,
}

impl StateOp {
    /// The state of a unit before.
    pub open spec fn old_state(self) -> State {
        if self == StateOp::Stop {
            State::Running
        } else {
            State::Stopped
        }
    }

    /// The state of a unit meanwhile.
    pub open spec fn interim_state(self) -> State {
        match self {
            StateOp::Start => State::Starting,
            StateOp::Stop => State::Stopping,
            StateOp::Reset => State::Resetting,
            StateOp::Save => State::Saving,
            StateOp::Restore => State::Restoring,
        }
    }

    /// The state of a unit after.
    pub open spec fn new_state(self) -> State {
        if self == StateOp::Start {
            State::Running
        } else {
            State::Stopped
        }
    }

    /// Whether the operation is possible: units are started at any time, stopped only
    /// while they are running, and the rest is for stopped units.
    pub open spec fn allowed(self, running: bool) -> bool {
        match self {
            StateOp::Start => true,
            StateOp::Stop => running,
            _ => !running,
        }
    }

    /// The units that have to be done first: a dependency stops after its dependents,
    /// and everything else is done before them. Saving changes nothing that can be
    /// seen, so it is done in any order.
    pub open spec fn deps(self, u: UnitView) -> Seq<u64> {
        match self {
            StateOp::Stop => u.dependents,
            StateOp::Save => Seq::empty(),
            _ => u.dependencies,
        }
    }

    /// Whether the units are running after the operation.
    pub open spec fn running_after(self, running: bool) -> bool {
        match self {
            StateOp::Start => true,
            StateOp::Stop => false,
            _ => running,
        }
    }

    fn before(self) -> (s: State)
        ensures
            s == self.old_state(),
    {
        match self {
            StateOp::Stop => State::Running,
            _ => State::Stopped,
        }
    }

    fn meanwhile(self) -> (s: State)
        ensures
            s == self.interim_state(),
    {
        match self {
            StateOp::Start => State::Starting,
            StateOp::Stop => State::Stopping,
            StateOp::Reset => State::Resetting,
            StateOp::Save => State::Saving,
            StateOp::Restore => State::Restoring,
        }
    }

    fn after(self) -> (s: State)
        ensures
            s == self.new_state(),
    {
        match self {
            StateOp::Start => State::Running,
            _ => State::Stopped,
        }
    }

    /// The name of the operation.
    pub fn name(self) -> (s: &'static str)
        ensures
            s@ == match self {
                StateOp::Start => "start"@,
                StateOp::Stop => "stop"@,
                StateOp::Reset => "reset"@,
                StateOp::Save => "save"@,
                StateOp::Restore => "restore"@,
            },
    {
        match self {
            StateOp::Start => "start",
            StateOp::Stop => "stop",
            StateOp::Reset => "reset",
            StateOp::Save => "save",
            StateOp::Restore => "restore",
        }
    }
}

/// What an operation does with one unit.
#[derive(Debug)]
pub struct Step {
    /// The unit.
    pub id: u64,
    /// Its name.
    pub name: String,
    /// The units that have to be done first.
    pub deps: Vec<u64>,
    /// Whether the unit is sent a request.
    pub send: bool,
    /// Whether that has begun.
    pub started: bool,
    /// Whether that is over.
    pub done: bool,
}

/// What an operation does with one unit.
#[verifier::ext_equal]
pub struct StepView {
    /// The unit.
    pub id: u64,
    /// Its name.
    pub name: Seq<char>,
    /// The units that have to be done first.
    pub deps: Seq<u64>,
    /// Whether the unit is sent a request.
    pub send: bool,
    /// Whether that has begun.
    pub started: bool,
    /// Whether that is over.
    pub done: bool,
}

impl View for Step {
    type V = StepView;

    open spec fn view(&self) -> StepView {
        StepView {
            id: self.id,
            name: self.name@,
            deps: self.deps@,
            send: self.send,
            started: self.started,
            done: self.done,
        }
    }
}

/// An operation that is under way.
#[derive(Debug)]
pub struct Run {
    /// The operation.
    pub op: StateOp,
    /// What it does with each unit.
    pub steps: Vec<Step>,
}

/// An operation that is under way.
#[verifier::ext_equal]
pub struct RunView {
    /// The operation.
    pub op: StateOp,
    /// What it does with each unit.
    pub steps: Seq<StepView>,
}

impl View for Run {
    type V = RunView;

    open spec fn view(&self) -> RunView {
        RunView { op: self.op, steps: self.steps@.map_values(|s: Step| s@) }
    }
}

impl RunView {
    /// Whether the operation is about that unit.
    pub open spec fn has_id(self, id: u64) -> bool {
        exists|i: int| 0 <= i < self.steps.len() && #[trigger] self.steps[i].id == id
    }

    /// Whether all that step `i` waits for is over. Units that the operation is not
    /// about are not waited for.
    pub open spec fn unblocked(self, i: int) -> bool {
        forall|j: int|
            0 <= j < self.steps.len() && self.steps[i].deps.contains(
                (#[trigger] self.steps[j]).id,
            ) ==> self.steps[j].done
    }

    /// Whether step `i` can begin.
    pub open spec fn ready(self, i: int) -> bool {
        !self.steps[i].started && self.unblocked(i)
    }

    /// Whether no step has begun before all that it waits for was over, and none is
    /// over before it has begun.
    pub open spec fn ordered(self) -> bool {
        &&& forall|i: int|
            0 <= i < self.steps.len() && (#[trigger] self.steps[i]).started ==> self.unblocked(i)
        &&& forall|i: int|
            0 <= i < self.steps.len() && (#[trigger] self.steps[i]).done ==> self.steps[i].started
    }

    /// Whether everything is over.
    pub open spec fn finished(self) -> bool {
        forall|i: int| 0 <= i < self.steps.len() ==> (#[trigger] self.steps[i]).done
    }
}

/// Whether a unit is sent a request.
pub open spec fn has_input(inputs: Option<Seq<u64>>, id: u64) -> bool {
    inputs matches Some(ids) ==> ids.contains(id)
}

/// What the operation does with a unit: nothing, if it is already in the state that
/// it would have after.
pub open spec fn step_of(op: StateOp, u: UnitView, inputs: Option<Seq<u64>>) -> StepView {
    let skip = u.state != op.old_state();
    StepView {
        id: u.id,
        name: u.name,
        deps: if skip {
            Seq::empty()
        } else {
            op.deps(u)
        },
        send: !skip && has_input(inputs, u.id),
        started: skip,
        done: skip,
    }
}

/// A unit once the operation has begun.
pub open spec fn begun(op: StateOp, u: UnitView) -> UnitView {
    if u.state == op.old_state() {
        UnitView { state: op.interim_state(), ..u }
    } else {
        u
    }
}

/// The units once the operation has begun, and what it does with each of them.
pub open spec fn begun_all(v: UnitsView, op: StateOp, inputs: Option<Seq<u64>>) -> (
    UnitsView,
    RunView,
) {
    (
        UnitsView { units: v.units.map_values(|u: UnitView| begun(op, u)), ..v },
        RunView { op, steps: v.units.map_values(|u: UnitView| step_of(op, u, inputs)) },
    )
}

/// The units while the operation is under way: those that it is about are on their
/// way or were skipped, and others are stopped.
pub open spec fn in_op(v: UnitsView, run: RunView) -> bool {
    &&& run.op.allowed(v.running)
    &&& forall|i: int|
        0 <= i < v.units.len() ==> {
            let u = #[trigger] v.units[i];
            if run.has_id(u.id) {
                u.state == run.op.interim_state() || u.state == run.op.new_state()
            } else {
                u.state == State::Stopped
            }
        }
    &&& forall|i: int| 0 <= i < run.steps.len() ==> (#[trigger] run.steps[i]).id < v.next_id
}

/// A unit after the operation.
pub open spec fn ended(run: RunView, u: UnitView) -> UnitView {
    if run.has_id(u.id) && u.state == run.op.interim_state() {
        UnitView { state: run.op.new_state(), ..u }
    } else {
        u
    }
}

/// Units that differ only in their state are in order together.
proof fn lemma_same_links(v: UnitsView, w: UnitsView)
    requires
        v.wf(),
        w.next_id == v.next_id,
        w.units.len() == v.units.len(),
        forall|i: int|
            0 <= i < v.units.len() ==> (#[trigger] w.units[i]) == (UnitView {
                state: w.units[i].state,
                ..v.units[i]
            }),
    ensures
        w.wf(),
{
    assert forall|i: int| 0 <= i < w.units.len() implies {
        let u = #[trigger] w.units[i];
        &&& u.id < w.next_id
        &&& increasing(u.dependencies)
        &&& increasing(u.dependents)
        &&& forall|k: int|
            0 <= k < u.dependencies.len() ==> #[trigger] u.dependencies[k] < w.next_id
        &&& forall|k: int| 0 <= k < u.dependents.len() ==> #[trigger] u.dependents[k] < w.next_id
    } by {
        let u = v.units[i];
    }
    assert forall|i: int, j: int| 0 <= i < j < w.units.len() implies (#[trigger] w.units[i]).id < (
    #[trigger] w.units[j]).id by {
        assert(v.units[i].id < v.units[j].id);
    }
    assert forall|i: int, j: int| 0 <= i < j < w.units.len() implies (#[trigger] w.units[i]).name
        != (#[trigger] w.units[j]).name by {
        assert(v.units[i].name != v.units[j].name);
    }
    assert forall|i: int, j: int| 0 <= i < w.units.len() && 0 <= j < w.units.len() implies ((
    #[trigger] w.units[i]).dependencies.contains((#[trigger] w.units[j]).id)
        <==> w.units[j].dependents.contains(w.units[i].id)) by {
        assert(v.units[i].dependencies.contains(v.units[j].id) <==> v.units[j].dependents.contains(
            v.units[i].id,
        ));
    }
}

fn copy_ids(v: &Vec<u64>) -> (r: Vec<u64>)
    ensures
        r@ == v@,
{
    let mut r: Vec<u64> = Vec::new();
    let mut i: usize = 0;
    while i < v.len()
        invariant
            i <= v@.len(),
            r@ == v@.take(i as int),
        decreases v@.len() - i,
    {
        r.push(v[i]);
        i = i + 1;
        assert(r@ =~= v@.take(i as int));
    }
    assert(v@.take(i as int) =~= v@);
    r
}

fn make_step(op: StateOp, u: &Unit, inputs: Option<&Vec<u64>>) -> (s: Step)
    ensures
        s@ == step_of(
            op,
            u@,
            match inputs {
                Some(ids) => Some(ids@),
                None => None,
            },
        ),
{
    let skip = u.state != op.before();
    let send = !skip && match inputs {
        Some(ids) => holds(ids, u.id),
        None => true,
    };
    let deps = if skip {
        Vec::new()
    } else {
        match op {
            StateOp::Stop => copy_ids(&u.dependents),
            StateOp::Save => Vec::new(),
            _ => copy_ids(&u.dependencies),
        }
    };
    assert(skip ==> deps@ =~= Seq::empty());
    assert(op == StateOp::Save ==> deps@ =~= Seq::empty());
    Step { id: u.id, name: owned(u.name.as_str()), deps, send, started: skip, done: skip }
}

impl StateUnits {
    /// Begins an operation. `inputs` are the units that get a request; all of them if
    /// it is not given.
    pub fn begin(&mut self, op: StateOp, inputs: Option<&Vec<u64>>) -> (run: Run)
        requires
            old(self)@.wf(),
            old(self)@.idle(),
            op.allowed(old(self)@.running),
        ensures
            (final(self)@, run@) == begun_all(
                old(self)@,
                op,
                match inputs {
                    Some(ids) => Some(ids@),
                    None => None,
                },
            ),
            final(self)@.wf(),
            in_op(final(self)@, run@),
            run@.ordered(),
    {
        let ghost first = self@;
        let ghost ids: Option<Seq<u64>> = match inputs {
            Some(ids) => Some(ids@),
            None => None,
        };
        let mut steps: Vec<Step> = Vec::new();
        let mut i: usize = 0;
        while i < self.units.len()
            invariant
                i <= self.units@.len(),
                self.units@.len() == first.units.len(),
                self.next_id == first.next_id,
                self.running == first.running,
                first == old(self)@,
                first.idle(),
                op.allowed(first.running),
                ids == match inputs {
                    Some(ids) => Some(ids@),
                    None => None,
                },
                steps@.len() == i,
                forall|k: int|
                    0 <= k < i ==> (#[trigger] steps@[k])@ == step_of(op, first.units[k], ids),
                forall|k: int|
                    0 <= k < i ==> (#[trigger] self.units@[k])@ == begun(op, first.units[k]),
                forall|k: int|
                    i <= k < self.units@.len() ==> (#[trigger] self.units@[k])@ == first.units[k],
            decreases self.units@.len() - i,
        {
            assert(self.units@[i as int]@ == first.units[i as int]);
            let step = make_step(op, &self.units[i], inputs);
            steps.push(step);
            let unit = &mut self.units[i];
            if unit.state == op.before() {
                unit.state = op.meanwhile();
            }
            i = i + 1;
        }
        let run = Run { op, steps };
        proof {
            let after = UnitsView {
                units: first.units.map_values(|u: UnitView| begun(op, u)),
                ..first
            };
            assert(self@.units =~= after.units);
            assert(run@.steps =~= first.units.map_values(|u: UnitView| step_of(op, u, ids)));
            lemma_same_links(first, self@);
            assert forall|k: int| 0 <= k < self@.units.len() implies {
                let u = #[trigger] self@.units[k];
                if run@.has_id(u.id) {
                    u.state == op.interim_state() || u.state == op.new_state()
                } else {
                    u.state == State::Stopped
                }
            } by {
                assert(run@.steps[k].id == self@.units[k].id);
                assert(first.units[k].state == State::Stopped || first.units[k].state
                    == State::Running);
            }
            assert(run@.ordered());
        }
        run
    }

    /// Starts all units.
    pub fn start(&mut self) -> (run: Run)
        requires
            old(self)@.wf(),
            old(self)@.idle(),
        ensures
            (final(self)@, run@) == begun_all(old(self)@, StateOp::Start, None),
            final(self)@.wf(),
            run@.steps.len() == old(self)@.units.len(),
            forall|i: int|
                0 <= i < old(self)@.units.len() ==> {
                    &&& (#[trigger] run@.steps[i]).id == old(self)@.units[i].id
                    &&& run@.steps[i].send == (old(self)@.units[i].state == State::Stopped)
                },
            in_op(final(self)@, run@),
            run@.ordered(),
    {
        self.begin(StateOp::Start, None)
    }

    /// Starts the units that were added since the others were started. Does nothing if
    /// no unit is running.
    pub fn start_stopped_units(&mut self) -> (run: Option<Run>)
        requires
            old(self)@.wf(),
            old(self)@.idle(),
        ensures
            match run {
                Some(run) => old(self)@.running && (final(self)@, run@) == begun_all(
                    old(self)@,
                    StateOp::Start,
                    None,
                ) && in_op(final(self)@, run@) && run@.ordered(),
                None => !old(self)@.running && final(self)@ == old(self)@,
            },
            final(self)@.wf(),
    {
        if self.is_running() {
            Some(self.start())
        } else {
            None
        }
    }

    /// Stops all units, dependents before their dependencies. They must be running.
    pub fn stop(&mut self) -> (run: Run)
        requires
            old(self)@.wf(),
            old(self)@.idle(),
            old(self)@.running,
        ensures
            (final(self)@, run@) == begun_all(old(self)@, StateOp::Stop, None),
            final(self)@.wf(),
            run@.steps.len() == old(self)@.units.len(),
            forall|i: int|
                0 <= i < old(self)@.units.len() ==> {
                    &&& (#[trigger] run@.steps[i]).id == old(self)@.units[i].id
                    &&& run@.steps[i].send == (old(self)@.units[i].state == State::Running)
                },
            in_op(final(self)@, run@),
            run@.ordered(),
    {
        self.begin(StateOp::Stop, None)
    }

    /// Resets all units, which must be stopped.
    pub fn reset(&mut self) -> (run: Run)
        requires
            old(self)@.wf(),
            old(self)@.idle(),
            !old(self)@.running,
        ensures
            (final(self)@, run@) == begun_all(old(self)@, StateOp::Reset, None),
            final(self)@.wf(),
            run@.steps.len() == old(self)@.units.len(),
            forall|i: int|
                0 <= i < old(self)@.units.len() ==> {
                    &&& (#[trigger] run@.steps[i]).id == old(self)@.units[i].id
                    &&& run@.steps[i].send == (old(self)@.units[i].state == State::Stopped)
                },
            in_op(final(self)@, run@),
            run@.ordered(),
    {
        self.begin(StateOp::Reset, None)
    }

    /// Saves all units, which must be stopped.
    pub fn save(&mut self) -> (run: Run)
        requires
            old(self)@.wf(),
            old(self)@.idle(),
            !old(self)@.running,
        ensures
            (final(self)@, run@) == begun_all(old(self)@, StateOp::Save, None),
            final(self)@.wf(),
            run@.steps.len() == old(self)@.units.len(),
            forall|i: int|
                0 <= i < old(self)@.units.len() ==> {
                    &&& (#[trigger] run@.steps[i]).id == old(self)@.units[i].id
                    &&& run@.steps[i].send == (old(self)@.units[i].state == State::Stopped)
                },
            in_op(final(self)@, run@),
            run@.ordered(),
    {
        self.begin(StateOp::Save, None)
    }

    /// Begins to restore the units that states were matched with. They must be stopped.
    pub fn begin_restore(&mut self, states: &Vec<MatchedState>) -> (run: Run)
        requires
            old(self)@.wf(),
            old(self)@.idle(),
            !old(self)@.running,
        ensures
            (final(self)@, run@) == begun_all(
                old(self)@,
                StateOp::Restore,
                Some(states@.map_values(|m: MatchedState| m.unit())),
            ),
            final(self)@.wf(),
            run@.steps.len() == old(self)@.units.len(),
            forall|i: int|
                0 <= i < old(self)@.units.len() ==> {
                    &&& (#[trigger] run@.steps[i]).id == old(self)@.units[i].id
                    &&& run@.steps[i].send == (old(self)@.units[i].state == State::Stopped
                        && exists|k: int|
                        0 <= k < states@.len() && (#[trigger] states@[k]).unit() == old(
                            self,
                        )@.units[i].id)
                },
            in_op(final(self)@, run@),
            run@.ordered(),
    {
        let mut ids: Vec<u64> = Vec::new();
        let mut i: usize = 0;
        let ghost f = |m: MatchedState| m.unit();
        assert(ids@ =~= states@.take(0).map_values(f));
        while i < states.len()
            invariant
                i <= states@.len(),
                f == (|m: MatchedState| m.unit()),
                ids@ == states@.take(i as int).map_values(f),
            decreases states@.len() - i,
        {
            ids.push(states[i].id);
            i = i + 1;
            assert(ids@ =~= states@.take(i as int).map_values(f));
        }
        assert(states@.take(i as int) =~= states@);
        proof {
            let want = states@.map_values(f);
            assert forall|k: int| 0 <= k < self@.units.len() implies want.contains(
                (#[trigger] self@.units[k]).id,
            ) == (exists|m: int|
                0 <= m < states@.len() && (#[trigger] states@[m]).unit() == self@.units[k].id) by {
                if want.contains(self@.units[k].id) {
                    let m = choose|m: int| 0 <= m < want.len() && want[m] == self@.units[k].id;
                    assert(states@[m].unit() == self@.units[k].id);
                }
                if exists|m: int|
                    0 <= m < states@.len() && (#[trigger] states@[m]).unit() == self@.units[k].id {
                    let m = choose|m: int|
                        0 <= m < states@.len() && (#[trigger] states@[m]).unit()
                            == self@.units[k].id;
                    assert(want[m] == self@.units[k].id);
                }
            }
        }
        self.begin(StateOp::Restore, Some(&ids))
    }

    /// Restores the units that states were saved for. They must be stopped. A state for a
    /// unit that is not there, or a second one for the same unit, is refused before
    /// anything is restored. Otherwise each state belongs to a unit of the operation.
    pub fn restore(&mut self, states: Vec<SavedStateUnit>) -> (r: Result<
        (Run, Vec<MatchedState>),
        StateTransitionError,
    >)
        requires
            old(self)@.wf(),
            old(self)@.idle(),
            !old(self)@.running,
        ensures
            r is Ok <==> state_errors(old(self)@, states@, states@.len() as int).len() == 0,
            match r {
                Ok((run, m)) => {
                    &&& are_matched(old(self)@, states@, m@)
                    &&& (final(self)@, run@) == begun_all(
                        old(self)@,
                        StateOp::Restore,
                        Some(m@.map_values(|m: MatchedState| m.unit())),
                    )
                    &&& unconsumed(m@, run@, m@.len() as int).len() == 0
                    &&& run@.steps.len() == old(self)@.units.len()
                    &&& forall|i: int|
                        0 <= i < old(self)@.units.len() ==> {
                            &&& (#[trigger] run@.steps[i]).id == old(self)@.units[i].id
                            &&& run@.steps[i].send == (old(self)@.units[i].state == State::Stopped
                                && exists|k: int|
                                0 <= k < m@.len() && (#[trigger] m@[k]).unit() == old(
                                    self,
                                )@.units[i].id)
                        }
                    &&& in_op(final(self)@, run@)
                    &&& run@.ordered()
                },
                Err(e) => {
                    &&& final(self)@ == old(self)@
                    &&& e.op@ == "restore"@
                    &&& named(e.errors@) == state_errors(
                        old(self)@,
                        states@,
                        states@.len() as int,
                    )
                },
            },
            final(self)@.wf(),
    {
        let ghost first = self@;
        match self.match_states(states) {
            Ok(m) => {
                let run = self.begin_restore(&m);
                proof {
                    lemma_all_consumed(
                        first,
                        states@,
                        m@,
                        Some(m@.map_values(|m: MatchedState| m.unit())),
                        m@.len() as int,
                    );
                }
                Ok((run, m))
            },
            Err(e) => Err(e),
        }
    }

    /// Ends an operation once all steps are over.
    pub fn end(&mut self, run: &Run)
        requires
            old(self)@.wf(),
            in_op(old(self)@, run@),
        ensures
            final(self)@ == (UnitsView {
                units: old(self)@.units.map_values(|u: UnitView| ended(run@, u)),
                running: run@.op.running_after(old(self)@.running),
                ..old(self)@
            }),
            final(self)@.wf(),
            final(self)@.idle(),
    {
        let ghost first = self@;
        let op = run.op;
        let mut i: usize = 0;
        while i < self.units.len()
            invariant
                i <= self.units@.len(),
                self.units@.len() == first.units.len(),
                self.next_id == first.next_id,
                self.running == first.running,
                first == old(self)@,
                op == run@.op,
                forall|k: int|
                    0 <= k < i ==> (#[trigger] self.units@[k])@ == ended(run@, first.units[k]),
                forall|k: int|
                    i <= k < self.units@.len() ==> (#[trigger] self.units@[k])@ == first.units[k],
            decreases self.units@.len() - i,
        {
            assert(self.units@[i as int]@ == first.units[i as int]);
            let id: u64 = self.units[i].id;
            let about = run.find(id).is_some();
            let unit = &mut self.units[i];
            if about && unit.state == op.meanwhile() {
                unit.state = op.after();
            }
            i = i + 1;
        }
        match op {
            StateOp::Start => {
                self.running = true;
            },
            StateOp::Stop => {
                self.running = false;
            },
            _ => {},
        }
        proof {
            assert(self@.units =~= first.units.map_values(|u: UnitView| ended(run@, u)));
            lemma_same_links(first, self@);
            assert forall|k: int| 0 <= k < self@.units.len() implies {
                let u = #[trigger] self@.units[k];
                u.state == State::Stopped || (self@.running && u.state == State::Running)
            } by {
                let u = first.units[k];
            }
        }
    }

    /// Removes a unit.
    pub fn remove(&mut self, handle: UnitHandle)
        requires
            old(self)@.wf(),
            old(self)@.has_id(handle.id),
        ensures
            final(self)@.wf(),
            exists|i: int|
                0 <= i < old(self)@.units.len() && old(self)@.units[i].id == handle.id && final(
                    self
                )@ == #[trigger] without(old(self)@, i),
    {
        let ghost first = self@;
        if let Some(i) = self.find_id(handle.id) {
            self.units.remove(i);
            proof {
                assert(self@.units =~= without(first, i as int).units);
                removing_keeps_order(first, i as int);
                assert(self@ == without(first, i as int));
            }
        }
    }
}

/// The units without the one at `i`.
pub open spec fn without(v: UnitsView, i: int) -> UnitsView {
    UnitsView { units: v.units.remove(i), ..v }
}

/// Removing a unit keeps the others in order.
pub proof fn removing_keeps_order(v: UnitsView, i: int)
    requires
        v.wf(),
        0 <= i < v.units.len(),
    ensures
        without(v, i).wf(),
{
    let w = without(v, i);
    assert forall|k: int| 0 <= k < w.units.len() implies {
        let u = #[trigger] w.units[k];
        &&& u.id < w.next_id
        &&& increasing(u.dependencies)
        &&& increasing(u.dependents)
        &&& forall|m: int|
            0 <= m < u.dependencies.len() ==> #[trigger] u.dependencies[m] < w.next_id
        &&& forall|m: int| 0 <= m < u.dependents.len() ==> #[trigger] u.dependents[m] < w.next_id
    } by {
        let u = v.units[if k < i {
            k
        } else {
            k + 1
        }];
    }
    assert forall|a: int, b: int| 0 <= a < w.units.len() && 0 <= b < w.units.len() implies ((
    #[trigger] w.units[a]).dependencies.contains((#[trigger] w.units[b]).id)
        <==> w.units[b].dependents.contains(w.units[a].id)) by {
        let x = v.units[if a < i {
            a
        } else {
            a + 1
        }];
        let y = v.units[if b < i {
            b
        } else {
            b + 1
        }];
        assert(x.dependencies.contains(y.id) <==> y.dependents.contains(x.id));
    }
}

impl Run {
    /// The place of the step of that unit.
    pub fn find(&self, id: u64) -> (r: Option<usize>)
        ensures
            match r {
                Some(i) => i < self@.steps.len() && self@.steps[i as int].id == id,
                None => !self@.has_id(id),
            },
    {
        let mut i: usize = 0;
        while i < self.steps.len()
            invariant
                i <= self.steps@.len(),
                forall|k: int| 0 <= k < i ==> (#[trigger] self@.steps[k]).id != id,
            decreases self.steps@.len() - i,
        {
            assert(self@.steps[i as int] == self.steps@[i as int]@);
            if self.steps[i].id == id {
                return Some(i);
            }
            i = i + 1;
        }
        None
    }

    /// Whether step `i` can begin.
    pub fn is_ready(&self, i: usize) -> (b: bool)
        requires
            i < self@.steps.len(),
        ensures
            b == self@.ready(i as int),
    {
        let step = &self.steps[i];
        assert(self@.steps[i as int] == step@);
        if step.started {
            return false;
        }
        let mut j: usize = 0;
        while j < self.steps.len()
            invariant
                j <= self.steps@.len(),
                i < self.steps@.len(),
                *step == self.steps@[i as int],
                self@.steps[i as int] == step@,
                forall|k: int|
                    0 <= k < j && step@.deps.contains((#[trigger] self@.steps[k]).id)
                        ==> self@.steps[k].done,
            decreases self.steps@.len() - j,
        {
            assert(self@.steps[j as int] == self.steps@[j as int]@);
            if !self.steps[j].done && holds(&step.deps, self.steps[j].id) {
                assert(!self@.unblocked(i as int));
                return false;
            }
            j = j + 1;
        }
        true
    }

    /// The first step that can begin.
    pub fn next(&self) -> (r: Option<usize>)
        ensures
            match r {
                Some(i) => i < self@.steps.len() && self@.ready(i as int) && (forall|k: int|
                    0 <= k < i ==> !(#[trigger] self@.ready(k))),
                None => forall|k: int| 0 <= k < self@.steps.len() ==> !(#[trigger] self@.ready(k)),
            },
    {
        let mut i: usize = 0;
        while i < self.steps.len()
            invariant
                i <= self.steps@.len(),
                forall|k: int| 0 <= k < i ==> !(#[trigger] self@.ready(k)),
            decreases self.steps@.len() - i,
        {
            if self.is_ready(i) {
                return Some(i);
            }
            i = i + 1;
        }
        None
    }

    /// Begins a step. If that returns `true`, the unit has to be sent the request;
    /// otherwise the step is over.
    pub fn start_step(&mut self, i: usize) -> (send: bool)
        requires
            i < old(self)@.steps.len(),
            old(self)@.ready(i as int),
            old(self)@.ordered(),
        ensures
            send == old(self)@.steps[i as int].send,
            final(self)@ == (RunView {
                steps: old(self)@.steps.update(
                    i as int,
                    (StepView { started: true, done: !send, ..old(self)@.steps[i as int] }),
                ),
                ..old(self)@
            }),
            final(self)@ == happened(old(self)@, RunEvent::Begin(i as int)),
            final(self)@.ordered(),
    {
        let ghost first = self@;
        assert(first.steps[i as int] == self.steps@[i as int]@);
        let step = &mut self.steps[i];
        let send = step.send;
        step.started = true;
        step.done = !send;
        proof {
            let after = first.steps.update(
                i as int,
                StepView { started: true, done: !send, ..first.steps[i as int] },
            );
            assert(self@.steps =~= after);
            lemma_stays_ordered(first, self@, i as int);
        }
        send
    }

    /// Ends a step.
    pub fn finish_step(&mut self, i: usize)
        requires
            i < old(self)@.steps.len(),
            old(self)@.steps[i as int].started,
            old(self)@.ordered(),
        ensures
            final(self)@ == (RunView {
                steps: old(self)@.steps.update(
                    i as int,
                    (StepView { done: true, ..old(self)@.steps[i as int] }),
                ),
                ..old(self)@
            }),
            final(self)@ == happened(old(self)@, RunEvent::Finish(i as int)),
            final(self)@.ordered(),
    {
        let ghost first = self@;
        assert(first.steps[i as int] == self.steps@[i as int]@);
        let step = &mut self.steps[i];
        step.done = true;
        proof {
            let after = first.steps.update(
                i as int,
                StepView { done: true, ..first.steps[i as int] },
            );
            assert(self@.steps =~= after);
            lemma_stays_ordered(first, self@, i as int);
        }
    }

    /// Whether everything is over.
    pub fn is_finished(&self) -> (b: bool)
        ensures
            b == self@.finished(),
    {
        let mut i: usize = 0;
        while i < self.steps.len()
            invariant
                i <= self.steps@.len(),
                forall|k: int| 0 <= k < i ==> (#[trigger] self@.steps[k]).done,
            decreases self.steps@.len() - i,
        {
            assert(self@.steps[i as int] == self.steps@[i as int]@);
            if !self.steps[i].done {
                return false;
            }
            i = i + 1;
        }
        true
    }
}

proof fn lemma_stays_ordered(a: RunView, b: RunView, i: int)
    requires
        a.ordered(),
        0 <= i < a.steps.len(),
        a.steps[i].started || a.ready(i),
        b.steps.len() == a.steps.len(),
        forall|k: int|
            0 <= k < a.steps.len() ==> (#[trigger] b.steps[k]).id == a.steps[k].id
                && b.steps[k].deps == a.steps[k].deps && (a.steps[k].done ==> b.steps[k].done) && (
            k != i ==> b.steps[k].started == a.steps[k].started) && (b.steps[k].done
                ==> b.steps[k].started),
    ensures
        b.ordered(),
{
    assert forall|k: int| 0 <= k < b.steps.len() && (
    #[trigger] b.steps[k]).started implies b.unblocked(k) by {
        assert(a.unblocked(k));
        assert forall|j: int| 0 <= j < b.steps.len() && b.steps[k].deps.contains(
            (#[trigger] b.steps[j]).id,
        ) implies b.steps[j].done by {
            assert(a.steps[k].deps.contains(a.steps[j].id));
            assert(a.steps[j].done);
        }
    }
}

/// A unit that depends on another is not started, reset or restored before the other
/// one is, and it is stopped before the other one begins to stop.
pub proof fn dependencies_are_respected(
    v: UnitsView,
    op: StateOp,
    run: RunView,
    dependent: int,
    dependency: int,
)
    requires
        v.wf(),
        0 <= dependent < v.units.len(),
        0 <= dependency < v.units.len(),
        v.units[dependent].dependencies.contains(v.units[dependency].id),
        op != StateOp::Save,
        run.ordered(),
        run.steps.len() == v.units.len(),
        forall|k: int|
            0 <= k < v.units.len() ==> (#[trigger] run.steps[k]).id == v.units[k].id && (
            v.units[k].state == op.old_state() ==> run.steps[k].deps == op.deps(v.units[k])),
        v.units[dependent].state == op.old_state(),
        v.units[dependency].state == op.old_state(),
    ensures
        op != StateOp::Stop && run.steps[dependent].started ==> run.steps[dependency].done,
        op == StateOp::Stop && run.steps[dependency].started ==> run.steps[dependent].done,
{
    assert(v.units[dependency].dependents.contains(v.units[dependent].id));
    if op != StateOp::Stop && run.steps[dependent].started {
        assert(run.unblocked(dependent));
        assert(run.steps[dependent].deps.contains(run.steps[dependency].id));
    }
    if op == StateOp::Stop && run.steps[dependency].started {
        assert(run.unblocked(dependency));
        assert(run.steps[dependency].deps.contains(run.steps[dependent].id));
    }
}

/// Whether the unit at `k` of a path depends on the one after it.
pub open spec fn depends_on_next(v: UnitsView, path: Seq<int>, k: int) -> bool {
    v.units[path[k]].dependencies.contains(v.units[path[k + 1]].id)
}

/// Whether each unit of a path depends on the next one.
pub open spec fn is_dependency_path(v: UnitsView, path: Seq<int>) -> bool {
    &&& path.len() >= 1
    &&& forall|k: int| 0 <= k < path.len() ==> 0 <= #[trigger] path[k] < v.units.len()
    &&& forall|k: int| 0 <= k < path.len() - 1 ==> #[trigger] depends_on_next(v, path, k)
}

/// Dependencies are respected through other units too, whether or not those are sent a
/// request: a unit is not started, reset or restored before all units that it depends
/// on in the end are, and all units that depend on it in the end are stopped before it
/// begins to stop. No step begins twice.
pub proof fn indirect_dependencies_are_respected(
    v: UnitsView,
    op: StateOp,
    run: RunView,
    path: Seq<int>,
)
    requires
        v.wf(),
        is_dependency_path(v, path),
        op != StateOp::Save,
        run.ordered(),
        run.steps.len() == v.units.len(),
        forall|k: int|
            0 <= k < v.units.len() ==> (#[trigger] run.steps[k]).id == v.units[k].id && (
            v.units[k].state == op.old_state() ==> run.steps[k].deps == op.deps(v.units[k])),
        forall|k: int|
            0 <= k < path.len() ==> v.units[#[trigger] path[k]].state == op.old_state(),
    ensures
        op != StateOp::Stop && run.steps[path[0]].started ==> !run.ready(path[0]) && forall|k: int|
            0 < k < path.len() ==> run.steps[#[trigger] path[k]].done,
        op == StateOp::Stop && run.steps[path.last()].started ==> !run.ready(path.last())
            && forall|k: int|
            0 <= k < path.len() - 1 ==> run.steps[#[trigger] path[k]].done,
    decreases path.len(),
{
    if path.len() > 1 {
        let n = path.len() as int;
        if op != StateOp::Stop {
            let rest = path.skip(1);
            assert(path[1] == rest[0]);
            assert forall|k: int| 0 <= k < rest.len() - 1 implies #[trigger] depends_on_next(
                v,
                rest,
                k,
            ) by {
                assert(depends_on_next(v, path, k + 1));
            }
            assert(depends_on_next(v, path, 0));
            dependencies_are_respected(v, op, run, path[0], path[1]);
            indirect_dependencies_are_respected(v, op, run, rest);
            if run.steps[path[0]].started {
                assert(run.steps[path[1]].started);
                assert forall|k: int| 0 < k < path.len() implies run.steps[#[trigger] path[k]].done by {
                    if k > 1 {
                        assert(path[k] == rest[k - 1]);
                    }
                }
            }
        } else {
            let rest = path.drop_last();
            assert(path[n - 2] == rest.last());
            assert forall|k: int| 0 <= k < rest.len() - 1 implies #[trigger] depends_on_next(
                v,
                rest,
                k,
            ) by {
                assert(depends_on_next(v, path, k));
            }
            assert(depends_on_next(v, path, n - 2));
            dependencies_are_respected(v, op, run, path[n - 2], path[n - 1]);
            indirect_dependencies_are_respected(v, op, run, rest);
            if run.steps[path.last()].started {
                assert(run.steps[path[n - 2]].started);
                assert forall|k: int| 0 <= k < n - 1 implies run.steps[#[trigger] path[k]].done by {
                    if k < n - 2 {
                        assert(path[k] == rest[k]);
                    }
                }
            }
        }
    }
}

/// Unless units wait for each other in a circle, an operation never gets stuck: while
/// a step has not begun and none is under way, one of them can begin.
pub proof fn some_step_can_begin(run: RunView, rank: spec_fn(u64) -> nat, i: int) -> (j: int)
    requires
        0 <= i < run.steps.len(),
        !run.steps[i].started,
        forall|k: int|
            0 <= k < run.steps.len() ==> ((#[trigger] run.steps[k]).started ==> run.steps[k].done),
        forall|k: int, m: int|
            0 <= k < run.steps.len() && 0 <= m < run.steps.len() && (
            #[trigger] run.steps[k]).deps.contains((#[trigger] run.steps[m]).id) ==> rank(
                run.steps[m].id,
            ) < rank(run.steps[k].id),
    ensures
        0 <= j < run.steps.len(),
        run.ready(j),
    decreases rank(run.steps[i].id),
{
    if run.unblocked(i) {
        i
    } else {
        let m = choose|m: int|
            0 <= m < run.steps.len() && run.steps[i].deps.contains((#[trigger] run.steps[m]).id)
                && !run.steps[m].done;
        some_step_can_begin(run, rank, m)
    }
}

/// An operation brings all units into the state that it is meant to.
pub proof fn operation_reaches_state(v: UnitsView, op: StateOp, inputs: Option<Seq<u64>>, i: int)
    requires
        v.idle(),
        op.allowed(v.running),
        0 <= i < v.units.len(),
    ensures
        ({
            let (w, run) = begun_all(v, op, inputs);
            ended(run, w.units[i]).state == op.new_state()
        }),
{
    let (w, run) = begun_all(v, op, inputs);
    assert(w.units[i] == begun(op, v.units[i]));
    assert(run.steps[i].id == w.units[i].id);
    assert(run.has_id(w.units[i].id));
}

/// A unit that is added while an operation is under way takes no part in it.
pub proof fn adding_keeps_operation(
    v: UnitsView,
    run: RunView,
    name: Seq<char>,
    depends_on: Seq<u64>,
    dependency_of: Seq<u64>,
)
    requires
        in_op(v, run),
        v.next_id < u64::MAX,
    ensures
        in_op(added(v, name, depends_on, dependency_of), run),
{
    let w = added(v, name, depends_on, dependency_of);
    assert forall|i: int| 0 <= i < w.units.len() implies {
        let u = #[trigger] w.units[i];
        if run.has_id(u.id) {
            u.state == run.op.interim_state() || u.state == run.op.new_state()
        } else {
            u.state == State::Stopped
        }
    } by {
        if i < v.units.len() {
            let u = v.units[i];
            assert(w.units[i] == linked(u, v.next_id, depends_on, dependency_of));
        }
    }
}

/// A unit can be removed while an operation is under way.
pub proof fn removing_keeps_operation(v: UnitsView, run: RunView, i: int)
    requires
        in_op(v, run),
        0 <= i < v.units.len(),
    ensures
        in_op(without(v, i), run),
{
    let w = without(v, i);
    assert forall|k: int| 0 <= k < w.units.len() implies {
        let u = #[trigger] w.units[k];
        if run.has_id(u.id) {
            u.state == run.op.interim_state() || u.state == run.op.new_state()
        } else {
            u.state == State::Stopped
        }
    } by {
        let u = v.units[if k < i {
            k
        } else {
            k + 1
        }];
    }
}

/// Why something failed for one unit.
#[derive(Debug)]
pub enum UnitError {
    /// There is no unit of that name.
    Unknown,
    /// That unit has several states.
    Duplicate,
    /// The unit reported an error.
    Failed(String),
}

/// An error from a state transition.
#[derive(Debug)]
pub struct StateTransitionError {
    /// The operation.
    pub op: String,
    /// The units, and what is wrong with each.
    pub errors: Vec<(String, UnitError)>,
}

/// The text of an error of one unit.
pub open spec fn error_text(e: UnitError) -> Seq<char> {
    match e {
        UnitError::Unknown => "unknown unit name"@,
        UnitError::Duplicate => "duplicate unit name"@,
        UnitError::Failed(s) => s@,
    }
}

/// The text of the first `n` errors.
pub open spec fn errors_text(errors: Seq<(String, UnitError)>, n: int) -> Seq<char>
    decreases n,
{
    if n <= 0 {
        Seq::empty()
    } else {
        errors_text(errors, n - 1) + (if n > 1 {
            ", "@
        } else {
            Seq::empty()
        }) + errors[n - 1].0@ + ": "@ + error_text(errors[n - 1].1)
    }
}

impl StateTransitionError {
    /// The operation that failed.
    pub fn describe(&self) -> (s: String)
        ensures
            s@ == self.op@ + " failed"@,
    {
        let mut s = owned(self.op.as_str());
        s.append(" failed");
        s
    }

    /// The units, and what is wrong with each.
    pub fn describe_errors(&self) -> (s: String)
        ensures
            s@ == "{"@ + errors_text(self.errors@, self.errors@.len() as int) + "}"@,
    {
        let mut s = owned("{");
        let mut i: usize = 0;
        assert(s@ =~= "{"@ + errors_text(self.errors@, 0));
        while i < self.errors.len()
            invariant
                i <= self.errors@.len(),
                s@ == "{"@ + errors_text(self.errors@, i as int),
            decreases self.errors@.len() - i,
        {
            let ghost before = s@;
            if i > 0 {
                s.append(", ");
            }
            s.append(self.errors[i].0.as_str());
            s.append(": ");
            match &self.errors[i].1 {
                UnitError::Unknown => {
                    s.append("unknown unit name");
                },
                UnitError::Duplicate => {
                    s.append("duplicate unit name");
                },
                UnitError::Failed(e) => {
                    s.append(e.as_str());
                },
            }
            i = i + 1;
            assert(s@ =~= "{"@ + errors_text(self.errors@, i as int));
        }
        s.append("}");
        s
    }
}

/// The errors among results, in order.
pub open spec fn errors_of<T>(items: Seq<(String, Result<T, UnitError>)>) -> Seq<
    (String, UnitError),
>
    decreases items.len(),
{
    if items.len() == 0 {
        Seq::empty()
    } else {
        match items.last().1 {
            Ok(_) => errors_of(items.drop_last()),
            Err(e) => errors_of(items.drop_last()).push((items.last().0, e)),
        }
    }
}

/// The values among results, with the names of their units, in order.
pub open spec fn values_of<T>(items: Seq<(String, Result<Option<T>, UnitError>)>) -> Seq<(String, T)>
    decreases items.len(),
{
    if items.len() == 0 {
        Seq::empty()
    } else {
        match items.last().1 {
            Ok(Some(t)) => values_of(items.drop_last()).push((items.last().0, t)),
            _ => values_of(items.drop_last()),
        }
    }
}

/// The values among the results of an operation, unless there is an error among them.
pub fn extract<T>(op: &str, items: Vec<(String, Result<Option<T>, UnitError>)>) -> (r: Result<
    Vec<(String, T)>,
    StateTransitionError,
>)
    ensures
        r is Ok <==> errors_of(items@).len() == 0,
        r matches Ok(v) ==> v@ == values_of(items@),
        r matches Err(e) ==> e.op@ == op@ && e.errors@ == errors_of(items@),
{
    let mut rest = items;
    let ghost all = rest@;
    let mut result: Vec<(String, T)> = Vec::new();
    let mut errors: Vec<(String, UnitError)> = Vec::new();
    let ghost mut n: int = 0;
    assert(all.skip(0) =~= all);
    assert(errors@ =~= errors_of(all.take(0)));
    assert(result@ =~= values_of(all.take(0)));
    while rest.len() > 0
        invariant
            0 <= n <= all.len(),
            rest@ == all.skip(n),
            errors@ == errors_of(all.take(n)),
            result@ == values_of(all.take(n)),
        decreases rest@.len(),
    {
        let (name, item) = rest.remove(0);
        proof {
            assert(all.take(n + 1).drop_last() =~= all.take(n));
            assert(all.take(n + 1).last() == all[n]);
            assert(rest@ =~= all.skip(n + 1));
            n = n + 1;
        }
        match item {
            Ok(Some(t)) => {
                result.push((name, t));
            },
            Ok(None) => {},
            Err(e) => {
                errors.push((name, e));
            },
        }
    }
    assert(all.take(n) =~= all);
    if errors.len() == 0 {
        Ok(result)
    } else {
        Err(StateTransitionError { op: owned(op), errors })
    }
}

/// Whether there is no error among the results of an operation.
pub fn check(op: &str, items: Vec<(String, Result<(), UnitError>)>) -> (r: Result<
    (),
    StateTransitionError,
>)
    ensures
        r is Ok <==> errors_of(items@).len() == 0,
        r matches Err(e) ==> e.op@ == op@ && e.errors@ == errors_of(items@),
{
    let mut rest = items;
    let ghost all = rest@;
    let mut errors: Vec<(String, UnitError)> = Vec::new();
    let ghost mut n: int = 0;
    assert(all.skip(0) =~= all);
    assert(errors@ =~= errors_of(all.take(0)));
    while rest.len() > 0
        invariant
            0 <= n <= all.len(),
            rest@ == all.skip(n),
            errors@ == errors_of(all.take(n)),
        decreases rest@.len(),
    {
        let (name, item) = rest.remove(0);
        proof {
            assert(all.take(n + 1).drop_last() =~= all.take(n));
            assert(all.take(n + 1).last() == all[n]);
            assert(rest@ =~= all.skip(n + 1));
            n = n + 1;
        }
        match item {
            Ok(_) => {},
            Err(e) => {
                errors.push((name, e));
            },
        }
    }
    assert(all.take(n) =~= all);
    if errors.len() == 0 {
        Ok(())
    } else {
        Err(StateTransitionError { op: owned(op), errors })
    }
}

/// The answer of a unit to a request.
#[derive(Debug)]
pub enum Reply<R> {
    /// The unit answered.
    Value(R),
    /// It was not asked.
    Skipped,
    /// It cannot answer any more.
    Lost,
}

/// The answers among replies, with the names of the units, in order.
pub open spec fn answers<R>(replies: Seq<(u64, String, Reply<R>)>) -> Seq<(String, R)>
    decreases replies.len(),
{
    if replies.len() == 0 {
        Seq::empty()
    } else {
        match replies.last().2 {
            Reply::Value(r) => answers(replies.drop_last()).push((replies.last().1, r)),
            _ => answers(replies.drop_last()),
        }
    }
}

/// The answers among the replies to an operation. Only units that were removed
/// meanwhile may be unable to answer.
pub fn collect_answers<R>(units: &StateUnits, replies: Vec<(u64, String, Reply<R>)>) -> (v: Vec<
    (String, R),
>)
    requires
        forall|i: int|
            0 <= i < replies@.len() && (#[trigger] replies@[i]).2 is Lost ==> !units@.has_id(
                replies@[i].0,
            ),
    ensures
        v@ == answers(replies@),
{
    let mut rest = replies;
    let ghost all = rest@;
    let mut result: Vec<(String, R)> = Vec::new();
    let ghost mut n: int = 0;
    assert(all.skip(0) =~= all);
    assert(result@ =~= answers(all.take(0)));
    while rest.len() > 0
        invariant
            0 <= n <= all.len(),
            rest@ == all.skip(n),
            result@ == answers(all.take(n)),
        decreases rest@.len(),
    {
        let (_, name, reply) = rest.remove(0);
        proof {
            assert(all.take(n + 1).drop_last() =~= all.take(n));
            assert(all.take(n + 1).last() == all[n]);
            assert(rest@ =~= all.skip(n + 1));
            n = n + 1;
        }
        match reply {
            Reply::Value(r) => {
                result.push((name, r));
            },
            _ => {},
        }
    }
    assert(all.take(n) =~= all);
    result
}

/// Whether a unit whose reply was lost is still there, which cannot be mended.
pub fn is_reply_critical(units: &StateUnits, id: u64) -> (b: bool)
    ensures
        b == units@.has_id(id),
{
    match units.find_id(id) {
        Some(i) => {
            assert(units@.units[i as int].id == id);
            true
        },
        None => false,
    }
}

/// The saved state of a unit.
#[derive(Debug)]
pub struct SavedStateUnit {
    /// The name of the unit.
    pub name: String,
    /// Its state.
    pub state: Vec<u8>,
}

/// A saved state, and the unit that it is for.
#[derive(Debug)]
pub struct MatchedState {
    id: u64,
    saved: SavedStateUnit,
}

impl MatchedState {
    /// The unit.
    pub closed spec fn unit(self) -> u64 {
        self.id
    }

    /// The saved state.
    pub closed spec fn state(self) -> SavedStateUnit {
        self.saved
    }
}

/// The ID of the unit with that name.
pub open spec fn id_of(v: UnitsView, name: Seq<char>) -> Option<u64> {
    if v.has_name(name) {
        let i = choose|i: int|
            0 <= i < v.units.len() && (#[trigger] v.units[i]).name == name;
        Some(v.units[i].id)
    } else {
        None
    }
}

/// Whether a saved state for the unit of that name precedes the one at `i`.
pub open spec fn is_duplicate(states: Seq<SavedStateUnit>, i: int) -> bool {
    exists|j: int| 0 <= j < i && (#[trigger] states[j]).name@ == states[i].name@
}

/// What is wrong with the saved state at `i`.
pub open spec fn state_error(v: UnitsView, states: Seq<SavedStateUnit>, i: int) -> Option<
    UnitError,
> {
    if id_of(v, states[i].name@) is None {
        Some(UnitError::Unknown)
    } else if is_duplicate(states, i) {
        Some(UnitError::Duplicate)
    } else {
        None
    }
}

/// What is wrong with the first `n` saved states: names and errors, in order.
pub open spec fn state_errors(v: UnitsView, states: Seq<SavedStateUnit>, n: int) -> Seq<
    (Seq<char>, UnitError),
>
    decreases n,
{
    if n <= 0 {
        Seq::empty()
    } else {
        match state_error(v, states, n - 1) {
            Some(e) => state_errors(v, states, n - 1).push((states[n - 1].name@, e)),
            None => state_errors(v, states, n - 1),
        }
    }
}

/// Errors with the texts of their names.
pub open spec fn named(errors: Seq<(String, UnitError)>) -> Seq<(Seq<char>, UnitError)> {
    errors.map_values(|e: (String, UnitError)| (e.0@, e.1))
}

impl StateUnits {
    /// Finds the units that saved states are for. Each state has to be for a unit, and
    /// no two for the same one.
    pub fn match_states(&self, states: Vec<SavedStateUnit>) -> (r: Result<
        Vec<MatchedState>,
        StateTransitionError,
    >)
        requires
            self@.wf(),
        ensures
            r is Ok <==> state_errors(self@, states@, states@.len() as int).len() == 0,
            r matches Ok(m) ==> are_matched(self@, states@, m@),
            r matches Err(e) ==> e.op@ == "restore"@ && named(e.errors@) == state_errors(
                self@,
                states@,
                states@.len() as int,
            ),
    {
        let ghost all = states@;
        let mut rest = states;
        let mut matched: Vec<MatchedState> = Vec::new();
        let mut seen: Vec<u64> = Vec::new();
        let mut errors: Vec<(String, UnitError)> = Vec::new();
        let ghost mut n: int = 0;
        assert(all.skip(0) =~= all);
        assert(named(errors@) =~= Seq::empty());
        while rest.len() > 0
            invariant
                0 <= n <= all.len(),
                self@.wf(),
                rest@ == all.skip(n),
                named(errors@) == state_errors(self@, all, n),
                errors@.len() == 0 ==> matched@.len() == n,
                errors@.len() == 0 ==> forall|i: int|
                    0 <= i < matched@.len() ==> (#[trigger] matched@[i]).saved == all[i] && id_of(
                        self@,
                        all[i].name@,
                    ) == Some(matched@[i].id),
                forall|id: u64| #[trigger] seen@.contains(id) <==> (exists|j: int|
                    0 <= j < n && id_of(self@, (#[trigger] all[j]).name@) == Some(id)),
            decreases rest@.len(),
        {
            let state = rest.remove(0);
            let ghost before = seen@;
            let ghost errors_before = errors@;
            assert(state == all[n]);
            assert(rest@ =~= all.skip(n + 1));
            match self.find_name(state.name.as_str()) {
                None => {
                    let name = owned(state.name.as_str());
                    errors.push((name, UnitError::Unknown));
                    assert(named(errors@) =~= named(errors_before).push(
                        (all[n].name@, UnitError::Unknown),
                    ));
                },
                Some(i) => {
                    let id: u64 = self.units[i].id;
                    proof {
                        assert(self@.units[i as int] == self.units@[i as int]@);
                        lemma_id_of(self@, i as int);
                        lemma_duplicate(self@, all, n, before);
                    }
                    if holds(&seen, id) {
                        let name = owned(state.name.as_str());
                        errors.push((name, UnitError::Duplicate));
                        assert(named(errors@) =~= named(errors_before).push(
                            (all[n].name@, UnitError::Duplicate),
                        ));
                    } else {
                        seen.push(id);
                        matched.push(MatchedState { id, saved: state });
                    }
                },
            }
            proof {
                assert forall|id: u64| #[trigger] seen@.contains(id) <==> (exists|j: int|
                    0 <= j < n + 1 && id_of(self@, (#[trigger] all[j]).name@) == Some(id)) by {
                    if before.contains(id) {
                        let j = choose|j: int|
                            0 <= j < n && id_of(self@, (#[trigger] all[j]).name@) == Some(id);
                        assert(0 <= j < n + 1);
                        let k = choose|k: int| 0 <= k < before.len() && before[k] == id;
                        assert(seen@[k] == id);
                    }
                    if id_of(self@, all[n].name@) == Some(id) && !before.contains(id) {
                        assert(seen@.last() == id);
                    }
                    if exists|j: int|
                        0 <= j < n + 1 && id_of(self@, (#[trigger] all[j]).name@) == Some(id) {
                        let j = choose|j: int|
                            0 <= j < n + 1 && id_of(self@, (#[trigger] all[j]).name@) == Some(id);
                        if j < n {
                            assert(before.contains(id));
                        }
                    }
                    if seen@.contains(id) && !before.contains(id) {
                        let k = choose|k: int| 0 <= k < seen@.len() && seen@[k] == id;
                        if k < before.len() {
                            assert(before[k] == id);
                        }
                        assert(id_of(self@, all[n].name@) == Some(id));
                    }
                }
                n = n + 1;
            }
        }
        if errors.len() == 0 {
            Ok(matched)
        } else {
            Err(StateTransitionError { op: owned("restore"), errors })
        }
    }
}

proof fn lemma_id_of(v: UnitsView, i: int)
    requires
        v.wf(),
        0 <= i < v.units.len(),
    ensures
        id_of(v, v.units[i].name) == Some(v.units[i].id),
{
    let name = v.units[i].name;
    assert(v.has_name(name));
    let k = choose|k: int| 0 <= k < v.units.len() && (#[trigger] v.units[k]).name == name;
    if k < i {
        assert(v.units[k].name != v.units[i].name);
    }
    if i < k {
        assert(v.units[i].name != v.units[k].name);
    }
}

proof fn lemma_duplicate(v: UnitsView, states: Seq<SavedStateUnit>, n: int, seen: Seq<u64>)
    requires
        v.wf(),
        0 <= n < states.len(),
        id_of(v, states[n].name@) is Some,
        forall|id: u64| #[trigger] seen.contains(id) <==> (exists|j: int|
            0 <= j < n && id_of(v, (#[trigger] states[j]).name@) == Some(id)),
    ensures
        seen.contains(id_of(v, states[n].name@)->0) <==> is_duplicate(states, n),
{
    let id = id_of(v, states[n].name@)->0;
    if seen.contains(id) {
        let j = choose|j: int| 0 <= j < n && id_of(v, (#[trigger] states[j]).name@) == Some(id);
        let a = choose|i: int|
            0 <= i < v.units.len() && (#[trigger] v.units[i]).name == states[j].name@;
        let b = choose|i: int|
            0 <= i < v.units.len() && (#[trigger] v.units[i]).name == states[n].name@;
        if a < b {
            assert(v.units[a].id < v.units[b].id);
        }
        if b < a {
            assert(v.units[b].id < v.units[a].id);
        }
    }
    if is_duplicate(states, n) {
        let j = choose|j: int| 0 <= j < n && (#[trigger] states[j]).name@ == states[n].name@;
        assert(id_of(v, states[j].name@) == Some(id));
    }
}

/// What is left of matched states once an operation has begun: those whose unit was
/// removed before that.
pub open spec fn unconsumed(m: Seq<MatchedState>, run: RunView, n: int) -> Seq<
    (Seq<char>, UnitError),
>
    decreases n,
{
    if n <= 0 {
        Seq::empty()
    } else if run.has_id(m[n - 1].unit()) {
        unconsumed(m, run, n - 1)
    } else {
        unconsumed(m, run, n - 1).push((m[n - 1].state().name@, UnitError::Unknown))
    }
}

proof fn lemma_all_consumed(
    v: UnitsView,
    states: Seq<SavedStateUnit>,
    m: Seq<MatchedState>,
    inputs: Option<Seq<u64>>,
    n: int,
)
    requires
        are_matched(v, states, m),
        0 <= n <= m.len(),
    ensures
        unconsumed(m, begun_all(v, StateOp::Restore, inputs).1, n).len() == 0,
    decreases n,
{
    if n > 0 {
        let run = begun_all(v, StateOp::Restore, inputs).1;
        lemma_all_consumed(v, states, m, inputs, n - 1);
        assert(m[n - 1].state() == states[n - 1]);
        let name = states[n - 1].name@;
        let i = choose|i: int| 0 <= i < v.units.len() && (#[trigger] v.units[i]).name == name;
        assert(run.steps[i] == step_of(StateOp::Restore, v.units[i], inputs));
        assert(run.steps[i].id == m[n - 1].unit());
    }
}

/// Whether all matched states were used.
pub fn check_consumed(m: &Vec<MatchedState>, run: &Run) -> (r: Result<(), StateTransitionError>)
    ensures
        r is Ok <==> unconsumed(m@, run@, m@.len() as int).len() == 0,
        r matches Err(e) ==> e.op@ == "restore"@ && named(e.errors@) == unconsumed(
            m@,
            run@,
            m@.len() as int,
        ),
{
    let mut errors: Vec<(String, UnitError)> = Vec::new();
    let mut i: usize = 0;
    assert(named(errors@) =~= Seq::empty());
    while i < m.len()
        invariant
            i <= m@.len(),
            named(errors@) == unconsumed(m@, run@, i as int),
        decreases m@.len() - i,
    {
        let ghost before = errors@;
        match run.find(m[i].id) {
            Some(k) => {
                assert(run@.steps[k as int].id == m@[i as int].id);
            },
            None => {
                let name = owned(m[i].saved.name.as_str());
                errors.push((name, UnitError::Unknown));
                assert(named(errors@) =~= named(before).push(
                    (m@[i as int].saved.name@, UnitError::Unknown),
                ));
            },
        }
        i = i + 1;
    }
    if errors.len() == 0 {
        Ok(())
    } else {
        Err(StateTransitionError { op: owned("restore"), errors })
    }
}

/// The states among the answers of units, with the names of the units, in order.
pub open spec fn saved_of(items: Seq<(String, Result<Option<Vec<u8>>, UnitError>)>) -> Seq<
    SavedStateUnit,
> {
    values_of(items).map_values(
        |s: (String, Vec<u8>)| SavedStateUnit { name: s.0, state: s.1 },
    )
}

/// What is saved: the answers that hold a state, with the names of their units, unless
/// a unit failed.
pub fn saved_units(items: Vec<(String, Result<Option<Vec<u8>>, UnitError>)>) -> (r: Result<
    Vec<SavedStateUnit>,
    StateTransitionError,
>)
    ensures
        r is Ok <==> errors_of(items@).len() == 0,
        r matches Ok(v) ==> v@ == saved_of(items@),
        r matches Err(e) ==> e.op@ == "save"@ && e.errors@ == errors_of(items@),
{
    match extract("save", items) {
        Err(e) => Err(e),
        Ok(values) => {
            let ghost all = values@;
            let ghost f = |s: (String, Vec<u8>)| SavedStateUnit { name: s.0, state: s.1 };
            let mut rest = values;
            let mut result: Vec<SavedStateUnit> = Vec::new();
            let ghost mut n: int = 0;
            assert(all.skip(0) =~= all);
            assert(result@ =~= all.take(0).map_values(f));
            while rest.len() > 0
                invariant
                    0 <= n <= all.len(),
                    rest@ == all.skip(n),
                    f == (|s: (String, Vec<u8>)| SavedStateUnit { name: s.0, state: s.1 }),
                    result@ == all.take(n).map_values(f),
                decreases rest@.len(),
            {
                let (name, state) = rest.remove(0);
                result.push(SavedStateUnit { name, state });
                proof {
                    assert(rest@ =~= all.skip(n + 1));
                    assert(result@ =~= all.take(n + 1).map_values(f));
                    n = n + 1;
                }
            }
            assert(all.take(n) =~= all);
            Ok(result)
        },
    }
}

/// What was saved can be restored: if the saved states are for units that are there,
/// one each, nothing is wrong with them.
pub proof fn saved_states_match(v: UnitsView, states: Seq<SavedStateUnit>, n: int)
    requires
        0 <= n <= states.len(),
        forall|i: int| 0 <= i < states.len() ==> v.has_name((#[trigger] states[i]).name@),
        forall|i: int, j: int|
            0 <= i < j < states.len() ==> (#[trigger] states[i]).name@ != (
            #[trigger] states[j]).name@,
    ensures
        state_errors(v, states, n).len() == 0,
    decreases n,
{
    if n > 0 {
        assert(v.has_name(states[n - 1].name@));
        saved_states_match(v, states, n - 1);
    }
}

/// The place of the first saved state for that unit.
pub open spec fn is_first_for(m: Seq<MatchedState>, id: u64, i: int) -> bool {
    &&& 0 <= i < m.len()
    &&& m[i].unit() == id
    &&& forall|j: int| 0 <= j < i ==> (#[trigger] m[j]).unit() != id
}

/// Takes the saved state of a unit, if there is one.
pub fn take_state(m: &mut Vec<MatchedState>, id: u64) -> (r: Option<SavedStateUnit>)
    ensures
        match r {
            Some(saved) => exists|i: int| #[trigger]
                is_first_for(old(m)@, id, i) && saved == old(m)@[i].state() && final(m)@ == old(
                    m,
                )@.remove(i),
            None => final(m)@ == old(m)@ && forall|i: int|
                0 <= i < old(m)@.len() ==> (#[trigger] old(m)@[i]).unit() != id,
        },
{
    let mut i: usize = 0;
    while i < m.len()
        invariant
            i <= m@.len(),
            m@ == old(m)@,
            forall|j: int| 0 <= j < i ==> (#[trigger] m@[j]).id != id,
        decreases m@.len() - i,
    {
        if m[i].id == id {
            assert(is_first_for(old(m)@, id, i as int));
            let matched = m.remove(i);
            return Some(matched.saved);
        }
        i = i + 1;
    }
    None
}

/// Whether saved states were matched with the units that they are for.
pub open spec fn are_matched(
    v: UnitsView,
    states: Seq<SavedStateUnit>,
    m: Seq<MatchedState>,
) -> bool {
    &&& m.len() == states.len()
    &&& forall|i: int|
        0 <= i < m.len() ==> (#[trigger] m[i]).state() == states[i] && id_of(v, states[i].name@)
            == Some(m[i].unit())
}

/// Where the state of the unit at `k` is among the saved ones.
spec fn saved_place(items: Seq<(String, Result<Option<Vec<u8>>, UnitError>)>, k: int) -> int {
    values_of(items.take(k)).len() as int
}

proof fn lemma_saved_place(
    items: Seq<(String, Result<Option<Vec<u8>>, UnitError>)>,
    n: int,
    k: int,
)
    requires
        0 <= k < n <= items.len(),
        items[k].1 is Ok,
        items[k].1->Ok_0 is Some,
    ensures
        saved_place(items, k) < values_of(items.take(n)).len(),
        values_of(items.take(n))[saved_place(items, k)] == (items[k].0, items[k].1->Ok_0->0),
    decreases n,
{
    assert(items.take(n).drop_last() =~= items.take(n - 1));
    assert(items.take(n).last() == items[n - 1]);
    if k < n - 1 {
        lemma_saved_place(items, n - 1, k);
    }
}

/// The unit that gave a saved state.
proof fn lemma_owner(
    items: Seq<(String, Result<Option<Vec<u8>>, UnitError>)>,
    n: int,
    i: int,
) -> (k: int)
    requires
        0 <= n <= items.len(),
        0 <= i < values_of(items.take(n)).len(),
    ensures
        0 <= k < n,
        items[k].0 == values_of(items.take(n))[i].0,
        items[k].1 == Ok::<Option<Vec<u8>>, UnitError>(Some(values_of(items.take(n))[i].1)),
        saved_place(items, k) == i,
    decreases n,
{
    assert(items.take(n).drop_last() =~= items.take(n - 1));
    assert(items.take(n).last() == items[n - 1]);
    if i < values_of(items.take(n - 1)).len() {
        lemma_owner(items, n - 1, i)
    } else {
        n - 1
    }
}

/// Whether the answers are those of the units, in order.
pub open spec fn are_answers_of(
    v: UnitsView,
    items: Seq<(String, Result<Option<Vec<u8>>, UnitError>)>,
) -> bool {
    &&& items.len() == v.units.len()
    &&& forall|i: int| 0 <= i < items.len() ==> (#[trigger] items[i]).0@ == v.units[i].name
}

/// What was saved can be restored: nothing is wrong with states that units gave.
#[verifier::spinoff_prover]
pub proof fn saved_states_are_accepted(
    v: UnitsView,
    items: Seq<(String, Result<Option<Vec<u8>>, UnitError>)>,
)
    requires
        v.wf(),
        are_answers_of(v, items),
    ensures
        state_errors(v, saved_of(items), saved_of(items).len() as int).len() == 0,
{
    let states = saved_of(items);
    let n = items.len() as int;
    assert(items.take(n) =~= items);
    assert forall|i: int| 0 <= i < states.len() implies v.has_name((#[trigger] states[i]).name@) by {
        let u = lemma_owner(items, n, i);
        assert(v.units[u].name == states[i].name@);
    }
    assert forall|i: int, j: int| 0 <= i < j < states.len() implies (#[trigger] states[i]).name@ != (
    #[trigger] states[j]).name@ by {
        let a = lemma_owner(items, n, i);
        let b = lemma_owner(items, n, j);
        if states[i].name@ == states[j].name@ {
            if a < b {
                assert(v.units[a].name != v.units[b].name);
            } else if b < a {
                assert(v.units[b].name != v.units[a].name);
            }
        }
    }
    saved_states_match(v, states, states.len() as int);
}

/// A state that is for the unit at `k` is the one that this unit gave.
#[verifier::spinoff_prover]
proof fn lemma_own_state(
    v: UnitsView,
    items: Seq<(String, Result<Option<Vec<u8>>, UnitError>)>,
    m: Seq<MatchedState>,
    k: int,
    j: int,
)
    requires
        v.wf(),
        are_answers_of(v, items),
        are_matched(v, saved_of(items), m),
        0 <= k < v.units.len(),
        0 <= j < m.len(),
        m[j].unit() == v.units[k].id,
    ensures
        items[k].1 == Ok::<Option<Vec<u8>>, UnitError>(Some(m[j].state().state)),
        saved_place(items, k) == j,
{
    let n = items.len() as int;
    assert(items.take(n) =~= items);
    let a = lemma_owner(items, n, j);
    lemma_id_of(v, a);
    assert(m[j].state() == saved_of(items)[j]);
    assert(v.units[a].name == saved_of(items)[j].name@);
    if a < k {
        assert(v.units[a].id < v.units[k].id);
    } else if k < a {
        assert(v.units[k].id < v.units[a].id);
    }
}

/// The state that the unit at `k` gave is for this unit.
#[verifier::spinoff_prover]
proof fn lemma_state_of(
    v: UnitsView,
    items: Seq<(String, Result<Option<Vec<u8>>, UnitError>)>,
    m: Seq<MatchedState>,
    k: int,
) -> (i: int)
    requires
        v.wf(),
        are_answers_of(v, items),
        are_matched(v, saved_of(items), m),
        0 <= k < v.units.len(),
        items[k].1 is Ok,
        items[k].1->Ok_0 is Some,
    ensures
        i == saved_place(items, k),
        0 <= i < m.len(),
        m[i].unit() == v.units[k].id,
        m[i].state().state == items[k].1->Ok_0->0,
{
    let n = items.len() as int;
    assert(items.take(n) =~= items);
    let i = saved_place(items, k);
    lemma_saved_place(items, n, k);
    lemma_id_of(v, k);
    assert(m[i].state() == saved_of(items)[i]);
    i
}

/// What was saved is restored: each unit that gave a state is sent a request to restore
/// that state, and no other one. A unit that gave none is sent no request.
#[verifier::spinoff_prover]
pub proof fn saved_states_are_restored(
    v: UnitsView,
    items: Seq<(String, Result<Option<Vec<u8>>, UnitError>)>,
    m: Seq<MatchedState>,
    k: int,
)
    requires
        v.wf(),
        v.idle(),
        !v.running,
        are_answers_of(v, items),
        errors_of(items).len() == 0,
        0 <= k < v.units.len(),
        are_matched(v, saved_of(items), m),
    ensures
        ({
            let run = begun_all(
                v,
                StateOp::Restore,
                Some(m.map_values(|m: MatchedState| m.unit())),
            ).1;
            &&& run.steps[k].id == v.units[k].id
            &&& match items[k].1 {
                Ok(Some(blob)) => run.steps[k].send && exists|i: int|
                    {
                        &&& #[trigger] is_first_for(m, v.units[k].id, i)
                        &&& m[i].state().state == blob
                        &&& forall|j: int|
                            0 <= j < m.len() && (#[trigger] m[j]).unit() == v.units[k].id ==> j == i
                    },
                Ok(None) => !run.steps[k].send && forall|j: int|
                    0 <= j < m.len() ==> (#[trigger] m[j]).unit() != v.units[k].id,
                Err(_) => false,
            }
        }),
{
    let ids = m.map_values(|m: MatchedState| m.unit());
    let run = begun_all(v, StateOp::Restore, Some(ids)).1;
    let id = v.units[k].id;
    assert(run.steps[k] == step_of(StateOp::Restore, v.units[k], Some(ids)));
    lemma_no_error(items, k);
    assert forall|j: int| 0 <= j < m.len() && (#[trigger] m[j]).unit() == id implies {
        &&& items[k].1 == Ok::<Option<Vec<u8>>, UnitError>(Some(m[j].state().state))
        &&& saved_place(items, k) == j
    } by {
        lemma_own_state(v, items, m, k, j);
    }
    match items[k].1 {
        Ok(Some(_)) => {
            let i = lemma_state_of(v, items, m, k);
            assert(ids[i] == id);
            assert(is_first_for(m, id, i));
        },
        _ => {
            if ids.contains(id) {
                let j = choose|j: int| 0 <= j < ids.len() && ids[j] == id;
                assert(m[j].unit() == id);
            }
        },
    }
}

proof fn lemma_no_error(items: Seq<(String, Result<Option<Vec<u8>>, UnitError>)>, k: int)
    requires
        0 <= k < items.len(),
        errors_of(items).len() == 0,
    ensures
        items[k].1 is Ok,
    decreases items.len(),
{
    if k < items.len() - 1 {
        assert(items.drop_last()[k] == items[k]);
        lemma_no_error(items.drop_last(), k);
    }
}

/// A unit is restored only after all units that it depends on, directly or through
/// others, whether or not states were saved for those others.
pub proof fn restoring_waits_for_dependencies(
    v: UnitsView,
    inputs: Option<Seq<u64>>,
    run: RunView,
    path: Seq<int>,
)
    requires
        v.wf(),
        v.idle(),
        !v.running,
        is_dependency_path(v, path),
        run.ordered(),
        run.steps.len() == v.units.len(),
        forall|k: int|
            0 <= k < v.units.len() ==> {
                let first = begun_all(v, StateOp::Restore, inputs).1.steps[k];
                &&& (#[trigger] run.steps[k]).id == first.id
                &&& run.steps[k].deps == first.deps
                &&& run.steps[k].send == first.send
            },
        run.steps[path[0]].started,
    ensures
        forall|k: int| 0 < k < path.len() ==> run.steps[#[trigger] path[k]].done,
        !run.ready(path[0]),
{
    assert forall|k: int| 0 <= k < v.units.len() implies (#[trigger] run.steps[k]).id
        == v.units[k].id && (v.units[k].state == State::Stopped ==> run.steps[k].deps
        == StateOp::Restore.deps(v.units[k])) by {
        let first = begun_all(v, StateOp::Restore, inputs).1.steps[k];
        assert(first == step_of(StateOp::Restore, v.units[k], inputs));
    }
    indirect_dependencies_are_respected(v, StateOp::Restore, run, path);
}

/// A signal that something is over: zero until then, and afterwards one more than
/// whether it worked.
#[derive(Debug, Clone, Copy, PartialEq, Eq, Structural)]
pub struct Ready {
    /// The state of the signal.
    pub state: u32,
}

impl Default for Ready {
    fn default() -> (r: Ready)
        ensures
            r.state == 0,
    {
        Ready { state: 0 }
    }
}

impl Ready {
    /// What the signal says: `None` until it is given.
    pub open spec fn says(self) -> Option<bool> {
        if self.state == 0 {
            None
        } else {
            Some(self.state - 1 != 0)
        }
    }

    /// Gives the signal.
    pub fn signal(&mut self, success: bool)
        ensures
            final(self).says() == Some(success),
            final(self).state == if success {
                2u32
            } else {
                1u32
            },
    {
        self.state = if success {
            2
        } else {
            1
        };
    }

    /// Whether the signal was given.
    pub fn is_ready(&self) -> (b: bool)
        ensures
            b == (self.says() is Some),
    {
        self.state != 0
    }

    /// What the signal says.
    pub fn poll(&self) -> (r: Option<bool>)
        ensures
            r == self.says(),
    {
        if self.state != 0 {
            Some(self.state - 1 != 0)
        } else {
            None
        }
    }
}

/// The state of a unit that an operation is about, before it begins.
pub open spec fn is_affected(op: StateOp, u: UnitView) -> bool {
    match op {
        StateOp::Stop => u.state == State::Running,
        _ => u.state == State::Stopped,
    }
}

/// An operation asks every unit that it is about, whatever the unit depends on: to start, be
/// reset, saved or restored those that are stopped, and to stop those that are running.
/// Only to be restored a unit is not asked if there is no state for it. It waits for the
/// units that it depends on, to stop for those that depend on it, and to be saved for none.
/// Any other unit is left alone, and nobody waits for it.
pub proof fn every_unit_is_asked(v: UnitsView, op: StateOp, inputs: Option<Seq<u64>>, i: int)
    requires
        0 <= i < v.units.len(),
    ensures
        ({
            let (w, run) = begun_all(v, op, inputs);
            let u = v.units[i];
            let s = run.steps[i];
            &&& run.op == op
            &&& run.steps.len() == v.units.len()
            &&& w.units.len() == v.units.len()
            &&& w.next_id == v.next_id
            &&& w.running == v.running
            &&& s.id == u.id
            &&& s.name == u.name
            &&& w.units[i] == (UnitView { state: w.units[i].state, ..u })
            &&& if is_affected(op, u) {
                &&& s.send == match inputs {
                    Some(ids) => exists|k: int| 0 <= k < ids.len() && #[trigger] ids[k] == u.id,
                    None => true,
                }
                &&& !s.started
                &&& !s.done
                &&& op == StateOp::Stop ==> s.deps == u.dependents
                &&& op == StateOp::Save ==> s.deps.len() == 0
                &&& op != StateOp::Stop && op != StateOp::Save ==> s.deps == u.dependencies
                &&& op == StateOp::Start ==> w.units[i].state == State::Starting
                &&& op == StateOp::Stop ==> w.units[i].state == State::Stopping
                &&& op == StateOp::Reset ==> w.units[i].state == State::Resetting
                &&& op == StateOp::Save ==> w.units[i].state == State::Saving
                &&& op == StateOp::Restore ==> w.units[i].state == State::Restoring
            } else {
                &&& !s.send
                &&& s.done
                &&& s.started
                &&& w.units[i] == u
            }
        }),
{
    let (w, run) = begun_all(v, op, inputs);
    assert(run.steps[i] == step_of(op, v.units[i], inputs));
    assert(w.units[i] == begun(op, v.units[i]));
    if let Some(ids) = inputs {
        if ids.contains(v.units[i].id) {
            let k = choose|k: int| 0 <= k < ids.len() && ids[k] == v.units[i].id;
            assert(ids[k] == v.units[i].id);
        }
    }
}

/// When an operation is over, its units run after a start and are stopped after any other
/// one, and a unit that came meanwhile is as it was.
pub proof fn finished_operation_settles_units(
    v: UnitsView,
    op: StateOp,
    inputs: Option<Seq<u64>>,
    i: int,
)
    requires
        v.idle(),
        op.allowed(v.running),
        0 <= i < v.units.len(),
    ensures
        ({
            let (w, run) = begun_all(v, op, inputs);
            let u = ended(run, w.units[i]);
            &&& op == StateOp::Start ==> u.state == State::Running
            &&& op != StateOp::Start ==> u.state == State::Stopped
            &&& u == (UnitView { state: u.state, ..v.units[i] })
            &&& forall|other: UnitView|
                (forall|k: int| 0 <= k < v.units.len() ==> #[trigger] v.units[k].id != other.id)
                    ==> #[trigger] ended(run, other) == other
        }),
        op.running_after(v.running) == match op {
            StateOp::Start => true,
            StateOp::Stop => false,
            _ => v.running,
        },
        op == StateOp::Stop ==> v.running,
        op == StateOp::Reset || op == StateOp::Save || op == StateOp::Restore ==> !v.running,
{
    let (w, run) = begun_all(v, op, inputs);
    assert(w.units[i] == begun(op, v.units[i]));
    assert(run.steps[i].id == w.units[i].id);
    assert(run.has_id(w.units[i].id));
    assert forall|other: UnitView|
        (forall|k: int| 0 <= k < v.units.len() ==> #[trigger] v.units[k].id != other.id) implies
        #[trigger] ended(run, other) == other by {
        if run.has_id(other.id) {
            let k = choose|k: int| 0 <= k < run.steps.len() && #[trigger] run.steps[k].id
                == other.id;
            assert(run.steps[k].id == v.units[k].id);
        }
    }
}

/// What happens to an operation.
pub enum RunEvent {
    /// A step begins.
    Begin(int),
    /// A step is over.
    Finish(int),
}

/// Whether it can happen.
pub open spec fn can_happen(run: RunView, e: RunEvent) -> bool {
    match e {
        RunEvent::Begin(i) => 0 <= i < run.steps.len() && run.ready(i),
        RunEvent::Finish(i) => 0 <= i < run.steps.len() && run.steps[i].started,
    }
}

/// The operation afterwards.
pub open spec fn happened(run: RunView, e: RunEvent) -> RunView {
    match e {
        RunEvent::Begin(i) => RunView {
            steps: run.steps.update(
                i,
                StepView { started: true, done: !run.steps[i].send, ..run.steps[i] },
            ),
            ..run
        },
        RunEvent::Finish(i) => RunView {
            steps: run.steps.update(i, StepView { done: true, ..run.steps[i] }),
            ..run
        },
    }
}

/// The operation after events.
pub open spec fn after_events(run: RunView, events: Seq<RunEvent>) -> RunView
    decreases events.len(),
{
    if events.len() == 0 {
        run
    } else {
        happened(after_events(run, events.drop_last()), events.last())
    }
}

/// Whether the events can happen one after another.
pub open spec fn is_course(run: RunView, events: Seq<RunEvent>) -> bool
    decreases events.len(),
{
    events.len() > 0 ==> is_course(run, events.drop_last()) && can_happen(
        after_events(run, events.drop_last()),
        events.last(),
    )
}

/// How many requests the unit of step `i` is sent.
pub open spec fn requests(run: RunView, events: Seq<RunEvent>, i: int) -> nat
    decreases events.len(),
{
    if events.len() == 0 {
        0
    } else {
        requests(run, events.drop_last(), i) + if events.last() == RunEvent::Begin(i)
            && after_events(run, events.drop_last()).steps[i].send {
            1nat
        } else {
            0
        }
    }
}

proof fn lemma_requests(run: RunView, events: Seq<RunEvent>, i: int)
    requires
        is_course(run, events),
        0 <= i < run.steps.len(),
        !run.steps[i].started,
        !run.steps[i].done,
    ensures
        ({
            let after = after_events(run, events);
            &&& after.steps.len() == run.steps.len()
            &&& after.steps[i].send == run.steps[i].send
            &&& after.steps[i].done ==> after.steps[i].started
            &&& requests(run, events, i) == if after.steps[i].started && run.steps[i].send {
                1nat
            } else {
                0
            }
        }),
    decreases events.len(),
{
    if events.len() > 0 {
        lemma_requests(run, events.drop_last(), i);
    }
}

/// However an operation goes, once it is finished every unit that it is about has been sent
/// exactly one request, and no other unit any. (Without a state, a unit is not restored.)
pub proof fn each_unit_gets_one_request(
    v: UnitsView,
    op: StateOp,
    events: Seq<RunEvent>,
    i: int,
)
    requires
        0 <= i < v.units.len(),
        is_course(begun_all(v, op, None).1, events),
        after_events(begun_all(v, op, None).1, events).finished(),
    ensures
        is_affected(op, v.units[i]) ==> requests(begun_all(v, op, None).1, events, i) == 1,
        !is_affected(op, v.units[i]) ==> requests(begun_all(v, op, None).1, events, i) == 0,
{
    let run = begun_all(v, op, None).1;
    every_unit_is_asked(v, op, None, i);
    if is_affected(op, v.units[i]) {
        lemma_requests(run, events, i);
        let after = after_events(run, events);
        assert(after.steps[i].done);
    } else {
        lemma_no_requests(run, events, i);
    }
}

proof fn lemma_no_requests(run: RunView, events: Seq<RunEvent>, i: int)
    requires
        is_course(run, events),
        0 <= i < run.steps.len(),
        run.steps[i].started,
    ensures
        after_events(run, events).steps.len() == run.steps.len(),
        after_events(run, events).steps[i].started,
        requests(run, events, i) == 0,
    decreases events.len(),
{
    if events.len() > 0 {
        lemma_no_requests(run, events.drop_last(), i);
    }
}

proof fn lemma_course_is_ordered(run: RunView, events: Seq<RunEvent>)
    requires
        is_course(run, events),
        run.ordered(),
    ensures
        ({
            let after = after_events(run, events);
            &&& after.ordered()
            &&& after.steps.len() == run.steps.len()
            &&& forall|k: int|
                0 <= k < run.steps.len() ==> (#[trigger] after.steps[k]).id == run.steps[k].id
                    && after.steps[k].deps == run.steps[k].deps
        }),
    decreases events.len(),
{
    if events.len() > 0 {
        lemma_course_is_ordered(run, events.drop_last());
        let before = after_events(run, events.drop_last());
        let after = after_events(run, events);
        let i = match events.last() {
            RunEvent::Begin(i) => i,
            RunEvent::Finish(i) => i,
        };
        lemma_stays_ordered(before, after, i);
    }
}

/// However an operation goes, a unit is asked only after the units that it depends on are
/// done; to stop, only after the units that depend on it are.
pub proof fn operation_respects_dependencies(
    v: UnitsView,
    op: StateOp,
    inputs: Option<Seq<u64>>,
    events: Seq<RunEvent>,
    dependent: int,
    dependency: int,
)
    requires
        v.wf(),
        0 <= dependent < v.units.len(),
        0 <= dependency < v.units.len(),
        v.units[dependent].dependencies.contains(v.units[dependency].id),
        is_affected(op, v.units[dependent]),
        is_affected(op, v.units[dependency]),
        is_course(begun_all(v, op, inputs).1, events),
    ensures
        ({
            let run = after_events(begun_all(v, op, inputs).1, events);
            &&& op == StateOp::Start || op == StateOp::Reset || op == StateOp::Restore ==> (
            run.steps[dependent].started ==> run.steps[dependency].done)
            &&& op == StateOp::Stop ==> (run.steps[dependency].started
                ==> run.steps[dependent].done)
        }),
{
    let start = begun_all(v, op, inputs).1;
    assert forall|k: int| 0 <= k < v.units.len() implies (#[trigger] start.steps[k]).id
        == v.units[k].id && (!start.steps[k].started || start.steps[k].deps.len() == 0) && (
    start.steps[k].done ==> start.steps[k].started) by {
        every_unit_is_asked(v, op, inputs, k);
        assert(start.steps[k] == step_of(op, v.units[k], inputs));
    }
    every_unit_is_asked(v, op, inputs, dependent);
    every_unit_is_asked(v, op, inputs, dependency);
    assert(start.ordered());
    lemma_course_is_ordered(start, events);
    let run = after_events(start, events);
    assert(v.units[dependency].dependents.contains(v.units[dependent].id));
    if op != StateOp::Stop && op != StateOp::Save && run.steps[dependent].started {
        assert(run.unblocked(dependent));
        assert(run.steps[dependent].deps.contains(run.steps[dependency].id));
    }
    if op == StateOp::Stop && run.steps[dependency].started {
        assert(run.unblocked(dependency));
        assert(run.steps[dependency].deps.contains(run.steps[dependent].id));
    }
}

/// A saved state is refused if no unit has its name, or if an earlier one has it too. Each that
/// is refused is told, under its name, in order.
pub proof fn bad_saved_states_are_told(v: UnitsView, states: Seq<SavedStateUnit>, n: int, i: int)
    requires
        0 <= i < n <= states.len(),
    ensures
        ({
            let known = v.has_name(states[i].name@);
            let again = exists|j: int| 0 <= j < i && (#[trigger] states[j]).name@ == states[i].name@;
            let e = state_error(v, states, i);
            &&& e == Some(UnitError::Unknown) <==> !known
            &&& e == Some(UnitError::Duplicate) <==> known && again
            &&& e is None <==> known && !again
            &&& e is Some ==> state_errors(v, states, n).contains((states[i].name@, e->0))
        }),
        state_errors(v, states, n).len() <= n,
    decreases n,
{
    let all = state_errors(v, states, n);
    let before = state_errors(v, states, n - 1);
    lemma_errors_are_few(v, states, n);
    if let Some(e) = state_error(v, states, i) {
        if i < n - 1 {
            bad_saved_states_are_told(v, states, n - 1, i);
            let k = choose|k: int| 0 <= k < before.len() && before[k] == (states[i].name@, e);
            assert(all[k] == before[k]);
        } else {
            assert(all[before.len() as int] == (states[i].name@, e));
        }
    }
}

proof fn lemma_errors_are_few(v: UnitsView, states: Seq<SavedStateUnit>, n: int)
    requires
        n >= 0,
    ensures
        state_errors(v, states, n).len() <= n,
    decreases n,
{
    if n > 0 {
        lemma_errors_are_few(v, states, n - 1);
    }
}

/// The answers of units are told apart, in their order: those that failed are told under their
/// names, and those that gave something keep it. A unit that has nothing to give is left out.
pub proof fn answers_are_told_apart<T>(
    items: Seq<(String, Result<Option<T>, UnitError>)>,
    name: String,
    value: T,
    error: UnitError,
)
    ensures
        errors_of(Seq::<(String, Result<Option<T>, UnitError>)>::empty()).len() == 0,
        values_of(Seq::<(String, Result<Option<T>, UnitError>)>::empty()).len() == 0,
        errors_of(items.push((name, Err(error)))) == errors_of(items).push((name, error)),
        values_of(items.push((name, Err(error)))) == values_of(items),
        errors_of(items.push((name, Ok(Some(value))))) == errors_of(items),
        values_of(items.push((name, Ok(Some(value))))) == values_of(items).push((name, value)),
        errors_of(items.push((name, Ok(None)))) == errors_of(items),
        values_of(items.push((name, Ok(None)))) == values_of(items),
{
    assert(items.push((name, Err(error))).drop_last() =~= items);
    assert(items.push((name, Ok(Some(value)))).drop_last() =~= items);
    assert(items.push((name, Ok(None))).drop_last() =~= items);
}

/// A saved state whose unit takes no part in the operation is told under its name as unknown; one
/// whose unit does is not.
pub proof fn unused_states_are_told(m: Seq<MatchedState>, run: RunView, n: int, i: int)
    requires
        0 <= i < n <= m.len(),
    ensures
        !run.has_id(m[i].unit()) ==> unconsumed(m, run, n).contains(
            (m[i].state().name@, UnitError::Unknown),
        ),
        (forall|k: int| 0 <= k < n ==> run.has_id((#[trigger] m[k]).unit())) ==> unconsumed(
            m,
            run,
            n,
        ).len() == 0,
    decreases n,
{
    let all = unconsumed(m, run, n);
    let before = unconsumed(m, run, n - 1);
    if !run.has_id(m[i].unit()) {
        if i < n - 1 {
            unused_states_are_told(m, run, n - 1, i);
            let k = choose|k: int|
                0 <= k < before.len() && before[k] == (m[i].state().name@, UnitError::Unknown);
            assert(all[k] == before[k]);
        } else {
            assert(all[before.len() as int] == (m[i].state().name@, UnitError::Unknown));
        }
    }
    if forall|k: int| 0 <= k < n ==> run.has_id((#[trigger] m[k]).unit()) {
        assert(run.has_id(m[n - 1].unit()));
        if n > 1 {
            unused_states_are_told(m, run, n - 1, 0);
        }
    }
}

/// The text of errors names each unit and what went wrong, with commas between them.
pub proof fn errors_are_written(
    errors: Seq<(String, UnitError)>,
    name: String,
    error: UnitError,
)
    ensures
        errors_text(seq![(name, error)], 1) == name@ + ": "@ + error_text(error),
        errors.len() > 0 ==> errors_text(errors.push((name, error)), errors.len() as int + 1)
            == errors_text(errors, errors.len() as int) + ", "@ + name@ + ": "@ + error_text(error),
        error_text(UnitError::Unknown) == "unknown unit name"@,
        error_text(UnitError::Duplicate) == "duplicate unit name"@,
        error matches UnitError::Failed(s) ==> error_text(error) == s@,
{
    reveal_with_fuel(errors_text, 2);
    let one = seq![(name, error)];
    assert(errors_text(one, 1) =~= name@ + ": "@ + error_text(error));
    let more = errors.push((name, error));
    lemma_errors_text_prefix(errors, more, errors.len() as int);
}

proof fn lemma_errors_text_prefix(
    errors: Seq<(String, UnitError)>,
    more: Seq<(String, UnitError)>,
    n: int,
)
    requires
        0 <= n <= errors.len() <= more.len(),
        forall|i: int| 0 <= i < errors.len() ==> #[trigger] errors[i] == more[i],
    ensures
        errors_text(errors, n) == errors_text(more, n),
    decreases n,
{
    if n > 0 {
        lemma_errors_text_prefix(errors, more, n - 1);
        assert(errors[n - 1] == more[n - 1]);
    }
}

/// Units can be started whether or not others run, stopped only while they run, and reset, saved
/// and restored only while they are stopped. Starting and stopping turn the whole on and off,
/// and the other operations leave it off.
pub proof fn operations_have_their_time(running: bool)
    ensures
        StateOp::Start.allowed(running),
        StateOp::Stop.allowed(running) <==> running,
        StateOp::Reset.allowed(running) <==> !running,
        StateOp::Save.allowed(running) <==> !running,
        StateOp::Restore.allowed(running) <==> !running,
        StateOp::Start.running_after(running),
        !StateOp::Stop.running_after(running),
        !running ==> !StateOp::Reset.running_after(running) && !StateOp::Save.running_after(running)
            && !StateOp::Restore.running_after(running),
{
}

/// A signal says nothing until it is given, and then what it was given.
pub proof fn signal_says_what_was_given(r: Ready)
    ensures
        r.says() is None <==> r.state == 0,
        r.state == 1 ==> r.says() == Some(false),
        r.state == 2 ==> r.says() == Some(true),
{
}

} // verus!
