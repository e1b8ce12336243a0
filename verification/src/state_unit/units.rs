//! A set of state units: named parts of a VM that are started, stopped, reset, saved
//! and restored together, in the order of their dependencies.
use crate::text::{owned, str_eq};
use vstd::prelude::*;
use vstd::string::StringExecFns;

verus! {

/// The state of a unit.
#[derive(Debug, Clone, Copy, PartialEq, Eq, Structural)]
pub enum State {
    /// Stopped.
    Stopped,
    /// On the way to running.
    Starting,
    /// Running.
    Running,
    /// On the way to stopped.
    Stopping,
    /// Being reset.
    Resetting,
    /// Being saved.
    Saving,
    /// Being restored.
    Restoring,
}

/// A unit.
#[derive(Debug)]
pub struct Unit {
    /// Its ID.
    pub id: u64,
    /// Its name, which is part of the saved state.
    pub name: String,
    /// The units that it depends on, in order.
    pub dependencies: Vec<u64>,
    /// The units that depend on it, in order.
    pub dependents: Vec<u64>,
    /// Its state.
    pub state: State,
}

/// A unit.
#[verifier::ext_equal]
pub struct UnitView {
    /// Its ID.
    pub id: u64,
    /// Its name.
    pub name: Seq<char>,
    /// The units that it depends on.
    pub dependencies: Seq<u64>,
    /// The units that depend on it.
    pub dependents: Seq<u64>,
    /// Its state.
    pub state: State,
}

impl View for Unit {
    type V = UnitView;

    open spec fn view(&self) -> UnitView {
        UnitView {
            id: self.id,
            name: self.name@,
            dependencies: self.dependencies@,
            dependents: self.dependents@,
            state: self.state,
        }
    }
}

/// The units of a list.
pub open spec fn views(units: Seq<Unit>) -> Seq<UnitView> {
    units.map_values(|u: Unit| u@)
}

/// Whether the numbers grow.
pub open spec fn increasing(s: Seq<u64>) -> bool {
    forall|i: int, j: int| 0 <= i < j < s.len() ==> #[trigger] s[i] < #[trigger] s[j]
}

/// A set of state units.
#[derive(Debug)]
pub struct StateUnits {
    /// The ID of the next unit.
    pub next_id: u64,
    /// The units, by ID.
    pub units: Vec<Unit>,
    /// Whether the units are running.
    pub running: bool,
}

/// A set of state units.
#[verifier::ext_equal]
pub struct UnitsView {
    /// The ID of the next unit.
    pub next_id: u64,
    /// The units, by ID.
    pub units: Seq<UnitView>,
    /// Whether the units are running.
    pub running: bool,
}

impl View for StateUnits {
    type V = UnitsView;

    open spec fn view(&self) -> UnitsView {
        UnitsView { next_id: self.next_id, units: views(self.units@), running: self.running }
    }
}

impl UnitsView {
    /// Whether there is a unit with that ID.
    pub open spec fn has_id(self, id: u64) -> bool {
        exists|i: int| 0 <= i < self.units.len() && #[trigger] self.units[i].id == id
    }

    /// Whether there is a unit with that name.
    pub open spec fn has_name(self, name: Seq<char>) -> bool {
        exists|i: int| 0 <= i < self.units.len() && #[trigger] self.units[i].name == name
    }

    /// Whether the units are in order, no two have the same name, and they agree on
    /// who depends on whom.
    pub open spec fn wf(self) -> bool {
        &&& forall|i: int, j: int|
            0 <= i < j < self.units.len() ==> (#[trigger] self.units[i]).id < (
            #[trigger] self.units[j]).id
        &&& forall|i: int, j: int|
            0 <= i < j < self.units.len() ==> (#[trigger] self.units[i]).name != (
            #[trigger] self.units[j]).name
        &&& forall|i: int|
            0 <= i < self.units.len() ==> {
                let u = #[trigger] self.units[i];
                &&& u.id < self.next_id
                &&& increasing(u.dependencies)
                &&& increasing(u.dependents)
                &&& forall|k: int|
                    0 <= k < u.dependencies.len() ==> #[trigger] u.dependencies[k] < self.next_id
                &&& forall|k: int|
                    0 <= k < u.dependents.len() ==> #[trigger] u.dependents[k] < self.next_id
            }
        &&& forall|i: int, j: int|
            0 <= i < self.units.len() && 0 <= j < self.units.len() ==> ((
            #[trigger] self.units[i]).dependencies.contains((#[trigger] self.units[j]).id)
                <==> self.units[j].dependents.contains(self.units[i].id))
    }

    /// Whether no operation is under way. Only units that were added since the units
    /// were started can be stopped while the others are running.
    pub open spec fn idle(self) -> bool {
        forall|i: int|
            0 <= i < self.units.len() ==> {
                let u = #[trigger] self.units[i];
                u.state == State::Stopped || (self.running && u.state == State::Running)
            }
    }
}

/// The name of a new unit is that of another.
#[derive(Debug)]
pub struct NameInUse(pub String);

impl NameInUse {
    /// What is wrong.
    pub fn describe(&self) -> (s: String)
        ensures
            s@ == "state unit name "@ + self.0@ + " is in use"@,
    {
        let mut s = owned("state unit name ");
        s.append(self.0.as_str());
        s.append(" is in use");
        s
    }
}

/// What a unit is removed by.
#[derive(Debug)]
pub struct UnitHandle {
    /// The unit.
    pub id: u64,
    /// Its name.
    pub name: String,
}

/// A unit that is about to be added.
#[derive(Debug)]
pub struct UnitBuilder {
    /// Its name.
    pub name: String,
    /// The units that it depends on.
    pub dependencies: Vec<u64>,
    /// The units that depend on it.
    pub dependents: Vec<u64>,
}

/// Whether `s` holds the numbers of `v`, in order and once each.
pub open spec fn sorted_set(s: Seq<u64>, v: Seq<u64>) -> bool {
    increasing(s) && forall|x: u64| #[trigger] s.contains(x) <==> v.contains(x)
}

fn insert_sorted(v: &mut Vec<u64>, x: u64)
    requires
        increasing(old(v)@),
    ensures
        increasing(final(v)@),
        forall|y: u64| #[trigger] final(v)@.contains(y) <==> (y == x || old(v)@.contains(y)),
{
    let mut i: usize = 0;
    while i < v.len() && v[i] < x
        invariant
            i <= v@.len(),
            v@ == old(v)@,
            forall|k: int| 0 <= k < i ==> #[trigger] v@[k] < x,
        decreases v@.len() - i,
    {
        i = i + 1;
    }
    if i < v.len() && v[i] == x {
        assert(v@[i as int] == x);
        return;
    }
    let ghost before = v@;
    v.insert(i, x);
    assert(v@ =~= before.insert(i as int, x));
    assert forall|y: u64| #[trigger] v@.contains(y) <==> (y == x || before.contains(y)) by {
        if before.contains(y) {
            let k = choose|k: int| 0 <= k < before.len() && before[k] == y;
            assert(v@[if k < i {
                k
            } else {
                k + 1
            }] == y);
        }
        if v@.contains(y) && y != x {
            let k = choose|k: int| 0 <= k < v@.len() && v@[k] == y;
            assert(before[if k < i {
                k
            } else {
                k - 1
            }] == y);
        }
        assert(v@[i as int] == x);
    }
    assert forall|a: int, b: int| 0 <= a < b < v@.len() implies #[trigger] v@[a] < #[trigger] v@[b] by {
        if a == i {
            assert(x < before[i as int]);
            assert(before[i as int] <= before[b - 1]);
        }
    }
}

fn sort_dedup(v: &Vec<u64>) -> (s: Vec<u64>)
    ensures
        sorted_set(s@, v@),
{
    let mut s: Vec<u64> = Vec::new();
    let mut i: usize = 0;
    while i < v.len()
        invariant
            i <= v@.len(),
            sorted_set(s@, v@.take(i as int)),
        decreases v@.len() - i,
    {
        let ghost before = v@.take(i as int);
        let ghost after = v@.take(i + 1);
        insert_sorted(&mut s, v[i]);
        assert(after =~= before.push(v@[i as int]));
        assert forall|x: u64| after.contains(x) <==> (x == v@[i as int] || before.contains(x)) by {
            if before.contains(x) {
                let k = choose|k: int| 0 <= k < before.len() && before[k] == x;
                assert(after[k] == x);
            }
            assert(after[i as int] == v@[i as int]);
            if after.contains(x) && x != v@[i as int] {
                let k = choose|k: int| 0 <= k < after.len() && after[k] == x;
                assert(before[k] == x);
            }
        }
        i = i + 1;
    }
    assert(v@.take(i as int) =~= v@);
    s
}

/// Two ordered lists of the same numbers are the same.
pub proof fn sorted_set_is_unique(a: Seq<u64>, b: Seq<u64>, v: Seq<u64>)
    requires
        sorted_set(a, v),
        sorted_set(b, v),
    ensures
        a == b,
{
    lemma_increasing_unique(a, b);
}

proof fn lemma_increasing_unique(a: Seq<u64>, b: Seq<u64>)
    requires
        increasing(a),
        increasing(b),
        forall|x: u64| #[trigger] a.contains(x) <==> b.contains(x),
    ensures
        a == b,
    decreases a.len(),
{
    if a.len() == 0 {
        if b.len() > 0 {
            assert(b.contains(b[0]));
            assert(a.contains(b[0]));
        }
        assert(a =~= b);
    } else {
        assert(a.contains(a.last()));
        let k = choose|k: int| 0 <= k < b.len() && b[k] == a.last();
        assert(b.contains(b.last()));
        assert(a.contains(b.last()));
        let m = choose|m: int| 0 <= m < a.len() && a[m] == b.last();
        assert(a.last() == b.last()) by {
            if k < b.len() - 1 {
                assert(b[k] < b[b.len() - 1]);
                if m < a.len() - 1 {
                    assert(a[m] < a[a.len() - 1]);
                }
            }
        }
        let a2 = a.drop_last();
        let b2 = b.drop_last();
        assert forall|x: u64| #[trigger] a2.contains(x) <==> b2.contains(x) by {
            if a2.contains(x) {
                let i = choose|i: int| 0 <= i < a2.len() && a2[i] == x;
                assert(a[i] == x && a[i] < a[a.len() - 1]);
                assert(a.contains(x));
                let j = choose|j: int| 0 <= j < b.len() && b[j] == x;
                assert(b2[j] == x);
            }
            if b2.contains(x) {
                let i = choose|i: int| 0 <= i < b2.len() && b2[i] == x;
                assert(b[i] == x && b[i] < b[b.len() - 1]);
                assert(b.contains(x));
                assert(a.contains(x));
                let j = choose|j: int| 0 <= j < a.len() && a[j] == x;
                assert(a2[j] == x);
            }
        }
        lemma_increasing_unique(a2, b2);
        assert(a =~= a2.push(a.last()));
        assert(b =~= b2.push(b.last()));
    }
}

/// `u` with `id` among those that depend on it, and among those that it depends on,
/// as told.
pub open spec fn linked(u: UnitView, id: u64, depends_on: Seq<u64>, dependency_of: Seq<u64>) -> UnitView {
    UnitView {
        dependents: if depends_on.contains(u.id) {
            u.dependents.push(id)
        } else {
            u.dependents
        },
        dependencies: if dependency_of.contains(u.id) {
            u.dependencies.push(id)
        } else {
            u.dependencies
        },
        ..u
    }
}

/// The units with a new one.
pub open spec fn added(
    v: UnitsView,
    name: Seq<char>,
    depends_on: Seq<u64>,
    dependency_of: Seq<u64>,
) -> UnitsView {
    UnitsView {
        next_id: (v.next_id + 1) as u64,
        units: v.units.map_values(
            |u: UnitView| linked(u, v.next_id, depends_on, dependency_of),
        ).push(
            UnitView {
                id: v.next_id,
                name,
                dependencies: depends_on,
                dependents: dependency_of,
                state: State::Stopped,
            },
        ),
        ..v
    }
}

proof fn lemma_contains_push(s: Seq<u64>, x: u64, y: u64)
    ensures
        s.push(x).contains(y) <==> (y == x || s.contains(y)),
{
    let p = s.push(x);
    assert(p[s.len() as int] == x);
    if s.contains(y) {
        let k = choose|k: int| 0 <= k < s.len() && s[k] == y;
        assert(p[k] == y);
    }
    if p.contains(y) && y != x {
        let k = choose|k: int| 0 <= k < p.len() && p[k] == y;
        assert(s[k] == y);
    }
}

/// Adding a unit keeps the units in order, if its name is new and it depends on, and
/// is a dependency of, units that are there.
pub proof fn adding_keeps_order(
    v: UnitsView,
    name: Seq<char>,
    depends_on: Seq<u64>,
    dependency_of: Seq<u64>,
)
    requires
        v.wf(),
        !v.has_name(name),
        v.next_id < u64::MAX,
        increasing(depends_on),
        increasing(dependency_of),
        forall|k: int| 0 <= k < depends_on.len() ==> v.has_id(#[trigger] depends_on[k]),
        forall|k: int| 0 <= k < dependency_of.len() ==> v.has_id(#[trigger] dependency_of[k]),
    ensures
        added(v, name, depends_on, dependency_of).wf(),
{
    let w = added(v, name, depends_on, dependency_of);
    let n = v.units.len() as int;
    let id = v.next_id;
    assert forall|i: int| 0 <= i < n implies #[trigger] w.units[i] == linked(
        v.units[i],
        id,
        depends_on,
        dependency_of,
    ) by {}
    assert forall|i: int| 0 <= i < w.units.len() implies {
        let u = #[trigger] w.units[i];
        &&& u.id < w.next_id
        &&& increasing(u.dependencies)
        &&& increasing(u.dependents)
        &&& forall|k: int|
            0 <= k < u.dependencies.len() ==> #[trigger] u.dependencies[k] < w.next_id
        &&& forall|k: int| 0 <= k < u.dependents.len() ==> #[trigger] u.dependents[k] < w.next_id
    } by {
        if i < n {
            let u = v.units[i];
        } else {
            assert forall|k: int| 0 <= k < depends_on.len() implies #[trigger] depends_on[k]
                < w.next_id by {
                assert(v.has_id(depends_on[k]));
            }
            assert forall|k: int| 0 <= k < dependency_of.len() implies #[trigger] dependency_of[k]
                < w.next_id by {
                assert(v.has_id(dependency_of[k]));
            }
        }
    }
    assert forall|i: int, j: int| 0 <= i < j < w.units.len() implies (#[trigger] w.units[i]).name
        != (#[trigger] w.units[j]).name by {
        if j == n {
            assert(v.units[i].name != name);
        } else {
            assert(v.units[i].name != v.units[j].name);
        }
    }
    assert forall|i: int, j: int| 0 <= i < j < w.units.len() implies (#[trigger] w.units[i]).id < (
    #[trigger] w.units[j]).id by {
        if j < n {
            assert(v.units[i].id < v.units[j].id);
        } else {
            assert(v.units[i].id < id);
        }
    }
    assert forall|i: int, j: int| 0 <= i < w.units.len() && 0 <= j < w.units.len() implies ((
    #[trigger] w.units[i]).dependencies.contains((#[trigger] w.units[j]).id)
        <==> w.units[j].dependents.contains(w.units[i].id)) by {
        if i < n && j < n {
            lemma_contains_push(v.units[i].dependencies, id, v.units[j].id);
            lemma_contains_push(v.units[j].dependents, id, v.units[i].id);
            assert(v.units[i].dependencies.contains(v.units[j].id)
                <==> v.units[j].dependents.contains(v.units[i].id));
        } else if i == n && j < n {
            lemma_contains_push(v.units[j].dependents, id, id);
        } else if i < n && j == n {
            lemma_contains_push(v.units[i].dependencies, id, id);
        } else {
            if depends_on.contains(id) {
                let k = choose|k: int| 0 <= k < depends_on.len() && depends_on[k] == id;
                assert(v.has_id(depends_on[k]));
            }
            if dependency_of.contains(id) {
                let k = choose|k: int| 0 <= k < dependency_of.len() && dependency_of[k] == id;
                assert(v.has_id(dependency_of[k]));
            }
        }
    }
}

impl StateUnits {
    /// A set without units.
    pub fn new() -> (s: StateUnits)
        ensures
            s@ == (UnitsView { next_id: 0, units: Seq::empty(), running: false }),
            s@.wf(),
            s@.idle(),
    {
        let s = StateUnits { next_id: 0, units: Vec::new(), running: false };
        assert(s@.units =~= Seq::empty());
        s
    }

    /// Whether the units are running.
    pub fn is_running(&self) -> (b: bool)
        ensures
            b == self@.running,
    {
        self.running
    }

    /// A unit to be added.
    pub fn add(&self, name: &str) -> (b: UnitBuilder)
        ensures
            b.name@ == name@,
            b.dependencies@.len() == 0,
            b.dependents@.len() == 0,
    {
        UnitBuilder { name: owned(name), dependencies: Vec::new(), dependents: Vec::new() }
    }

    /// The place of the unit with that name.
    pub fn find_name(&self, name: &str) -> (r: Option<usize>)
        ensures
            match r {
                Some(i) => i < self@.units.len() && self@.units[i as int].name == name@ && (forall|
                    k: int,
                |
                    0 <= k < i ==> (#[trigger] self@.units[k]).name != name@),
                None => !self@.has_name(name@),
            },
    {
        let mut i: usize = 0;
        while i < self.units.len()
            invariant
                i <= self.units@.len(),
                forall|k: int| 0 <= k < i ==> (#[trigger] self@.units[k]).name != name@,
            decreases self.units@.len() - i,
        {
            assert(self@.units[i as int] == self.units@[i as int]@);
            if str_eq(self.units[i].name.as_str(), name) {
                return Some(i);
            }
            i = i + 1;
        }
        None
    }

    /// The place of the unit with that ID.
    pub fn find_id(&self, id: u64) -> (r: Option<usize>)
        ensures
            match r {
                Some(i) => i < self@.units.len() && self@.units[i as int].id == id,
                None => !self@.has_id(id),
            },
    {
        let mut i: usize = 0;
        while i < self.units.len()
            invariant
                i <= self.units@.len(),
                forall|k: int| 0 <= k < i ==> (#[trigger] self@.units[k]).id != id,
            decreases self.units@.len() - i,
        {
            assert(self@.units[i as int] == self.units@[i as int]@);
            if self.units[i].id == id {
                return Some(i);
            }
            i = i + 1;
        }
        None
    }
}

/// Whether `v` holds `x`.
pub fn holds(v: &Vec<u64>, x: u64) -> (b: bool)
    ensures
        b == v@.contains(x),
{
    let mut i: usize = 0;
    while i < v.len()
        invariant
            i <= v@.len(),
            forall|k: int| 0 <= k < i ==> #[trigger] v@[k] != x,
        decreases v@.len() - i,
    {
        if v[i] == x {
            assert(v@[i as int] == x);
            return true;
        }
        i = i + 1;
    }
    false
}

impl UnitBuilder {
    /// Makes the new unit depend on another. A dependency stops after its dependents,
    /// and is reset and restored before them.
    pub fn depends_on(self, handle: &UnitHandle) -> (b: UnitBuilder)
        ensures
            b.name == self.name,
            b.dependencies@ == self.dependencies@.push(handle.id),
            b.dependents == self.dependents,
    {
        let mut b = self;
        b.dependencies.push(handle.id);
        b
    }

    /// Makes another unit depend on the new one.
    pub fn dependency_of(self, handle: &UnitHandle) -> (b: UnitBuilder)
        ensures
            b.name == self.name,
            b.dependencies == self.dependencies,
            b.dependents@ == self.dependents@.push(handle.id),
    {
        let mut b = self;
        b.dependents.push(handle.id);
        b
    }

    /// Adds the unit, stopped, unless its name is in use.
    pub fn build(self, units: &mut StateUnits) -> (r: Result<UnitHandle, NameInUse>)
        requires
            old(units)@.wf(),
            old(units)@.next_id < u64::MAX,
            forall|k: int|
                0 <= k < self.dependencies@.len() ==> old(units)@.has_id(
                    #[trigger] self.dependencies@[k],
                ),
            forall|k: int|
                0 <= k < self.dependents@.len() ==> old(units)@.has_id(
                    #[trigger] self.dependents@[k],
                ),
        ensures
            final(units)@.wf(),
            r is Err <==> old(units)@.has_name(self.name@),
            r matches Err(e) ==> e.0@ == self.name@ && final(units)@ == old(units)@,
            r matches Ok(handle) ==> handle.id == old(units)@.next_id && handle.name@ == self.name@
                && exists|on: Seq<u64>, of: Seq<u64>|
                sorted_set(on, self.dependencies@) && sorted_set(of, self.dependents@)
                    && final(units)@ == #[trigger] added(old(units)@, self.name@, on, of),
    {
        if units.find_name(self.name.as_str()).is_some() {
            return Err(NameInUse(self.name));
        }
        let id: u64 = units.next_id;
        let on = sort_dedup(&self.dependencies);
        let of = sort_dedup(&self.dependents);
        let ghost first = units@;
        proof {
            assert forall|k: int| 0 <= k < on@.len() implies first.has_id(#[trigger] on@[k]) by {
                assert(on@.contains(on@[k]));
                let m = choose|m: int|
                    0 <= m < self.dependencies@.len() && self.dependencies@[m] == on@[k];
                assert(first.has_id(self.dependencies@[m]));
            }
            assert forall|k: int| 0 <= k < of@.len() implies first.has_id(#[trigger] of@[k]) by {
                assert(of@.contains(of@[k]));
                let m = choose|m: int|
                    0 <= m < self.dependents@.len() && self.dependents@[m] == of@[k];
                assert(first.has_id(self.dependents@[m]));
            }
            adding_keeps_order(first, self.name@, on@, of@);
        }
        let mut i: usize = 0;
        while i < units.units.len()
            invariant
                i <= units.units@.len(),
                units.units@.len() == first.units.len(),
                units.next_id == first.next_id,
                units.running == first.running,
                first == old(units)@,
                forall|k: int|
                    0 <= k < i ==> (#[trigger] units.units@[k])@ == linked(
                        first.units[k],
                        id,
                        on@,
                        of@,
                    ),
                forall|k: int|
                    i <= k < units.units@.len() ==> (#[trigger] units.units@[k])@
                        == first.units[k],
            decreases units.units@.len() - i,
        {
            let unit_id: u64 = units.units[i].id;
            let unit = &mut units.units[i];
            if holds(&on, unit_id) {
                unit.dependents.push(id);
            }
            if holds(&of, unit_id) {
                unit.dependencies.push(id);
            }
            i = i + 1;
        }
        let name = owned(self.name.as_str());
        units.units.push(
            Unit { id, name, dependencies: on, dependents: of, state: State::Stopped },
        );
        units.next_id = id + 1;
        proof {
            let w = added(first, self.name@, on@, of@);
            assert(units@.units =~= w.units);
        }
        Ok(UnitHandle { id, name: self.name })
    }
}

/// A new unit is stopped, has the next ID, and depends on what it was told to. Those that it
/// depends on know it as a dependent, and those that depend on it as a dependency. Nothing else
/// of the other units changes.
pub proof fn new_unit_is_linked_both_ways(
    v: UnitsView,
    name: Seq<char>,
    depends_on: Seq<u64>,
    dependency_of: Seq<u64>,
    i: int,
    x: u64,
)
    requires
        v.next_id < u64::MAX,
        0 <= i < v.units.len(),
    ensures
        ({
            let w = added(v, name, depends_on, dependency_of);
            let new = w.units.last();
            let u = v.units[i];
            let t = w.units[i];
            &&& w.next_id == v.next_id + 1
            &&& w.running == v.running
            &&& w.units.len() == v.units.len() + 1
            &&& new.id == v.next_id
            &&& new.name == name
            &&& new.state == State::Stopped
            &&& new.dependencies == depends_on
            &&& new.dependents == dependency_of
            &&& t.id == u.id && t.name == u.name && t.state == u.state
            &&& t.dependents.contains(x) <==> u.dependents.contains(x) || (x == v.next_id
                && depends_on.contains(u.id))
            &&& t.dependencies.contains(x) <==> u.dependencies.contains(x) || (x == v.next_id
                && dependency_of.contains(u.id))
        }),
{
    let u = v.units[i];
    lemma_contains_push(u.dependents, v.next_id, x);
    lemma_contains_push(u.dependencies, v.next_id, x);
}

} // verus!
