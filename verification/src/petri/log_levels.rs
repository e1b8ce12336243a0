//! Variables that say what is logged.
use crate::text::{
    precedes, str_eq, text_less, text_order_is_total, text_order_is_transitive,
};
use vstd::prelude::*;

verus! {

/// Variables and their values, ordered by name. No name occurs twice.
#[derive(Debug)]
pub struct LogLevels {
    entries: Vec<(String, String)>,
}

/// Whether the names are in order and none occurs twice.
pub open spec fn names_in_order(entries: Seq<(String, String)>) -> bool {
    forall|i: int, j: int|
        0 <= i < j < entries.len() ==> text_less(
            (#[trigger] entries[i]).0@,
            (#[trigger] entries[j]).0@,
        )
}

/// Whether the variable belongs at place `i`, which others have to make room for.
pub open spec fn belongs_at(entries: Seq<(String, String)>, name: Seq<char>, i: int) -> bool {
    &&& 0 <= i <= entries.len()
    &&& forall|j: int| 0 <= j < i ==> text_less((#[trigger] entries[j]).0@, name)
    &&& forall|j: int| i <= j < entries.len() ==> text_less(name, (#[trigger] entries[j]).0@)
}

/// Whether `after` is `before` with that value of the variable, at place `i`: a value
/// that it had is replaced.
pub open spec fn given_at(
    before: Seq<(String, String)>,
    after: Seq<(String, String)>,
    name: String,
    value: String,
    i: int,
) -> bool {
    ||| {
        &&& 0 <= i < before.len()
        &&& before[i].0@ == name@
        &&& after == before.update(i, (before[i].0, value))
    }
    ||| {
        &&& belongs_at(before, name@, i)
        &&& after == before.insert(i, (name, value))
    }
}

impl LogLevels {
    /// The variables and their values.
    pub closed spec fn entries(&self) -> Seq<(String, String)> {
        self.entries@
    }

    /// The names are in order and none occurs twice.
    pub open spec fn wf(&self) -> bool {
        names_in_order(self.entries())
    }

    /// No variables.
    pub fn new() -> (l: LogLevels)
        ensures
            l.wf(),
            l.entries() == Seq::<(String, String)>::empty(),
    {
        LogLevels { entries: Vec::new() }
    }

    /// The number of variables.
    pub fn len(&self) -> (n: usize)
        ensures
            n == self.entries().len(),
    {
        self.entries.len()
    }

    /// The variable at place `i`, and its value.
    pub fn get(&self, i: usize) -> (r: &(String, String))
        requires
            i < self.entries().len(),
        ensures
            *r == self.entries()[i as int],
    {
        &self.entries[i]
    }

    /// Gives a variable a value. A value that it had is replaced.
    pub fn insert(&mut self, name: String, value: String)
        requires
            old(self).wf(),
        ensures
            final(self).wf(),
            exists|i: int| #[trigger]
                given_at(old(self).entries(), final(self).entries(), name, value, i),
    {
        let ghost before = self.entries@;
        let mut i: usize = 0;
        while i < self.entries.len() && precedes(self.entries[i].0.as_str(), name.as_str())
            invariant
                i <= self.entries@.len(),
                self.entries@ == before,
                forall|j: int| 0 <= j < i ==> text_less((#[trigger] before[j]).0@, name@),
            decreases self.entries@.len() - i,
        {
            i = i + 1;
        }
        if i < self.entries.len() && str_eq(self.entries[i].0.as_str(), name.as_str()) {
            let entry = &mut self.entries[i];
            entry.1 = value;
            proof {
                let old_entry = before[i as int];
                assert(self.entries@ =~= before.update(i as int, (old_entry.0, value)));
                assert(given_at(before, self.entries@, name, value, i as int));
            }
        } else {
            proof {
                if i < before.len() {
                    text_order_is_total(before[i as int].0@, name@);
                    assert forall|j: int| i <= j < before.len() implies text_less(
                        name@,
                        (#[trigger] before[j]).0@,
                    ) by {
                        if j > i {
                            assert(text_less(before[i as int].0@, before[j].0@));
                            text_order_is_transitive(name@, before[i as int].0@, before[j].0@);
                        }
                    }
                }
                assert(belongs_at(before, name@, i as int));
            }
            self.entries.insert(i, (name, value));
            proof {
                let after = self.entries@;
                assert(given_at(before, after, name, value, i as int));
                assert forall|a: int, b: int| 0 <= a < b < after.len() implies text_less(
                    (#[trigger] after[a]).0@,
                    (#[trigger] after[b]).0@,
                ) by {
                    let x = if a < i {
                        a
                    } else {
                        a - 1
                    };
                    let y = if b < i {
                        b
                    } else {
                        b - 1
                    };
                    if a != i {
                        assert(after[a] == before[x]);
                    }
                    if b != i {
                        assert(after[b] == before[y]);
                    }
                }
            }
        }
    }
}

impl Default for LogLevels {
    fn default() -> (l: LogLevels)
        ensures
            l.wf(),
            l.entries() == Seq::<(String, String)>::empty(),
    {
        LogLevels::new()
    }
}

/// No name occurs twice.
pub proof fn levels_have_distinct_names(l: LogLevels, i: int, j: int)
    requires
        l.wf(),
        0 <= i < l.entries().len(),
        0 <= j < l.entries().len(),
        l.entries()[i].0@ == l.entries()[j].0@,
    ensures
        i == j,
{
    text_order_is_total(l.entries()[i].0@, l.entries()[j].0@);
}

} // verus!
