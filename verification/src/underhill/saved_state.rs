//! What the VF manager keeps across a restart.
use crate::guid::Guid;
use vstd::prelude::*;

verus! {

/// The saved state of a VF manager.
#[derive(Debug)]
pub struct SavedState {
    /// The device.
    pub instance_id: Guid,
    /// For each vport, whether packets are steered to VTL0, where that is known.
    /// The device cannot be asked for it.
    pub direction_to_vtl0: Vec<Option<bool>>,
    /// Whether the VF is hidden from VTL0.
    pub hidden_vtl0: Option<bool>,
}

/// The state of a VF manager that has to be saved.
#[derive(Debug)]
pub struct RuntimeSavedState {
    /// The device.
    pub instance_id: Guid,
    /// For each vport, whether packets are steered to VTL0, where that is known.
    pub direction_to_vtl0: Vec<Option<bool>>,
    /// Whether the VF is hidden from VTL0.
    pub hidden_vtl0: Option<bool>,
}

/// What both say.
pub struct SavedView {
    /// The device.
    pub instance_id: Guid,
    /// For each vport, whether packets are steered to VTL0.
    pub direction_to_vtl0: Seq<Option<bool>>,
    /// Whether the VF is hidden from VTL0.
    pub hidden_vtl0: Option<bool>,
}

impl View for SavedState {
    type V = SavedView;

    open spec fn view(&self) -> SavedView {
        SavedView {
            instance_id: self.instance_id,
            direction_to_vtl0: self.direction_to_vtl0@,
            hidden_vtl0: self.hidden_vtl0,
        }
    }
}

impl View for RuntimeSavedState {
    type V = SavedView;

    open spec fn view(&self) -> SavedView {
        SavedView {
            instance_id: self.instance_id,
            direction_to_vtl0: self.direction_to_vtl0@,
            hidden_vtl0: self.hidden_vtl0,
        }
    }
}

fn copy_directions(v: &Vec<Option<bool>>) -> (r: Vec<Option<bool>>)
    ensures
        r@ == v@,
{
    let mut out: Vec<Option<bool>> = Vec::new();
    let mut i: usize = 0;
    while i < v.len()
        invariant
            i <= v@.len(),
            out@ == v@.take(i as int),
        decreases v@.len() - i,
    {
        out.push(v[i]);
        i = i + 1;
        assert(out@ =~= v@.take(i as int));
    }
    assert(v@.take(i as int) =~= v@);
    out
}

/// The directions with the one of vport `index` known to exist.
pub open spec fn extended(d: Seq<Option<bool>>, index: int) -> Seq<Option<bool>> {
    Seq::new(
        if d.len() <= index {
            (index + 1) as nat
        } else {
            d.len()
        },
        |i: int|
            if i < d.len() {
                d[i]
            } else {
                None
            },
    )
}

impl RuntimeSavedState {
    /// The state of a device that was never saved: nothing is known, and the VF is
    /// not hidden.
    pub fn new(instance_id: Guid) -> (s: RuntimeSavedState)
        ensures
            s@ == (SavedView {
                instance_id,
                direction_to_vtl0: Seq::empty(),
                hidden_vtl0: Some(false),
            }),
    {
        let s = RuntimeSavedState {
            instance_id,
            direction_to_vtl0: Vec::new(),
            hidden_vtl0: Some(false),
        };
        assert(s@.direction_to_vtl0 =~= Seq::empty());
        s
    }

    /// Whether packets of vport `index` are steered to VTL0, where that is known.
    pub fn direction_to_vtl0(&self, index: u32) -> (r: Option<bool>)
        ensures
            r == if index < self@.direction_to_vtl0.len() {
                self@.direction_to_vtl0[index as int]
            } else {
                None::<bool>
            },
    {
        let index: usize = index as usize;
        if index < self.direction_to_vtl0.len() {
            self.direction_to_vtl0[index]
        } else {
            None
        }
    }

    /// Makes room for vport `index`.
    pub fn track_vport(&mut self, index: u32)
        requires
            index < u32::MAX,
        ensures
            final(self)@ == (SavedView {
                direction_to_vtl0: extended(old(self)@.direction_to_vtl0, index as int),
                ..old(self)@
            }),
    {
        let want: usize = index as usize + 1;
        let ghost before = self.direction_to_vtl0@;
        while self.direction_to_vtl0.len() < want
            invariant
                want == index + 1,
                before.len() <= self.direction_to_vtl0@.len(),
                self.direction_to_vtl0@.len() <= want || self.direction_to_vtl0@.len()
                    == before.len(),
                forall|i: int|
                    0 <= i < self.direction_to_vtl0@.len() ==> #[trigger] self.direction_to_vtl0@[i]
                        == if i < before.len() {
                        before[i]
                    } else {
                        None::<bool>
                    },
                self.instance_id == old(self).instance_id,
                self.hidden_vtl0 == old(self).hidden_vtl0,
                before == old(self)@.direction_to_vtl0,
            decreases want - self.direction_to_vtl0@.len(),
        {
            self.direction_to_vtl0.push(None);
        }
        assert(self.direction_to_vtl0@ =~= extended(before, index as int));
    }

    /// Takes note that packets of vport `index` are steered to VTL0, or not.
    pub fn vport_callback(&mut self, index: u32, to_vtl0: bool)
        requires
            index < old(self)@.direction_to_vtl0.len(),
        ensures
            final(self)@ == (SavedView {
                direction_to_vtl0: old(self)@.direction_to_vtl0.update(
                    index as int,
                    Some(to_vtl0),
                ),
                ..old(self)@
            }),
    {
        self.direction_to_vtl0.set(index as usize, Some(to_vtl0));
    }

    /// Takes note that no packets are steered to VTL0.
    pub fn force_synthetic(&mut self)
        ensures
            final(self)@ == (SavedView {
                direction_to_vtl0: old(self)@.direction_to_vtl0.map_values(
                    |d: Option<bool>| Some(false),
                ),
                ..old(self)@
            }),
    {
        let n: usize = self.direction_to_vtl0.len();
        let mut i: usize = 0;
        while i < n
            invariant
                i <= n,
                n == self.direction_to_vtl0@.len(),
                n == old(self).direction_to_vtl0@.len(),
                forall|k: int|
                    0 <= k < i ==> #[trigger] self.direction_to_vtl0@[k] == Some(false),
                self.instance_id == old(self).instance_id,
                self.hidden_vtl0 == old(self).hidden_vtl0,
            decreases n - i,
        {
            self.direction_to_vtl0.set(i, Some(false));
            i = i + 1;
        }
        assert(self.direction_to_vtl0@ =~= old(self)@.direction_to_vtl0.map_values(
            |d: Option<bool>| Some(false),
        ));
    }

    /// What is saved.
    pub fn save(&self) -> (s: SavedState)
        ensures
            s@ == self@,
    {
        SavedState {
            instance_id: self.instance_id,
            direction_to_vtl0: copy_directions(&self.direction_to_vtl0),
            hidden_vtl0: self.hidden_vtl0,
        }
    }

    /// The state that was saved.
    pub fn restore(s: &SavedState) -> (r: RuntimeSavedState)
        ensures
            r@ == s@,
    {
        RuntimeSavedState {
            instance_id: s.instance_id,
            direction_to_vtl0: copy_directions(&s.direction_to_vtl0),
            hidden_vtl0: s.hidden_vtl0,
        }
    }
}

/// The first saved state of the device, or that of a new one.
pub open spec fn found(saved: Seq<SavedState>, instance_id: Guid) -> SavedView
    decreases saved.len(),
{
    if saved.len() == 0 {
        SavedView { instance_id, direction_to_vtl0: Seq::empty(), hidden_vtl0: Some(false) }
    } else if saved[0].instance_id == instance_id {
        saved[0]@
    } else {
        found(saved.drop_first(), instance_id)
    }
}

/// The state of the device: as it was saved, if it was.
pub fn restore_or_new(saved: &Vec<SavedState>, instance_id: Guid) -> (r: RuntimeSavedState)
    ensures
        r@ == found(saved@, instance_id),
        r@.instance_id == instance_id,
{
    let mut i: usize = 0;
    assert(saved@.skip(0) =~= saved@);
    while i < saved.len()
        invariant
            i <= saved@.len(),
            found(saved@, instance_id) == found(saved@.skip(i as int), instance_id),
        decreases saved@.len() - i,
    {
        assert(saved@.skip(i as int)[0] == saved@[i as int]);
        let id = saved[i].instance_id;
        if id.data1 == instance_id.data1 && id.data2 == instance_id.data2 && id.data3
            == instance_id.data3 && id.data4 == instance_id.data4 {
            return RuntimeSavedState::restore(&saved[i]);
        }
        assert(saved@.skip(i as int).drop_first() =~= saved@.skip(i + 1));
        i = i + 1;
    }
    RuntimeSavedState::new(instance_id)
}

/// A state that was saved is the one that is found again.
pub proof fn saved_state_is_found(before: Seq<SavedState>, s: SavedState, after: Seq<SavedState>)
    requires
        forall|i: int|
            0 <= i < before.len() ==> (#[trigger] before[i]).instance_id != s.instance_id,
    ensures
        found(before + seq![s] + after, s.instance_id) == s@,
    decreases before.len(),
{
    let all = before + seq![s] + after;
    if before.len() == 0 {
        assert(all[0] == s);
    } else {
        assert(all[0] == before[0]);
        assert(all.drop_first() =~= before.drop_first() + seq![s] + after);
        saved_state_is_found(before.drop_first(), s, after);
    }
}

/// Making room for a vport keeps what is known of the others, and knows nothing of the new ones.
pub proof fn room_is_made_for_vport(d: Seq<Option<bool>>, index: int, i: int)
    requires
        index >= 0,
        0 <= i < extended(d, index).len(),
    ensures
        extended(d, index).len() > index,
        extended(d, index).len() == d.len() || extended(d, index).len() == index + 1,
        extended(d, index).len() >= d.len(),
        i < d.len() ==> extended(d, index)[i] == d[i],
        i >= d.len() ==> extended(d, index)[i] is None,
{
}

/// A device that was never saved starts anew: nothing is known, and its VF is not hidden.
pub proof fn unknown_device_starts_anew(saved: Seq<SavedState>, instance_id: Guid)
    requires
        forall|i: int| 0 <= i < saved.len() ==> (#[trigger] saved[i]).instance_id != instance_id,
    ensures
        found(saved, instance_id).instance_id == instance_id,
        found(saved, instance_id).direction_to_vtl0.len() == 0,
        found(saved, instance_id).hidden_vtl0 == Some(false),
    decreases saved.len(),
{
    if saved.len() > 0 {
        assert(saved[0].instance_id != instance_id);
        assert forall|i: int| 0 <= i < saved.drop_first().len() implies (
        #[trigger] saved.drop_first()[i]).instance_id != instance_id by {
            assert(saved.drop_first()[i] == saved[i + 1]);
        }
        unknown_device_starts_anew(saved.drop_first(), instance_id);
    }
}

} // verus!
