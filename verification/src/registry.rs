//! Frame-scoped hit testing: which action or input field a pointer click at
//! a screen position lands on.
//!
//! Both binding lists are rebuilt from empty on every render pass — never
//! patched incrementally — so a pointer event is always tested against the
//! layout that is actually on screen, and a widget of an earlier frame can
//! never be clicked. When registered regions overlap at a point, the last
//! binding registered in insertion order wins.
use vstd::prelude::*;

use crate::region::Region;

verus! {

/// The closed set of operations a clickable region can be bound to; the
/// engine dispatches on the value.
#[derive(Clone, Copy, PartialEq, Eq, Structural, Debug)]
pub enum Action {
    /// Enter the screen for adding a record.
    GoToAddNew,
    /// Enter the quit-confirmation screen.
    GoToQuit,
    /// Go back to the previous mode.
    PrevMode,
    /// Confirm quitting: set the quit flag.
    Quit,
    /// Submit the add-record form.
    AddNewBoardgame,
}

/// The bindings of one frame: action regions and input-field regions, each
/// in registration order.
#[verifier::ext_equal]
pub ghost struct RegistryView {
    pub actions: Seq<(Region, Action)>,
    pub inputs: Seq<(Region, Seq<char>)>,
}

/// The last binding in registration order whose region contains `(x, y)`,
/// if any.
pub open spec fn spec_last_hit<T>(s: Seq<(Region, T)>, x: u16, y: u16) -> Option<T>
    decreases s.len(),
{
    if s.len() == 0 {
        None
    } else if s.last().0.spec_contains(x, y) {
        Some(s.last().1)
    } else {
        spec_last_hit(s.drop_last(), x, y)
    }
}

/// Law: a point that lies in none of the registered regions hits nothing.
/// In particular, after a fresh render pass has re-registered only the
/// bindings of the mode now on screen, a click inside a region that only an
/// earlier frame had registered triggers nothing.
pub proof fn lemma_miss_all_is_none<T>(s: Seq<(Region, T)>, x: u16, y: u16)
    requires
        forall|i: int| 0 <= i < s.len() ==> !(#[trigger] s[i]).0.spec_contains(x, y),
    ensures
        spec_last_hit(s, x, y) is None,
    decreases s.len(),
{
    if s.len() > 0 {
        lemma_miss_all_is_none(s.drop_last(), x, y);
    }
}

/// Law: a point inside any registered region hits something — the test can
/// only come back empty when every registered region misses the point.
pub proof fn lemma_hit_when_contained<T>(s: Seq<(Region, T)>, x: u16, y: u16, i: int)
    requires
        0 <= i < s.len(),
        s[i].0.spec_contains(x, y),
    ensures
        spec_last_hit(s, x, y) is Some,
    decreases s.len(),
{
    if !s.last().0.spec_contains(x, y) {
        lemma_hit_when_contained(s.drop_last(), x, y, i);
    }
}

/// Law: whatever a hit test returns was registered in this frame, under a
/// region that contains the tested point.
pub proof fn lemma_hit_is_registered<T>(s: Seq<(Region, T)>, x: u16, y: u16)
    ensures
        spec_last_hit(s, x, y) matches Some(t) ==> exists|i: int|
            0 <= i < s.len() && (#[trigger] s[i]).0.spec_contains(x, y) && s[i].1 == t,
    decreases s.len(),
{
    if s.len() > 0 {
        if s.last().0.spec_contains(x, y) {
            assert(s[s.len() - 1].0.spec_contains(x, y));
        } else {
            lemma_hit_is_registered(s.drop_last(), x, y);
            if spec_last_hit(s, x, y) is Some {
                let t = spec_last_hit(s, x, y)->Some_0;
                let i = choose|i: int|
                    0 <= i < s.drop_last().len() && (#[trigger] s.drop_last()[i]).0.spec_contains(
                        x,
                        y,
                    ) && s.drop_last()[i].1 == t;
                assert(s[i].0.spec_contains(x, y) && s[i].1 == t);
            }
        }
    }
}

/// Per-frame registry of clickable regions: one list of action bindings and
/// one of input-field bindings, both in registration order.
pub struct HitTestRegistry {
    actions: Vec<(Region, Action)>,
    inputs: Vec<(Region, String)>,
}

impl View for HitTestRegistry {
    type V = RegistryView;

    closed spec fn view(&self) -> RegistryView {
        RegistryView {
            actions: self.actions@,
            inputs: self.inputs@.map_values(|p: (Region, String)| (p.0, p.1@)),
        }
    }
}

impl HitTestRegistry {
    /// A fresh registry with no bindings.
    pub fn new() -> (r: Self)
        ensures
            r@.actions == Seq::<(Region, Action)>::empty(),
            r@.inputs == Seq::<(Region, Seq<char>)>::empty(),
    {
        let r = HitTestRegistry { actions: Vec::new(), inputs: Vec::new() };
        proof {
            assert(r@.actions =~= Seq::<(Region, Action)>::empty());
            assert(r@.inputs =~= Seq::<(Region, Seq<char>)>::empty());
        }
        r
    }

    /// Binds `region` to `action` for the current frame, after all earlier
    /// registrations.
    pub fn register_action(&mut self, region: Region, action: Action)
        ensures
            final(self)@.actions == old(self)@.actions.push((region, action)),
            final(self)@.inputs == old(self)@.inputs,
    {
        self.actions.push((region, action));
    }

    /// Binds `region` to the input field `field` for the current frame,
    /// after all earlier registrations.
    pub fn register_input(&mut self, region: Region, field: String)
        ensures
            final(self)@.inputs == old(self)@.inputs.push((region, field@)),
            final(self)@.actions == old(self)@.actions,
    {
        let ghost prev = self@.inputs;
        let ghost f = field@;
        self.inputs.push((region, field));
        proof {
            assert(self@.inputs =~= prev.push((self.inputs@.last().0, f)));
        }
    }

    /// Drops every binding of the frame; called on every mode transition and
    /// at the start of every render pass.
    pub fn clear(&mut self)
        ensures
            final(self)@.actions == Seq::<(Region, Action)>::empty(),
            final(self)@.inputs == Seq::<(Region, Seq<char>)>::empty(),
    {
        self.actions.clear();
        self.inputs.clear();
        proof {
            assert(self@.actions =~= Seq::<(Region, Action)>::empty());
            assert(self@.inputs =~= Seq::<(Region, Seq<char>)>::empty());
        }
    }

    /// The action bound at `(x, y)`: the last action registration whose
    /// region contains the point.
    pub fn hit_test_action(&self, x: u16, y: u16) -> (r: Option<Action>)
        ensures
            r == spec_last_hit(self@.actions, x, y),
    {
        let mut idx: usize = self.actions.len();
        proof {
            assert(self@.actions.take(idx as int) =~= self@.actions);
        }
        while idx > 0
            invariant
                idx <= self.actions.len(),
                spec_last_hit(self@.actions, x, y) == spec_last_hit(
                    self@.actions.take(idx as int),
                    x,
                    y,
                ),
            decreases idx,
        {
            idx = idx - 1;
            let (region, action) = self.actions[idx];
            if region.contains(x, y) {
                return Some(action);
            }
            proof {
                assert(self@.actions.take(idx + 1).drop_last() =~= self@.actions.take(idx as int));
            }
        }
        proof {
            assert(self@.actions.take(0) =~= Seq::<(Region, Action)>::empty());
        }
        None
    }

    /// The input field bound at `(x, y)`: the last input registration whose
    /// region contains the point.
    pub fn hit_test_input(&self, x: u16, y: u16) -> (r: Option<String>)
        ensures
            match r {
                Some(field) => spec_last_hit(self@.inputs, x, y) == Some(field@),
                None => spec_last_hit(self@.inputs, x, y) is None,
            },
    {
        let mut idx: usize = self.inputs.len();
        proof {
            assert(self@.inputs.take(idx as int) =~= self@.inputs);
        }
        while idx > 0
            invariant
                idx <= self.inputs.len(),
                spec_last_hit(self@.inputs, x, y) == spec_last_hit(
                    self@.inputs.take(idx as int),
                    x,
                    y,
                ),
            decreases idx,
        {
            idx = idx - 1;
            let region = self.inputs[idx].0;
            if region.contains(x, y) {
                proof {
                    assert(self@.inputs.take(idx + 1).last() == self@.inputs[idx as int]);
                }
                return Some(self.inputs[idx].1.clone());
            }
            proof {
                assert(self@.inputs.take(idx + 1).drop_last() =~= self@.inputs.take(idx as int));
            }
        }
        proof {
            assert(self@.inputs.take(0) =~= Seq::<(Region, Seq<char>)>::empty());
        }
        None
    }

    /// How many action bindings the frame holds.
    pub fn action_count(&self) -> (n: usize)
        ensures
            n == self@.actions.len(),
    {
        self.actions.len()
    }

    /// How many input bindings the frame holds.
    pub fn input_count(&self) -> (n: usize)
        ensures
            n == self@.inputs.len(),
    {
        self.inputs.len()
    }
}

} // verus!
