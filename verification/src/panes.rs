//! The visual states of the panes, kept by pane identifier in ascending
//! order. A pane's state is created when the pane is first addressed and is
//! never removed.
//!
//! The states stand in a vector sorted by pane identifier, with no pane
//! twice: what an ordered map gives. A vector it is because a state is
//! changed where it stands, through a mutable reference, and because the
//! panes are walked by position; the order of that walk is part of what the
//! status bar shows.

use crate::state::{fresh_state, VisualState, VisualText};
use vstd::prelude::*;

verus! {

/// Whether the panes of `entries` come in strictly ascending order, so that
/// no pane occurs twice.
pub open spec fn ascending<V>(entries: Seq<(u32, V)>) -> bool {
    forall|i: int, j: int| 0 <= i < j < entries.len() ==> entries[i].0 < entries[j].0
}

/// Whether `entries` holds a state for the pane.
pub open spec fn has_pane<V>(entries: Seq<(u32, V)>, pane_id: u32) -> bool {
    exists|i: int| 0 <= i < entries.len() && #[trigger] entries[i].0 == pane_id
}

/// The number of panes of `entries` below `pane_id`: the place of the pane
/// among them.
pub open spec fn rank<V>(entries: Seq<(u32, V)>, pane_id: u32) -> int
    decreases entries.len(),
{
    if entries.len() == 0 {
        0
    } else if entries.last().0 < pane_id {
        rank(entries.drop_last(), pane_id) + 1
    } else {
        rank(entries.drop_last(), pane_id)
    }
}

/// `entries` with the value `fresh` for the pane, if it had none.
pub open spec fn with_pane<V>(entries: Seq<(u32, V)>, pane_id: u32, fresh: V) -> Seq<(u32, V)> {
    if has_pane(entries, pane_id) {
        entries
    } else {
        entries.insert(rank(entries, pane_id), (pane_id, fresh))
    }
}

/// The states of `entries` as text.
pub open spec fn texts(entries: Seq<(u32, VisualState)>) -> Seq<(u32, VisualText)> {
    entries.map_values(|entry: (u32, VisualState)| (entry.0, entry.1@))
}

/// In ascending entries, the panes before the rank of a pane are below it
/// and those from the rank on are not.
pub proof fn lemma_rank<V>(entries: Seq<(u32, V)>, pane_id: u32)
    requires
        ascending(entries),
    ensures
        0 <= rank(entries, pane_id) <= entries.len(),
        forall|i: int| 0 <= i < rank(entries, pane_id) ==> (#[trigger] entries[i]).0 < pane_id,
        forall|i: int|
            rank(entries, pane_id) <= i < entries.len() ==> (#[trigger] entries[i]).0 >= pane_id,
    decreases entries.len(),
{
    if entries.len() > 0 {
        let init = entries.drop_last();
        assert forall|i: int, j: int| 0 <= i < j < init.len() implies init[i].0 < init[j].0 by {
            assert(init[i] == entries[i] && init[j] == entries[j]);
        }
        lemma_rank(init, pane_id);
        assert forall|i: int| 0 <= i < rank(entries, pane_id) implies (#[trigger] entries[i]).0
            < pane_id by {
            if i < init.len() {
                assert(entries[i] == init[i]);
                if i >= rank(init, pane_id) {
                    assert(entries[i].0 < entries[entries.len() - 1].0);
                }
            }
        }
        assert forall|i: int| rank(entries, pane_id) <= i < entries.len() implies (
        #[trigger] entries[i]).0 >= pane_id by {
            if i < init.len() {
                assert(entries[i] == init[i]);
            }
        }
    }
}

/// The visual states of the panes.
#[derive(Debug)]
pub struct PaneStates {
    entries: Vec<(u32, VisualState)>,
}

impl View for PaneStates {
    type V = Seq<(u32, VisualState)>;

    closed spec fn view(&self) -> Seq<(u32, VisualState)> {
        self.entries@
    }
}

impl PaneStates {
    /// The invariant: panes come in ascending order.
    pub open spec fn wf(&self) -> bool {
        ascending(self@)
    }

    /// No panes.
    pub fn new() -> (panes: PaneStates)
        ensures
            panes.wf(),
            panes@ == Seq::<(u32, VisualState)>::empty(),
    {
        PaneStates { entries: Vec::new() }
    }

    /// The number of panes.
    pub fn len(&self) -> (len: usize)
        ensures
            len == self@.len(),
    {
        self.entries.len()
    }

    /// The identifier of the pane at a position.
    pub fn pane_at(&self, index: usize) -> (pane_id: u32)
        requires
            index < self@.len(),
        ensures
            pane_id == self@[index as int].0,
    {
        self.entries[index].0
    }

    /// The state of the pane at a position.
    pub fn state_at(&self, index: usize) -> (state: &VisualState)
        requires
            index < self@.len(),
        ensures
            *state == self@[index as int].1,
    {
        &self.entries[index].1
    }

    /// The state of the pane at a position, for changing it.
    pub fn state_at_mut(&mut self, index: usize) -> (state: &mut VisualState)
        requires
            index < old(self)@.len(),
        ensures
            *state == old(self)@[index as int].1,
            final(self)@ == old(self)@.update(
                index as int,
                (old(self)@[index as int].0, *final(state)),
            ),
    {
        &mut self.entries[index].1
    }

    /// The position at which the pane stands, or would have to be inserted.
    pub fn position(&self, pane_id: u32) -> (index: usize)
        requires
            self.wf(),
        ensures
            index == rank(self@, pane_id),
            index <= self@.len(),
            has_pane(self@, pane_id) <==> index < self@.len() && self@[index as int].0 == pane_id,
    {
        let mut index: usize = 0;
        proof {
            lemma_rank(self@, pane_id);
        }
        while index < self.entries.len() && self.entries[index].0 < pane_id
            invariant
                index <= self.entries.len(),
                index <= rank(self@, pane_id),
                self.wf(),
                forall|i: int| 0 <= i < rank(self@, pane_id) ==> (#[trigger] self@[i]).0 < pane_id,
                forall|i: int|
                    rank(self@, pane_id) <= i < self@.len() ==> (#[trigger] self@[i]).0 >= pane_id,
                0 <= rank(self@, pane_id) <= self@.len(),
            decreases self.entries.len() - index,
        {
            assert(index < rank(self@, pane_id)) by {
                if index >= rank(self@, pane_id) {
                    assert(self@[index as int].0 >= pane_id);
                }
            }
            index += 1;
        }
        assert(index == rank(self@, pane_id)) by {
            if index < rank(self@, pane_id) {
                assert(self@[index as int].0 < pane_id);
            }
        }
        index
    }

    /// The state of a pane, if it has one.
    pub fn get(&self, pane_id: u32) -> (state: Option<&VisualState>)
        requires
            self.wf(),
        ensures
            match state {
                Some(s) => has_pane(self@, pane_id) && *s == self@[rank(self@, pane_id)].1,
                None => !has_pane(self@, pane_id),
            },
    {
        let index = self.position(pane_id);
        if index < self.entries.len() && self.entries[index].0 == pane_id {
            Some(&self.entries[index].1)
        } else {
            None
        }
    }

    /// Makes sure that the pane has a state, a fresh one if it had none, and
    /// returns its position.
    pub fn get_or_insert(&mut self, pane_id: u32) -> (index: usize)
        requires
            old(self).wf(),
        ensures
            final(self).wf(),
            final(self)@ == with_pane(old(self)@, pane_id, fresh_state()),
            index == rank(old(self)@, pane_id),
            index < final(self)@.len(),
            final(self)@[index as int].0 == pane_id,
    {
        let index = self.position(pane_id);
        proof {
            lemma_rank(self@, pane_id);
        }
        if index < self.entries.len() && self.entries[index].0 == pane_id {
            return index;
        }
        self.entries.insert(index, (pane_id, VisualState::default()));
        assert(self@[index as int].1 == fresh_state());
        assert(self@ =~= with_pane(old(self)@, pane_id, fresh_state()));
        index
    }
}

impl Default for PaneStates {
    fn default() -> (panes: PaneStates)
        ensures
            panes.wf(),
            panes@ == Seq::<(u32, VisualState)>::empty(),
    {
        PaneStates::new()
    }
}

} // verus!
