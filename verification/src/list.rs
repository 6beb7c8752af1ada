//! The selection list: cursor state over the runtime connection items,
//! with wrap-around navigation and a memory of the last selection.

use vstd::prelude::*;

use crate::model::{listed_view, ConnectionItem, StoredConnection};

verus! {

/// Cursor and scroll state over the in-memory items.
pub struct StatefulList {
    pub items: Vec<ConnectionItem>,
    pub selected: Option<usize>,
    pub last_selected: Option<usize>,
    pub offset: usize,
}

impl StatefulList {
    /// Any held index points into the items.
    pub open spec fn wf(self) -> bool {
        &&& (self.selected matches Some(i) ==> i < self.items.len())
        &&& (self.last_selected matches Some(i) ==> i < self.items.len())
    }

    /// The index that `next` moves to on a non-empty list: one past the
    /// selection, wrapping to the top; with nothing selected, the
    /// remembered index, or the top.
    pub open spec fn next_target(self) -> usize {
        match self.selected {
            Some(i) => if i + 1 == self.items.len() {
                0
            } else {
                (i + 1) as usize
            },
            None => match self.last_selected {
                Some(j) => j,
                None => 0,
            },
        }
    }

    /// The index that `previous` moves to on a non-empty list: one before
    /// the selection, wrapping to the bottom; with nothing selected, the
    /// remembered index, or the top.
    pub open spec fn previous_target(self) -> usize {
        match self.selected {
            Some(i) => if i == 0 {
                (self.items.len() - 1) as usize
            } else {
                (i - 1) as usize
            },
            None => match self.last_selected {
                Some(j) => j,
                None => 0,
            },
        }
    }

    /// The state after `next`: an empty list is left alone.
    pub open spec fn spec_next(self) -> StatefulList {
        if self.items.len() == 0 {
            self
        } else {
            StatefulList { selected: Some(self.next_target()), ..self }
        }
    }

    /// The state after `previous`: an empty list is left alone.
    pub open spec fn spec_previous(self) -> StatefulList {
        if self.items.len() == 0 {
            self
        } else {
            StatefulList { selected: Some(self.previous_target()), ..self }
        }
    }

    /// The state after `unselect`: the selection is cleared but
    /// remembered, and the scroll offset is kept.
    pub open spec fn spec_unselect(self) -> StatefulList {
        StatefulList { selected: None, last_selected: self.selected, ..self }
    }

    /// The state after `go_top`: an empty list is left alone.
    pub open spec fn spec_go_top(self) -> StatefulList {
        if self.items.len() == 0 {
            self
        } else {
            StatefulList { selected: Some(0usize), ..self }
        }
    }

    /// The state after `go_bottom`: an empty list is left alone.
    pub open spec fn spec_go_bottom(self) -> StatefulList {
        if self.items.len() == 0 {
            self
        } else {
            StatefulList { selected: Some((self.items.len() - 1) as usize), ..self }
        }
    }

    /// Whether this is the fresh list built from the given records:
    /// nothing selected or remembered, no scroll, and item by item the
    /// resolved view of the corresponding record.
    pub open spec fn lists(self, connections: Seq<StoredConnection>) -> bool {
        &&& self.selected is None
        &&& self.last_selected is None
        &&& self.offset == 0
        &&& self.items@.len() == connections.len()
        &&& forall|j: int| #![auto]
            0 <= j < connections.len() ==> self.items@[j]@ == listed_view(connections[j]@)
    }

    /// Builds the list from the stored records, every optional field
    /// resolved, with nothing selected.
    pub fn with_items(connections: Vec<StoredConnection>) -> (r: StatefulList)
        ensures
            r.wf(),
            r.lists(connections@),
    {
        let mut items: Vec<ConnectionItem> = Vec::new();
        let n: usize = connections.len();
        let mut i: usize = 0;
        while i < n
            invariant
                n == connections.len(),
                i <= n,
                items@.len() == i,
                forall|j: int| #![auto]
                    0 <= j < i ==> items@[j]@ == listed_view(connections@[j]@),
            decreases n - i,
        {
            items.push(listed_item(&connections[i]));
            i = i + 1;
        }
        StatefulList { items, selected: None, last_selected: None, offset: 0 }
    }

    /// Moves the selection forward, wrapping from the bottom to the top;
    /// with nothing selected, resumes at the remembered index or the top.
    /// On an empty list this does nothing.
    pub fn next(&mut self)
        requires
            old(self).wf(),
        ensures
            final(self).wf(),
            *final(self) == old(self).spec_next(),
    {
        if self.items.len() == 0 {
            return ;
        }
        let i: usize = match self.selected {
            Some(i) => if i + 1 == self.items.len() {
                0
            } else {
                i + 1
            },
            None => match self.last_selected {
                Some(j) => j,
                None => 0,
            },
        };
        self.selected = Some(i);
    }

    /// Moves the selection backward, wrapping from the top to the bottom;
    /// with nothing selected, resumes at the remembered index or the top.
    /// On an empty list this does nothing.
    pub fn previous(&mut self)
        requires
            old(self).wf(),
        ensures
            final(self).wf(),
            *final(self) == old(self).spec_previous(),
    {
        if self.items.len() == 0 {
            return ;
        }
        let i: usize = match self.selected {
            Some(i) => if i == 0 {
                self.items.len() - 1
            } else {
                i - 1
            },
            None => match self.last_selected {
                Some(j) => j,
                None => 0,
            },
        };
        self.selected = Some(i);
    }

    /// Clears the selection but remembers it, keeping the scroll offset.
    pub fn unselect(&mut self)
        requires
            old(self).wf(),
        ensures
            final(self).wf(),
            *final(self) == old(self).spec_unselect(),
    {
        self.last_selected = self.selected;
        self.selected = None;
    }

    /// Selects the first item; does nothing on an empty list.
    pub fn go_top(&mut self)
        requires
            old(self).wf(),
        ensures
            final(self).wf(),
            *final(self) == old(self).spec_go_top(),
    {
        if self.items.len() > 0 {
            self.selected = Some(0);
        }
    }

    /// Selects the last item; does nothing on an empty list.
    pub fn go_bottom(&mut self)
        requires
            old(self).wf(),
        ensures
            final(self).wf(),
            *final(self) == old(self).spec_go_bottom(),
    {
        if self.items.len() > 0 {
            self.selected = Some(self.items.len() - 1);
        }
    }
}

/// Resolves one stored record for the list.
fn listed_item(c: &StoredConnection) -> (r: ConnectionItem)
    ensures
        r@ == listed_view(c@),
{
    c.duplicate().into_listed()
}

/// On a non-empty list with a selection, moving forward and then backward
/// returns to the very same state, and so does moving backward and then
/// forward: the two moves are mutually inverse, across the wrap boundary
/// included.
pub proof fn lemma_next_previous_inverse(l: StatefulList)
    requires
        l.wf(),
        l.items.len() > 0,
        l.selected is Some,
    ensures
        l.spec_next().spec_previous() == l,
        l.spec_previous().spec_next() == l,
{
}

/// Unselecting and then moving forward resumes at the remembered index:
/// the selection returns to where it was, not to the top.
pub proof fn lemma_unselect_next_resumes(l: StatefulList)
    requires
        l.wf(),
        l.selected is Some,
    ensures
        l.spec_unselect().spec_next().selected == l.selected,
{
}

} // verus!
