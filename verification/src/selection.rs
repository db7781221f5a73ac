//! An ordered list with an optional cursor that wraps around at both ends.

use vstd::prelude::*;

verus! {

/// Where the cursor stands after one step forward in a list of `len` items.
///
/// Nothing can be selected in an empty list. Otherwise a missing cursor goes
/// to the first item, and the last item is followed by the first.
pub open spec fn cursor_after_next(len: nat, cursor: Option<int>) -> Option<int> {
    if len == 0 {
        None
    } else {
        match cursor {
            None => Some(0),
            Some(i) => if i + 1 >= len {
                Some(0)
            } else {
                Some(i + 1)
            },
        }
    }
}

/// Where the cursor stands after one step backward in a list of `len` items.
///
/// Nothing can be selected in an empty list. Otherwise a missing cursor goes
/// to the first item, and the first item is preceded by the last.
pub open spec fn cursor_after_previous(len: nat, cursor: Option<int>) -> Option<int> {
    if len == 0 {
        None
    } else {
        match cursor {
            None => Some(0),
            Some(i) => if i <= 0 {
                Some(len - 1)
            } else {
                Some(i - 1)
            },
        }
    }
}

/// The mathematical content of a [`StatefulList`]: its items in order and the
/// position of the cursor, if there is one.
#[verifier::ext_equal]
pub struct Selection<T> {
    pub items: Seq<T>,
    pub cursor: Option<int>,
}

impl<T> Selection<T> {
    /// The cursor, where there is one, points at an item.
    pub open spec fn wf(self) -> bool {
        self.cursor matches Some(i) ==> 0 <= i < self.items.len()
    }

    /// The list over `items` with nothing selected.
    pub open spec fn unselected(items: Seq<T>) -> Self {
        Selection { items, cursor: None }
    }

    pub open spec fn next(self) -> Self {
        Selection { items: self.items, cursor: cursor_after_next(self.items.len(), self.cursor) }
    }

    pub open spec fn previous(self) -> Self {
        Selection {
            items: self.items,
            cursor: cursor_after_previous(self.items.len(), self.cursor),
        }
    }

    pub open spec fn unselect(self) -> Self {
        Selection { items: self.items, cursor: None }
    }

    /// The item under the cursor.
    pub open spec fn selected(self) -> Option<T> {
        match self.cursor {
            Some(i) => Some(self.items[i]),
            None => None,
        }
    }

    /// The list with the cursor placed on `index`.
    pub open spec fn at(self, index: int) -> Self {
        Selection { items: self.items, cursor: Some(index) }
    }

    /// `n` steps forward, one after the other.
    pub open spec fn next_times(self, n: nat) -> Self
        decreases n,
    {
        if n == 0 {
            self
        } else {
            self.next_times((n - 1) as nat).next()
        }
    }
}

/// A list of items of which at most one is selected.
///
/// The cursor never points past the end of the list, and an empty list has no
/// cursor at all.
pub struct StatefulList<T> {
    pub(crate) items: Vec<T>,
    pub(crate) selected: Option<usize>,
}

impl<T> View for StatefulList<T> {
    type V = Selection<T>;

    open(crate) spec fn view(&self) -> Selection<T> {
        Selection {
            items: self.items@,
            cursor: match self.selected {
                Some(i) => Some(i as int),
                None => None,
            },
        }
    }
}

impl<T> StatefulList<T> {
    #[verifier::type_invariant]
    pub(crate) open spec fn cursor_in_bounds(&self) -> bool {
        match self.selected {
            Some(i) => i < self.items@.len(),
            None => true,
        }
    }

    /// A list over `items` with nothing selected.
    pub fn with_items(items: Vec<T>) -> (list: StatefulList<T>)
        ensures
            list@ == Selection::unselected(items@),
            list@.wf(),
    {
        StatefulList { items, selected: None }
    }

    /// Moves the cursor one item forward, from the last item to the first.
    /// Without a cursor the first item is selected. An empty list stays as it
    /// is.
    pub fn next(&mut self)
        ensures
            final(self)@ == old(self)@.next(),
            final(self)@.wf(),
    {
        proof {
            use_type_invariant(&*self);
        }
        let len = self.items.len();
        if len > 0 {
            let i: usize = match self.selected {
                Some(i) => if i >= len - 1 {
                    0
                } else {
                    i + 1
                },
                None => 0,
            };
            self.selected = Some(i);
        }
    }

    /// Moves the cursor one item backward, from the first item to the last.
    /// Without a cursor the first item is selected. An empty list stays as it
    /// is.
    pub fn previous(&mut self)
        ensures
            final(self)@ == old(self)@.previous(),
            final(self)@.wf(),
    {
        proof {
            use_type_invariant(&*self);
        }
        let len = self.items.len();
        if len > 0 {
            let i: usize = match self.selected {
                Some(i) => if i == 0 {
                    len - 1
                } else {
                    i - 1
                },
                None => 0,
            };
            self.selected = Some(i);
        }
    }

    /// Removes the cursor. The items stay as they are.
    pub fn unselect(&mut self)
        ensures
            final(self)@ == old(self)@.unselect(),
            final(self)@.wf(),
    {
        self.selected = None;
    }

    /// The item under the cursor, if there is a cursor.
    pub fn selected(&self) -> (item: Option<&T>)
        ensures
            self@.wf(),
            match item {
                Some(t) => self@.selected() == Some(*t),
                None => self@.selected() is None,
            },
    {
        proof {
            use_type_invariant(self);
        }
        match self.selected {
            Some(i) => Some(&self.items[i]),
            None => None,
        }
    }

    /// The position of the cursor, if there is a cursor.
    pub fn selected_index(&self) -> (index: Option<usize>)
        ensures
            self@.wf(),
            match index {
                Some(i) => self@.cursor == Some(i as int),
                None => self@.cursor is None,
            },
    {
        proof {
            use_type_invariant(self);
        }
        self.selected
    }

    /// The items in order.
    pub fn items(&self) -> (items: &Vec<T>)
        ensures
            items@ == self@.items,
    {
        &self.items
    }

    /// The number of items.
    pub fn len(&self) -> (len: usize)
        ensures
            len == self@.items.len(),
    {
        self.items.len()
    }
}

/// No operation moves the cursor off the list.
pub proof fn lemma_operations_keep_cursor_in_bounds<T>(list: Selection<T>)
    requires
        list.wf(),
    ensures
        list.next().wf(),
        list.previous().wf(),
        list.unselect().wf(),
{
}

/// In a list that is not empty, a step forward without a cursor selects the
/// first item.
pub proof fn lemma_next_without_cursor_selects_first<T>(list: Selection<T>)
    requires
        list.items.len() > 0,
    ensures
        list.unselect().next().cursor == Some(0int),
{
}

/// In a list that is not empty, a step backward from the first item selects
/// the last one.
pub proof fn lemma_previous_from_first_selects_last<T>(list: Selection<T>)
    requires
        list.items.len() > 0,
    ensures
        list.at(0).previous().cursor == Some(list.items.len() - 1),
{
}

/// From the item at `index`, `n` steps forward lead to the item `n` places
/// further on, counted round the list.
pub proof fn lemma_next_times_counts_round<T>(list: Selection<T>, index: int, n: nat)
    requires
        0 <= index < list.items.len(),
    ensures
        list.at(index).next_times(n) == list.at((index + n) % (list.items.len() as int)),
    decreases n,
{
    let len = list.items.len() as int;
    if n == 0 {
        assert(index % len == index) by (nonlinear_arith)
            requires
                0 <= index < len,
        ;
    } else {
        let m = (n - 1) as nat;
        lemma_next_times_counts_round(list, index, m);
        let before = (index + m) % len;
        assert(0 <= before < len && (index + m + 1) % len == if before + 1 >= len {
            0
        } else {
            before + 1
        }) by (nonlinear_arith)
            requires
                before == (index + m) % len,
                0 <= index + m,
                len > 0,
        ;
    }
}

/// As many steps forward as the list has items lead back to where they
/// started. From the first item of a list of `N` items, `N` steps return to the
/// first item.
pub proof fn lemma_full_round_returns<T>(list: Selection<T>, index: int)
    requires
        0 <= index < list.items.len(),
    ensures
        list.at(index).next_times(list.items.len()) == list.at(index),
{
    let len = list.items.len() as int;
    lemma_next_times_counts_round(list, index, list.items.len());
    assert((index + len) % len == index) by (nonlinear_arith)
        requires
            0 <= index < len,
    ;
}

/// A step backward undoes a step forward, and a step forward a step
/// backward, wherever the cursor points at an item.
pub proof fn lemma_previous_undoes_next<T>(list: Selection<T>)
    requires
        list.wf(),
        list.cursor is Some,
    ensures
        list.next().previous() == list,
        list.previous().next() == list,
{
}

/// Whatever was selected, nothing is selected once the cursor is removed.
pub proof fn lemma_unselect_selects_nothing<T>(list: Selection<T>)
    ensures
        list.unselect().selected() is None,
{
}

/// An empty list stays as it is, whichever way the cursor is moved.
pub proof fn lemma_empty_list_ignores_moves<T>(list: Selection<T>)
    requires
        list.wf(),
        list.items.len() == 0,
    ensures
        list.next() == list,
        list.previous() == list,
        list.cursor is None,
{
}

} // verus!
