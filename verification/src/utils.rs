//! Older undo/redo history variant.
//!
//! Same container as [`crate::collections::UndoHistory`] except for `clear`,
//! which here collapses the history to its *oldest* entry instead of the
//! current one.

use vstd::prelude::*;
use crate::collections::HistoryModel;

verus! {

/// State after collapsing a history to its oldest entry alone.
pub open spec fn cleared_to_oldest<T>(m: HistoryModel<T>) -> HistoryModel<T> {
    HistoryModel { entries: m.entries.take(1), cursor: 1, ..m }
}

/// After this variant's `clear` the history holds its oldest entry alone, so
/// there is nothing left to undo or redo.
pub proof fn lemma_clear_to_oldest_no_history<T>(m: HistoryModel<T>)
    requires
        m.wf(),
    ensures
        cleared_to_oldest(m).wf(),
        cleared_to_oldest(m).current() == m.entries[0],
        cleared_to_oldest(m).undo_result() is None,
        cleared_to_oldest(m).redo_result() is None,
{
}

/// Bounded undo/redo container that keeps the oldest entry on `clear`.
pub struct UndoHistory<T> {
    history: Vec<T>,
    next_index: usize,
    capacity: usize,
}

impl<T> View for UndoHistory<T> {
    type V = HistoryModel<T>;

    closed spec fn view(&self) -> HistoryModel<T> {
        HistoryModel {
            entries: self.history@,
            cursor: self.next_index as int,
            capacity: self.capacity as int,
        }
    }
}

impl<T> UndoHistory<T> {
    /// Creates a history that holds at most `capacity` snapshots and starts
    /// with `initial` as its only entry.
    pub fn new(capacity: usize, initial: T) -> (h: Self)
        requires
            capacity >= 1,
        ensures
            h@.wf(),
            h@.capacity == capacity,
            h@.entries == seq![initial],
            h@.cursor == 1,
    {
        let mut history: Vec<T> = Vec::new();
        history.push(initial);

        let h = Self { history, next_index: 1, capacity };
        proof {
            assert(h@.entries =~= seq![initial]);
        }
        h
    }

    /// Number of snapshots currently stored.
    pub fn len(&self) -> (n: usize)
        ensures
            n == self@.entries.len(),
    {
        self.history.len()
    }

    /// The capacity the history was created with.
    pub fn capacity(&self) -> (n: usize)
        ensures
            n == self@.capacity,
    {
        self.capacity
    }

    /// The 1-based cursor; the entry at `cursor - 1` is the current value.
    pub fn next_index(&self) -> (n: usize)
        ensures
            n == self@.cursor,
    {
        self.next_index
    }

    /// The stored snapshot at position `i`.
    pub fn get(&self, i: usize) -> (v: &T)
        requires
            i < self@.entries.len(),
        ensures
            *v == self@.entries[i as int],
    {
        &self.history[i]
    }

    /// Steps the cursor one entry back and returns the value that thereby
    /// becomes current; `None` (and no change) when there is nothing to undo.
    pub fn undo(&mut self) -> (r: Option<&T>)
        requires
            old(self)@.wf(),
        ensures
            final(self)@.wf(),
            final(self)@ == old(self)@.undone(),
            match r {
                Some(v) => old(self)@.undo_result() == Some(*v),
                None => old(self)@.undo_result() is None,
            },
    {
        if self.next_index <= 1 {
            return None;
        }

        self.next_index -= 1;

        Some(&self.history[self.next_index - 1])
    }

    /// Steps the cursor one entry forward and returns the value that thereby
    /// becomes current; `None` (and no change) when there is nothing to redo.
    pub fn redo(&mut self) -> (r: Option<&T>)
        requires
            old(self)@.wf(),
        ensures
            final(self)@.wf(),
            final(self)@ == old(self)@.redone(),
            match r {
                Some(v) => old(self)@.redo_result() == Some(*v),
                None => old(self)@.redo_result() is None,
            },
    {
        if self.next_index == self.history.len() {
            return None;
        }

        let value = &self.history[self.next_index];

        self.next_index += 1;

        Some(value)
    }

    /// Makes `value` the current entry: discards everything after the cursor,
    /// then appends, evicting the oldest entry when the history is full.
    pub fn commit_change(&mut self, value: T)
        requires
            old(self)@.wf(),
        ensures
            final(self)@.wf(),
            final(self)@ == old(self)@.committed(value),
            final(self)@.current() == value,
    {
        self.history.truncate(self.next_index);

        if self.history.len() == self.capacity {
            self.history.remove(0);
        } else {
            self.next_index += 1;
        }

        self.history.push(value);

        proof {
            assert(self@.entries =~= old(self)@.committed(value).entries);
        }
    }

    /// The value under the cursor; a history is never empty, so this is total.
    pub fn current(&mut self) -> (v: &T)
        requires
            old(self)@.wf(),
        ensures
            final(self)@ == old(self)@,
            *v == old(self)@.current(),
    {
        &self.history[self.next_index - 1]
    }

    /// Collapses the history to a single entry holding the oldest stored value
    /// and resets the cursor.
    pub fn clear(&mut self)
        requires
            old(self)@.wf(),
        ensures
            final(self)@.wf(),
            final(self)@ == cleared_to_oldest(old(self)@),
    {
        self.history.truncate(1);
        self.next_index = 1;
    }

    /// Collapses the history to a single entry holding `value` and resets the
    /// cursor.
    pub fn clear_with_new_initial(&mut self, initial_value: T)
        requires
            old(self)@.wf(),
        ensures
            final(self)@.wf(),
            final(self)@ == old(self)@.cleared_with(initial_value),
    {
        self.history.clear();
        self.history.push(initial_value);
        self.next_index = 1;

        proof {
            assert(self@.entries =~= old(self)@.cleared_with(initial_value).entries);
        }
    }
}

} // verus!
