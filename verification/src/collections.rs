//! Bounded undo/redo history.
//!
//! A history holds up to `capacity` snapshots together with a cursor; the
//! element under the cursor is the current value.  Committing after an undo
//! discards the abandoned future, and committing at capacity evicts the oldest
//! snapshot while the cursor keeps pointing at the newest one.

use vstd::prelude::*;

verus! {

/// Mathematical model of a history: the stored snapshots, the 1-based cursor,
/// and the capacity bound.
pub struct HistoryModel<T> {
    pub entries: Seq<T>,
    pub cursor: int,
    pub capacity: int,
}

impl<T> HistoryModel<T> {
    /// Every reachable history satisfies this: at least one entry, the cursor
    /// inside the entries, never more entries than the capacity allows.
    pub open spec fn wf(self) -> bool {
        &&& self.capacity >= 1
        &&& 1 <= self.cursor <= self.entries.len()
        &&& self.entries.len() <= self.capacity
    }

    /// The value the cursor points at.
    pub open spec fn current(self) -> T {
        self.entries[self.cursor - 1]
    }

    /// State after committing `value`: the redo tail is discarded, then either
    /// the oldest entry is evicted (at capacity, cursor unchanged) or `value`
    /// is appended (cursor advances).
    pub open spec fn committed(self, value: T) -> HistoryModel<T> {
        let kept = self.entries.take(self.cursor);
        if kept.len() == self.capacity {
            HistoryModel { entries: kept.skip(1).push(value), ..self }
        } else {
            HistoryModel { entries: kept.push(value), cursor: self.cursor + 1, ..self }
        }
    }

    /// State after an undo; a no-op when there is nothing before the cursor.
    pub open spec fn undone(self) -> HistoryModel<T> {
        if self.cursor <= 1 {
            self
        } else {
            HistoryModel { cursor: self.cursor - 1, ..self }
        }
    }

    /// What undo reports: the newly current value, or `None` at the far end.
    pub open spec fn undo_result(self) -> Option<T> {
        if self.cursor <= 1 {
            None
        } else {
            Some(self.entries[self.cursor - 2])
        }
    }

    /// State after a redo; a no-op when the cursor is already at the newest entry.
    pub open spec fn redone(self) -> HistoryModel<T> {
        if self.cursor == self.entries.len() {
            self
        } else {
            HistoryModel { cursor: self.cursor + 1, ..self }
        }
    }

    /// What redo reports: the newly current value, or `None` at the newest entry.
    pub open spec fn redo_result(self) -> Option<T> {
        if self.cursor == self.entries.len() {
            None
        } else {
            Some(self.entries[self.cursor])
        }
    }

    /// State after collapsing the history to its current value alone.
    pub open spec fn cleared(self) -> HistoryModel<T> {
        HistoryModel { entries: seq![self.current()], cursor: 1, ..self }
    }

    /// State after collapsing the history to the given value alone.
    pub open spec fn cleared_with(self, value: T) -> HistoryModel<T> {
        HistoryModel { entries: seq![value], cursor: 1, ..self }
    }

    /// State after committing every value of `vs` in order.
    pub open spec fn committed_all(self, vs: Seq<T>) -> HistoryModel<T>
        decreases vs.len(),
    {
        if vs.len() == 0 {
            self
        } else {
            self.committed(vs[0]).committed_all(vs.skip(1))
        }
    }
}

/// An undo directly followed by a redo is an identity: the history and in
/// particular its current value are exactly what they were before, provided
/// the undo had something to step back to.
pub proof fn lemma_undo_then_redo<T>(m: HistoryModel<T>)
    requires
        m.wf(),
        m.cursor > 1,
    ensures
        m.undone().redone() == m,
        m.undone().redo_result() == Some(m.current()),
{
}

/// After a commit the committed value is current, nothing is left to redo
/// (committing discards the abandoned future, so entries that were redoable
/// before an earlier undo are unreachable), and an undo steps back to the
/// previously current value whenever the capacity leaves room for two entries.
pub proof fn lemma_commit_then_undo<T>(m: HistoryModel<T>, value: T)
    requires
        m.wf(),
    ensures
        m.committed(value).wf(),
        m.committed(value).current() == value,
        m.committed(value).redo_result() is None,
        m.capacity > 1 ==> m.committed(value).undo_result() == Some(m.current()),
{
    let c = m.committed(value);
    let kept = m.entries.take(m.cursor);
    if kept.len() == m.capacity {
        assert(c.entries[c.cursor - 1] == value);
        if m.capacity > 1 {
            assert(c.entries[c.cursor - 2] == kept.skip(1)[m.cursor - 2]);
            assert(kept.skip(1)[m.cursor - 2] == m.entries[m.cursor - 1]);
        }
    } else {
        assert(c.entries[c.cursor - 1] == value);
        if m.capacity > 1 {
            assert(c.entries[c.cursor - 2] == kept[m.cursor - 1]);
        }
    }
}

/// A cleared history still holds its current value, but has nothing left to
/// undo or redo: a single-entry history has no history.
pub proof fn lemma_clear_no_history<T>(m: HistoryModel<T>)
    requires
        m.wf(),
    ensures
        m.cleared().wf(),
        m.cleared().current() == m.current(),
        m.cleared().undo_result() is None,
        m.cleared().redo_result() is None,
{
}

/// Commits never let the history outgrow its capacity, and once more values
/// than the capacity have been committed, the oldest surviving entry is
/// exactly the `(n - capacity + 1)`-th committed value (1-based): the window
/// of entries slides over the committed values.
pub proof fn lemma_commit_window<T>(capacity: int, initial: T, vs: Seq<T>)
    requires
        capacity >= 1,
        vs.len() >= capacity,
    ensures
        ({
            let start = HistoryModel { entries: seq![initial], cursor: 1, capacity };
            let r = start.committed_all(vs);
            &&& r.entries.len() == capacity
            &&& r.entries == vs.subrange(vs.len() - capacity, vs.len() as int)
            &&& r.entries[0] == vs[vs.len() - capacity]
        }),
{
    let start = HistoryModel { entries: seq![initial], cursor: 1, capacity };
    lemma_committed_all_from_full(start, vs);
    let r = start.committed_all(vs);
    let all = start.entries + vs;
    let skip = if start.entries.len() + vs.len() - capacity >= 0 {
        start.entries.len() + vs.len() - capacity
    } else {
        0
    };
    assert(skip == 1 + vs.len() - capacity);
    assert(r.entries =~= vs.subrange(vs.len() - capacity, vs.len() as int));
}

/// Helper for [`lemma_commit_window`]: from a state whose cursor sits on the
/// newest entry, committing `vs` keeps the cursor on the newest entry and
/// leaves exactly the last `capacity` (or fewer) of the old entries followed
/// by `vs`.
pub proof fn lemma_committed_all_from_full<T>(m: HistoryModel<T>, vs: Seq<T>)
    requires
        m.wf(),
        m.cursor == m.entries.len(),
    ensures
        ({
            let r = m.committed_all(vs);
            let over = m.entries.len() + vs.len() - m.capacity;
            let skip = if over >= 0 { over } else { 0 };
            &&& r.wf()
            &&& r.capacity == m.capacity
            &&& r.cursor == r.entries.len()
            &&& r.entries == (m.entries + vs).skip(skip)
        }),
    decreases vs.len(),
{
    let r = m.committed_all(vs);
    let over = m.entries.len() + vs.len() - m.capacity;
    let skip = if over >= 0 { over } else { 0 };
    if vs.len() == 0 {
        assert(r.entries =~= (m.entries + vs).skip(skip));
    } else {
        let m1 = m.committed(vs[0]);
        let kept = m.entries.take(m.cursor);
        assert(kept =~= m.entries);
        lemma_committed_all_from_full(m1, vs.skip(1));
        let over1 = m1.entries.len() + vs.skip(1).len() - m.capacity;
        let skip1 = if over1 >= 0 { over1 } else { 0 };
        if m.entries.len() == m.capacity {
            assert(m1.entries =~= m.entries.skip(1).push(vs[0]));
            assert(m1.entries + vs.skip(1) =~= (m.entries + vs).skip(1));
            assert((m1.entries + vs.skip(1)).skip(skip1) =~= (m.entries + vs).skip(skip));
        } else {
            assert(m1.entries =~= m.entries.push(vs[0]));
            assert(m1.entries + vs.skip(1) =~= m.entries + vs);
            assert(skip1 == skip);
        }
        assert(r.entries =~= (m.entries + vs).skip(skip));
    }
}

/// Bounded undo/redo container over arbitrary snapshot values.
pub struct UndoHistory<T> {
    history: Vec<T>,
    next_index: usize,
    capacity: usize,
}

impl<T> View for UndoHistory<T> {
    type V = HistoryModel<T>;

    closed spec fn view(&self) -> HistoryModel<T> {
        HistoryModel {
            entries: self.history@,
            cursor: self.next_index as int,
            capacity: self.capacity as int,
        }
    }
}

impl<T> UndoHistory<T> {
    /// Creates a history that holds at most `capacity` snapshots and starts
    /// with `initial` as its only entry.
    pub fn new(capacity: usize, initial: T) -> (h: Self)
        requires
            capacity >= 1,
        ensures
            h@.wf(),
            h@.capacity == capacity,
            h@.entries == seq![initial],
            h@.cursor == 1,
    {
        let mut history: Vec<T> = Vec::new();
        history.push(initial);

        let h = Self { history, next_index: 1, capacity };
        proof {
            assert(h@.entries =~= seq![initial]);
        }
        h
    }

    /// Number of snapshots currently stored.
    pub fn len(&self) -> (n: usize)
        ensures
            n == self@.entries.len(),
    {
        self.history.len()
    }

    /// The capacity the history was created with.
    pub fn capacity(&self) -> (n: usize)
        ensures
            n == self@.capacity,
    {
        self.capacity
    }

    /// The 1-based cursor; the entry at `cursor - 1` is the current value.
    pub fn next_index(&self) -> (n: usize)
        ensures
            n == self@.cursor,
    {
        self.next_index
    }

    /// The stored snapshot at position `i`.
    pub fn get(&self, i: usize) -> (v: &T)
        requires
            i < self@.entries.len(),
        ensures
            *v == self@.entries[i as int],
    {
        &self.history[i]
    }

    /// Steps the cursor one entry back and returns the value that thereby
    /// becomes current; `None` (and no change) when there is nothing to undo.
    pub fn undo(&mut self) -> (r: Option<&T>)
        requires
            old(self)@.wf(),
        ensures
            final(self)@.wf(),
            final(self)@ == old(self)@.undone(),
            match r {
                Some(v) => old(self)@.undo_result() == Some(*v),
                None => old(self)@.undo_result() is None,
            },
    {
        if self.next_index <= 1 {
            return None;
        }

        self.next_index -= 1;

        Some(&self.history[self.next_index - 1])
    }

    /// Steps the cursor one entry forward and returns the value that thereby
    /// becomes current; `None` (and no change) when there is nothing to redo.
    pub fn redo(&mut self) -> (r: Option<&T>)
        requires
            old(self)@.wf(),
        ensures
            final(self)@.wf(),
            final(self)@ == old(self)@.redone(),
            match r {
                Some(v) => old(self)@.redo_result() == Some(*v),
                None => old(self)@.redo_result() is None,
            },
    {
        if self.next_index == self.history.len() {
            return None;
        }

        let value = &self.history[self.next_index];

        self.next_index += 1;

        Some(value)
    }

    /// Makes `value` the current entry: discards everything after the cursor,
    /// then appends, evicting the oldest entry when the history is full.
    pub fn commit_change(&mut self, value: T)
        requires
            old(self)@.wf(),
        ensures
            final(self)@.wf(),
            final(self)@ == old(self)@.committed(value),
            final(self)@.current() == value,
    {
        self.history.truncate(self.next_index);

        if self.history.len() == self.capacity {
            self.history.remove(0);
        } else {
            self.next_index += 1;
        }

        self.history.push(value);

        proof {
            assert(self@.entries =~= old(self)@.committed(value).entries);
        }
    }

    /// The value under the cursor; a history is never empty, so this is total.
    pub fn current(&mut self) -> (v: &T)
        requires
            old(self)@.wf(),
        ensures
            final(self)@ == old(self)@,
            *v == old(self)@.current(),
    {
        &self.history[self.next_index - 1]
    }

    /// Collapses the history to a single entry holding the current value and
    /// resets the cursor.
    pub fn clear(&mut self)
        requires
            old(self)@.wf(),
        ensures
            final(self)@.wf(),
            final(self)@ == old(self)@.cleared(),
    {
        let keep = self.history.remove(self.next_index - 1);
        self.history.clear();
        self.history.push(keep);
        self.next_index = 1;

        proof {
            assert(self@.entries =~= old(self)@.cleared().entries);
        }
    }

    /// Collapses the history to a single entry holding `value` and resets the
    /// cursor.
    pub fn clear_with_new_initial(&mut self, initial_value: T)
        requires
            old(self)@.wf(),
        ensures
            final(self)@.wf(),
            final(self)@ == old(self)@.cleared_with(initial_value),
    {
        self.history.clear();
        self.history.push(initial_value);
        self.next_index = 1;

        proof {
            assert(self@.entries =~= old(self)@.cleared_with(initial_value).entries);
        }
    }
}

} // verus!
