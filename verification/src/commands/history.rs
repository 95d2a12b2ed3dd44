//! Bounded undo/redo history of executed commands.

use vstd::prelude::*;

use crate::commands::command::CommandEnvelope;

verus! {

/// A command with the runtime state before and after it ran.
#[derive(Debug, Clone)]
pub struct UndoRecord<S> {
    pub command: CommandEnvelope,
    pub before: S,
    pub after: S,
}

/// `done` with `r` appended, dropping the oldest record when that would
/// exceed `capacity`.
pub open spec fn appended_within<S>(done: Seq<UndoRecord<S>>, r: UndoRecord<S>, capacity: nat) -> Seq<UndoRecord<S>> {
    if done.len() + 1 > capacity {
        done.push(r).drop_first()
    } else {
        done.push(r)
    }
}

/// Two stacks of records: `done` (undoable, newest last) and `undone`
/// (redoable, newest last). `done` never holds more than `capacity`
/// records.
#[derive(Debug, Clone)]
pub struct CommandHistory<S> {
    done: Vec<UndoRecord<S>>,
    undone: Vec<UndoRecord<S>>,
    capacity: usize,
}

/// Default number of undoable records.
pub const DEFAULT_HISTORY_CAPACITY: usize = 64;

impl<S> Default for CommandHistory<S> {
    fn default() -> (h: CommandHistory<S>)
        ensures
            h.wf(),
            h.done_records() == Seq::<UndoRecord<S>>::empty(),
            h.undone_records() == Seq::<UndoRecord<S>>::empty(),
            h.capacity() == DEFAULT_HISTORY_CAPACITY,
    {
        CommandHistory { done: Vec::new(), undone: Vec::new(), capacity: DEFAULT_HISTORY_CAPACITY }
    }
}

impl<S> CommandHistory<S> {
    /// Undoable records, oldest first.
    pub closed spec fn done_records(&self) -> Seq<UndoRecord<S>> {
        self.done@
    }

    /// Redoable records; the next one to redo is last.
    pub closed spec fn undone_records(&self) -> Seq<UndoRecord<S>> {
        self.undone@
    }

    pub closed spec fn capacity(&self) -> nat {
        self.capacity as nat
    }

    /// The bound on `done` holds.
    pub open spec fn wf(&self) -> bool {
        self.done_records().len() <= self.capacity()
    }

    pub fn with_capacity(capacity: usize) -> (h: CommandHistory<S>)
        ensures
            h.wf(),
            h.done_records() == Seq::<UndoRecord<S>>::empty(),
            h.undone_records() == Seq::<UndoRecord<S>>::empty(),
            h.capacity() == capacity,
    {
        CommandHistory { done: Vec::new(), undone: Vec::new(), capacity }
    }

    /// Record a newly executed command; anything redoable is forgotten.
    pub fn push(&mut self, record: UndoRecord<S>)
        requires
            old(self).wf(),
        ensures
            final(self).wf(),
            final(self).capacity() == old(self).capacity(),
            final(self).done_records() == appended_within(old(self).done_records(), record, old(self).capacity()),
            final(self).undone_records() == Seq::<UndoRecord<S>>::empty(),
    {
        self.done.push(record);
        self.undone.clear();
        if self.done.len() > self.capacity {
            self.done.remove(0);
        }
    }

    /// Take the newest undoable record.
    pub fn pop_undo(&mut self) -> (r: Option<UndoRecord<S>>)
        requires
            old(self).wf(),
        ensures
            final(self).wf(),
            final(self).capacity() == old(self).capacity(),
            final(self).undone_records() == old(self).undone_records(),
            old(self).done_records().len() == 0 ==> r is None && final(self).done_records()
                == old(self).done_records(),
            old(self).done_records().len() > 0 ==> r == Some(old(self).done_records().last())
                && final(self).done_records() == old(self).done_records().drop_last(),
    {
        self.done.pop()
    }

    pub fn push_redo(&mut self, record: UndoRecord<S>)
        requires
            old(self).wf(),
        ensures
            final(self).wf(),
            final(self).capacity() == old(self).capacity(),
            final(self).done_records() == old(self).done_records(),
            final(self).undone_records() == old(self).undone_records().push(record),
    {
        self.undone.push(record);
    }

    /// Take the next redoable record.
    pub fn pop_redo(&mut self) -> (r: Option<UndoRecord<S>>)
        requires
            old(self).wf(),
        ensures
            final(self).wf(),
            final(self).capacity() == old(self).capacity(),
            final(self).done_records() == old(self).done_records(),
            old(self).undone_records().len() == 0 ==> r is None && final(self).undone_records()
                == old(self).undone_records(),
            old(self).undone_records().len() > 0 ==> r == Some(old(self).undone_records().last())
                && final(self).undone_records() == old(self).undone_records().drop_last(),
    {
        self.undone.pop()
    }

    /// Record a redone command without forgetting what else is redoable.
    pub fn push_done_without_clearing_redo(&mut self, record: UndoRecord<S>)
        requires
            old(self).wf(),
        ensures
            final(self).wf(),
            final(self).capacity() == old(self).capacity(),
            final(self).done_records() == appended_within(old(self).done_records(), record, old(self).capacity()),
            final(self).undone_records() == old(self).undone_records(),
    {
        self.done.push(record);
        if self.done.len() > self.capacity {
            self.done.remove(0);
        }
    }

    pub fn clear(&mut self)
        ensures
            final(self).wf(),
            final(self).capacity() == old(self).capacity(),
            final(self).done_records() == Seq::<UndoRecord<S>>::empty(),
            final(self).undone_records() == Seq::<UndoRecord<S>>::empty(),
    {
        self.done.clear();
        self.undone.clear();
    }

    pub fn can_undo(&self) -> (b: bool)
        ensures
            b == (self.done_records().len() > 0),
    {
        !self.done.is_empty()
    }

    pub fn can_redo(&self) -> (b: bool)
        ensures
            b == (self.undone_records().len() > 0),
    {
        !self.undone.is_empty()
    }

    /// Number of undoable records.
    pub fn len(&self) -> (n: usize)
        ensures
            n == self.done_records().len(),
    {
        self.done.len()
    }

    pub fn is_empty(&self) -> (b: bool)
        ensures
            b == (self.done_records().len() == 0),
    {
        self.done.is_empty()
    }

    /// Number of redoable records.
    pub fn undone_len(&self) -> (n: usize)
        ensures
            n == self.undone_records().len(),
    {
        self.undone.len()
    }

    /// The undoable records, oldest first.
    pub fn command_history(&self) -> (s: &[UndoRecord<S>])
        ensures
            s@ == self.done_records(),
    {
        self.done.as_slice()
    }
}

/// Appending within a bound keeps the history within it, and the appended
/// record is the newest one whenever the bound is positive.
pub proof fn law_append_stays_bounded<S>(done: Seq<UndoRecord<S>>, r: UndoRecord<S>, capacity: nat)
    requires
        done.len() <= capacity,
    ensures
        appended_within(done, r, capacity).len() <= capacity,
        capacity > 0 ==> appended_within(done, r, capacity).last() == r,
        capacity > 0 ==> appended_within(done, r, capacity).drop_last() == (if done.len() == capacity {
            done.drop_first()
        } else {
            done
        }),
{
    if capacity > 0 && done.len() == capacity {
        assert(done.push(r).drop_first().drop_last() =~= done.drop_first());
    }
    if done.len() < capacity {
        assert(done.push(r).drop_last() =~= done);
    }
}

/// Undoing the newest record and then redoing it gives back both stacks
/// exactly as they were.
pub proof fn law_undo_then_redo_restores<S>(done: Seq<UndoRecord<S>>, undone: Seq<UndoRecord<S>>, capacity: nat)
    requires
        done.len() > 0,
        done.len() <= capacity,
    ensures
        ({
            let r = done.last();
            let done_after_undo = done.drop_last();
            let undone_after_undo = undone.push(r);
            &&& undone_after_undo.last() == r
            &&& appended_within(done_after_undo, undone_after_undo.last(), capacity) == done
            &&& undone_after_undo.drop_last() == undone
        }),
{
    assert(done.drop_last().push(done.last()) =~= done);
    assert(undone.push(done.last()).drop_last() =~= undone);
}

/// Redoing the next record and then undoing it gives back both stacks
/// exactly as they were, as long as the undo stack was not full (a full
/// stack drops its oldest record on the redo).
pub proof fn law_redo_then_undo_restores<S>(done: Seq<UndoRecord<S>>, undone: Seq<UndoRecord<S>>, capacity: nat)
    requires
        undone.len() > 0,
        done.len() < capacity,
    ensures
        ({
            let r = undone.last();
            let done_after_redo = appended_within(done, r, capacity);
            let undone_after_redo = undone.drop_last();
            &&& done_after_redo.last() == r
            &&& done_after_redo.drop_last() == done
            &&& undone_after_redo.push(done_after_redo.last()) == undone
        }),
{
    assert(done.push(undone.last()).drop_last() =~= done);
    assert(undone.drop_last().push(undone.last()) =~= undone);
}

} // verus!
