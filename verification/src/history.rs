//! The history itself: an undo stack and a redo stack of edits under one
//! bound, with merge on push.

use crate::change::HistoryChange;
use crate::laws::{law_merge_keeps_well_formed, law_well_formed_inverse_fits};
use crate::model::{ChangeModel, HistoryModel};
use vstd::prelude::*;

verus! {

/// The number of edits that [`History::new`] retains.
pub const DEFAULT_MAX_SIZE: usize = 100;

struct HistoryEntry {
    change: HistoryChange,
}

/// A log of edits that can be undone and redone. It holds no reference to
/// the buffer: the host applies what `undo` and `redo` hand out.
pub struct History {
    undo_stack: Vec<HistoryEntry>,
    redo_stack: Vec<HistoryEntry>,
    max_size: usize,
}

/// The edits that a stack of entries holds, bottom first.
spec fn changes(stack: Seq<HistoryEntry>) -> Seq<ChangeModel> {
    stack.map_values(|entry: HistoryEntry| entry.change@)
}

impl View for History {
    type V = HistoryModel;

    closed spec fn view(&self) -> HistoryModel {
        HistoryModel {
            undo: changes(self.undo_stack@),
            redo: changes(self.redo_stack@),
            max_size: self.max_size as nat,
        }
    }
}

impl History {
    /// The invariant of the history: see [`HistoryModel::well_formed`].
    pub open spec fn well_formed(&self) -> bool {
        self@.well_formed()
    }

    /// An empty history that retains [`DEFAULT_MAX_SIZE`] edits.
    pub fn new() -> (history: Self)
        ensures
            history.well_formed(),
            history@ == HistoryModel::empty(DEFAULT_MAX_SIZE as nat),
    {
        Self::with_capacity(DEFAULT_MAX_SIZE)
    }

    /// An empty history that retains at most `max_size` edits.
    pub fn with_capacity(max_size: usize) -> (history: Self)
        ensures
            history.well_formed(),
            history@ == HistoryModel::empty(max_size as nat),
    {
        Self { undo_stack: Vec::new(), redo_stack: Vec::new(), max_size }
    }

    /// Records `change` as the newest edit.
    pub fn push(&mut self, change: HistoryChange)
        requires
            old(self).well_formed(),
            change@.well_formed(),
        ensures
            final(self).well_formed(),
            final(self)@ == old(self)@.push(change@),
    {
        self.redo_stack.clear();
        let depth: usize = self.undo_stack.len();
        if depth > 0 {
            let top = &self.undo_stack[depth - 1];
            if top.change.can_merge_with(&change) {
                if let Some(merged) = top.change.merge_with(&change) {
                    proof {
                        law_merge_keeps_well_formed(top.change@, change@);
                    }
                    self.undo_stack[depth - 1] = HistoryEntry { change: merged };
                    assert(self@ =~= old(self)@.push(change@));
                    return ;
                }
            }
        }
        self.undo_stack.push(HistoryEntry { change });
        if self.undo_stack.len() > self.max_size {
            self.undo_stack.remove(0);
        }
        assert(self@ =~= old(self)@.push(change@));
    }

    /// Takes back the newest edit: hands out its inverse for the host to
    /// apply, or `None` when there is nothing to undo.
    pub fn undo(&mut self) -> (reverse: Option<HistoryChange>)
        requires
            old(self).well_formed(),
        ensures
            final(self).well_formed(),
            final(self)@ == old(self)@.undo().0,
            reverse is Some <==> old(self)@.undo.len() > 0,
            match reverse {
                Some(change) => old(self)@.undo().1 == Some(change@),
                None => old(self)@.undo().1 is None,
            },
    {
        if let Some(entry) = self.undo_stack.pop() {
            proof {
                law_well_formed_inverse_fits(entry.change@);
            }
            let reverse = entry.change.inverse();
            self.redo_stack.push(entry);
            assert(self@ =~= old(self)@.undo().0);
            Some(reverse)
        } else {
            None
        }
    }

    /// Brings back the edit undone last: hands it out as it was recorded for
    /// the host to apply again, or `None` when there is nothing to redo.
    pub fn redo(&mut self) -> (forward: Option<HistoryChange>)
        requires
            old(self).well_formed(),
        ensures
            final(self).well_formed(),
            final(self)@ == old(self)@.redo().0,
            forward is Some <==> old(self)@.redo.len() > 0,
            match forward {
                Some(change) => old(self)@.redo().1 == Some(change@),
                None => old(self)@.redo().1 is None,
            },
    {
        if let Some(entry) = self.redo_stack.pop() {
            self.undo_stack.push(HistoryEntry { change: entry.change.clone() });
            assert(self@ =~= old(self)@.redo().0);
            Some(entry.change)
        } else {
            None
        }
    }

    /// Forgets every edit; the bound stays.
    pub fn clear(&mut self)
        ensures
            final(self).well_formed(),
            final(self)@ == old(self)@.clear(),
    {
        self.undo_stack.clear();
        self.redo_stack.clear();
    }
}

} // verus!
