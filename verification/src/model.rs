//! The mathematical model of the engine: an edit as a value over sequences
//! and natural numbers, and the history as two sequences of edits with a
//! bound. Every contract of the executable code is stated over these.

use crate::change::{ChangeType, INSERT_MERGE_GAP};
use crate::text::{byte_len, text_bytes};
use vstd::prelude::*;

verus! {

/// What a [`crate::change::HistoryChange`] stands for: its kind, its texts and
/// the half-open range `[start, end)` of buffer offsets.
#[verifier::ext_equal]
pub enum ChangeModel {
    /// `text` was put into the buffer at `start`.
    Insert { text: Seq<char>, start: nat, end: nat },
    /// `text` was taken out of the buffer at `start`.
    Delete { text: Seq<char>, start: nat, end: nat },
    /// `old_text` at `start` gave way to `new_text`.
    Replace { old_text: Seq<char>, new_text: Seq<char>, start: nat, end: nat },
}

impl ChangeModel {
    pub open spec fn kind(self) -> ChangeType {
        match self {
            ChangeModel::Insert { .. } => ChangeType::Insert,
            ChangeModel::Delete { .. } => ChangeType::Delete,
            ChangeModel::Replace { .. } => ChangeType::Replace,
        }
    }

    pub open spec fn start(self) -> nat {
        match self {
            ChangeModel::Insert { start, .. } => start,
            ChangeModel::Delete { start, .. } => start,
            ChangeModel::Replace { start, .. } => start,
        }
    }

    pub open spec fn end(self) -> nat {
        match self {
            ChangeModel::Insert { end, .. } => end,
            ChangeModel::Delete { end, .. } => end,
            ChangeModel::Replace { end, .. } => end,
        }
    }

    /// The text that the edit takes out of the buffer.
    pub open spec fn removed(self) -> Seq<char> {
        match self {
            ChangeModel::Insert { .. } => Seq::empty(),
            ChangeModel::Delete { text, .. } => text,
            ChangeModel::Replace { old_text, .. } => old_text,
        }
    }

    /// The text that the edit puts into the buffer.
    pub open spec fn inserted(self) -> Seq<char> {
        match self {
            ChangeModel::Insert { text, .. } => text,
            ChangeModel::Delete { .. } => Seq::empty(),
            ChangeModel::Replace { new_text, .. } => new_text,
        }
    }

    /// The edit that reverses this one. Its range always spans the text it
    /// takes out again, so the inverse of a deletion is an insertion over the
    /// empty range at `start`.
    pub open spec fn inverse(self) -> ChangeModel {
        match self {
            ChangeModel::Insert { text, start, .. } => ChangeModel::Delete {
                text,
                start,
                end: start + byte_len(text),
            },
            ChangeModel::Delete { text, start, .. } => ChangeModel::Insert {
                text,
                start,
                end: start,
            },
            ChangeModel::Replace { old_text, new_text, start, .. } => ChangeModel::Replace {
                old_text: new_text,
                new_text: old_text,
                start,
                end: start + byte_len(new_text),
            },
        }
    }

    /// The range of the inverse can be held in machine integers.
    pub open spec fn inverse_fits(self) -> bool {
        self.start() + byte_len(self.inserted()) <= usize::MAX
    }

    /// Whether `other`, made right after `self`, continues it: an insertion
    /// that begins [`INSERT_MERGE_GAP`] past the end of the previous one, or a
    /// deletion that touches the previous one on its left (backspace) or on
    /// its right (forward delete). A replacement continues nothing.
    pub open spec fn can_merge_with(self, other: ChangeModel) -> bool {
        match (self, other) {
            (ChangeModel::Insert { end: end1, .. }, ChangeModel::Insert { start: start2, .. }) => {
                end1 + INSERT_MERGE_GAP == start2
            },
            (
                ChangeModel::Delete { start: start1, end: end1, .. },
                ChangeModel::Delete { start: start2, end: end2, .. },
            ) => end2 == start1 || end1 == start2,
            _ => false,
        }
    }

    /// The one edit that stands for `self` followed by `other`, where `other`
    /// continues `self`: the texts joined in buffer order over the union of
    /// the two ranges. Where both deletion directions fit, backspace wins.
    pub open spec fn merge_with(self, other: ChangeModel) -> Option<ChangeModel> {
        match (self, other) {
            (
                ChangeModel::Insert { text: text1, start: start1, end: end1 },
                ChangeModel::Insert { text: text2, start: start2, end: end2 },
            ) => {
                if end1 + INSERT_MERGE_GAP == start2 {
                    Some(ChangeModel::Insert { text: text1 + text2, start: start1, end: end2 })
                } else {
                    None
                }
            },
            (
                ChangeModel::Delete { text: text1, start: start1, end: end1 },
                ChangeModel::Delete { text: text2, start: start2, end: end2 },
            ) => {
                if end2 == start1 {
                    Some(ChangeModel::Delete { text: text2 + text1, start: start2, end: end1 })
                } else if end1 == start2 {
                    Some(ChangeModel::Delete { text: text1 + text2, start: start1, end: end2 })
                } else {
                    None
                }
            },
            _ => None,
        }
    }

    /// An edit as the host describes it: the range is ordered, and the range
    /// of an insertion or of a deletion spans exactly its text.
    pub open spec fn spans_text(self) -> bool {
        match self {
            ChangeModel::Insert { text, start, end } => start + byte_len(text) == end,
            ChangeModel::Delete { text, start, end } => start + byte_len(text) == end,
            ChangeModel::Replace { start, end, .. } => start <= end,
        }
    }

    /// What the history asks of an edit that it records, which is what it
    /// needs to invert and merge its edits in machine integers. The range is
    /// ordered and lies within machine integers. The text of an insertion
    /// lies inside its range: one insertion spans exactly its text, a merged
    /// run also covers the units that it bridged. The inverse of a
    /// replacement fits.
    pub open spec fn well_formed(self) -> bool {
        match self {
            ChangeModel::Insert { text, start, end } => {
                start + byte_len(text) <= end <= usize::MAX
            },
            ChangeModel::Delete { start, end, .. } => start <= end <= usize::MAX,
            ChangeModel::Replace { new_text, start, end, .. } => {
                &&& start <= end <= usize::MAX
                &&& start + byte_len(new_text) <= usize::MAX
            },
        }
    }

    /// Whether the edit can be carried out on `buffer`: the text that it takes
    /// out stands at `start`.
    pub open spec fn applies_to(self, buffer: Seq<u8>) -> bool {
        let stop: nat = self.start() + byte_len(self.removed());
        &&& stop <= buffer.len()
        &&& buffer.subrange(self.start() as int, stop as int) == text_bytes(self.removed())
    }

    /// The buffer after the edit: at `start`, the removed text gives way to
    /// the inserted text.
    pub open spec fn apply(self, buffer: Seq<u8>) -> Seq<u8> {
        let stop: nat = self.start() + byte_len(self.removed());
        buffer.subrange(0, self.start() as int) + text_bytes(self.inserted()) + buffer.subrange(
            stop as int,
            buffer.len() as int,
        )
    }
}

/// What a [`crate::history::History`] stands for. The last element of each
/// sequence is the top of that stack.
#[verifier::ext_equal]
pub struct HistoryModel {
    pub undo: Seq<ChangeModel>,
    pub redo: Seq<ChangeModel>,
    pub max_size: nat,
}

impl HistoryModel {
    /// The history that holds nothing and retains at most `max_size` edits.
    pub open spec fn empty(max_size: nat) -> HistoryModel {
        HistoryModel { undo: Seq::empty(), redo: Seq::empty(), max_size }
    }

    /// Both stacks together stay within the bound, and every edit held can be
    /// inverted and merged in machine integers.
    pub open spec fn well_formed(self) -> bool {
        &&& self.undo.len() + self.redo.len() <= self.max_size <= usize::MAX
        &&& forall|i: int| 0 <= i < self.undo.len() ==> (#[trigger] self.undo[i]).well_formed()
        &&& forall|i: int| 0 <= i < self.redo.len() ==> (#[trigger] self.redo[i]).well_formed()
    }

    /// The edit that takes the place of the top of the undo stack when
    /// `change` is pushed, if `change` continues the top.
    pub open spec fn coalesced(self, change: ChangeModel) -> Option<ChangeModel> {
        if self.undo.len() > 0 && self.undo.last().can_merge_with(change) {
            self.undo.last().merge_with(change)
        } else {
            None
        }
    }

    /// Recording `change`: the redo stack is dropped; the top of the undo
    /// stack absorbs `change` where it can, else `change` goes on top and the
    /// oldest edit leaves once the bound is passed.
    pub open spec fn push(self, change: ChangeModel) -> HistoryModel {
        let undo = match self.coalesced(change) {
            Some(merged) => self.undo.drop_last().push(merged),
            None => {
                if self.undo.len() + 1 > self.max_size {
                    self.undo.push(change).drop_first()
                } else {
                    self.undo.push(change)
                }
            },
        };
        HistoryModel { undo, redo: Seq::empty(), max_size: self.max_size }
    }

    /// Undoing: the top of the undo stack moves to the redo stack and its
    /// inverse is handed out. With nothing to undo, nothing changes.
    pub open spec fn undo(self) -> (HistoryModel, Option<ChangeModel>) {
        if self.undo.len() == 0 {
            (self, None)
        } else {
            (
                HistoryModel {
                    undo: self.undo.drop_last(),
                    redo: self.redo.push(self.undo.last()),
                    max_size: self.max_size,
                },
                Some(self.undo.last().inverse()),
            )
        }
    }

    /// Redoing: the top of the redo stack moves back to the undo stack and is
    /// handed out as it was recorded. With nothing to redo, nothing changes.
    pub open spec fn redo(self) -> (HistoryModel, Option<ChangeModel>) {
        if self.redo.len() == 0 {
            (self, None)
        } else {
            (
                HistoryModel {
                    undo: self.undo.push(self.redo.last()),
                    redo: self.redo.drop_last(),
                    max_size: self.max_size,
                },
                Some(self.redo.last()),
            )
        }
    }

    /// Forgetting everything; the bound stays.
    pub open spec fn clear(self) -> HistoryModel {
        HistoryModel::empty(self.max_size)
    }
}

} // verus!
