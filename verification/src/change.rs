//! Edits as the host hands them in: a kind, a range of buffer offsets and the
//! text needed to reverse the edit.

use crate::model::ChangeModel;
use crate::text::text_len;
use std::ops::Range;
use vstd::prelude::*;
use vstd::string::StringExecFns;

verus! {

/// How far past the end of one insertion the next one begins when the two
/// count as one run of typing. The merge policy reads the distance from here
/// and nowhere else.
pub const INSERT_MERGE_GAP: usize = 1;

/// The three kinds of edit.
#[derive(Clone, Copy, Debug, PartialEq, Eq, Structural)]
pub enum ChangeType {
    Insert,
    Delete,
    Replace,
}

/// One atomic edit over a half-open range of buffer offsets, measured in
/// bytes, with the text needed to reverse it.
#[derive(Debug, PartialEq, Eq)]
pub enum HistoryChange {
    /// `text` was inserted at `range.start`.
    Insert { text: String, range: Range<usize> },
    /// `text` was removed from `range`.
    Delete { text: String, range: Range<usize> },
    /// `old_text`, which occupied `range`, was replaced by `new_text`.
    Replace { old_text: String, new_text: String, range: Range<usize> },
}

impl View for HistoryChange {
    type V = ChangeModel;

    open spec fn view(&self) -> ChangeModel {
        match *self {
            HistoryChange::Insert { text, range } => ChangeModel::Insert {
                text: text@,
                start: range.start as nat,
                end: range.end as nat,
            },
            HistoryChange::Delete { text, range } => ChangeModel::Delete {
                text: text@,
                start: range.start as nat,
                end: range.end as nat,
            },
            HistoryChange::Replace { old_text, new_text, range } => ChangeModel::Replace {
                old_text: old_text@,
                new_text: new_text@,
                start: range.start as nat,
                end: range.end as nat,
            },
        }
    }
}

impl Clone for HistoryChange {
    fn clone(&self) -> (copy: Self)
        ensures
            copy == *self,
    {
        match self {
            HistoryChange::Insert { text, range } => HistoryChange::Insert {
                text: text.clone(),
                range: range.start..range.end,
            },
            HistoryChange::Delete { text, range } => HistoryChange::Delete {
                text: text.clone(),
                range: range.start..range.end,
            },
            HistoryChange::Replace { old_text, new_text, range } => HistoryChange::Replace {
                old_text: old_text.clone(),
                new_text: new_text.clone(),
                range: range.start..range.end,
            },
        }
    }
}

/// `first` followed by `second`, as a new string.
fn joined(first: &String, second: &String) -> (both: String)
    ensures
        both@ == first@ + second@,
{
    first.clone().concat(second.as_str())
}

impl HistoryChange {
    /// The kind of this edit.
    pub fn change_type(&self) -> (kind: ChangeType)
        ensures
            kind == self@.kind(),
    {
        match self {
            HistoryChange::Insert { .. } => ChangeType::Insert,
            HistoryChange::Delete { .. } => ChangeType::Delete,
            HistoryChange::Replace { .. } => ChangeType::Replace,
        }
    }

    /// Whether the history can record this edit: see
    /// [`ChangeModel::well_formed`].
    pub fn is_well_formed(&self) -> (ok: bool)
        ensures
            ok == self@.well_formed(),
    {
        match self {
            HistoryChange::Insert { text, range } => {
                range.start <= range.end && text_len(text) <= range.end - range.start
            },
            HistoryChange::Delete { range, .. } => range.start <= range.end,
            HistoryChange::Replace { new_text, range, .. } => {
                range.start <= range.end && text_len(new_text) <= usize::MAX - range.start
            },
        }
    }

    /// The edit that reverses this one.
    pub fn inverse(&self) -> (reverse: HistoryChange)
        requires
            self@.inverse_fits(),
        ensures
            reverse@ == self@.inverse(),
    {
        match self {
            HistoryChange::Insert { text, range } => HistoryChange::Delete {
                text: text.clone(),
                range: range.start..range.start + text_len(text),
            },
            HistoryChange::Delete { text, range } => HistoryChange::Insert {
                text: text.clone(),
                range: range.start..range.start,
            },
            HistoryChange::Replace { old_text, new_text, range } => HistoryChange::Replace {
                old_text: new_text.clone(),
                new_text: old_text.clone(),
                range: range.start..range.start + text_len(new_text),
            },
        }
    }

    /// Whether `other`, made right after `self`, continues it.
    pub fn can_merge_with(&self, other: &HistoryChange) -> (mergeable: bool)
        ensures
            mergeable == self@.can_merge_with(other@),
    {
        match (self, other) {
            (
                HistoryChange::Insert { range: range1, .. },
                HistoryChange::Insert { range: range2, .. },
            ) => range1.end <= range2.start && range2.start - range1.end == INSERT_MERGE_GAP,
            (
                HistoryChange::Delete { range: range1, .. },
                HistoryChange::Delete { range: range2, .. },
            ) => range2.end == range1.start || range1.end == range2.start,
            _ => false,
        }
    }

    /// The one edit that stands for `self` followed by `other`, or `None`
    /// where `other` does not continue `self`.
    pub fn merge_with(&self, other: &HistoryChange) -> (merged: Option<HistoryChange>)
        ensures
            merged is Some <==> self@.can_merge_with(other@),
            match merged {
                Some(change) => self@.merge_with(other@) == Some(change@),
                None => self@.merge_with(other@) is None,
            },
    {
        match (self, other) {
            (
                HistoryChange::Insert { range: range1, text: text1 },
                HistoryChange::Insert { range: range2, text: text2 },
            ) => {
                if range1.end <= range2.start && range2.start - range1.end == INSERT_MERGE_GAP {
                    Some(
                        HistoryChange::Insert {
                            text: joined(text1, text2),
                            range: range1.start..range2.end,
                        },
                    )
                } else {
                    None
                }
            },
            (
                HistoryChange::Delete { range: range1, text: text1 },
                HistoryChange::Delete { range: range2, text: text2 },
            ) => {
                if range2.end == range1.start {
                    Some(
                        HistoryChange::Delete {
                            text: joined(text2, text1),
                            range: range2.start..range1.end,
                        },
                    )
                } else if range1.end == range2.start {
                    Some(
                        HistoryChange::Delete {
                            text: joined(text1, text2),
                            range: range1.start..range2.end,
                        },
                    )
                } else {
                    None
                }
            },
            _ => None,
        }
    }
}

} // verus!
