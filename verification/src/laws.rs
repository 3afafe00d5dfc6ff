//! What holds of the model, proved once for all inputs.

use crate::model::{ChangeModel, HistoryModel};
use crate::text::{byte_len, lemma_byte_len_concat, lemma_text_bytes_concat, text_bytes};
use vstd::prelude::*;

verus! {

/// Applying an edit and then its inverse restores the buffer: the inverse can
/// be carried out on what the edit left, and gives back what the edit found.
pub proof fn law_inverse_restores_buffer(change: ChangeModel, buffer: Seq<u8>)
    requires
        change.applies_to(buffer),
    ensures
        change.inverse().applies_to(change.apply(buffer)),
        change.inverse().apply(change.apply(buffer)) == buffer,
{
    let start: int = change.start() as int;
    let come = text_bytes(change.inserted());
    assert(change.apply(buffer).subrange(start, start + come.len()) =~= come);
}

/// Inverting twice gives the same edit back: the same kind, start and texts,
/// hence the same effect on every buffer. Only the end of the range is
/// normalised, to span the text that the edit takes out; an edit whose range
/// already does so comes back unchanged, and so does every inverse.
pub proof fn law_inverse_involution(change: ChangeModel)
    ensures
        change.inverse().inverse().kind() == change.kind(),
        change.inverse().inverse().start() == change.start(),
        change.inverse().inverse().removed() == change.removed(),
        change.inverse().inverse().inserted() == change.inserted(),
        change.inverse().inverse().end() == change.start() + byte_len(change.removed()),
        change.end() == change.start() + byte_len(change.removed()) ==> change.inverse().inverse()
            == change,
        change.inverse().inverse().inverse() == change.inverse(),
        forall|buffer: Seq<u8>| #[trigger]
            change.inverse().inverse().applies_to(buffer) == change.applies_to(buffer),
        forall|buffer: Seq<u8>| #[trigger]
            change.inverse().inverse().apply(buffer) == change.apply(buffer),
{
}

/// An edit is merged exactly when the adjacency test says so: `merge_with`
/// yields an edit if and only if `can_merge_with` holds.
pub proof fn law_merge_agrees_with_test(first: ChangeModel, second: ChangeModel)
    ensures
        first.can_merge_with(second) <==> first.merge_with(second) is Some,
{
}

/// A push that merges replaces the top of the undo stack by the merged edit:
/// the stack keeps its depth and everything below the top.
pub proof fn law_merging_push_replaces_top(history: HistoryModel, change: ChangeModel)
    requires
        history.undo.len() > 0,
        history.undo.last().can_merge_with(change),
    ensures
        history.undo.last().merge_with(change) is Some,
        history.push(change).undo == history.undo.drop_last().push(
            history.undo.last().merge_with(change).unwrap(),
        ),
        history.push(change).undo.len() == history.undo.len(),
{
    law_merge_agrees_with_test(history.undo.last(), change);
}

/// A merged backspace acts as its two parts in sequence: where the later
/// deletion spans its text and ends where the earlier one starts, carrying
/// out the merged deletion on a buffer gives what carrying out the earlier
/// and then the later one gives.
pub proof fn law_merged_backspace_acts_as_both(
    first: ChangeModel,
    second: ChangeModel,
    buffer: Seq<u8>,
)
    requires
        first is Delete,
        second is Delete,
        second.end() == first.start(),
        second.end() == second.start() + byte_len(second.removed()),
        first.applies_to(buffer),
        second.applies_to(first.apply(buffer)),
    ensures
        first.merge_with(second) is Some,
        first.merge_with(second).unwrap().applies_to(buffer),
        first.merge_with(second).unwrap().apply(buffer) == second.apply(first.apply(buffer)),
{
    let between = first.apply(buffer);
    let from: int = second.start() as int;
    let mid: int = first.start() as int;
    let to: int = mid + byte_len(first.removed());
    lemma_text_bytes_concat(second.removed(), first.removed());
    assert(between.subrange(from, mid) =~= buffer.subrange(from, mid));
    assert(buffer.subrange(from, to) =~= buffer.subrange(from, mid) + buffer.subrange(mid, to));
}

/// Edits of different kinds never merge.
pub proof fn law_no_merge_across_kinds(first: ChangeModel, second: ChangeModel)
    requires
        first.kind() != second.kind(),
    ensures
        !first.can_merge_with(second),
        first.merge_with(second) is None,
{
}

/// Pushed onto an empty history with room for two, edits of different kinds
/// both stay, in the order in which they came.
pub proof fn law_push_across_kinds_keeps_both(
    max_size: nat,
    first: ChangeModel,
    second: ChangeModel,
)
    requires
        max_size >= 2,
        first.kind() != second.kind(),
    ensures
        HistoryModel::empty(max_size).push(first).push(second).undo == seq![first, second],
{
}

/// Merging keeps edits recordable: the merge of two well-formed edits is
/// well formed and of the kind of both.
pub proof fn law_merge_keeps_well_formed(first: ChangeModel, second: ChangeModel)
    requires
        first.well_formed(),
        second.well_formed(),
        first.merge_with(second) is Some,
    ensures
        first.merge_with(second).unwrap().well_formed(),
        first.merge_with(second).unwrap().kind() == first.kind(),
        first.merge_with(second).unwrap().kind() == second.kind(),
{
    match (first, second) {
        (
            ChangeModel::Insert { text: text1, .. },
            ChangeModel::Insert { text: text2, .. },
        ) => {
            lemma_byte_len_concat(text1, text2);
        },
        _ => {},
    }
}

/// An edit that spans its text is well formed as soon as its range and the
/// range of its inverse lie within machine integers.
pub proof fn law_spanning_edit_is_well_formed(change: ChangeModel)
    requires
        change.spans_text(),
        change.end() <= usize::MAX,
        change.inverse_fits(),
    ensures
        change.well_formed(),
{
}

/// A well-formed edit can be inverted in machine integers.
pub proof fn law_well_formed_inverse_fits(change: ChangeModel)
    requires
        change.well_formed(),
    ensures
        change.inverse_fits(),
{
}

/// Every operation keeps the history well formed; in particular the undo
/// stack never holds more than `max_size` edits.
pub proof fn law_history_stays_well_formed(history: HistoryModel, change: ChangeModel)
    requires
        history.well_formed(),
        change.well_formed(),
    ensures
        history.push(change).well_formed(),
        history.undo().0.well_formed(),
        history.redo().0.well_formed(),
        history.clear().well_formed(),
        history.push(change).undo.len() <= history.max_size,
        history.push(change).max_size == history.max_size,
        history.undo().0.max_size == history.max_size,
        history.redo().0.max_size == history.max_size,
{
    if history.coalesced(change) is Some {
        law_merge_keeps_well_formed(history.undo.last(), change);
    }
}

/// Any push drops the redo stack: a redo right after it hands out nothing
/// and changes nothing.
pub proof fn law_push_invalidates_redo(history: HistoryModel, change: ChangeModel)
    ensures
        history.push(change).redo == Seq::<ChangeModel>::empty(),
        history.push(change).redo().1 is None,
        history.push(change).redo().0 == history.push(change),
{
}

/// When the undo stack is full and the new edit does not merge, the oldest
/// edit leaves, the others keep their order and the new edit is on top.
pub proof fn law_push_evicts_oldest(history: HistoryModel, change: ChangeModel)
    requires
        history.coalesced(change) is None,
        history.undo.len() == history.max_size,
    ensures
        history.push(change).undo == history.undo.push(change).drop_first(),
        history.push(change).undo.len() == history.max_size,
        forall|i: int|
            0 <= i < history.max_size - 1 ==> #[trigger] history.push(change).undo[i]
                == history.undo[i + 1],
        history.max_size > 0 ==> history.push(change).undo.last() == change,
{
}

/// On an empty history, undo and redo hand out nothing and leave it empty,
/// however often they are called.
pub proof fn law_empty_history_is_terminal(max_size: nat)
    ensures
        HistoryModel::empty(max_size).undo() == (
            HistoryModel::empty(max_size),
            None::<ChangeModel>,
        ),
        HistoryModel::empty(max_size).redo() == (
            HistoryModel::empty(max_size),
            None::<ChangeModel>,
        ),
{
}

/// Push, undo, redo on a buffer. An edit is carried out on `before` and
/// pushed; it stays an edit of its own and the history retains at least one.
/// Then undo hands out an edit that takes the buffer back to `before`, redo
/// hands out one that brings it to the state right after the push again, and
/// the history is as the push left it.
pub proof fn law_undo_redo_round_trip(
    history: HistoryModel,
    change: ChangeModel,
    before: Seq<u8>,
)
    requires
        history.max_size > 0,
        history.coalesced(change) is None,
        change.applies_to(before),
    ensures
        ({
            let after = change.apply(before);
            let pushed = history.push(change);
            let (undone, reverse) = pushed.undo();
            let (redone, forward) = undone.redo();
            &&& reverse == Some(change.inverse())
            &&& reverse.unwrap().applies_to(after)
            &&& reverse.unwrap().apply(after) == before
            &&& forward == Some(change)
            &&& forward.unwrap().applies_to(before)
            &&& forward.unwrap().apply(before) == after
            &&& redone == pushed
        }),
{
    law_inverse_restores_buffer(change, before);
}

/// Undo and redo after any push, merged or not: as long as the history
/// retains at least one edit, undo hands out the inverse of the edit on top,
/// redo hands that edit out again, and the history is as the push left it.
/// On every buffer that the inverse can be carried out on, carrying out the
/// inverse and then the edit gives that buffer back.
pub proof fn law_undo_then_redo_restores(
    history: HistoryModel,
    change: ChangeModel,
    buffer: Seq<u8>,
)
    requires
        history.max_size > 0,
    ensures
        ({
            let pushed = history.push(change);
            let (undone, reverse) = pushed.undo();
            let (redone, forward) = undone.redo();
            &&& pushed.undo.len() > 0
            &&& reverse == Some(pushed.undo.last().inverse())
            &&& forward == Some(pushed.undo.last())
            &&& redone == pushed
            &&& reverse.unwrap().applies_to(buffer) ==> {
                &&& forward.unwrap().applies_to(reverse.unwrap().apply(buffer))
                &&& forward.unwrap().apply(reverse.unwrap().apply(buffer)) == buffer
            }
        }),
{
    let top = history.push(change).undo.last();
    if top.inverse().applies_to(buffer) {
        law_inverse_restores_buffer(top.inverse(), buffer);
        law_inverse_involution(top);
    }
}

} // verus!
