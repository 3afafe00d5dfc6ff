use edit_history::text::text_len;
use edit_history::{ChangeType, HistoryChange, INSERT_MERGE_GAP};

fn insert(text: &str, start: usize, end: usize) -> HistoryChange {
    HistoryChange::Insert { text: text.to_string(), range: start..end }
}

fn delete(text: &str, start: usize, end: usize) -> HistoryChange {
    HistoryChange::Delete { text: text.to_string(), range: start..end }
}

fn replace(old_text: &str, new_text: &str, start: usize, end: usize) -> HistoryChange {
    HistoryChange::Replace {
        old_text: old_text.to_string(),
        new_text: new_text.to_string(),
        range: start..end,
    }
}

#[test]
fn change_type_names_each_variant() {
    assert_eq!(insert("a", 0, 1).change_type(), ChangeType::Insert);
    assert_eq!(delete("a", 0, 1).change_type(), ChangeType::Delete);
    assert_eq!(replace("a", "b", 0, 1).change_type(), ChangeType::Replace);
}

#[test]
fn inverse_of_insert_deletes_the_inserted_text() {
    assert_eq!(insert("abc", 2, 5).inverse(), delete("abc", 2, 5));
}

#[test]
fn inverse_of_insert_measures_the_text_not_the_range() {
    assert_eq!(insert("abc", 2, 9).inverse(), delete("abc", 2, 5));
    assert_eq!(insert("abc", 2, 2).inverse(), delete("abc", 2, 5));
}

#[test]
fn inverse_of_delete_inserts_over_the_collapsed_range() {
    assert_eq!(delete("lo", 3, 5).inverse(), insert("lo", 3, 3));
}

#[test]
fn inverse_of_replace_swaps_the_texts() {
    assert_eq!(replace("abc", "xy", 1, 4).inverse(), replace("xy", "abc", 1, 3));
}

#[test]
fn inverse_counts_bytes_of_multibyte_text() {
    assert_eq!(insert("h\u{e9}", 4, 7).inverse(), delete("h\u{e9}", 4, 7));
    assert_eq!(replace("a", "\u{20ac}", 0, 1).inverse(), replace("\u{20ac}", "a", 0, 3));
}

#[test]
fn inverse_of_empty_texts() {
    assert_eq!(insert("", 7, 7).inverse(), delete("", 7, 7));
    assert_eq!(delete("", 7, 7).inverse(), insert("", 7, 7));
    assert_eq!(replace("", "", 7, 7).inverse(), replace("", "", 7, 7));
}

#[test]
fn inverse_reaches_the_last_offset() {
    let change = insert("ab", usize::MAX - 2, usize::MAX);
    assert_eq!(change.inverse(), delete("ab", usize::MAX - 2, usize::MAX));
}

#[test]
fn double_inverse_of_delete_and_replace_is_the_change_itself() {
    let removed = delete("lo", 3, 5);
    assert_eq!(removed.inverse().inverse(), removed);
    let swapped = replace("abc", "xy", 1, 4);
    assert_eq!(swapped.inverse().inverse(), swapped);
}

#[test]
fn double_inverse_of_insert_collapses_the_range() {
    let typed = insert("abc", 2, 5);
    assert_eq!(typed.inverse().inverse(), insert("abc", 2, 2));
}

#[test]
fn triple_inverse_is_the_inverse() {
    for change in [insert("abc", 2, 5), delete("lo", 3, 5), replace("abc", "xy", 1, 9)] {
        assert_eq!(change.inverse().inverse().inverse(), change.inverse());
    }
}

#[test]
fn insert_merge_gap_is_one_unit() {
    assert_eq!(INSERT_MERGE_GAP, 1);
}

#[test]
fn insert_continues_one_unit_past_the_end() {
    assert!(insert("a", 0, 1).can_merge_with(&insert("b", 2, 3)));
    assert!(insert("abc", 4, 7).can_merge_with(&insert("", 8, 8)));
}

#[test]
fn insert_does_not_continue_at_the_end_itself() {
    assert!(!insert("a", 0, 1).can_merge_with(&insert("b", 1, 2)));
    assert_eq!(insert("a", 0, 1).merge_with(&insert("b", 1, 2)), None);
}

#[test]
fn insert_does_not_continue_further_away_or_before() {
    assert!(!insert("a", 0, 1).can_merge_with(&insert("b", 3, 4)));
    assert!(!insert("a", 5, 6).can_merge_with(&insert("b", 0, 1)));
    assert_eq!(insert("a", 0, 1).merge_with(&insert("b", 3, 4)), None);
    assert_eq!(insert("a", 5, 6).merge_with(&insert("b", 0, 1)), None);
}

#[test]
fn insert_at_the_last_offset_continues_nowhere() {
    let last = insert("", usize::MAX, usize::MAX);
    assert!(!last.can_merge_with(&insert("b", 0, 1)));
    assert!(!last.can_merge_with(&insert("b", usize::MAX, usize::MAX)));
    assert_eq!(last.merge_with(&insert("b", 0, 1)), None);
}

#[test]
fn merged_insert_joins_texts_over_both_ranges() {
    assert_eq!(insert("a", 0, 1).merge_with(&insert("b", 2, 3)), Some(insert("ab", 0, 3)));
    assert_eq!(insert("ab", 4, 6).merge_with(&insert("cd", 7, 9)), Some(insert("abcd", 4, 9)));
}

#[test]
fn delete_continues_on_either_side() {
    assert!(delete("o", 4, 5).can_merge_with(&delete("l", 3, 4)));
    assert!(delete("l", 3, 4).can_merge_with(&delete("o", 4, 5)));
    assert!(!delete("o", 4, 5).can_merge_with(&delete("e", 1, 2)));
    assert!(!delete("o", 4, 5).can_merge_with(&delete("x", 6, 7)));
}

#[test]
fn merged_backspace_prepends_the_later_text() {
    assert_eq!(delete("o", 4, 5).merge_with(&delete("l", 3, 4)), Some(delete("lo", 3, 5)));
}

#[test]
fn merged_forward_delete_appends_the_later_text() {
    assert_eq!(delete("l", 3, 4).merge_with(&delete("o", 4, 5)), Some(delete("lo", 3, 5)));
}

#[test]
fn merged_delete_prefers_backspace_where_both_sides_touch() {
    assert_eq!(delete("x", 3, 3).merge_with(&delete("y", 3, 3)), Some(delete("yx", 3, 3)));
}

#[test]
fn apart_deletes_do_not_merge() {
    assert_eq!(delete("o", 4, 5).merge_with(&delete("e", 1, 2)), None);
}

#[test]
fn replace_never_merges() {
    let first = replace("a", "b", 0, 1);
    let second = replace("c", "d", 1, 2);
    let gap = replace("c", "d", 2, 3);
    assert!(!first.can_merge_with(&second));
    assert!(!first.can_merge_with(&gap));
    assert_eq!(first.merge_with(&second), None);
    assert_eq!(first.merge_with(&gap), None);
}

#[test]
fn different_kinds_never_merge() {
    let changes = [insert("a", 0, 1), delete("b", 2, 3), replace("c", "d", 2, 3)];
    for (i, first) in changes.iter().enumerate() {
        for (j, second) in changes.iter().enumerate() {
            if i != j {
                assert!(!first.can_merge_with(second));
                assert_eq!(first.merge_with(second), None);
            }
        }
    }
}

#[test]
fn merge_yields_a_change_exactly_when_the_test_holds() {
    let changes = [
        insert("a", 0, 1),
        insert("b", 2, 3),
        insert("c", 1, 2),
        delete("o", 4, 5),
        delete("l", 3, 4),
        delete("x", 9, 9),
        replace("c", "d", 2, 3),
    ];
    for first in changes.iter() {
        for second in changes.iter() {
            assert_eq!(first.can_merge_with(second), first.merge_with(second).is_some());
        }
    }
}

#[test]
fn clone_is_equal() {
    for change in [insert("abc", 2, 5), delete("lo", 3, 5), replace("abc", "xy", 1, 4)] {
        assert_eq!(change.clone(), change);
    }
}

#[test]
fn text_len_counts_bytes() {
    assert_eq!(text_len(&String::new()), 0);
    assert_eq!(text_len(&"abc".to_string()), 3);
    assert_eq!(text_len(&"h\u{e9}".to_string()), 3);
    assert_eq!(text_len(&"\u{1f600}".to_string()), 4);
}

#[test]
fn edits_that_span_their_text_are_well_formed() {
    assert!(insert("abc", 2, 5).is_well_formed());
    assert!(insert("", 2, 2).is_well_formed());
    assert!(delete("lo", 3, 5).is_well_formed());
    assert!(replace("abc", "xy", 1, 4).is_well_formed());
    assert!(insert("h\u{e9}", 4, 7).is_well_formed());
    assert!(insert("ab", usize::MAX - 2, usize::MAX).is_well_formed());
}

#[test]
fn merged_run_wider_than_its_text_is_well_formed() {
    let merged = insert("a", 0, 1).merge_with(&insert("b", 2, 3)).unwrap();
    assert!(merged.is_well_formed());
    assert!(insert("ab", 0, 9).is_well_formed());
}

#[test]
fn reversed_range_is_malformed() {
    assert!(!insert("", 5, 4).is_well_formed());
    assert!(!delete("a", 5, 4).is_well_formed());
    assert!(!replace("a", "b", 5, 4).is_well_formed());
}

#[test]
fn insert_longer_than_its_range_is_malformed() {
    assert!(!insert("abc", 2, 4).is_well_formed());
    assert!(!insert("a", 2, 2).is_well_formed());
    assert!(!insert("h\u{e9}", 4, 6).is_well_formed());
    assert!(!insert("a", usize::MAX, usize::MAX).is_well_formed());
}

#[test]
fn delete_needs_only_an_ordered_range() {
    assert!(delete("abc", 2, 2).is_well_formed());
    assert!(delete("", 2, 9).is_well_formed());
}

#[test]
fn replace_whose_inverse_overflows_is_malformed() {
    assert!(replace("a", "xy", usize::MAX - 2, usize::MAX).is_well_formed());
    assert!(!replace("a", "xyz", usize::MAX - 2, usize::MAX).is_well_formed());
    assert!(!replace("", "x", usize::MAX, usize::MAX).is_well_formed());
}
