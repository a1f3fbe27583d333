use tui_client::collections::{move_index, BoundedLog, SelectableList, Step};

#[test]
fn move_index_wraps_forward_and_backward() {
    assert_eq!(move_index(0, 3, Step::Next), 1);
    assert_eq!(move_index(2, 3, Step::Next), 0);
    assert_eq!(move_index(0, 3, Step::Previous), 2);
    assert_eq!(move_index(2, 3, Step::Previous), 1);
    assert_eq!(move_index(5, 0, Step::Next), 0);
    assert_eq!(move_index(5, 0, Step::Previous), 0);
}

#[test]
fn move_index_next_then_previous_returns() {
    for count in 1..6usize {
        for current in 0..count {
            let there = move_index(current, count, Step::Next);
            assert_eq!(move_index(there, count, Step::Previous), current);
        }
    }
}

fn list_of(items: &[&str]) -> SelectableList<String> {
    SelectableList::with_items(items.iter().map(|s| s.to_string()).collect())
}

#[test]
fn selectable_list_starts_at_first_item() {
    let list = list_of(&["a", "b", "c"]);
    assert_eq!(list.selected_index(), 0);
    assert_eq!(list.selected().map(|s| s.as_str()), Some("a"));
    assert!(list.is_selected(0));
    assert!(!list.is_selected(1));
    let empty: SelectableList<String> = SelectableList::new();
    assert!(empty.selected().is_none());
    assert!(!empty.is_selected(0));
    assert!(empty.is_empty());
}

#[test]
fn selectable_list_moves_and_wraps() {
    let mut list = list_of(&["a", "b", "c"]);
    list.move_selection(Step::Previous);
    assert_eq!(list.selected_index(), 2);
    list.move_selection(Step::Next);
    assert_eq!(list.selected_index(), 0);
    list.select_index(1);
    assert_eq!(list.selected().map(|s| s.as_str()), Some("b"));
    list.select_index(7);
    assert_eq!(list.selected_index(), 1);
}

#[test]
fn selectable_list_clamps_after_shrinking() {
    let mut list = list_of(&["a", "b", "c"]);
    list.select_index(2);
    list.set_items(vec!["x".to_string()]);
    assert_eq!(list.selected_index(), 0);
    assert_eq!(list.len(), 1);

    let mut list = list_of(&["a", "b", "c", "b"]);
    list.select_index(3);
    list.retain(|s| s != "b");
    assert_eq!(list.as_slice(), &["a".to_string(), "c".to_string()]);
    assert_eq!(list.selected_index(), 1);

    let mut list = list_of(&["a", "b", "c"]);
    list.select_index(2);
    assert_eq!(list.remove(2), Some("c".to_string()));
    assert_eq!(list.selected_index(), 1);
    assert_eq!(list.remove(5), None);
    list.clear();
    assert!(list.is_empty());
    assert_eq!(list.selected_index(), 0);
}

#[test]
fn selectable_list_push_keeps_selection() {
    let mut list = list_of(&["a", "b"]);
    list.select_index(1);
    list.push("c".to_string());
    assert_eq!(list.selected_index(), 1);
    assert_eq!(list.len(), 3);
}

#[test]
fn bounded_log_keeps_newest_entries() {
    let mut log = BoundedLog::with_max_capacity(3);
    for i in 0..5u32 {
        log.push(i);
    }
    assert_eq!(log.len(), 3);
    assert_eq!(log.get(0), Some(&2));
    assert_eq!(log.get(2), Some(&4));
    assert_eq!(log.get(3), None);
}

#[test]
fn bounded_log_of_capacity_zero_keeps_the_newest() {
    let mut log = BoundedLog::with_max_capacity(0);
    log.push("a");
    log.push("b");
    assert_eq!(log.len(), 1);
    assert_eq!(log.get(0), Some(&"b"));
}
