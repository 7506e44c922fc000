use ludusavi::TextHistory;

fn strings(v: &[&str]) -> Vec<String> {
    v.iter().map(|s| s.to_string()).collect()
}

#[test]
fn fresh_history_has_nothing_to_undo_or_redo() {
    let mut h = TextHistory::new("start", 100);
    assert_eq!(h.current(), "start");
    assert_eq!(h.capacity(), 100);
    assert_eq!(h.undo(), None);
    assert_eq!(h.redo(), None);
    assert_eq!(h.current(), "start");
    assert!(h.undo_stack().is_empty());
    assert!(h.redo_stack().is_empty());
}

#[test]
fn undo_then_redo_round_trip() {
    let mut h = TextHistory::new("old", 100);
    h.push("new");
    assert_eq!(h.current(), "new");
    assert_eq!(h.undo(), Some("old".to_string()));
    assert_eq!(h.current(), "old");
    assert_eq!(h.redo(), Some("new".to_string()));
    assert_eq!(h.current(), "new");
    assert_eq!(h.undo_stack(), strings(&["old"]));
    assert!(h.redo_stack().is_empty());
}

#[test]
fn push_of_current_value_is_ignored() {
    let mut h = TextHistory::new("a", 100);
    h.push("b");
    let before = h.undo_stack().len();
    h.push("b");
    assert_eq!(h.undo_stack().len(), before);
    assert_eq!(h.undo_stack(), strings(&["a"]));
    assert_eq!(h.current(), "b");
}

#[test]
fn push_of_current_value_keeps_redo() {
    let mut h = TextHistory::new("a", 100);
    h.push("b");
    h.undo();
    h.push("a");
    assert_eq!(h.redo(), Some("b".to_string()));
}

#[test]
fn more_pushes_than_capacity_keep_most_recent() {
    let mut h = TextHistory::new("v0", 3);
    for i in 1..=6 {
        h.push(&format!("v{}", i));
    }
    assert_eq!(h.undo_stack(), strings(&["v3", "v4", "v5"]));
    assert_eq!(h.current(), "v6");
    assert_eq!(h.undo(), Some("v5".to_string()));
    assert_eq!(h.undo(), Some("v4".to_string()));
    assert_eq!(h.undo(), Some("v3".to_string()));
    assert_eq!(h.undo(), None);
    assert_eq!(h.current(), "v3");
}

#[test]
fn capacity_two_evicts_oldest_first() {
    let mut h = TextHistory::new("", 2);
    h.push("a");
    h.push("b");
    h.push("c");
    assert_eq!(h.undo_stack(), strings(&["a", "b"]));
    assert_eq!(h.current(), "c");
}

#[test]
fn capacity_zero_keeps_nothing_to_undo() {
    let mut h = TextHistory::new("a", 0);
    h.push("b");
    assert!(h.undo_stack().is_empty());
    assert_eq!(h.undo(), None);
    assert_eq!(h.current(), "b");
}

#[test]
fn edit_after_undo_clears_redo() {
    let mut h = TextHistory::new("a", 100);
    h.push("b");
    h.push("c");
    assert_eq!(h.undo(), Some("b".to_string()));
    assert_eq!(h.redo_stack(), strings(&["c"]));
    h.push("x");
    assert!(h.redo_stack().is_empty());
    assert_eq!(h.redo(), None);
    assert_eq!(h.current(), "x");
    assert_eq!(h.undo_stack(), strings(&["a", "b"]));
}

#[test]
fn undo_and_redo_walk_both_ways() {
    let mut h = TextHistory::new("a", 2);
    h.push("b");
    h.push("c");
    assert_eq!(h.undo(), Some("b".to_string()));
    h.push("d");
    assert_eq!(h.undo_stack(), strings(&["a", "b"]));
    assert_eq!(h.undo(), Some("b".to_string()));
    assert_eq!(h.undo(), Some("a".to_string()));
    assert_eq!(h.redo(), Some("b".to_string()));
    assert_eq!(h.redo(), Some("d".to_string()));
    assert_eq!(h.undo_stack(), strings(&["a", "b"]));
}
