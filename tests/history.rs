use clipboard_history::history::{
    history, on_clipboard_change, paste, ClipboardHistory, HistoryItem, NotFound,
    DEFAULT_HISTORY_LIMIT,
};

fn values(h: &ClipboardHistory) -> Vec<String> {
    history(h).into_iter().map(|i| i.value).collect()
}

fn pairs(items: &[HistoryItem]) -> Vec<(usize, String)> {
    items.iter().map(|i| (i.id, i.value.clone())).collect()
}

fn with(cap: usize, items: &[&str]) -> ClipboardHistory {
    let mut h = ClipboardHistory::new(cap);
    for s in items {
        h.push(s.to_string());
    }
    h
}

#[test]
fn new_history_is_empty() {
    let h = ClipboardHistory::new(5);
    assert_eq!(h.len(), 0);
    assert_eq!(h.limit(), 5);
    assert!(history(&h).is_empty());
}

#[test]
fn default_history_keeps_thirty() {
    let h = ClipboardHistory::default();
    assert_eq!(h.limit(), 30);
    assert_eq!(DEFAULT_HISTORY_LIMIT, 30);
    assert_eq!(h.len(), 0);
}

#[test]
fn length_never_exceeds_capacity() {
    let mut h = ClipboardHistory::new(4);
    for k in 0..20 {
        h.push(format!("v{k}"));
        assert!(h.len() <= 4);
    }
    assert_eq!(h.len(), 4);
}

#[test]
fn newest_push_comes_first() {
    let h = with(5, &["v1", "v2"]);
    assert_eq!(values(&h), vec!["v2", "v1"]);
}

#[test]
fn capacity_one_keeps_only_newest() {
    let h = with(1, &["v1", "v2"]);
    assert_eq!(values(&h), vec!["v2"]);
}

#[test]
fn capacity_zero_keeps_nothing() {
    let h = with(0, &["a", "b"]);
    assert_eq!(h.len(), 0);
    assert!(history(&h).is_empty());
}

#[test]
fn repeated_values_are_kept() {
    let h = with(3, &["same", "same"]);
    assert_eq!(values(&h), vec!["same", "same"]);
}

#[test]
fn one_more_than_capacity_evicts_oldest() {
    let h = with(3, &["a", "b", "c", "d"]);
    assert_eq!(values(&h), vec!["d", "c", "b"]);
    assert!(!values(&h).contains(&"a".to_string()));
}

#[test]
fn resize_smaller_keeps_most_recent() {
    let mut h = with(5, &["a", "b", "c", "d"]);
    h.resize(2);
    assert_eq!(h.limit(), 2);
    assert_eq!(values(&h), vec!["d", "c"]);
    h.push("e".to_string());
    assert_eq!(values(&h), vec!["e", "d"]);
}

#[test]
fn resize_larger_keeps_contents() {
    let mut h = with(3, &["a", "b", "c"]);
    h.resize(3);
    assert_eq!(values(&h), vec!["c", "b", "a"]);
    h.resize(10);
    assert_eq!(values(&h), vec!["c", "b", "a"]);
    assert_eq!(h.limit(), 10);
}

#[test]
fn resize_to_zero_empties() {
    let mut h = with(3, &["a", "b"]);
    h.resize(0);
    assert_eq!(h.len(), 0);
}

#[test]
fn paste_removes_and_returns_listed_value() {
    let mut h = with(4, &["a", "b", "c", "d"]);
    let before = history(&h);
    let taken = paste(&mut h, 2).unwrap();
    assert_eq!(taken, before[2].value);
    assert_eq!(taken, "b");
    assert_eq!(h.len(), 3);
    assert_eq!(values(&h), vec!["d", "c", "a"]);
}

#[test]
fn paste_past_end_is_not_found() {
    let mut h = with(4, &["a", "b", "c"]);
    assert_eq!(paste(&mut h, 3), Err(NotFound { index: 3 }));
    assert_eq!(h.len(), 3);
    assert_eq!(values(&h), vec!["c", "b", "a"]);
}

#[test]
fn paste_on_empty_is_not_found() {
    let mut h = ClipboardHistory::new(2);
    assert_eq!(paste(&mut h, 0), Err(NotFound { index: 0 }));
}

#[test]
fn remove_shifts_later_entries() {
    let mut h = with(3, &["a", "b", "c"]);
    assert_eq!(h.remove(0), Ok("c".to_string()));
    assert_eq!(pairs(&history(&h)), vec![(0, "b".to_string()), (1, "a".to_string())]);
    assert_eq!(h.remove(5), Err(NotFound { index: 5 }));
}

#[test]
fn scenario_evict_then_paste() {
    let h0 = with(3, &["a", "b", "c", "d"]);
    let mut h = h0;
    assert_eq!(
        pairs(&history(&h)),
        vec![(0, "d".to_string()), (1, "c".to_string()), (2, "b".to_string())]
    );
    let clip = paste(&mut h, 1).unwrap();
    assert_eq!(clip, "c");
    assert_eq!(pairs(&history(&h)), vec![(0, "d".to_string()), (1, "b".to_string())]);
}

#[test]
fn scenario_push_then_shrink() {
    let mut h = ClipboardHistory::new(2);
    h.push("x".to_string());
    h.resize(1);
    assert_eq!(pairs(&history(&h)), vec![(0, "x".to_string())]);
}

#[test]
fn clipboard_text_is_recorded() {
    let mut h = ClipboardHistory::new(2);
    assert!(on_clipboard_change(&mut h, Some("copied".to_string())));
    assert_eq!(values(&h), vec!["copied"]);
}

#[test]
fn clipboard_change_without_text_is_ignored() {
    let mut h = with(2, &["a"]);
    assert!(!on_clipboard_change(&mut h, None));
    assert_eq!(values(&h), vec!["a"]);
}
