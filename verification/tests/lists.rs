use session_sync::lists::{absorb, count_union, keep_first};

fn list(entries: &[&str]) -> Vec<String> {
    entries.iter().map(|entry| entry.to_string()).collect()
}

#[test]
fn first_of_equal_entries_is_kept_in_order() {
    assert_eq!(keep_first(&list(&["b", "a", "b", "c", "a"])), list(&["b", "a", "c"]));
    assert_eq!(keep_first(&list(&["x"])), list(&["x"]));
    assert_eq!(keep_first(&list(&[])), list(&[]));
}

#[test]
fn keeping_first_twice_changes_nothing() {
    let once = keep_first(&list(&["b", "a", "b"]));
    assert_eq!(keep_first(&once), once);
}

#[test]
fn absorbing_adds_what_is_new() {
    let mut seen = list(&["a"]);
    absorb(&mut seen, &list(&["b", "a", "b"]));
    assert_eq!(seen, list(&["a", "b"]));
}

#[test]
fn entries_of_both_lists_are_counted_once() {
    assert_eq!(count_union(&list(&["a", "b"]), &list(&["b", "c"])), 3);
    assert_eq!(count_union(&list(&["b", "c"]), &list(&["a", "b"])), 3);
    assert_eq!(count_union(&list(&["a"]), &list(&["a"])), 1);
    assert_eq!(count_union(&list(&[]), &list(&["a"])), 1);
    assert_eq!(count_union(&list(&[]), &list(&[])), 0);
}
