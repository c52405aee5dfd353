use browser_core::history::NavigationHistory;

fn text(s: &str) -> String {
    s.to_string()
}

#[test]
fn back_twice_then_push_discards_forward() {
    let mut h = NavigationHistory::new();
    h.push(text("/a"));
    h.push(text("/b"));
    h.push(text("/c"));
    assert_eq!(h.back(), Some(text("/b")));
    assert_eq!(h.back(), Some(text("/a")));
    assert_eq!(h.current(), Some(text("/a")));
    h.push(text("/d"));
    assert_eq!(h.len(), 2);
    assert_eq!(h.get(0), Some(text("/a")));
    assert_eq!(h.get(1), Some(text("/d")));
    assert_eq!(h.current(), Some(text("/d")));
    assert_eq!(h.forward(), None);
    assert_eq!(h.current(), Some(text("/d")));
    assert_eq!(h.index(), 1);
}

#[test]
fn empty_history_has_no_current_entry() {
    let mut h = NavigationHistory::new();
    assert!(h.is_valid());
    assert_eq!(h.len(), 0);
    assert_eq!(h.index(), 0);
    assert_eq!(h.current(), None);
    assert_eq!(h.back(), None);
    assert_eq!(h.forward(), None);
    assert_eq!(h.get(0), None);
    assert!(h.is_valid());
}

#[test]
fn back_and_forward_move_the_position_only() {
    let mut h = NavigationHistory::new();
    for p in ["/a", "/b", "/c"] {
        h.push(text(p));
        assert!(h.is_valid());
        assert_eq!(h.current(), Some(text(p)));
    }
    assert_eq!(h.back(), Some(text("/b")));
    assert_eq!(h.forward(), Some(text("/c")));
    assert_eq!(h.forward(), None);
    assert_eq!(h.back(), Some(text("/b")));
    assert_eq!(h.back(), Some(text("/a")));
    assert_eq!(h.back(), None);
    assert_eq!(h.index(), 0);
    assert_eq!(h.len(), 3);
    assert_eq!(h.forward(), Some(text("/b")));
    assert!(h.is_valid());
}

#[test]
fn push_in_the_middle_drops_what_lay_ahead() {
    let mut h = NavigationHistory::new();
    for p in ["/a", "/b", "/c", "/d"] {
        h.push(text(p));
    }
    h.back();
    h.back();
    h.push(text("/e"));
    assert_eq!(h.len(), 3);
    assert_eq!(h.get(0), Some(text("/a")));
    assert_eq!(h.get(1), Some(text("/b")));
    assert_eq!(h.get(2), Some(text("/e")));
    assert_eq!(h.get(3), None);
    assert_eq!(h.index(), 2);
}

#[test]
fn the_same_path_can_be_visited_twice() {
    let mut h = NavigationHistory::new();
    h.push(text("/a"));
    h.push(text("/a"));
    assert_eq!(h.len(), 2);
    assert_eq!(h.back(), Some(text("/a")));
}
