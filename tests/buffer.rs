use neoterm::buffer::TextBuffer;

fn filled(capacity: usize, viewport: usize, lines: &[&str]) -> TextBuffer {
    let mut b = TextBuffer::with_viewport(capacity, viewport);
    for l in lines {
        b.add_line(l.to_string());
    }
    b
}

fn held(b: &TextBuffer) -> Vec<String> {
    b.lines().to_vec()
}

#[test]
fn keeps_last_capacity_lines() {
    let b = filled(3, 3, &["a", "b", "c", "d"]);
    assert_eq!(held(&b), vec!["b", "c", "d"]);
}

#[test]
fn never_exceeds_capacity() {
    let mut b = TextBuffer::new(4);
    for i in 0..50 {
        b.add_line(format!("line {}", i));
        assert!(b.len() <= b.capacity());
    }
    assert_eq!(held(&b), vec!["line 46", "line 47", "line 48", "line 49"]);
}

#[test]
fn zero_capacity_holds_nothing() {
    let mut b = TextBuffer::new(0);
    b.add_line("x".to_string());
    assert_eq!(b.len(), 0);
    assert!(b.visible_lines().is_empty());
}

#[test]
fn visible_window_is_bounded() {
    let mut b = filled(10, 3, &["a", "b", "c", "d", "e"]);
    assert_eq!(b.visible_lines().to_vec(), vec!["c", "d", "e"]);
    assert!(b.is_at_bottom());
    b.scroll_to_top();
    assert_eq!(b.visible_lines().to_vec(), vec!["a", "b", "c"]);
    let empty = TextBuffer::with_viewport(5, 3);
    assert!(empty.visible_lines().is_empty());
}

#[test]
fn scroll_is_clamped() {
    let mut b = filled(10, 3, &["a", "b", "c", "d", "e"]);
    assert_eq!(b.scroll_offset(), 2);
    b.scroll_down();
    b.scroll_down();
    assert_eq!(b.scroll_offset(), 2);
    b.scroll_up();
    assert_eq!(b.scroll_offset(), 1);
    b.scroll_up();
    b.scroll_up();
    b.scroll_up();
    assert_eq!(b.scroll_offset(), 0);
    for _ in 0..10 {
        b.scroll_down();
    }
    assert_eq!(b.scroll_offset(), 2);
    b.scroll_to_top();
    b.scroll_to_bottom();
    assert_eq!(b.scroll_offset(), 2);
}

#[test]
fn viewport_follows_bottom_only_when_there() {
    let mut b = filled(10, 2, &["a", "b", "c"]);
    assert_eq!(b.scroll_offset(), 1);
    b.add_line("d".to_string());
    assert_eq!(b.scroll_offset(), 2);
    b.scroll_to_top();
    b.add_line("e".to_string());
    assert_eq!(b.scroll_offset(), 0);
    assert!(!b.is_at_bottom());
}

#[test]
fn eviction_keeps_first_visible_line() {
    let mut b = filled(4, 2, &["a", "b", "c", "d"]);
    b.scroll_up();
    assert_eq!(b.scroll_offset(), 1);
    b.add_line("e".to_string());
    assert_eq!(held(&b), vec!["b", "c", "d", "e"]);
    assert_eq!(b.scroll_offset(), 0);
    assert_eq!(b.visible_lines().to_vec(), vec!["b", "c"]);
}

#[test]
fn clear_empties_and_returns_to_top() {
    let mut b = filled(5, 2, &["a", "b", "c", "d"]);
    b.clear();
    assert_eq!(b.len(), 0);
    assert_eq!(b.scroll_offset(), 0);
    assert_eq!(b.capacity(), 5);
    assert_eq!(b.viewport_height(), 2);
}

#[test]
fn resizing_viewport_clamps_offset() {
    let mut b = filled(10, 2, &["a", "b", "c", "d", "e"]);
    assert_eq!(b.scroll_offset(), 3);
    b.set_viewport_height(4);
    assert_eq!(b.scroll_offset(), 1);
    assert_eq!(b.position(), (1, 5, 4));
    b.set_viewport_height(10);
    assert_eq!(b.scroll_offset(), 0);
}

#[test]
fn add_lines_appends_in_order() {
    let mut b = TextBuffer::new(3);
    b.add_lines(vec!["a".to_string(), "b".to_string(), "c".to_string(), "d".to_string()]);
    assert_eq!(held(&b), vec!["b", "c", "d"]);
}
