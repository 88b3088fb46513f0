use e_editor::{Cursor, Document, Editor, NavigationEvent, TermSize};

fn at(x: usize, y: usize) -> Cursor {
    Cursor { x, y, row_offset: 0, col_offset: 0 }
}

#[test]
fn end_down_right_reaches_trailing_row() {
    let doc = Document::from_text("Hello\nWorld");
    assert_eq!(doc.get_lines(), 2);
    let size = TermSize { rows: 10, columns: 20 };
    let mut c = Cursor::default();
    c.end(&size);
    assert_eq!(c.x, 19);
    c.clamp(&doc);
    assert_eq!(c.x, 5);
    assert!(!c.react(NavigationEvent::MoveDown, &size, &doc));
    assert_eq!((c.x, c.y), (5, 1));
    c.react(NavigationEvent::MoveRight, &size, &doc);
    assert_eq!((c.x, c.y), (0, 2));
    // the trailing row is the last one: right does nothing there
    c.react(NavigationEvent::MoveRight, &size, &doc);
    assert_eq!((c.x, c.y), (0, 2));
}

#[test]
fn end_event_clamps_to_line_length() {
    let doc = Document::from_text("Hello\nWorld");
    let size = TermSize { rows: 10, columns: 20 };
    let mut c = Cursor::default();
    c.react(NavigationEvent::End, &size, &doc);
    assert_eq!(c, at(5, 0));
}

#[test]
fn move_down_stops_at_trailing_row() {
    let doc = Document::from_text("a\nb");
    let size = TermSize { rows: 10, columns: 20 };
    let mut c = at(1, 1);
    c.react(NavigationEvent::MoveDown, &size, &doc);
    assert_eq!(c, at(0, 2));
    c.react(NavigationEvent::MoveDown, &size, &doc);
    assert_eq!(c, at(0, 2));
}

#[test]
fn move_up_at_top_does_nothing() {
    let doc = Document::from_text("abc\ndef");
    let size = TermSize { rows: 10, columns: 20 };
    let mut c = at(2, 0);
    c.react(NavigationEvent::MoveUp, &size, &doc);
    assert_eq!(c, at(2, 0));
    let mut d = at(2, 1);
    d.react(NavigationEvent::MoveUp, &size, &doc);
    assert_eq!(d, at(2, 0));
}

#[test]
fn left_wraps_to_end_of_previous_line() {
    let doc = Document::from_text("abc\nde");
    let size = TermSize { rows: 10, columns: 20 };
    let mut c = at(0, 1);
    c.react(NavigationEvent::MoveLeft, &size, &doc);
    assert_eq!(c, at(3, 0));
    let mut top = at(0, 0);
    top.react(NavigationEvent::MoveLeft, &size, &doc);
    assert_eq!(top, at(0, 0));
}

#[test]
fn left_then_right_returns_to_start() {
    let doc = Document::from_text("first line\nsecond\nthird");
    let size = TermSize { rows: 10, columns: 20 };
    for y in 1..=3 {
        let mut c = at(0, y);
        c.react(NavigationEvent::MoveLeft, &size, &doc);
        c.react(NavigationEvent::MoveRight, &size, &doc);
        assert_eq!((c.x, c.y), (0, y));
    }
}

#[test]
fn right_moves_within_line() {
    let doc = Document::from_text("abc\nde");
    let size = TermSize { rows: 10, columns: 20 };
    let mut c = at(1, 0);
    c.react(NavigationEvent::MoveRight, &size, &doc);
    assert_eq!(c, at(2, 0));
}

#[test]
fn home_goes_to_column_zero() {
    let doc = Document::from_text("abcdef");
    let size = TermSize { rows: 10, columns: 20 };
    let mut c = at(4, 0);
    c.react(NavigationEvent::Home, &size, &doc);
    assert_eq!(c, at(0, 0));
}

#[test]
fn page_down_moves_half_a_screen() {
    let text = "0\n1\n2\n3\n4\n5\n6\n7\n8\n9";
    let doc = Document::from_text(text);
    let size = TermSize { rows: 7, columns: 20 };
    let mut c = Cursor::default();
    c.react(NavigationEvent::PageDown, &size, &doc);
    assert_eq!(c.y, 3);
    c.react(NavigationEvent::PageDown, &size, &doc);
    assert_eq!(c.y, 6);
    c.react(NavigationEvent::PageDown, &size, &doc);
    assert_eq!(c.y, 9);
    c.react(NavigationEvent::PageDown, &size, &doc);
    assert_eq!(c.y, 10);
    c.react(NavigationEvent::PageDown, &size, &doc);
    assert_eq!(c.y, 10);
}

#[test]
fn page_down_k_times_is_bounded() {
    let doc = Document::from_text("a\nb\nc\nd\ne");
    let size = TermSize { rows: 4, columns: 20 };
    for k in 0..8usize {
        let mut c = Cursor::default();
        for _ in 0..k {
            c.react(NavigationEvent::PageDown, &size, &doc);
        }
        assert!(c.y <= k * (size.rows / 2));
        assert!(c.y <= doc.get_lines());
    }
}

#[test]
fn page_up_stops_at_top() {
    let doc = Document::from_text("0\n1\n2\n3\n4\n5");
    let size = TermSize { rows: 6, columns: 20 };
    let mut c = at(0, 5);
    c.react(NavigationEvent::PageUp, &size, &doc);
    assert_eq!(c.y, 2);
    c.react(NavigationEvent::PageUp, &size, &doc);
    assert_eq!(c.y, 0);
}

#[test]
fn clamp_holds_after_every_event() {
    let doc = Document::from_text("a long first line\nx\n\nmid\r\nend");
    let size = TermSize { rows: 4, columns: 30 };
    let events = [
        NavigationEvent::End,
        NavigationEvent::MoveDown,
        NavigationEvent::MoveRight,
        NavigationEvent::End,
        NavigationEvent::MoveDown,
        NavigationEvent::MoveLeft,
        NavigationEvent::PageDown,
        NavigationEvent::End,
        NavigationEvent::MoveUp,
        NavigationEvent::MoveRight,
        NavigationEvent::PageUp,
        NavigationEvent::End,
        NavigationEvent::PageDown,
        NavigationEvent::PageDown,
        NavigationEvent::MoveLeft,
        NavigationEvent::Other,
    ];
    let mut c = Cursor::default();
    for e in events {
        c.react(e, &size, &doc);
        assert!(c.x <= doc.line_len(c.y));
        assert!(c.y <= doc.get_lines());
    }
}

#[test]
fn other_event_changes_nothing() {
    let doc = Document::from_text("abc");
    let size = TermSize { rows: 4, columns: 30 };
    let mut c = at(2, 0);
    assert!(!c.react(NavigationEvent::Other, &size, &doc));
    assert_eq!(c, at(2, 0));
}

#[test]
fn quit_event_reports_quit() {
    let doc = Document::from_text("abc");
    let size = TermSize { rows: 4, columns: 30 };
    let mut c = at(2, 0);
    assert!(c.react(NavigationEvent::Quit, &size, &doc));
}

#[test]
fn scroll_keeps_cursor_in_view() {
    let size = TermSize { rows: 5, columns: 10 };
    let mut c = Cursor { x: 25, y: 12, row_offset: 0, col_offset: 0 };
    c.scroll(&size);
    assert_eq!((c.row_offset, c.col_offset), (8, 16));
    let mut up = Cursor { x: 3, y: 2, row_offset: 6, col_offset: 7 };
    up.scroll(&size);
    assert_eq!((up.row_offset, up.col_offset), (2, 3));
    let mut inside = Cursor { x: 5, y: 4, row_offset: 1, col_offset: 0 };
    inside.scroll(&size);
    assert_eq!((inside.row_offset, inside.col_offset), (1, 0));
}

#[test]
fn scroll_invariant_over_many_positions() {
    let size = TermSize { rows: 3, columns: 4 };
    for y in 0..20usize {
        for ro in 0..20usize {
            let mut c = Cursor { x: y, y, row_offset: ro, col_offset: ro };
            c.scroll(&size);
            assert!(c.row_offset <= c.y && c.y < c.row_offset + size.rows);
            assert!(c.col_offset <= c.x && c.x < c.col_offset + size.columns);
        }
    }
}

#[test]
fn editor_quit_and_resize() {
    let mut ed = Editor::default();
    assert!(!ed.dispatch_event(NavigationEvent::Resize(40, 12)));
    assert_eq!(ed.size, TermSize { rows: 12, columns: 40 });
    assert!(!ed.dispatch_event(NavigationEvent::End));
    assert_eq!(ed.cursor.x, 11);
    let before = ed.cursor;
    assert!(ed.dispatch_event(NavigationEvent::Quit));
    assert_eq!(ed.cursor, before);
}

#[test]
fn editor_open_keeps_cursor() {
    let mut ed = Editor::default();
    ed.dispatch_event(NavigationEvent::Resize(40, 12));
    ed.dispatch_event(NavigationEvent::MoveRight);
    ed.open(Document::from_text("one\ntwo\nthree"));
    assert_eq!(ed.cursor, at(1, 0));
    assert_eq!(ed.document.get_lines(), 3);
}
