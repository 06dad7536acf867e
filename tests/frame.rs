use pound::contents::EditorContents;
use pound::editor::{window_size, ControlSignal, Editor, Event, KeyCode, KeyEvent, SizeError};
use pound::editor::{MODIFIERS_NONE, MODIFIER_CONTROL, MODIFIER_SHIFT};
use pound::output::Output;
use pound::render::{banner_row, join_segments, row_slice, welcome_message};
use pound::rows::EditorRows;

const HIDE: &str = "\x1b[?25l";
const SHOW: &str = "\x1b[?25h";
const CLEAR: &str = "\x1b[K";

/// The screen rows of a frame, each without its clear marker.
fn screen_rows(frame: &str) -> Vec<String> {
    let start = HIDE.len() + "\x1b[1;1H".len();
    assert!(frame.starts_with(HIDE));
    assert!(frame[HIDE.len()..].starts_with("\x1b[1;1H"));
    let end = frame.rfind("\x1b[").unwrap();
    let end = frame[..end].rfind("\x1b[").unwrap();
    frame[start..end]
        .split("\r\n")
        .map(|r| {
            assert!(r.ends_with(CLEAR));
            r[..r.len() - CLEAR.len()].to_string()
        })
        .collect()
}

fn key(code: KeyCode, modifiers: u8) -> Event {
    Event::Key(KeyEvent { code, modifiers })
}

#[test]
fn empty_buffer_centers_banner() {
    let mut out = Output::new((80, 24), EditorRows::new());
    let frame = out.refresh_screen();
    let rows = screen_rows(&frame);
    assert_eq!(rows.len(), 24);
    let banner = "Pound editor -- Version 1.0.0";
    let expected = format!("~{}{}", " ".repeat(24), banner);
    for (i, r) in rows.iter().enumerate() {
        if i == 8 {
            assert_eq!(r, &expected);
        } else {
            assert_eq!(r, "~");
        }
    }
    assert!(frame.ends_with(&format!("\x1b[1;1H{}", SHOW)));
    assert_eq!(out.editor_contents.as_str(), "");
}

#[test]
fn banner_exact_fit_and_odd_padding() {
    assert_eq!(banner_row(29), "Pound editor -- Version 1.0.0");
    assert_eq!(banner_row(30), "Pound editor -- Version 1.0.0");
    assert_eq!(banner_row(32), "~Pound editor -- Version 1.0.0");
    assert_eq!(banner_row(35), "~  Pound editor -- Version 1.0.0");
}

#[test]
fn narrow_banner_joins_wrapped_lines() {
    let welcome = welcome_message();
    let joined: String = textwrap::wrap(&welcome, 10).iter().map(|l| l.to_string()).collect();
    assert_eq!(banner_row(10), joined);
    assert_ne!(banner_row(10), welcome);
    let at_zero: String = textwrap::wrap(&welcome, 0).iter().map(|l| l.to_string()).collect();
    assert_eq!(banner_row(0), at_zero);
}

#[test]
fn resize_beyond_terminal_sizes_still_clamps() {
    let mut editor = Editor::new((80, 24), EditorRows::new());
    editor.output.cursor_controller.x = 100_000;
    editor.process_resize(70_000, 3);
    let c = editor.output.cursor_controller;
    assert_eq!((c.x, c.y, c.x_max, c.y_max), (69_999, 0, 69_999, 2));
    assert_eq!(editor.output.win_size, (70_000, 3));
}

#[test]
fn join_segments_concatenates_in_order() {
    let parts = vec!["ab".to_string(), "".to_string(), "c d".to_string()];
    assert_eq!(join_segments(&parts), "abc d");
    assert_eq!(join_segments(&Vec::new()), "");
}

#[test]
fn row_slicing_clips_to_window() {
    let row: String = (0..50).map(|i| char::from(b'a' + (i % 26) as u8)).collect();
    assert_eq!(row_slice(&row, 10, 20), &row[10..30]);
    assert_eq!(row_slice(&row, 60, 20), "");
    assert_eq!(row_slice(&row, 40, 20), &row[40..50]);
    assert_eq!(row_slice(&row, 50, 20), "");
    assert_eq!(row_slice("héllo", 1, 3), "éll");
}

#[test]
fn frame_shows_rows_and_places_cursor() {
    let rows = EditorRows::from_text("hello world\nsecond\n");
    let mut out = Output::new((5, 3), rows);
    out.cursor_controller.x = 7;
    out.cursor_controller.y = 1;
    let frame = out.refresh_screen();
    assert_eq!(out.cursor_controller.column_offset, 3);
    assert_eq!(out.cursor_controller.row_offset, 0);
    assert_eq!(screen_rows(&frame), vec!["lo wo", "ond", "~"]);
    assert!(frame.ends_with(&format!("\x1b[2;5H{}", SHOW)));
}

#[test]
fn frame_scrolls_vertically() {
    let rows = EditorRows::from_text("0\n1\n2\n3\n4\n");
    let mut editor = Editor::new((10, 2), rows);
    for _ in 0..4 {
        assert_eq!(editor.process_event(key(KeyCode::Down, MODIFIERS_NONE)), Ok(ControlSignal::Continue));
    }
    let frame = editor.output.refresh_screen();
    assert_eq!(editor.output.cursor_controller.row_offset, 3);
    assert_eq!(screen_rows(&frame), vec!["3", "4"]);
    assert!(frame.ends_with(&format!("\x1b[2;1H{}", SHOW)));
}

#[test]
fn contents_buffer_accumulates_and_empties() {
    let mut c = EditorContents::new();
    c.push('a');
    c.push_str("bc");
    c.push('é');
    assert_eq!(c.as_str(), "abcé");
    assert_eq!(c.take(), "abcé");
    assert_eq!(c.as_str(), "");
}

#[test]
fn quit_chord_quits_without_change() {
    let rows = EditorRows::from_text("a\nb\nc\n");
    let mut editor = Editor::new((10, 5), rows);
    editor.process_event(key(KeyCode::Down, MODIFIERS_NONE)).unwrap();
    editor.process_event(key(KeyCode::Right, MODIFIERS_NONE)).unwrap();
    for _ in 0..2 {
        let before = editor.output.cursor_controller;
        assert_eq!(editor.process_event(key(KeyCode::Char('q'), MODIFIER_CONTROL)), Ok(ControlSignal::Quit));
        assert_eq!(editor.output.cursor_controller, before);
        assert_eq!(editor.output.win_size, (10, 5));
    }
}

#[test]
fn other_keys_are_ignored() {
    let mut editor = Editor::new((10, 5), EditorRows::new());
    let before = editor.output.cursor_controller;
    let events = [
        key(KeyCode::Char('q'), MODIFIERS_NONE),
        key(KeyCode::Char('q'), MODIFIER_CONTROL | MODIFIER_SHIFT),
        key(KeyCode::Right, MODIFIER_SHIFT),
        key(KeyCode::Other, MODIFIERS_NONE),
        Event::Other,
    ];
    for e in events.iter() {
        assert_eq!(editor.process_event(*e), Ok(ControlSignal::Continue));
    }
    assert_eq!(editor.output.cursor_controller, before);
}

#[test]
fn arrow_keys_move_cursor() {
    let mut editor = Editor::new((10, 5), EditorRows::from_text("a\nb\n"));
    editor.process_keypress(KeyEvent { code: KeyCode::Right, modifiers: MODIFIERS_NONE });
    editor.process_keypress(KeyEvent { code: KeyCode::Down, modifiers: MODIFIERS_NONE });
    assert_eq!((editor.output.cursor_controller.x, editor.output.cursor_controller.y), (1, 1));
    editor.process_keypress(KeyEvent { code: KeyCode::Left, modifiers: MODIFIERS_NONE });
    editor.process_keypress(KeyEvent { code: KeyCode::Up, modifiers: MODIFIERS_NONE });
    assert_eq!((editor.output.cursor_controller.x, editor.output.cursor_controller.y), (0, 0));
}

#[test]
fn resize_event_reclamps() {
    let mut editor = Editor::new((80, 24), EditorRows::from_text(&"x\n".repeat(30)));
    for _ in 0..20 {
        editor.process_event(key(KeyCode::Down, MODIFIERS_NONE)).unwrap();
        editor.process_event(key(KeyCode::Right, MODIFIERS_NONE)).unwrap();
    }
    assert_eq!(editor.process_event(Event::Resize(10, 5)), Ok(ControlSignal::Continue));
    assert_eq!(editor.output.win_size, (10, 5));
    let c = editor.output.cursor_controller;
    assert_eq!((c.x, c.y, c.x_max, c.y_max), (9, 4, 9, 4));
    editor.process_resize(3, 2);
    assert_eq!((editor.output.cursor_controller.x, editor.output.cursor_controller.y), (2, 1));
}

#[test]
fn degenerate_sizes_are_refused() {
    assert_eq!(window_size(0, 24), Err(SizeError::Degenerate));
    assert_eq!(window_size(80, 0), Err(SizeError::Degenerate));
    assert_eq!(window_size(80, 24), Ok((80, 24)));
    let mut editor = Editor::new((80, 24), EditorRows::new());
    assert_eq!(editor.process_event(Event::Resize(0, 5)), Err(SizeError::Degenerate));
    assert_eq!(editor.output.win_size, (80, 24));
}
