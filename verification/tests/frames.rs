use hecto::document::Document;
use hecto::editor::{Editor, Position, StatusMessage};
use hecto::Config;

fn editor_of(fname: Option<&str>, text: &str) -> Editor {
    let doc = Document::from_text(fname.map(|s| s.to_string()), text);
    Editor::new(Config { fpath: fname.map(|s| s.to_string()) }, Some(doc), 0)
}

#[test]
fn empty_document_gets_centered_banner() {
    let e = editor_of(None, "");
    let lines = e.draw_rows(80, 24);
    assert_eq!(lines.len(), 24);
    let expected = format!("~{}Hecto editor -- version 0.1.0", " ".repeat(24));
    for (i, line) in lines.iter().enumerate() {
        if i == 8 {
            assert_eq!(line, &expected);
        } else {
            assert_eq!(line, "~");
        }
    }
}

#[test]
fn banner_is_truncated_on_a_narrow_terminal() {
    let e = editor_of(None, "");
    let lines = e.draw_rows(10, 24);
    assert_eq!(lines[8], "~Hecto edi");
    let tiny = e.draw_rows(1, 24);
    assert_eq!(tiny[8], "~");
}

#[test]
fn rows_show_the_visible_slice() {
    let mut e = editor_of(None, "hello\n\nabcdefghijkl");
    e.offset = Position { x: 2, y: 1 };
    let lines = e.draw_rows(5, 4);
    assert_eq!(lines, vec!["", "cdefg", "~", "~"]);
}

#[test]
fn nonempty_document_shows_no_banner() {
    let e = editor_of(None, "only line");
    let lines = e.draw_rows(80, 24);
    assert_eq!(lines[0], "only line");
    for line in &lines[1..] {
        assert_eq!(line, "~");
    }
}

#[test]
fn status_bar_shows_name_and_position() {
    let e = editor_of(Some("test.txt"), "one\ntwo\nthree");
    assert_eq!(e.draw_status_bar(20), "[test.txt] - 1/3    ");
}

#[test]
fn status_bar_uses_placeholder_without_name() {
    let mut e = editor_of(None, "one\ntwo\nthree");
    e.cur_pos = Position { x: 0, y: 2 };
    assert_eq!(e.draw_status_bar(16), "[No Name] - 3/3 ");
}

#[test]
fn status_bar_truncates_long_names() {
    let e = editor_of(Some("abcdefghijklmnopqrstuvwxy"), "x");
    assert_eq!(e.draw_status_bar(0), "[abcdefghijklmnopqrst] - 1/1");
}

#[test]
fn message_bar_shows_fresh_message_only() {
    let mut e = editor_of(None, "x");
    e.status_message = StatusMessage::new("hello there".to_string(), 1000);
    assert_eq!(e.draw_message_bar(1000, 80), "hello there");
    assert_eq!(e.draw_message_bar(5999, 80), "hello there");
    assert_eq!(e.draw_message_bar(6000, 80), "");
    // A clock that moved backwards keeps the message visible.
    assert_eq!(e.draw_message_bar(500, 80), "hello there");
}

#[test]
fn message_bar_truncates_to_terminal_width() {
    let mut e = editor_of(None, "x");
    e.status_message = StatusMessage::new("hello there".to_string(), 0);
    assert_eq!(e.draw_message_bar(0, 5), "hello");
}

#[test]
fn status_message_keeps_text_and_time() {
    let m = StatusMessage::new("saved".to_string(), 42);
    assert_eq!(m.text, "saved");
    assert_eq!(m.time, 42);
}

#[test]
fn helper_lines_are_exact() {
    assert_eq!(hecto::render::spaces(4), "    ");
    assert_eq!(hecto::render::truncate_chars("hello", 3), "hel");
    assert_eq!(hecto::render::truncate_chars("hello", 9), "hello");
    let banner = hecto::render::welcome_line(80);
    assert_eq!(banner.chars().count(), 54);
    assert!(banner.starts_with("~"));
    assert!(banner.ends_with("Hecto editor -- version 0.1.0"));
}

#[test]
fn frame_gathers_rows_bars_and_cursor() {
    let mut e = editor_of(Some("test.txt"), "one\ntwo\nthree");
    e.cur_pos = Position { x: 2, y: 1 };
    e.update_offset(20, 10);
    let frame = e.build_frame(20, 10, 0);
    assert_eq!(frame.rows.len(), 10);
    assert_eq!(frame.rows[0], "one");
    assert_eq!(frame.rows[3], "~");
    assert_eq!(frame.status, "[test.txt] - 2/3    ");
    assert_eq!(frame.message, "HELP: Ctrl-Q = quit");
    assert_eq!(frame.cursor, Position { x: 2, y: 1 });
}

#[test]
fn draw_row_uses_the_horizontal_offset() {
    let mut e = editor_of(None, "abcdefghijkl");
    e.offset = Position { x: 3, y: 0 };
    let row = e.document.row(0).unwrap();
    assert_eq!(e.draw_row(row, 4), "defg");
}
