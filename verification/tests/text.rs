use hecto::document::Document;
use hecto::render::to_decimal;
use hecto::row::Row;
use hecto::to_ctrl_byte;

#[test]
fn render_plain_slice() {
    let row = Row::new("hello world");
    assert_eq!(row.render(0, 5), "hello");
    assert_eq!(row.render(6, 11), "world");
    assert_eq!(row.render(0, 11), "hello world");
}

#[test]
fn render_clamps_end_to_length() {
    let row = Row::new("hello");
    assert_eq!(row.render(0, 100), "hello");
    assert_eq!(row.render(3, 100), "lo");
}

#[test]
fn render_empty_when_start_past_end() {
    let row = Row::new("hello");
    assert_eq!(row.render(4, 2), "");
    assert_eq!(row.render(100, 200), "");
    assert_eq!(row.render(5, 5), "");
}

#[test]
fn render_length_formula() {
    // |render(start, end)| == max(0, min(end, len) - min(start, min(end, len)))
    let row = Row::new("abcdef");
    let len = row.len();
    for start in 0..10usize {
        for end in 0..10usize {
            let e = end.min(len);
            let s = start.min(e);
            assert_eq!(row.render(start, end).chars().count(), e - s);
        }
    }
}

#[test]
fn row_len_counts_characters_not_bytes() {
    let row = Row::new("héllo");
    assert_eq!(row.len(), 5);
    assert_eq!(row.render(1, 2), "é");
}

#[test]
fn tabs_expand_to_five_spaces() {
    let row = Row::new("a\tb");
    assert_eq!(row.len(), 7);
    assert_eq!(row.render(0, 7), "a     b");
    let only_tabs = Row::new("\t\t");
    assert_eq!(only_tabs.len(), 10);
    assert_eq!(only_tabs.render(0, 10), "          ");
}

#[test]
fn document_splits_lines() {
    let doc = Document::from_text(None, "one\ntwo\nthree");
    assert_eq!(doc.len(), 3);
    assert!(!doc.is_empty());
    assert_eq!(doc.row(0).unwrap().render(0, 10), "one");
    assert_eq!(doc.row(1).unwrap().render(0, 10), "two");
    assert_eq!(doc.row(2).unwrap().render(0, 10), "three");
    assert!(doc.row(3).is_none());
}

#[test]
fn document_trailing_newline_adds_no_row() {
    let doc = Document::from_text(None, "one\ntwo\n");
    assert_eq!(doc.len(), 2);
    let doc2 = Document::from_text(None, "\n");
    assert_eq!(doc2.len(), 1);
    assert_eq!(doc2.row(0).unwrap().len(), 0);
}

#[test]
fn document_strips_carriage_return_before_newline() {
    let doc = Document::from_text(None, "a\r\nb");
    assert_eq!(doc.len(), 2);
    assert_eq!(doc.row(0).unwrap().render(0, 10), "a");
    assert_eq!(doc.row(1).unwrap().render(0, 10), "b");
}

#[test]
fn document_empty_text_has_no_rows() {
    let doc = Document::from_text(None, "");
    assert_eq!(doc.len(), 0);
    assert!(doc.is_empty());
    assert!(doc.row(0).is_none());
}

#[test]
fn document_default_is_empty_and_nameless() {
    let doc = Document::default();
    assert!(doc.is_empty());
    assert_eq!(doc.len(), 0);
    assert!(doc.name().is_none());
}

#[test]
fn document_keeps_its_name() {
    let doc = Document::from_text(Some("notes.txt".to_string()), "x");
    assert_eq!(doc.name().as_deref(), Some("notes.txt"));
}

#[test]
fn document_expands_tabs_in_every_row() {
    let doc = Document::from_text(None, "a\tb\n\tc");
    assert_eq!(doc.row(0).unwrap().render(0, 20), "a     b");
    assert_eq!(doc.row(1).unwrap().render(0, 20), "     c");
}

#[test]
fn row_default_is_empty() {
    let row = Row::default();
    assert_eq!(row.len(), 0);
    assert_eq!(row.render(0, 10), "");
}

#[test]
fn decimal_formatting() {
    assert_eq!(to_decimal(0), "0");
    assert_eq!(to_decimal(7), "7");
    assert_eq!(to_decimal(10), "10");
    assert_eq!(to_decimal(105), "105");
    assert_eq!(to_decimal(12345), "12345");
}

#[test]
fn ctrl_byte_of_q() {
    assert_eq!(to_ctrl_byte('q'), 17);
    assert_eq!(to_ctrl_byte('a'), 1);
}
