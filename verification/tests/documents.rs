use ddk_server::document::{Document, TextRange};

fn range(start_line: u32, start_character: u32, end_line: u32, end_character: u32) -> TextRange {
    TextRange { start_line, start_character, end_line, end_character }
}

fn cut(text: &str, r: TextRange) -> Option<&str> {
    let offsets = Document::new(text).range_offsets(r);
    let part = Document::new(text).range(r);
    assert_eq!(part, offsets.map(|(start, end)| &text[start..end]));
    part
}

const TEXT: &str = "begin\n  x := 1;\n\nend.\n";

#[test]
fn lines_start_behind_line_feeds() {
    let document = Document::new(TEXT);
    assert_eq!(document.find_line(0), Some(0));
    assert_eq!(document.find_line(1), Some(6));
    assert_eq!(document.find_line(2), Some(16));
    assert_eq!(document.find_line(3), Some(17));
    assert_eq!(document.find_line(4), None);
    assert_eq!(document.find_line(u32::MAX), None);
    assert_eq!(Document::new("").find_line(0), None);
    assert_eq!(Document::new("a").find_line(0), Some(0));
    assert_eq!(Document::new("a").find_line(1), None);
    assert_eq!(Document::new("\n").find_line(0), Some(0));
    assert_eq!(Document::new("\n").find_line(1), None);
    assert_eq!(Document::new("\n\n").find_line(1), Some(1));
}

#[test]
fn a_range_within_a_line() {
    assert_eq!(Document::new(TEXT).range_offsets(range(1, 2, 1, 8)), Some((8, 14)));
    assert_eq!(cut(TEXT, range(1, 2, 1, 8)), Some("x := 1"));
    assert_eq!(cut(TEXT, range(0, 0, 0, 5)), Some("begin"));
    assert_eq!(cut(TEXT, range(3, 1, 3, 1)), Some(""));
}

#[test]
fn a_range_over_lines() {
    assert_eq!(cut(TEXT, range(0, 3, 1, 3)), Some("in\n  x"));
    assert_eq!(cut(TEXT, range(1, 0, 3, 4)), Some("  x := 1;\n\nend."));
    assert_eq!(cut(TEXT, range(0, 0, 2, 0)), Some("begin\n  x := 1;\n"));
}

#[test]
fn a_range_that_ends_behind_the_last_line_ends_with_the_text() {
    assert_eq!(cut(TEXT, range(3, 0, 9, 7)), Some("end.\n"));
    assert_eq!(cut(TEXT, range(0, 0, 4, 0)), Some(TEXT));
    assert_eq!(cut("", range(0, 0, 0, 0)), Some(""));
}

#[test]
fn a_range_that_starts_at_no_line_starts_with_the_text() {
    assert_eq!(cut(TEXT, range(7, 3, 9, 0)), Some(TEXT));
    assert_eq!(cut(TEXT, range(3, 2, 1, 2)), Some("begin\n  "));
}

#[test]
fn a_range_outside_the_text_or_backwards_is_none() {
    assert_eq!(cut(TEXT, range(3, 0, 3, 6)), None);
    assert_eq!(cut(TEXT, range(3, 9, 3, 9)), None);
    assert_eq!(cut(TEXT, range(1, 5, 1, 2)), None);
    assert_eq!(cut(TEXT, range(0, u32::MAX, 1, 0)), None);
    assert_eq!(cut(TEXT, range(0, 0, 0, u32::MAX)), None);
}

#[test]
fn a_range_does_not_cut_a_character() {
    let text = "a→b\nc";
    assert_eq!(cut(text, range(0, 0, 0, 1)), Some("a"));
    assert_eq!(cut(text, range(0, 1, 0, 4)), Some("→"));
    assert_eq!(cut(text, range(0, 0, 0, 2)), None);
    assert_eq!(cut(text, range(0, 3, 0, 4)), None);
    assert_eq!(cut(text, range(0, 4, 1, 1)), Some("b\nc"));
}

#[test]
fn line_feeds_alone_end_lines() {
    let text = "a\r\nb\rc\n";
    let document = Document::new(text);
    assert_eq!(document.find_line(1), Some(3));
    assert_eq!(document.find_line(2), None);
    assert_eq!(cut(text, range(1, 0, 1, 3)), Some("b\rc"));
}
