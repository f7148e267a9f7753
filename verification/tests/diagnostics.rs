use ddk_server::diag::{
    CompilerLineDiagnostic, DiagnosticData, DiagnosticKind, DiagnosticStream, RawDiagnostic,
    StreamStep,
};
use ddk_server::text::{decimal, first_char, parse_u32};

fn s(text: &str) -> String {
    text.to_string()
}

fn raw(file: &str, line: &str, column: Option<&str>, code: &str, message: &str) -> RawDiagnostic {
    RawDiagnostic {
        file: Some(s(file)),
        line: Some(s(line)),
        column: column.map(s),
        code: Some(s(code)),
        message: Some(s(message)),
    }
}

fn diagnostic(file: &str, line: u32, column: Option<u32>, code: &str) -> CompilerLineDiagnostic {
    CompilerLineDiagnostic {
        time: s("12:00:00..000"),
        file: s(file),
        line,
        column,
        message: s("message"),
        code: s(code),
        kind: DiagnosticKind::from_code(code),
        compiler_name: s("Delphi 12"),
    }
}

fn data(d: &DiagnosticData) -> (u32, u32, u32, u32, DiagnosticKind, &str, &str, &str) {
    (
        d.start_line,
        d.start_character,
        d.end_line,
        d.end_character,
        d.severity,
        d.code.as_str(),
        d.source.as_str(),
        d.message.as_str(),
    )
}

#[test]
fn a_diagnostic_line_is_read() {
    let d = CompilerLineDiagnostic::from_line("foo.pas(10,5): error E2010: message", s("Delphi 12"))
        .unwrap();
    assert_eq!(d.file, "foo.pas");
    assert_eq!(d.line, 10);
    assert_eq!(d.column, Some(5));
    assert_eq!(d.code, "E2010");
    assert_eq!(d.message, "message");
    assert_eq!(d.kind, DiagnosticKind::ERROR);
    assert_eq!(d.compiler_name, "Delphi 12");
    assert!(!d.time.is_empty());
}

#[test]
fn a_diagnostic_line_without_column_and_with_a_note_is_read() {
    let line = r"C:\src\Unit1.pas(7): Hint warning H2164: Variable 'x' is never used [C:\src\App.dproj]";
    let d = CompilerLineDiagnostic::from_line(line, s("D")).unwrap();
    assert_eq!(d.file, r"C:\src\Unit1.pas");
    assert_eq!(d.line, 7);
    assert_eq!(d.column, None);
    assert_eq!(d.code, "H2164");
    assert_eq!(d.kind, DiagnosticKind::HINT);
    assert_eq!(d.message, "Variable 'x' is never used");
}

#[test]
fn other_lines_are_no_diagnostics() {
    assert!(CompilerLineDiagnostic::from_line("Build succeeded.", s("D")).is_none());
    assert!(CompilerLineDiagnostic::from_line("", s("D")).is_none());
    assert!(CompilerLineDiagnostic::from_line("foo.pas(x): error E1: m", s("D")).is_none());
    assert!(CompilerLineDiagnostic::from_line("foo.pas(1): error e1: m", s("D")).is_none());
}

#[test]
fn a_line_number_that_does_not_fit_is_no_diagnostic() {
    assert!(CompilerLineDiagnostic::from_line("a.pas(4294967296): error E1: m", s("D")).is_none());
    let d = CompilerLineDiagnostic::from_line("a.pas(4294967295,4294967296): error E1: m", s("D"))
        .unwrap();
    assert_eq!(d.line, 4294967295);
    assert_eq!(d.column, None);
}

#[test]
fn captures_make_a_diagnostic() {
    let d = CompilerLineDiagnostic::from_captures(
        Some(raw("a.pas", "12", Some("3"), "W1000", "careful")),
        s("D"),
        s("now"),
    )
    .unwrap();
    assert_eq!((d.time.as_str(), d.file.as_str(), d.line, d.column), ("now", "a.pas", 12, Some(3)));
    assert_eq!((d.code.as_str(), d.message.as_str(), d.kind), ("W1000", "careful", DiagnosticKind::WARN));
    assert!(CompilerLineDiagnostic::from_captures(None, s("D"), s("now")).is_none());
    let mut no_file = raw("a.pas", "12", None, "W1", "m");
    no_file.file = None;
    assert!(CompilerLineDiagnostic::from_captures(Some(no_file), s("D"), s("now")).is_none());
    let mut no_code = raw("a.pas", "12", None, "W1", "m");
    no_code.code = None;
    assert!(CompilerLineDiagnostic::from_captures(Some(no_code), s("D"), s("now")).is_none());
    let mut no_message = raw("a.pas", "12", None, "W1", "m");
    no_message.message = None;
    assert!(CompilerLineDiagnostic::from_captures(Some(no_message), s("D"), s("now")).is_none());
    let mut no_line = raw("a.pas", "12", None, "W1", "m");
    no_line.line = None;
    assert!(CompilerLineDiagnostic::from_captures(Some(no_line), s("D"), s("now")).is_none());
    assert!(CompilerLineDiagnostic::from_captures(
        Some(raw("a.pas", "1x", None, "W1", "m")),
        s("D"),
        s("now")
    )
    .is_none());
}

#[test]
fn severity_follows_the_first_letter_of_the_code() {
    assert_eq!(DiagnosticKind::from_code("H2164"), DiagnosticKind::HINT);
    assert_eq!(DiagnosticKind::from_code("W1000"), DiagnosticKind::WARN);
    assert_eq!(DiagnosticKind::from_code("E2010"), DiagnosticKind::ERROR);
    assert_eq!(DiagnosticKind::from_code("F2039"), DiagnosticKind::ERROR);
    assert_eq!(DiagnosticKind::from_code(""), DiagnosticKind::ERROR);
    assert_eq!(DiagnosticKind::from_code("h1"), DiagnosticKind::ERROR);
    assert_eq!(DiagnosticKind::ERROR.label(), "ERROR");
    assert_eq!(DiagnosticKind::WARN.label(), "WARN");
    assert_eq!(DiagnosticKind::HINT.label(), "HINT");
}

#[test]
fn a_diagnostic_renders_as_progress_text() {
    assert_eq!(
        diagnostic("foo.pas", 10, Some(5), "E2010").render(),
        "12:00:00..000: [ERROR][E2010] foo.pas:10:5 - message"
    );
    assert_eq!(
        diagnostic("foo.pas", 7, None, "H1").render(),
        "12:00:00..000: [HINT][H1] foo.pas:7 - message"
    );
}

#[test]
fn a_diagnostic_becomes_a_range_of_one_character() {
    let d = diagnostic("foo.pas", 10, Some(5), "E2010").into_data();
    assert_eq!(data(&d), (9, 4, 9, 5, DiagnosticKind::ERROR, "E2010", "Delphi 12", "message"));
    let d = diagnostic("foo.pas", 10, None, "W1").into_data();
    assert_eq!(data(&d), (9, 0, 9, 1, DiagnosticKind::WARN, "W1", "Delphi 12", "message"));
    let d = diagnostic("foo.pas", 0, Some(0), "H1").into_data();
    assert_eq!(data(&d), (0, 0, 0, 1, DiagnosticKind::HINT, "H1", "Delphi 12", "message"));
    let d = diagnostic("foo.pas", u32::MAX, Some(u32::MAX), "E1").into_data();
    assert_eq!((d.start_line, d.start_character, d.end_character), (u32::MAX - 1, u32::MAX - 1, u32::MAX));
}

#[test]
fn scenario_diagnostics_are_flushed_when_the_file_changes() {
    let mut stream = DiagnosticStream::new();
    let first = CompilerLineDiagnostic::from_line("foo.pas(10,5): error E2010: message", s("D"));
    let report = stream.accept(first, s("foo.pas(10,5): error E2010: message"));
    assert!(report.flushed.is_none());
    assert_eq!(stream.diagnostics.len(), 1);
    assert_eq!(stream.last_file, "foo.pas");

    let report = stream.accept(None, s("some other output"));
    assert!(report.flushed.is_none());
    assert_eq!(report.text, "some other output");
    assert_eq!(stream.diagnostics.len(), 1);

    let second = CompilerLineDiagnostic::from_line("bar.pas(3): warning W1000: other", s("D"));
    let report = stream.accept(second, s("bar.pas(3): warning W1000: other"));
    let batch = report.flushed.unwrap();
    assert_eq!(batch.file, "foo.pas");
    assert_eq!(batch.diagnostics.len(), 1);
    assert_eq!(data(&batch.diagnostics[0]), (9, 4, 9, 5, DiagnosticKind::ERROR, "E2010", "D", "message"));
    assert!(report.text.ends_with(": [WARN][W1000] bar.pas:3 - other"));
    assert_eq!(stream.last_file, "bar.pas");
    assert_eq!(stream.diagnostics.len(), 1);
    assert_eq!(stream.diagnostics[0].code, "W1000");
}

#[test]
fn diagnostics_of_one_file_are_gathered() {
    let mut stream = DiagnosticStream::new();
    for line in [3, 4, 5] {
        let report = stream.accept(Some(diagnostic("a.pas", line, None, "E1")), s("x"));
        assert!(report.flushed.is_none());
        assert_eq!(report.text, format!("12:00:00..000: [ERROR][E1] a.pas:{} - message", line));
    }
    assert_eq!(stream.diagnostics.len(), 3);
    let report = stream.accept(Some(diagnostic("b.pas", 1, None, "E1")), s("x"));
    let batch = report.flushed.unwrap();
    assert_eq!(batch.file, "a.pas");
    let lines: Vec<u32> = batch.diagnostics.iter().map(|d| d.start_line).collect();
    assert_eq!(lines, vec![2, 3, 4]);
}

#[test]
fn the_end_of_the_stream_flushes_what_is_left() {
    let mut stream = DiagnosticStream::new();
    assert!(stream.finish().is_none());
    stream.accept(Some(diagnostic("a.pas", 3, None, "E1")), s("x"));
    let batch = stream.finish().unwrap();
    assert_eq!(batch.file, "a.pas");
    assert_eq!(batch.diagnostics.len(), 1);
    assert!(stream.diagnostics.is_empty());
    assert!(stream.finish().is_none());
}

#[test]
fn a_cancelled_stream_is_read_no_further() {
    let mut stream = DiagnosticStream::new();
    let step = stream.on_line(s("foo.pas(10,5): error E2010: message"), &s("D"), true);
    assert!(matches!(step, StreamStep::Stop));
    assert!(stream.diagnostics.is_empty());
    let step = stream.on_line(s("foo.pas(10,5): error E2010: message"), &s("D"), false);
    match step {
        StreamStep::Report(report) => {
            assert!(report.flushed.is_none());
            assert!(report.text.ends_with(": [ERROR][E2010] foo.pas:10:5 - message"));
        }
        StreamStep::Stop => panic!("the stream was not cancelled"),
    }
    assert_eq!(stream.diagnostics.len(), 1);
    let step = stream.on_line(s("plain"), &s("D"), false);
    match step {
        StreamStep::Report(report) => assert_eq!(report.text, "plain"),
        StreamStep::Stop => panic!("the stream was not cancelled"),
    }
}

#[test]
fn numbers_are_parsed_from_digits() {
    assert_eq!(parse_u32("0"), Some(0));
    assert_eq!(parse_u32("007"), Some(7));
    assert_eq!(parse_u32("4294967295"), Some(u32::MAX));
    assert_eq!(parse_u32("4294967296"), None);
    assert_eq!(parse_u32("99999999999999999999"), None);
    assert_eq!(parse_u32(""), None);
    assert_eq!(parse_u32("12a"), None);
    assert_eq!(parse_u32("+5"), None);
    assert_eq!(parse_u32("-5"), None);
    assert_eq!(parse_u32("٣"), None);
}

#[test]
fn numbers_are_written_in_decimal() {
    assert_eq!(decimal(0), "0");
    assert_eq!(decimal(9), "9");
    assert_eq!(decimal(10), "10");
    assert_eq!(decimal(1234567890), "1234567890");
    assert_eq!(decimal(u32::MAX), "4294967295");
    for n in [0u32, 5, 42, 100, 65535, 4000000000] {
        assert_eq!(parse_u32(decimal(n).as_str()), Some(n));
    }
}

#[test]
fn the_first_character_of_a_text() {
    assert_eq!(first_char("abc"), Some('a'));
    assert_eq!(first_char("→x"), Some('→'));
    assert_eq!(first_char(""), None);
}
