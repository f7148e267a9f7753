//! Diagnostics scraped from the output of the build tool.

use vstd::prelude::*;
use vstd::string::*;
use crate::disk::opt_text;
use crate::text::{decimal, decimal_text, first_char, parse_u32, parsed_u32};

verus! {

/// The pattern of a diagnostic line of the build tool: a file, a line and an
/// optional column in parentheses, a kind, a code of one capital letter and
/// digits, and a message, with an optional note in square brackets behind it.
pub const MSBUILD_OUTPUT_REGEX: &'static str =
    r"^(?P<file>.*?)[(](?P<line>\d+)(?:,(?P<column>\d+))?[)]:\s+(?P<kind>.*?)\s+(?P<code>[A-Z]\d+):\s+(?P<message>.*?)(?:\s+\[.*\])?$";

/// How severe a diagnostic is.
#[derive(Clone, Copy, Debug, PartialEq, Eq, Structural)]
pub enum DiagnosticKind {
    ERROR,
    WARN,
    HINT,
}

/// The parts of a line that the pattern of diagnostic lines captures.
#[derive(Debug)]
pub struct RawDiagnostic {
    pub file: Option<String>,
    pub line: Option<String>,
    pub column: Option<String>,
    pub code: Option<String>,
    pub message: Option<String>,
}

/// The captured parts of a line as a value.
pub struct RawDiagnosticView {
    pub file: Option<Seq<char>>,
    pub line: Option<Seq<char>>,
    pub column: Option<Seq<char>>,
    pub code: Option<Seq<char>>,
    pub message: Option<Seq<char>>,
}

impl View for RawDiagnostic {
    type V = RawDiagnosticView;

    open spec fn view(&self) -> RawDiagnosticView {
        RawDiagnosticView {
            file: opt_text(self.file),
            line: opt_text(self.line),
            column: opt_text(self.column),
            code: opt_text(self.code),
            message: opt_text(self.message),
        }
    }
}

/// The view of what may have been captured.
pub open spec fn raw_view(r: Option<RawDiagnostic>) -> Option<RawDiagnosticView> {
    match r {
        Some(d) => Some(d@),
        None => None,
    }
}

/// What the pattern of diagnostic lines captures in a line: nothing where
/// the line does not match.
pub uninterp spec fn msbuild_captures(line: Seq<char>) -> Option<RawDiagnosticView>;

/// Matches a line against `MSBUILD_OUTPUT_REGEX` with `regex::Regex::captures`
/// and hands out the named groups. The contract only gives the result its
/// name: the match is the regex crate's.
#[verifier::external_body]
pub(crate) fn capture_msbuild_line(line: &str) -> (r: Option<RawDiagnostic>)
    ensures
        raw_view(r) == msbuild_captures(line@),
{
    let pattern = regex::Regex::new(MSBUILD_OUTPUT_REGEX).unwrap();
    pattern.captures(line).map(
        |c| RawDiagnostic {
            file: c.name("file").map(|m| m.as_str().to_string()),
            line: c.name("line").map(|m| m.as_str().to_string()),
            column: c.name("column").map(|m| m.as_str().to_string()),
            code: c.name("code").map(|m| m.as_str().to_string()),
            message: c.name("message").map(|m| m.as_str().to_string()),
        },
    )
}

/// Reads the local time with `chrono::Local::now` and formats it as hours,
/// minutes, seconds and milliseconds. Nothing is claimed of the result: it
/// depends on the clock.
#[verifier::external_body]
pub(crate) fn time_stamp() -> (r: String) {
    chrono::Local::now().format("%H:%M:%S.%.3f").to_string()
}

/// A diagnostic of the build tool for one line of a source file.
#[derive(Debug)]
pub struct CompilerLineDiagnostic {
    pub time: String,
    pub file: String,
    pub line: u32,
    pub column: Option<u32>,
    pub message: String,
    pub code: String,
    pub kind: DiagnosticKind,
    pub compiler_name: String,
}

/// A diagnostic as a value.
pub struct CompilerLineDiagnosticView {
    pub time: Seq<char>,
    pub file: Seq<char>,
    pub line: u32,
    pub column: Option<u32>,
    pub message: Seq<char>,
    pub code: Seq<char>,
    pub kind: DiagnosticKind,
    pub compiler_name: Seq<char>,
}

impl View for CompilerLineDiagnostic {
    type V = CompilerLineDiagnosticView;

    open spec fn view(&self) -> CompilerLineDiagnosticView {
        CompilerLineDiagnosticView {
            time: self.time@,
            file: self.file@,
            line: self.line,
            column: self.column,
            message: self.message@,
            code: self.code@,
            kind: self.kind,
            compiler_name: self.compiler_name@,
        }
    }
}

/// The view of what may be a diagnostic.
pub open spec fn diagnostic_view(d: Option<CompilerLineDiagnostic>) -> Option<
    CompilerLineDiagnosticView,
> {
    match d {
        Some(d) => Some(d@),
        None => None,
    }
}

/// A diagnostic as an editor shows it: a range of one character, counted
/// from zero, with severity, code, source and message.
#[derive(Debug)]
pub struct DiagnosticData {
    pub start_line: u32,
    pub start_character: u32,
    pub end_line: u32,
    pub end_character: u32,
    pub severity: DiagnosticKind,
    pub code: String,
    pub source: String,
    pub message: String,
}

/// A diagnostic for an editor as a value.
pub struct DiagnosticDataView {
    pub start_line: u32,
    pub start_character: u32,
    pub end_line: u32,
    pub end_character: u32,
    pub severity: DiagnosticKind,
    pub code: Seq<char>,
    pub source: Seq<char>,
    pub message: Seq<char>,
}

impl View for DiagnosticData {
    type V = DiagnosticDataView;

    open spec fn view(&self) -> DiagnosticDataView {
        DiagnosticDataView {
            start_line: self.start_line,
            start_character: self.start_character,
            end_line: self.end_line,
            end_character: self.end_character,
            severity: self.severity,
            code: self.code@,
            source: self.source@,
            message: self.message@,
        }
    }
}

/// The views of a list of diagnostics.
pub open spec fn data_views(s: Seq<DiagnosticData>) -> Seq<DiagnosticDataView> {
    s.map_values(|d: DiagnosticData| d@)
}

/// The severity that a code stands for: a hint where it starts with `H`, a
/// warning where it starts with `W`, else an error.
pub open spec fn kind_of_code(code: Seq<char>) -> DiagnosticKind {
    if code.len() > 0 && code[0] == 'H' {
        DiagnosticKind::HINT
    } else if code.len() > 0 && code[0] == 'W' {
        DiagnosticKind::WARN
    } else {
        DiagnosticKind::ERROR
    }
}

/// The number that an optional text denotes.
pub open spec fn parsed_column(column: Option<Seq<char>>) -> Option<u32> {
    match column {
        Some(c) => parsed_u32(c),
        None => None,
    }
}

/// The diagnostic that the captures of a line make. There is none where the
/// line did not match, or a group other than the column is missing, or the
/// line number is no number of 32 bits. A column that is no such number is
/// left out.
pub open spec fn diagnostic_of(
    raw: Option<RawDiagnosticView>,
    compiler_name: Seq<char>,
    time: Seq<char>,
) -> Option<CompilerLineDiagnosticView> {
    match raw {
        None => None,
        Some(r) => if r.file is Some && r.line is Some && parsed_u32(r.line->0) is Some
            && r.message is Some && r.code is Some {
            Some(
                CompilerLineDiagnosticView {
                    time,
                    file: r.file->0,
                    line: parsed_u32(r.line->0)->0,
                    column: parsed_column(r.column),
                    message: r.message->0,
                    code: r.code->0,
                    kind: kind_of_code(r.code->0),
                    compiler_name,
                },
            )
        } else {
            None
        },
    }
}

/// Zero where the number is zero, else one less.
pub open spec fn one_less(n: u32) -> u32 {
    if n == 0 {
        0
    } else {
        (n - 1) as u32
    }
}

impl DiagnosticKind {
    /// The name of the severity.
    pub open spec fn label_text(self) -> Seq<char> {
        match self {
            DiagnosticKind::ERROR => "ERROR"@,
            DiagnosticKind::WARN => "WARN"@,
            DiagnosticKind::HINT => "HINT"@,
        }
    }

    /// The name of the severity.
    pub fn label(self) -> (r: &'static str)
        ensures
            r@ == self.label_text(),
    {
        match self {
            DiagnosticKind::ERROR => "ERROR",
            DiagnosticKind::WARN => "WARN",
            DiagnosticKind::HINT => "HINT",
        }
    }

    /// The severity that a code stands for.
    pub fn from_code(code: &str) -> (r: DiagnosticKind)
        ensures
            r == kind_of_code(code@),
    {
        match first_char(code) {
            Some(c) => {
                if c == 'H' {
                    DiagnosticKind::HINT
                } else if c == 'W' {
                    DiagnosticKind::WARN
                } else {
                    DiagnosticKind::ERROR
                }
            },
            None => DiagnosticKind::ERROR,
        }
    }
}

impl CompilerLineDiagnosticView {
    /// The place of the diagnostic: the line, and the column behind a colon
    /// where there is one.
    pub open spec fn place(self) -> Seq<char> {
        match self.column {
            Some(c) => decimal_text(self.line as nat) + ":"@ + decimal_text(c as nat),
            None => decimal_text(self.line as nat),
        }
    }

    /// The diagnostic as a line of progress text.
    pub open spec fn rendered(self) -> Seq<char> {
        self.time + ": ["@ + self.kind.label_text() + "]["@ + self.code + "] "@ + self.file + ":"@
            + self.place() + " - "@ + self.message
    }

    /// The diagnostic as an editor shows it. The editor counts lines and
    /// columns from zero; a diagnostic without a column stands at the start
    /// of its line.
    pub open spec fn data(self) -> DiagnosticDataView {
        let character = one_less(
            match self.column {
                Some(c) => c,
                None => 1,
            },
        );
        DiagnosticDataView {
            start_line: one_less(self.line),
            start_character: character,
            end_line: one_less(self.line),
            end_character: (character + 1) as u32,
            severity: self.kind,
            code: self.code,
            source: self.compiler_name,
            message: self.message,
        }
    }
}

fn parse_column(column: &Option<String>) -> (r: Option<u32>)
    ensures
        r == parsed_column(opt_text(*column)),
{
    match column {
        Some(c) => parse_u32(c.as_str()),
        None => None,
    }
}

impl CompilerLineDiagnostic {
    /// Makes a diagnostic from what the pattern captured in a line.
    pub fn from_captures(raw: Option<RawDiagnostic>, compiler_name: String, time: String) -> (r:
        Option<CompilerLineDiagnostic>)
        ensures
            diagnostic_view(r) == diagnostic_of(raw_view(raw), compiler_name@, time@),
    {
        let raw = match raw {
            Some(raw) => raw,
            None => {
                return None;
            },
        };
        let column = parse_column(&raw.column);
        let file = match raw.file {
            Some(file) => file,
            None => {
                return None;
            },
        };
        let line = match raw.line {
            Some(line) => match parse_u32(line.as_str()) {
                Some(line) => line,
                None => {
                    return None;
                },
            },
            None => {
                return None;
            },
        };
        let message = match raw.message {
            Some(message) => message,
            None => {
                return None;
            },
        };
        let code = match raw.code {
            Some(code) => code,
            None => {
                return None;
            },
        };
        let kind = DiagnosticKind::from_code(code.as_str());
        Some(CompilerLineDiagnostic { time, file, line, column, message, code, kind, compiler_name })
    }

    /// Reads a diagnostic from a line of output of the build tool. The
    /// diagnostic is stamped with the local time.
    pub fn from_line(line: &str, compiler_name: String) -> (r: Option<CompilerLineDiagnostic>)
        ensures
            match r {
                Some(d) => diagnostic_of(msbuild_captures(line@), compiler_name@, d.time@) == Some(
                    d@,
                ),
                None => diagnostic_of(msbuild_captures(line@), compiler_name@, Seq::empty())
                    is None,
            },
    {
        let raw = capture_msbuild_line(line);
        let time = time_stamp();
        CompilerLineDiagnostic::from_captures(raw, compiler_name, time)
    }

    /// The diagnostic as a line of progress text.
    pub fn render(&self) -> (r: String)
        ensures
            r@ == self@.rendered(),
    {
        let mut text = self.time.clone();
        text.append(": [");
        text.append(self.kind.label());
        text.append("][");
        text.append(self.code.as_str());
        text.append("] ");
        text.append(self.file.as_str());
        text.append(":");
        let mut place = decimal(self.line);
        match self.column {
            Some(c) => {
                place.append(":");
                place.append(decimal(c).as_str());
            },
            None => {},
        }
        text.append(place.as_str());
        text.append(" - ");
        text.append(self.message.as_str());
        text
    }

    /// The diagnostic as an editor shows it.
    pub fn into_data(self) -> (r: DiagnosticData)
        ensures
            r@ == self@.data(),
    {
        let column: u32 = match self.column {
            Some(c) => c,
            None => 1,
        };
        let character: u32 = if column == 0 {
            0
        } else {
            column - 1
        };
        let line: u32 = if self.line == 0 {
            0
        } else {
            self.line - 1
        };
        DiagnosticData {
            start_line: line,
            start_character: character,
            end_line: line,
            end_character: character + 1,
            severity: self.kind,
            code: self.code,
            source: self.compiler_name,
            message: self.message,
        }
    }
}

/// The diagnostics of one file, to be published together.
#[derive(Debug)]
pub struct DiagnosticBatch {
    pub file: String,
    pub diagnostics: Vec<DiagnosticData>,
}

/// A batch of diagnostics as a value.
pub struct DiagnosticBatchView {
    pub file: Seq<char>,
    pub diagnostics: Seq<DiagnosticDataView>,
}

impl View for DiagnosticBatch {
    type V = DiagnosticBatchView;

    open spec fn view(&self) -> DiagnosticBatchView {
        DiagnosticBatchView { file: self.file@, diagnostics: data_views(self.diagnostics@) }
    }
}

/// The view of what may be a batch.
pub open spec fn batch_view(b: Option<DiagnosticBatch>) -> Option<DiagnosticBatchView> {
    match b {
        Some(b) => Some(b@),
        None => None,
    }
}

/// What one line of output leads to: the batch to publish, if the line
/// closed one, and the text to show as progress.
#[derive(Debug)]
pub struct LineReport {
    pub flushed: Option<DiagnosticBatch>,
    pub text: String,
}

/// What to do with a stream after a line: stop reading it, or go on with
/// the report of the line.
#[derive(Debug)]
pub enum StreamStep {
    Stop,
    Report(LineReport),
}

/// The diagnostics gathered from one output stream: those of the file that
/// the last diagnostic named, which are published once a diagnostic names
/// another file or the stream ends.
#[derive(Debug)]
pub struct DiagnosticStream {
    pub diagnostics: Vec<DiagnosticData>,
    pub last_file: String,
}

/// What a stream has gathered, as a value.
pub struct DiagnosticStreamView {
    pub diagnostics: Seq<DiagnosticDataView>,
    pub last_file: Seq<char>,
}

impl View for DiagnosticStream {
    type V = DiagnosticStreamView;

    open spec fn view(&self) -> DiagnosticStreamView {
        DiagnosticStreamView {
            diagnostics: data_views(self.diagnostics@),
            last_file: self.last_file@,
        }
    }
}

impl DiagnosticStreamView {
    /// Whether a diagnostic for `file` closes the batch that is gathered.
    pub open spec fn closes_batch(self, file: Seq<char>) -> bool {
        self.last_file != file && self.diagnostics.len() > 0
    }

    /// The batch that is gathered.
    pub open spec fn batch(self) -> DiagnosticBatchView {
        DiagnosticBatchView { file: self.last_file, diagnostics: self.diagnostics }
    }

    /// The batch that a line closes: the gathered one, where the line is a
    /// diagnostic for another file and something was gathered.
    pub open spec fn flushed_by(self, parsed: Option<CompilerLineDiagnosticView>) -> Option<
        DiagnosticBatchView,
    > {
        match parsed {
            Some(d) => if self.closes_batch(d.file) {
                Some(self.batch())
            } else {
                None
            },
            None => None,
        }
    }

    /// The stream after a line: a diagnostic joins the batch of its file,
    /// any other line changes nothing.
    pub open spec fn after(self, parsed: Option<CompilerLineDiagnosticView>) -> Self {
        match parsed {
            Some(d) => DiagnosticStreamView {
                diagnostics: if self.closes_batch(d.file) {
                    seq![d.data()]
                } else {
                    self.diagnostics.push(d.data())
                },
                last_file: d.file,
            },
            None => self,
        }
    }

    /// The progress text of a line: the diagnostic as text, or the line
    /// itself where it is none.
    pub open spec fn text_of(
        parsed: Option<CompilerLineDiagnosticView>,
        line: Seq<char>,
    ) -> Seq<char> {
        match parsed {
            Some(d) => d.rendered(),
            None => line,
        }
    }

    /// What a line makes of the stream, given the diagnostic read from it:
    /// the stream afterwards, the batch that the line closed, and the
    /// progress text.
    pub open spec fn line_outcome(
        self,
        parsed: Option<CompilerLineDiagnosticView>,
        line: Seq<char>,
        after: Self,
        flushed: Option<DiagnosticBatchView>,
        text: Seq<char>,
    ) -> bool {
        &&& after == self.after(parsed)
        &&& flushed == self.flushed_by(parsed)
        &&& text == Self::text_of(parsed, line)
    }

    /// The batch to publish when the stream ends.
    pub open spec fn remaining(self) -> Option<DiagnosticBatchView> {
        if self.diagnostics.len() > 0 {
            Some(self.batch())
        } else {
            None
        }
    }
}

impl DiagnosticStream {
    /// A stream that has gathered nothing.
    pub fn new() -> (r: DiagnosticStream)
        ensures
            r@.diagnostics.len() == 0,
            r@.last_file.len() == 0,
    {
        DiagnosticStream { diagnostics: Vec::new(), last_file: String::new() }
    }

    /// Takes in one line of output, given the diagnostic that was read from
    /// it, if any.
    pub fn accept(&mut self, parsed: Option<CompilerLineDiagnostic>, line: String) -> (r:
        LineReport)
        ensures
            final(self)@ == old(self)@.after(diagnostic_view(parsed)),
            batch_view(r.flushed) == old(self)@.flushed_by(diagnostic_view(parsed)),
            r.text@ == DiagnosticStreamView::text_of(diagnostic_view(parsed), line@),
    {
        match parsed {
            Some(diagnostic) => {
                let mut flushed: Option<DiagnosticBatch> = None;
                if self.last_file != diagnostic.file && self.diagnostics.len() > 0 {
                    let mut gathered: Vec<DiagnosticData> = Vec::new();
                    core::mem::swap(&mut self.diagnostics, &mut gathered);
                    flushed =
                    Some(DiagnosticBatch { file: self.last_file.clone(), diagnostics: gathered });
                }
                self.last_file = diagnostic.file.clone();
                let text = diagnostic.render();
                let ghost before = data_views(self.diagnostics@);
                let ghost data = diagnostic@.data();
                self.diagnostics.push(diagnostic.into_data());
                assert(data_views(self.diagnostics@) =~= before.push(data));
                assert(old(self)@.closes_batch(diagnostic@.file) ==> before =~= Seq::<
                    DiagnosticDataView,
                >::empty());
                LineReport { flushed, text }
            },
            None => LineReport { flushed: None, text: line },
        }
    }

    /// Takes in one line of output. Once cancellation is raised, the stream
    /// is to be read no further.
    pub fn on_line(&mut self, line: String, compiler_name: &String, cancelled: bool) -> (r:
        StreamStep)
        ensures
            cancelled ==> r is Stop && final(self)@ == old(self)@,
            !cancelled ==> (r matches StreamStep::Report(report) && exists|time: Seq<char>|
                #[trigger] old(self)@.line_outcome(
                    diagnostic_of(msbuild_captures(line@), compiler_name@, time),
                    line@,
                    final(self)@,
                    batch_view(report.flushed),
                    report.text@,
                )),
    {
        if cancelled {
            return StreamStep::Stop;
        }
        let parsed = CompilerLineDiagnostic::from_line(line.as_str(), compiler_name.clone());
        let ghost time = match diagnostic_view(parsed) {
            Some(d) => d.time,
            None => Seq::empty(),
        };
        let report = self.accept(parsed, line);
        assert(old(self)@.line_outcome(
            diagnostic_of(msbuild_captures(line@), compiler_name@, time),
            line@,
            self@,
            batch_view(report.flushed),
            report.text@,
        ));
        StreamStep::Report(report)
    }

    /// Ends the stream: what is still gathered is to be published.
    pub fn finish(&mut self) -> (r: Option<DiagnosticBatch>)
        ensures
            batch_view(r) == old(self)@.remaining(),
            final(self)@.diagnostics.len() == 0,
            final(self)@.last_file == old(self)@.last_file,
    {
        if self.diagnostics.len() > 0 {
            let mut gathered: Vec<DiagnosticData> = Vec::new();
            core::mem::swap(&mut self.diagnostics, &mut gathered);
            Some(DiagnosticBatch { file: self.last_file.clone(), diagnostics: gathered })
        } else {
            None
        }
    }
}

} // verus!
