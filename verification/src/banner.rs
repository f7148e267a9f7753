//! The banners that open and close a compile invocation.

use vstd::prelude::*;
use vstd::string::*;
use vstd::utf8::encode_utf8;

verus! {

/// The width that the top line of a banner is centred in.
pub const TOP_LINE_WIDTH: usize = 72;

/// The width that the other lines of a banner are centred in.
pub const LINE_WIDTH: usize = 70;

/// `n` blanks.
pub open spec fn blanks(n: nat) -> Seq<char> {
    Seq::new(n, |i: int| ' ')
}

/// The room that a text leaves in a line of the given width: the width less
/// the bytes of the text and a margin of two.
pub open spec fn line_padding(text: Seq<char>, total_width: nat) -> nat {
    let used = encode_utf8(text).len() + 2;
    if total_width > used {
        (total_width - used) as nat
    } else {
        0
    }
}

/// A text centred in a line: the text itself where it leaves no room, else
/// one blank, half of the room in blanks, and the text.
pub open spec fn formatted_line(text: Seq<char>, total_width: nat) -> Seq<char> {
    if line_padding(text, total_width) == 0 {
        text
    } else {
        seq![' '] + blanks(line_padding(text, total_width) / 2) + text
    }
}

/// Centres a text in a line of the given width.
pub fn format_line(text: &str, total_width: usize) -> (r: String)
    ensures
        r@ == formatted_line(text@, total_width as nat),
{
    let length: usize = text.as_bytes().len();
    if length > usize::MAX - 2 || total_width <= length + 2 {
        return String::from_str(text);
    }
    let padding: usize = total_width - (length + 2);
    let left_padding: usize = padding / 2;
    let mut line = String::from_str(" ");
    proof {
        reveal_strlit(" ");
    }
    let mut i: usize = 0;
    while i < left_padding
        invariant
            i <= left_padding,
            line@ == seq![' '] + blanks(i as nat),
        decreases left_padding - i,
    {
        line.append(" ");
        proof {
            reveal_strlit(" ");
        }
        i += 1;
    }
    line.append(text);
    line
}

/// The line that opens a banner.
pub open spec fn top_border() -> Seq<char> {
    "╒══════════════════════════════════════════════════════════════════════╕"@
}

/// The line that closes a banner.
pub open spec fn bottom_border() -> Seq<char> {
    "╘══════════════════════════════════════════════════════════════════════╛"@
}

/// The name of what a compile does: a rebuild cleans and builds, a compile
/// cleans and makes.
pub open spec fn action_name(rebuild: bool) -> Seq<char> {
    if rebuild {
        "Rebuild (Clean,Build)"@
    } else {
        "Compile (Clean,Make)"@
    }
}

/// The name of an outcome.
pub open spec fn status_name(success: bool) -> Seq<char> {
    if success {
        "✅ SUCCESS"@
    } else {
        "❌ FAILED"@
    }
}

/// The line that names the target of a compile.
pub open spec fn target_line(target: Seq<char>) -> Seq<char> {
    formatted_line("→ "@ + target + " ←"@, LINE_WIDTH as nat)
}

/// The line that names the compiler.
pub open spec fn compiler_line(compiler_name: Seq<char>) -> Seq<char> {
    formatted_line("🛠️ Compiler: "@ + compiler_name, LINE_WIDTH as nat)
}

/// The line that names the action.
pub open spec fn action_line(rebuild: bool) -> Seq<char> {
    formatted_line("🗲 Action: "@ + action_name(rebuild), LINE_WIDTH as nat)
}

/// The line that names the outcome.
pub open spec fn status_line(success: bool) -> Seq<char> {
    formatted_line("Status: "@ + status_name(success), LINE_WIDTH as nat)
}

/// What a banner says: the kind and name of what is compiled, the target,
/// the compiler, and whether it is a rebuild.
pub struct BannerView {
    pub entity_type: Seq<char>,
    pub entity_name: Seq<char>,
    pub target: Seq<char>,
    pub compiler_name: Seq<char>,
    pub rebuild: bool,
}

impl BannerView {
    /// The top line of the banner of a compile invocation.
    pub open spec fn top_line(self) -> Seq<char> {
        formatted_line(
            "Compiling "@ + self.entity_type + " "@ + self.entity_name,
            TOP_LINE_WIDTH as nat,
        )
    }

    /// The lines of the banner that opens a compile invocation.
    pub open spec fn header_lines(self) -> Seq<Seq<char>> {
        seq![
            top_border(),
            self.top_line(),
            target_line(self.target),
            compiler_line(self.compiler_name),
            action_line(self.rebuild),
            bottom_border(),
        ]
    }

    /// The lines of the banner that closes a compile invocation.
    pub open spec fn footer_lines(self, success: bool) -> Seq<Seq<char>> {
        seq![
            top_border(),
            self.top_line(),
            target_line(self.target),
            compiler_line(self.compiler_name),
            action_line(self.rebuild),
            status_line(success),
            bottom_border(),
        ]
    }
}

/// The lines of the banner that closes the compile of one project.
pub open spec fn project_footer_lines(
    rebuild: bool,
    compiler_name: Seq<char>,
    project_name: Seq<char>,
    target: Seq<char>,
    success: bool,
) -> Seq<Seq<char>> {
    seq![
        top_border(),
        formatted_line("Compiling Project: "@ + project_name, TOP_LINE_WIDTH as nat),
        target_line(target),
        compiler_line(compiler_name),
        action_line(rebuild),
        status_line(success),
        bottom_border(),
    ]
}

/// The views of a list of lines.
pub open spec fn lines(v: Seq<String>) -> Seq<Seq<char>> {
    v.map_values(|l: String| l@)
}

fn action_text(rebuild: bool) -> (r: &'static str)
    ensures
        r@ == action_name(rebuild),
{
    if rebuild {
        "Rebuild (Clean,Build)"
    } else {
        "Compile (Clean,Make)"
    }
}

fn status_text(success: bool) -> (r: &'static str)
    ensures
        r@ == status_name(success),
{
    if success {
        "✅ SUCCESS"
    } else {
        "❌ FAILED"
    }
}

fn make_target_line(target: &str) -> (r: String)
    ensures
        r@ == target_line(target@),
{
    let mut text = String::from_str("→ ");
    text.append(target);
    text.append(" ←");
    format_line(text.as_str(), LINE_WIDTH)
}

fn make_compiler_line(compiler_name: &str) -> (r: String)
    ensures
        r@ == compiler_line(compiler_name@),
{
    let mut text = String::from_str("🛠️ Compiler: ");
    text.append(compiler_name);
    format_line(text.as_str(), LINE_WIDTH)
}

fn make_action_line(rebuild: bool) -> (r: String)
    ensures
        r@ == action_line(rebuild),
{
    let mut text = String::from_str("🗲 Action: ");
    text.append(action_text(rebuild));
    format_line(text.as_str(), LINE_WIDTH)
}

fn make_status_line(success: bool) -> (r: String)
    ensures
        r@ == status_line(success),
{
    let mut text = String::from_str("Status: ");
    text.append(status_text(success));
    format_line(text.as_str(), LINE_WIDTH)
}

fn make_top_border() -> (r: String)
    ensures
        r@ == top_border(),
{
    String::from_str("╒══════════════════════════════════════════════════════════════════════╕")
}

fn make_bottom_border() -> (r: String)
    ensures
        r@ == bottom_border(),
{
    String::from_str("╘══════════════════════════════════════════════════════════════════════╛")
}

/// The banner that opens a compile invocation.
#[derive(Debug)]
pub struct CompHeader {
    pub entity_type: String,
    pub entity_name: String,
    pub target: String,
    pub compiler_name: String,
    pub rebuild: bool,
}

impl View for CompHeader {
    type V = BannerView;

    open spec fn view(&self) -> BannerView {
        BannerView {
            entity_type: self.entity_type@,
            entity_name: self.entity_name@,
            target: self.target@,
            compiler_name: self.compiler_name@,
            rebuild: self.rebuild,
        }
    }
}

fn make_top_line(entity_type: &str, entity_name: &str) -> (r: String)
    ensures
        r@ == formatted_line(
            "Compiling "@ + entity_type@ + " "@ + entity_name@,
            TOP_LINE_WIDTH as nat,
        ),
{
    let mut text = String::from_str("Compiling ");
    text.append(entity_type);
    text.append(" ");
    text.append(entity_name);
    format_line(text.as_str(), TOP_LINE_WIDTH)
}

impl CompHeader {
    /// The banner for the given names.
    pub fn new(
        entity_type: String,
        entity_name: String,
        target: String,
        compiler_name: String,
        rebuild: bool,
    ) -> (r: CompHeader)
        ensures
            r@ == (BannerView {
                entity_type: entity_type@,
                entity_name: entity_name@,
                target: target@,
                compiler_name: compiler_name@,
                rebuild,
            }),
    {
        CompHeader { entity_type, entity_name, target, compiler_name, rebuild }
    }

    /// The lines of the banner.
    pub fn into_vec(&self) -> (r: Vec<String>)
        ensures
            lines(r@) == self@.header_lines(),
    {
        let mut out: Vec<String> = Vec::new();
        out.push(make_top_border());
        out.push(make_top_line(self.entity_type.as_str(), self.entity_name.as_str()));
        out.push(make_target_line(self.target.as_str()));
        out.push(make_compiler_line(self.compiler_name.as_str()));
        out.push(make_action_line(self.rebuild));
        out.push(make_bottom_border());
        out
    }
}

/// The banner that closes a compile invocation. The outcome is handed in
/// when the lines are made.
#[derive(Debug)]
pub struct CompFooter {
    pub entity_type: String,
    pub entity_name: String,
    pub target: String,
    pub compiler_name: String,
    pub rebuild: bool,
}

impl View for CompFooter {
    type V = BannerView;

    open spec fn view(&self) -> BannerView {
        BannerView {
            entity_type: self.entity_type@,
            entity_name: self.entity_name@,
            target: self.target@,
            compiler_name: self.compiler_name@,
            rebuild: self.rebuild,
        }
    }
}

impl CompFooter {
    /// The banner for the given names.
    pub fn new(
        entity_type: String,
        entity_name: String,
        target: String,
        compiler_name: String,
        rebuild: bool,
    ) -> (r: CompFooter)
        ensures
            r@ == (BannerView {
                entity_type: entity_type@,
                entity_name: entity_name@,
                target: target@,
                compiler_name: compiler_name@,
                rebuild,
            }),
    {
        CompFooter { entity_type, entity_name, target, compiler_name, rebuild }
    }

    /// The lines of the banner for the given outcome.
    pub fn into_vec(&self, success: bool) -> (r: Vec<String>)
        ensures
            lines(r@) == self@.footer_lines(success),
    {
        let mut out: Vec<String> = Vec::new();
        out.push(make_top_border());
        out.push(make_top_line(self.entity_type.as_str(), self.entity_name.as_str()));
        out.push(make_target_line(self.target.as_str()));
        out.push(make_compiler_line(self.compiler_name.as_str()));
        out.push(make_action_line(self.rebuild));
        out.push(make_status_line(success));
        out.push(make_bottom_border());
        out
    }
}

/// The banner that closes the compile of one project.
#[derive(Debug)]
pub struct SingleProjectCompFooter {
    pub rebuild: bool,
    pub compiler_name: String,
    pub project_name: String,
    pub target: String,
}

impl SingleProjectCompFooter {
    /// The banner for the given names.
    pub fn new(rebuild: bool, compiler_name: String, project_name: String, target: String) -> (r:
        SingleProjectCompFooter)
        ensures
            r.rebuild == rebuild,
            r.compiler_name@ == compiler_name@,
            r.project_name@ == project_name@,
            r.target@ == target@,
    {
        SingleProjectCompFooter { rebuild, compiler_name, project_name, target }
    }

    /// The lines of the banner for the given outcome.
    pub fn into_vec(&self, success: bool) -> (r: Vec<String>)
        ensures
            lines(r@) == project_footer_lines(
                self.rebuild,
                self.compiler_name@,
                self.project_name@,
                self.target@,
                success,
            ),
    {
        let mut top = String::from_str("Compiling Project: ");
        top.append(self.project_name.as_str());
        let mut out: Vec<String> = Vec::new();
        out.push(make_top_border());
        out.push(format_line(top.as_str(), TOP_LINE_WIDTH));
        out.push(make_target_line(self.target.as_str()));
        out.push(make_compiler_line(self.compiler_name.as_str()));
        out.push(make_action_line(self.rebuild));
        out.push(make_status_line(success));
        out.push(make_bottom_border());
        assert(lines(out@) =~= project_footer_lines(
            self.rebuild,
            self.compiler_name@,
            self.project_name@,
            self.target@,
            success,
        ));
        out
    }
}

} // verus!
