//! One compile invocation as an explicit session: what to launch next, what
//! each finished process makes of the outcome, and the events to publish.

use vstd::prelude::*;
use vstd::string::*;
use crate::banner::{lines, project_footer_lines, SingleProjectCompFooter};
use crate::compiler::{CompilationParameters, CompilationPlan};
use crate::disk::texts;
use crate::project::ProjectView;

verus! {

/// The texts joined with a separator between them.
pub open spec fn joined(parts: Seq<Seq<char>>, separator: Seq<char>) -> Seq<char>
    decreases parts.len(),
{
    if parts.len() == 0 {
        Seq::empty()
    } else if parts.len() == 1 {
        parts[0]
    } else {
        joined(parts.drop_last(), separator) + separator + parts.last()
    }
}

/// Joins the texts with a separator between them.
pub fn join_texts(parts: &Vec<String>, separator: &str) -> (r: String)
    ensures
        r@ == joined(texts(parts@), separator@),
{
    let mut out = String::new();
    let mut i: usize = 0;
    while i < parts.len()
        invariant
            i <= parts@.len(),
            out@ == joined(texts(parts@).take(i as int), separator@),
        decreases parts@.len() - i,
    {
        proof {
            assert(texts(parts@).take(i + 1).drop_last() =~= texts(parts@).take(i as int));
        }
        if i > 0 {
            out.append(separator);
        }
        out.append(parts[i].as_str());
        i += 1;
    }
    assert(texts(parts@).take(i as int) =~= texts(parts@));
    out
}

/// The targets and extra arguments handed to the build tool: clean and
/// build for a rebuild, clean and make else, then the arguments of the
/// compiler configuration.
pub open spec fn build_arguments_text(rebuild: bool, arguments: Seq<Seq<char>>) -> Seq<char> {
    "/t:Clean,"@ + (if rebuild {
        "Build"@
    } else {
        "Make"@
    }) + " "@ + joined(arguments, " "@)
}

/// The command that builds one project: call the entry script of the
/// installation, then the build tool on the project file.
pub open spec fn build_command(
    entry_script: Seq<char>,
    project_file: Seq<char>,
    rebuild: bool,
    arguments: Seq<Seq<char>>,
) -> Seq<char> {
    "call "@ + entry_script + " && msbuild \""@ + project_file + "\" "@ + build_arguments_text(
        rebuild,
        arguments,
    )
}

/// Makes the command that builds one project.
pub fn make_build_command(
    entry_script: &str,
    project_file: &str,
    rebuild: bool,
    arguments: &Vec<String>,
) -> (r: String)
    ensures
        r@ == build_command(entry_script@, project_file@, rebuild, texts(arguments@)),
{
    let mut command = String::from_str("call ");
    command.append(entry_script);
    command.append(" && msbuild \"");
    command.append(project_file);
    command.append("\" ");
    command.append("/t:Clean,");
    if rebuild {
        command.append("Build");
    } else {
        command.append("Make");
    }
    command.append(" ");
    command.append(join_texts(arguments, " ").as_str());
    command
}

/// How a build ended: whether it succeeded, and its exit code, or -1 where
/// it has none.
#[derive(Clone, Copy, Debug, PartialEq, Eq, Structural)]
pub struct CompileOutcome {
    pub success: bool,
    pub code: isize,
}

/// The outcome of a build that failed without an exit code.
pub open spec fn failed_outcome() -> CompileOutcome {
    CompileOutcome { success: false, code: -1isize }
}

/// Where a session stands.
#[derive(Clone, Copy, Debug, PartialEq, Eq, Structural)]
pub enum SessionPhase {
    /// Between two projects: the next one is to be decided.
    Running,
    /// A build process is running and its output is read.
    Streaming,
    /// No further project is built; the completion is to be published.
    Finishing,
    /// The completion was published.
    Finished,
}

/// What became of the build process of one project.
#[derive(Clone, Copy, Debug, PartialEq, Eq, Structural)]
pub enum ProcessResult {
    /// The process ran and exited.
    Exited { success: bool, code: Option<i32> },
    /// The entry script of the installation was not there; nothing ran.
    MissingEntryScript,
    /// The process could not be started.
    SpawnFailed,
    /// Cancellation was raised while the output was read.
    Cancelled,
}

impl ProcessResult {
    /// The outcome that the result stands for.
    pub open spec fn outcome_spec(self) -> CompileOutcome {
        match self {
            ProcessResult::Exited { success, code } => CompileOutcome {
                success,
                code: match code {
                    Some(c) => c as isize,
                    None => -1isize,
                },
            },
            _ => failed_outcome(),
        }
    }

    /// The outcome that the result stands for.
    pub fn outcome(self) -> (r: CompileOutcome)
        ensures
            r == self.outcome_spec(),
    {
        match self {
            ProcessResult::Exited { success, code } => CompileOutcome {
                success,
                code: match code {
                    Some(c) => c as isize,
                    None => -1,
                },
            },
            _ => CompileOutcome { success: false, code: -1 },
        }
    }
}

/// What is to be run to build one project.
#[derive(Debug)]
pub struct BuildInvocation {
    pub project_id: usize,
    pub entry_script: String,
    pub command: String,
}

/// A build invocation as a value.
pub struct BuildInvocationView {
    pub project_id: usize,
    pub entry_script: Seq<char>,
    pub command: Seq<char>,
}

impl View for BuildInvocation {
    type V = BuildInvocationView;

    open spec fn view(&self) -> BuildInvocationView {
        BuildInvocationView {
            project_id: self.project_id,
            entry_script: self.entry_script@,
            command: self.command@,
        }
    }
}

/// What is to be done next in a session.
#[derive(Debug)]
pub enum CompileStep {
    /// Check the entry script, start the command, read its output, and
    /// report what became of the process.
    Launch(BuildInvocation),
    /// Nothing is to be launched any more.
    Done,
}

/// The view of a step.
pub open spec fn step_view(step: CompileStep) -> Option<BuildInvocationView> {
    match step {
        CompileStep::Launch(invocation) => Some(invocation@),
        CompileStep::Done => None,
    }
}

/// The events that a compile invocation publishes.
#[derive(Debug)]
pub enum CompilerProgressParams {
    Start { lines: Vec<String> },
    Stdout { line: String },
    Stderr { line: String },
    Completed { success: bool, code: isize, lines: Vec<String> },
    SingleProjectCompleted { project_id: usize, success: bool, code: isize, lines: Vec<String> },
}

/// An event of a compile invocation as a value.
pub enum ProgressView {
    Start { lines: Seq<Seq<char>> },
    Stdout { line: Seq<char> },
    Stderr { line: Seq<char> },
    Completed { success: bool, code: isize, lines: Seq<Seq<char>> },
    SingleProjectCompleted { project_id: usize, success: bool, code: isize, lines: Seq<Seq<char>> },
}

impl View for CompilerProgressParams {
    type V = ProgressView;

    open spec fn view(&self) -> ProgressView {
        match *self {
            CompilerProgressParams::Start { lines: l } => ProgressView::Start { lines: lines(l@) },
            CompilerProgressParams::Stdout { line } => ProgressView::Stdout { line: line@ },
            CompilerProgressParams::Stderr { line } => ProgressView::Stderr { line: line@ },
            CompilerProgressParams::Completed { success, code, lines: l } => ProgressView::Completed {
                success,
                code,
                lines: lines(l@),
            },
            CompilerProgressParams::SingleProjectCompleted { project_id, success, code, lines: l } =>
                ProgressView::SingleProjectCompleted { project_id, success, code, lines: lines(l@) },
        }
    }
}

/// The view of what may be an event.
pub open spec fn progress_view(event: Option<CompilerProgressParams>) -> Option<ProgressView> {
    match event {
        Some(e) => Some(e@),
        None => None,
    }
}

/// One compile invocation: the plan, the place of the next project, the
/// phase, and the outcome of the last build.
#[derive(Debug)]
pub struct CompileSession {
    pub parameters: CompilationParameters,
    pub next: usize,
    pub phase: SessionPhase,
    pub outcome: CompileOutcome,
}

/// A session as a value.
pub struct SessionView {
    pub plan: CompilationPlan,
    pub next: usize,
    pub phase: SessionPhase,
    pub outcome: CompileOutcome,
}

impl View for CompileSession {
    type V = SessionView;

    open spec fn view(&self) -> SessionView {
        SessionView {
            plan: self.parameters@,
            next: self.next,
            phase: self.phase,
            outcome: self.outcome,
        }
    }
}

impl SessionView {
    /// The session that a plan starts: before the first project, with
    /// nothing built yet.
    pub open spec fn started(plan: CompilationPlan) -> SessionView {
        SessionView { plan, next: 0, phase: SessionPhase::Running, outcome: failed_outcome() }
    }

    /// The project that is built next.
    pub open spec fn current(self) -> Option<ProjectView> {
        if self.next < self.plan.projects.len() {
            Some(self.plan.projects[self.next as int])
        } else {
            None
        }
    }

    /// The file of the project that is built next.
    pub open spec fn current_file(self) -> Option<Seq<char>> {
        match self.current() {
            Some(p) => p.project_file(),
            None => None,
        }
    }

    /// What is launched next: the build of the next project, unless the
    /// session is not between two projects, cancellation is raised, no
    /// project is left, or the project has no file to build.
    pub open spec fn launch(self, cancelled: bool) -> Option<BuildInvocationView> {
        if self.phase == SessionPhase::Running && !cancelled && self.current_file() is Some {
            Some(
                BuildInvocationView {
                    project_id: self.current()->0.id,
                    entry_script: self.plan.configuration.entry_script(),
                    command: build_command(
                        self.plan.configuration.entry_script(),
                        self.current_file()->0,
                        self.plan.rebuild,
                        self.plan.configuration.build_arguments,
                    ),
                },
            )
        } else {
            None
        }
    }

    /// The session after the next step was decided. Cancellation ends the
    /// run as failed without an exit code; so does a project without a file
    /// to build. The run also ends when no project is left.
    pub open spec fn after_step(self, cancelled: bool) -> SessionView {
        if self.phase != SessionPhase::Running {
            self
        } else if cancelled {
            SessionView { phase: SessionPhase::Finishing, outcome: failed_outcome(), ..self }
        } else if self.current() is None {
            SessionView { phase: SessionPhase::Finishing, ..self }
        } else if self.current_file() is None {
            SessionView { phase: SessionPhase::Finishing, outcome: failed_outcome(), ..self }
        } else {
            SessionView { phase: SessionPhase::Streaming, ..self }
        }
    }

    /// The session after the build process of the current project is over.
    /// A process that exited gives the outcome and lets the run go on with
    /// the next project; anything else ends the run as failed without an
    /// exit code, and the projects that are left are not built.
    pub open spec fn after_project(self, result: ProcessResult) -> SessionView {
        if self.phase != SessionPhase::Streaming {
            self
        } else if result is Exited && self.current() is Some {
            SessionView {
                phase: SessionPhase::Running,
                next: (self.next + 1) as usize,
                outcome: result.outcome_spec(),
                ..self
            }
        } else {
            SessionView { phase: SessionPhase::Finishing, outcome: failed_outcome(), ..self }
        }
    }

    /// The event for the end of one project's build, which is published
    /// where the request was for a single project.
    pub open spec fn project_event(self, result: ProcessResult) -> Option<ProgressView> {
        if self.phase == SessionPhase::Streaming && self.plan.single && self.current() is Some {
            let outcome = self.after_project(result).outcome;
            Some(
                ProgressView::SingleProjectCompleted {
                    project_id: self.current()->0.id,
                    success: outcome.success,
                    code: outcome.code,
                    lines: project_footer_lines(
                        self.plan.rebuild,
                        self.plan.configuration.product_name,
                        self.current()->0.name,
                        match self.current_file() {
                            Some(f) => f,
                            None => Seq::empty(),
                        },
                        outcome.success,
                    ),
                },
            )
        } else {
            None
        }
    }

    /// The event that completes the invocation: the outcome of the last
    /// build and the closing banner.
    pub open spec fn completion(self) -> ProgressView {
        ProgressView::Completed {
            success: self.outcome.success,
            code: self.outcome.code,
            lines: self.plan.footer.footer_lines(self.outcome.success),
        }
    }
}

/// Once cancellation is raised, nothing is launched any more: a session
/// between two projects turns to finishing, and its completion reports
/// failure without an exit code.
pub proof fn lemma_cancellation_ends_the_run(session: SessionView)
    ensures
        session.launch(true) is None,
        session.phase == SessionPhase::Running ==> session.after_step(true).phase
            == SessionPhase::Finishing && session.after_step(true).completion()
            == (ProgressView::Completed {
            success: false,
            code: -1isize,
            lines: session.plan.footer.footer_lines(false),
        }),
{
}

/// A session that is finishing or finished launches nothing, whatever
/// happens: the projects that are left are not built.
pub proof fn lemma_nothing_is_launched_after_the_end(
    session: SessionView,
    cancelled: bool,
    result: ProcessResult,
)
    requires
        session.phase == SessionPhase::Finishing || session.phase == SessionPhase::Finished,
    ensures
        session.launch(cancelled) is None,
        session.after_step(cancelled) == session,
        session.after_project(result) == session,
{
}

/// The projects are built strictly in the order of the plan: what is
/// launched is the project at the place of the session, and only a process
/// that exited moves the session on, by one place.
pub proof fn lemma_projects_are_built_in_order(
    session: SessionView,
    cancelled: bool,
    result: ProcessResult,
)
    requires
        session.plan.projects.len() <= usize::MAX,
    ensures
        session.launch(cancelled) matches Some(invocation) ==> session.next
            < session.plan.projects.len() && invocation.project_id
            == session.plan.projects[session.next as int].id,
        session.after_step(cancelled).next == session.next,
        session.after_project(result).next == session.next || (session.after_project(result).next
            == session.next + 1 && result is Exited),
{
}

impl CompileSession {
    /// Starts a session for a plan and makes the event that opens it.
    pub fn start(parameters: CompilationParameters) -> (r: (CompileSession, CompilerProgressParams))
        ensures
            r.0@ == SessionView::started(parameters@),
            r.1@ == (ProgressView::Start { lines: parameters@.header.header_lines() }),
    {
        let lines = parameters.header.into_vec();
        (
            CompileSession {
                parameters,
                next: 0,
                phase: SessionPhase::Running,
                outcome: CompileOutcome { success: false, code: -1 },
            },
            CompilerProgressParams::Start { lines },
        )
    }

    fn current_file(&self) -> (r: Option<String>)
        ensures
            crate::disk::opt_text(r) == self@.current_file(),
    {
        if self.next < self.parameters.projects.len() {
            match self.parameters.projects[self.next].get_project_file() {
                Ok(file) => Some(file),
                Err(_) => None,
            }
        } else {
            None
        }
    }

    /// Decides what is to be done next, given whether cancellation is
    /// raised. Once cancellation is raised nothing is launched any more.
    pub fn next_step(&mut self, cancelled: bool) -> (r: CompileStep)
        ensures
            final(self)@ == old(self)@.after_step(cancelled),
            step_view(r) == old(self)@.launch(cancelled),
    {
        match self.phase {
            SessionPhase::Running => {},
            _ => {
                return CompileStep::Done;
            },
        }
        if cancelled {
            self.phase = SessionPhase::Finishing;
            self.outcome = CompileOutcome { success: false, code: -1 };
            return CompileStep::Done;
        }
        if self.next >= self.parameters.projects.len() {
            self.phase = SessionPhase::Finishing;
            return CompileStep::Done;
        }
        let file = match self.current_file() {
            Some(file) => file,
            None => {
                self.phase = SessionPhase::Finishing;
                self.outcome = CompileOutcome { success: false, code: -1 };
                return CompileStep::Done;
            },
        };
        let entry_script = self.parameters.configuration.entry_script_path();
        let command = make_build_command(
            entry_script.as_str(),
            file.as_str(),
            self.parameters.rebuild,
            &self.parameters.configuration.build_arguments,
        );
        let project_id: usize = self.parameters.projects[self.next].id;
        self.phase = SessionPhase::Streaming;
        CompileStep::Launch(BuildInvocation { project_id, entry_script, command })
    }

    /// Takes in what became of the build process of the current project,
    /// and makes the event for it where the request was for a single
    /// project.
    pub fn project_finished(&mut self, result: ProcessResult) -> (r: Option<
        CompilerProgressParams,
    >)
        ensures
            final(self)@ == old(self)@.after_project(result),
            progress_view(r) == old(self)@.project_event(result),
    {
        match self.phase {
            SessionPhase::Streaming => {},
            _ => {
                return None;
            },
        }
        if self.next >= self.parameters.projects.len() {
            self.phase = SessionPhase::Finishing;
            self.outcome = CompileOutcome { success: false, code: -1 };
            return None;
        }
        let outcome = match result {
            ProcessResult::Exited { .. } => result.outcome(),
            _ => CompileOutcome { success: false, code: -1 },
        };
        let event = if self.parameters.single {
            let project = &self.parameters.projects[self.next];
            let target = match self.current_file() {
                Some(file) => file,
                None => String::new(),
            };
            let footer = SingleProjectCompFooter::new(
                self.parameters.rebuild,
                self.parameters.configuration.product_name.clone(),
                project.name.clone(),
                target,
            );
            Some(
                CompilerProgressParams::SingleProjectCompleted {
                    project_id: project.id,
                    success: outcome.success,
                    code: outcome.code,
                    lines: footer.into_vec(outcome.success),
                },
            )
        } else {
            None
        };
        self.outcome = outcome;
        match result {
            ProcessResult::Exited { .. } => {
                self.next = self.next + 1;
                self.phase = SessionPhase::Running;
            },
            _ => {
                self.phase = SessionPhase::Finishing;
            },
        }
        event
    }

    /// Ends the session and makes the event that completes the invocation,
    /// with the outcome of the last build.
    pub fn finish(&mut self) -> (r: CompilerProgressParams)
        ensures
            r@ == old(self)@.completion(),
            final(self)@ == (SessionView { phase: SessionPhase::Finished, ..old(self)@ }),
    {
        let lines = self.parameters.footer.into_vec(self.outcome.success);
        self.phase = SessionPhase::Finished;
        CompilerProgressParams::Completed {
            success: self.outcome.success,
            code: self.outcome.code,
            lines,
        }
    }
}

} // verus!
