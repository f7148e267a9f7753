//! The compile engine: at most one compile invocation at a time, from the
//! request to the completion, and the request to cancel it.

use vstd::prelude::*;
use crate::compiler::{CompilationPlan, Compiler};
use crate::error::ProjectsError;
use crate::session::{
    progress_view, step_view, BuildInvocationView, CompileSession, CompileStep,
    CompilerProgressParams, ProcessResult, ProgressView, SessionPhase, SessionView,
};

verus! {

/// The engine: idle, or busy with the session of one invocation, which may
/// have been asked to cancel.
#[derive(Debug)]
pub struct CompileEngine {
    pub session: Option<CompileSession>,
    pub cancel_requested: bool,
}

/// The view of what may be a session.
pub open spec fn session_view(session: Option<CompileSession>) -> Option<SessionView> {
    match session {
        Some(s) => Some(s@),
        None => None,
    }
}

/// The engine as a value: the session it is busy with, if any, and whether
/// cancellation is raised.
pub struct EngineView {
    pub session: Option<SessionView>,
    pub cancel_requested: bool,
}

impl View for CompileEngine {
    type V = EngineView;

    open spec fn view(&self) -> EngineView {
        EngineView {
            session: session_view(self.session),
            cancel_requested: self.cancel_requested,
        }
    }
}

impl EngineView {
    /// The idle engine: no invocation runs, and cancellation is not raised.
    pub open spec fn idle() -> EngineView {
        EngineView { session: None, cancel_requested: false }
    }

    /// Whether an invocation is running.
    pub open spec fn active(self) -> bool {
        self.session is Some
    }

    /// The answer to a request. A busy engine refuses it. An idle engine
    /// resolves the request and fails where it does not resolve.
    pub open spec fn begin(self, plan: Result<CompilationPlan, ProjectsError>) -> Result<
        (),
        ProjectsError,
    > {
        if self.active() {
            Err(ProjectsError::CompilationActive)
        } else {
            match plan {
                Ok(_) => Ok(()),
                Err(e) => Err(e),
            }
        }
    }

    /// The engine after a request. A busy engine stays as it is. An idle
    /// engine starts the session of a plan, and is idle again after a
    /// request that does not resolve; either way cancellation is not raised
    /// afterwards.
    pub open spec fn after_begin(self, plan: Result<CompilationPlan, ProjectsError>) -> EngineView {
        if self.active() {
            self
        } else {
            match plan {
                Ok(p) => EngineView {
                    session: Some(SessionView::started(p)),
                    cancel_requested: false,
                },
                Err(_) => EngineView::idle(),
            }
        }
    }

    /// The engine after a request to cancel: cancellation is raised on a
    /// running invocation; an idle engine has nothing to cancel.
    pub open spec fn after_cancel(self) -> EngineView {
        EngineView { cancel_requested: self.active(), ..self }
    }

    /// What is launched next.
    pub open spec fn launch(self) -> Option<BuildInvocationView> {
        match self.session {
            Some(s) => s.launch(self.cancel_requested),
            None => None,
        }
    }

    /// The engine after the next step was decided.
    pub open spec fn after_step(self) -> EngineView {
        match self.session {
            Some(s) => EngineView { session: Some(s.after_step(self.cancel_requested)), ..self },
            None => self,
        }
    }

    /// The engine after the build process of the current project is over.
    pub open spec fn after_project(self, result: ProcessResult) -> EngineView {
        match self.session {
            Some(s) => EngineView { session: Some(s.after_project(result)), ..self },
            None => self,
        }
    }

    /// The event for the end of one project's build.
    pub open spec fn project_event(self, result: ProcessResult) -> Option<ProgressView> {
        match self.session {
            Some(s) => s.project_event(result),
            None => None,
        }
    }

    /// The event that completes the invocation.
    pub open spec fn completion(self) -> Option<ProgressView> {
        match self.session {
            Some(s) => Some(s.completion()),
            None => None,
        }
    }
}

impl CompileEngine {
    /// An idle engine.
    pub fn new() -> (r: CompileEngine)
        ensures
            r@ == EngineView::idle(),
    {
        CompileEngine { session: None, cancel_requested: false }
    }

    /// Whether an invocation is running.
    pub fn is_active(&self) -> (r: bool)
        ensures
            r == self@.active(),
    {
        self.session.is_some()
    }

    /// Whether cancellation is raised.
    pub fn is_cancel_requested(&self) -> (r: bool)
        ensures
            r == self@.cancel_requested,
    {
        self.cancel_requested
    }

    /// Asks the running invocation to cancel.
    pub fn request_cancel(&mut self)
        ensures
            final(self)@ == old(self)@.after_cancel(),
    {
        self.cancel_requested = self.session.is_some();
    }

    /// Takes a request: resolves it and starts its session, and makes the
    /// event that opens the invocation. A second request while one is
    /// running is refused and changes nothing. A request that does not
    /// resolve fails before anything is launched, and the engine is idle
    /// again with cancellation cleared.
    pub fn begin(&mut self, compiler: &Compiler) -> (r: Result<
        CompilerProgressParams,
        ProjectsError,
    >)
        ensures
            final(self)@ == old(self)@.after_begin(
                compiler.projects_data@.plan(compiler.params, compiler.compilers@),
            ),
            match r {
                Ok(start) => old(self)@.begin(
                    compiler.projects_data@.plan(compiler.params, compiler.compilers@),
                ) is Ok && start@ == (ProgressView::Start {
                    lines: final(self)@.session->0.plan.header.header_lines(),
                }),
                Err(e) => old(self)@.begin(
                    compiler.projects_data@.plan(compiler.params, compiler.compilers@),
                ) == Err::<(), _>(e),
            },
    {
        if self.session.is_some() {
            return Err(ProjectsError::CompilationActive);
        }
        self.cancel_requested = false;
        match compiler.resolve() {
            Ok(parameters) => {
                let (session, start) = CompileSession::start(parameters);
                self.session = Some(session);
                Ok(start)
            },
            Err(e) => Err(e),
        }
    }

    /// Decides what is to be done next in the running invocation. Once
    /// cancellation is raised nothing is launched any more. An idle engine
    /// has nothing to do.
    pub fn next_step(&mut self) -> (r: CompileStep)
        ensures
            final(self)@ == old(self)@.after_step(),
            step_view(r) == old(self)@.launch(),
    {
        let cancelled = self.cancel_requested;
        match &mut self.session {
            Some(session) => session.next_step(cancelled),
            None => CompileStep::Done,
        }
    }

    /// Takes in what became of the build process of the current project.
    pub fn project_finished(&mut self, result: ProcessResult) -> (r: Option<
        CompilerProgressParams,
    >)
        ensures
            final(self)@ == old(self)@.after_project(result),
            progress_view(r) == old(self)@.project_event(result),
    {
        match &mut self.session {
            Some(session) => session.project_finished(result),
            None => None,
        }
    }

    /// Ends the invocation, however it went: makes the event that
    /// completes it, clears cancellation, and leaves the engine idle.
    pub fn finish(&mut self) -> (r: Option<CompilerProgressParams>)
        ensures
            final(self)@ == EngineView::idle(),
            progress_view(r) == old(self)@.completion(),
    {
        let mut ended: Option<CompileSession> = None;
        core::mem::swap(&mut self.session, &mut ended);
        self.cancel_requested = false;
        match ended {
            Some(mut session) => Some(session.finish()),
            None => None,
        }
    }
}

/// Only one invocation runs at a time: a request to a busy engine is
/// refused, whatever it asks for, and changes nothing.
pub proof fn lemma_single_flight(engine: EngineView, plan: Result<CompilationPlan, ProjectsError>)
    requires
        engine.active(),
    ensures
        engine.begin(plan) == Err::<(), ProjectsError>(ProjectsError::CompilationActive),
        engine.after_begin(plan) == engine,
{
}

/// A request that does not resolve fails before anything is launched, and
/// leaves the engine idle with cancellation cleared: the next request is
/// neither refused nor cancelled before its first project.
pub proof fn lemma_unresolved_request_leaves_the_engine_idle(
    engine: EngineView,
    error: ProjectsError,
    next: CompilationPlan,
)
    requires
        !engine.active(),
    ensures
        engine.begin(Err(error)) == Err::<(), ProjectsError>(error),
        engine.after_begin(Err(error)) == EngineView::idle(),
        engine.after_begin(Err(error)).launch() is None,
        engine.after_begin(Err(error)).begin(Ok(next)) is Ok,
        !engine.after_begin(Err(error)).after_begin(Ok(next)).cancel_requested,
{
}

/// A session that has just started stands before the first project of its
/// plan, is between two projects, and is not cancelled.
pub proof fn lemma_begin_starts_before_the_first_project(engine: EngineView, plan: CompilationPlan)
    requires
        !engine.active(),
    ensures
        engine.begin(Ok(plan)) is Ok,
        engine.after_begin(Ok(plan)).session matches Some(s) && s.next == 0 && s.phase
            == SessionPhase::Running && s.plan == plan,
        !engine.after_begin(Ok(plan)).cancel_requested,
{
}

/// Cancellation is raised only on a running invocation, and once raised it
/// stays until the invocation is finished: whatever happens in between,
/// nothing is launched any more.
pub proof fn lemma_cancellation_holds_until_the_end(engine: EngineView, result: ProcessResult)
    requires
        engine.cancel_requested,
    ensures
        engine.launch() is None,
        engine.after_step().cancel_requested,
        engine.after_project(result).cancel_requested,
        !engine.after_cancel().cancel_requested ==> !engine.active(),
{
}

} // verus!
