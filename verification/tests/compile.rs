use ddk_server::banner::{format_line, CompFooter, CompHeader, SingleProjectCompFooter};
use ddk_server::compiler::{CompilationParameters, CompileProjectParams, Compiler};
use ddk_server::compiler_config::{CompilerConfiguration, CompilerConfigurations};
use ddk_server::error::ProjectsError;
use ddk_server::group_project::GroupProject;
use ddk_server::lexorank::LexoRank;
use ddk_server::project::{Project, ProjectLink};
use ddk_server::projects_data::ProjectsData;
use ddk_server::engine::CompileEngine;
use ddk_server::session::{
    join_texts, make_build_command, CompileSession, CompileStep, CompilerProgressParams,
    ProcessResult, SessionPhase,
};
use ddk_server::workspace::Workspace;

fn s(text: &str) -> String {
    text.to_string()
}

fn link(id: usize, project_id: usize) -> ProjectLink {
    ProjectLink { id, project_id, sort_rank: LexoRank::default() }
}

fn project(id: usize, name: &str) -> Project {
    Project {
        id,
        name: s(name),
        directory: s("src"),
        dproj: Some(format!("src/{}.dproj", name)),
        dpr: None,
        dpk: None,
        exe: None,
        ini: None,
    }
}

fn compiler(name: &str) -> CompilerConfiguration {
    CompilerConfiguration {
        condition: s("always"),
        product_name: s(name),
        product_version: 1,
        package_version: 2,
        compiler_version: 3,
        installation_path: s("inst"),
        build_arguments: vec![s("/p:Config=Debug"), s("/v:m")],
    }
}

fn compilers() -> CompilerConfigurations {
    let mut r = CompilerConfigurations::empty();
    r.insert(s("12.0"), compiler("Delphi 12"));
    r.insert(s("11.0"), compiler("Delphi 11"));
    r
}

/// Workspace 1 "W" (compiler 11.0) holds links 11 -> P1, 12 -> P2, 13 -> P3;
/// workspace 2 "V" (compiler 12.0) holds link 21 -> P2;
/// the group project "G" holds links 31 -> P3 and 32 -> P1.
fn data() -> ProjectsData {
    ProjectsData {
        id_counter: 200,
        active_project_id: None,
        workspaces: vec![
            Workspace {
                id: 1,
                name: s("W"),
                compiler_id: s("11.0"),
                project_links: vec![link(11, 101), link(12, 102), link(13, 103)],
                sort_rank: LexoRank::default(),
            },
            Workspace {
                id: 2,
                name: s("V"),
                compiler_id: s("12.0"),
                project_links: vec![link(21, 102)],
                sort_rank: LexoRank::default(),
            },
        ],
        projects: vec![project(101, "P1"), project(102, "P2"), project(103, "P3"), project(104, "P4")],
        group_project: Some(GroupProject {
            name: s("G"),
            path: s("G.groupproj"),
            compiler_id: s("12.0"),
            project_links: vec![link(31, 103), link(32, 101)],
        }),
        group_project_compiler_id: s("12.0"),
    }
}

fn resolve(params: CompileProjectParams) -> Result<CompilationParameters, ProjectsError> {
    Compiler::new(params, data(), compilers()).resolve()
}

fn names(plan: &CompilationParameters) -> Vec<&str> {
    plan.projects.iter().map(|p| p.name.as_str()).collect()
}

fn banner(h: &CompHeader) -> (&str, &str, &str, &str, bool) {
    (h.entity_type.as_str(), h.entity_name.as_str(), h.target.as_str(), h.compiler_name.as_str(), h.rebuild)
}

fn entry_script() -> String {
    std::path::Path::new("inst").join("bin").join("rsvars.bat").to_string_lossy().into_owned()
}

fn centre(text: &str, width: usize) -> String {
    let padding = width.saturating_sub(text.len() + 2);
    if padding == 0 {
        text.to_string()
    } else {
        format!(" {}{}", " ".repeat(padding / 2), text)
    }
}

#[test]
fn format_line_centres_a_text() {
    assert_eq!(format_line("abc", 10), "   abc");
    assert_eq!(format_line("abc", 7), "  abc");
    assert_eq!(format_line("abc", 6), " abc");
    assert_eq!(format_line("abc", 5), "abc");
    assert_eq!(format_line("abc", 0), "abc");
    assert_eq!(format_line("", 4), "  ");
    assert_eq!(format_line("", 2), "");
}

#[test]
fn format_line_counts_bytes() {
    // three characters of three bytes each leave less room than three letters
    assert_eq!(format_line("→→→", 13), "  →→→");
    assert_eq!(format_line("→→→", 11), "→→→");
}

#[test]
fn the_header_has_six_lines() {
    let header = CompHeader::new(s("Project"), s("App"), s("src/App.dproj"), s("Delphi 12"), false);
    let lines = header.into_vec();
    assert_eq!(lines.len(), 6);
    assert_eq!(lines[0], format!("╒{}╕", "═".repeat(70)));
    assert_eq!(lines[1], format!("{}Compiling Project App", " ".repeat(25)));
    assert_eq!(lines[2], format!("{}→ src/App.dproj ←", " ".repeat(24)));
    assert_eq!(lines[3], centre("🛠️ Compiler: Delphi 12", 70));
    assert_eq!(lines[4], centre("🗲 Action: Compile (Clean,Make)", 70));
    assert!(lines[3].ends_with("Compiler: Delphi 12") && lines[3].starts_with("    "));
    assert_eq!(lines[5], format!("╘{}╛", "═".repeat(70)));
}

#[test]
fn the_footer_names_the_outcome() {
    let footer = CompFooter::new(s("Workspace"), s("W"), s("Projects of Workspace 'W'"), s("D"), true);
    let lines = footer.into_vec(true);
    assert_eq!(lines.len(), 7);
    assert_eq!(lines[1], centre("Compiling Workspace W", 72));
    assert_eq!(lines[2], centre("→ Projects of Workspace 'W' ←", 70));
    assert_eq!(lines[4], centre("🗲 Action: Rebuild (Clean,Build)", 70));
    assert_eq!(lines[5], centre("Status: ✅ SUCCESS", 70));
    assert_eq!(footer.into_vec(false)[5], centre("Status: ❌ FAILED", 70));
    assert_eq!(lines[0], footer.into_vec(false)[0]);
    assert_eq!(lines[6], format!("╘{}╛", "═".repeat(70)));
}

#[test]
fn the_footer_of_a_single_project() {
    let footer = SingleProjectCompFooter::new(false, s("D"), s("App"), s("src/App.dproj"));
    let lines = footer.into_vec(false);
    assert_eq!(lines.len(), 7);
    assert_eq!(lines[1], centre("Compiling Project: App", 72));
    assert_eq!(lines[2], centre("→ src/App.dproj ←", 70));
    assert_eq!(lines[3], centre("🛠️ Compiler: D", 70));
    assert_eq!(lines[4], centre("🗲 Action: Compile (Clean,Make)", 70));
    assert_eq!(lines[5], centre("Status: ❌ FAILED", 70));
}

#[test]
fn a_single_project_is_resolved_through_its_workspace() {
    let plan = resolve(CompileProjectParams::Project {
        project_id: 102,
        project_link_id: None,
        rebuild: false,
    })
    .unwrap();
    assert_eq!(names(&plan), vec!["P2"]);
    assert!(plan.single);
    assert!(!plan.rebuild);
    assert_eq!(plan.configuration.product_name, "Delphi 11");
    assert_eq!(banner(&plan.header), ("Project", "P2", "src/P2.dproj", "Delphi 11", false));
    assert_eq!(plan.footer.entity_name, "P2");
}

#[test]
fn a_single_project_is_resolved_through_its_link() {
    let plan = resolve(CompileProjectParams::Project {
        project_id: 102,
        project_link_id: Some(21),
        rebuild: true,
    })
    .unwrap();
    assert_eq!(plan.configuration.product_name, "Delphi 12");
    assert!(plan.rebuild);
    let plan = resolve(CompileProjectParams::Project {
        project_id: 101,
        project_link_id: Some(32),
        rebuild: true,
    })
    .unwrap();
    assert_eq!(plan.configuration.product_name, "Delphi 12");
    assert_eq!(names(&plan), vec!["P1"]);
}

#[test]
fn a_single_project_that_only_the_group_project_links() {
    let mut d = data();
    d.workspaces[0].project_links.truncate(2);
    d.workspaces[0].compiler_id = s("11.0");
    d.group_project_compiler_id = s("12.0");
    let params = CompileProjectParams::Project { project_id: 103, project_link_id: None, rebuild: false };
    let plan = Compiler::new(params, d, compilers()).resolve().unwrap();
    assert_eq!(names(&plan), vec!["P3"]);
    assert!(plan.single);
    assert_eq!(plan.configuration.product_name, "Delphi 12");
    assert_eq!(banner(&plan.header), ("Project", "P3", "src/P3.dproj", "Delphi 12", false));
    let mut d = data();
    d.workspaces[0].project_links.truncate(2);
    d.group_project_compiler_id = s("unknown");
    let plan = Compiler::new(params, d, compilers()).resolve().unwrap();
    assert_eq!(plan.configuration.product_name, "Delphi 12");
    let mut d = data();
    d.workspaces[0].project_links.truncate(2);
    assert_eq!(
        Compiler::new(params, d, CompilerConfigurations::empty()).resolve().err(),
        Some(ProjectsError::CompilerNotFound)
    );
}

#[test]
fn a_single_project_that_does_not_resolve() {
    let project = |project_id, project_link_id| CompileProjectParams::Project {
        project_id,
        project_link_id,
        rebuild: false,
    };
    assert_eq!(resolve(project(999, None)).err(), Some(ProjectsError::ProjectNotFound { id: 999 }));
    assert_eq!(
        resolve(project(104, None)).err(),
        Some(ProjectsError::ProjectNotLinked { id: 104 })
    );
    assert_eq!(
        resolve(project(101, Some(999))).err(),
        Some(ProjectsError::LinkNotContained { id: 999 })
    );
    let mut d = data();
    d.projects[0].dproj = None;
    assert_eq!(
        Compiler::new(project(101, None), d, compilers()).resolve().err(),
        Some(ProjectsError::NoProjectFile { id: 101 })
    );
    let mut d = data();
    d.workspaces[0].compiler_id = s("none");
    assert_eq!(
        Compiler::new(project(101, None), d, compilers()).resolve().err(),
        Some(ProjectsError::CompilerNotFound)
    );
}

#[test]
fn all_projects_of_a_workspace() {
    let plan = resolve(CompileProjectParams::AllInWorkspace { workspace_id: 1, rebuild: false }).unwrap();
    assert_eq!(names(&plan), vec!["P1", "P2", "P3"]);
    assert!(!plan.single);
    assert_eq!(banner(&plan.header), ("Workspace", "W", "Projects of Workspace 'W'", "Delphi 11", false));
    assert_eq!(
        resolve(CompileProjectParams::AllInWorkspace { workspace_id: 9, rebuild: false }).err(),
        Some(ProjectsError::WorkspaceNotFound { id: 9 })
    );
    let mut d = data();
    d.workspaces[0].project_links[1].project_id = 555;
    d.workspaces[0].project_links[2].project_id = 666;
    let params = CompileProjectParams::AllInWorkspace { workspace_id: 1, rebuild: false };
    assert_eq!(
        Compiler::new(params, d, compilers()).resolve().err(),
        Some(ProjectsError::ProjectNotFound { id: 555 })
    );
}

#[test]
fn all_projects_of_the_group_project() {
    let plan = resolve(CompileProjectParams::AllInGroupProject { rebuild: true }).unwrap();
    assert_eq!(names(&plan), vec!["P3", "P1"]);
    assert_eq!(
        banner(&plan.header),
        ("Group Project", "G", "Projects of Group Project 'G'", "Delphi 12", true)
    );
    let mut d = data();
    d.group_project_compiler_id = s("unknown");
    let params = CompileProjectParams::AllInGroupProject { rebuild: true };
    let plan = Compiler::new(params, d, compilers()).resolve().unwrap();
    assert_eq!(plan.configuration.product_name, "Delphi 12");
    let mut d = data();
    d.group_project = None;
    assert_eq!(
        Compiler::new(params, d, compilers()).resolve().err(),
        Some(ProjectsError::NoGroupProject)
    );
    assert_eq!(
        Compiler::new(params, data(), CompilerConfigurations::empty()).resolve().err(),
        Some(ProjectsError::CompilerNotFound)
    );
}

#[test]
fn from_a_link_on() {
    let plan = resolve(CompileProjectParams::FromLink { project_link_id: 12, rebuild: false }).unwrap();
    assert_eq!(names(&plan), vec!["P2", "P3"]);
    assert_eq!(
        banner(&plan.header),
        (
            "Workspace 'W'",
            "Project P2",
            "Projects of Workspace 'W' from project P2",
            "Delphi 11",
            false
        )
    );
    let plan = resolve(CompileProjectParams::FromLink { project_link_id: 32, rebuild: false }).unwrap();
    assert_eq!(names(&plan), vec!["P1"]);
    assert_eq!(
        banner(&plan.header),
        (
            "Group Project 'G'",
            "Project P1",
            "Projects of Group Project 'G' from project P1",
            "Delphi 12",
            false
        )
    );
    assert_eq!(
        resolve(CompileProjectParams::FromLink { project_link_id: 999, rebuild: false }).err(),
        Some(ProjectsError::ProjectLinkNotFound { id: 999 })
    );
    let mut d = data();
    d.group_project = None;
    let params = CompileProjectParams::FromLink { project_link_id: 999, rebuild: false };
    assert_eq!(
        Compiler::new(params, d, compilers()).resolve().err(),
        Some(ProjectsError::LinkNotContained { id: 999 })
    );
}

#[test]
fn the_build_command() {
    assert_eq!(
        make_build_command("inst/bin/rsvars.bat", "src/App.dproj", false, &vec![s("/p:Config=Debug"), s("/v:m")]),
        "call inst/bin/rsvars.bat && msbuild \"src/App.dproj\" /t:Clean,Make /p:Config=Debug /v:m"
    );
    assert_eq!(
        make_build_command("r", "f", true, &vec![]),
        "call r && msbuild \"f\" /t:Clean,Build "
    );
    assert_eq!(join_texts(&vec![], ", "), "");
    assert_eq!(join_texts(&vec![s("a")], ", "), "a");
    assert_eq!(join_texts(&vec![s("a"), s(""), s("c")], ", "), "a, , c");
}

#[test]
fn only_one_invocation_at_a_time() {
    let workspace = CompileProjectParams::AllInWorkspace { workspace_id: 1, rebuild: false };
    let first = Compiler::new(workspace, data(), compilers());
    let second = Compiler::new(CompileProjectParams::AllInGroupProject { rebuild: true }, data(), compilers());
    let mut engine = CompileEngine::new();
    assert!(!engine.is_active());
    let start = engine.begin(&first).unwrap();
    assert!(matches!(start, CompilerProgressParams::Start { .. }));
    assert!(engine.is_active());
    assert_eq!(engine.begin(&second).err(), Some(ProjectsError::CompilationActive));
    assert_eq!(engine.begin(&first).err(), Some(ProjectsError::CompilationActive));
    assert_eq!(engine.session.as_ref().unwrap().parameters.header.entity_name, "W");
    assert!(matches!(engine.finish(), Some(CompilerProgressParams::Completed { success: false, code: -1, .. })));
    assert!(!engine.is_active());
    assert!(engine.begin(&second).is_ok());
    assert_eq!(engine.session.as_ref().unwrap().parameters.header.entity_name, "G");
}

#[test]
fn a_request_that_does_not_resolve_leaves_the_engine_idle() {
    let unknown = CompileProjectParams::AllInWorkspace { workspace_id: 9, rebuild: false };
    let mut engine = CompileEngine::new();
    assert_eq!(
        engine.begin(&Compiler::new(unknown, data(), compilers())).err(),
        Some(ProjectsError::WorkspaceNotFound { id: 9 })
    );
    assert!(!engine.is_active());
    assert!(matches!(engine.next_step(), CompileStep::Done));
    assert!(engine.project_finished(ProcessResult::SpawnFailed).is_none());
    assert!(engine.finish().is_none());
}

#[test]
fn the_engine_runs_an_invocation_to_its_end() {
    let workspace = CompileProjectParams::AllInWorkspace { workspace_id: 2, rebuild: false };
    let mut engine = CompileEngine::new();
    engine.begin(&Compiler::new(workspace, data(), compilers())).unwrap();
    let mut launched: Vec<usize> = Vec::new();
    loop {
        match engine.next_step() {
            CompileStep::Launch(invocation) => {
                launched.push(invocation.project_id);
                assert!(engine
                    .project_finished(ProcessResult::Exited { success: true, code: Some(0) })
                    .is_none());
            }
            CompileStep::Done => break,
        }
    }
    assert_eq!(launched, vec![102]);
    match engine.finish() {
        Some(CompilerProgressParams::Completed { success, code, lines }) => {
            assert_eq!((success, code), (true, 0));
            assert_eq!(lines[1], centre("Compiling Workspace V", 72));
        }
        other => panic!("unexpected event {:?}", other),
    }
    assert!(!engine.is_active());
}

#[test]
fn a_session_builds_the_projects_in_order() {
    let plan = resolve(CompileProjectParams::AllInWorkspace { workspace_id: 1, rebuild: false }).unwrap();
    let header = plan.header.into_vec();
    let (mut session, start) = CompileSession::start(plan);
    match start {
        CompilerProgressParams::Start { lines } => assert_eq!(lines, header),
        other => panic!("unexpected event {:?}", other),
    }
    let mut built: Vec<usize> = Vec::new();
    loop {
        match session.next_step(false) {
            CompileStep::Launch(invocation) => {
                assert_eq!(session.phase, SessionPhase::Streaming);
                assert_eq!(invocation.entry_script, entry_script());
                let name = format!("P{}", invocation.project_id - 100);
                assert_eq!(
                    invocation.command,
                    format!(
                        "call {} && msbuild \"src/{}.dproj\" /t:Clean,Make /p:Config=Debug /v:m",
                        entry_script(),
                        name
                    )
                );
                built.push(invocation.project_id);
                let code = built.len() as i32;
                let event =
                    session.project_finished(ProcessResult::Exited { success: code == 3, code: Some(code) });
                assert!(event.is_none());
            }
            CompileStep::Done => break,
        }
    }
    assert_eq!(built, vec![101, 102, 103]);
    assert_eq!(session.phase, SessionPhase::Finishing);
    match session.finish() {
        CompilerProgressParams::Completed { success, code, lines } => {
            assert!(success);
            assert_eq!(code, 3);
            assert_eq!(lines.len(), 7);
            assert_eq!(lines[5], centre("Status: ✅ SUCCESS", 70));
        }
        other => panic!("unexpected event {:?}", other),
    }
    assert_eq!(session.phase, SessionPhase::Finished);
    assert!(matches!(session.next_step(false), CompileStep::Done));
    assert_eq!(session.phase, SessionPhase::Finished);
}

#[test]
fn scenario_cancellation_between_two_projects() {
    let mut d = data();
    d.workspaces[0].project_links.truncate(2);
    let params = CompileProjectParams::AllInWorkspace { workspace_id: 1, rebuild: false };
    let plan = Compiler::new(params, d, compilers()).resolve().unwrap();
    assert_eq!(names(&plan), vec!["P1", "P2"]);
    let (mut session, _) = CompileSession::start(plan);
    let mut launched: Vec<usize> = Vec::new();
    match session.next_step(false) {
        CompileStep::Launch(invocation) => launched.push(invocation.project_id),
        CompileStep::Done => panic!("the first project was not launched"),
    }
    session.project_finished(ProcessResult::Exited { success: true, code: Some(0) });
    // cancellation is raised after P1 has finished and before P2 starts
    match session.next_step(true) {
        CompileStep::Launch(invocation) => launched.push(invocation.project_id),
        CompileStep::Done => {}
    }
    assert_eq!(launched, vec![101]);
    assert_eq!(session.phase, SessionPhase::Finishing);
    match session.finish() {
        CompilerProgressParams::Completed { success, code, lines } => {
            assert!(!success);
            assert_eq!(code, -1);
            assert_eq!(lines[5], centre("Status: ❌ FAILED", 70));
        }
        other => panic!("unexpected event {:?}", other),
    }
    assert!(matches!(session.next_step(false), CompileStep::Done));
    assert_eq!(session.next, 1);
}

#[test]
fn a_process_that_does_not_run_ends_the_session() {
    for result in [ProcessResult::MissingEntryScript, ProcessResult::SpawnFailed, ProcessResult::Cancelled] {
        let plan = resolve(CompileProjectParams::AllInWorkspace { workspace_id: 1, rebuild: false }).unwrap();
        let (mut session, _) = CompileSession::start(plan);
        assert!(matches!(session.next_step(false), CompileStep::Launch(_)));
        assert!(session.project_finished(result).is_none());
        assert_eq!(session.phase, SessionPhase::Finishing);
        assert!(matches!(session.next_step(false), CompileStep::Done));
        match session.finish() {
            CompilerProgressParams::Completed { success, code, .. } => {
                assert!(!success);
                assert_eq!(code, -1);
            }
            other => panic!("unexpected event {:?}", other),
        }
    }
    assert_eq!(ProcessResult::Exited { success: false, code: None }.outcome().code, -1);
    assert_eq!(ProcessResult::Exited { success: false, code: Some(2) }.outcome().code, 2);
}

#[test]
fn a_single_project_reports_its_own_completion() {
    let plan = resolve(CompileProjectParams::Project {
        project_id: 103,
        project_link_id: Some(31),
        rebuild: true,
    })
    .unwrap();
    let (mut session, _) = CompileSession::start(plan);
    assert!(matches!(session.next_step(false), CompileStep::Launch(_)));
    match session.project_finished(ProcessResult::Exited { success: false, code: Some(1) }) {
        Some(CompilerProgressParams::SingleProjectCompleted { project_id, success, code, lines }) => {
            assert_eq!((project_id, success, code), (103, false, 1));
            assert_eq!(lines[1], centre("Compiling Project: P3", 72));
            assert_eq!(lines[2], centre("→ src/P3.dproj ←", 70));
            assert_eq!(lines[3], centre("🛠️ Compiler: Delphi 12", 70));
            assert_eq!(lines[4], centre("🗲 Action: Rebuild (Clean,Build)", 70));
            assert_eq!(lines[5], centre("Status: ❌ FAILED", 70));
        }
        other => panic!("unexpected event {:?}", other),
    }
    assert!(session.project_finished(ProcessResult::SpawnFailed).is_none());
    assert!(matches!(session.next_step(false), CompileStep::Done));
    match session.finish() {
        CompilerProgressParams::Completed { success, code, .. } => assert_eq!((success, code), (false, 1)),
        other => panic!("unexpected event {:?}", other),
    }
}

#[test]
fn a_project_without_a_file_ends_the_session() {
    let mut d = data();
    d.projects[1].dproj = None;
    let params = CompileProjectParams::AllInWorkspace { workspace_id: 1, rebuild: false };
    let (mut session, _) = CompileSession::start(Compiler::new(params, d, compilers()).resolve().unwrap());
    assert!(matches!(session.next_step(false), CompileStep::Launch(_)));
    session.project_finished(ProcessResult::Exited { success: true, code: Some(0) });
    assert!(matches!(session.next_step(false), CompileStep::Done));
    assert_eq!(session.phase, SessionPhase::Finishing);
    assert_eq!(session.outcome.success, false);
    assert_eq!(session.outcome.code, -1);
}

#[test]
fn cancellation_is_held_by_the_engine_and_cleared_at_the_end() {
    let workspace = CompileProjectParams::AllInWorkspace { workspace_id: 1, rebuild: false };
    let mut engine = CompileEngine::new();
    // nothing runs: there is nothing to cancel
    engine.request_cancel();
    assert!(!engine.is_cancel_requested());
    engine.begin(&Compiler::new(workspace, data(), compilers())).unwrap();
    assert!(!engine.is_cancel_requested());
    let mut launched: Vec<usize> = Vec::new();
    match engine.next_step() {
        CompileStep::Launch(invocation) => launched.push(invocation.project_id),
        CompileStep::Done => panic!("the first project was not launched"),
    }
    engine.project_finished(ProcessResult::Exited { success: true, code: Some(0) });
    engine.request_cancel();
    assert!(engine.is_cancel_requested());
    assert!(matches!(engine.next_step(), CompileStep::Done));
    assert_eq!(launched, vec![101]);
    match engine.finish() {
        Some(CompilerProgressParams::Completed { success, code, .. }) => {
            assert_eq!((success, code), (false, -1));
        }
        other => panic!("unexpected event {:?}", other),
    }
    assert!(!engine.is_active());
    assert!(!engine.is_cancel_requested());
    // the next invocation is neither refused nor cancelled
    engine.begin(&Compiler::new(workspace, data(), compilers())).unwrap();
    assert!(matches!(engine.next_step(), CompileStep::Launch(_)));
}

#[test]
fn a_request_that_does_not_resolve_clears_a_stale_cancellation() {
    let unknown = CompileProjectParams::AllInWorkspace { workspace_id: 9, rebuild: false };
    let workspace = CompileProjectParams::AllInWorkspace { workspace_id: 2, rebuild: false };
    let mut engine = CompileEngine { session: None, cancel_requested: true };
    assert!(engine.begin(&Compiler::new(unknown, data(), compilers())).is_err());
    assert!(!engine.is_active());
    assert!(!engine.is_cancel_requested());
    let mut engine = CompileEngine { session: None, cancel_requested: true };
    engine.begin(&Compiler::new(workspace, data(), compilers())).unwrap();
    assert!(!engine.is_cancel_requested());
    assert!(matches!(engine.next_step(), CompileStep::Launch(_)));
}

#[test]
fn a_busy_engine_keeps_its_cancellation_when_it_refuses_a_request() {
    let workspace = CompileProjectParams::AllInWorkspace { workspace_id: 2, rebuild: false };
    let mut engine = CompileEngine::new();
    engine.begin(&Compiler::new(workspace, data(), compilers())).unwrap();
    engine.request_cancel();
    assert_eq!(
        engine.begin(&Compiler::new(workspace, data(), compilers())).err(),
        Some(ProjectsError::CompilationActive)
    );
    assert!(engine.is_cancel_requested());
    assert!(matches!(engine.next_step(), CompileStep::Done));
}
