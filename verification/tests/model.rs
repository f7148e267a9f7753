use ddk_server::compiler_config::CompilerConfigurations;
use ddk_server::disk::DiskSnapshot;
use ddk_server::error::{PathField, ProjectsError};
use ddk_server::group_project::GroupProject;
use ddk_server::lexorank::{LexoRank, MAX_RANK, RANK_GAP};
use ddk_server::project::{Project, ProjectKind, ProjectLink, ProjectUpdateData};
use ddk_server::projects_data::ProjectsData;
use ddk_server::workspace::{Workspace, WorkspaceUpdateData};

fn s(text: &str) -> String {
    text.to_string()
}

fn link(id: usize, project_id: usize) -> ProjectLink {
    ProjectLink { id, project_id, sort_rank: LexoRank::default() }
}

fn project(id: usize, name: &str) -> Project {
    Project {
        id,
        name: s(name),
        directory: s("src"),
        dproj: Some(format!("src/{}.dproj", name)),
        dpr: None,
        dpk: None,
        exe: None,
        ini: None,
    }
}

fn workspace(id: usize, name: &str, links: Vec<ProjectLink>) -> Workspace {
    Workspace {
        id,
        name: s(name),
        compiler_id: s("12.0"),
        project_links: links,
        sort_rank: LexoRank { value: id as u64 },
    }
}

fn group(links: Vec<ProjectLink>) -> GroupProject {
    GroupProject { name: s("All"), path: s("All.groupproj"), compiler_id: s("12.0"), project_links: links }
}

/// Two workspaces and a group project over three projects:
/// workspace 1 holds links 11 -> 101 and 12 -> 102,
/// workspace 2 holds link 21 -> 101,
/// the group project holds links 31 -> 102 and 32 -> 103.
fn sample() -> ProjectsData {
    ProjectsData {
        id_counter: 200,
        active_project_id: Some(103),
        workspaces: vec![
            workspace(1, "One", vec![link(11, 101), link(12, 102)]),
            workspace(2, "Two", vec![link(21, 101)]),
        ],
        projects: vec![project(101, "A"), project(102, "B"), project(103, "C")],
        group_project: Some(group(vec![link(31, 102), link(32, 103)])),
        group_project_compiler_id: s("12.0"),
    }
}

fn ranked(id: usize, project_id: usize, rank: u64) -> ProjectLink {
    ProjectLink { id, project_id, sort_rank: LexoRank { value: rank } }
}

fn link_ids(links: &Vec<ProjectLink>) -> Vec<usize> {
    links.iter().map(|l| l.id).collect()
}

fn project_ids(data: &ProjectsData) -> Vec<usize> {
    data.projects.iter().map(|p| p.id).collect()
}

fn workspace_ids(data: &ProjectsData) -> Vec<usize> {
    data.workspaces.iter().map(|w| w.id).collect()
}

#[test]
fn default_model_is_empty() {
    let data = ProjectsData::default();
    assert_eq!(data.id_counter, 0);
    assert_eq!(data.active_project_id, None);
    assert!(data.workspaces.is_empty());
    assert!(data.projects.is_empty());
    assert!(data.group_project.is_none());
    assert_eq!(data.group_project_compiler_id, "12.0");
}

#[test]
fn new_falls_back_to_the_default() {
    assert_eq!(ProjectsData::new(None), ProjectsData::default());
    assert_eq!(ProjectsData::new(Some(sample())), sample());
}

#[test]
fn initialize_writes_only_where_no_file_is() {
    assert_eq!(ProjectsData::initialize(true), None);
    assert_eq!(ProjectsData::initialize(false), Some(ProjectsData::default()));
}

#[test]
fn next_id_counts_up() {
    let mut data = ProjectsData::default();
    assert_eq!(data.next_id(), 1);
    assert_eq!(data.next_id(), 2);
    assert_eq!(data.id_counter, 2);
}

#[test]
fn scenario_import_project_into_new_workspace() {
    let compilers = CompilerConfigurations::default();
    let mut data = ProjectsData::default();
    assert_eq!(data.new_workspace(&s("W1"), &s("12.0"), &compilers), Ok(()));
    assert_eq!(data.workspaces.len(), 1);
    let workspace_id = data.workspaces[0].id;
    assert_eq!(data.new_project(&s("a.dproj"), workspace_id), Ok(()));
    assert_eq!(data.projects.len(), 1);
    assert_eq!(data.workspaces[0].project_links.len(), 1);
    let link = data.workspaces[0].project_links[0];
    assert_eq!(link.project_id, data.projects[0].id);
    assert_eq!(data.workspaces[0].name, "W1");
    assert_eq!(data.workspaces[0].compiler_id, "12.0");
    assert_eq!((workspace_id, data.projects[0].id, link.id), (1, 2, 3));
    assert_eq!(data.id_counter, 3);
    assert_eq!(data.projects[0].dproj, Some(s("a.dproj")));
    assert_eq!(data.projects[0].name, "a");
    assert_eq!(link.sort_rank, LexoRank { value: RANK_GAP });
    assert_eq!(data.validate(&compilers), Ok(()));
}

#[test]
fn imported_links_rank_after_the_last_link() {
    let mut data = ProjectsData::default();
    data.workspaces.push(Workspace::new(100, s("W"), s("12.0"), LexoRank::default()));
    assert_eq!(data.new_project(&s("a.dproj"), 100), Ok(()));
    assert_eq!(data.new_project(&s("b.dproj"), 100), Ok(()));
    assert_eq!(data.add_project_link(1, 100), Ok(()));
    let links = &data.workspaces[0].project_links;
    assert_eq!(link_ids(links), vec![2, 4, 5]);
    assert!(links[0].sort_rank < links[1].sort_rank);
    assert!(links[1].sort_rank < links[2].sort_rank);
    assert_eq!(
        *links,
        vec![ranked(2, 1, RANK_GAP), ranked(4, 3, 2 * RANK_GAP), ranked(5, 1, 3 * RANK_GAP)]
    );
}

#[test]
fn a_new_link_rebalances_a_workspace_without_a_rank_left() {
    let mut data = sample();
    data.workspaces[0].project_links[1].sort_rank = LexoRank { value: MAX_RANK };
    assert_eq!(data.add_project_link(103, 1), Ok(()));
    let links = &data.workspaces[0].project_links;
    assert_eq!(link_ids(links), vec![11, 12, 201]);
    for (i, l) in links.iter().enumerate() {
        assert_eq!(l.sort_rank, LexoRank::spaced(3, i));
    }
}

#[test]
fn scenario_second_caller_sees_the_first_workspace() {
    let compilers = CompilerConfigurations::default();
    let mut persisted = ProjectsData::default();
    // the first caller holds the state, changes it and persists it
    let mut first = ProjectsData::new(Some(persisted.clone()));
    assert_eq!(first.new_workspace(&s("First"), &s("12.0"), &compilers), Ok(()));
    persisted = first;
    // the second caller gets the state only after that
    let mut second = ProjectsData::new(Some(persisted.clone()));
    assert_eq!(second.workspaces.len(), 1);
    assert_eq!(second.workspaces[0].name, "First");
    assert_eq!(second.new_workspace(&s("Second"), &s("12.0"), &compilers), Ok(()));
    persisted = second;
    let names: Vec<&str> = persisted.workspaces.iter().map(|w| w.name.as_str()).collect();
    assert_eq!(names, vec!["First", "Second"]);
    assert_eq!(workspace_ids(&persisted), vec![1, 2]);
}

#[test]
fn new_workspace_ranks_after_the_last() {
    let compilers = CompilerConfigurations::default();
    let mut data = ProjectsData::default();
    data.new_workspace(&s("A"), &s("12.0"), &compilers).unwrap();
    data.new_workspace(&s("B"), &s("12.0"), &compilers).unwrap();
    assert_eq!(data.workspaces[0].sort_rank, LexoRank { value: RANK_GAP });
    assert_eq!(data.workspaces[1].sort_rank, LexoRank { value: 2 * RANK_GAP });
}

#[test]
fn new_workspace_rebalances_when_no_rank_is_left() {
    let compilers = CompilerConfigurations::default();
    let mut data = ProjectsData::default();
    data.new_workspace(&s("A"), &s("12.0"), &compilers).unwrap();
    data.workspaces[0].sort_rank = LexoRank { value: MAX_RANK };
    data.new_workspace(&s("B"), &s("12.0"), &compilers).unwrap();
    assert_eq!(data.workspaces[0].sort_rank, LexoRank::spaced(2, 0));
    assert_eq!(data.workspaces[1].sort_rank, LexoRank::spaced(2, 1));
    assert_eq!(data.workspaces[1].name, "B");
}

#[test]
fn new_workspace_needs_a_known_compiler() {
    let compilers = CompilerConfigurations::default();
    let mut data = ProjectsData::default();
    assert_eq!(
        data.new_workspace(&s("A"), &s("11.0"), &compilers),
        Err(ProjectsError::CompilerNotFound)
    );
    assert_eq!(data, ProjectsData::default());
}

#[test]
fn new_project_classifies_by_extension() {
    let mut data = sample();
    assert_eq!(data.new_project(&s("lib/Core.DPK"), 2), Ok(()));
    let p = data.projects.last().unwrap();
    assert_eq!((p.id, p.name.as_str(), p.directory.as_str()), (201, "Core", "lib"));
    assert_eq!(p.dpk, Some(s("lib/Core.DPK")));
    assert_eq!((p.dproj.clone(), p.dpr.clone()), (None, None));
    assert_eq!(data.workspaces[1].project_links.last(), Some(&ranked(202, 201, RANK_GAP)));
    assert_eq!(data.id_counter, 202);

    assert_eq!(data.new_project(&s("app/Main.dpr"), 1), Ok(()));
    assert_eq!(data.projects.last().unwrap().dpr, Some(s("app/Main.dpr")));
}

#[test]
fn new_project_refuses_other_files() {
    let mut data = sample();
    assert_eq!(data.new_project(&s("readme.txt"), 1), Err(ProjectsError::UnsupportedProjectFile));
    assert_eq!(data.new_project(&s("noextension"), 1), Err(ProjectsError::UnsupportedProjectFile));
    assert_eq!(data, sample());
}

#[test]
fn new_project_needs_the_workspace() {
    let mut data = sample();
    assert_eq!(
        data.new_project(&s("a.dproj"), 9),
        Err(ProjectsError::WorkspaceNotFound { id: 9 })
    );
    assert_eq!(data, sample());
}

#[test]
fn new_project_from_parts_uses_the_fallback_names() {
    let mut data = sample();
    assert_eq!(
        data.new_project_from_parts(&s("x.dproj"), Some(ProjectKind::Dproj), None, None, 1),
        Ok(())
    );
    let p = data.projects.last().unwrap();
    assert_eq!(p.name, "<name error>");
    assert_eq!(p.directory, "<directory error>");
}

#[test]
fn add_project_link_appends_a_link() {
    let mut data = sample();
    assert_eq!(data.add_project_link(103, 2), Ok(()));
    assert_eq!(data.workspaces[1].project_links, vec![link(21, 101), ranked(201, 103, RANK_GAP)]);
    assert_eq!(data.id_counter, 201);
    assert_eq!(data.add_project_link(999, 2), Err(ProjectsError::ProjectNotFound { id: 999 }));
    assert_eq!(data.add_project_link(103, 9), Err(ProjectsError::WorkspaceNotFound { id: 9 }));
    assert_eq!(data.id_counter, 201);
}

#[test]
fn removing_a_link_that_is_not_the_last_keeps_the_project() {
    let mut data = sample();
    data.remove_project_link(11);
    assert_eq!(link_ids(&data.workspaces[0].project_links), vec![12]);
    assert_eq!(project_ids(&data), vec![101, 102, 103]);
    assert!(data.can_find_any_links(101));
}

#[test]
fn removing_the_last_link_removes_the_project() {
    let mut data = sample();
    data.remove_project_link(11);
    data.remove_project_link(21);
    assert_eq!(project_ids(&data), vec![102, 103]);
    assert!(!data.can_find_any_links(101));
    assert_eq!(data.active_project_id, Some(103));
}

#[test]
fn removing_the_last_link_of_the_active_project_deselects_it() {
    let mut data = sample();
    data.remove_project_link(32);
    assert_eq!(project_ids(&data), vec![101, 102]);
    assert_eq!(data.active_project_id, None);
    assert_eq!(link_ids(&data.group_project.as_ref().unwrap().project_links), vec![31]);
}

#[test]
fn removing_an_unknown_link_changes_nothing() {
    let mut data = sample();
    data.remove_project_link(99);
    assert_eq!(data, sample());
}

#[test]
fn remove_project_with_and_without_links() {
    let mut data = sample();
    data.remove_project(101, false);
    assert_eq!(project_ids(&data), vec![102, 103]);
    assert_eq!(link_ids(&data.workspaces[0].project_links), vec![11, 12]);
    let mut data = sample();
    data.remove_project(102, true);
    assert_eq!(project_ids(&data), vec![101, 103]);
    assert_eq!(link_ids(&data.workspaces[0].project_links), vec![11]);
    assert_eq!(link_ids(&data.group_project.as_ref().unwrap().project_links), vec![32]);
    data.remove_project(103, false);
    assert_eq!(data.active_project_id, None);
}

#[test]
fn moving_within_a_workspace() {
    let mut data = sample();
    assert_eq!(data.move_project_link(12, 11), Ok(()));
    assert_eq!(link_ids(&data.workspaces[0].project_links), vec![12, 11]);
    let links = &data.workspaces[0].project_links;
    assert!(links[0].sort_rank < links[1].sort_rank);
    assert_eq!(data.move_project_link(12, 1), Ok(()));
    assert_eq!(link_ids(&data.workspaces[0].project_links), vec![11, 12]);
}

#[test]
fn moving_between_workspaces() {
    let mut data = sample();
    assert_eq!(data.move_project_link(12, 21), Ok(()));
    assert_eq!(link_ids(&data.workspaces[0].project_links), vec![11]);
    assert_eq!(link_ids(&data.workspaces[1].project_links), vec![12, 21]);
    assert_eq!(data.move_project_link(11, 2), Ok(()));
    assert!(data.workspaces[0].project_links.is_empty());
    assert_eq!(link_ids(&data.workspaces[1].project_links), vec![12, 21, 11]);
    let links = &data.workspaces[1].project_links;
    assert!(links[0].sort_rank < links[1].sort_rank && links[1].sort_rank < links[2].sort_rank);
}

#[test]
fn moving_within_the_group_project() {
    let mut data = sample();
    assert_eq!(data.move_project_link(32, 31), Ok(()));
    assert_eq!(link_ids(&data.group_project.as_ref().unwrap().project_links), vec![32, 31]);
}

#[test]
fn moving_from_the_group_project_into_a_workspace_fails() {
    let mut data = sample();
    assert_eq!(data.move_project_link(31, 1), Err(ProjectsError::GroupProjectToWorkspace));
    assert_eq!(data.move_project_link(31, 21), Err(ProjectsError::GroupProjectToWorkspace));
    assert_eq!(data, sample());
}

#[test]
fn moving_from_a_workspace_into_the_group_project_fails() {
    let mut data = sample();
    assert_eq!(data.move_project_link(11, 32), Err(ProjectsError::WorkspaceToGroupProject));
    assert_eq!(data, sample());
}

#[test]
fn moving_reports_bad_targets() {
    let mut data = sample();
    assert_eq!(data.move_project_link(11, 999), Err(ProjectsError::DropTargetNotFound { id: 999 }));
    assert_eq!(data.move_project_link(999, 1), Err(ProjectsError::ProjectLinkNotFound { id: 999 }));
    assert_eq!(data.move_project_link(1, 2), Err(ProjectsError::ProjectLinkNotFound { id: 1 }));
    assert_eq!(data.move_project_link(11, 101), Err(ProjectsError::InvalidDropTarget { id: 101 }));
    data.workspaces[1].id = 11;
    assert_eq!(data.move_project_link(11, 12), Err(ProjectsError::DuplicateId { id: 11 }));
}

#[test]
fn moving_a_workspace_onto_another() {
    let mut data = sample();
    data.workspaces.push(workspace(3, "Three", vec![]));
    assert_eq!(data.move_workspace(3, 1), Ok(()));
    assert_eq!(workspace_ids(&data), vec![3, 1, 2]);
    for (i, w) in data.workspaces.iter().enumerate() {
        assert_eq!(w.sort_rank, LexoRank::spaced(3, i));
    }
    assert_eq!(data.move_workspace(3, 2), Ok(()));
    assert_eq!(workspace_ids(&data), vec![1, 2, 3]);
    assert_eq!(data.move_workspace(3, 21), Ok(()));
    assert_eq!(workspace_ids(&data), vec![1, 3, 2]);
    assert_eq!(data.move_workspace(1, 31), Ok(()));
    assert_eq!(workspace_ids(&data), vec![3, 2, 1]);
}

#[test]
fn moving_a_workspace_reports_bad_targets() {
    let mut data = sample();
    assert_eq!(data.move_workspace(1, 999), Err(ProjectsError::DropTargetNotFound { id: 999 }));
    assert_eq!(data.move_workspace(1, 103), Err(ProjectsError::InvalidDropTarget { id: 103 }));
    assert_eq!(data.move_workspace(9, 1), Err(ProjectsError::WorkspaceNotFound { id: 9 }));
    assert_eq!(data, sample());
}

#[test]
fn select_project_sets_the_active_project() {
    let mut data = sample();
    assert_eq!(data.select_project(101), Ok(()));
    assert_eq!(data.active_project().map(|p| p.id), Some(101));
    assert_eq!(data.select_project(999), Err(ProjectsError::ProjectNotFound { id: 999 }));
    assert_eq!(data.active_project_id, Some(101));
}

#[test]
fn update_project_checks_every_path_first() {
    let disk = DiskSnapshot { files: vec![s("x/N.dproj"), s("x/N.exe")], directories: vec![s("x")] };
    let mut data = sample();
    let patch = ProjectUpdateData {
        name: Some(s("N")),
        directory: Some(s("x")),
        dproj: Some(s("x/N.dproj")),
        dpr: None,
        dpk: None,
        exe: Some(s("x/N.exe")),
        ini: None,
    };
    assert_eq!(data.update_project(102, patch, &disk), Ok(()));
    let p = data.get_project(102).unwrap();
    assert_eq!((p.name.as_str(), p.directory.as_str()), ("N", "x"));
    assert_eq!(p.dproj, Some(s("x/N.dproj")));
    assert_eq!(p.exe, Some(s("x/N.exe")));
    assert_eq!(p.dpr, None);

    let before = data.clone();
    let bad = ProjectUpdateData {
        name: Some(s("M")),
        directory: None,
        dproj: None,
        dpr: Some(s("x/M.dpr")),
        dpk: None,
        exe: None,
        ini: Some(s("x/M.ini")),
    };
    assert_eq!(
        data.update_project(102, bad, &disk),
        Err(ProjectsError::PathMissing { field: PathField::Dpr })
    );
    assert_eq!(data, before);
}

#[test]
fn update_project_names_the_first_missing_field() {
    let disk = DiskSnapshot::new();
    let fields = [
        PathField::Directory,
        PathField::Dproj,
        PathField::Dpr,
        PathField::Dpk,
        PathField::Exe,
        PathField::Ini,
    ];
    for (i, field) in fields.iter().enumerate() {
        let given = |k: usize| if k >= i { Some(s("missing")) } else { None };
        let patch = ProjectUpdateData {
            name: None,
            directory: given(0),
            dproj: given(1),
            dpr: given(2),
            dpk: given(3),
            exe: given(4),
            ini: given(5),
        };
        let mut data = sample();
        assert_eq!(
            data.update_project(101, patch, &disk),
            Err(ProjectsError::PathMissing { field: *field })
        );
    }
    let mut data = sample();
    let patch = ProjectUpdateData {
        name: None,
        directory: None,
        dproj: None,
        dpr: None,
        dpk: None,
        exe: None,
        ini: None,
    };
    assert_eq!(
        data.update_project(999, patch, &disk),
        Err(ProjectsError::ProjectNotFound { id: 999 })
    );
}

#[test]
fn refresh_derives_the_files_from_disk() {
    let disk = DiskSnapshot {
        files: vec![s("src/B.dpr"), s("src/B.exe"), s("src/A.dproj")],
        directories: vec![s("src")],
    };
    let mut data = sample();
    assert_eq!(data.refresh_project_paths(102, &disk), Ok(()));
    let p = data.get_project(102).unwrap();
    assert_eq!(p.dproj, None);
    assert_eq!(p.dpr, Some(s("src/B.dpr")));
    assert_eq!(p.dpk, None);
    assert_eq!(p.exe, Some(s("src/B.exe")));
    assert_eq!(p.ini, None);
    assert_eq!(data.get_project(101), sample().get_project(101));
}

#[test]
fn refresh_needs_the_project_and_its_directory() {
    let mut data = sample();
    let disk = DiskSnapshot::new();
    assert_eq!(
        data.refresh_project_paths(102, &disk),
        Err(ProjectsError::PathMissing { field: PathField::Directory })
    );
    assert_eq!(
        data.refresh_project_paths(999, &disk),
        Err(ProjectsError::ProjectNotFound { id: 999 })
    );
    assert_eq!(data, sample());
}

#[test]
fn candidate_path_joins_directory_name_and_extension() {
    let p = project(1, "App");
    let expected: String =
        std::path::Path::new("src").join("App.exe").to_string_lossy().into_owned();
    assert_eq!(p.candidate_path(PathField::Exe), expected);
    assert_ne!(p.candidate_path(PathField::Exe), "src");
    assert!(p.candidate_path(PathField::Ini).ends_with("App.ini"));
}

#[test]
fn project_file_prefers_the_descriptor() {
    let mut p = project(1, "App");
    p.dpr = Some(s("src/App.dpr"));
    p.dpk = Some(s("src/App.dpk"));
    assert_eq!(p.get_project_file(), Ok(s("src/App.dproj")));
    p.dproj = None;
    assert_eq!(p.get_project_file(), Ok(s("src/App.dpr")));
    p.dpr = None;
    assert_eq!(p.get_project_file(), Ok(s("src/App.dpk")));
    p.dpk = None;
    assert_eq!(p.get_project_file(), Err(ProjectsError::NoProjectFile { id: 1 }));
}

#[test]
fn kinds_of_extensions() {
    assert_eq!(ProjectKind::from_lowercase(&s("dproj")), Some(ProjectKind::Dproj));
    assert_eq!(ProjectKind::from_lowercase(&s("dpr")), Some(ProjectKind::Dpr));
    assert_eq!(ProjectKind::from_lowercase(&s("dpk")), Some(ProjectKind::Dpk));
    assert_eq!(ProjectKind::from_lowercase(&s("DPK")), None);
    assert_eq!(ProjectKind::from_lowercase(&s("")), None);
    assert_eq!(ProjectKind::from_extension(&Some(s("DpRoJ"))), Some(ProjectKind::Dproj));
    assert_eq!(ProjectKind::from_extension(&Some(s("exe"))), None);
    assert_eq!(ProjectKind::from_extension(&None), None);
}

#[test]
fn update_workspace_patches_name_and_compiler() {
    let compilers = CompilerConfigurations::default();
    let mut data = sample();
    let patch = WorkspaceUpdateData { name: Some(s("Renamed")), compiler: None };
    assert_eq!(data.update_workspace(2, &patch, &compilers), Ok(()));
    assert_eq!(data.get_workspace(2).unwrap().name, "Renamed");
    assert_eq!(data.get_workspace(2).unwrap().compiler_id, "12.0");
    let bad = WorkspaceUpdateData { name: Some(s("Again")), compiler: Some(s("none")) };
    assert_eq!(data.update_workspace(2, &bad, &compilers), Err(ProjectsError::CompilerNotFound));
    assert_eq!(data.get_workspace(2).unwrap().name, "Renamed");
    assert_eq!(
        data.update_workspace(9, &patch, &compilers),
        Err(ProjectsError::WorkspaceNotFound { id: 9 })
    );
}

#[test]
fn removing_a_workspace_prunes_its_projects() {
    let mut data = sample();
    data.group_project = None;
    data.remove_workspace(1);
    assert_eq!(workspace_ids(&data), vec![2]);
    // 101 is still linked from workspace 2; 102 was linked from workspace 1 only
    assert_eq!(project_ids(&data), vec![101, 103]);
    assert_eq!(data.active_project_id, Some(103));
    data.remove_workspace(2);
    assert_eq!(project_ids(&data), vec![103]);
    data.remove_workspace(2);
    assert_eq!(project_ids(&data), vec![103]);
}

#[test]
fn removing_a_workspace_deselects_a_pruned_project() {
    let mut data = sample();
    data.active_project_id = Some(101);
    data.remove_workspace(2);
    assert_eq!(data.active_project_id, Some(101));
    data.remove_workspace(1);
    assert_eq!(project_ids(&data), vec![102, 103]);
    assert_eq!(data.active_project_id, None);
}

#[test]
fn removing_the_group_project_prunes_what_no_workspace_links() {
    let mut data = sample();
    data.remove_group_project();
    assert!(data.group_project.is_none());
    assert_eq!(project_ids(&data), vec![101, 102]);
    assert_eq!(data.active_project_id, None);
    let mut data = sample();
    data.active_project_id = Some(102);
    data.remove_group_project();
    assert_eq!(data.active_project_id, Some(102));
}

#[test]
fn set_group_project_reuses_and_creates_projects() {
    let disk = DiskSnapshot {
        files: vec![s("All.groupproj"), s("new/N.dproj"), s("new/N.ini")],
        directories: vec![s("new")],
    };
    let members = vec![s("src/B.dproj"), s("new/N.dproj"), s("src/A.dproj"), s("new/N.dproj")];
    let mut data = sample();
    assert_eq!(data.set_group_project(&s("All.groupproj"), &members, &disk), Ok(()));
    let g = data.group_project.as_ref().unwrap();
    assert_eq!((g.name.as_str(), g.path.as_str(), g.compiler_id.as_str()), ("All", "All.groupproj", "12.0"));
    let targets: Vec<usize> = g.project_links.iter().map(|l| l.project_id).collect();
    assert_eq!(targets, vec![102, 202, 101, 202]);
    assert_eq!(link_ids(&g.project_links), vec![201, 203, 204, 205]);
    assert_eq!(data.id_counter, 205);
    for pair in g.project_links.windows(2) {
        assert!(pair[0].sort_rank < pair[1].sort_rank);
    }
    assert_eq!(g.project_links[0].sort_rank, LexoRank { value: RANK_GAP });
    assert_eq!(project_ids(&data), vec![101, 102, 103, 202]);
    let n = data.get_project(202).unwrap();
    assert_eq!((n.name.as_str(), n.directory.as_str()), ("N", "new"));
    assert_eq!(n.dproj, Some(s("new/N.dproj")));
    assert_eq!(n.ini, Some(s("new/N.ini")));
    assert_eq!(n.exe, None);
}

#[test]
fn set_group_project_needs_the_manifest() {
    let mut data = sample();
    let disk = DiskSnapshot { files: vec![s("All.groupproj")], directories: vec![] };
    assert_eq!(
        data.set_group_project(&s("Other.groupproj"), &vec![], &disk),
        Err(ProjectsError::GroupProjectFileMissing)
    );
    assert_eq!(data, sample());
}

#[test]
fn a_member_in_a_directory_that_was_not_seen_is_taken_as_it_is() {
    let mut data = sample();
    let disk = DiskSnapshot { files: vec![s("All.groupproj")], directories: vec![] };
    let members = vec![s("src/A.dproj"), s("gone/X.dproj"), s("gone/X.dproj")];
    assert_eq!(data.set_group_project(&s("All.groupproj"), &members, &disk), Ok(()));
    let g = data.group_project.as_ref().unwrap();
    let targets: Vec<usize> = g.project_links.iter().map(|l| l.project_id).collect();
    assert_eq!(targets, vec![101, 202, 202]);
    let x = data.get_project(202).unwrap();
    assert_eq!((x.name.as_str(), x.directory.as_str()), ("X", "gone"));
    assert_eq!(x.dproj, Some(s("gone/X.dproj")));
    assert_eq!((x.dpr.clone(), x.exe.clone()), (None, None));
}

#[test]
fn a_new_member_keeps_its_descriptor_file() {
    let mut data = sample();
    // the directory is seen, the descriptor is not listed in the snapshot
    let disk = DiskSnapshot { files: vec![s("All.groupproj"), s("new/N.exe")], directories: vec![s("new")] };
    assert_eq!(data.set_group_project(&s("All.groupproj"), &vec![s("new/N.dproj")], &disk), Ok(()));
    let n = data.projects.last().unwrap();
    assert_eq!(n.dproj, Some(s("new/N.dproj")));
    assert_eq!(n.exe, Some(s("new/N.exe")));
    assert_eq!(data.find_project_by_dproj(&s("new/N.dproj")).map(|p| p.id), Some(n.id));
}

#[test]
fn lookups() {
    let data = sample();
    assert_eq!(data.get_workspace_index(2), Some(1));
    assert_eq!(data.get_workspace_index(9), None);
    assert_eq!(data.get_project_index(103), Some(2));
    assert_eq!(data.get_project(102).map(|p| p.name.as_str()), Some("B"));
    assert!(data.get_project(11).is_none());
    assert_eq!(data.get_workspace(1).map(|w| w.name.as_str()), Some("One"));
    assert!(data.get_workspace(101).is_none());
    assert_eq!(data.get_workspace_id_containing_project_link(21), Some(2));
    assert_eq!(data.get_workspace_id_containing_project_link(31), None);
    assert!(data.is_project_link_in_group_project(31));
    assert!(!data.is_project_link_in_group_project(21));
    assert!(data.can_find_any_links(103));
    assert!(!data.can_find_any_links(104));
    assert_eq!(data.find_project_by_dproj(&s("src/B.dproj")).map(|p| p.id), Some(102));
    assert!(data.find_project_by_dproj(&s("src/Z.dproj")).is_none());
    assert_eq!(data.active_project().map(|p| p.id), Some(103));
}

#[test]
fn mutable_lookups_change_in_place() {
    let mut data = sample();
    data.get_project_mut(102).unwrap().name = s("Changed");
    assert_eq!(data.projects[1].name, "Changed");
    assert!(data.get_project_mut(9).is_none());
    data.get_workspace_mut(2).unwrap().compiler_id = s("11.0");
    assert_eq!(data.workspaces[1].compiler_id, "11.0");
    assert!(data.get_workspace_mut(9).is_none());
}

#[test]
fn projects_of_containers_follow_the_links() {
    let mut data = sample();
    data.workspaces[0].project_links.insert(1, link(13, 999));
    let names: Vec<&str> =
        data.projects_of_workspace(&data.workspaces[0]).iter().map(|p| p.name.as_str()).collect();
    assert_eq!(names, vec!["A", "B"]);
    let g = data.group_project.as_ref().unwrap();
    let ids: Vec<usize> = data.projects_of_group_project(g).iter().map(|p| p.id).collect();
    assert_eq!(ids, vec![102, 103]);
}

#[test]
fn sort_orders_workspaces_and_links_by_rank() {
    let mut data = sample();
    data.workspaces[0].sort_rank = LexoRank { value: 9 };
    data.workspaces[0].project_links[0].sort_rank = LexoRank { value: 5 };
    data.group_project.as_mut().unwrap().project_links[0].sort_rank = LexoRank { value: 1 };
    data.sort();
    assert_eq!(workspace_ids(&data), vec![2, 1]);
    assert_eq!(link_ids(&data.workspaces[1].project_links), vec![12, 11]);
    assert_eq!(link_ids(&data.group_project.as_ref().unwrap().project_links), vec![32, 31]);
    assert_eq!(link_ids(&data.workspaces[0].project_links), vec![21]);
}

#[test]
fn clone_is_equal() {
    assert_eq!(sample().clone(), sample());
}
