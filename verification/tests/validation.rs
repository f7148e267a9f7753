use ddk_server::compiler_config::CompilerConfigurations;
use ddk_server::error::ProjectsError;
use ddk_server::group_project::GroupProject;
use ddk_server::id_map::{IdEntry, IdObject};
use ddk_server::lexorank::LexoRank;
use ddk_server::project::{Project, ProjectLink};
use ddk_server::projects_data::ProjectsData;
use ddk_server::workspace::Workspace;

fn s(text: &str) -> String {
    text.to_string()
}

fn link(id: usize, project_id: usize) -> ProjectLink {
    ProjectLink { id, project_id, sort_rank: LexoRank::default() }
}

fn project(id: usize) -> Project {
    Project {
        id,
        name: format!("P{}", id),
        directory: s("src"),
        dproj: None,
        dpr: None,
        dpk: None,
        exe: None,
        ini: None,
    }
}

fn workspace(id: usize, name: &str, links: Vec<ProjectLink>) -> Workspace {
    Workspace {
        id,
        name: s(name),
        compiler_id: s("12.0"),
        project_links: links,
        sort_rank: LexoRank::default(),
    }
}

fn sound() -> ProjectsData {
    ProjectsData {
        id_counter: 50,
        active_project_id: Some(30),
        workspaces: vec![
            workspace(1, "One", vec![link(10, 30), link(11, 31)]),
            workspace(2, "Two", vec![link(12, 30)]),
        ],
        projects: vec![project(30), project(31)],
        group_project: Some(GroupProject {
            name: s("G"),
            path: s("G.groupproj"),
            compiler_id: s("12.0"),
            project_links: vec![link(20, 31)],
        }),
        group_project_compiler_id: s("12.0"),
    }
}

fn check(data: &ProjectsData) -> Result<(), ProjectsError> {
    data.validate(&CompilerConfigurations::default())
}

#[test]
fn a_sound_model_passes() {
    assert_eq!(check(&sound()), Ok(()));
    assert_eq!(check(&ProjectsData::default()), Ok(()));
}

#[test]
fn a_workspace_with_an_unknown_compiler_fails() {
    let mut data = sound();
    data.workspaces[1].compiler_id = s("1.0");
    assert_eq!(check(&data), Err(ProjectsError::InvalidWorkspaceCompiler { workspace_id: 2 }));
    data.workspaces[0].compiler_id = s("2.0");
    assert_eq!(check(&data), Err(ProjectsError::InvalidWorkspaceCompiler { workspace_id: 1 }));
}

#[test]
fn an_unknown_group_compiler_fails() {
    let mut data = sound();
    data.group_project_compiler_id = s("1.0");
    assert_eq!(check(&data), Err(ProjectsError::InvalidGroupProjectCompiler));
    let mut data = sound();
    data.group_project.as_mut().unwrap().compiler_id = s("1.0");
    assert_eq!(check(&data), Err(ProjectsError::InvalidGroupProjectCompiler));
    assert_eq!(data.validate_compilers(&CompilerConfigurations::default()), check(&data));
}

#[test]
fn validation_fails_against_an_empty_registry() {
    assert_eq!(
        sound().validate(&CompilerConfigurations::empty()),
        Err(ProjectsError::InvalidWorkspaceCompiler { workspace_id: 1 })
    );
}

#[test]
fn a_duplicate_id_fails() {
    let mut data = sound();
    data.workspaces[1].project_links[0].id = 10;
    assert_eq!(check(&data), Err(ProjectsError::DuplicateId { id: 10 }));
    let mut data = sound();
    data.projects[1].id = 1;
    assert_eq!(check(&data), Err(ProjectsError::DuplicateId { id: 1 }));
    let mut data = sound();
    data.group_project.as_mut().unwrap().project_links[0].id = 2;
    assert_eq!(check(&data), Err(ProjectsError::DuplicateId { id: 2 }));
    let mut data = sound();
    data.workspaces[1].id = 1;
    assert_eq!(check(&data), Err(ProjectsError::DuplicateId { id: 1 }));
}

#[test]
fn the_first_duplicate_in_order_is_named() {
    let mut data = sound();
    data.projects[0].id = 11;
    data.workspaces[1].project_links[0].id = 2;
    // workspace 2 comes before its link 2 and before project 11
    assert_eq!(check(&data), Err(ProjectsError::DuplicateId { id: 2 }));
}

#[test]
fn a_dangling_active_project_fails() {
    let mut data = sound();
    data.active_project_id = Some(99);
    assert_eq!(check(&data), Err(ProjectsError::InvalidActiveProject { id: 99 }));
    data.active_project_id = Some(10);
    assert_eq!(check(&data), Err(ProjectsError::InvalidActiveProject { id: 10 }));
    data.active_project_id = None;
    assert_eq!(check(&data), Ok(()));
}

#[test]
fn a_dangling_link_fails() {
    let mut data = sound();
    data.workspaces[1].project_links[0].project_id = 99;
    assert_eq!(
        check(&data),
        Err(ProjectsError::InvalidWorkspaceLink { workspace_id: 2, link_id: 12, project_id: 99 })
    );
    data.group_project.as_mut().unwrap().project_links[0].project_id = 1;
    assert_eq!(
        check(&data),
        Err(ProjectsError::InvalidGroupProjectLink { link_id: 20, project_id: 1 })
    );
}

#[test]
fn workspace_names_are_unique_and_not_blank() {
    let mut data = sound();
    data.workspaces[1].name = s("One");
    assert_eq!(check(&data), Err(ProjectsError::DuplicateWorkspaceName { workspace_id: 2 }));
    assert_eq!(data.validate_names(), check(&data));
    data.workspaces[1].name = s("");
    assert_eq!(check(&data), Err(ProjectsError::EmptyWorkspaceName { workspace_id: 2 }));
    data.workspaces[0].name = s("");
    assert_eq!(check(&data), Err(ProjectsError::EmptyWorkspaceName { workspace_id: 1 }));
    data.workspaces[0].name = s(" x ");
    data.workspaces[1].name = s("x");
    assert_eq!(check(&data), Ok(()));
}

#[test]
fn a_name_of_white_space_is_a_name() {
    let mut data = sound();
    data.workspaces[0].name = s(" ");
    data.workspaces[1].name = s("\t");
    assert_eq!(check(&data), Ok(()));
    data.workspaces[1].name = s(" ");
    assert_eq!(check(&data), Err(ProjectsError::DuplicateWorkspaceName { workspace_id: 2 }));
}

#[test]
fn compilers_are_checked_before_ids_before_references_before_names() {
    let mut data = sound();
    data.workspaces[1].name = s("One");
    data.active_project_id = Some(99);
    assert_eq!(check(&data), Err(ProjectsError::InvalidActiveProject { id: 99 }));
    data.projects[1].id = 30;
    assert_eq!(check(&data), Err(ProjectsError::DuplicateId { id: 30 }));
    data.group_project_compiler_id = s("x");
    assert_eq!(check(&data), Err(ProjectsError::InvalidGroupProjectCompiler));
}

#[test]
fn id_entries_follow_the_model() {
    let data = sound();
    let e = |id: usize, kind: IdObject| IdEntry { id, kind };
    assert_eq!(
        data.collect_id_entries(),
        vec![
            e(1, IdObject::Workspace),
            e(10, IdObject::ProjectLink),
            e(11, IdObject::ProjectLink),
            e(2, IdObject::Workspace),
            e(12, IdObject::ProjectLink),
            e(20, IdObject::ProjectLink),
            e(30, IdObject::Project),
            e(31, IdObject::Project),
        ]
    );
    let map = data.get_id_map().unwrap();
    assert_eq!(map.len(), 8);
    assert_eq!(map.get(&2), Some(&IdObject::Workspace));
    assert_eq!(map.get(&20), Some(&IdObject::ProjectLink));
    assert_eq!(map.get(&31), Some(&IdObject::Project));
    assert_eq!(map.get(&3), None);
}
