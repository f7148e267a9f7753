//! The aggregate root of the project model and its operations.

use vstd::prelude::*;
use vstd::string::*;
use crate::compiler_config::{
    compiler_exists, fallback_key, CompilerConfiguration, CompilerConfigurations,
};
use crate::disk::{opt_text, texts, DiskSnapshot};
use crate::error::ProjectsError;
use crate::group_project::{group_view, GroupProject};
use crate::ids::{as_position, lemma_position_found, lemma_position_of, position_of};
use crate::lexorank::{lemma_sorted_by_views, rank_of, sorted_by, LexoRank};
use crate::links::{
    append_link, find_link, link_ids, link_position, link_targets, refers_to, remove_links_to,
};
use crate::paths::{
    extension_of, file_stem_of, parent_of, path_extension, path_file_stem, path_parent,
};
use crate::project::{
    project_views, Project, ProjectKind, ProjectLink, ProjectUpdateData, ProjectView,
};
use crate::projects_model::{
    agrees, other_projects, other_workspaces, project_descriptors, project_ids,
    with_sorted_links, without_target, workspace_ids, workspace_rank, ProjectsDataView,
};
use crate::seqs::{keep_flagged, lemma_kept_is_filter};
use crate::workspace::{
    lemma_respaced_workspace_views, workspace_views, Workspace, WorkspaceUpdateData, WorkspaceView,
};

verus! {

/// The aggregate root: the id counter, the active project, the workspaces,
/// the flat list of projects, the group project and the key of its
/// compiler. It is what is persisted and what is locked.
#[derive(Debug, PartialEq, Eq)]
pub struct ProjectsData {
    pub id_counter: usize,
    pub active_project_id: Option<usize>,
    pub workspaces: Vec<Workspace>,
    pub projects: Vec<Project>,
    pub group_project: Option<GroupProject>,
    pub group_project_compiler_id: String,
}

impl View for ProjectsData {
    type V = ProjectsDataView;

    open spec fn view(&self) -> ProjectsDataView {
        ProjectsDataView {
            id_counter: self.id_counter,
            active_project_id: self.active_project_id,
            workspaces: workspace_views(self.workspaces@),
            projects: project_views(self.projects@),
            group_project: group_view(self.group_project),
            group_project_compiler_id: self.group_project_compiler_id@,
        }
    }
}

/// Takes the projects with the given id out of the list.
pub fn remove_projects_with_id(projects: &mut Vec<Project>, project_id: usize)
    ensures
        project_views(final(projects)@) == project_views(old(projects)@).filter(
            other_projects(project_id),
        ),
{
    let mut flags: Vec<bool> = Vec::new();
    let mut i: usize = 0;
    while i < projects.len()
        invariant
            i <= projects@.len(),
            flags@.len() == i,
            forall|j: int| 0 <= j < i ==> flags@[j] == other_projects(project_id)(projects@[j]@),
        decreases projects@.len() - i,
    {
        flags.push(projects[i].id != project_id);
        i += 1;
    }
    let mut taken: Vec<Project> = Vec::new();
    core::mem::swap(projects, &mut taken);
    proof {
        lemma_kept_is_filter(taken@, flags@, |p: Project| p@, other_projects(project_id));
    }
    *projects = keep_flagged(taken, &flags);
}

impl ProjectsData {
    /// Whether `count` more ids can be handed out.
    pub open spec fn has_room(&self, count: nat) -> bool {
        self.id_counter + count <= usize::MAX
    }

    /// Hands out a new id.
    pub fn next_id(&mut self) -> (r: usize)
        requires
            old(self).has_room(1),
        ensures
            final(self)@ == old(self)@.next_id(),
            *final(self) == (ProjectsData { id_counter: r, ..*old(self) }),
            r == old(self).id_counter + 1,
    {
        self.id_counter += 1;
        self.id_counter
    }

    /// The place of the workspace with the given id.
    pub fn get_workspace_index(&self, workspace_id: usize) -> (r: Option<usize>)
        ensures
            as_position(r) == self@.workspace_position(workspace_id),
    {
        let mut i: usize = 0;
        while i < self.workspaces.len()
            invariant
                i <= self.workspaces@.len(),
                forall|j: int| 0 <= j < i ==> workspace_ids(self@.workspaces)[j] != workspace_id,
            decreases self.workspaces@.len() - i,
        {
            if self.workspaces[i].id == workspace_id {
                proof {
                    lemma_position_found(workspace_ids(self@.workspaces), workspace_id, i as int);
                }
                return Some(i);
            }
            i += 1;
        }
        proof {
            lemma_position_of(workspace_ids(self@.workspaces), workspace_id);
        }
        None
    }

    /// The place of the project with the given id.
    pub fn get_project_index(&self, project_id: usize) -> (r: Option<usize>)
        ensures
            as_position(r) == self@.project_position(project_id),
    {
        let mut i: usize = 0;
        while i < self.projects.len()
            invariant
                i <= self.projects@.len(),
                forall|j: int| 0 <= j < i ==> project_ids(self@.projects)[j] != project_id,
            decreases self.projects@.len() - i,
        {
            if self.projects[i].id == project_id {
                proof {
                    lemma_position_found(project_ids(self@.projects), project_id, i as int);
                }
                return Some(i);
            }
            i += 1;
        }
        proof {
            lemma_position_of(project_ids(self@.projects), project_id);
        }
        None
    }

    /// The project with the given id.
    pub fn get_project(&self, project_id: usize) -> (r: Option<&Project>)
        ensures
            match self@.project_position(project_id) {
                Some(i) => r matches Some(p) && p@ == self@.projects[i] && *p == self.projects@[i],
                None => r is None,
            },
    {
        proof {
            lemma_position_of(project_ids(self@.projects), project_id);
        }
        match self.get_project_index(project_id) {
            Some(i) => Some(&self.projects[i]),
            None => None,
        }
    }

    /// The workspace with the given id.
    pub fn get_workspace(&self, workspace_id: usize) -> (r: Option<&Workspace>)
        ensures
            match self@.workspace_position(workspace_id) {
                Some(i) => r matches Some(w) && w@ == self@.workspaces[i] && *w
                    == self.workspaces@[i],
                None => r is None,
            },
    {
        proof {
            lemma_position_of(workspace_ids(self@.workspaces), workspace_id);
        }
        match self.get_workspace_index(workspace_id) {
            Some(i) => Some(&self.workspaces[i]),
            None => None,
        }
    }

    /// Whether any link refers to the project.
    pub fn can_find_any_links(&self, project_id: usize) -> (r: bool)
        ensures
            r == self@.can_find_any_links(project_id),
    {
        let mut i: usize = 0;
        while i < self.workspaces.len()
            invariant
                i <= self.workspaces@.len(),
                forall|j: int|
                    0 <= j < i ==> !link_targets(
                        (#[trigger] self@.workspaces[j]).project_links,
                    ).contains(project_id),
            decreases self.workspaces@.len() - i,
        {
            if refers_to(&self.workspaces[i].project_links, project_id) {
                assert(link_targets(self@.workspaces[i as int].project_links).contains(project_id));
                return true;
            }
            i += 1;
        }
        match &self.group_project {
            Some(group_project) => refers_to(&group_project.project_links, project_id),
            None => {
                false
            },
        }
    }

    /// The place of the first workspace that holds the link.
    pub fn get_workspace_index_containing_project_link(&self, project_link_id: usize) -> (r:
        Option<usize>)
        ensures
            as_position(r) == self@.link_workspace(project_link_id),
            r matches Some(w) ==> w < self.workspaces@.len() && link_position(
                self.workspaces@[w as int].project_links@,
                project_link_id,
            ) is Some,
    {
        let ghost holders = self@.holders(project_link_id);
        let mut i: usize = 0;
        while i < self.workspaces.len()
            invariant
                i <= self.workspaces@.len(),
                holders == self@.holders(project_link_id),
                forall|j: int| 0 <= j < i ==> !holders[j],
            decreases self.workspaces@.len() - i,
        {
            let found = find_link(&self.workspaces[i].project_links, project_link_id);
            proof {
                lemma_position_of(
                    link_ids(self.workspaces@[i as int].project_links@),
                    project_link_id,
                );
            }
            if found.is_some() {
                proof {
                    lemma_position_found(holders, true, i as int);
                }
                return Some(i);
            }
            i += 1;
        }
        proof {
            lemma_position_of(holders, true);
        }
        None
    }

    /// The id of the first workspace that holds the link.
    pub fn get_workspace_id_containing_project_link(&self, project_link_id: usize) -> (r: Option<
        usize,
    >)
        ensures
            match self@.link_workspace(project_link_id) {
                Some(w) => r == Some(self@.workspaces[w].id),
                None => r is None,
            },
    {
        match self.get_workspace_index_containing_project_link(project_link_id) {
            Some(w) => Some(self.workspaces[w].id),
            None => None,
        }
    }

    /// Whether the group project holds the link.
    pub fn is_project_link_in_group_project(&self, project_link_id: usize) -> (r: bool)
        ensures
            r == self@.link_in_group(project_link_id),
    {
        match &self.group_project {
            Some(group_project) => {
                let found = find_link(&group_project.project_links, project_link_id);
                proof {
                    lemma_position_of(link_ids(group_project.project_links@), project_link_id);
                }
                found.is_some()
            },
            None => {
                false
            },
        }
    }

    /// Imports a project file into a workspace, given the kind, stem and
    /// parent that were found in its path.
    pub fn new_project_from_parts(
        &mut self,
        file_path: &String,
        kind: Option<ProjectKind>,
        stem: Option<String>,
        parent: Option<String>,
        workspace_id: usize,
    ) -> (r: Result<(), ProjectsError>)
        requires
            old(self).has_room(2),
        ensures
            agrees(
                r,
                old(self)@,
                final(self)@,
                old(self)@.new_project(
                    file_path@,
                    kind,
                    opt_text(stem),
                    opt_text(parent),
                    workspace_id,
                ),
            ),
    {
        let project_id: usize = self.id_counter + 1;
        let link_id: usize = self.id_counter + 2;
        let w = match self.get_workspace_index(workspace_id) {
            Some(w) => w,
            None => {
                return Err(ProjectsError::WorkspaceNotFound { id: workspace_id });
            },
        };
        proof {
            lemma_position_of(workspace_ids(self@.workspaces), workspace_id);
        }
        let kind = match kind {
            Some(k) => k,
            None => {
                return Err(ProjectsError::UnsupportedProjectFile);
            },
        };
        let project = Project::import(project_id, file_path, kind, stem, parent);
        append_link(&mut self.workspaces[w].project_links, link_id, project_id);
        self.projects.push(project);
        self.id_counter = link_id;
        proof {
            let expected = old(self)@.new_project(
                file_path@,
                Some(kind),
                opt_text(stem),
                opt_text(parent),
                workspace_id,
            )->Ok_0;
            assert(self@.workspaces =~= expected.workspaces);
            assert(self@.projects =~= expected.projects);
        }
        Ok(())
    }

    /// Imports a project file into a workspace. The file's extension decides
    /// the kind of the project; its stem and parent give the name and the
    /// directory.
    pub fn new_project(&mut self, file_path: &String, workspace_id: usize) -> (r: Result<
        (),
        ProjectsError,
    >)
        requires
            old(self).has_room(2),
        ensures
            agrees(
                r,
                old(self)@,
                final(self)@,
                old(self)@.new_project(
                    file_path@,
                    ProjectKind::of_extension(path_extension(file_path@)),
                    path_file_stem(file_path@),
                    path_parent(file_path@),
                    workspace_id,
                ),
            ),
    {
        let extension = extension_of(file_path.as_str());
        let kind = ProjectKind::from_extension(&extension);
        let stem = file_stem_of(file_path.as_str());
        let parent = parent_of(file_path.as_str());
        self.new_project_from_parts(file_path, kind, stem, parent, workspace_id)
    }

    /// Links a project into a workspace.
    pub fn add_project_link(&mut self, project_id: usize, workspace_id: usize) -> (r: Result<
        (),
        ProjectsError,
    >)
        requires
            old(self).has_room(1),
        ensures
            agrees(
                r,
                old(self)@,
                final(self)@,
                old(self)@.add_project_link(project_id, workspace_id),
            ),
    {
        if self.get_project_index(project_id).is_none() {
            return Err(ProjectsError::ProjectNotFound { id: project_id });
        }
        let id: usize = self.id_counter + 1;
        let w = match self.get_workspace_index(workspace_id) {
            Some(w) => w,
            None => {
                return Err(ProjectsError::WorkspaceNotFound { id: workspace_id });
            },
        };
        proof {
            lemma_position_of(workspace_ids(self@.workspaces), workspace_id);
        }
        append_link(&mut self.workspaces[w].project_links, id, project_id);
        self.id_counter = id;
        proof {
            let expected = old(self)@.add_project_link(project_id, workspace_id)->Ok_0;
            assert(self@.workspaces =~= expected.workspaces);
        }
        Ok(())
    }

    /// Takes the projects of the given id out of the model and deselects the
    /// id; if asked, takes the links to it out as well.
    pub fn remove_project(&mut self, project_id: usize, remove_links: bool)
        ensures
            final(self)@ == old(self)@.remove_project(project_id, remove_links),
    {
        remove_projects_with_id(&mut self.projects, project_id);
        if self.active_project_id == Some(project_id) {
            self.active_project_id = None;
        }
        if remove_links {
            let count: usize = self.workspaces.len();
            let ghost cleared = *self;
            let mut i: usize = 0;
            while i < count
                invariant
                    i <= count,
                    count == self.workspaces@.len(),
                    count == old(self).workspaces@.len(),
                    self.projects == cleared.projects,
                    self.id_counter == cleared.id_counter,
                    self.active_project_id == cleared.active_project_id,
                    self.group_project == cleared.group_project,
                    self.group_project_compiler_id == cleared.group_project_compiler_id,
                    forall|j: int|
                        0 <= j < i ==> #[trigger] self.workspaces@[j]@ == without_target(
                            project_id,
                        )(old(self).workspaces@[j]@),
                    forall|j: int|
                        i <= j < count ==> #[trigger] self.workspaces@[j] == old(self).workspaces@[j],
                decreases count - i,
            {
                remove_links_to(&mut self.workspaces[i].project_links, project_id);
                i += 1;
            }
            match &mut self.group_project {
                Some(group_project) => {
                    remove_links_to(&mut group_project.project_links, project_id);
                },
                None => {},
            }
            proof {
                let expected = old(self)@.remove_project(project_id, remove_links);
                assert(self@.workspaces =~= expected.workspaces);
            }
        }
    }

    /// Takes the link of the given id out of its container. The project it
    /// referred to goes with it once no link refers to it.
    pub fn remove_project_link(&mut self, project_link_id: usize)
        ensures
            final(self)@ == old(self)@.remove_project_link(project_link_id),
    {
        let mut project_id: Option<usize> = None;
        match self.get_workspace_index_containing_project_link(project_link_id) {
            Some(w) => {
                let found = find_link(&self.workspaces[w].project_links, project_link_id);
                proof {
                    lemma_position_of(
                        link_ids(self.workspaces@[w as int].project_links@),
                        project_link_id,
                    );
                }
                match found {
                    Some(p) => {
                        let link = self.workspaces[w].project_links.remove(p);
                        project_id = Some(link.project_id);
                        proof {
                            let expected = old(self)@.with_workspace_links(
                                w as int,
                                old(self)@.workspaces[w as int].project_links.remove(p as int),
                            );
                            assert(self@.workspaces =~= expected.workspaces);
                        }
                    },
                    None => {},
                }
            },
            None => {
                proof {
                    lemma_position_of(link_ids(self@.group_links()), project_link_id);
                }
                match &mut self.group_project {
                    Some(group_project) => {
                        let found = find_link(&group_project.project_links, project_link_id);
                        match found {
                            Some(p) => {
                                let link = group_project.project_links.remove(p);
                                project_id = Some(link.project_id);
                            },
                            None => {},
                        }
                    },
                    None => {
                    },
                }
            },
        }
        match project_id {
            Some(id) => {
                if !self.can_find_any_links(id) {
                    self.remove_project(id, false);
                }
            },
            None => {},
        }
    }

    /// Makes a project the active one.
    pub fn select_project(&mut self, project_id: usize) -> (r: Result<(), ProjectsError>)
        ensures
            agrees(r, old(self)@, final(self)@, old(self)@.select_project(project_id)),
    {
        if self.get_project_index(project_id).is_none() {
            return Err(ProjectsError::ProjectNotFound { id: project_id });
        }
        self.active_project_id = Some(project_id);
        Ok(())
    }

    /// Patches a project, given what was seen on disk.
    pub fn update_project(
        &mut self,
        project_id: usize,
        data: ProjectUpdateData,
        disk: &DiskSnapshot,
    ) -> (r: Result<(), ProjectsError>)
        ensures
            agrees(r, old(self)@, final(self)@, old(self)@.update_project(project_id, data@, disk@)),
    {
        let i = match self.get_project_index(project_id) {
            Some(i) => i,
            None => {
                return Err(ProjectsError::ProjectNotFound { id: project_id });
            },
        };
        proof {
            lemma_position_of(project_ids(self@.projects), project_id);
        }
        match data.first_missing(disk) {
            Some(field) => {
                return Err(ProjectsError::PathMissing { field });
            },
            None => {},
        }
        self.projects[i].apply_update(data);
        assert(self@.projects =~= old(self)@.projects.update(
            i as int,
            data@.applied(old(self)@.projects[i as int]),
        ));
        Ok(())
    }

    /// Derives the files of a project anew from what was seen on disk.
    pub fn refresh_project_paths(&mut self, project_id: usize, disk: &DiskSnapshot) -> (r: Result<
        (),
        ProjectsError,
    >)
        ensures
            agrees(
                r,
                old(self)@,
                final(self)@,
                old(self)@.refresh_project_paths(project_id, disk@),
            ),
    {
        let i = match self.get_project_index(project_id) {
            Some(i) => i,
            None => {
                return Err(ProjectsError::ProjectNotFound { id: project_id });
            },
        };
        proof {
            lemma_position_of(project_ids(self@.projects), project_id);
        }
        let r = self.projects[i].discover_paths(disk);
        proof {
            if r is Ok {
                assert(self@.projects =~= old(self)@.projects.update(
                    i as int,
                    old(self)@.projects[i as int].discovered(disk@),
                ));
            } else {
                assert(self@.projects =~= old(self)@.projects);
            }
        }
        r
    }

    /// Patches a workspace, given the registry of compilers.
    pub fn update_workspace(
        &mut self,
        workspace_id: usize,
        data: &WorkspaceUpdateData,
        compilers: &CompilerConfigurations,
    ) -> (r: Result<(), ProjectsError>)
        ensures
            agrees(
                r,
                old(self)@,
                final(self)@,
                old(self)@.update_workspace(workspace_id, data@, compilers@),
            ),
    {
        let w = match self.get_workspace_index(workspace_id) {
            Some(w) => w,
            None => {
                return Err(ProjectsError::WorkspaceNotFound { id: workspace_id });
            },
        };
        proof {
            lemma_position_of(workspace_ids(self@.workspaces), workspace_id);
        }
        if let Some(compiler_id) = &data.compiler {
            if !compiler_exists(compilers, compiler_id.as_str()) {
                return Err(ProjectsError::CompilerNotFound);
            }
        }
        if let Some(name) = &data.name {
            self.workspaces[w].name = name.clone();
        }
        if let Some(compiler_id) = &data.compiler {
            self.workspaces[w].compiler_id = compiler_id.clone();
        }
        assert(self@.workspaces =~= old(self)@.workspaces.update(
            w as int,
            data@.applied(old(self)@.workspaces[w as int]),
        ));
        Ok(())
    }

    /// Adds a workspace with the given name and compiler.
    pub fn new_workspace(
        &mut self,
        name: &String,
        compiler: &String,
        compilers: &CompilerConfigurations,
    ) -> (r: Result<(), ProjectsError>)
        requires
            old(self).has_room(1),
        ensures
            agrees(
                r,
                old(self)@,
                final(self)@,
                old(self)@.new_workspace(name@, compiler@, compilers@),
            ),
    {
        if !compiler_exists(compilers, compiler.as_str()) {
            return Err(ProjectsError::CompilerNotFound);
        }
        let workspace_id = self.next_id();
        let last: LexoRank = if self.workspaces.len() > 0 {
            self.workspaces[self.workspaces.len() - 1].sort_rank
        } else {
            LexoRank::default()
        };
        if last.has_next() {
            let workspace = Workspace::new(
                workspace_id,
                name.clone(),
                compiler.clone(),
                last.next(),
            );
            self.workspaces.push(workspace);
            assert(self@.workspaces =~= old(self)@.new_workspace(
                name@,
                compiler@,
                compilers@,
            )->Ok_0.workspaces);
        } else {
            let workspace = Workspace::new(workspace_id, name.clone(), compiler.clone(), last);
            self.workspaces.push(workspace);
            let ghost pushed = self.workspaces@;
            assert(workspace_views(pushed) =~= old(self)@.workspaces.push(workspace@));
            LexoRank::apply(&mut self.workspaces);
            proof {
                lemma_respaced_workspace_views(pushed);
            }
        }
        Ok(())
    }

    /// Takes out those of the candidate projects that no link refers to any
    /// more, and deselects such a candidate.
    pub fn prune_all(&mut self, candidates: &Vec<usize>)
        ensures
            final(self)@ == old(self)@.pruned_all(candidates@),
    {
        let ghost model = self@;
        let mut flags: Vec<bool> = Vec::new();
        let mut i: usize = 0;
        while i < self.projects.len()
            invariant
                i <= self.projects@.len(),
                flags@.len() == i,
                model == self@,
                forall|j: int|
                    0 <= j < i ==> flags@[j] == model.survivors(candidates@)(self.projects@[j]@),
            decreases self.projects@.len() - i,
        {
            let id: usize = self.projects[i].id;
            let stays = !contains_id(candidates, id) || self.can_find_any_links(id);
            flags.push(stays);
            i += 1;
        }
        match self.active_project_id {
            Some(a) => {
                if contains_id(candidates, a) && !self.can_find_any_links(a) {
                    self.active_project_id = None;
                }
            },
            None => {},
        }
        let mut taken: Vec<Project> = Vec::new();
        core::mem::swap(&mut self.projects, &mut taken);
        proof {
            lemma_kept_is_filter(taken@, flags@, |p: Project| p@, model.survivors(candidates@));
        }
        self.projects = keep_flagged(taken, &flags);
    }

    /// Takes the workspaces of the given id out of the model, and the
    /// projects that only the first of them referred to.
    pub fn remove_workspace(&mut self, workspace_id: usize)
        ensures
            final(self)@ == old(self)@.remove_workspace(workspace_id),
    {
        let targets: Vec<usize> = match self.get_workspace_index(workspace_id) {
            Some(w) => {
                proof {
                    lemma_position_of(workspace_ids(self@.workspaces), workspace_id);
                }
                targets_of(&self.workspaces[w].project_links)
            },
            None => Vec::new(),
        };
        let mut flags: Vec<bool> = Vec::new();
        let mut i: usize = 0;
        while i < self.workspaces.len()
            invariant
                i <= self.workspaces@.len(),
                flags@.len() == i,
                forall|j: int|
                    0 <= j < i ==> flags@[j] == other_workspaces(workspace_id)(
                        self.workspaces@[j]@,
                    ),
            decreases self.workspaces@.len() - i,
        {
            flags.push(self.workspaces[i].id != workspace_id);
            i += 1;
        }
        let mut taken: Vec<Workspace> = Vec::new();
        core::mem::swap(&mut self.workspaces, &mut taken);
        proof {
            lemma_kept_is_filter(
                taken@,
                flags@,
                |w: Workspace| w@,
                other_workspaces(workspace_id),
            );
        }
        self.workspaces = keep_flagged(taken, &flags);
        self.prune_all(&targets);
    }

    /// Takes the group project out of the model, and the projects that no
    /// workspace refers to.
    pub fn remove_group_project(&mut self)
        ensures
            final(self)@ == old(self)@.remove_group_project(),
    {
        self.group_project = None;
        let ghost model = self@;
        assert(link_targets(model.group_links()) =~= Seq::<usize>::empty());
        assert(forall|id: usize|
            model.can_find_any_links(id) == old(self)@.linked_from_workspace(id));
        let mut flags: Vec<bool> = Vec::new();
        let mut i: usize = 0;
        while i < self.projects.len()
            invariant
                i <= self.projects@.len(),
                flags@.len() == i,
                model == self@,
                forall|j: int|
                    0 <= j < i ==> flags@[j] == model.can_find_any_links(self.projects@[j].id),
            decreases self.projects@.len() - i,
        {
            let id: usize = self.projects[i].id;
            flags.push(self.can_find_any_links(id));
            i += 1;
        }
        match self.active_project_id {
            Some(a) => {
                if !self.can_find_any_links(a) {
                    self.active_project_id = None;
                }
            },
            None => {},
        }
        let mut taken: Vec<Project> = Vec::new();
        core::mem::swap(&mut self.projects, &mut taken);
        proof {
            lemma_kept_is_filter(taken@, flags@, |p: Project| p@, old(self)@.workspace_linked());
        }
        self.projects = keep_flagged(taken, &flags);
    }

    /// The place of the first project that has the given descriptor file.
    pub fn find_project_index_by_dproj(&self, dproj: &String) -> (r: Option<usize>)
        ensures
            as_position(r) == position_of(project_descriptors(self@.projects), Some(dproj@)),
            r matches Some(i) ==> i < self.projects@.len(),
    {
        let ghost descriptors = project_descriptors(self@.projects);
        let mut i: usize = 0;
        while i < self.projects.len()
            invariant
                i <= self.projects@.len(),
                descriptors == project_descriptors(self@.projects),
                forall|j: int| 0 <= j < i ==> descriptors[j] != Some(dproj@),
            decreases self.projects@.len() - i,
        {
            let matches = match &self.projects[i].dproj {
                Some(d) => *d == *dproj,
                None => false,
            };
            if matches {
                proof {
                    lemma_position_found(descriptors, Some(dproj@), i as int);
                }
                return Some(i);
            }
            i += 1;
        }
        proof {
            lemma_position_of(descriptors, Some(dproj@));
        }
        None
    }

    /// The first project that has the given descriptor file.
    pub fn find_project_by_dproj(&self, dproj: &String) -> (r: Option<&Project>)
        ensures
            match position_of(project_descriptors(self@.projects), Some(dproj@)) {
                Some(i) => r matches Some(p) && p@ == self@.projects[i],
                None => r is None,
            },
    {
        proof {
            lemma_position_of(project_descriptors(self@.projects), Some(dproj@));
        }
        match self.find_project_index_by_dproj(dproj) {
            Some(i) => Some(&self.projects[i]),
            None => None,
        }
    }

    /// Replaces the group project by one made from a manifest: `members`
    /// are the project files that the manifest lists, in its order. A
    /// failure leaves the model as it was.
    pub fn set_group_project(
        &mut self,
        groupproj_path: &String,
        members: &Vec<String>,
        disk: &DiskSnapshot,
    ) -> (r: Result<(), ProjectsError>)
        requires
            old(self).has_room(2 * members@.len()),
        ensures
            agrees(
                r,
                old(self)@,
                final(self)@,
                old(self)@.set_group_project(groupproj_path@, texts(members@), disk@),
            ),
    {
        if !disk.has(groupproj_path.as_str()) {
            return Err(ProjectsError::GroupProjectFileMissing);
        }
        let name = match file_stem_of(groupproj_path.as_str()) {
            Some(stem) => stem,
            None => String::from_str("<name error>"),
        };
        let mut group_project = GroupProject {
            name,
            path: groupproj_path.clone(),
            compiler_id: self.group_project_compiler_id.clone(),
            project_links: Vec::new(),
        };
        match group_project.fill(self, members, disk) {
            Ok(()) => {},
            Err(e) => {
                return Err(e);
            },
        }
        self.group_project = Some(group_project);
        Ok(())
    }

    /// The project with the given id, to be changed in place.
    pub fn get_project_mut(&mut self, project_id: usize) -> (r: Option<&mut Project>)
        ensures
            match old(self)@.project_position(project_id) {
                Some(i) => r matches Some(p) && *p == old(self).projects@[i]
                    && final(self).projects@ == old(self).projects@.update(i, *final(p)),
                None => r is None && final(self).projects == old(self).projects,
            },
            final(self).id_counter == old(self).id_counter,
            final(self).active_project_id == old(self).active_project_id,
            final(self).workspaces == old(self).workspaces,
            final(self).group_project == old(self).group_project,
            final(self).group_project_compiler_id == old(self).group_project_compiler_id,
    {
        proof {
            lemma_position_of(project_ids(self@.projects), project_id);
        }
        match self.get_project_index(project_id) {
            Some(i) => Some(&mut self.projects[i]),
            None => None,
        }
    }

    /// The workspace with the given id, to be changed in place.
    pub fn get_workspace_mut(&mut self, workspace_id: usize) -> (r: Option<&mut Workspace>)
        ensures
            match old(self)@.workspace_position(workspace_id) {
                Some(i) => r matches Some(w) && *w == old(self).workspaces@[i]
                    && final(self).workspaces@ == old(self).workspaces@.update(i, *final(w)),
                None => r is None && final(self).workspaces == old(self).workspaces,
            },
            final(self).id_counter == old(self).id_counter,
            final(self).active_project_id == old(self).active_project_id,
            final(self).projects == old(self).projects,
            final(self).group_project == old(self).group_project,
            final(self).group_project_compiler_id == old(self).group_project_compiler_id,
    {
        proof {
            lemma_position_of(workspace_ids(self@.workspaces), workspace_id);
        }
        match self.get_workspace_index(workspace_id) {
            Some(i) => Some(&mut self.workspaces[i]),
            None => None,
        }
    }

    /// The active project.
    pub fn active_project(&self) -> (r: Option<&Project>)
        ensures
            match self@.active_project() {
                Some(p) => r matches Some(q) && q@ == p,
                None => r is None,
            },
    {
        match self.active_project_id {
            Some(active_id) => self.get_project(active_id),
            None => None,
        }
    }

    /// The projects that the links refer to, in the order of the links. A
    /// link that refers to no project is passed over.
    pub fn projects_of_links(&self, links: &Vec<ProjectLink>) -> (r: Vec<&Project>)
        ensures
            r@.map_values(|p: &Project| p@) == self@.linked_projects(links@),
    {
        let mut result: Vec<&Project> = Vec::new();
        let mut i: usize = 0;
        while i < links.len()
            invariant
                i <= links@.len(),
                result@.map_values(|p: &Project| p@) == self@.linked_projects(
                    links@.take(i as int),
                ),
            decreases links@.len() - i,
        {
            proof {
                assert(links@.take(i + 1).drop_last() =~= links@.take(i as int));
            }
            match self.get_project(links[i].project_id) {
                Some(project) => {
                    result.push(project);
                },
                None => {},
            }
            i += 1;
        }
        assert(links@.take(i as int) =~= links@);
        result
    }

    /// The projects of a workspace, in the order of its links.
    pub fn projects_of_workspace(&self, workspace: &Workspace) -> (r: Vec<&Project>)
        ensures
            r@.map_values(|p: &Project| p@) == self@.linked_projects(workspace@.project_links),
    {
        self.projects_of_links(&workspace.project_links)
    }

    /// The projects of a group project, in the order of its links.
    pub fn projects_of_group_project(&self, group_project: &GroupProject) -> (r: Vec<&Project>)
        ensures
            r@.map_values(|p: &Project| p@) == self@.linked_projects(
                group_project@.project_links,
            ),
    {
        self.projects_of_links(&group_project.project_links)
    }

    /// Orders the workspaces by rank, and the links of every container by
    /// rank. Siblings of equal rank keep their order.
    pub fn sort(&mut self)
        ensures
            final(self)@ == old(self)@.sorted(),
    {
        let ghost before = self.workspaces@;
        LexoRank::sort(&mut self.workspaces);
        proof {
            lemma_sorted_by_views(
                before,
                rank_of::<Workspace>(),
                |w: Workspace| w@,
                workspace_rank(),
            );
        }
        let ghost ordered = workspace_views(self.workspaces@);
        let ghost placed = *self;
        let count: usize = self.workspaces.len();
        let mut i: usize = 0;
        while i < count
            invariant
                i <= count,
                count == self.workspaces@.len(),
                count == ordered.len(),
                self.id_counter == placed.id_counter,
                self.active_project_id == placed.active_project_id,
                self.projects == placed.projects,
                self.group_project == placed.group_project,
                self.group_project_compiler_id == placed.group_project_compiler_id,
                forall|j: int|
                    0 <= j < i ==> #[trigger] self.workspaces@[j]@ == with_sorted_links()(
                        ordered[j],
                    ),
                forall|j: int| i <= j < count ==> #[trigger] self.workspaces@[j]@ == ordered[j],
            decreases count - i,
        {
            let ghost previous = self.workspaces@;
            LexoRank::sort(&mut self.workspaces[i].project_links);
            proof {
                assert(self.workspaces@[i as int].project_links@ == sorted_by(
                    previous[i as int].project_links@,
                    rank_of::<ProjectLink>(),
                ));
                assert(previous[i as int]@ == ordered[i as int]);
                assert forall|j: int| 0 <= j < i implies #[trigger] self.workspaces@[j]@
                    == with_sorted_links()(ordered[j]) by {
                }
            }
            i += 1;
        }
        match &mut self.group_project {
            Some(group_project) => {
                LexoRank::sort(&mut group_project.project_links);
            },
            None => {},
        }
        assert(self@.workspaces =~= old(self)@.sorted().workspaces);
    }

    /// The model that was loaded, or an empty one where none could be.
    pub fn new(loaded: Option<ProjectsData>) -> (r: ProjectsData)
        ensures
            match loaded {
                Some(l) => r == l,
                None => r@ == Self::default_view(),
            },
    {
        match loaded {
            Some(l) => l,
            None => ProjectsData::default(),
        }
    }

    /// What is to be written where the state file does not exist yet: an
    /// empty model. An existing file is left alone.
    pub fn initialize(file_exists: bool) -> (r: Option<ProjectsData>)
        ensures
            r is Some <==> !file_exists,
            r matches Some(d) ==> d@ == Self::default_view(),
    {
        if file_exists {
            None
        } else {
            Some(ProjectsData::default())
        }
    }

    /// The empty model: no workspaces, projects or group project, and the
    /// fallback key for the compiler of the group project.
    pub open spec fn default_view() -> ProjectsDataView {
        ProjectsDataView {
            id_counter: 0,
            active_project_id: None,
            workspaces: Seq::empty(),
            projects: Seq::empty(),
            group_project: None,
            group_project_compiler_id: fallback_key(),
        }
    }

    /// The compiler of the group project: the one under its key, else the
    /// one under the fallback key.
    pub fn group_projects_compiler(&self, compilers: &CompilerConfigurations) -> (r: Option<
        CompilerConfiguration,
    >)
        ensures
            match r {
                Some(c) => self@.group_projects_compiler(compilers@) == Some(c@),
                None => self@.group_projects_compiler(compilers@) is None,
            },
    {
        match compilers.get(self.group_project_compiler_id.as_str()) {
            Some(c) => Some(c.clone()),
            None => match compilers.get("12.0") {
                Some(c) => Some(c.clone()),
                None => None,
            },
        }
    }
}

impl Default for ProjectsData {
    fn default() -> (r: ProjectsData)
        ensures
            r@ == ProjectsData::default_view(),
    {
        let r = ProjectsData {
            id_counter: 0,
            active_project_id: None,
            workspaces: Vec::new(),
            projects: Vec::new(),
            group_project: None,
            group_project_compiler_id: String::from_str("12.0"),
        };
        proof {
            assert(r@.workspaces =~= Seq::<WorkspaceView>::empty());
            assert(r@.projects =~= Seq::<ProjectView>::empty());
        }
        r
    }
}

impl Clone for ProjectsData {
    fn clone(&self) -> (r: ProjectsData)
        ensures
            r@ == self@,
    {
        let mut workspaces: Vec<Workspace> = Vec::new();
        let mut i: usize = 0;
        while i < self.workspaces.len()
            invariant
                i <= self.workspaces@.len(),
                workspaces@.len() == i,
                forall|j: int| 0 <= j < i ==> workspaces@[j]@ == self.workspaces@[j]@,
            decreases self.workspaces@.len() - i,
        {
            workspaces.push(self.workspaces[i].clone());
            i += 1;
        }
        let mut projects: Vec<Project> = Vec::new();
        let mut k: usize = 0;
        while k < self.projects.len()
            invariant
                k <= self.projects@.len(),
                projects@.len() == k,
                forall|j: int| 0 <= j < k ==> projects@[j]@ == self.projects@[j]@,
            decreases self.projects@.len() - k,
        {
            projects.push(self.projects[k].clone());
            k += 1;
        }
        let group_project = match &self.group_project {
            Some(g) => Some(g.clone()),
            None => None,
        };
        let r = ProjectsData {
            id_counter: self.id_counter,
            active_project_id: self.active_project_id,
            workspaces,
            projects,
            group_project,
            group_project_compiler_id: self.group_project_compiler_id.clone(),
        };
        proof {
            assert(r@.workspaces =~= self@.workspaces);
            assert(r@.projects =~= self@.projects);
        }
        r
    }
}

/// Whether the list holds the id.
pub fn contains_id(ids: &Vec<usize>, id: usize) -> (r: bool)
    ensures
        r == ids@.contains(id),
{
    let mut i: usize = 0;
    while i < ids.len()
        invariant
            i <= ids@.len(),
            forall|j: int| 0 <= j < i ==> ids@[j] != id,
        decreases ids@.len() - i,
    {
        if ids[i] == id {
            return true;
        }
        i += 1;
    }
    false
}

/// The ids of the projects that the links refer to, in order.
pub fn targets_of(links: &Vec<ProjectLink>) -> (r: Vec<usize>)
    ensures
        r@ == link_targets(links@),
{
    let mut out: Vec<usize> = Vec::new();
    let mut i: usize = 0;
    while i < links.len()
        invariant
            i <= links@.len(),
            out@.len() == i,
            forall|j: int| 0 <= j < i ==> out@[j] == links@[j].project_id,
        decreases links@.len() - i,
    {
        out.push(links[i].project_id);
        i += 1;
    }
    out
}

} // verus!
