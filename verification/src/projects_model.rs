//! The project model as a mathematical value, and what each operation makes
//! of it.

use vstd::prelude::*;
use crate::compiler_config::{fallback_key, CompilerConfigurationView, RegistryView};
use crate::disk::DiskView;
use crate::error::{PathField, ProjectsError};
use crate::group_project::{filled, FillState, GroupProjectView};
use crate::paths::path_file_stem;
use crate::ids::position_of;
use crate::lexorank::{rank_of, sorted_by, LexoRank};
use crate::links::{appended, link_ids, link_position, link_targets, other_targets};
use crate::project::{name_fallback, ProjectKind, ProjectLink, ProjectUpdateView, ProjectView};
use crate::workspace::{respaced_workspaces, WorkspaceUpdateView, WorkspaceView};

verus! {

/// The ids of the workspaces, in order.
pub open spec fn workspace_ids(workspaces: Seq<WorkspaceView>) -> Seq<usize> {
    workspaces.map_values(|w: WorkspaceView| w.id)
}

/// The ids of the projects, in order.
pub open spec fn project_ids(projects: Seq<ProjectView>) -> Seq<usize> {
    projects.map_values(|p: ProjectView| p.id)
}

/// The projects with another id than `project_id`.
pub open spec fn other_projects(project_id: usize) -> spec_fn(ProjectView) -> bool {
    |p: ProjectView| p.id != project_id
}

/// The workspaces with another id than `workspace_id`.
pub open spec fn other_workspaces(workspace_id: usize) -> spec_fn(WorkspaceView) -> bool {
    |w: WorkspaceView| w.id != workspace_id
}

/// The descriptor files of the projects, in order.
pub open spec fn project_descriptors(projects: Seq<ProjectView>) -> Seq<Option<Seq<char>>> {
    projects.map_values(|p: ProjectView| p.dproj)
}

/// The rank of a workspace as a number.
pub open spec fn workspace_rank() -> spec_fn(WorkspaceView) -> nat {
    |w: WorkspaceView| w.sort_rank@
}

/// The workspace with its links ordered by rank.
pub open spec fn with_sorted_links() -> spec_fn(WorkspaceView) -> WorkspaceView {
    |w: WorkspaceView|
        WorkspaceView {
            project_links: sorted_by(w.project_links, rank_of::<ProjectLink>()),
            ..w
        }
}

/// The workspace without its links to `project_id`.
pub open spec fn without_target(project_id: usize) -> spec_fn(WorkspaceView) -> WorkspaceView {
    |w: WorkspaceView|
        WorkspaceView { project_links: w.project_links.filter(other_targets(project_id)), ..w }
}

/// The aggregate root: the id counter, the active project, the workspaces,
/// the flat list of projects, the group project and its compiler key.
pub struct ProjectsDataView {
    pub id_counter: usize,
    pub active_project_id: Option<usize>,
    pub workspaces: Seq<WorkspaceView>,
    pub projects: Seq<ProjectView>,
    pub group_project: Option<GroupProjectView>,
    pub group_project_compiler_id: Seq<char>,
}

impl ProjectsDataView {
    /// Where the workspace with the given id stands.
    pub open spec fn workspace_position(self, id: usize) -> Option<int> {
        position_of(workspace_ids(self.workspaces), id)
    }

    /// Where the project with the given id stands.
    pub open spec fn project_position(self, id: usize) -> Option<int> {
        position_of(project_ids(self.projects), id)
    }

    /// The links of the group project; none where there is no group project.
    pub open spec fn group_links(self) -> Seq<ProjectLink> {
        match self.group_project {
            Some(g) => g.project_links,
            None => Seq::empty(),
        }
    }

    /// For each workspace, whether it holds the link with the given id.
    pub open spec fn holders(self, link_id: usize) -> Seq<bool> {
        self.workspaces.map_values(
            |w: WorkspaceView| link_ids(w.project_links).contains(link_id),
        )
    }

    /// The place of the first workspace that holds the link.
    pub open spec fn link_workspace(self, link_id: usize) -> Option<int> {
        position_of(self.holders(link_id), true)
    }

    /// Whether the group project holds the link.
    pub open spec fn link_in_group(self, link_id: usize) -> bool {
        link_ids(self.group_links()).contains(link_id)
    }

    /// Whether a link of a workspace refers to the project.
    pub open spec fn linked_from_workspace(self, project_id: usize) -> bool {
        exists|i: int|
            0 <= i < self.workspaces.len() && link_targets(
                (#[trigger] self.workspaces[i]).project_links,
            ).contains(project_id)
    }

    /// Whether any link, of a workspace or of the group project, refers to
    /// the project.
    pub open spec fn can_find_any_links(self, project_id: usize) -> bool {
        self.linked_from_workspace(project_id) || link_targets(self.group_links()).contains(
            project_id,
        )
    }

    /// The model with other links in the workspace at place `w`.
    pub open spec fn with_workspace_links(self, w: int, links: Seq<ProjectLink>) -> Self {
        ProjectsDataView {
            workspaces: self.workspaces.update(
                w,
                WorkspaceView { project_links: links, ..self.workspaces[w] },
            ),
            ..self
        }
    }

    /// The model with other links in the group project.
    pub open spec fn with_group_links(self, links: Seq<ProjectLink>) -> Self {
        match self.group_project {
            Some(g) => ProjectsDataView {
                group_project: Some(GroupProjectView { project_links: links, ..g }),
                ..self
            },
            None => self,
        }
    }

    /// The model after a new id was handed out.
    pub open spec fn next_id(self) -> Self {
        ProjectsDataView { id_counter: (self.id_counter + 1) as usize, ..self }
    }

    /// Importing a project file into a workspace takes two new ids: one for
    /// the project and one for its link, which goes to the end of the
    /// workspace and ranks after the last link there.
    pub open spec fn new_project(
        self,
        file_path: Seq<char>,
        kind: Option<ProjectKind>,
        stem: Option<Seq<char>>,
        parent: Option<Seq<char>>,
        workspace_id: usize,
    ) -> Result<Self, ProjectsError> {
        match self.workspace_position(workspace_id) {
            None => Err(ProjectsError::WorkspaceNotFound { id: workspace_id }),
            Some(w) => match kind {
                None => Err(ProjectsError::UnsupportedProjectFile),
                Some(k) => {
                    let project_id = (self.id_counter + 1) as usize;
                    let link_id = (self.id_counter + 2) as usize;
                    Ok(
                        ProjectsDataView {
                            id_counter: link_id,
                            projects: self.projects.push(
                                ProjectView::imported(project_id, file_path, k, stem, parent),
                            ),
                            ..self.with_workspace_links(
                                w,
                                appended(self.workspaces[w].project_links, link_id, project_id),
                            )
                        },
                    )
                },
            },
        }
    }

    /// Linking a project into a workspace takes one new id; the link goes to
    /// the end of the workspace and ranks after the last link there.
    pub open spec fn add_project_link(self, project_id: usize, workspace_id: usize) -> Result<
        Self,
        ProjectsError,
    > {
        if self.project_position(project_id) is None {
            Err(ProjectsError::ProjectNotFound { id: project_id })
        } else {
            match self.workspace_position(workspace_id) {
                None => Err(ProjectsError::WorkspaceNotFound { id: workspace_id }),
                Some(w) => {
                    let id = (self.id_counter + 1) as usize;
                    Ok(
                        ProjectsDataView {
                            id_counter: id,
                            ..self.with_workspace_links(
                                w,
                                appended(self.workspaces[w].project_links, id, project_id),
                            )
                        },
                    )
                },
            }
        }
    }

    /// The active project after the project with the given id is gone.
    pub open spec fn active_without(self, project_id: usize) -> Option<usize> {
        if self.active_project_id == Some(project_id) {
            None
        } else {
            self.active_project_id
        }
    }

    /// The model without the projects of the given id, which is deselected,
    /// and, if asked, without the links to it.
    pub open spec fn remove_project(self, project_id: usize, remove_links: bool) -> Self {
        let cleared = ProjectsDataView {
            projects: self.projects.filter(other_projects(project_id)),
            active_project_id: self.active_without(project_id),
            ..self
        };
        if remove_links {
            ProjectsDataView {
                workspaces: self.workspaces.map_values(without_target(project_id)),
                ..cleared.with_group_links(self.group_links().filter(other_targets(project_id)))
            }
        } else {
            cleared
        }
    }

    /// The model without the project, if no link refers to it any more.
    pub open spec fn pruned(self, project_id: usize) -> Self {
        if self.can_find_any_links(project_id) {
            self
        } else {
            self.remove_project(project_id, false)
        }
    }

    /// The model without the link of the given id: the first such link of
    /// the first workspace that holds one, else that of the group project.
    /// The project it referred to goes with it once no link refers to it.
    pub open spec fn remove_project_link(self, link_id: usize) -> Self {
        match self.link_workspace(link_id) {
            Some(w) => {
                let links = self.workspaces[w].project_links;
                let p = link_position(links, link_id)->0;
                self.with_workspace_links(w, links.remove(p)).pruned(links[p].project_id)
            },
            None => {
                if self.link_in_group(link_id) {
                    let links = self.group_links();
                    let p = link_position(links, link_id)->0;
                    self.with_group_links(links.remove(p)).pruned(links[p].project_id)
                } else {
                    self
                }
            },
        }
    }

    /// Patching a project. Every path that the patch gives has to be on
    /// disk before anything is changed.
    pub open spec fn update_project(
        self,
        project_id: usize,
        data: ProjectUpdateView,
        disk: DiskView,
    ) -> Result<Self, ProjectsError> {
        match self.project_position(project_id) {
            None => Err(ProjectsError::ProjectNotFound { id: project_id }),
            Some(i) => match data.missing(disk) {
                Some(field) => Err(ProjectsError::PathMissing { field }),
                None => Ok(
                    ProjectsDataView {
                        projects: self.projects.update(i, data.applied(self.projects[i])),
                        ..self
                    },
                ),
            },
        }
    }

    /// Deriving the files of a project anew from what is on disk.
    pub open spec fn refresh_project_paths(self, project_id: usize, disk: DiskView) -> Result<
        Self,
        ProjectsError,
    > {
        match self.project_position(project_id) {
            None => Err(ProjectsError::ProjectNotFound { id: project_id }),
            Some(i) => if disk.is_dir(self.projects[i].directory) {
                Ok(
                    ProjectsDataView {
                        projects: self.projects.update(i, self.projects[i].discovered(disk)),
                        ..self
                    },
                )
            } else {
                Err(ProjectsError::PathMissing { field: PathField::Directory })
            },
        }
    }

    /// Patching a workspace. A compiler key that the patch gives has to be
    /// in the registry before anything is changed.
    pub open spec fn update_workspace(
        self,
        workspace_id: usize,
        data: WorkspaceUpdateView,
        registry: RegistryView,
    ) -> Result<Self, ProjectsError> {
        match self.workspace_position(workspace_id) {
            None => Err(ProjectsError::WorkspaceNotFound { id: workspace_id }),
            Some(w) => if data.compiler matches Some(c) && !registry.contains_key(c) {
                Err(ProjectsError::CompilerNotFound)
            } else {
                Ok(
                    ProjectsDataView {
                        workspaces: self.workspaces.update(w, data.applied(self.workspaces[w])),
                        ..self
                    },
                )
            },
        }
    }

    /// The rank after which a new workspace is appended.
    pub open spec fn last_workspace_rank(self) -> LexoRank {
        if self.workspaces.len() > 0 {
            self.workspaces.last().sort_rank
        } else {
            LexoRank::default_spec()
        }
    }

    /// A new workspace takes one new id and goes to the end of the list. It
    /// ranks after the last workspace; where no greater rank is left, all
    /// workspaces are rebalanced.
    pub open spec fn new_workspace(
        self,
        name: Seq<char>,
        compiler: Seq<char>,
        registry: RegistryView,
    ) -> Result<Self, ProjectsError> {
        if !registry.contains_key(compiler) {
            Err(ProjectsError::CompilerNotFound)
        } else {
            let id = (self.id_counter + 1) as usize;
            let last = self.last_workspace_rank();
            let workspace = WorkspaceView {
                id,
                name,
                compiler_id: compiler,
                project_links: Seq::empty(),
                sort_rank: if last.has_next_spec() {
                    last.next_spec()
                } else {
                    last
                },
            };
            let list = self.workspaces.push(workspace);
            Ok(
                ProjectsDataView {
                    id_counter: id,
                    workspaces: if last.has_next_spec() {
                        list
                    } else {
                        respaced_workspaces(list)
                    },
                    ..self
                },
            )
        }
    }

    /// The projects that stay when the candidates are pruned: those that are
    /// no candidates, and those that a link still refers to.
    pub open spec fn survivors(self, candidates: Seq<usize>) -> spec_fn(ProjectView) -> bool {
        |p: ProjectView| !candidates.contains(p.id) || self.can_find_any_links(p.id)
    }

    /// The model without those of the candidate projects that no link
    /// refers to any more. Such a candidate is also deselected.
    pub open spec fn pruned_all(self, candidates: Seq<usize>) -> Self {
        ProjectsDataView {
            projects: self.projects.filter(self.survivors(candidates)),
            active_project_id: match self.active_project_id {
                Some(a) => if candidates.contains(a) && !self.can_find_any_links(a) {
                    None
                } else {
                    Some(a)
                },
                None => None,
            },
            ..self
        }
    }

    /// The projects that the links of the workspace with the given id refer
    /// to; none where there is no such workspace.
    pub open spec fn workspace_targets(self, workspace_id: usize) -> Seq<usize> {
        match self.workspace_position(workspace_id) {
            Some(w) => link_targets(self.workspaces[w].project_links),
            None => Seq::empty(),
        }
    }

    /// The model without the workspaces of the given id, and without the
    /// projects that only the first of them referred to.
    pub open spec fn remove_workspace(self, workspace_id: usize) -> Self {
        ProjectsDataView {
            workspaces: self.workspaces.filter(other_workspaces(workspace_id)),
            ..self
        }.pruned_all(self.workspace_targets(workspace_id))
    }

    /// The projects that a link of a workspace refers to.
    pub open spec fn workspace_linked(self) -> spec_fn(ProjectView) -> bool {
        |p: ProjectView| self.linked_from_workspace(p.id)
    }

    /// The model without the group project, and without the projects that no
    /// workspace refers to. The active project is deselected if no workspace
    /// refers to it.
    pub open spec fn remove_group_project(self) -> Self {
        ProjectsDataView {
            group_project: None,
            projects: self.projects.filter(self.workspace_linked()),
            active_project_id: match self.active_project_id {
                Some(a) => if self.linked_from_workspace(a) {
                    Some(a)
                } else {
                    None
                },
                None => None,
            },
            ..self
        }
    }

    /// Replacing the group project by one made from a manifest. The new
    /// group project is named after the stem of the manifest's path and
    /// takes the compiler key that the model keeps for the group project.
    pub open spec fn set_group_project(
        self,
        path: Seq<char>,
        members: Seq<Seq<char>>,
        disk: DiskView,
    ) -> Result<Self, ProjectsError> {
        if !disk.has(path) {
            Err(ProjectsError::GroupProjectFileMissing)
        } else {
            let s = filled(
                FillState {
                    id_counter: self.id_counter,
                    projects: self.projects,
                    links: Seq::empty(),
                },
                members,
                disk,
            );
            Ok(
                ProjectsDataView {
                    id_counter: s.id_counter,
                    projects: s.projects,
                    group_project: Some(
                        GroupProjectView {
                            name: match path_file_stem(path) {
                                Some(stem) => stem,
                                None => name_fallback(),
                            },
                            path,
                            compiler_id: self.group_project_compiler_id,
                            project_links: s.links,
                        },
                    ),
                    ..self
                },
            )
        }
    }

    /// The compiler of the group project: the one under its key, else the
    /// one under the fallback key.
    pub open spec fn group_projects_compiler(self, registry: RegistryView) -> Option<
        CompilerConfigurationView,
    > {
        if registry.contains_key(self.group_project_compiler_id) {
            registry.get(self.group_project_compiler_id)
        } else {
            registry.get(fallback_key())
        }
    }

    /// The project with the given id.
    pub open spec fn project(self, project_id: usize) -> Option<ProjectView> {
        match self.project_position(project_id) {
            Some(i) => Some(self.projects[i]),
            None => None,
        }
    }

    /// The projects that the links refer to, in the order of the links. A
    /// link that refers to no project is passed over.
    pub open spec fn linked_projects(self, links: Seq<ProjectLink>) -> Seq<ProjectView>
        decreases links.len(),
    {
        if links.len() == 0 {
            Seq::empty()
        } else {
            let before = self.linked_projects(links.drop_last());
            match self.project(links.last().project_id) {
                Some(p) => before.push(p),
                None => before,
            }
        }
    }

    /// The active project.
    pub open spec fn active_project(self) -> Option<ProjectView> {
        match self.active_project_id {
            Some(a) => self.project(a),
            None => None,
        }
    }

    /// The model with the workspaces ordered by rank, and the links of
    /// every container ordered by rank.
    pub open spec fn sorted(self) -> Self {
        ProjectsDataView {
            workspaces: sorted_by(self.workspaces, workspace_rank()).map_values(
                with_sorted_links(),
            ),
            group_project: match self.group_project {
                Some(g) => Some(
                    GroupProjectView {
                        project_links: sorted_by(g.project_links, rank_of::<ProjectLink>()),
                        ..g
                    },
                ),
                None => None,
            },
            ..self
        }
    }

    /// Making a project the active one.
    pub open spec fn select_project(self, project_id: usize) -> Result<Self, ProjectsError> {
        if self.project_position(project_id) is None {
            Err(ProjectsError::ProjectNotFound { id: project_id })
        } else {
            Ok(ProjectsDataView { active_project_id: Some(project_id), ..self })
        }
    }
}

/// A request either changes the model as expected, or fails with the
/// expected error and leaves the model as it was.
pub open spec fn agrees(
    r: Result<(), ProjectsError>,
    before: ProjectsDataView,
    after: ProjectsDataView,
    expected: Result<ProjectsDataView, ProjectsError>,
) -> bool {
    match r {
        Ok(()) => expected == Ok::<ProjectsDataView, ProjectsError>(after),
        Err(e) => expected == Err::<ProjectsDataView, ProjectsError>(e) && after == before,
    }
}

} // verus!
