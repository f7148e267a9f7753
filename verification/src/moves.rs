//! Moving project links and workspaces by drag and drop.

use vstd::prelude::*;
use crate::error::ProjectsError;
use crate::id_map::{id_map, IdObject};
use crate::ids::{as_position, lemma_position_of};
use crate::lexorank::LexoRank;
use crate::links::{
    export_link, exported, import_link, imported, link_ids, link_position, move_link, moved,
};
use crate::projects_data::ProjectsData;
use crate::projects_model::{agrees, workspace_ids, ProjectsDataView};
use crate::workspace::{
    lemma_respaced_workspace_views, respaced_workspaces, workspace_views, WorkspaceView,
};

verus! {

broadcast use vstd::std_specs::hash::group_hash_axioms;

impl ProjectsDataView {
    /// The link that a move drops before: the drop target where it is a
    /// link, none where it is a workspace.
    pub open spec fn drop_link(kind: IdObject, drop_target: usize) -> Option<usize> {
        if kind == IdObject::ProjectLink {
            Some(drop_target)
        } else {
            None
        }
    }

    /// The place of the workspace that a move drops into: the drop target
    /// where it is a workspace, else the workspace that holds the link it
    /// names.
    pub open spec fn drop_workspace(self, kind: IdObject, drop_target: usize) -> Option<int> {
        if kind == IdObject::Workspace {
            self.workspace_position(drop_target)
        } else {
            self.link_workspace(drop_target)
        }
    }

    /// Moving a link within the workspace at place `w`.
    pub open spec fn move_within_workspace(
        self,
        w: int,
        link_id: usize,
        drop_link_id: Option<usize>,
    ) -> Result<Self, ProjectsError> {
        match moved(self.workspaces[w].project_links, link_id, drop_link_id) {
            Ok(links) => Ok(self.with_workspace_links(w, links)),
            Err(e) => Err(e),
        }
    }

    /// Moving a link from the workspace at place `s` into the one at `t`.
    pub open spec fn move_across_workspaces(
        self,
        s: int,
        t: int,
        link_id: usize,
        drop_link_id: Option<usize>,
    ) -> Result<Self, ProjectsError> {
        match exported(self.workspaces[s].project_links, link_id) {
            Ok((link, rest)) => match imported(
                self.workspaces[t].project_links,
                link,
                drop_link_id,
            ) {
                Ok(links) => Ok(
                    self.with_workspace_links(s, rest).with_workspace_links(t, links),
                ),
                Err(e) => Err(e),
            },
            Err(e) => Err(e),
        }
    }

    /// Moving a link within the group project.
    pub open spec fn move_within_group(self, link_id: usize, drop_link_id: Option<usize>) -> Result<
        Self,
        ProjectsError,
    > {
        match self.group_project {
            Some(g) => match moved(g.project_links, link_id, drop_link_id) {
                Ok(links) => Ok(self.with_group_links(links)),
                Err(e) => Err(e),
            },
            None => Err(ProjectsError::ProjectLinkNotFound { id: link_id }),
        }
    }

    /// Moving a link onto a drop target. Dropped on a link, it goes before
    /// that link; dropped on a workspace, it goes to the end of it. A link
    /// moves within its container or from one workspace into another; the
    /// group project and the workspaces do not exchange links.
    pub open spec fn move_project_link(self, link_id: usize, drop_target: usize) -> Result<
        Self,
        ProjectsError,
    > {
        if self.duplicate_id() is Some {
            Err(ProjectsError::DuplicateId { id: self.duplicate_id()->0 })
        } else {
            match self.id_kind(drop_target) {
                None => Err(ProjectsError::DropTargetNotFound { id: drop_target }),
                Some(kind) => if self.id_kind(link_id) != Some(IdObject::ProjectLink) {
                    Err(ProjectsError::ProjectLinkNotFound { id: link_id })
                } else if kind == IdObject::Project {
                    Err(ProjectsError::InvalidDropTarget { id: drop_target })
                } else {
                    let drop_link_id = Self::drop_link(kind, drop_target);
                    match (self.link_workspace(link_id), self.drop_workspace(kind, drop_target)) {
                        (Some(s), Some(t)) => if s == t {
                            self.move_within_workspace(s, link_id, drop_link_id)
                        } else {
                            self.move_across_workspaces(s, t, link_id, drop_link_id)
                        },
                        (Some(_), None) => Err(ProjectsError::WorkspaceToGroupProject),
                        (None, Some(_)) => Err(ProjectsError::GroupProjectToWorkspace),
                        (None, None) => self.move_within_group(link_id, drop_link_id),
                    }
                },
            }
        }
    }

    /// The workspaces with the one at place `i` taken out and put in again
    /// at place `drop_index`, or at the end where there is none.
    pub open spec fn replaced_workspace(self, i: int, drop_index: Option<int>) -> Seq<
        WorkspaceView,
    > {
        let rest = self.workspaces.remove(i);
        match drop_index {
            Some(d) => rest.insert(d, self.workspaces[i]),
            None => rest.push(self.workspaces[i]),
        }
    }

    /// Moving a workspace onto a drop target: to the place of the workspace
    /// that is the target or holds it, or to the end where the target is a
    /// link of the group project. All workspaces are rebalanced.
    pub open spec fn move_workspace(self, workspace_id: usize, drop_target: usize) -> Result<
        Self,
        ProjectsError,
    > {
        if self.duplicate_id() is Some {
            Err(ProjectsError::DuplicateId { id: self.duplicate_id()->0 })
        } else {
            match self.id_kind(drop_target) {
                None => Err(ProjectsError::DropTargetNotFound { id: drop_target }),
                Some(kind) => if kind == IdObject::Project {
                    Err(ProjectsError::InvalidDropTarget { id: drop_target })
                } else {
                    match self.workspace_position(workspace_id) {
                        None => Err(ProjectsError::WorkspaceNotFound { id: workspace_id }),
                        Some(i) => Ok(
                            ProjectsDataView {
                                workspaces: respaced_workspaces(
                                    self.replaced_workspace(
                                        i,
                                        self.drop_workspace(kind, drop_target),
                                    ),
                                ),
                                ..self
                            },
                        ),
                    }
                },
            }
        }
    }
}

impl ProjectsData {
    fn drop_workspace_index(&self, kind: IdObject, drop_target: usize) -> (r: Option<usize>)
        ensures
            as_position(r) == self@.drop_workspace(kind, drop_target),
            r matches Some(t) ==> t < self.workspaces@.len(),
            r matches Some(t) ==> kind != IdObject::Workspace ==> link_position(
                self.workspaces@[t as int].project_links@,
                drop_target,
            ) is Some,
    {
        match kind {
            IdObject::Workspace => {
                proof {
                    lemma_position_of(workspace_ids(self@.workspaces), drop_target);
                }
                self.get_workspace_index(drop_target)
            },
            _ => self.get_workspace_index_containing_project_link(drop_target),
        }
    }

    /// Moves a project link onto a drop target. A failed move leaves the
    /// model as it was.
    pub fn move_project_link(&mut self, project_link_id: usize, drop_target: usize) -> (r: Result<
        (),
        ProjectsError,
    >)
        ensures
            agrees(
                r,
                old(self)@,
                final(self)@,
                old(self)@.move_project_link(project_link_id, drop_target),
            ),
    {
        let id_map = match self.get_id_map() {
            Ok(m) => m,
            Err(e) => {
                return Err(e);
            },
        };
        let kind: IdObject = match id_map.get(&drop_target) {
            Some(kind) => *kind,
            None => {
                return Err(ProjectsError::DropTargetNotFound { id: drop_target });
            },
        };
        match id_map.get(&project_link_id) {
            Some(IdObject::ProjectLink) => {},
            _ => {
                return Err(ProjectsError::ProjectLinkNotFound { id: project_link_id });
            },
        }
        let drop_link_id: Option<usize> = match kind {
            IdObject::ProjectLink => Some(drop_target),
            IdObject::Workspace => None,
            IdObject::Project => {
                return Err(ProjectsError::InvalidDropTarget { id: drop_target });
            },
        };
        let source = self.get_workspace_index_containing_project_link(project_link_id);
        let target = self.drop_workspace_index(kind, drop_target);
        match source {
            Some(s) => match target {
                Some(t) => {
                    if s == t {
                        let r = move_link(
                            &mut self.workspaces[s].project_links,
                            project_link_id,
                            drop_link_id,
                        );
                        proof {
                            if r is Ok {
                                assert(self@.workspaces =~= old(self)@.with_workspace_links(
                                    s as int,
                                    self.workspaces@[s as int].project_links@,
                                ).workspaces);
                            } else {
                                assert(self@.workspaces =~= old(self)@.workspaces);
                            }
                        }
                        r
                    } else {
                        proof {
                            lemma_position_of(
                                link_ids(self.workspaces@[t as int].project_links@),
                                drop_target,
                            );
                        }
                        let link = match export_link(
                            &mut self.workspaces[s].project_links,
                            project_link_id,
                        ) {
                            Ok(link) => link,
                            Err(e) => {
                                return Err(e);
                            },
                        };
                        let ghost rest = self.workspaces@[s as int].project_links@;
                        let r = import_link(
                            &mut self.workspaces[t].project_links,
                            link,
                            drop_link_id,
                        );
                        proof {
                            assert(self@.workspaces =~= old(self)@.with_workspace_links(
                                s as int,
                                rest,
                            ).with_workspace_links(
                                t as int,
                                self.workspaces@[t as int].project_links@,
                            ).workspaces);
                        }
                        r
                    }
                },
                None => Err(ProjectsError::WorkspaceToGroupProject),
            },
            None => match target {
                Some(_) => Err(ProjectsError::GroupProjectToWorkspace),
                None => match &mut self.group_project {
                    Some(group_project) => move_link(
                        &mut group_project.project_links,
                        project_link_id,
                        drop_link_id,
                    ),
                    None => Err(ProjectsError::ProjectLinkNotFound { id: project_link_id }),
                },
            },
        }
    }

    /// Moves a workspace onto a drop target and rebalances the workspaces. A
    /// failed move leaves the model as it was.
    pub fn move_workspace(&mut self, workspace_id: usize, drop_target_id: usize) -> (r: Result<
        (),
        ProjectsError,
    >)
        ensures
            agrees(
                r,
                old(self)@,
                final(self)@,
                old(self)@.move_workspace(workspace_id, drop_target_id),
            ),
    {
        let id_map = match self.get_id_map() {
            Ok(m) => m,
            Err(e) => {
                return Err(e);
            },
        };
        let kind: IdObject = match id_map.get(&drop_target_id) {
            Some(kind) => *kind,
            None => {
                return Err(ProjectsError::DropTargetNotFound { id: drop_target_id });
            },
        };
        match kind {
            IdObject::Project => {
                return Err(ProjectsError::InvalidDropTarget { id: drop_target_id });
            },
            _ => {},
        }
        let workspace_index = match self.get_workspace_index(workspace_id) {
            Some(i) => i,
            None => {
                return Err(ProjectsError::WorkspaceNotFound { id: workspace_id });
            },
        };
        proof {
            lemma_position_of(workspace_ids(self@.workspaces), workspace_id);
        }
        let drop_index = self.drop_workspace_index(kind, drop_target_id);
        let workspace = self.workspaces.remove(workspace_index);
        match drop_index {
            Some(d) => {
                self.workspaces.insert(d, workspace);
            },
            None => {
                self.workspaces.push(workspace);
            },
        }
        let ghost placed = self.workspaces@;
        assert(workspace_views(placed) =~= old(self)@.replaced_workspace(
            workspace_index as int,
            as_position(drop_index),
        ));
        LexoRank::apply(&mut self.workspaces);
        proof {
            lemma_respaced_workspace_views(placed);
        }
        Ok(())
    }
}

} // verus!
