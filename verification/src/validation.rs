//! Structural validation of the project model.

use std::collections::HashMap;
use vstd::prelude::*;
use vstd::string::*;
use crate::compiler_config::{compiler_exists, CompilerConfigurations, RegistryView};
use crate::error::ProjectsError;
use crate::id_map::{id_map, IdObject};
use crate::ids::{as_position, lemma_position_found, lemma_position_of, position_of};
use crate::project::ProjectLink;
use crate::projects_data::ProjectsData;
use crate::projects_model::{project_ids, ProjectsDataView};
use crate::workspace::WorkspaceView;

verus! {

broadcast use vstd::std_specs::hash::group_hash_axioms;

/// The names of the workspaces, in order.
pub open spec fn workspace_names(workspaces: Seq<WorkspaceView>) -> Seq<Seq<char>> {
    workspaces.map_values(|w: WorkspaceView| w.name)
}

impl ProjectsDataView {
    /// For each workspace, whether the registry lacks its compiler.
    pub open spec fn missing_compilers(self, registry: RegistryView) -> Seq<bool> {
        self.workspaces.map_values(|w: WorkspaceView| !registry.contains_key(w.compiler_id))
    }

    /// Whether the registry lacks the compiler key of the group project: the
    /// key kept in the model, or the one of the group project itself.
    pub open spec fn group_compiler_missing(self, registry: RegistryView) -> bool {
        ||| !registry.contains_key(self.group_project_compiler_id)
        ||| self.group_project matches Some(g) && !registry.contains_key(g.compiler_id)
    }

    /// The first compiler key that the registry lacks: those of the
    /// workspaces in order, then that of the group project.
    pub open spec fn compiler_violation(self, registry: RegistryView) -> Option<ProjectsError> {
        match position_of(self.missing_compilers(registry), true) {
            Some(i) => Some(
                ProjectsError::InvalidWorkspaceCompiler { workspace_id: self.workspaces[i].id },
            ),
            None => if self.group_compiler_missing(registry) {
                Some(ProjectsError::InvalidGroupProjectCompiler)
            } else {
                None
            },
        }
    }

    /// Whether the id is that of a project.
    pub open spec fn names_project(self, id: usize) -> bool {
        self.id_kind(id) == Some(IdObject::Project)
    }

    /// For each link, whether it refers to no project.
    pub open spec fn dangling(self, links: Seq<ProjectLink>) -> Seq<bool> {
        links.map_values(|l: ProjectLink| !self.names_project(l.project_id))
    }

    /// For each workspace, whether one of its links refers to no project.
    pub open spec fn dangling_workspaces(self) -> Seq<bool> {
        self.workspaces.map_values(
            |w: WorkspaceView| self.dangling(w.project_links).contains(true),
        )
    }

    /// The first reference that does not resolve: the active project, then
    /// the links of the group project, then those of the workspaces.
    pub open spec fn reference_violation(self) -> Option<ProjectsError> {
        if self.active_project_id matches Some(a) && !self.names_project(a) {
            Some(ProjectsError::InvalidActiveProject { id: self.active_project_id->0 })
        } else {
            match position_of(self.dangling(self.group_links()), true) {
                Some(p) => Some(
                    ProjectsError::InvalidGroupProjectLink {
                        link_id: self.group_links()[p].id,
                        project_id: self.group_links()[p].project_id,
                    },
                ),
                None => match position_of(self.dangling_workspaces(), true) {
                    Some(w) => {
                        let links = self.workspaces[w].project_links;
                        let p = position_of(self.dangling(links), true)->0;
                        Some(
                            ProjectsError::InvalidWorkspaceLink {
                                workspace_id: self.workspaces[w].id,
                                link_id: links[p].id,
                                project_id: links[p].project_id,
                            },
                        )
                    },
                    None => None,
                },
            }
        }
    }

    /// Whether the name of the workspace at place `i` is that of an earlier
    /// workspace.
    pub open spec fn name_repeats(self, i: int) -> bool {
        workspace_names(self.workspaces).take(i).contains(workspace_names(self.workspaces)[i])
    }

    /// For each workspace, whether its name repeats an earlier one or is
    /// empty.
    pub open spec fn bad_names(self) -> Seq<bool> {
        Seq::new(
            self.workspaces.len(),
            |i: int| self.name_repeats(i) || self.workspaces[i].name.len() == 0,
        )
    }

    /// The first workspace whose name repeats an earlier one or is empty.
    pub open spec fn name_violation(self) -> Option<ProjectsError> {
        match position_of(self.bad_names(), true) {
            Some(i) => if self.name_repeats(i) {
                Some(ProjectsError::DuplicateWorkspaceName { workspace_id: self.workspaces[i].id })
            } else {
                Some(ProjectsError::EmptyWorkspaceName { workspace_id: self.workspaces[i].id })
            },
            None => None,
        }
    }

    /// Every link of the list refers to a project of the model.
    pub open spec fn resolves(self, links: Seq<ProjectLink>) -> bool {
        forall|j: int|
            0 <= j < links.len() ==> project_ids(self.projects).contains(
                (#[trigger] links[j]).project_id,
            )
    }

    /// The model is sound: no id is used twice; every link and the active
    /// project refer to a project; the workspaces have names that are not
    /// empty and differ from each other; and the registry has every
    /// compiler key that the model uses.
    pub open spec fn valid(self, registry: RegistryView) -> bool {
        &&& self.ids().no_duplicates()
        &&& forall|i: int|
            0 <= i < self.workspaces.len() ==> self.resolves(
                (#[trigger] self.workspaces[i]).project_links,
            )
        &&& self.resolves(self.group_links())
        &&& self.active_project_id matches Some(a) ==> project_ids(self.projects).contains(a)
        &&& workspace_names(self.workspaces).no_duplicates()
        &&& forall|i: int|
            0 <= i < self.workspaces.len() ==> (#[trigger] self.workspaces[i]).name.len() > 0
        &&& forall|i: int|
            0 <= i < self.workspaces.len() ==> registry.contains_key(
                (#[trigger] self.workspaces[i]).compiler_id,
            )
        &&& !self.group_compiler_missing(registry)
    }

    /// The first violation that a validation finds: compiler keys first,
    /// then ids, then references, then names.
    pub open spec fn violation(self, registry: RegistryView) -> Option<ProjectsError> {
        if self.compiler_violation(registry) is Some {
            self.compiler_violation(registry)
        } else if self.duplicate_id() is Some {
            Some(ProjectsError::DuplicateId { id: self.duplicate_id()->0 })
        } else if self.reference_violation() is Some {
            self.reference_violation()
        } else {
            self.name_violation()
        }
    }
}

/// A check either passes, or fails with the violation that is expected.
pub open spec fn reports(r: Result<(), ProjectsError>, expected: Option<ProjectsError>) -> bool {
    match r {
        Ok(()) => expected is None,
        Err(e) => expected == Some(e),
    }
}

fn names_project(id_map: &HashMap<usize, IdObject>, id: usize) -> (r: bool)
    ensures
        r == (id_map@.contains_key(id) && id_map@[id] == IdObject::Project),
{
    match id_map.get(&id) {
        Some(kind) => match kind {
            IdObject::Project => true,
            _ => false,
        },
        None => false,
    }
}

impl ProjectsData {
    fn first_dangling(&self, links: &Vec<ProjectLink>, id_map: &HashMap<usize, IdObject>) -> (r:
        Option<usize>)
        requires
            id_map@ == crate::id_map::id_map(self@.id_entries()),
        ensures
            as_position(r) == position_of(self@.dangling(links@), true),
            r matches Some(p) ==> p < links@.len(),
            r is None ==> !self@.dangling(links@).contains(true),
    {
        let ghost flags = self@.dangling(links@);
        let mut i: usize = 0;
        while i < links.len()
            invariant
                i <= links@.len(),
                flags == self@.dangling(links@),
                id_map@ == crate::id_map::id_map(self@.id_entries()),
                forall|j: int| 0 <= j < i ==> !flags[j],
            decreases links@.len() - i,
        {
            if !names_project(id_map, links[i].project_id) {
                proof {
                    lemma_position_found(flags, true, i as int);
                }
                return Some(i);
            }
            i += 1;
        }
        proof {
            lemma_position_of(flags, true);
        }
        None
    }

    /// Checks that the registry has the compiler of every workspace and of
    /// the group project.
    pub fn validate_compilers(&self, compilers: &CompilerConfigurations) -> (r: Result<
        (),
        ProjectsError,
    >)
        ensures
            reports(r, self@.compiler_violation(compilers@)),
    {
        let ghost flags = self@.missing_compilers(compilers@);
        let mut i: usize = 0;
        while i < self.workspaces.len()
            invariant
                i <= self.workspaces@.len(),
                flags == self@.missing_compilers(compilers@),
                forall|j: int| 0 <= j < i ==> !flags[j],
            decreases self.workspaces@.len() - i,
        {
            if !compiler_exists(compilers, self.workspaces[i].compiler_id.as_str()) {
                proof {
                    lemma_position_found(flags, true, i as int);
                }
                return Err(
                    ProjectsError::InvalidWorkspaceCompiler { workspace_id: self.workspaces[i].id },
                );
            }
            i += 1;
        }
        proof {
            lemma_position_of(flags, true);
        }
        if !compiler_exists(compilers, self.group_project_compiler_id.as_str()) {
            return Err(ProjectsError::InvalidGroupProjectCompiler);
        }
        match &self.group_project {
            Some(group_project) => {
                if !compiler_exists(compilers, group_project.compiler_id.as_str()) {
                    return Err(ProjectsError::InvalidGroupProjectCompiler);
                }
            },
            None => {},
        }
        Ok(())
    }

    /// Checks that the active project and every link refer to a project.
    pub(crate) fn validate_project_references(&self, id_map: &HashMap<usize, IdObject>) -> (r:
        Result<(), ProjectsError>)
        requires
            id_map@ == crate::id_map::id_map(self@.id_entries()),
        ensures
            reports(r, self@.reference_violation()),
    {
        if let Some(active_id) = self.active_project_id {
            if !names_project(id_map, active_id) {
                return Err(ProjectsError::InvalidActiveProject { id: active_id });
            }
        }
        match &self.group_project {
            Some(group_project) => {
                match self.first_dangling(&group_project.project_links, id_map) {
                    Some(p) => {
                        let link = group_project.project_links[p];
                        return Err(
                            ProjectsError::InvalidGroupProjectLink {
                                link_id: link.id,
                                project_id: link.project_id,
                            },
                        );
                    },
                    None => {},
                }
            },
            None => {
                proof {
                    lemma_position_of(self@.dangling(self@.group_links()), true);
                }
            },
        }
        let ghost flags = self@.dangling_workspaces();
        let mut i: usize = 0;
        while i < self.workspaces.len()
            invariant
                i <= self.workspaces@.len(),
                flags == self@.dangling_workspaces(),
                id_map@ == crate::id_map::id_map(self@.id_entries()),
                !(self.active_project_id matches Some(a) && !self@.names_project(a)),
                position_of(self@.dangling(self@.group_links()), true) is None,
                forall|j: int| 0 <= j < i ==> !flags[j],
            decreases self.workspaces@.len() - i,
        {
            match self.first_dangling(&self.workspaces[i].project_links, id_map) {
                Some(p) => {
                    proof {
                        let links = self@.workspaces[i as int].project_links;
                        lemma_position_of(self@.dangling(links), true);
                        lemma_position_found(flags, true, i as int);
                    }
                    let link = self.workspaces[i].project_links[p];
                    return Err(
                        ProjectsError::InvalidWorkspaceLink {
                            workspace_id: self.workspaces[i].id,
                            link_id: link.id,
                            project_id: link.project_id,
                        },
                    );
                },
                None => {},
            }
            i += 1;
        }
        proof {
            lemma_position_of(flags, true);
        }
        Ok(())
    }

    fn name_is_repeated(&self, i: usize) -> (r: bool)
        requires
            i < self.workspaces@.len(),
        ensures
            r == self@.name_repeats(i as int),
    {
        let ghost names = workspace_names(self@.workspaces);
        let mut k: usize = 0;
        while k < i
            invariant
                k <= i < self.workspaces@.len(),
                names == workspace_names(self@.workspaces),
                forall|j: int| 0 <= j < k ==> names[j] != names[i as int],
            decreases i - k,
        {
            if self.workspaces[k].name == self.workspaces[i].name {
                assert(names.take(i as int)[k as int] == names[i as int]);
                return true;
            }
            k += 1;
        }
        false
    }

    /// Checks that no workspace has a empty name or the name of an earlier
    /// workspace.
    pub fn validate_names(&self) -> (r: Result<(), ProjectsError>)
        ensures
            reports(r, self@.name_violation()),
    {
        let ghost flags = self@.bad_names();
        let mut i: usize = 0;
        while i < self.workspaces.len()
            invariant
                i <= self.workspaces@.len(),
                flags == self@.bad_names(),
                forall|j: int| 0 <= j < i ==> !flags[j],
            decreases self.workspaces@.len() - i,
        {
            if self.name_is_repeated(i) {
                proof {
                    lemma_position_found(flags, true, i as int);
                }
                return Err(
                    ProjectsError::DuplicateWorkspaceName { workspace_id: self.workspaces[i].id },
                );
            }
            if self.workspaces[i].name.as_str().is_empty() {
                proof {
                    lemma_position_found(flags, true, i as int);
                }
                return Err(
                    ProjectsError::EmptyWorkspaceName { workspace_id: self.workspaces[i].id },
                );
            }
            i += 1;
        }
        proof {
            lemma_position_of(flags, true);
        }
        Ok(())
    }

    /// Validates the whole model against the registry of compilers and
    /// reports the first violation.
    pub fn validate(&self, compilers: &CompilerConfigurations) -> (r: Result<(), ProjectsError>)
        ensures
            reports(r, self@.violation(compilers@)),
    {
        match self.validate_compilers(compilers) {
            Err(e) => {
                return Err(e);
            },
            Ok(()) => {},
        }
        let id_map = match self.get_id_map() {
            Err(e) => {
                return Err(e);
            },
            Ok(m) => m,
        };
        match self.validate_project_references(&id_map) {
            Err(e) => {
                return Err(e);
            },
            Ok(()) => {},
        }
        self.validate_names()
    }
}

} // verus!
