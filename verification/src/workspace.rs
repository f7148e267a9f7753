//! Workspaces: named, ordered groups of project links that share a compiler.

use vstd::prelude::*;
use crate::compiler_config::{CompilerConfiguration, CompilerConfigurations};
use crate::disk::opt_text;
use crate::lexorank::{rebalanced_rank, respaced, HasLexoRank, LexoRank};
use crate::links::{Named, ProjectLinkContainer};
use crate::project::ProjectLink;

verus! {

/// A workspace: its identity, its name, the key of its compiler, its links
/// in order, and its rank among the workspaces.
#[derive(Debug, PartialEq, Eq)]
pub struct Workspace {
    pub id: usize,
    pub name: String,
    pub compiler_id: String,
    pub project_links: Vec<ProjectLink>,
    pub sort_rank: LexoRank,
}

/// A workspace as a value.
pub struct WorkspaceView {
    pub id: usize,
    pub name: Seq<char>,
    pub compiler_id: Seq<char>,
    pub project_links: Seq<ProjectLink>,
    pub sort_rank: LexoRank,
}

impl View for Workspace {
    type V = WorkspaceView;

    open spec fn view(&self) -> WorkspaceView {
        WorkspaceView {
            id: self.id,
            name: self.name@,
            compiler_id: self.compiler_id@,
            project_links: self.project_links@,
            sort_rank: self.sort_rank,
        }
    }
}

impl Clone for Workspace {
    fn clone(&self) -> (r: Workspace)
        ensures
            r@ == self@,
    {
        Workspace {
            id: self.id,
            name: self.name.clone(),
            compiler_id: self.compiler_id.clone(),
            project_links: self.project_links.clone(),
            sort_rank: self.sort_rank,
        }
    }
}

/// A patch for a workspace: the fields that are given replace those of the
/// workspace.
#[derive(Debug)]
pub struct WorkspaceUpdateData {
    pub name: Option<String>,
    pub compiler: Option<String>,
}

/// A patch for a workspace as a value.
pub struct WorkspaceUpdateView {
    pub name: Option<Seq<char>>,
    pub compiler: Option<Seq<char>>,
}

impl View for WorkspaceUpdateData {
    type V = WorkspaceUpdateView;

    open spec fn view(&self) -> WorkspaceUpdateView {
        WorkspaceUpdateView { name: opt_text(self.name), compiler: opt_text(self.compiler) }
    }
}

impl WorkspaceUpdateView {
    /// The workspace with the fields of the patch put in.
    pub open spec fn applied(self, workspace: WorkspaceView) -> WorkspaceView {
        WorkspaceView {
            name: self.name.unwrap_or(workspace.name),
            compiler_id: self.compiler.unwrap_or(workspace.compiler_id),
            ..workspace
        }
    }
}

/// A list of workspaces after a rebalance: the same workspaces in the same
/// order, each with the evenly spaced rank of its position.
pub open spec fn respaced_workspaces(workspaces: Seq<WorkspaceView>) -> Seq<WorkspaceView> {
    Seq::new(
        workspaces.len(),
        |i: int|
            WorkspaceView {
                sort_rank: rebalanced_rank(workspaces.len(), i),
                ..workspaces[i]
            },
    )
}

/// Rebalancing workspaces is rebalancing their views.
pub proof fn lemma_respaced_workspace_views(workspaces: Seq<Workspace>)
    ensures
        workspace_views(respaced(workspaces)) == respaced_workspaces(workspace_views(workspaces)),
{
    assert(workspace_views(respaced(workspaces)) =~= respaced_workspaces(
        workspace_views(workspaces),
    ));
}

/// The views of a list of workspaces.
pub open spec fn workspace_views(s: Seq<Workspace>) -> Seq<WorkspaceView> {
    s.map_values(|w: Workspace| w@)
}

impl Workspace {
    /// A workspace without links.
    pub fn new(id: usize, name: String, compiler_id: String, lexo_rank: LexoRank) -> (r: Workspace)
        ensures
            r@ == (WorkspaceView {
                id,
                name: name@,
                compiler_id: compiler_id@,
                project_links: Seq::empty(),
                sort_rank: lexo_rank,
            }),
    {
        Workspace { id, name, compiler_id, project_links: Vec::new(), sort_rank: lexo_rank }
    }
}

impl Workspace {
    /// The compiler of the workspace: the one that the registry has under
    /// its key.
    pub fn compiler(&self, compilers: &CompilerConfigurations) -> (r: Option<
        CompilerConfiguration,
    >)
        ensures
            match r {
                Some(c) => compilers@.get(self.compiler_id@) == Some(c@),
                None => compilers@.get(self.compiler_id@) is None,
            },
    {
        match compilers.get(self.compiler_id.as_str()) {
            Some(c) => Some(c.clone()),
            None => None,
        }
    }
}

impl HasLexoRank for Workspace {
    open spec fn rank(&self) -> LexoRank {
        self.sort_rank
    }

    open spec fn with_rank(self, rank: LexoRank) -> Self {
        Workspace { sort_rank: rank, ..self }
    }

    fn get_lexorank(&self) -> (r: &LexoRank) {
        &self.sort_rank
    }

    fn set_lexorank(&mut self, lexorank: LexoRank) {
        self.sort_rank = lexorank;
    }

    proof fn lemma_with_rank(self, rank: LexoRank) {
    }
}

impl Named for Workspace {
    open spec fn name_text(&self) -> Seq<char> {
        self.name@
    }

    fn get_name(&self) -> (r: &String) {
        &self.name
    }
}

impl ProjectLinkContainer for Workspace {
    open spec fn links(&self) -> Seq<ProjectLink> {
        self.project_links@
    }

    open spec fn same_apart_from_links(&self, other: &Self) -> bool {
        &&& other.id == self.id
        &&& other.name == self.name
        &&& other.compiler_id == self.compiler_id
        &&& other.sort_rank == self.sort_rank
    }

    fn get_project_links(&self) -> (r: &Vec<ProjectLink>) {
        &self.project_links
    }

    fn get_project_links_mut(&mut self) -> (r: &mut Vec<ProjectLink>) {
        &mut self.project_links
    }
}

} // verus!
