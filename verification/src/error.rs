//! The failures that the model and the engine report.

use vstd::prelude::*;
use crate::compiler_config::RegistryViolation;

verus! {

/// One of the optional files of a project, or its directory.
#[derive(Clone, Copy, Debug, PartialEq, Eq, Structural)]
pub enum PathField {
    Directory,
    Dproj,
    Dpr,
    Dpk,
    Exe,
    Ini,
}

/// Why a request on the project model was refused. A variant names the first
/// thing that was found wrong, by its id where it has one.
#[derive(Clone, Copy, Debug, PartialEq, Eq, Structural)]
pub enum ProjectsError {
    /// No workspace has this id.
    WorkspaceNotFound { id: usize },
    /// No project has this id.
    ProjectNotFound { id: usize },
    /// No project link has this id.
    ProjectLinkNotFound { id: usize },
    /// The file's extension names none of the project kinds.
    UnsupportedProjectFile,
    /// Two of the workspaces, project links and projects share this id.
    DuplicateId { id: usize },
    /// Nothing in the model has the id of the drop target.
    DropTargetNotFound { id: usize },
    /// The drop target is neither a workspace nor a project link.
    InvalidDropTarget { id: usize },
    /// Links do not move from a workspace into the group project.
    WorkspaceToGroupProject,
    /// Links do not move from the group project into a workspace.
    GroupProjectToWorkspace,
    /// The registry has no compiler under the key that was given.
    CompilerNotFound,
    /// The workspace with this id names a compiler that the registry lacks.
    InvalidWorkspaceCompiler { workspace_id: usize },
    /// The key for the group project names a compiler that the registry lacks.
    InvalidGroupProjectCompiler,
    /// The active project id refers to no project.
    InvalidActiveProject { id: usize },
    /// A link of the group project refers to no project.
    InvalidGroupProjectLink { link_id: usize, project_id: usize },
    /// A link of a workspace refers to no project.
    InvalidWorkspaceLink { workspace_id: usize, link_id: usize, project_id: usize },
    /// The workspace with this id has the name of an earlier workspace.
    DuplicateWorkspaceName { workspace_id: usize },
    /// The workspace with this id has an empty name.
    EmptyWorkspaceName { workspace_id: usize },
    /// A path that was given for this field does not exist.
    PathMissing { field: PathField },
    /// The manifest of the group project does not exist.
    GroupProjectFileMissing,
    /// The project with this id has none of the files that can be built.
    NoProjectFile { id: usize },
    /// No group project is set.
    NoGroupProject,
    /// Neither a workspace nor the group project holds the link.
    LinkNotContained { id: usize },
    /// Neither a workspace nor the group project holds a link to the
    /// project.
    ProjectNotLinked { id: usize },
    /// Another compile invocation is running.
    CompilationActive,
    /// The id counter has no room for the ids that the request takes.
    IdsExhausted,
    /// The entry at this place of the registry of compilers has this wrong
    /// with it.
    InvalidCompiler { index: usize, violation: RegistryViolation },
}

} // verus!
