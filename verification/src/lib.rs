//! The project and workspace model of a build-orchestration server, its
//! registry of compilers, and the decisions of its compile engine.
//!
//! The model is a tree: the aggregate root owns workspaces, a flat list of
//! projects and at most one group project; workspaces and the group project
//! own ordered lists of links, each of which refers to a project by id.
//! Every operation is specified against the model as a mathematical value
//! (`projects_model`), and the laws that relate the operations are proved in
//! `laws`.
//!
//! Nothing here touches the disk, the clock of a build, or a process. What
//! an operation needs to know of the disk is handed in as a snapshot
//! (`disk`), and each operation names the paths it looks at. The compile
//! engine is a session that says what to launch next and takes in what
//! became of it (`session`).

pub mod banner;
pub mod changes;
pub mod compiler;
pub mod compiler_config;
pub mod diag;
pub mod disk;
pub mod document;
pub mod engine;
pub mod error;
pub mod group_project;
pub mod guard;
pub mod id_map;
pub mod ids;
pub mod laws;
pub mod lexorank;
pub mod links;
pub mod moves;
pub mod paths;
pub mod project;
pub mod projects_data;
pub mod projects_model;
pub mod seqs;
pub mod session;
pub mod text;
pub mod validation;
pub mod workspace;

pub use crate::changes::{Change, ChangeContext, ChangeSet, StateFile};
pub use crate::compiler::{CompilationParameters, CompileProjectParams, Compiler};
pub use crate::compiler_config::{
    compiler_exists, CompilerConfiguration, CompilerConfigurations, PartialCompilerConfiguration,
};
pub use crate::diag::{CompilerLineDiagnostic, DiagnosticKind, DiagnosticStream};
pub use crate::disk::DiskSnapshot;
pub use crate::document::{Document, TextRange};
pub use crate::engine::CompileEngine;
pub use crate::error::ProjectsError;
pub use crate::group_project::GroupProject;
pub use crate::lexorank::{HasLexoRank, LexoRank};
pub use crate::links::{Named, ProjectLinkContainer};
pub use crate::project::{Project, ProjectLink, ProjectUpdateData};
pub use crate::projects_data::ProjectsData;
pub use crate::session::{CompileSession, CompilerProgressParams};
pub use crate::workspace::{Workspace, WorkspaceUpdateData};
