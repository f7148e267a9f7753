//! Projects and the links that place them in a container.

use vstd::prelude::*;
use vstd::string::*;
use crate::disk::{disks_agree, given_path, opt_text, texts, DiskSnapshot, DiskView};
use crate::error::{PathField, ProjectsError};
use crate::lexorank::{HasLexoRank, LexoRank};
use crate::paths::{join_path, lowercase, path_join, to_lowercase};

verus! {

/// The three kinds of file that a project can be imported from.
#[derive(Clone, Copy, Debug, PartialEq, Eq, Structural)]
pub enum ProjectKind {
    Dproj,
    Dpr,
    Dpk,
}

/// The name given to a project whose file has no stem.
pub open spec fn name_fallback() -> Seq<char> {
    "<name error>"@
}

/// The directory given to a project whose file has no parent.
pub open spec fn directory_fallback() -> Seq<char> {
    "<directory error>"@
}

impl ProjectKind {
    /// The kind that a lower-case extension names.
    pub open spec fn of_lowercase(ext: Seq<char>) -> Option<ProjectKind> {
        if ext == "dproj"@ {
            Some(ProjectKind::Dproj)
        } else if ext == "dpr"@ {
            Some(ProjectKind::Dpr)
        } else if ext == "dpk"@ {
            Some(ProjectKind::Dpk)
        } else {
            None
        }
    }

    /// The kind that a file's extension names, whatever its case.
    pub open spec fn of_extension(ext: Option<Seq<char>>) -> Option<ProjectKind> {
        match ext {
            Some(e) => Self::of_lowercase(lowercase(e)),
            None => None,
        }
    }

    /// The kind that a lower-case extension names.
    pub fn from_lowercase(ext: &String) -> (r: Option<ProjectKind>)
        ensures
            r == Self::of_lowercase(ext@),
    {
        if *ext == String::from_str("dproj") {
            Some(ProjectKind::Dproj)
        } else if *ext == String::from_str("dpr") {
            Some(ProjectKind::Dpr)
        } else if *ext == String::from_str("dpk") {
            Some(ProjectKind::Dpk)
        } else {
            None
        }
    }

    /// The kind that a file's extension names, whatever its case.
    pub fn from_extension(ext: &Option<String>) -> (r: Option<ProjectKind>)
        ensures
            r == Self::of_extension(opt_text(*ext)),
    {
        match ext {
            Some(e) => {
                let lower = to_lowercase(e.as_str());
                Self::from_lowercase(&lower)
            },
            None => None,
        }
    }
}

impl PathField {
    /// The extension of the file that the field holds; none for the directory.
    pub open spec fn extension_spec(self) -> Seq<char> {
        match self {
            PathField::Directory => ""@,
            PathField::Dproj => "dproj"@,
            PathField::Dpr => "dpr"@,
            PathField::Dpk => "dpk"@,
            PathField::Exe => "exe"@,
            PathField::Ini => "ini"@,
        }
    }

    /// The extension of the file that the field holds.
    pub fn extension(self) -> (r: &'static str)
        ensures
            r@ == self.extension_spec(),
    {
        match self {
            PathField::Directory => "",
            PathField::Dproj => "dproj",
            PathField::Dpr => "dpr",
            PathField::Dpk => "dpk",
            PathField::Exe => "exe",
            PathField::Ini => "ini",
        }
    }
}

/// A compilable unit: its identity, its name and directory, and the files
/// that belong to it as far as they are known.
#[derive(Debug, PartialEq, Eq)]
pub struct Project {
    pub id: usize,
    pub name: String,
    pub directory: String,
    pub dproj: Option<String>,
    pub dpr: Option<String>,
    pub dpk: Option<String>,
    pub exe: Option<String>,
    pub ini: Option<String>,
}

/// A project as a value.
pub struct ProjectView {
    pub id: usize,
    pub name: Seq<char>,
    pub directory: Seq<char>,
    pub dproj: Option<Seq<char>>,
    pub dpr: Option<Seq<char>>,
    pub dpk: Option<Seq<char>>,
    pub exe: Option<Seq<char>>,
    pub ini: Option<Seq<char>>,
}

impl View for Project {
    type V = ProjectView;

    open spec fn view(&self) -> ProjectView {
        ProjectView {
            id: self.id,
            name: self.name@,
            directory: self.directory@,
            dproj: opt_text(self.dproj),
            dpr: opt_text(self.dpr),
            dpk: opt_text(self.dpk),
            exe: opt_text(self.exe),
            ini: opt_text(self.ini),
        }
    }
}

/// A copy of an optional text.
pub fn clone_opt_text(o: &Option<String>) -> (r: Option<String>)
    ensures
        opt_text(r) == opt_text(*o),
{
    match o {
        Some(t) => Some(t.clone()),
        None => None,
    }
}

impl Clone for Project {
    fn clone(&self) -> (r: Project)
        ensures
            r@ == self@,
    {
        Project {
            id: self.id,
            name: self.name.clone(),
            directory: self.directory.clone(),
            dproj: clone_opt_text(&self.dproj),
            dpr: clone_opt_text(&self.dpr),
            dpk: clone_opt_text(&self.dpk),
            exe: clone_opt_text(&self.exe),
            ini: clone_opt_text(&self.ini),
        }
    }
}

/// The views of a list of projects.
pub open spec fn project_views(s: Seq<Project>) -> Seq<ProjectView> {
    s.map_values(|p: Project| p@)
}

impl ProjectView {
    /// The project that importing a file of the given kind creates: named
    /// after the file's stem, placed in the file's parent directory, with the
    /// file itself under the field of its kind.
    pub open spec fn imported(
        id: usize,
        file_path: Seq<char>,
        kind: ProjectKind,
        stem: Option<Seq<char>>,
        parent: Option<Seq<char>>,
    ) -> ProjectView {
        ProjectView {
            id,
            name: match stem {
                Some(s) => s,
                None => name_fallback(),
            },
            directory: match parent {
                Some(p) => p,
                None => directory_fallback(),
            },
            dproj: if kind == ProjectKind::Dproj {
                Some(file_path)
            } else {
                None
            },
            dpr: if kind == ProjectKind::Dpr {
                Some(file_path)
            } else {
                None
            },
            dpk: if kind == ProjectKind::Dpk {
                Some(file_path)
            } else {
                None
            },
            exe: None,
            ini: None,
        }
    }

    /// The file that is handed to the build tool: the project descriptor,
    /// else the source-project file, else the package file.
    pub open spec fn project_file(self) -> Option<Seq<char>> {
        if self.dproj is Some {
            self.dproj
        } else if self.dpr is Some {
            self.dpr
        } else {
            self.dpk
        }
    }

    /// Where the file of a field is expected: in the project's directory,
    /// named after the project, with the field's extension.
    pub open spec fn candidate(self, field: PathField) -> Seq<char> {
        path_join(self.directory, self.name + "."@ + field.extension_spec())
    }

    /// The candidate of a field where the snapshot has it, else nothing.
    pub open spec fn found(self, field: PathField, disk: DiskView) -> Option<Seq<char>> {
        if disk.has(self.candidate(field)) {
            Some(self.candidate(field))
        } else {
            None
        }
    }

    /// The paths that deriving the files looks at: the directory and the
    /// five candidates.
    pub open spec fn probe_paths(self) -> Seq<Seq<char>> {
        seq![
            self.directory,
            self.candidate(PathField::Dproj),
            self.candidate(PathField::Dpr),
            self.candidate(PathField::Dpk),
            self.candidate(PathField::Exe),
            self.candidate(PathField::Ini),
        ]
    }

    /// The project with all five files derived anew from the snapshot.
    pub open spec fn discovered(self, disk: DiskView) -> ProjectView {
        ProjectView {
            dproj: self.found(PathField::Dproj, disk),
            dpr: self.found(PathField::Dpr, disk),
            dpk: self.found(PathField::Dpk, disk),
            exe: self.found(PathField::Exe, disk),
            ini: self.found(PathField::Ini, disk),
            ..self
        }
    }
}

impl Project {
    /// Builds the project that importing `file_path` creates, from the kind,
    /// stem and parent that were found in the path.
    pub fn import(
        id: usize,
        file_path: &String,
        kind: ProjectKind,
        stem: Option<String>,
        parent: Option<String>,
    ) -> (r: Project)
        ensures
            r@ == ProjectView::imported(id, file_path@, kind, opt_text(stem), opt_text(parent)),
    {
        let name = match stem {
            Some(s) => s,
            None => String::from_str("<name error>"),
        };
        let directory = match parent {
            Some(p) => p,
            None => String::from_str("<directory error>"),
        };
        Project {
            id,
            name,
            directory,
            dproj: match kind {
                ProjectKind::Dproj => Some(file_path.clone()),
                _ => None,
            },
            dpr: match kind {
                ProjectKind::Dpr => Some(file_path.clone()),
                _ => None,
            },
            dpk: match kind {
                ProjectKind::Dpk => Some(file_path.clone()),
                _ => None,
            },
            exe: None,
            ini: None,
        }
    }

    /// The file that is handed to the build tool.
    pub fn get_project_file(&self) -> (r: Result<String, ProjectsError>)
        ensures
            match r {
                Ok(file) => self@.project_file() == Some(file@),
                Err(e) => self@.project_file() is None && e == (ProjectsError::NoProjectFile {
                    id: self.id,
                }),
            },
    {
        match &self.dproj {
            Some(f) => Ok(f.clone()),
            None => match &self.dpr {
                Some(f) => Ok(f.clone()),
                None => match &self.dpk {
                    Some(f) => Ok(f.clone()),
                    None => Err(ProjectsError::NoProjectFile { id: self.id }),
                },
            },
        }
    }

    /// Where the file of a field is expected.
    pub fn candidate_path(&self, field: PathField) -> (r: String)
        ensures
            r@ == self@.candidate(field),
    {
        let mut file = self.name.clone();
        file.append(".");
        file.append(field.extension());
        join_path(self.directory.as_str(), file.as_str())
    }

    /// The paths that have to be looked at on disk before the files of the
    /// project are derived anew.
    pub fn probe_paths(&self) -> (r: Vec<String>)
        ensures
            texts(r@) == self@.probe_paths(),
    {
        let mut paths: Vec<String> = Vec::new();
        paths.push(self.directory.clone());
        paths.push(self.candidate_path(PathField::Dproj));
        paths.push(self.candidate_path(PathField::Dpr));
        paths.push(self.candidate_path(PathField::Dpk));
        paths.push(self.candidate_path(PathField::Exe));
        paths.push(self.candidate_path(PathField::Ini));
        paths
    }

    fn find_file(&self, field: PathField, disk: &DiskSnapshot) -> (r: Option<String>)
        ensures
            opt_text(r) == self@.found(field, disk@),
    {
        let candidate = self.candidate_path(field);
        if disk.has(candidate.as_str()) {
            Some(candidate)
        } else {
            None
        }
    }

    /// Derives the five optional files anew from what was seen on disk. Fails,
    /// and changes nothing, where the project's directory was not seen.
    pub fn discover_paths(&mut self, disk: &DiskSnapshot) -> (r: Result<(), ProjectsError>)
        ensures
            match r {
                Ok(()) => disk@.is_dir(old(self)@.directory) && final(self)@ == old(self)@.discovered(disk@),
                Err(e) => !disk@.is_dir(old(self)@.directory) && *final(self) == *old(self) && e
                    == (ProjectsError::PathMissing { field: PathField::Directory }),
            },
    {
        if !disk.is_dir(self.directory.as_str()) {
            return Err(ProjectsError::PathMissing { field: PathField::Directory });
        }
        let dproj = self.find_file(PathField::Dproj, disk);
        let dpr = self.find_file(PathField::Dpr, disk);
        let dpk = self.find_file(PathField::Dpk, disk);
        let exe = self.find_file(PathField::Exe, disk);
        let ini = self.find_file(PathField::Ini, disk);
        self.dproj = dproj;
        self.dpr = dpr;
        self.dpk = dpk;
        self.exe = exe;
        self.ini = ini;
        Ok(())
    }
}

/// A patch for a project: the fields that are given replace those of the
/// project.
#[derive(Debug)]
pub struct ProjectUpdateData {
    pub name: Option<String>,
    pub directory: Option<String>,
    pub dproj: Option<String>,
    pub dpr: Option<String>,
    pub dpk: Option<String>,
    pub exe: Option<String>,
    pub ini: Option<String>,
}

/// A patch for a project as a value.
pub struct ProjectUpdateView {
    pub name: Option<Seq<char>>,
    pub directory: Option<Seq<char>>,
    pub dproj: Option<Seq<char>>,
    pub dpr: Option<Seq<char>>,
    pub dpk: Option<Seq<char>>,
    pub exe: Option<Seq<char>>,
    pub ini: Option<Seq<char>>,
}

impl View for ProjectUpdateData {
    type V = ProjectUpdateView;

    open spec fn view(&self) -> ProjectUpdateView {
        ProjectUpdateView {
            name: opt_text(self.name),
            directory: opt_text(self.directory),
            dproj: opt_text(self.dproj),
            dpr: opt_text(self.dpr),
            dpk: opt_text(self.dpk),
            exe: opt_text(self.exe),
            ini: opt_text(self.ini),
        }
    }
}

/// A path that is given has to be on disk.
pub open spec fn path_is_missing(path: Option<Seq<char>>, disk: DiskView) -> bool {
    path matches Some(p) && !disk.has(p)
}

/// The value of a field after a patch: the old one where nothing is given.
pub open spec fn patched(given: Option<Seq<char>>, current: Option<Seq<char>>) -> Option<
    Seq<char>,
> {
    if given is Some {
        given
    } else {
        current
    }
}

/// Deriving the files of a project looks at the disk only through the
/// project's probe paths: snapshots that agree on them give the same files.
pub proof fn lemma_discovery_looks_at_probe_paths(project: ProjectView, a: DiskView, b: DiskView)
    requires
        disks_agree(a, b, project.probe_paths()),
    ensures
        a.is_dir(project.directory) == b.is_dir(project.directory),
        project.discovered(a) == project.discovered(b),
{
}

/// Checking a patch looks at the disk only through the paths that the patch
/// gives: snapshots that agree on them find the same field missing.
pub proof fn lemma_patch_looks_at_probe_paths(patch: ProjectUpdateView, a: DiskView, b: DiskView)
    requires
        disks_agree(a, b, patch.probe_paths()),
    ensures
        patch.missing(a) == patch.missing(b),
{
    let paths = patch.probe_paths();
    assert forall|path: Option<Seq<char>>|
        path is Some && paths.contains(path->0) implies path_is_missing(path, a)
        == path_is_missing(path, b) by {
    }
    let directory = given_path(patch.directory);
    let dproj = given_path(patch.dproj);
    let dpr = given_path(patch.dpr);
    let dpk = given_path(patch.dpk);
    let exe = given_path(patch.exe);
    if patch.directory is Some {
        assert(paths[0] == patch.directory->0);
    }
    if patch.dproj is Some {
        assert(paths[directory.len() as int] == patch.dproj->0);
    }
    if patch.dpr is Some {
        assert(paths[(directory + dproj).len() as int] == patch.dpr->0);
    }
    if patch.dpk is Some {
        assert(paths[(directory + dproj + dpr).len() as int] == patch.dpk->0);
    }
    if patch.exe is Some {
        assert(paths[(directory + dproj + dpr + dpk).len() as int] == patch.exe->0);
    }
    if patch.ini is Some {
        assert(paths[(directory + dproj + dpr + dpk + exe).len() as int] == patch.ini->0);
    }
}

impl ProjectUpdateView {
    /// The paths that the patch gives, in the order of their fields.
    pub open spec fn probe_paths(self) -> Seq<Seq<char>> {
        given_path(self.directory) + given_path(self.dproj) + given_path(self.dpr) + given_path(
            self.dpk,
        ) + given_path(self.exe) + given_path(self.ini)
    }

    /// The first field of the patch whose path is not on disk: the
    /// directory first, then the files in the order of their fields.
    pub open spec fn missing(self, disk: DiskView) -> Option<PathField> {
        if path_is_missing(self.directory, disk) {
            Some(PathField::Directory)
        } else if path_is_missing(self.dproj, disk) {
            Some(PathField::Dproj)
        } else if path_is_missing(self.dpr, disk) {
            Some(PathField::Dpr)
        } else if path_is_missing(self.dpk, disk) {
            Some(PathField::Dpk)
        } else if path_is_missing(self.exe, disk) {
            Some(PathField::Exe)
        } else if path_is_missing(self.ini, disk) {
            Some(PathField::Ini)
        } else {
            None
        }
    }

    /// The project with the fields of the patch put in.
    pub open spec fn applied(self, project: ProjectView) -> ProjectView {
        ProjectView {
            id: project.id,
            name: self.name.unwrap_or(project.name),
            directory: self.directory.unwrap_or(project.directory),
            dproj: patched(self.dproj, project.dproj),
            dpr: patched(self.dpr, project.dpr),
            dpk: patched(self.dpk, project.dpk),
            exe: patched(self.exe, project.exe),
            ini: patched(self.ini, project.ini),
        }
    }
}

fn is_missing(path: &Option<String>, disk: &DiskSnapshot) -> (r: bool)
    ensures
        r == path_is_missing(opt_text(*path), disk@),
{
    match path {
        Some(p) => !disk.has(p.as_str()),
        None => false,
    }
}

fn push_given(paths: &mut Vec<String>, path: &Option<String>)
    ensures
        texts(final(paths)@) == texts(old(paths)@) + given_path(opt_text(*path)),
{
    match path {
        Some(p) => {
            paths.push(p.clone());
        },
        None => {
        },
    }
}

impl ProjectUpdateData {
    /// The paths that have to be looked at on disk before the patch is
    /// applied.
    pub fn probe_paths(&self) -> (r: Vec<String>)
        ensures
            texts(r@) == self@.probe_paths(),
    {
        let mut paths: Vec<String> = Vec::new();
        push_given(&mut paths, &self.directory);
        push_given(&mut paths, &self.dproj);
        push_given(&mut paths, &self.dpr);
        push_given(&mut paths, &self.dpk);
        push_given(&mut paths, &self.exe);
        push_given(&mut paths, &self.ini);
        paths
    }

    /// The first field of the patch whose path was not seen on disk.
    pub fn first_missing(&self, disk: &DiskSnapshot) -> (r: Option<PathField>)
        ensures
            r == self@.missing(disk@),
    {
        if is_missing(&self.directory, disk) {
            Some(PathField::Directory)
        } else if is_missing(&self.dproj, disk) {
            Some(PathField::Dproj)
        } else if is_missing(&self.dpr, disk) {
            Some(PathField::Dpr)
        } else if is_missing(&self.dpk, disk) {
            Some(PathField::Dpk)
        } else if is_missing(&self.exe, disk) {
            Some(PathField::Exe)
        } else if is_missing(&self.ini, disk) {
            Some(PathField::Ini)
        } else {
            None
        }
    }
}

impl Project {
    /// Puts the fields that the patch gives into the project.
    pub fn apply_update(&mut self, data: ProjectUpdateData)
        ensures
            final(self)@ == data@.applied(old(self)@),
    {
        if let Some(name) = data.name {
            self.name = name;
        }
        if let Some(directory) = data.directory {
            self.directory = directory;
        }
        if let Some(dproj) = data.dproj {
            self.dproj = Some(dproj);
        }
        if let Some(dpr) = data.dpr {
            self.dpr = Some(dpr);
        }
        if let Some(dpk) = data.dpk {
            self.dpk = Some(dpk);
        }
        if let Some(exe) = data.exe {
            self.exe = Some(exe);
        }
        if let Some(ini) = data.ini {
            self.ini = Some(ini);
        }
    }
}

/// The place of a project in one container: the link's identity, the project
/// it refers to, and its rank among the links of that container.
#[derive(Clone, Copy, Debug, PartialEq, Eq, Structural)]
pub struct ProjectLink {
    pub id: usize,
    pub project_id: usize,
    pub sort_rank: LexoRank,
}

impl HasLexoRank for ProjectLink {
    open spec fn rank(&self) -> LexoRank {
        self.sort_rank
    }

    open spec fn with_rank(self, rank: LexoRank) -> Self {
        ProjectLink { sort_rank: rank, ..self }
    }

    fn get_lexorank(&self) -> (r: &LexoRank) {
        &self.sort_rank
    }

    fn set_lexorank(&mut self, lexorank: LexoRank) {
        self.sort_rank = lexorank;
    }

    proof fn lemma_with_rank(self, rank: LexoRank) {
    }
}

} // verus!
