//! The closed set of commands that change the persisted state.

use vstd::prelude::*;
use vstd::string::*;
use crate::compiler_config::{
    compiler_exists, lemma_registry_looks_at_probe_paths, lemma_registry_violation,
    CompilerConfiguration, CompilerConfigurations, PartialCompilerConfiguration, RegistryError,
    RegistryView,
};
use crate::disk::{
    append_texts, disks_agree, lemma_disks_agree_on_parts, texts, DiskSnapshot, DiskView,
};
use crate::group_project::{
    lemma_filling_looks_at_member_paths, member_paths, member_probe_paths, FillState,
};
use crate::ids::lemma_position_of;
use crate::project::{lemma_discovery_looks_at_probe_paths, lemma_patch_looks_at_probe_paths};
use crate::error::ProjectsError;
use crate::paths::{path_extension, path_file_stem, path_parent};
use crate::project::{ProjectKind, ProjectUpdateData};
use crate::projects_data::ProjectsData;
use crate::projects_model::{project_ids, ProjectsDataView};
use crate::workspace::WorkspaceUpdateData;

verus! {

/// A batch of changes with the id that correlates its acknowledgement.
/// The changes are applied one after the other, each persisted before the
/// next is applied.
#[derive(Debug)]
pub struct ChangeSet {
    pub changes: Vec<Change>,
    pub event_id: String,
}

/// One atomic change of the persisted state.
#[derive(Debug)]
pub enum Change {
    NewProject { file_path: String, workspace_id: usize },
    AddProject { project_id: usize, workspace_id: usize },
    RemoveProject { project_link_id: usize },
    MoveProject { project_link_id: usize, drop_target: usize },
    RefreshProject { project_id: usize },
    UpdateProject { project_id: usize, data: ProjectUpdateData },
    SelectProject { project_id: usize },
    AddWorkspace { name: String, compiler: String },
    RemoveWorkspace { workspace_id: usize },
    MoveWorkspace { workspace_id: usize, drop_target: usize },
    UpdateWorkspace { workspace_id: usize, data: WorkspaceUpdateData },
    AddCompiler { key: String, config: CompilerConfiguration },
    RemoveCompiler { compiler: String },
    UpdateCompiler { key: String, data: PartialCompilerConfiguration },
    SetGroupProject { groupproj_path: String },
    RemoveGroupProject,
    SetGroupProjectCompiler { compiler: String },
}

/// The state file that a change was made to, which is to be persisted.
#[derive(Clone, Copy, Debug, PartialEq, Eq, Structural)]
pub enum StateFile {
    Projects,
    Compilers,
}

/// What a change needs to know of the world outside the state: what was
/// seen on disk, and the project files that the manifest of a group project
/// lists, in its order.
#[derive(Debug)]
pub struct ChangeContext {
    pub disk: DiskSnapshot,
    pub members: Vec<String>,
}

/// The two persisted states as values.
pub struct StateView {
    pub data: ProjectsDataView,
    pub registry: RegistryView,
}

/// A change of the model alone.
pub open spec fn on_data(
    outcome: Result<ProjectsDataView, ProjectsError>,
    registry: RegistryView,
) -> Result<StateView, ProjectsError> {
    match outcome {
        Ok(data) => Ok(StateView { data, registry }),
        Err(e) => Err(e),
    }
}

impl RegistryView {
    /// The registry with the entry of the given key patched.
    pub open spec fn update(self, key: Seq<char>, data: PartialCompilerConfiguration) -> Result<
        RegistryView,
        ProjectsError,
    > {
        match self.get(key) {
            Some(c) => Ok(
                self.insert(
                    key,
                    c.updated(
                        data.condition_text(),
                        data.product_name_text(),
                        data.product_version,
                        data.package_version,
                        data.compiler_version,
                        data.installation_path_text(),
                        data.build_argument_texts(),
                    ),
                ),
            ),
            None => Err(ProjectsError::CompilerNotFound),
        }
    }
}

impl ProjectsDataView {
    /// The model with another compiler key for the group project, which the
    /// registry has to hold.
    pub open spec fn set_group_project_compiler(self, key: Seq<char>, registry: RegistryView) -> Result<
        Self,
        ProjectsError,
    > {
        if registry.contains_key(key) {
            Ok(ProjectsDataView { group_project_compiler_id: key, ..self })
        } else {
            Err(ProjectsError::CompilerNotFound)
        }
    }
}

/// The state that a change has made, if it passes the validation of the
/// state file that the change is made to: the model against the registry,
/// or the registry against what was seen on disk.
pub open spec fn checked(target: StateFile, state: StateView, disk: DiskView) -> Result<
    StateView,
    ProjectsError,
> {
    match target {
        StateFile::Projects => match state.data.violation(state.registry) {
            Some(e) => Err(e),
            None => Ok(state),
        },
        StateFile::Compilers => match state.registry.violation(disk) {
            Some(e) => Err(
                ProjectsError::InvalidCompiler { index: e.index, violation: e.violation },
            ),
            None => Ok(state),
        },
    }
}

impl Change {
    /// The state file that the change is made to.
    pub open spec fn target_spec(&self) -> StateFile {
        match self {
            Change::AddCompiler { .. } => StateFile::Compilers,
            Change::RemoveCompiler { .. } => StateFile::Compilers,
            Change::UpdateCompiler { .. } => StateFile::Compilers,
            _ => StateFile::Projects,
        }
    }

    /// The number of new ids that the change takes at most.
    pub open spec fn ids_needed(&self, members: nat) -> nat {
        match self {
            Change::NewProject { .. } => 2,
            Change::AddProject { .. } => 1,
            Change::AddWorkspace { .. } => 1,
            Change::SetGroupProject { .. } => 2 * members,
            _ => 0,
        }
    }

    /// What the change makes of the state, where the id counter has room
    /// for it.
    pub open spec fn applied_with_room(
        &self,
        data: ProjectsDataView,
        registry: RegistryView,
        disk: DiskView,
        members: Seq<Seq<char>>,
    ) -> Result<StateView, ProjectsError> {
        match self {
            Change::NewProject { file_path, workspace_id } => on_data(
                data.new_project(
                    file_path@,
                    ProjectKind::of_extension(path_extension(file_path@)),
                    path_file_stem(file_path@),
                    path_parent(file_path@),
                    *workspace_id,
                ),
                registry,
            ),
            Change::AddProject { project_id, workspace_id } => on_data(
                data.add_project_link(*project_id, *workspace_id),
                registry,
            ),
            Change::RemoveProject { project_link_id } => Ok(
                StateView { data: data.remove_project_link(*project_link_id), registry },
            ),
            Change::MoveProject { project_link_id, drop_target } => on_data(
                data.move_project_link(*project_link_id, *drop_target),
                registry,
            ),
            Change::RefreshProject { project_id } => on_data(
                data.refresh_project_paths(*project_id, disk),
                registry,
            ),
            Change::UpdateProject { project_id, data: patch } => on_data(
                data.update_project(*project_id, patch@, disk),
                registry,
            ),
            Change::SelectProject { project_id } => on_data(
                data.select_project(*project_id),
                registry,
            ),
            Change::AddWorkspace { name, compiler } => on_data(
                data.new_workspace(name@, compiler@, registry),
                registry,
            ),
            Change::RemoveWorkspace { workspace_id } => Ok(
                StateView { data: data.remove_workspace(*workspace_id), registry },
            ),
            Change::MoveWorkspace { workspace_id, drop_target } => on_data(
                data.move_workspace(*workspace_id, *drop_target),
                registry,
            ),
            Change::UpdateWorkspace { workspace_id, data: patch } => on_data(
                data.update_workspace(*workspace_id, patch@, registry),
                registry,
            ),
            Change::AddCompiler { key, config } => Ok(
                StateView { data, registry: registry.insert(key@, config@) },
            ),
            Change::RemoveCompiler { compiler } => if registry.contains_key(compiler@) {
                Ok(StateView { data, registry: registry.remove(compiler@) })
            } else {
                Err(ProjectsError::CompilerNotFound)
            },
            Change::UpdateCompiler { key, data: patch } => match registry.update(key@, *patch) {
                Ok(r) => Ok(StateView { data, registry: r }),
                Err(e) => Err(e),
            },
            Change::SetGroupProject { groupproj_path } => on_data(
                data.set_group_project(groupproj_path@, members, disk),
                registry,
            ),
            Change::RemoveGroupProject => Ok(
                StateView { data: data.remove_group_project(), registry },
            ),
            Change::SetGroupProjectCompiler { compiler } => on_data(
                data.set_group_project_compiler(compiler@, registry),
                registry,
            ),
        }
    }

    /// The registry after the change: with the compiler put in, taken out
    /// or patched where the change is one of the compilers and succeeds, and
    /// as it was else.
    pub open spec fn registry_after(&self, registry: RegistryView) -> RegistryView {
        match self {
            Change::AddCompiler { key, config } => registry.insert(key@, config@),
            Change::RemoveCompiler { compiler } => registry.remove(compiler@),
            Change::UpdateCompiler { key, data } => match registry.update(key@, *data) {
                Ok(r) => r,
                Err(_) => registry,
            },
            _ => registry,
        }
    }

    /// What the change makes of the state. A change that takes more ids
    /// than the counter has room for is refused, and so is a change whose
    /// result does not pass validation: the state that a change leaves is
    /// always fit to be persisted.
    pub open spec fn applied(
        &self,
        data: ProjectsDataView,
        registry: RegistryView,
        disk: DiskView,
        members: Seq<Seq<char>>,
    ) -> Result<StateView, ProjectsError> {
        if data.id_counter + self.ids_needed(members.len()) > usize::MAX {
            Err(ProjectsError::IdsExhausted)
        } else {
            match self.applied_with_room(data, registry, disk, members) {
                Ok(state) => checked(self.target_spec(), state, disk),
                Err(e) => Err(e),
            }
        }
    }

    /// The paths that the change looks at on disk.
    pub open spec fn probed(
        &self,
        data: ProjectsDataView,
        registry: RegistryView,
        members: Seq<Seq<char>>,
    ) -> Seq<Seq<char>> {
        match self {
            Change::RefreshProject { project_id } => match data.project(*project_id) {
                Some(p) => p.probe_paths(),
                None => Seq::empty(),
            },
            Change::UpdateProject { project_id, data: patch } => patch@.probe_paths(),
            Change::SetGroupProject { groupproj_path } => seq![groupproj_path@] + member_paths(
                members,
            ),
            Change::AddCompiler { .. } => self.registry_after(registry).probe_paths(),
            Change::RemoveCompiler { .. } => self.registry_after(registry).probe_paths(),
            Change::UpdateCompiler { .. } => self.registry_after(registry).probe_paths(),
            _ => Seq::empty(),
        }
    }

    /// Applies a change of the compilers to the registry. Any other change
    /// leaves the registry as it is.
    fn apply_to_registry(&self, compilers: &mut CompilerConfigurations) -> (r: Result<
        (),
        ProjectsError,
    >)
        ensures
            final(compilers)@ == self.registry_after(old(compilers)@),
            self.target_spec() == StateFile::Compilers ==> (forall|
                data: ProjectsDataView,
                disk: DiskView,
                members: Seq<Seq<char>>,
            |
                match r {
                    Ok(()) => #[trigger] self.applied_with_room(
                        data,
                        old(compilers)@,
                        disk,
                        members,
                    ) == Ok::<_, ProjectsError>(StateView { data, registry: final(compilers)@ }),
                    Err(e) => self.applied_with_room(data, old(compilers)@, disk, members)
                        == Err::<StateView, _>(e),
                }),
    {
        match self {
            Change::AddCompiler { key, config } => {
                compilers.insert(key.clone(), config.clone());
                Ok(())
            },
            Change::RemoveCompiler { compiler } => Change::remove_compiler(compilers, compiler),
            Change::UpdateCompiler { key, data } => Change::update_compiler(
                compilers,
                key.clone(),
                data,
            ),
            _ => Ok(()),
        }
    }

    /// The paths that have to be looked at on disk before the change is
    /// applied to the given model and registry, with the given members of
    /// the manifest where it sets the group project.
    pub fn probe_paths(
        &self,
        projects_data: &ProjectsData,
        compilers: &CompilerConfigurations,
        members: &Vec<String>,
    ) -> (r: Vec<String>)
        ensures
            texts(r@) == self.probed(projects_data@, compilers@, texts(members@)),
    {
        match self {
            Change::RefreshProject { project_id } => {
                proof {
                    lemma_position_of(project_ids(projects_data@.projects), *project_id);
                }
                match projects_data.get_project(*project_id) {
                    Some(project) => project.probe_paths(),
                    None => Vec::new(),
                }
            },
            Change::UpdateProject { project_id, data } => data.probe_paths(),
            Change::SetGroupProject { groupproj_path } => {
                let mut paths: Vec<String> = Vec::new();
                paths.push(groupproj_path.clone());
                append_texts(&mut paths, member_probe_paths(members));
                paths
            },
            Change::AddCompiler { .. } | Change::RemoveCompiler { .. } | Change::UpdateCompiler {
                ..
            } => {
                let mut candidate = compilers.clone();
                let _ = self.apply_to_registry(&mut candidate);
                candidate.probe_paths()
            },
            _ => Vec::new(),
        }
    }

    /// The state file that the change is made to.
    pub fn target(&self) -> (r: StateFile)
        ensures
            r == self.target_spec(),
    {
        match self {
            Change::AddCompiler { .. } => StateFile::Compilers,
            Change::RemoveCompiler { .. } => StateFile::Compilers,
            Change::UpdateCompiler { .. } => StateFile::Compilers,
            _ => StateFile::Projects,
        }
    }

    fn has_room(&self, data: &ProjectsData, members: &Vec<String>) -> (r: bool)
        ensures
            r == (data.id_counter + self.ids_needed(members@.len()) <= usize::MAX),
    {
        let room: usize = usize::MAX - data.id_counter;
        match self {
            Change::NewProject { .. } => room >= 2,
            Change::AddProject { .. } => room >= 1,
            Change::AddWorkspace { .. } => room >= 1,
            Change::SetGroupProject { .. } => members.len() <= room / 2,
            _ => true,
        }
    }

    /// Takes a compiler out of the registry.
    pub fn remove_compiler(compilers: &mut CompilerConfigurations, compiler: &String) -> (r:
        Result<(), ProjectsError>)
        ensures
            match r {
                Ok(()) => old(compilers)@.contains_key(compiler@) && final(compilers)@ == old(compilers)@.remove(compiler@),
                Err(e) => !old(compilers)@.contains_key(compiler@) && final(compilers)@ == old(compilers)@ && e == ProjectsError::CompilerNotFound,
            },
    {
        match compilers.remove(compiler.as_str()) {
            Some(_) => Ok(()),
            None => Err(ProjectsError::CompilerNotFound),
        }
    }

    /// Patches a compiler of the registry.
    pub fn update_compiler(
        compilers: &mut CompilerConfigurations,
        key: String,
        data: &PartialCompilerConfiguration,
    ) -> (r: Result<(), ProjectsError>)
        ensures
            match r {
                Ok(()) => old(compilers)@.update(key@, *data) == Ok::<_, ProjectsError>(
                    final(compilers)@,
                ),
                Err(e) => old(compilers)@.update(key@, *data) == Err::<RegistryView, _>(e) && final(compilers)@ == old(compilers)@,
            },
    {
        match compilers.get_mut(key.as_str()) {
            Some(compiler) => {
                compiler.update(data);
                Ok(())
            },
            None => Err(ProjectsError::CompilerNotFound),
        }
    }

    /// Sets the compiler key of the group project.
    pub fn set_group_project_compiler(
        projects_data: &mut ProjectsData,
        compilers: &CompilerConfigurations,
        compiler: String,
    ) -> (r: Result<(), ProjectsError>)
        ensures
            crate::projects_model::agrees(
                r,
                old(projects_data)@,
                final(projects_data)@,
                old(projects_data)@.set_group_project_compiler(compiler@, compilers@),
            ),
    {
        if !compiler_exists(compilers, compiler.as_str()) {
            return Err(ProjectsError::CompilerNotFound);
        }
        projects_data.group_project_compiler_id = compiler;
        Ok(())
    }

    /// Applies a change of the model to the model.
    fn apply_to_model(
        self,
        projects_data: &mut ProjectsData,
        compilers: &CompilerConfigurations,
        context: &ChangeContext,
    ) -> (r: Result<(), ProjectsError>)
        requires
            self.target_spec() == StateFile::Projects,
            old(projects_data).id_counter + self.ids_needed(context.members@.len()) <= usize::MAX,
        ensures
            match r {
                Ok(()) => self.applied_with_room(
                    old(projects_data)@,
                    compilers@,
                    context.disk@,
                    texts(context.members@),
                ) == Ok::<_, ProjectsError>(
                    StateView { data: final(projects_data)@, registry: compilers@ },
                ),
                Err(e) => self.applied_with_room(
                    old(projects_data)@,
                    compilers@,
                    context.disk@,
                    texts(context.members@),
                ) == Err::<StateView, _>(e),
            },
    {
        match self {
            Change::NewProject { file_path, workspace_id } => projects_data.new_project(
                &file_path,
                workspace_id,
            ),
            Change::AddProject { project_id, workspace_id } => projects_data.add_project_link(
                project_id,
                workspace_id,
            ),
            Change::RemoveProject { project_link_id } => {
                projects_data.remove_project_link(project_link_id);
                Ok(())
            },
            Change::MoveProject { project_link_id, drop_target } =>
                projects_data.move_project_link(project_link_id, drop_target),
            Change::RefreshProject { project_id } => projects_data.refresh_project_paths(
                project_id,
                &context.disk,
            ),
            Change::UpdateProject { project_id, data } => projects_data.update_project(
                project_id,
                data,
                &context.disk,
            ),
            Change::SelectProject { project_id } => projects_data.select_project(project_id),
            Change::AddWorkspace { name, compiler } => projects_data.new_workspace(
                &name,
                &compiler,
                compilers,
            ),
            Change::RemoveWorkspace { workspace_id } => {
                projects_data.remove_workspace(workspace_id);
                Ok(())
            },
            Change::MoveWorkspace { workspace_id, drop_target } => projects_data.move_workspace(
                workspace_id,
                drop_target,
            ),
            Change::UpdateWorkspace { workspace_id, data } => projects_data.update_workspace(
                workspace_id,
                &data,
                compilers,
            ),
            Change::SetGroupProject { groupproj_path } => projects_data.set_group_project(
                &groupproj_path,
                &context.members,
                &context.disk,
            ),
            Change::RemoveGroupProject => {
                projects_data.remove_group_project();
                Ok(())
            },
            Change::SetGroupProjectCompiler { compiler } => Change::set_group_project_compiler(
                projects_data,
                compilers,
                compiler,
            ),
            _ => Ok(()),
        }
    }

    /// Applies the change to the state and validates what it has made: the
    /// model against the registry, or the registry against what was seen on
    /// disk. On success the result names the state file to persist, and the
    /// state in it passes validation. A change that fails, or whose result
    /// does not pass validation, leaves both states as they were.
    pub fn execute(
        self,
        projects_data: &mut ProjectsData,
        compilers: &mut CompilerConfigurations,
        context: &ChangeContext,
    ) -> (r: Result<StateFile, ProjectsError>)
        ensures
            match r {
                Ok(target) => target == self.target_spec() && self.applied(
                    old(projects_data)@,
                    old(compilers)@,
                    context.disk@,
                    texts(context.members@),
                ) == Ok::<_, ProjectsError>(
                    StateView { data: final(projects_data)@, registry: final(compilers)@ },
                ),
                Err(e) => self.applied(
                    old(projects_data)@,
                    old(compilers)@,
                    context.disk@,
                    texts(context.members@),
                ) == Err::<StateView, _>(e) && final(projects_data)@ == old(projects_data)@
                    && final(compilers)@ == old(compilers)@,
            },
    {
        if !self.has_room(projects_data, &context.members) {
            return Err(ProjectsError::IdsExhausted);
        }
        match self.target() {
            StateFile::Projects => {
                let mut candidate = projects_data.clone();
                match self.apply_to_model(&mut candidate, compilers, context) {
                    Ok(()) => {},
                    Err(e) => {
                        return Err(e);
                    },
                }
                match candidate.validate(compilers) {
                    Ok(()) => {},
                    Err(e) => {
                        return Err(e);
                    },
                }
                *projects_data = candidate;
                Ok(StateFile::Projects)
            },
            StateFile::Compilers => {
                let mut candidate = compilers.clone();
                match self.apply_to_registry(&mut candidate) {
                    Ok(()) => {},
                    Err(e) => {
                        return Err(e);
                    },
                }
                match candidate.validate(&context.disk) {
                    Ok(()) => {},
                    Err(e) => {
                        return Err(
                            ProjectsError::InvalidCompiler {
                                index: e.index,
                                violation: e.violation,
                            },
                        );
                    },
                }
                compilers.overwrite(candidate);
                Ok(StateFile::Compilers)
            },
        }
    }
}

/// A change looks at the disk only through the paths it names: snapshots
/// that agree on them lead to the same state or the same failure.
pub proof fn lemma_change_looks_at_probed_paths(
    change: Change,
    data: ProjectsDataView,
    registry: RegistryView,
    members: Seq<Seq<char>>,
    a: DiskView,
    b: DiskView,
)
    requires
        disks_agree(a, b, change.probed(data, registry, members)),
    ensures
        change.applied(data, registry, a, members) == change.applied(data, registry, b, members),
{
    match change {
        Change::RefreshProject { project_id } => {
            if let Some(p) = data.project(project_id) {
                lemma_discovery_looks_at_probe_paths(p, a, b);
            }
        },
        Change::UpdateProject { project_id, data: patch } => {
            lemma_patch_looks_at_probe_paths(patch@, a, b);
        },
        Change::SetGroupProject { groupproj_path } => {
            let first = seq![groupproj_path@];
            lemma_disks_agree_on_parts(a, b, first, member_paths(members));
            assert(first[0] == groupproj_path@);
            lemma_filling_looks_at_member_paths(
                FillState {
                    id_counter: data.id_counter,
                    projects: data.projects,
                    links: Seq::empty(),
                },
                members,
                a,
                b,
            );
        },
        Change::AddCompiler { .. } | Change::RemoveCompiler { .. } | Change::UpdateCompiler {
            ..
        } => {
            lemma_registry_looks_at_probe_paths(change.registry_after(registry), a, b);
        },
        _ => {},
    }
}

/// Whatever a change leaves behind passes validation: a change of the model
/// leaves a model without a violation against the registry, and a change of
/// the compilers leaves a registry in which nothing is wrong with any entry.
pub proof fn lemma_changes_leave_valid_states(
    change: Change,
    data: ProjectsDataView,
    registry: RegistryView,
    members: Seq<Seq<char>>,
    disk: DiskView,
)
    requires
        change.applied(data, registry, disk, members) is Ok,
    ensures
        ({
            let state = change.applied(data, registry, disk, members)->Ok_0;
            &&& change.target_spec() == StateFile::Projects ==> state.data.valid(state.registry)
            &&& change.target_spec() == StateFile::Compilers ==> state.registry.valid(disk)
        }),
{
    let state = change.applied(data, registry, disk, members)->Ok_0;
    crate::laws::lemma_validate_iff_valid(state.data, state.registry);
    lemma_registry_violation(state.registry, disk);
}

/// Replaces the whole model by an incoming one, if that one is sound. An
/// incoming model with a violation is refused and nothing changes.
pub fn replace_projects_data(
    current: &mut ProjectsData,
    incoming: ProjectsData,
    compilers: &CompilerConfigurations,
) -> (r: Result<(), ProjectsError>)
    ensures
        match r {
            Ok(()) => incoming@.violation(compilers@) is None && *final(current) == incoming,
            Err(e) => incoming@.violation(compilers@) == Some(e) && *final(current) == *old(current),
        },
{
    match incoming.validate(compilers) {
        Ok(()) => {
            *current = incoming;
            Ok(())
        },
        Err(e) => Err(e),
    }
}

/// Replaces the whole registry by an incoming one, if every entry of that
/// one passes validation against what was seen on disk.
pub fn replace_compilers(
    current: &mut CompilerConfigurations,
    incoming: CompilerConfigurations,
    disk: &DiskSnapshot,
) -> (r: Result<(), RegistryError>)
    ensures
        match r {
            Ok(()) => incoming@.violation(disk@) is None && *final(current) == incoming,
            Err(e) => incoming@.violation(disk@) == Some(e) && *final(current) == *old(current),
        },
{
    match incoming.validate(disk) {
        Ok(()) => {
            current.overwrite(incoming);
            Ok(())
        },
        Err(e) => Err(e),
    }
}

} // verus!
