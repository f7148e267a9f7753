//! The group project: the one aggregate that mirrors a manifest of projects.

use vstd::prelude::*;
use crate::compiler_config::{CompilerConfiguration, CompilerConfigurations};
use crate::disk::{disks_agree, texts, DiskSnapshot, DiskView};
use crate::error::ProjectsError;
use crate::ids::position_of;
use crate::links::{append_link, appended, Named, ProjectLinkContainer};
use crate::paths::{file_stem_of, parent_of, path_file_stem, path_parent};
use crate::project::{Project, ProjectKind, ProjectLink, ProjectView};
use crate::projects_data::ProjectsData;
use crate::projects_model::project_descriptors;

verus! {

/// The group project: its name, the path of its manifest, the key of its
/// compiler, and its links in the order of the manifest.
#[derive(Debug, PartialEq, Eq)]
pub struct GroupProject {
    pub name: String,
    pub path: String,
    pub compiler_id: String,
    pub project_links: Vec<ProjectLink>,
}

/// A group project as a value.
pub struct GroupProjectView {
    pub name: Seq<char>,
    pub path: Seq<char>,
    pub compiler_id: Seq<char>,
    pub project_links: Seq<ProjectLink>,
}

impl View for GroupProject {
    type V = GroupProjectView;

    open spec fn view(&self) -> GroupProjectView {
        GroupProjectView {
            name: self.name@,
            path: self.path@,
            compiler_id: self.compiler_id@,
            project_links: self.project_links@,
        }
    }
}

impl Clone for GroupProject {
    fn clone(&self) -> (r: GroupProject)
        ensures
            r@ == self@,
    {
        GroupProject {
            name: self.name.clone(),
            path: self.path.clone(),
            compiler_id: self.compiler_id.clone(),
            project_links: self.project_links.clone(),
        }
    }
}

/// The view of an optional group project.
pub open spec fn group_view(g: Option<GroupProject>) -> Option<GroupProjectView> {
    match g {
        Some(g) => Some(g@),
        None => None,
    }
}

impl Named for GroupProject {
    open spec fn name_text(&self) -> Seq<char> {
        self.name@
    }

    fn get_name(&self) -> (r: &String) {
        &self.name
    }
}

impl ProjectLinkContainer for GroupProject {
    open spec fn links(&self) -> Seq<ProjectLink> {
        self.project_links@
    }

    open spec fn same_apart_from_links(&self, other: &Self) -> bool {
        &&& other.name == self.name
        &&& other.path == self.path
        &&& other.compiler_id == self.compiler_id
    }

    fn get_project_links(&self) -> (r: &Vec<ProjectLink>) {
        &self.project_links
    }

    fn get_project_links_mut(&mut self) -> (r: &mut Vec<ProjectLink>) {
        &mut self.project_links
    }
}

/// What filling a group project has made so far: the ids handed out, the
/// projects of the model, and the links of the group project.
pub struct FillState {
    pub id_counter: usize,
    pub projects: Seq<ProjectView>,
    pub links: Seq<ProjectLink>,
}

/// The project that a member of a manifest becomes: named after the
/// member's stem, placed in the member's parent directory, with the member
/// itself as its descriptor file. Where the directory was seen on disk, its
/// other files are derived from there.
pub open spec fn member_as_project(id: usize, member: Seq<char>, disk: DiskView) -> ProjectView {
    let project = ProjectView::imported(
        id,
        member,
        ProjectKind::Dproj,
        path_file_stem(member),
        path_parent(member),
    );
    if disk.is_dir(project.directory) {
        ProjectView { dproj: Some(member), ..project.discovered(disk) }
    } else {
        project
    }
}

/// Takes one member of the manifest into the group project. A member whose
/// descriptor file a project already has gets a link to that project, which
/// takes one id. Any other member becomes a new project and gets a link to
/// it, which takes two ids.
pub open spec fn fill_step(state: FillState, member: Seq<char>, disk: DiskView) -> FillState {
    match position_of(project_descriptors(state.projects), Some(member)) {
        Some(i) => FillState {
            id_counter: (state.id_counter + 1) as usize,
            links: appended(state.links, (state.id_counter + 1) as usize, state.projects[i].id),
            ..state
        },
        None => {
            let project_id = (state.id_counter + 1) as usize;
            FillState {
                id_counter: (state.id_counter + 2) as usize,
                projects: state.projects.push(member_as_project(project_id, member, disk)),
                links: appended(state.links, (state.id_counter + 2) as usize, project_id),
            }
        },
    }
}

/// Takes the members of the manifest into the group project, in order.
pub open spec fn filled(state: FillState, members: Seq<Seq<char>>, disk: DiskView) -> FillState
    decreases members.len(),
{
    if members.len() == 0 {
        state
    } else {
        fill_step(filled(state, members.drop_last(), disk), members.last(), disk)
    }
}

/// The project that a member of a manifest stands for, but for its id.
pub open spec fn member_project(member: Seq<char>) -> ProjectView {
    ProjectView::imported(
        0,
        member,
        ProjectKind::Dproj,
        path_file_stem(member),
        path_parent(member),
    )
}

/// The paths that filling a group project looks at, member by member.
pub open spec fn member_paths(members: Seq<Seq<char>>) -> Seq<Seq<char>>
    decreases members.len(),
{
    if members.len() == 0 {
        Seq::empty()
    } else {
        member_paths(members.drop_last()) + member_project(members.last()).probe_paths()
    }
}

/// Filling a group project looks at the disk only through the probe paths
/// of its members: snapshots that agree on them give the same result.
pub proof fn lemma_filling_looks_at_member_paths(
    state: FillState,
    members: Seq<Seq<char>>,
    a: DiskView,
    b: DiskView,
)
    requires
        disks_agree(a, b, member_paths(members)),
    ensures
        filled(state, members, a) == filled(state, members, b),
    decreases members.len(),
{
    if members.len() > 0 {
        crate::disk::lemma_disks_agree_on_parts(
            a,
            b,
            member_paths(members.drop_last()),
            member_project(members.last()).probe_paths(),
        );
        lemma_filling_looks_at_member_paths(state, members.drop_last(), a, b);
        let before = filled(state, members.drop_last(), a);
        let member = members.last();
        let project = ProjectView::imported(
            (before.id_counter + 1) as usize,
            member,
            ProjectKind::Dproj,
            path_file_stem(member),
            path_parent(member),
        );
        assert(project.probe_paths() =~= member_project(member).probe_paths());
        crate::project::lemma_discovery_looks_at_probe_paths(project, a, b);
    }
}

/// The paths that have to be looked at on disk before a group project is
/// filled with the members of a manifest.
pub fn member_probe_paths(members: &Vec<String>) -> (r: Vec<String>)
    ensures
        texts(r@) == member_paths(texts(members@)),
{
    let mut paths: Vec<String> = Vec::new();
    let mut i: usize = 0;
    while i < members.len()
        invariant
            i <= members@.len(),
            texts(paths@) == member_paths(texts(members@).take(i as int)),
        decreases members@.len() - i,
    {
        proof {
            assert(texts(members@).take(i + 1).drop_last() =~= texts(members@).take(i as int));
        }
        let member = &members[i];
        let project = Project::import(
            0,
            member,
            ProjectKind::Dproj,
            file_stem_of(member.as_str()),
            parent_of(member.as_str()),
        );
        crate::disk::append_texts(&mut paths, project.probe_paths());
        i += 1;
    }
    assert(texts(members@).take(i as int) =~= texts(members@));
    paths
}

/// Every member of the manifest gets one link, in the order of the
/// manifest, and every project that was there stays where it was.
pub proof fn lemma_filled_links_follow_members(
    state: FillState,
    members: Seq<Seq<char>>,
    disk: DiskView,
)
    ensures
        filled(state, members, disk).links.len() == state.links.len() + members.len(),
        state.projects.len() <= filled(state, members, disk).projects.len(),
        filled(state, members, disk).projects.take(state.projects.len() as int) == state.projects,
    decreases members.len(),
{
    if members.len() == 0 {
        assert(state.projects.take(state.projects.len() as int) =~= state.projects);
    } else {
        lemma_filled_links_follow_members(state, members.drop_last(), disk);
        let before = filled(state, members.drop_last(), disk);
        let after = fill_step(before, members.last(), disk);
        assert(after.projects.take(state.projects.len() as int) =~= before.projects.take(
            state.projects.len() as int,
        ));
    }
}

/// A new project that filling makes has the member as its descriptor file,
/// so that the same member is matched to it from then on.
pub proof fn lemma_member_keeps_its_descriptor(id: usize, member: Seq<char>, disk: DiskView)
    ensures
        member_as_project(id, member, disk).dproj == Some(member),
        member_as_project(id, member, disk).id == id,
{
}

impl GroupProject {
    /// The compiler of the group project: the one that the registry has
    /// under its key.
    pub fn compiler(&self, compilers: &CompilerConfigurations) -> (r: Option<
        CompilerConfiguration,
    >)
        ensures
            match r {
                Some(c) => compilers@.get(self.compiler_id@) == Some(c@),
                None => compilers@.get(self.compiler_id@) is None,
            },
    {
        match compilers.get(self.compiler_id.as_str()) {
            Some(c) => Some(c.clone()),
            None => None,
        }
    }

    /// Takes the members of a manifest into the group project: each member
    /// gets a link, and a new project where no project has its descriptor
    /// file yet.
    pub fn fill(
        &mut self,
        projects_data: &mut ProjectsData,
        members: &Vec<String>,
        disk: &DiskSnapshot,
    ) -> (r: Result<(), ProjectsError>)
        requires
            old(projects_data).has_room(2 * members@.len()),
        ensures
            r is Ok,
            old(self).same_apart_from_links(final(self)),
            final(projects_data).active_project_id == old(projects_data).active_project_id,
            final(projects_data).workspaces == old(projects_data).workspaces,
            final(projects_data).group_project == old(projects_data).group_project,
            final(projects_data).group_project_compiler_id == old(
                projects_data,
            ).group_project_compiler_id,
            filled(
                FillState {
                    id_counter: old(projects_data).id_counter,
                    projects: old(projects_data)@.projects,
                    links: old(self).project_links@,
                },
                texts(members@),
                disk@,
            ) == (FillState {
                id_counter: final(projects_data).id_counter,
                projects: final(projects_data)@.projects,
                links: final(self).project_links@,
            }),
    {
        let ghost start = FillState {
            id_counter: projects_data.id_counter,
            projects: projects_data@.projects,
            links: self.project_links@,
        };
        let ghost paths = texts(members@);
        let first_id: usize = projects_data.id_counter;
        let mut k: usize = 0;
        while k < members.len()
            invariant
                k <= members@.len(),
                paths == texts(members@),
                old(self).same_apart_from_links(self),
                first_id == start.id_counter,
                first_id + 2 * members@.len() <= usize::MAX,
                projects_data.id_counter <= first_id + 2 * k,
                projects_data.active_project_id == old(projects_data).active_project_id,
                projects_data.workspaces == old(projects_data).workspaces,
                projects_data.group_project == old(projects_data).group_project,
                projects_data.group_project_compiler_id == old(
                    projects_data,
                ).group_project_compiler_id,
                filled(start, paths.take(k as int), disk@) == (FillState {
                    id_counter: projects_data.id_counter,
                    projects: projects_data@.projects,
                    links: self.project_links@,
                }),
            decreases members@.len() - k,
        {
            let member = &members[k];
            proof {
                assert(paths.take(k + 1).drop_last() =~= paths.take(k as int));
                assert(paths.take(k + 1).last() == member@);
            }
            match projects_data.find_project_index_by_dproj(member) {
                Some(i) => {
                    let project_id: usize = projects_data.projects[i].id;
                    let id = projects_data.next_id();
                    append_link(&mut self.project_links, id, project_id);
                },
                None => {
                    let project_id: usize = projects_data.id_counter + 1;
                    let mut project = Project::import(
                        project_id,
                        member,
                        ProjectKind::Dproj,
                        file_stem_of(member.as_str()),
                        parent_of(member.as_str()),
                    );
                    match project.discover_paths(disk) {
                        Ok(()) => {
                            project.dproj = Some(member.clone());
                        },
                        Err(_) => {},
                    }
                    let ghost before = projects_data@.projects;
                    projects_data.projects.push(project);
                    assert(projects_data@.projects =~= before.push(project@));
                    projects_data.id_counter = project_id + 1;
                    append_link(&mut self.project_links, project_id + 1, project_id);
                },
            }
            k += 1;
        }
        assert(paths.take(k as int) =~= paths);
        Ok(())
    }
}

} // verus!
