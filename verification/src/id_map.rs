//! The ids of a model: which thing each id names, and whether any id is
//! used twice.

use std::collections::HashMap;
use vstd::prelude::*;
use crate::error::ProjectsError;
use crate::ids::{lemma_position_found, lemma_position_of, position_of, repeats};
use crate::links::link_ids;
use crate::project::{ProjectLink, ProjectView};
use crate::projects_data::ProjectsData;
use crate::projects_model::{project_ids, workspace_ids, ProjectsDataView};
use crate::workspace::WorkspaceView;

verus! {

broadcast use vstd::std_specs::hash::group_hash_axioms;

/// The kinds of thing that have an id.
#[derive(Clone, Copy, Debug, PartialEq, Eq, Structural)]
pub enum IdObject {
    Workspace,
    Project,
    ProjectLink,
}

/// An id and the kind of thing that has it.
#[derive(Clone, Copy, Debug, PartialEq, Eq, Structural)]
pub struct IdEntry {
    pub id: usize,
    pub kind: IdObject,
}

/// The ids of a list of entries, in order.
pub open spec fn entry_ids(entries: Seq<IdEntry>) -> Seq<usize> {
    entries.map_values(|e: IdEntry| e.id)
}

/// The entries of a list of links.
pub open spec fn link_entries(links: Seq<ProjectLink>) -> Seq<IdEntry> {
    links.map_values(|l: ProjectLink| IdEntry { id: l.id, kind: IdObject::ProjectLink })
}

/// The entries of a list of projects.
pub open spec fn project_entries(projects: Seq<ProjectView>) -> Seq<IdEntry> {
    projects.map_values(|p: ProjectView| IdEntry { id: p.id, kind: IdObject::Project })
}

/// The entries of one workspace: the workspace, then its links.
pub open spec fn workspace_entries(workspace: WorkspaceView) -> Seq<IdEntry> {
    seq![IdEntry { id: workspace.id, kind: IdObject::Workspace }] + link_entries(
        workspace.project_links,
    )
}

/// The entries of a list of workspaces, workspace by workspace.
pub open spec fn workspaces_entries(workspaces: Seq<WorkspaceView>) -> Seq<IdEntry>
    decreases workspaces.len(),
{
    if workspaces.len() == 0 {
        Seq::empty()
    } else {
        workspaces_entries(workspaces.drop_last()) + workspace_entries(workspaces.last())
    }
}

/// The first place whose id stands at an earlier place too.
pub open spec fn first_duplicate(ids: Seq<usize>) -> Option<int> {
    position_of(repeats(ids), true)
}

/// The map from each id to the kind of the first entry that has it.
pub open spec fn id_map(entries: Seq<IdEntry>) -> Map<usize, IdObject> {
    Map::new(
        |id: usize| entry_ids(entries).contains(id),
        |id: usize| entries[position_of(entry_ids(entries), id)->0].kind,
    )
}

/// No id repeats exactly where no two places hold the same id.
pub proof fn lemma_first_duplicate(ids: Seq<usize>)
    ensures
        first_duplicate(ids) is None <==> ids.no_duplicates(),
        first_duplicate(ids) matches Some(j) ==> 0 <= j < ids.len() && ids.take(j).contains(
            ids[j],
        ) && ids.take(j).no_duplicates(),
{
    let flags = repeats(ids);
    lemma_position_of(flags, true);
    match first_duplicate(ids) {
        Some(j) => {
            assert forall|a: int, b: int|
                0 <= a < j && 0 <= b < j && a != b implies ids.take(j)[a] != ids.take(j)[b] by {
                if ids[a] == ids[b] {
                    if a < b {
                        assert(ids.take(b)[a] == ids[b]);
                        assert(flags[b]);
                    } else {
                        assert(ids.take(a)[b] == ids[a]);
                        assert(flags[a]);
                    }
                }
            }
        },
        None => {
            assert forall|a: int, b: int|
                0 <= a < ids.len() && 0 <= b < ids.len() && a != b implies ids[a] != ids[b] by {
                if ids[a] == ids[b] {
                    if a < b {
                        assert(ids.take(b)[a] == ids[b]);
                        assert(flags[b]);
                    } else {
                        assert(ids.take(a)[b] == ids[a]);
                        assert(flags[a]);
                    }
                }
            }
        },
    }
}

impl ProjectsDataView {
    /// Every id of the model with the kind of thing that has it: workspace
    /// by workspace, then the links of the group project, then the projects.
    pub open spec fn id_entries(self) -> Seq<IdEntry> {
        workspaces_entries(self.workspaces) + link_entries(self.group_links()) + project_entries(
            self.projects,
        )
    }

    /// Every id of the model, in the order of `id_entries`.
    pub open spec fn ids(self) -> Seq<usize> {
        entry_ids(self.id_entries())
    }

    /// The first id that is used twice, if any is.
    pub open spec fn duplicate_id(self) -> Option<usize> {
        match first_duplicate(self.ids()) {
            Some(j) => Some(self.ids()[j]),
            None => None,
        }
    }

    /// The kind of thing that has the id.
    pub open spec fn id_kind(self, id: usize) -> Option<IdObject> {
        if id_map(self.id_entries()).contains_key(id) {
            Some(id_map(self.id_entries())[id])
        } else {
            None
        }
    }
}

/// Whether a workspace of the list holds a link with the id.
pub open spec fn held_by_workspace(workspaces: Seq<WorkspaceView>, id: usize) -> bool {
    exists|i: int|
        0 <= i < workspaces.len() && link_ids((#[trigger] workspaces[i]).project_links).contains(
            id,
        )
}

/// What it takes for an entry to stand among those of the workspaces.
pub open spec fn in_workspaces(workspaces: Seq<WorkspaceView>, e: IdEntry) -> bool {
    ||| e.kind == IdObject::Workspace && workspace_ids(workspaces).contains(e.id)
    ||| e.kind == IdObject::ProjectLink && held_by_workspace(workspaces, e.id)
}

impl ProjectsDataView {
    /// What it takes for an entry to stand among those of the model.
    pub open spec fn has_entry(self, e: IdEntry) -> bool {
        ||| in_workspaces(self.workspaces, e)
        ||| e.kind == IdObject::ProjectLink && link_ids(self.group_links()).contains(e.id)
        ||| e.kind == IdObject::Project && project_ids(self.projects).contains(e.id)
    }
}

/// A value stands in a concatenation where it stands in one of the parts.
pub proof fn lemma_concat_contains<T>(a: Seq<T>, b: Seq<T>, x: T)
    ensures
        (a + b).contains(x) <==> a.contains(x) || b.contains(x),
{
    if a.contains(x) {
        let i = choose|i: int| 0 <= i < a.len() && a[i] == x;
        assert((a + b)[i] == x);
    }
    if b.contains(x) {
        let i = choose|i: int| 0 <= i < b.len() && b[i] == x;
        assert((a + b)[a.len() + i] == x);
    }
}

/// The entries of a list of links are the ids of the links, as links.
pub proof fn lemma_link_entries(links: Seq<ProjectLink>, e: IdEntry)
    ensures
        link_entries(links).contains(e) <==> e.kind == IdObject::ProjectLink && link_ids(
            links,
        ).contains(e.id),
{
    let entries = link_entries(links);
    if entries.contains(e) {
        let i = choose|i: int| 0 <= i < entries.len() && entries[i] == e;
        assert(link_ids(links)[i] == e.id);
    }
    if e.kind == IdObject::ProjectLink && link_ids(links).contains(e.id) {
        let i = choose|i: int| 0 <= i < link_ids(links).len() && link_ids(links)[i] == e.id;
        assert(entries[i] == e);
    }
}

/// The entries of a list of projects are the ids of the projects, as
/// projects.
pub proof fn lemma_project_entries(projects: Seq<ProjectView>, e: IdEntry)
    ensures
        project_entries(projects).contains(e) <==> e.kind == IdObject::Project && project_ids(
            projects,
        ).contains(e.id),
{
    let entries = project_entries(projects);
    if entries.contains(e) {
        let i = choose|i: int| 0 <= i < entries.len() && entries[i] == e;
        assert(project_ids(projects)[i] == e.id);
    }
    if e.kind == IdObject::Project && project_ids(projects).contains(e.id) {
        let i = choose|i: int|
            0 <= i < project_ids(projects).len() && project_ids(projects)[i] == e.id;
        assert(entries[i] == e);
    }
}

/// The entries of a list of workspaces are the ids of the workspaces, as
/// workspaces, and the ids of their links, as links.
pub proof fn lemma_workspaces_entries(workspaces: Seq<WorkspaceView>, e: IdEntry)
    ensures
        workspaces_entries(workspaces).contains(e) <==> in_workspaces(workspaces, e),
    decreases workspaces.len(),
{
    if workspaces.len() > 0 {
        let init = workspaces.drop_last();
        let last = workspaces.last();
        let n = init.len() as int;
        lemma_workspaces_entries(init, e);
        let first = seq![IdEntry { id: last.id, kind: IdObject::Workspace }];
        lemma_concat_contains(workspaces_entries(init), workspace_entries(last), e);
        lemma_concat_contains(first, link_entries(last.project_links), e);
        lemma_link_entries(last.project_links, e);
        assert(first.contains(e) <==> e == first[0]);
        assert(workspace_ids(workspaces).contains(e.id) <==> workspace_ids(init).contains(e.id)
            || last.id == e.id) by {
            let ids = workspace_ids(workspaces);
            if workspace_ids(init).contains(e.id) {
                let i = choose|i: int|
                    0 <= i < workspace_ids(init).len() && workspace_ids(init)[i] == e.id;
                assert(ids[i] == e.id);
            }
            if last.id == e.id {
                assert(ids[n] == e.id);
            }
            if ids.contains(e.id) {
                let i = choose|i: int| 0 <= i < ids.len() && ids[i] == e.id;
                if i < n {
                    assert(workspace_ids(init)[i] == e.id);
                }
            }
        }
        assert(held_by_workspace(workspaces, e.id) <==> held_by_workspace(init, e.id) || link_ids(
            last.project_links,
        ).contains(e.id)) by {
            if held_by_workspace(workspaces, e.id) {
                let i = choose|i: int|
                    0 <= i < workspaces.len() && link_ids(
                        (#[trigger] workspaces[i]).project_links,
                    ).contains(e.id);
                if i < n {
                    assert(init[i] == workspaces[i]);
                }
            }
        }
    }
}

impl ProjectsDataView {
    /// The entries of the model are the ids of its workspaces, links and
    /// projects, each with its kind.
    pub proof fn lemma_id_entries(self, e: IdEntry)
        ensures
            self.id_entries().contains(e) <==> self.has_entry(e),
    {
        let w = workspaces_entries(self.workspaces);
        let g = link_entries(self.group_links());
        let p = project_entries(self.projects);
        lemma_concat_contains(w + g, p, e);
        lemma_concat_contains(w, g, e);
        lemma_workspaces_entries(self.workspaces, e);
        lemma_link_entries(self.group_links(), e);
        lemma_project_entries(self.projects, e);
    }

    /// Where no id is used twice, the kind of an id is the kind of the one
    /// entry that has it.
    pub proof fn lemma_id_kind(self, id: usize, kind: IdObject)
        requires
            self.duplicate_id() is None,
        ensures
            self.id_kind(id) == Some(kind) <==> self.has_entry(IdEntry { id, kind }),
            self.id_kind(id) is Some <==> self.ids().contains(id),
    {
        let entries = self.id_entries();
        let ids = self.ids();
        let e = IdEntry { id, kind };
        self.lemma_id_entries(e);
        lemma_first_duplicate(ids);
        lemma_position_of(ids, id);
        if entries.contains(e) {
            let i = choose|i: int| 0 <= i < entries.len() && entries[i] == e;
            assert(ids[i] == id);
        }
    }
}

fn push_link_entries(out: &mut Vec<IdEntry>, links: &Vec<ProjectLink>)
    ensures
        final(out)@ == old(out)@ + link_entries(links@),
{
    let mut j: usize = 0;
    while j < links.len()
        invariant
            j <= links@.len(),
            out@ == old(out)@ + link_entries(links@.take(j as int)),
        decreases links@.len() - j,
    {
        out.push(IdEntry { id: links[j].id, kind: IdObject::ProjectLink });
        j += 1;
    }
}

impl ProjectsData {
    /// Lists every id of the model with the kind of thing that has it.
    pub fn collect_id_entries(&self) -> (r: Vec<IdEntry>)
        ensures
            r@ == self@.id_entries(),
    {
        let mut out: Vec<IdEntry> = Vec::new();
        let mut i: usize = 0;
        while i < self.workspaces.len()
            invariant
                i <= self.workspaces@.len(),
                out@ == workspaces_entries(self@.workspaces.take(i as int)),
            decreases self.workspaces@.len() - i,
        {
            out.push(IdEntry { id: self.workspaces[i].id, kind: IdObject::Workspace });
            push_link_entries(&mut out, &self.workspaces[i].project_links);
            proof {
                let next = self@.workspaces.take(i + 1);
                assert(next.drop_last() =~= self@.workspaces.take(i as int));
            }
            i += 1;
        }
        assert(self@.workspaces.take(i as int) =~= self@.workspaces);
        match &self.group_project {
            Some(group_project) => {
                push_link_entries(&mut out, &group_project.project_links);
            },
            None => {
            },
        }
        let ghost before = out@;
        let mut k: usize = 0;
        while k < self.projects.len()
            invariant
                k <= self.projects@.len(),
                out@ == before + project_entries(self@.projects.take(k as int)),
            decreases self.projects@.len() - k,
        {
            out.push(IdEntry { id: self.projects[k].id, kind: IdObject::Project });
            proof {
                assert(self@.projects.take(k + 1) =~= self@.projects.take(k as int).push(
                    self@.projects[k as int],
                ));
            }
            k += 1;
        }
        out
    }

    /// Maps every id of the model to the kind of thing that has it. Fails on
    /// the first id that is used twice.
    pub fn get_id_map(&self) -> (r: Result<HashMap<usize, IdObject>, ProjectsError>)
        ensures
            match r {
                Ok(m) => self@.duplicate_id() is None && m@ == id_map(self@.id_entries()),
                Err(e) => self@.duplicate_id() matches Some(id) && e == (
                ProjectsError::DuplicateId { id }),
            },
    {
        let entries = self.collect_id_entries();
        let ghost ids = entry_ids(entries@);
        let mut map: HashMap<usize, IdObject> = HashMap::new();
        let mut i: usize = 0;
        while i < entries.len()
            invariant
                i <= entries@.len(),
                entries@ == self@.id_entries(),
                ids == entry_ids(entries@),
                forall|k: int| 0 <= k < i ==> !(#[trigger] repeats(ids)[k]),
                forall|id: usize| #[trigger] map@.contains_key(id) <==> ids.take(i as int).contains(id),
                forall|k: int| 0 <= k < i ==> map@[#[trigger] ids[k]] == entries@[k].kind,
            decreases entries@.len() - i,
        {
            let entry = entries[i];
            if map.contains_key(&entry.id) {
                proof {
                    lemma_position_found(repeats(ids), true, i as int);
                }
                return Err(ProjectsError::DuplicateId { id: entry.id });
            }
            map.insert(entry.id, entry.kind);
            proof {
                assert forall|id: usize| #[trigger]
                    map@.contains_key(id) <==> ids.take(i + 1).contains(id) by {
                    if id == entry.id {
                        assert(ids.take(i + 1)[i as int] == id);
                    }
                }
                assert forall|k: int| 0 <= k < i + 1 implies map@[#[trigger] ids[k]]
                    == entries@[k].kind by {
                    if k < i {
                        assert(ids.take(i as int)[k] == ids[k]);
                    }
                }
            }
            i += 1;
        }
        proof {
            assert(ids.take(i as int) =~= ids);
            lemma_position_of(repeats(ids), true);
            lemma_first_duplicate(ids);
            assert forall|id: usize| map@.contains_key(id) implies map@[id] == id_map(
                entries@,
            )[id] by {
                lemma_position_of(ids, id);
            }
        }
        Ok(map)
    }
}

} // verus!
