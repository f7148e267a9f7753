//! Laws of the project model.

use vstd::prelude::*;
use crate::compiler_config::RegistryView;
use crate::id_map::{held_by_workspace, lemma_first_duplicate, IdObject};
use crate::ids::{lemma_no_repeats, lemma_position_of, position_of, repeats};
use crate::lexorank::MAX_RANK;
use crate::links::{
    drop_index, exported, lemma_respaced_strictly_ranked, link_ids, link_position, moved,
    strictly_ranked,
};
use crate::project::ProjectLink;
use crate::projects_model::{other_projects, project_ids, workspace_ids, ProjectsDataView};
use crate::validation::workspace_names;

verus! {

/// A list of ids with one id moved to its drop target: before the id named
/// as drop target, or to the end where none is named.
pub open spec fn reordered(ids: Seq<usize>, id: usize, drop_id: Option<usize>) -> Option<
    Seq<usize>,
> {
    if drop_id matches Some(d) && !ids.contains(d) {
        None
    } else {
        match position_of(ids, id) {
            None => None,
            Some(p) => {
                let rest = ids.remove(p);
                match drop_id {
                    Some(d) => match position_of(rest, d) {
                        Some(t) => Some(rest.insert(t, id)),
                        None => None,
                    },
                    None => Some(rest.push(id)),
                }
            },
        }
    }
}

/// The links after a sequence of moves, each given by the id of the link
/// and its drop target. A move that fails changes nothing.
pub open spec fn moved_all(links: Seq<ProjectLink>, moves: Seq<(usize, Option<usize>)>) -> Seq<
    ProjectLink,
>
    decreases moves.len(),
{
    if moves.len() == 0 {
        links
    } else {
        let before = moved_all(links, moves.drop_last());
        match moved(before, moves.last().0, moves.last().1) {
            Ok(after) => after,
            Err(_) => before,
        }
    }
}

/// The ids after a sequence of moves on bare ids.
pub open spec fn reordered_all(ids: Seq<usize>, moves: Seq<(usize, Option<usize>)>) -> Seq<usize>
    decreases moves.len(),
{
    if moves.len() == 0 {
        ids
    } else {
        let before = reordered_all(ids, moves.drop_last());
        match reordered(before, moves.last().0, moves.last().1) {
            Some(after) => after,
            None => before,
        }
    }
}

/// A move of a link succeeds exactly where the same move on the bare ids
/// does, and puts the ids in the same order: the ranks have no say in where
/// a link goes. After a move that succeeds the ranks grow strictly along
/// the list.
pub proof fn lemma_move_orders_by_id(
    links: Seq<ProjectLink>,
    id: usize,
    drop_link_id: Option<usize>,
)
    requires
        links.len() <= MAX_RANK,
    ensures
        match moved(links, id, drop_link_id) {
            Ok(after) => reordered(link_ids(links), id, drop_link_id) == Some(link_ids(after))
                && strictly_ranked(after) && after.len() == links.len(),
            Err(_) => reordered(link_ids(links), id, drop_link_id) is None,
        },
{
    let ids = link_ids(links);
    lemma_position_of(ids, id);
    if let Some(d) = drop_link_id {
        lemma_position_of(ids, d);
    }
    if drop_index(links, drop_link_id) is Some {
        if let Some(p) = link_position(links, id) {
            let rest = links.remove(p);
            assert(link_ids(rest) =~= ids.remove(p));
            if let Some(t) = drop_index(rest, drop_link_id) {
                if let Some(d) = drop_link_id {
                    lemma_position_of(link_ids(rest), d);
                }
                let placed = rest.insert(t, links[p]);
                lemma_respaced_strictly_ranked(placed);
                assert(ids.remove(p).push(id) =~= ids.remove(p).insert(
                    ids.remove(p).len() as int,
                    id,
                ));
            }
        }
    }
}

/// Along any sequence of moves within one container, the order of the
/// links is the order that the same moves give on the bare ids, and ranks
/// that grow strictly along the list keep doing so: no two siblings ever
/// rank equal.
pub proof fn lemma_moves_keep_order_and_ranks(
    links: Seq<ProjectLink>,
    moves: Seq<(usize, Option<usize>)>,
)
    requires
        links.len() <= MAX_RANK,
        strictly_ranked(links),
    ensures
        link_ids(moved_all(links, moves)) == reordered_all(link_ids(links), moves),
        strictly_ranked(moved_all(links, moves)),
        moved_all(links, moves).len() == links.len(),
    decreases moves.len(),
{
    if moves.len() > 0 {
        lemma_moves_keep_order_and_ranks(links, moves.drop_last());
        let before = moved_all(links, moves.drop_last());
        lemma_move_orders_by_id(before, moves.last().0, moves.last().1);
    }
}

impl ProjectsDataView {
    /// The links of the container that receives a moved link: those of the
    /// workspace that the drop target is or is held by, where the link comes
    /// from a workspace, else those of the group project.
    pub open spec fn receiving_links(self, before: Self, link_id: usize, drop_target: usize) -> Seq<
        ProjectLink,
    > {
        match before.link_workspace(link_id) {
            Some(_) => self.workspaces[before.drop_workspace(
                before.id_kind(drop_target)->0,
                drop_target,
            )->0].project_links,
            None => self.group_links(),
        }
    }

    /// No list of links is so long that its links could not all rank
    /// differently.
    pub open spec fn lists_fit_the_ranks(self) -> bool {
        &&& self.group_links().len() < MAX_RANK
        &&& forall|i: int|
            0 <= i < self.workspaces.len() ==> (
            #[trigger] self.workspaces[i]).project_links.len() < MAX_RANK
    }
}

/// After every move of a link that succeeds, the ranks grow strictly along
/// the links of the container that received the link: no two siblings rank
/// equal.
pub proof fn lemma_move_project_link_ranks_strictly(
    data: ProjectsDataView,
    link_id: usize,
    drop_target: usize,
)
    requires
        data.lists_fit_the_ranks(),
        data.move_project_link(link_id, drop_target) is Ok,
    ensures
        strictly_ranked(
            data.move_project_link(link_id, drop_target)->Ok_0.receiving_links(
                data,
                link_id,
                drop_target,
            ),
        ),
{
    let kind = data.id_kind(drop_target)->0;
    let drop_link_id = ProjectsDataView::drop_link(kind, drop_target);
    lemma_link_workspace(data, link_id);
    lemma_link_workspace(data, drop_target);
    lemma_position_of(workspace_ids(data.workspaces), drop_target);
    match (data.link_workspace(link_id), data.drop_workspace(kind, drop_target)) {
        (Some(s), Some(t)) => {
            if s == t {
                lemma_move_orders_by_id(data.workspaces[s].project_links, link_id, drop_link_id);
            } else {
                let link = exported(data.workspaces[s].project_links, link_id)->Ok_0.0;
                let target = data.workspaces[t].project_links;
                let place = drop_index(target, drop_link_id)->0;
                if let Some(d) = drop_link_id {
                    lemma_position_of(link_ids(target), d);
                }
                lemma_respaced_strictly_ranked(target.insert(place, link));
            }
        },
        (None, None) => {
            lemma_move_orders_by_id(data.group_links(), link_id, drop_link_id);
        },
        _ => {},
    }
}

impl ProjectsDataView {
    /// The project that the link with the given id refers to: the link that
    /// `remove_project_link` takes out.
    pub open spec fn link_target(self, link_id: usize) -> Option<usize> {
        match self.link_workspace(link_id) {
            Some(w) => {
                let links = self.workspaces[w].project_links;
                Some(links[link_position(links, link_id)->0].project_id)
            },
            None => if self.link_in_group(link_id) {
                let links = self.group_links();
                Some(links[link_position(links, link_id)->0].project_id)
            } else {
                None
            },
        }
    }
}

/// Removing a link removes the project it referred to exactly when no other
/// link refers to that project: with the last link the project leaves the
/// flat list of projects, and as long as another link is left the list
/// stays as it is. No other project is ever removed.
pub proof fn lemma_remove_link_prunes_project(data: ProjectsDataView, link_id: usize)
    requires
        data.link_target(link_id) is Some,
    ensures
        ({
            let after = data.remove_project_link(link_id);
            let project_id = data.link_target(link_id)->0;
            &&& after.can_find_any_links(project_id) ==> after.projects == data.projects
            &&& !after.can_find_any_links(project_id) ==> !project_ids(after.projects).contains(
                project_id,
            )
            &&& forall|i: int|
                0 <= i < data.projects.len() && (#[trigger] data.projects[i]).id != project_id
                    ==> after.projects.contains(data.projects[i])
        }),
{
    let after = data.remove_project_link(link_id);
    let project_id = data.link_target(link_id)->0;
    data.projects.filter_lemma(other_projects(project_id));
    assert forall|i: int|
        0 <= i < data.projects.len() && (#[trigger] data.projects[i]).id
            != project_id implies after.projects.contains(data.projects[i]) by {
    }
}

/// A link is held by a workspace exactly where a first workspace holds it.
pub proof fn lemma_link_workspace(data: ProjectsDataView, link_id: usize)
    ensures
        data.link_workspace(link_id) is Some <==> held_by_workspace(data.workspaces, link_id),
        data.link_workspace(link_id) matches Some(w) ==> 0 <= w < data.workspaces.len()
            && link_ids(data.workspaces[w].project_links).contains(link_id),
{
    let holders = data.holders(link_id);
    lemma_position_of(holders, true);
    if held_by_workspace(data.workspaces, link_id) {
        let i = choose|i: int|
            0 <= i < data.workspaces.len() && link_ids(
                (#[trigger] data.workspaces[i]).project_links,
            ).contains(link_id);
        assert(holders[i]);
    }
}

/// A link of the group project does not move into a workspace: dropping it
/// on a workspace, or on a link that a workspace holds, always fails.
pub proof fn lemma_group_link_stays_in_group(
    data: ProjectsDataView,
    link_id: usize,
    drop_target: usize,
)
    requires
        data.link_in_group(link_id),
        data.link_workspace(link_id) is None,
        workspace_ids(data.workspaces).contains(drop_target) || data.link_workspace(drop_target)
            is Some,
    ensures
        data.move_project_link(link_id, drop_target) is Err,
{
    if data.duplicate_id() is None {
        lemma_link_workspace(data, drop_target);
        lemma_position_of(workspace_ids(data.workspaces), drop_target);
        data.lemma_id_kind(drop_target, IdObject::Workspace);
        data.lemma_id_kind(drop_target, IdObject::ProjectLink);
        data.lemma_id_kind(drop_target, IdObject::Project);
    }
}

/// A link of a workspace does not move into the group project: dropping it
/// on a link that only the group project holds always fails.
pub proof fn lemma_workspace_link_stays_out_of_group(
    data: ProjectsDataView,
    link_id: usize,
    drop_target: usize,
)
    requires
        data.link_workspace(link_id) is Some,
        data.link_in_group(drop_target),
        data.link_workspace(drop_target) is None,
    ensures
        data.move_project_link(link_id, drop_target) is Err,
{
    if data.duplicate_id() is None {
        lemma_link_workspace(data, drop_target);
        data.lemma_id_kind(drop_target, IdObject::Workspace);
        data.lemma_id_kind(drop_target, IdObject::ProjectLink);
        data.lemma_id_kind(drop_target, IdObject::Project);
    }
}

/// Where no id is used twice, an id is that of a project exactly where a
/// project of the model has it.
pub proof fn lemma_names_project(data: ProjectsDataView, id: usize)
    requires
        data.duplicate_id() is None,
    ensures
        data.names_project(id) <==> project_ids(data.projects).contains(id),
{
    data.lemma_id_kind(id, IdObject::Project);
}

/// Where no id is used twice, no link of the list dangles exactly where
/// every link refers to a project.
pub proof fn lemma_dangling(data: ProjectsDataView, links: Seq<ProjectLink>)
    requires
        data.duplicate_id() is None,
    ensures
        !data.dangling(links).contains(true) <==> data.resolves(links),
{
    let flags = data.dangling(links);
    if !flags.contains(true) {
        assert forall|j: int| 0 <= j < links.len() implies project_ids(data.projects).contains(
            (#[trigger] links[j]).project_id,
        ) by {
            lemma_names_project(data, links[j].project_id);
            assert(!flags[j]);
        }
    }
    if data.resolves(links) {
        if flags.contains(true) {
            let j = choose|j: int| 0 <= j < flags.len() && flags[j] == true;
            lemma_names_project(data, links[j].project_id);
        }
    }
}

/// Validation passes exactly on the models that are sound: all ids are
/// unique, all link targets and the active id resolve, all workspace names
/// are unique and not empty, and all compiler keys in use exist in the
/// registry.
pub proof fn lemma_validate_iff_valid(data: ProjectsDataView, registry: RegistryView)
    ensures
        data.violation(registry) is None <==> data.valid(registry),
{
    // compiler keys
    let missing = data.missing_compilers(registry);
    lemma_position_of(missing, true);
    assert(!missing.contains(true) <==> (forall|i: int|
        0 <= i < data.workspaces.len() ==> registry.contains_key(
            (#[trigger] data.workspaces[i]).compiler_id,
        ))) by {
        if !missing.contains(true) {
            assert forall|i: int| 0 <= i < data.workspaces.len() implies registry.contains_key(
                (#[trigger] data.workspaces[i]).compiler_id,
            ) by {
                assert(!missing[i]);
            }
        }
    }
    // ids
    lemma_first_duplicate(data.ids());
    // names
    let names = workspace_names(data.workspaces);
    let bad = data.bad_names();
    lemma_position_of(bad, true);
    lemma_no_repeats(names);
    assert(!bad.contains(true) <==> (names.no_duplicates() && forall|i: int|
        0 <= i < data.workspaces.len() ==> (#[trigger] data.workspaces[i]).name.len() > 0)) by {
        if !bad.contains(true) {
            assert forall|i: int| 0 <= i < data.workspaces.len() implies (#[trigger] data.workspaces[i]).name.len() > 0 by {
                assert(!bad[i]);
            }
            if repeats(names).contains(true) {
                let j = choose|j: int| 0 <= j < repeats(names).len() && repeats(names)[j] == true;
                assert(bad[j]);
            }
        }
    }
    // references
    if data.duplicate_id() is None {
        if let Some(a) = data.active_project_id {
            lemma_names_project(data, a);
        }
        lemma_dangling(data, data.group_links());
        lemma_position_of(data.dangling(data.group_links()), true);
        let flags = data.dangling_workspaces();
        lemma_position_of(flags, true);
        assert(!flags.contains(true) <==> (forall|i: int|
            0 <= i < data.workspaces.len() ==> data.resolves(
                (#[trigger] data.workspaces[i]).project_links,
            ))) by {
            if !flags.contains(true) {
                assert forall|i: int| 0 <= i < data.workspaces.len() implies data.resolves(
                    (#[trigger] data.workspaces[i]).project_links,
                ) by {
                    assert(!flags[i]);
                    lemma_dangling(data, data.workspaces[i].project_links);
                }
            } else {
                let i = choose|i: int| 0 <= i < flags.len() && flags[i] == true;
                lemma_dangling(data, data.workspaces[i].project_links);
            }
        }
    }
}

} // verus!
