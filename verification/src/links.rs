//! Ordered lists of project links, and the containers that own them.

use vstd::prelude::*;
use crate::error::ProjectsError;
use crate::ids::{as_position, lemma_position_found, lemma_position_of, position_of};
use crate::lexorank::{
    lemma_respaced_ranks_rise, ranks_rise, respaced, HasLexoRank, LexoRank, MAX_RANK,
};
use crate::project::ProjectLink;
use crate::seqs::{keep_flagged, lemma_kept_is_filter};

verus! {

/// The ids of the links, in order.
pub open spec fn link_ids(links: Seq<ProjectLink>) -> Seq<usize> {
    links.map_values(|l: ProjectLink| l.id)
}

/// The ids of the projects that the links refer to, in order.
pub open spec fn link_targets(links: Seq<ProjectLink>) -> Seq<usize> {
    links.map_values(|l: ProjectLink| l.project_id)
}

/// The links that refer to another project than `project_id`.
pub open spec fn other_targets(project_id: usize) -> spec_fn(ProjectLink) -> bool {
    |l: ProjectLink| l.project_id != project_id
}

/// Where the link with the given id stands.
pub open spec fn link_position(links: Seq<ProjectLink>, id: usize) -> Option<int> {
    position_of(link_ids(links), id)
}

/// No two links rank equal, and the ranks grow along the list.
pub open spec fn strictly_ranked(links: Seq<ProjectLink>) -> bool {
    ranks_rise(links)
}

/// The rank after which a new link is appended.
pub open spec fn last_rank(links: Seq<ProjectLink>) -> LexoRank {
    if links.len() > 0 {
        links.last().sort_rank
    } else {
        LexoRank::default_spec()
    }
}

/// The list with a new link at its end. The link ranks after the last one;
/// where no greater rank is left, the whole list is rebalanced.
pub open spec fn appended(links: Seq<ProjectLink>, id: usize, project_id: usize) -> Seq<
    ProjectLink,
> {
    let last = last_rank(links);
    if last.has_next_spec() {
        links.push(ProjectLink { id, project_id, sort_rank: last.next_spec() })
    } else {
        respaced(links.push(ProjectLink { id, project_id, sort_rank: last }))
    }
}

/// Where a link is dropped: before the link named as drop target, or at the
/// end where none is named.
pub open spec fn drop_index(links: Seq<ProjectLink>, drop_link_id: Option<usize>) -> Option<int> {
    match drop_link_id {
        Some(d) => link_position(links, d),
        None => Some(links.len() as int),
    }
}

/// The list without the link of the given id, and that link.
pub open spec fn exported(links: Seq<ProjectLink>, id: usize) -> Result<
    (ProjectLink, Seq<ProjectLink>),
    ProjectsError,
> {
    match link_position(links, id) {
        Some(p) => Ok((links[p], links.remove(p))),
        None => Err(ProjectsError::ProjectLinkNotFound { id }),
    }
}

/// The list with `link` dropped at its target, rebalanced.
pub open spec fn imported(
    links: Seq<ProjectLink>,
    link: ProjectLink,
    drop_link_id: Option<usize>,
) -> Result<Seq<ProjectLink>, ProjectsError> {
    match drop_index(links, drop_link_id) {
        Some(t) => Ok(respaced(links.insert(t, link))),
        None => Err(ProjectsError::DropTargetNotFound { id: drop_link_id->0 }),
    }
}

/// The list with one link moved to its drop target. The drop target has to
/// stand in the list, and still stand there once the link is taken out.
pub open spec fn moved(
    links: Seq<ProjectLink>,
    id: usize,
    drop_link_id: Option<usize>,
) -> Result<Seq<ProjectLink>, ProjectsError> {
    if drop_index(links, drop_link_id) is None {
        Err(ProjectsError::DropTargetNotFound { id: drop_link_id->0 })
    } else {
        match exported(links, id) {
            Ok((link, rest)) => imported(rest, link, drop_link_id),
            Err(e) => Err(e),
        }
    }
}

/// A rebalanced list is strictly ranked, and holds the same links in the
/// same order.
pub proof fn lemma_respaced_strictly_ranked(links: Seq<ProjectLink>)
    requires
        links.len() <= MAX_RANK,
    ensures
        strictly_ranked(respaced(links)),
        link_ids(respaced(links)) == link_ids(links),
        link_targets(respaced(links)) == link_targets(links),
{
    lemma_respaced_ranks_rise(links);
    assert(link_ids(respaced(links)) =~= link_ids(links));
    assert(link_targets(respaced(links)) =~= link_targets(links));
}

/// A new link goes to the end of the list, behind the links that were
/// there, which keep their order. Where a greater rank is left it ranks
/// strictly after the last link and no other link changes; and a list whose
/// ranks grow strictly keeps them growing strictly.
pub proof fn lemma_appended_ranks_after_the_last(
    links: Seq<ProjectLink>,
    id: usize,
    project_id: usize,
)
    requires
        links.len() < MAX_RANK,
    ensures
        appended(links, id, project_id).len() == links.len() + 1,
        appended(links, id, project_id).last().id == id,
        appended(links, id, project_id).last().project_id == project_id,
        link_ids(appended(links, id, project_id)) == link_ids(links).push(id),
        link_targets(appended(links, id, project_id)) == link_targets(links).push(project_id),
        last_rank(links).has_next_spec() ==> appended(links, id, project_id).drop_last() == links
            && appended(links, id, project_id).last().sort_rank@ > last_rank(links)@,
        strictly_ranked(links) ==> strictly_ranked(appended(links, id, project_id)),
{
    let last = last_rank(links);
    let after = appended(links, id, project_id);
    if last.has_next_spec() {
        let link = ProjectLink { id, project_id, sort_rank: last.next_spec() };
        assert(after == links.push(link));
        assert(after.drop_last() =~= links);
        assert(link_ids(after) =~= link_ids(links).push(id));
        assert(link_targets(after) =~= link_targets(links).push(project_id));
        if strictly_ranked(links) {
            assert forall|i: int, j: int| 0 <= i < j < after.len() implies (
            #[trigger] after[i]).rank()@ < (#[trigger] after[j]).rank()@ by {
                if j < links.len() {
                    assert(after[i] == links[i] && after[j] == links[j]);
                } else {
                    assert(after[i] == links[i]);
                    if i < links.len() - 1 {
                        assert(links[i].rank()@ < links[links.len() - 1].rank()@);
                    }
                }
            }
        }
    } else {
        let pushed = links.push(ProjectLink { id, project_id, sort_rank: last });
        lemma_respaced_strictly_ranked(pushed);
        assert(link_ids(pushed) =~= link_ids(links).push(id));
        assert(link_targets(pushed) =~= link_targets(links).push(project_id));
    }
}

/// The first place of the link with the given id.
pub fn find_link(links: &Vec<ProjectLink>, id: usize) -> (r: Option<usize>)
    ensures
        as_position(r) == link_position(links@, id),
{
    let mut i: usize = 0;
    while i < links.len()
        invariant
            i <= links@.len(),
            forall|j: int| 0 <= j < i ==> link_ids(links@)[j] != id,
        decreases links@.len() - i,
    {
        if links[i].id == id {
            proof {
                lemma_position_found(link_ids(links@), id, i as int);
            }
            return Some(i);
        }
        i += 1;
    }
    proof {
        lemma_position_of(link_ids(links@), id);
    }
    None
}

/// Whether a link of the list refers to the given project.
pub fn refers_to(links: &Vec<ProjectLink>, project_id: usize) -> (r: bool)
    ensures
        r == link_targets(links@).contains(project_id),
{
    let mut i: usize = 0;
    while i < links.len()
        invariant
            i <= links@.len(),
            forall|j: int| 0 <= j < i ==> link_targets(links@)[j] != project_id,
        decreases links@.len() - i,
    {
        if links[i].project_id == project_id {
            assert(link_targets(links@)[i as int] == project_id);
            return true;
        }
        i += 1;
    }
    false
}

/// Takes the links that refer to the given project out of the list.
pub fn remove_links_to(links: &mut Vec<ProjectLink>, project_id: usize)
    ensures
        final(links)@ == old(links)@.filter(other_targets(project_id)),
{
    let mut flags: Vec<bool> = Vec::new();
    let mut i: usize = 0;
    while i < links.len()
        invariant
            i <= links@.len(),
            flags@.len() == i,
            forall|j: int| 0 <= j < i ==> flags@[j] == other_targets(project_id)(links@[j]),
        decreases links@.len() - i,
    {
        flags.push(links[i].project_id != project_id);
        i += 1;
    }
    let mut taken: Vec<ProjectLink> = Vec::new();
    core::mem::swap(links, &mut taken);
    proof {
        lemma_kept_is_filter(
            taken@,
            flags@,
            |l: ProjectLink| l,
            other_targets(project_id),
        );
        assert(taken@.map_values(|l: ProjectLink| l) =~= taken@);
    }
    *links = keep_flagged(taken, &flags);
}

/// Appends a new link to the list.
pub fn append_link(links: &mut Vec<ProjectLink>, id: usize, project_id: usize)
    ensures
        final(links)@ == appended(old(links)@, id, project_id),
{
    let last: LexoRank = if links.len() > 0 {
        links[links.len() - 1].sort_rank
    } else {
        LexoRank::default()
    };
    if last.has_next() {
        links.push(ProjectLink { id, project_id, sort_rank: last.next() });
    } else {
        links.push(ProjectLink { id, project_id, sort_rank: last });
        LexoRank::apply(links);
    }
}

fn find_drop_index(links: &Vec<ProjectLink>, drop_link_id: Option<usize>) -> (r: Option<usize>)
    ensures
        as_position(r) == drop_index(links@, drop_link_id),
        r matches Some(t) ==> t <= links@.len(),
{
    match drop_link_id {
        Some(d) => {
            let r = find_link(links, d);
            proof {
                lemma_position_of(link_ids(links@), d);
            }
            r
        },
        None => Some(links.len()),
    }
}

/// Takes the link with the given id out of the list.
pub fn export_link(links: &mut Vec<ProjectLink>, id: usize) -> (r: Result<
    ProjectLink,
    ProjectsError,
>)
    ensures
        match r {
            Ok(link) => exported(old(links)@, id) == Ok::<_, ProjectsError>((link, final(links)@)),
            Err(e) => exported(old(links)@, id) == Err::<(ProjectLink, Seq<ProjectLink>), _>(e)
                && final(links)@ == old(links)@,
        },
{
    match find_link(links, id) {
        Some(p) => {
            proof {
                lemma_position_of(link_ids(links@), id);
            }
            let link = links.remove(p);
            Ok(link)
        },
        None => Err(ProjectsError::ProjectLinkNotFound { id }),
    }
}

/// Drops a link into the list and rebalances it.
pub fn import_link(
    links: &mut Vec<ProjectLink>,
    link: ProjectLink,
    drop_link_id: Option<usize>,
) -> (r: Result<(), ProjectsError>)
    ensures
        match r {
            Ok(()) => imported(old(links)@, link, drop_link_id) == Ok::<_, ProjectsError>(
                final(links)@,
            ),
            Err(e) => imported(old(links)@, link, drop_link_id) == Err::<Seq<ProjectLink>, _>(e)
                && final(links)@ == old(links)@,
        },
{
    match find_drop_index(links, drop_link_id) {
        Some(t) => {
            links.insert(t, link);
            LexoRank::apply(links);
            Ok(())
        },
        None => {
            match drop_link_id {
                Some(d) => Err(ProjectsError::DropTargetNotFound { id: d }),
                None => Ok(()),
            }
        },
    }
}

/// Moves a link of the list to its drop target and rebalances the list.
/// A failed move leaves the list as it was.
pub fn move_link(links: &mut Vec<ProjectLink>, id: usize, drop_link_id: Option<usize>) -> (r:
    Result<(), ProjectsError>)
    ensures
        match r {
            Ok(()) => moved(old(links)@, id, drop_link_id) == Ok::<_, ProjectsError>(
                final(links)@,
            ),
            Err(e) => moved(old(links)@, id, drop_link_id) == Err::<Seq<ProjectLink>, _>(e)
                && final(links)@ == old(links)@,
        },
{
    if find_drop_index(links, drop_link_id).is_none() {
        match drop_link_id {
            Some(d) => {
                return Err(ProjectsError::DropTargetNotFound { id: d });
            },
            None => {},
        }
    }
    let source = match find_link(links, id) {
        Some(p) => p,
        None => {
            return Err(ProjectsError::ProjectLinkNotFound { id });
        },
    };
    proof {
        lemma_position_of(link_ids(links@), id);
    }
    let link = links.remove(source);
    match find_drop_index(links, drop_link_id) {
        Some(t) => {
            links.insert(t, link);
            LexoRank::apply(links);
            Ok(())
        },
        None => {
            links.insert(source, link);
            match drop_link_id {
                Some(d) => Err(ProjectsError::DropTargetNotFound { id: d }),
                None => Ok(()),
            }
        },
    }
}

/// Gives every link of the list the evenly spaced rank of its position.
pub fn reorder(links: &mut Vec<ProjectLink>)
    ensures
        final(links)@ == respaced(old(links)@),
{
    LexoRank::apply(links);
}

/// Something that has a name.
pub trait Named {
    /// The name as text.
    spec fn name_text(&self) -> Seq<char>;

    fn get_name(&self) -> (r: &String)
        ensures
            r@ == self.name_text(),
    ;
}

/// A container that owns an ordered list of project links.
pub trait ProjectLinkContainer: Named + Sized {
    /// The links of the container, in order.
    spec fn links(&self) -> Seq<ProjectLink>;

    /// The two containers differ in their links at most.
    spec fn same_apart_from_links(&self, other: &Self) -> bool;

    fn get_project_links(&self) -> (r: &Vec<ProjectLink>)
        ensures
            r@ == self.links(),
    ;

    fn get_project_links_mut(&mut self) -> (r: &mut Vec<ProjectLink>)
        ensures
            r@ == old(self).links(),
            final(self).links() == final(r)@,
            old(self).same_apart_from_links(final(self)),
    ;

    /// Appends a new link to the container.
    fn new_project_link(&mut self, id: usize, project_id: usize)
        ensures
            final(self).links() == appended(old(self).links(), id, project_id),
            old(self).same_apart_from_links(final(self)),
    {
        append_link(self.get_project_links_mut(), id, project_id);
    }

    /// The place of the link with the given id.
    fn index_of(&self, project_link_id: usize) -> (r: Option<usize>)
        ensures
            as_position(r) == link_position(self.links(), project_link_id),
    {
        find_link(self.get_project_links(), project_link_id)
    }

    /// Moves a link of the container to its drop target. A failed move
    /// leaves the container as it was.
    fn move_project_link(&mut self, project_link_id: usize, drop_link_id: Option<usize>) -> (r:
        Result<(), ProjectsError>)
        ensures
            old(self).same_apart_from_links(final(self)),
            match r {
                Ok(()) => moved(old(self).links(), project_link_id, drop_link_id) == Ok::<
                    _,
                    ProjectsError,
                >(final(self).links()),
                Err(e) => moved(old(self).links(), project_link_id, drop_link_id) == Err::<
                    Seq<ProjectLink>,
                    _,
                >(e) && final(self).links() == old(self).links(),
            },
    {
        move_link(self.get_project_links_mut(), project_link_id, drop_link_id)
    }

    /// Takes a link out of the container.
    fn export_project_link(&mut self, project_link_id: usize) -> (r: Result<
        ProjectLink,
        ProjectsError,
    >)
        ensures
            old(self).same_apart_from_links(final(self)),
            match r {
                Ok(link) => exported(old(self).links(), project_link_id) == Ok::<
                    _,
                    ProjectsError,
                >((link, final(self).links())),
                Err(e) => exported(old(self).links(), project_link_id) == Err::<
                    (ProjectLink, Seq<ProjectLink>),
                    _,
                >(e) && final(self).links() == old(self).links(),
            },
    {
        export_link(self.get_project_links_mut(), project_link_id)
    }

    /// Drops a link into the container and rebalances its links.
    fn import_project_link(&mut self, project_link: ProjectLink, drop_link_id: Option<usize>) -> (r:
        Result<(), ProjectsError>)
        ensures
            old(self).same_apart_from_links(final(self)),
            match r {
                Ok(()) => imported(old(self).links(), project_link, drop_link_id) == Ok::<
                    _,
                    ProjectsError,
                >(final(self).links()),
                Err(e) => imported(old(self).links(), project_link, drop_link_id) == Err::<
                    Seq<ProjectLink>,
                    _,
                >(e) && final(self).links() == old(self).links(),
            },
    {
        import_link(self.get_project_links_mut(), project_link, drop_link_id)
    }

    /// Rebalances the links of the container.
    fn reorder_links(&mut self)
        ensures
            final(self).links() == respaced(old(self).links()),
            old(self).same_apart_from_links(final(self)),
    {
        reorder(self.get_project_links_mut());
    }
}

} // verus!
