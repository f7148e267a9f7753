use ddk_server::lexorank::{HasLexoRank, LexoRank, MAX_RANK, RANK_GAP};
use ddk_server::project::ProjectLink;

fn link(id: usize, rank: u64) -> ProjectLink {
    ProjectLink { id, project_id: 100 + id, sort_rank: LexoRank { value: rank } }
}

fn ids(links: &Vec<ProjectLink>) -> Vec<usize> {
    links.iter().map(|l| l.id).collect()
}

#[test]
fn default_rank_is_the_lowest() {
    assert_eq!(LexoRank::default(), LexoRank { value: 0 });
}

#[test]
fn next_is_one_gap_further() {
    let rank = LexoRank { value: 7 };
    assert_eq!(rank.next(), LexoRank { value: 7 + RANK_GAP });
    assert!(rank.precedes(&rank.next()));
}

#[test]
fn next_stops_at_the_largest_rank() {
    let rank = LexoRank { value: MAX_RANK - 1 };
    assert!(rank.has_next());
    assert_eq!(rank.next(), LexoRank { value: MAX_RANK });
    assert!(!LexoRank { value: MAX_RANK }.has_next());
}

#[test]
fn precedes_is_strict() {
    let a = LexoRank { value: 5 };
    let b = LexoRank { value: 6 };
    assert!(a.precedes(&b));
    assert!(!b.precedes(&a));
    assert!(!a.precedes(&a));
}

#[test]
fn spaced_rank_of_a_single_item_is_the_middle() {
    assert_eq!(LexoRank::spaced(1, 0), LexoRank { value: 0x7fff_ffff_ffff_ffff });
}

#[test]
fn spaced_ranks_of_two_items() {
    assert_eq!(LexoRank::spaced(2, 0), LexoRank { value: 0x3fff_ffff_ffff_ffff });
    assert_eq!(LexoRank::spaced(2, 1), LexoRank { value: 0xbfff_ffff_ffff_fffe });
}

#[test]
fn spaced_ranks_of_four_items_grow_by_one_step() {
    let step: u64 = MAX_RANK / 4;
    for i in 0..4usize {
        assert_eq!(LexoRank::spaced(4, i).value, (i as u64) * step + step / 2);
    }
}

#[test]
fn apply_rebalances_in_the_current_order() {
    let mut links = vec![link(1, 9), link(2, 9), link(3, 1)];
    LexoRank::apply(&mut links);
    assert_eq!(ids(&links), vec![1, 2, 3]);
    for (i, l) in links.iter().enumerate() {
        assert_eq!(l.sort_rank, LexoRank::spaced(3, i));
        assert_eq!(l.project_id, 100 + l.id);
    }
    assert!(links[0].sort_rank < links[1].sort_rank);
    assert!(links[1].sort_rank < links[2].sort_rank);
}

#[test]
fn apply_on_an_empty_list_does_nothing() {
    let mut links: Vec<ProjectLink> = Vec::new();
    LexoRank::apply(&mut links);
    assert!(links.is_empty());
}

#[test]
fn sort_orders_by_rank() {
    let mut links = vec![link(1, 30), link(2, 10), link(3, 20)];
    LexoRank::sort(&mut links);
    assert_eq!(ids(&links), vec![2, 3, 1]);
}

#[test]
fn sort_keeps_the_order_of_equal_ranks() {
    let mut links = vec![link(1, 5), link(2, 0), link(3, 5), link(4, 0), link(5, 5)];
    LexoRank::sort(&mut links);
    assert_eq!(ids(&links), vec![2, 4, 1, 3, 5]);
}

#[test]
fn rank_accessors_of_a_link() {
    let mut l = link(1, 5);
    assert_eq!(*l.get_lexorank(), LexoRank { value: 5 });
    l.set_lexorank(LexoRank { value: 8 });
    assert_eq!(l, link(1, 8));
}

#[test]
fn between_is_the_middle() {
    let rank = |value: u64| LexoRank { value };
    assert_eq!(rank(10).between(&rank(20)), Some(rank(15)));
    assert_eq!(rank(10).between(&rank(12)), Some(rank(11)));
    assert_eq!(rank(10).between(&rank(13)), Some(rank(11)));
    assert_eq!(rank(0).between(&rank(MAX_RANK)), Some(rank(MAX_RANK / 2)));
    assert_eq!(rank(MAX_RANK - 2).between(&rank(MAX_RANK)), Some(rank(MAX_RANK - 1)));
}

#[test]
fn between_neighbours_without_room_is_nothing() {
    let rank = |value: u64| LexoRank { value };
    assert_eq!(rank(10).between(&rank(11)), None);
    assert_eq!(rank(10).between(&rank(10)), None);
    assert_eq!(rank(10).between(&rank(3)), None);
    assert_eq!(rank(MAX_RANK).between(&rank(MAX_RANK)), None);
    assert_eq!(rank(MAX_RANK - 1).between(&rank(MAX_RANK)), None);
}

#[test]
fn insert_finds_a_rank_between_the_neighbours() {
    let mut links = vec![link(1, 10), link(2, 20)];
    LexoRank::insert(&mut links, 1, link(3, 999));
    assert_eq!(links, vec![link(1, 10), link(3, 15), link(2, 20)]);
    LexoRank::insert(&mut links, 0, link(4, 999));
    assert_eq!(links[0], link(4, 5));
    LexoRank::insert(&mut links, 4, link(5, 0));
    assert_eq!(links[4], link(5, 20 + RANK_GAP));
    assert_eq!(ids(&links), vec![4, 1, 3, 2, 5]);
    let mut only: Vec<ProjectLink> = Vec::new();
    LexoRank::insert(&mut only, 0, link(1, 0));
    assert_eq!(only, vec![link(1, MAX_RANK / 2)]);
}

#[test]
fn insert_rebalances_where_no_rank_is_left() {
    let mut links = vec![link(1, 10), link(2, 11)];
    LexoRank::insert(&mut links, 1, link(3, 0));
    assert_eq!(ids(&links), vec![1, 3, 2]);
    for (i, l) in links.iter().enumerate() {
        assert_eq!(l.sort_rank, LexoRank::spaced(3, i));
    }
    let mut links = vec![link(1, 0)];
    LexoRank::insert(&mut links, 0, link(2, 7));
    assert_eq!(links[0].sort_rank, LexoRank::spaced(2, 0));
    let mut links = vec![link(1, MAX_RANK)];
    LexoRank::insert(&mut links, 1, link(2, 7));
    assert_eq!(links[1].sort_rank, LexoRank::spaced(2, 1));
    assert_eq!(ids(&links), vec![1, 2]);
}
