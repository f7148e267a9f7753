//! Fractional ranks.
//!
//! A rank is a fixed-width key of 64 bits. Comparing two ranks as numbers is
//! the same as comparing their big-endian bytes lexicographically, so a rank
//! can be stored as a fixed-width string without changing the order. Siblings
//! are ordered by rank; a rebalance gives a whole sibling list new, evenly
//! spaced ranks in its current order.

use vstd::prelude::*;
use crate::ids::{lemma_position_found, lemma_position_of, position_of};

verus! {

/// The largest rank value.
pub const MAX_RANK: u64 = 0xffff_ffff_ffff_ffff;

/// The distance that `next` leaves between a rank and its successor.
pub const RANK_GAP: u64 = 0x1_0000_0000;

/// The rank of an item among its siblings.
#[derive(Clone, Copy, Debug, PartialEq, Eq, PartialOrd, Ord, Hash, Structural)]
pub struct LexoRank {
    pub value: u64,
}

impl View for LexoRank {
    type V = nat;

    open spec fn view(&self) -> nat {
        self.value as nat
    }
}

/// The step between neighbours when `n` siblings share the rank space.
pub open spec fn spaced_step(n: nat) -> nat
    recommends
        n > 0,
{
    (MAX_RANK as nat) / n
}

/// The rank of the sibling at position `i` among `n` evenly spaced siblings:
/// the middle of the `i`-th of `n` equal slices of the rank space.
pub open spec fn spaced_rank(n: nat, i: nat) -> nat
    recommends
        i < n,
{
    i * spaced_step(n) + spaced_step(n) / 2
}

/// With at most `MAX_RANK` siblings the step is at least one, and all the
/// slices together fit the rank space.
pub proof fn lemma_spaced_step(n: nat)
    requires
        0 < n <= MAX_RANK,
    ensures
        spaced_step(n) >= 1,
        n * spaced_step(n) <= MAX_RANK,
{
    vstd::arithmetic::div_mod::lemma_fundamental_div_mod(MAX_RANK as int, n as int);
    vstd::arithmetic::div_mod::lemma_div_is_ordered(n as int, MAX_RANK as int, n as int);
    vstd::arithmetic::div_mod::lemma_div_by_self(n as int);
    vstd::arithmetic::div_mod::lemma_mod_bound(MAX_RANK as int, n as int);
}

/// An evenly spaced rank fits the rank space.
pub proof fn lemma_spaced_rank_fits(n: nat, i: nat)
    requires
        i < n <= MAX_RANK,
    ensures
        i * spaced_step(n) + spaced_step(n) <= MAX_RANK,
        spaced_rank(n, i) <= MAX_RANK,
{
    let step = spaced_step(n);
    lemma_spaced_step(n);
    assert(i * step + step <= n * step) by (nonlinear_arith)
        requires
            i < n,
            step >= 1,
    ;
}

/// Evenly spaced ranks grow strictly with the position.
pub proof fn lemma_spaced_rank_monotonic(n: nat, i: nat, j: nat)
    requires
        i < j < n,
        n <= MAX_RANK,
    ensures
        spaced_rank(n, i) < spaced_rank(n, j) <= MAX_RANK,
{
    let step = spaced_step(n);
    lemma_spaced_step(n);
    lemma_spaced_rank_fits(n, j);
    assert(i * step + step <= j * step) by (nonlinear_arith)
        requires
            i < j,
            step >= 1,
    ;
}

/// A value that carries a rank among its siblings.
pub trait HasLexoRank: Sized {
    /// The rank that the value carries.
    spec fn rank(&self) -> LexoRank;

    /// The same value with another rank.
    spec fn with_rank(self, rank: LexoRank) -> Self;

    fn get_lexorank(&self) -> (r: &LexoRank)
        ensures
            *r == self.rank(),
    ;

    fn set_lexorank(&mut self, lexorank: LexoRank)
        ensures
            *final(self) == old(self).with_rank(lexorank),
    ;

    /// A value with another rank carries that rank.
    proof fn lemma_with_rank(self, rank: LexoRank)
        ensures
            self.with_rank(rank).rank() == rank,
    ;
}

/// The ranks grow strictly along the list: no two siblings rank equal.
pub open spec fn ranks_rise<T: HasLexoRank>(items: Seq<T>) -> bool {
    forall|i: int, j: int|
        0 <= i < j < items.len() ==> (#[trigger] items[i]).rank()@ < (#[trigger] items[j]).rank()@
}

/// The rank of the item before place `index`, if there is one.
pub open spec fn rank_below<T: HasLexoRank>(items: Seq<T>, index: int) -> Option<LexoRank> {
    if 0 < index <= items.len() {
        Some(items[index - 1].rank())
    } else {
        None
    }
}

/// The rank of the item at place `index`, if there is one.
pub open spec fn rank_above<T: HasLexoRank>(items: Seq<T>, index: int) -> Option<LexoRank> {
    if 0 <= index < items.len() {
        Some(items[index].rank())
    } else {
        None
    }
}

/// A rank for an item that goes between two neighbours, where the
/// precision of the ranks leaves one: the middle between two ranks, half of
/// the first rank for an item that goes to the front, the successor of the
/// last rank for an item that goes to the end, and the middle of the rank
/// space for the only item.
pub open spec fn rank_between(below: Option<LexoRank>, above: Option<LexoRank>) -> Option<
    LexoRank,
> {
    match (below, above) {
        (Some(l), Some(u)) => if l.value + 2 <= u.value {
            Some(LexoRank { value: (l.value + (u.value - l.value) / 2) as u64 })
        } else {
            None
        },
        (Some(l), None) => if l.has_next_spec() {
            Some(l.next_spec())
        } else {
            None
        },
        (None, Some(u)) => if u.value > 0 {
            Some(LexoRank { value: u.value / 2 })
        } else {
            None
        },
        (None, None) => Some(LexoRank { value: MAX_RANK / 2 }),
    }
}

/// A sibling list with an item inserted at place `index`. The item gets a
/// rank between its neighbours; where none is left, the whole list is
/// rebalanced.
pub open spec fn inserted<T: HasLexoRank>(items: Seq<T>, index: int, item: T) -> Seq<T> {
    match rank_between(rank_below(items, index), rank_above(items, index)) {
        Some(rank) => items.insert(index, item.with_rank(rank)),
        None => respaced(items.insert(index, item)),
    }
}

/// A rank between two neighbours lies strictly between them.
pub proof fn lemma_rank_between(below: Option<LexoRank>, above: Option<LexoRank>)
    ensures
        rank_between(below, above) matches Some(r) ==> (below matches Some(l) ==> l@ < r@) && (
        above matches Some(u) ==> r@ < u@),
{
}

/// A rebalanced list has ranks that grow strictly.
pub proof fn lemma_respaced_ranks_rise<T: HasLexoRank>(items: Seq<T>)
    requires
        items.len() <= MAX_RANK,
    ensures
        ranks_rise(respaced(items)),
        respaced(items).len() == items.len(),
{
    let after = respaced(items);
    assert forall|i: int, j: int| 0 <= i < j < after.len() implies (#[trigger] after[i]).rank()@
        < (#[trigger] after[j]).rank()@ by {
        lemma_spaced_rank_monotonic(items.len(), i as nat, j as nat);
        items[i].lemma_with_rank(rebalanced_rank(items.len(), i));
        items[j].lemma_with_rank(rebalanced_rank(items.len(), j));
    }
}

/// Insertion keeps the ranks growing strictly along the list, whether the
/// item found a rank between its neighbours or the list was rebalanced.
pub proof fn lemma_inserted_ranks_rise<T: HasLexoRank>(items: Seq<T>, index: int, item: T)
    requires
        ranks_rise(items),
        0 <= index <= items.len(),
        items.len() < MAX_RANK,
    ensures
        ranks_rise(inserted(items, index, item)),
        inserted(items, index, item).len() == items.len() + 1,
{
    let below = rank_below(items, index);
    let above = rank_above(items, index);
    lemma_rank_between(below, above);
    match rank_between(below, above) {
        Some(rank) => {
            let after = items.insert(index, item.with_rank(rank));
            item.lemma_with_rank(rank);
            assert forall|i: int, j: int| 0 <= i < j < after.len() implies (
            #[trigger] after[i]).rank()@ < (#[trigger] after[j]).rank()@ by {
            }
        },
        None => {
            lemma_respaced_ranks_rise(items.insert(index, item));
        },
    }
}

/// The rank that a rebalance gives to position `i` of `n`.
pub open spec fn rebalanced_rank(n: nat, i: int) -> LexoRank {
    LexoRank { value: spaced_rank(n, i as nat) as u64 }
}

/// A sibling list after a rebalance: the same items in the same order, each
/// with the evenly spaced rank of its position.
pub open spec fn respaced<T: HasLexoRank>(items: Seq<T>) -> Seq<T> {
    Seq::new(items.len(), |i: int| items[i].with_rank(rebalanced_rank(items.len(), i)))
}

/// The rank of an item as a number.
pub open spec fn rank_of<T: HasLexoRank>() -> spec_fn(T) -> nat {
    |item: T| item.rank()@
}

/// Where an item of the given rank goes into a list that is ordered by
/// rank: behind every item that does not rank higher.
pub open spec fn insertion_place(ranks: Seq<nat>, rank: nat) -> int {
    match position_of(ranks.map_values(|r: nat| r > rank), true) {
        Some(i) => i,
        None => ranks.len() as int,
    }
}

/// The items ordered by rank. Items of equal rank keep their order.
pub open spec fn sorted_by<T>(items: Seq<T>, rank: spec_fn(T) -> nat) -> Seq<T>
    decreases items.len(),
{
    if items.len() == 0 {
        Seq::empty()
    } else {
        let before = sorted_by(items.drop_last(), rank);
        before.insert(
            insertion_place(before.map_values(rank), rank(items.last())),
            items.last(),
        )
    }
}

/// The ranks never fall along the list.
pub open spec fn ordered(ranks: Seq<nat>) -> bool {
    forall|i: int, j: int| 0 <= i <= j < ranks.len() ==> ranks[i] <= ranks[j]
}

/// What the place of an insertion says of the ranks around it.
pub proof fn lemma_insertion_place(ranks: Seq<nat>, rank: nat)
    ensures
        0 <= insertion_place(ranks, rank) <= ranks.len(),
        forall|j: int| 0 <= j < insertion_place(ranks, rank) ==> ranks[j] <= rank,
        insertion_place(ranks, rank) < ranks.len() ==> ranks[insertion_place(ranks, rank)] > rank,
{
    let higher = ranks.map_values(|r: nat| r > rank);
    lemma_position_of(higher, true);
    match position_of(higher, true) {
        Some(i) => {
            assert forall|j: int| 0 <= j < i implies ranks[j] <= rank by {
                assert(!higher[j]);
            }
        },
        None => {
            assert forall|j: int| 0 <= j < ranks.len() implies ranks[j] <= rank by {
                assert(higher[j] == (ranks[j] > rank));
            }
        },
    }
}

/// Ordering by rank gives a list whose ranks never fall, made of the same
/// items.
pub proof fn lemma_sorted_by<T>(items: Seq<T>, rank: spec_fn(T) -> nat)
    ensures
        sorted_by(items, rank).len() == items.len(),
        ordered(sorted_by(items, rank).map_values(rank)),
        sorted_by(items, rank).to_multiset() == items.to_multiset(),
    decreases items.len(),
{
    broadcast use vstd::seq_lib::group_to_multiset_ensures;

    if items.len() > 0 {
        let before = sorted_by(items.drop_last(), rank);
        lemma_sorted_by(items.drop_last(), rank);
        let ranks = before.map_values(rank);
        let x = items.last();
        let place = insertion_place(ranks, rank(x));
        lemma_insertion_place(ranks, rank(x));
        let after = before.insert(place, x);
        let after_ranks = after.map_values(rank);
        assert forall|i: int, j: int| 0 <= i <= j < after_ranks.len() implies after_ranks[i]
            <= after_ranks[j] by {
            if j < place {
                assert(after_ranks[i] == ranks[i] && after_ranks[j] == ranks[j]);
            } else if j == place {
                if i < place {
                    assert(after_ranks[i] == ranks[i]);
                }
            } else {
                assert(after_ranks[j] == ranks[j - 1]);
                if i < place {
                    assert(after_ranks[i] == ranks[i]);
                } else if i > place {
                    assert(after_ranks[i] == ranks[i - 1]);
                }
            }
        }
        assert(items =~= items.drop_last().push(x));
    }
}

/// The items of the given rank.
pub open spec fn of_rank<T>(rank: spec_fn(T) -> nat, r: nat) -> spec_fn(T) -> bool {
    |item: T| rank(item) == r
}

/// Ordering by rank is stable: the items of one rank stand in the ordered
/// list in the order in which they stood before.
pub proof fn lemma_sorted_by_is_stable<T>(items: Seq<T>, rank: spec_fn(T) -> nat, r: nat)
    ensures
        sorted_by(items, rank).filter(of_rank(rank, r)) == items.filter(of_rank(rank, r)),
    decreases items.len(),
{
    let pred = of_rank(rank, r);
    reveal(Seq::filter);
    if items.len() > 0 {
        let init = items.drop_last();
        let x = items.last();
        let before = sorted_by(init, rank);
        lemma_sorted_by_is_stable(init, rank, r);
        lemma_sorted_by(init, rank);
        let ranks = before.map_values(rank);
        let place = insertion_place(ranks, rank(x));
        lemma_insertion_place(ranks, rank(x));
        let head = before.take(place);
        let tail = before.skip(place);
        let one = seq![x];
        assert(before.insert(place, x) =~= head + one + tail);
        assert(before =~= head + tail);
        Seq::filter_distributes_over_add(head + one, tail, pred);
        Seq::filter_distributes_over_add(head, one, pred);
        Seq::filter_distributes_over_add(head, tail, pred);
        assert(one.drop_last() =~= Seq::<T>::empty());
        assert(one.drop_last().filter(pred) =~= Seq::<T>::empty());
        assert(one.last() == x);
        assert(one.filter(pred) =~= if pred(x) {
            one
        } else {
            Seq::<T>::empty()
        });
        if pred(x) {
            assert(tail.all(|y: T| !pred(y))) by {
                assert forall|j: int| 0 <= j < tail.len() implies !pred(#[trigger] tail[j]) by {
                    assert(ranks[place] > rank(x));
                    assert(ranks[place] <= ranks[place + j]);
                }
            }
            tail.lemma_all_neg_filter_empty(pred);
            assert(tail.filter(pred) =~= Seq::<T>::empty());
            assert(items.filter(pred) =~= init.filter(pred).push(x));
            assert(sorted_by(items, rank).filter(pred) =~= before.filter(pred).push(x));
        } else {
            assert(sorted_by(items, rank).filter(pred) =~= before.filter(pred));
        }
    }
}

/// Ordering by rank and taking views can be done in either order, where
/// the views rank as the items do.
pub proof fn lemma_sorted_by_views<T, V>(
    items: Seq<T>,
    rank: spec_fn(T) -> nat,
    view: spec_fn(T) -> V,
    view_rank: spec_fn(V) -> nat,
)
    requires
        forall|item: T| #[trigger] view_rank(view(item)) == rank(item),
    ensures
        sorted_by(items, rank).map_values(view) == sorted_by(items.map_values(view), view_rank),
    decreases items.len(),
{
    let views = items.map_values(view);
    if items.len() > 0 {
        lemma_sorted_by_views(items.drop_last(), rank, view, view_rank);
        let before = sorted_by(items.drop_last(), rank);
        assert(views.drop_last() =~= items.drop_last().map_values(view));
        assert(before.map_values(view).map_values(view_rank) =~= before.map_values(rank));
        let place = insertion_place(before.map_values(rank), rank(items.last()));
        lemma_insertion_place(before.map_values(rank), rank(items.last()));
        assert(before.insert(place, items.last()).map_values(view) =~= before.map_values(
            view,
        ).insert(place, view(items.last())));
    }
}

impl LexoRank {
    /// The rank that an empty sibling list starts from.
    pub open spec fn default_spec() -> LexoRank {
        LexoRank { value: 0 }
    }

    /// Whether a greater rank exists.
    pub open spec fn has_next_spec(&self) -> bool {
        self.value < MAX_RANK
    }

    /// The successor used when appending: one gap further, or the largest rank
    /// where less than a gap is left.
    pub open spec fn next_spec(&self) -> LexoRank {
        if self.value <= MAX_RANK - RANK_GAP {
            LexoRank { value: (self.value + RANK_GAP) as u64 }
        } else {
            LexoRank { value: MAX_RANK }
        }
    }

    /// Whether a greater rank exists.
    #[verifier::when_used_as_spec(has_next_spec)]
    pub fn has_next(&self) -> (r: bool)
        ensures
            r == self.has_next_spec(),
    {
        self.value < MAX_RANK
    }

    /// A rank strictly greater than the receiver.
    pub fn next(&self) -> (r: LexoRank)
        requires
            self.has_next(),
        ensures
            r == self.next_spec(),
            r@ > self@,
    {
        if self.value <= MAX_RANK - RANK_GAP {
            LexoRank { value: self.value + RANK_GAP }
        } else {
            LexoRank { value: MAX_RANK }
        }
    }

    /// A rank strictly between the receiver and a greater rank, where the
    /// precision leaves one: the middle between the two.
    pub fn between(&self, other: &LexoRank) -> (r: Option<LexoRank>)
        ensures
            r == rank_between(Some(*self), Some(*other)),
    {
        if self.value <= MAX_RANK - 2 && self.value + 2 <= other.value {
            Some(LexoRank { value: self.value + (other.value - self.value) / 2 })
        } else {
            None
        }
    }

    /// Whether the receiver orders strictly before `other`.
    pub fn precedes(&self, other: &LexoRank) -> (r: bool)
        ensures
            r == (self@ < other@),
    {
        self.value < other.value
    }

    /// The rank at position `index` among `count` evenly spaced siblings.
    pub fn spaced(count: usize, index: usize) -> (r: LexoRank)
        requires
            index < count,
        ensures
            r@ == spaced_rank(count as nat, index as nat),
    {
        let step: u64 = MAX_RANK / (count as u64);
        proof {
            lemma_spaced_rank_fits(count as nat, index as nat);
        }
        LexoRank { value: (index as u64) * step + step / 2 }
    }

    /// Rebalances a sibling list: every item gets the evenly spaced rank of
    /// its current position, and nothing else about it changes.
    pub fn apply<T: HasLexoRank>(items: &mut Vec<T>)
        ensures
            final(items)@ == respaced(old(items)@),
    {
        let count: usize = items.len();
        let mut i: usize = 0;
        while i < count
            invariant
                i <= count,
                count == items@.len(),
                count == old(items)@.len(),
                forall|j: int|
                    0 <= j < i ==> #[trigger] items@[j] == old(items)@[j].with_rank(
                        rebalanced_rank(count as nat, j),
                    ),
                forall|j: int| i <= j < count ==> #[trigger] items@[j] == old(items)@[j],
            decreases count - i,
        {
            let rank = LexoRank::spaced(count, i);
            items[i].set_lexorank(rank);
            i += 1;
        }
    }
}

impl LexoRank {
    /// Inserts an item into a sibling list at place `index`. The item gets
    /// a rank between its neighbours; where none is left, the whole list is
    /// rebalanced.
    pub fn insert<T: HasLexoRank>(items: &mut Vec<T>, index: usize, item: T)
        requires
            index <= old(items)@.len(),
        ensures
            final(items)@ == inserted(old(items)@, index as int, item),
    {
        let below: Option<LexoRank> = if index > 0 {
            Some(*items[index - 1].get_lexorank())
        } else {
            None
        };
        let above: Option<LexoRank> = if index < items.len() {
            Some(*items[index].get_lexorank())
        } else {
            None
        };
        let rank: Option<LexoRank> = match (below, above) {
            (Some(l), Some(u)) => l.between(&u),
            (Some(l), None) => if l.has_next() {
                Some(l.next())
            } else {
                None
            },
            (None, Some(u)) => if u.value > 0 {
                Some(LexoRank { value: u.value / 2 })
            } else {
                None
            },
            (None, None) => Some(LexoRank { value: MAX_RANK / 2 }),
        };
        let mut item = item;
        match rank {
            Some(rank) => {
                item.set_lexorank(rank);
                items.insert(index, item);
            },
            None => {
                items.insert(index, item);
                LexoRank::apply(items);
            },
        }
    }

    /// Orders a sibling list by rank. Items of equal rank keep their order.
    pub fn sort<T: HasLexoRank>(items: &mut Vec<T>)
        ensures
            final(items)@ == sorted_by(old(items)@, rank_of::<T>()),
    {
        let mut taken: Vec<T> = Vec::new();
        core::mem::swap(items, &mut taken);
        let ghost all = taken@;
        let ghost rank = rank_of::<T>();
        let mut out: Vec<T> = Vec::new();
        let ghost mut done: int = 0;
        for item in it: taken
            invariant
                it.seq() == all,
                done == it.index(),
                rank == rank_of::<T>(),
                out@ == sorted_by(all.take(done), rank),
        {
            proof {
                assert(all.take(done + 1).drop_last() =~= all.take(done));
                lemma_insertion_place(out@.map_values(rank), rank(item));
            }
            let ghost higher = out@.map_values(rank).map_values(|r: nat| r > rank(item));
            let mut place: usize = 0;
            while place < out.len() && !item.get_lexorank().precedes(out[place].get_lexorank())
                invariant
                    place <= out@.len(),
                    rank == rank_of::<T>(),
                    higher == out@.map_values(rank).map_values(|r: nat| r > rank(item)),
                    forall|j: int| 0 <= j < place ==> !higher[j],
                decreases out@.len() - place,
            {
                place += 1;
            }
            proof {
                if place < out@.len() {
                    lemma_position_found(higher, true, place as int);
                } else {
                    lemma_position_of(higher, true);
                }
            }
            out.insert(place, item);
            proof {
                done = done + 1;
            }
        }
        assert(all.take(done) =~= all);
        *items = out;
    }
}

impl Default for LexoRank {
    fn default() -> (r: LexoRank)
        ensures
            r == LexoRank::default_spec(),
    {
        LexoRank { value: 0 }
    }
}

} // verus!
