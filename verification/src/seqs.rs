//! Keeping the chosen items of a list.

use vstd::prelude::*;

verus! {

/// The items of `items` whose flag is set, in order.
pub open spec fn kept<T>(items: Seq<T>, flags: Seq<bool>) -> Seq<T>
    recommends
        items.len() == flags.len(),
    decreases items.len(),
{
    if items.len() == 0 {
        Seq::empty()
    } else if flags.last() {
        kept(items.drop_last(), flags.drop_last()).push(items.last())
    } else {
        kept(items.drop_last(), flags.drop_last())
    }
}

/// Keeping by flags is filtering, where each flag says what the predicate
/// says of the item's view.
pub proof fn lemma_kept_is_filter<T, V>(
    items: Seq<T>,
    flags: Seq<bool>,
    view: spec_fn(T) -> V,
    pred: spec_fn(V) -> bool,
)
    requires
        items.len() == flags.len(),
        forall|i: int| 0 <= i < items.len() ==> flags[i] == pred(view(#[trigger] items[i])),
    ensures
        kept(items, flags).map_values(view) == items.map_values(view).filter(pred),
    decreases items.len(),
{
    reveal(Seq::filter);
    let views = items.map_values(view);
    if items.len() > 0 {
        lemma_kept_is_filter(items.drop_last(), flags.drop_last(), view, pred);
        assert(views.drop_last() =~= items.drop_last().map_values(view));
    }
}

/// Moves the flagged items into a new list.
pub fn keep_flagged<T>(items: Vec<T>, flags: &Vec<bool>) -> (r: Vec<T>)
    requires
        items@.len() == flags@.len(),
    ensures
        r@ == kept(items@, flags@),
{
    let ghost all = items@;
    let count: usize = flags.len();
    let mut out: Vec<T> = Vec::new();
    let mut i: usize = 0;
    for item in it: items
        invariant
            it.seq() == all,
            i == it.index(),
            all.len() == flags@.len(),
            all.len() == count,
            out@ == kept(all.take(i as int), flags@.take(i as int)),
    {
        proof {
            assert(all.take(i + 1).drop_last() =~= all.take(i as int));
            assert(flags@.take(i + 1).drop_last() =~= flags@.take(i as int));
        }
        if flags[i] {
            out.push(item);
        }
        i += 1;
    }
    proof {
        assert(all.take(i as int) =~= all);
        assert(flags@.take(i as int) =~= flags@);
    }
    out
}

} // verus!
