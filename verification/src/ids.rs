//! Looking up the first place of a value in a sequence.

use vstd::prelude::*;

verus! {

/// `i` is the first place where `x` stands in `s`.
pub open spec fn is_first_at<T>(s: Seq<T>, x: T, i: int) -> bool {
    &&& 0 <= i < s.len()
    &&& s[i] == x
    &&& forall|j: int| 0 <= j < i ==> s[j] != x
}

/// The first place where `x` stands in `s`, if it stands there at all.
pub open spec fn position_of<T>(s: Seq<T>, x: T) -> Option<int> {
    if exists|i: int| is_first_at(s, x, i) {
        Some(choose|i: int| is_first_at(s, x, i))
    } else {
        None
    }
}

/// An index found by a search, as a mathematical integer.
pub open spec fn as_position(r: Option<usize>) -> Option<int> {
    match r {
        Some(i) => Some(i as int),
        None => None,
    }
}

/// The first place of a value is unique.
pub proof fn lemma_position_found<T>(s: Seq<T>, x: T, i: int)
    requires
        is_first_at(s, x, i),
    ensures
        position_of(s, x) == Some(i),
{
}

/// Where a value stands somewhere, it stands somewhere first.
pub proof fn lemma_first_exists<T>(s: Seq<T>, x: T, k: int)
    requires
        0 <= k < s.len(),
        s[k] == x,
    ensures
        exists|i: int| is_first_at(s, x, i),
    decreases k,
{
    if exists|j: int| 0 <= j < k && s[j] == x {
        let j = choose|j: int| 0 <= j < k && s[j] == x;
        lemma_first_exists(s, x, j);
    } else {
        assert(is_first_at(s, x, k));
    }
}

/// What a position says of the sequence.
pub proof fn lemma_position_of<T>(s: Seq<T>, x: T)
    ensures
        match position_of(s, x) {
            Some(i) => is_first_at(s, x, i),
            None => !s.contains(x),
        },
        position_of(s, x) is Some <==> s.contains(x),
{
    if s.contains(x) {
        let k = choose|k: int| 0 <= k < s.len() && s[k] == x;
        lemma_first_exists(s, x, k);
    }
}

/// For each place, whether its value stands at an earlier place too.
pub open spec fn repeats<T>(s: Seq<T>) -> Seq<bool> {
    Seq::new(s.len(), |j: int| s.take(j).contains(s[j]))
}

/// No value repeats an earlier one exactly where no two places hold the
/// same value.
pub proof fn lemma_no_repeats<T>(s: Seq<T>)
    ensures
        !repeats(s).contains(true) <==> s.no_duplicates(),
{
    let flags = repeats(s);
    if !flags.contains(true) {
        assert forall|a: int, b: int| 0 <= a < s.len() && 0 <= b < s.len() && a != b implies s[a]
            != s[b] by {
            if s[a] == s[b] {
                if a < b {
                    assert(s.take(b)[a] == s[b]);
                    assert(flags[b]);
                } else {
                    assert(s.take(a)[b] == s[a]);
                    assert(flags[a]);
                }
            }
        }
    }
}

} // verus!
