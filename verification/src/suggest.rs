//! The suggestion engine: the letter names closest to a query that matched
//! none exactly, within a threshold of edit distance.

use vstd::prelude::*;
use crate::alphabet::{is_absent, names_valid, Alphabet};
use crate::distance::{
    distance, edit_distance, lemma_distance_at_least_length_gap, lemma_distance_zero_iff_equal,
};

verus! {

/// The greatest edit distance at which a name is still offered.
pub const DEFAULT_THRESHOLD: usize = 2;

/// The value of `min_distance` when no name is within the threshold.
pub const NO_DISTANCE: usize = usize::MAX;

/// The closest names to a query, and how far from it they are.
#[derive(Debug, PartialEq, Eq)]
pub struct Suggestions {
    /// The names at the least distance, in alphabet order.
    pub matches: Vec<String>,
    /// That least distance, or `NO_DISTANCE` when there are no matches.
    pub min_distance: usize,
}

impl Suggestions {
    /// The suggested names as sequences of characters.
    pub open spec fn names(&self) -> Seq<Seq<char>> {
        Seq::new(self.matches@.len(), |i: int| self.matches@[i]@)
    }
}

/// Some name is within `threshold` of `query`.
pub open spec fn has_candidate(names: Seq<Seq<char>>, query: Seq<char>, threshold: nat) -> bool {
    exists|i: int| 0 <= i < names.len() && edit_distance(query, #[trigger] names[i]) <= threshold
}

/// `d` is the distance from `query` to the nearest of `names`: some name is
/// at that distance and none is nearer.
pub open spec fn is_least_distance(names: Seq<Seq<char>>, query: Seq<char>, d: nat) -> bool {
    &&& exists|i: int| 0 <= i < names.len() && edit_distance(query, #[trigger] names[i]) == d
    &&& forall|i: int| 0 <= i < names.len() ==> edit_distance(query, #[trigger] names[i]) >= d
}

/// The names at distance `d` from `query`, in the order of `names`.
pub open spec fn names_at_distance(names: Seq<Seq<char>>, query: Seq<char>, d: nat) -> Seq<
    Seq<char>,
> {
    names.filter(|name: Seq<char>| edit_distance(query, name) == d)
}

/// What `suggest` answers: if some name is within the threshold, the least
/// distance and every name at it; otherwise nothing.
pub open spec fn suggestion_of(
    names: Seq<Seq<char>>,
    query: Seq<char>,
    threshold: nat,
    matches: Seq<Seq<char>>,
    min_distance: nat,
) -> bool {
    if has_candidate(names, query, threshold) {
        &&& min_distance <= threshold
        &&& is_least_distance(names, query, min_distance)
        &&& matches == names_at_distance(names, query, min_distance)
    } else {
        &&& min_distance == NO_DISTANCE
        &&& matches == Seq::<Seq<char>>::empty()
    }
}

impl Alphabet {
    /// Scores every name against `query` and returns the closest ones: all
    /// names whose distance is the least one, provided that it is at most
    /// `threshold`. Ties are all returned, in alphabet order. With no name
    /// within the threshold the result is empty.
    pub fn suggest(&self, query: &str, threshold: usize) -> (found: Suggestions)
        ensures
            suggestion_of(
                self.names(),
                query@,
                threshold as nat,
                found.names(),
                found.min_distance as nat,
            ),
            found.matches@.len() == 0 <==> !has_candidate(self.names(), query@, threshold as nat),
            forall|k: int|
                0 <= k < found.matches@.len() ==> edit_distance(query@, #[trigger] found.names()[k])
                    == found.min_distance,
    {
        let ghost names = self.names();
        let n: usize = self.letters.len();
        let mut distances: Vec<usize> = Vec::new();
        let mut any: bool = false;
        let mut least: usize = NO_DISTANCE;
        let mut i: usize = 0;
        while i < n
            invariant
                n == self.letters@.len(),
                names == self.names(),
                i <= n,
                distances@.len() == i,
                forall|k: int|
                    0 <= k < i ==> #[trigger] distances@[k] == edit_distance(query@, names[k]),
                !any ==> least == NO_DISTANCE,
                !any ==> forall|k: int|
                    0 <= k < i ==> edit_distance(query@, #[trigger] names[k]) > threshold,
                any ==> least <= threshold,
                any ==> exists|k: int|
                    0 <= k < i && edit_distance(query@, #[trigger] names[k]) == least,
                any ==> forall|k: int|
                    0 <= k < i ==> edit_distance(query@, #[trigger] names[k]) >= least,
            decreases n - i,
        {
            let d: usize = distance(query, self.letters[i].name.as_str());
            assert(d == edit_distance(query@, names[i as int]));
            if d <= threshold && (!any || d < least) {
                any = true;
                least = d;
            }
            distances.push(d);
            i += 1;
        }
        let mut matches: Vec<String> = Vec::new();
        if !any {
            let found = Suggestions { matches, min_distance: least };
            assert(found.names() =~= Seq::<Seq<char>>::empty());
            return found;
        }
        let ghost keep = |name: Seq<char>| edit_distance(query@, name) == least as nat;
        let mut j: usize = 0;
        while j < n
            invariant
                n == self.letters@.len(),
                names == self.names(),
                j <= n,
                distances@.len() == n,
                forall|k: int|
                    0 <= k < n ==> #[trigger] distances@[k] == edit_distance(query@, names[k]),
                keep == |name: Seq<char>| edit_distance(query@, name) == least as nat,
                Seq::new(matches@.len(), |k: int| matches@[k]@) == names.take(j as int).filter(
                    keep,
                ),
            decreases n - j,
        {
            proof {
                lemma_filter_next(names, keep, j as int);
            }
            if distances[j] == least {
                matches.push(self.letters[j].name.clone());
                assert(Seq::new(matches@.len(), |k: int| matches@[k]@) =~= names.take(
                    j as int,
                ).filter(keep).push(names[j as int]));
            }
            j += 1;
        }
        let found = Suggestions { matches, min_distance: least };
        proof {
            assert(names.take(n as int) =~= names);
            assert(found.names() == names_at_distance(names, query@, least as nat));
            let w = choose|k: int|
                0 <= k < n && edit_distance(query@, #[trigger] names[k]) == least;
            names.lemma_filter_contains(keep, w);
            assert forall|k: int| 0 <= k < found.matches@.len() implies edit_distance(
                query@,
                #[trigger] found.names()[k],
            ) == found.min_distance by {
                names.lemma_filter_pred(keep, k);
            }
        }
        found
    }
}

/// Filtering one more element: the filtered prefix grows by that element
/// exactly when the predicate holds of it.
pub proof fn lemma_filter_next<A>(s: Seq<A>, keep: spec_fn(A) -> bool, i: int)
    requires
        0 <= i < s.len(),
    ensures
        s.take(i + 1).filter(keep) == if keep(s[i]) {
            s.take(i).filter(keep).push(s[i])
        } else {
            s.take(i).filter(keep)
        },
{
    reveal(Seq::filter);
    assert(s.take(i + 1).drop_last() =~= s.take(i));
    assert(s.take(i + 1).last() == s[i]);
}

/// Filtering a sequence that holds nothing twice leaves one that holds
/// nothing twice.
pub proof fn lemma_filter_distinct<A>(s: Seq<A>, keep: spec_fn(A) -> bool)
    requires
        s.no_duplicates(),
    ensures
        s.filter(keep).no_duplicates(),
    decreases s.len(),
{
    reveal(Seq::filter);
    if s.len() > 0 {
        let front = s.drop_last();
        lemma_filter_distinct(front, keep);
        if keep(s.last()) {
            let kept = front.filter(keep);
            assert forall|i: int| 0 <= i < kept.len() implies kept[i] != s.last() by {
                assert(kept.contains(kept[i]));
                front.lemma_filter_contains_rev(keep, kept[i]);
                let at = choose|at: int| 0 <= at < front.len() && front[at] == kept[i];
                assert(s[at] == kept[i]);
            }
        }
    }
}

/// The least distance is unique: two numbers that both are the distance to
/// the nearest name are the same number.
pub proof fn lemma_least_distance_unique(names: Seq<Seq<char>>, query: Seq<char>, d: nat, e: nat)
    requires
        is_least_distance(names, query, d),
        is_least_distance(names, query, e),
    ensures
        d == e,
{
}

/// In a well-formed alphabet no name is suggested twice: the matches are a
/// set of names.
pub proof fn lemma_matches_distinct(names: Seq<Seq<char>>, query: Seq<char>, d: nat)
    requires
        names_valid(names),
    ensures
        names_at_distance(names, query, d).no_duplicates(),
{
    lemma_filter_distinct(names, |name: Seq<char>| edit_distance(query, name) == d);
}

/// A query that is the name of no letter is at distance one or more from
/// the nearest: after a failed exact lookup no suggestion is the query
/// itself.
pub proof fn lemma_absent_query_is_off(names: Seq<Seq<char>>, query: Seq<char>, d: nat)
    requires
        is_absent(names, query),
        is_least_distance(names, query, d),
    ensures
        d >= 1,
{
    let i = choose|i: int| 0 <= i < names.len() && edit_distance(query, #[trigger] names[i]) == d;
    lemma_distance_zero_iff_equal(query, names[i]);
}

/// A suggested name differs in length from the query by no more than the
/// threshold.
pub proof fn lemma_matches_near_in_length(
    names: Seq<Seq<char>>,
    query: Seq<char>,
    threshold: nat,
    matches: Seq<Seq<char>>,
    min_distance: nat,
    k: int,
)
    requires
        suggestion_of(names, query, threshold, matches, min_distance),
        0 <= k < matches.len(),
    ensures
        matches[k].len() - query.len() <= threshold,
        query.len() - matches[k].len() <= threshold,
{
    names.lemma_filter_pred(|name: Seq<char>| edit_distance(query, name) == min_distance, k);
    lemma_distance_at_least_length_gap(query, matches[k]);
}

} // verus!
