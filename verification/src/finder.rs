//! Approximate name matching: score candidates by the positions at which they
//! agree with the wanted name, and pick the best one.

use vstd::prelude::*;
use crate::text::{chars_of, str_equal, views};

verus! {

/// The smaller of two lengths.
pub open spec fn shorter(a: Seq<char>, b: Seq<char>) -> nat {
    if a.len() <= b.len() {
        a.len()
    } else {
        b.len()
    }
}

/// How many of the first `n` positions hold the same character in `a` and `b`.
pub open spec fn agreeing_positions(a: Seq<char>, b: Seq<char>, n: nat) -> nat
    recommends
        n <= shorter(a, b),
    decreases n,
{
    if n == 0 {
        0
    } else {
        let rest = agreeing_positions(a, b, (n - 1) as nat);
        if a[n - 1] == b[n - 1] {
            rest + 1
        } else {
            rest
        }
    }
}

/// The score of `b` against `a`: the number of positions, up to the end of the
/// shorter one, at which both hold the same character.
pub open spec fn overlap_score(a: Seq<char>, b: Seq<char>) -> nat {
    agreeing_positions(a, b, shorter(a, b))
}

/// Counts the positions at which `v1` and `v2` hold the same character.
pub fn check_string_equality(v1: &str, v2: &str) -> (score: u32)
    requires
        shorter(v1@, v2@) <= u32::MAX,
    ensures
        score == overlap_score(v1@, v2@),
{
    let a = chars_of(v1);
    let b = chars_of(v2);
    let n: usize = if a.len() <= b.len() { a.len() } else { b.len() };
    let mut score: u32 = 0;
    let mut i: usize = 0;
    while i < n
        invariant
            i <= n,
            n == shorter(a@, b@),
            n <= u32::MAX,
            score == agreeing_positions(a@, b@, i as nat),
            score <= i,
        decreases n - i,
    {
        if a[i] == b[i] {
            score = score + 1;
        }
        i = i + 1;
    }
    score
}

/// Whether `best` is the candidate that the search settles on: none scores
/// more against `value`, and every later one scores less.
pub open spec fn is_best_match(value: Seq<char>, names: Seq<Seq<char>>, best: int) -> bool {
    &&& 0 <= best < names.len()
    &&& forall|j: int|
        0 <= j < names.len() ==> overlap_score(value, #[trigger] names[j]) <= overlap_score(
            value,
            names[best],
        )
    &&& forall|j: int|
        best < j < names.len() ==> overlap_score(value, #[trigger] names[j]) < overlap_score(
            value,
            names[best],
        )
}

/// At most one candidate is the best match.
pub proof fn lemma_best_match_unique(value: Seq<char>, names: Seq<Seq<char>>, i: int, j: int)
    requires
        is_best_match(value, names, i),
        is_best_match(value, names, j),
    ensures
        i == j,
{
    if i < j {
        assert(overlap_score(value, names[j]) < overlap_score(value, names[i]));
        assert(overlap_score(value, names[i]) <= overlap_score(value, names[j]));
    } else if j < i {
        assert(overlap_score(value, names[i]) < overlap_score(value, names[j]));
        assert(overlap_score(value, names[j]) <= overlap_score(value, names[i]));
    }
}

/// Finds the candidate closest to `value` among `names`.
///
/// Returns the position of the best-scoring name (the last one, where
/// several score the same) and whether that name is exactly `value`; with no
/// candidates, `(false, None)`.
pub fn find_best_by_value(value: &str, names: &Vec<String>) -> (found: (bool, Option<usize>))
    requires
        value@.len() <= u32::MAX,
    ensures
        names@.len() == 0 ==> found == (false, None::<usize>),
        names@.len() > 0 ==> found.1 is Some && is_best_match(
            value@,
            views(names@),
            found.1->0 as int,
        ) && found.0 == (value@ == names@[found.1->0 as int]@),
{
    if names.len() == 0 {
        return (false, None);
    }
    let ghost candidates = views(names@);
    let mut best: usize = 0;
    let mut best_score: u32 = check_string_equality(value, names[0].as_str());
    let mut i: usize = 1;
    while i < names.len()
        invariant
            1 <= i <= names.len(),
            best < i,
            candidates == views(names@),
            value@.len() <= u32::MAX,
            best_score == overlap_score(value@, candidates[best as int]),
            forall|j: int|
                0 <= j < i ==> overlap_score(value@, #[trigger] candidates[j]) <= best_score,
            forall|j: int|
                best < j < i ==> overlap_score(value@, #[trigger] candidates[j]) < best_score,
        decreases names.len() - i,
    {
        let score = check_string_equality(value, names[i].as_str());
        if score >= best_score {
            best = i;
            best_score = score;
        }
        i = i + 1;
    }
    let equal = str_equal(value, names[best].as_str());
    (equal, Some(best))
}

} // verus!
