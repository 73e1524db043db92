//! Choosing a category for a thought from the similarity of the thought to
//! each category.
//!
//! The similarities themselves are floating-point numbers computed by an
//! embedding model; here each is represented by its rank, an integer that
//! orders the similarities as they compare with `>`. [`NO_SCORE`] is the
//! rank of a similarity that no other similarity is below: negative
//! infinity, and a similarity that compares with nothing (NaN).

use vstd::prelude::*;

verus! {

/// The rank of a similarity that never wins the comparison.
pub const NO_SCORE: i64 = i64::MIN;

/// The category used when no category scores above [`NO_SCORE`].
pub open spec fn fallback_category() -> Seq<char> {
    "Misc"@
}

/// Whether some category in `scored` ranks above [`NO_SCORE`].
pub open spec fn has_winner(scored: Seq<(String, i64)>) -> bool {
    exists|i: int| 0 <= i < scored.len() && scored[i].1 > NO_SCORE
}

/// Whether `k` is the first index of a greatest rank in `scored`.
pub open spec fn is_first_best(scored: Seq<(String, i64)>, k: int) -> bool {
    &&& 0 <= k < scored.len()
    &&& forall|j: int| 0 <= j < scored.len() ==> scored[j].1 <= scored[k].1
    &&& forall|j: int| 0 <= j < k ==> scored[j].1 < scored[k].1
}

/// Picks the category whose similarity to the text is greatest, the first
/// such one on a tie, as a scan that replaces its choice only on a strictly
/// greater similarity does; "Misc" when the list is empty or no similarity
/// ranks above [`NO_SCORE`].
pub fn choose_category(scored: &Vec<(String, i64)>) -> (r: String)
    ensures
        !has_winner(scored@) ==> r@ == fallback_category(),
        has_winner(scored@) ==> exists|k: int|
            is_first_best(scored@, k) && scored@[k].1 > NO_SCORE && r@ == scored@[k].0@,
{
    let mut best: Option<usize> = None;
    let mut best_rank: i64 = NO_SCORE;
    let mut i: usize = 0;
    while i < scored.len()
        invariant
            i <= scored.len(),
            best is None ==> best_rank == NO_SCORE,
            best is None ==> forall|j: int| 0 <= j < i ==> scored@[j].1 == NO_SCORE,
            best matches Some(k) ==> {
                &&& k < i
                &&& best_rank == scored@[k as int].1
                &&& best_rank > NO_SCORE
                &&& forall|j: int| 0 <= j < i ==> scored@[j].1 <= best_rank
                &&& forall|j: int| 0 <= j < k ==> scored@[j].1 < best_rank
            },
        decreases scored.len() - i,
    {
        if scored[i].1 > best_rank {
            best = Some(i);
            best_rank = scored[i].1;
        }
        i = i + 1;
    }
    match best {
        Some(k) => {
            assert(is_first_best(scored@, k as int));
            scored[k].0.clone()
        },
        None => String::from_str("Misc"),
    }
}

} // verus!
