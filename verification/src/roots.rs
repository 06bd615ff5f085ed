//! The roots of a search: which of the directories that were given are
//! walked.

use crate::outside::{path_equal, paths_equal};
use crate::text::texts;
use vstd::prelude::*;

verus! {

/// Whether two roots are the same directory as far as their texts tell: they
/// are written alike, or they are equal as paths.
pub open spec fn same_root(one: Seq<char>, other: Seq<char>) -> bool {
    one == other || path_equal(one, other)
}

/// `roots` without every root that repeats the one kept before it.
///
/// Only neighbours are compared: a root that comes back after a different one
/// is kept again.
pub open spec fn without_adjacent_duplicates(roots: Seq<Seq<char>>) -> Seq<Seq<char>>
    decreases roots.len(),
{
    if roots.len() == 0 {
        roots
    } else {
        let kept = without_adjacent_duplicates(roots.drop_last());
        if kept.len() > 0 && same_root(roots.last(), kept.last()) {
            kept
        } else {
            kept.push(roots.last())
        }
    }
}

/// A single root is kept as it is.
pub proof fn lemma_single_root_is_kept(root: Seq<char>)
    ensures
        without_adjacent_duplicates(seq![root]) == seq![root],
{
    let none = Seq::<Seq<char>>::empty();
    assert(seq![root].drop_last() == none);
    assert(without_adjacent_duplicates(none) == none);
}

/// A root that is given twice in a row counts once: the second of the two
/// changes nothing, whatever stands before the pair and whatever follows it.
pub proof fn lemma_adjacent_duplicates_collapse(
    before: Seq<Seq<char>>,
    root: Seq<char>,
    after: Seq<Seq<char>>,
)
    ensures
        without_adjacent_duplicates(before.push(root).push(root) + after)
            == without_adjacent_duplicates(before.push(root) + after),
        without_adjacent_duplicates(seq![root, root]) == seq![root],
    decreases after.len(),
{
    let once = before.push(root);
    let twice = once.push(root);
    if after.len() == 0 {
        assert(twice + after == twice);
        assert(once + after == once);
        assert(twice.drop_last() == once);
    } else {
        lemma_adjacent_duplicates_collapse(before, root, after.drop_last());
        assert((twice + after).drop_last() == twice + after.drop_last());
        assert((once + after).drop_last() == once + after.drop_last());
    }
    lemma_single_root_is_kept(root);
    assert(seq![root, root].drop_last() == seq![root]);
}

/// A root that comes back after a different one is kept both times: only
/// neighbours are compared. Three roots of which no two neighbours are the
/// same directory are all kept, though the first and the last are written
/// alike.
pub proof fn lemma_separated_duplicates_stay(root: Seq<char>, between: Seq<char>)
    ensures
        !same_root(between, root) && !same_root(root, between) ==> without_adjacent_duplicates(
            seq![root, between, root],
        ) == seq![root, between, root],
{
    let one = seq![root];
    let two = seq![root, between];
    let all = seq![root, between, root];
    lemma_single_root_is_kept(root);
    assert(two.drop_last() == one);
    if !same_root(between, root) {
        assert(without_adjacent_duplicates(two) == one.push(between));
    }
    assert(all.drop_last() == two);
}

/// Some root is kept exactly when some root is given.
pub proof fn lemma_roots_remain(roots: Seq<Seq<char>>)
    ensures
        without_adjacent_duplicates(roots).len() > 0 <==> roots.len() > 0,
{
    lemma_no_adjacent_duplicates_remain(roots);
}

/// What is kept has no root that repeats the one before it, starts with the
/// first root, and is no longer than the list it was made from.
pub proof fn lemma_no_adjacent_duplicates_remain(roots: Seq<Seq<char>>)
    ensures
        forall|i: int|
            0 < i < without_adjacent_duplicates(roots).len() ==> !same_root(
                #[trigger] without_adjacent_duplicates(roots)[i],
                without_adjacent_duplicates(roots)[i - 1],
            ),
        without_adjacent_duplicates(roots).len() <= roots.len(),
        roots.len() > 0 ==> without_adjacent_duplicates(roots).len() > 0
            && without_adjacent_duplicates(roots)[0] == roots[0],
    decreases roots.len(),
{
    if roots.len() > 0 {
        lemma_no_adjacent_duplicates_remain(roots.drop_last());
    }
}

/// Removes the roots that repeat the root before them, keeping the first of
/// each run and the order of the rest.
pub fn normalize_roots(directories: &Vec<String>) -> (unique: Vec<String>)
    ensures
        texts(unique@) == without_adjacent_duplicates(texts(directories@)),
{
    let mut unique: Vec<String> = Vec::new();
    let mut i: usize = 0;
    while i < directories.len()
        invariant
            i <= directories.len(),
            texts(unique@) == without_adjacent_duplicates(texts(directories@).take(i as int)),
        decreases directories.len() - i,
    {
        assert(texts(directories@).take(i + 1).drop_last() == texts(directories@).take(i as int));
        let repeats = unique.len() > 0 && paths_equal(
            directories[i].as_str(),
            unique[unique.len() - 1].as_str(),
        );
        if !repeats {
            unique.push(directories[i].clone());
        }
        i += 1;
    }
    assert(texts(directories@).take(i as int) == texts(directories@));
    unique
}

} // verus!
