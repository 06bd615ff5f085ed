//! The search as a whole.

use crate::collector::{
    collect_files, collected, is_path_of_visited_file, visits, TraversalEntryError, WalkEntry,
};
use crate::error::FindError;
use crate::file_types::types_available;
use crate::outside::compiled;
use crate::pattern::{all_patterns, anchored_alternation, every_fragment_compiles};
use crate::roots::{
    lemma_adjacent_duplicates_collapse, lemma_roots_remain, normalize_roots,
    without_adjacent_duplicates,
};
use crate::text::texts;
use crate::walker::{build_walker, planned, planning_failure, WalkPlan, WalkPlanView};
use vstd::prelude::*;

verus! {

/// The reason for which a search is refused, if there is one.
pub open spec fn search_failure(
    directories: Seq<Seq<char>>,
    exclude: Seq<Seq<char>>,
    extend_exclude: Seq<Seq<char>>,
    ignore_notebooks: bool,
) -> Option<FindError> {
    planning_failure(
        without_adjacent_duplicates(directories),
        exclude + extend_exclude,
        ignore_notebooks,
    )
}

/// The plan of the traversal that a search asks for: the roots without
/// adjacent duplicates, and the patterns of both lists as one list.
pub open spec fn search_plan(
    directories: Seq<Seq<char>>,
    exclude: Seq<Seq<char>>,
    extend_exclude: Seq<Seq<char>>,
    using_default_exclude: bool,
    ignore_notebooks: bool,
) -> WalkPlanView {
    planned(
        without_adjacent_duplicates(directories),
        exclude + extend_exclude,
        using_default_exclude,
        ignore_notebooks,
    )
}

/// A search is carried out exactly when a directory is given, every pattern
/// of both lists is a regular expression on its own, the pattern that joins
/// them compiles, and the file type matcher can be built. Nothing else
/// decides: the same arguments are refused or carried out every time.
pub proof fn lemma_search_is_carried_out(
    directories: Seq<Seq<char>>,
    exclude: Seq<Seq<char>>,
    extend_exclude: Seq<Seq<char>>,
    ignore_notebooks: bool,
)
    ensures
        search_failure(directories, exclude, extend_exclude, ignore_notebooks) is None <==> {
            &&& directories.len() > 0
            &&& every_fragment_compiles(exclude + extend_exclude)
            &&& (exclude + extend_exclude).len() > 0 ==> compiled(
                anchored_alternation(exclude + extend_exclude),
            ) is Some
            &&& types_available(ignore_notebooks)
        },
{
    lemma_roots_remain(directories);
}

/// A root that is given twice in a row is searched once: the search with
/// the pair is the search with one of the two, whatever roots stand before
/// and after.
pub proof fn lemma_repeated_root_is_searched_once(
    before: Seq<Seq<char>>,
    root: Seq<char>,
    after: Seq<Seq<char>>,
    exclude: Seq<Seq<char>>,
    extend_exclude: Seq<Seq<char>>,
    using_default_exclude: bool,
    ignore_notebooks: bool,
)
    ensures
        search_plan(
            before.push(root).push(root) + after,
            exclude,
            extend_exclude,
            using_default_exclude,
            ignore_notebooks,
        ) == search_plan(
            before.push(root) + after,
            exclude,
            extend_exclude,
            using_default_exclude,
            ignore_notebooks,
        ),
        search_failure(
            before.push(root).push(root) + after,
            exclude,
            extend_exclude,
            ignore_notebooks,
        ) == search_failure(before.push(root) + after, exclude, extend_exclude, ignore_notebooks),
{
    lemma_adjacent_duplicates_collapse(before, root, after);
}

/// The two lists of patterns count as one list: a search depends on the
/// patterns of `exclude` followed by those of `extend_exclude`, and not on
/// where the first list ends.
pub proof fn lemma_exclude_lists_are_one_list(
    directories: Seq<Seq<char>>,
    exclude: Seq<Seq<char>>,
    extend_exclude: Seq<Seq<char>>,
    using_default_exclude: bool,
    ignore_notebooks: bool,
)
    ensures
        search_plan(directories, exclude, extend_exclude, using_default_exclude, ignore_notebooks)
            == search_plan(
            directories,
            exclude + extend_exclude,
            Seq::empty(),
            using_default_exclude,
            ignore_notebooks,
        ),
        search_failure(directories, exclude, extend_exclude, ignore_notebooks) == search_failure(
            directories,
            exclude + extend_exclude,
            Seq::empty(),
            ignore_notebooks,
        ),
{
}

/// Finds the Python files below `directories`.
///
/// The search is refused, before anything is walked, if no directory is
/// given, if the patterns of `exclude` and `extend_exclude` do not compile, or
/// if the file type matcher cannot be built. Otherwise `walk` is called once
/// with the plan of the traversal, and the result holds the paths of the
/// regular files among the entries it returns, each without a leading `./`,
/// in the order in which they were visited. No directory, no other node and
/// no entry that failed has a path in the result.
pub fn find_python_files<W>(
    directories: Vec<String>,
    exclude: Vec<&str>,
    extend_exclude: Vec<&str>,
    using_default_exclude: bool,
    ignore_notebooks: bool,
    walk: W,
) -> (r: Result<Vec<String>, FindError>) where
    W: FnOnce(WalkPlan) -> Vec<Result<WalkEntry, TraversalEntryError>>,

    requires
        forall|plan: WalkPlan| walk.requires((plan,)),
    ensures
        match r {
            Ok(files) => {
                &&& search_failure(
                    texts(directories@),
                    texts(exclude@),
                    texts(extend_exclude@),
                    ignore_notebooks,
                ) is None
                &&& exists|plan: WalkPlan, walked: Vec<Result<WalkEntry, TraversalEntryError>>|
                    {
                        &&& plan@ == search_plan(
                            texts(directories@),
                            texts(exclude@),
                            texts(extend_exclude@),
                            using_default_exclude,
                            ignore_notebooks,
                        )
                        &&& walk.ensures((plan,), walked)
                        &&& texts(files@) == collected(visits(walked@))
                        &&& forall|i: int|
                            0 <= i < files@.len() ==> is_path_of_visited_file(
                                visits(walked@),
                                (#[trigger] files@[i])@,
                            )
                    }
            },
            Err(e) => search_failure(
                texts(directories@),
                texts(exclude@),
                texts(extend_exclude@),
                ignore_notebooks,
            ) == Some(e),
        },
{
    let unique_directories = normalize_roots(&directories);
    let excluded_patterns = all_patterns(&exclude, &extend_exclude);
    let plan = match build_walker(
        unique_directories,
        excluded_patterns,
        using_default_exclude,
        ignore_notebooks,
    ) {
        Ok(plan) => plan,
        Err(e) => {
            return Err(e);
        },
    };
    let walked = walk(plan);
    Ok(collect_files(&walked))
}

} // verus!
