//! The result of a search: what is kept of the entries that a traversal
//! visited.

use crate::paths::{strip_dot_slash, without_dot_slash};
use crate::text::texts;
use vstd::prelude::*;

verus! {

/// What kind of file system node an entry is.
#[derive(Clone, Copy, Debug, PartialEq, Eq, Structural)]
pub enum EntryKind {
    /// A regular file.
    File,
    /// A directory.
    Directory,
    /// Anything else: a socket, a device, a link that leads nowhere.
    Other,
}

/// One node that a traversal visited.
#[derive(Debug)]
pub struct WalkEntry {
    /// The path as the traversal reports it, starting at its root.
    pub path: String,
    /// The kind of the node.
    pub kind: EntryKind,
}

/// An entry that a traversal could not read. It says nothing more: such an
/// entry is left out of the result and the traversal goes on.
#[derive(Clone, Copy, Debug, PartialEq, Eq, Structural)]
pub struct TraversalEntryError;

/// A visited node as plain values.
pub struct WalkEntryView {
    pub path: Seq<char>,
    pub kind: EntryKind,
}

impl View for WalkEntry {
    type V = WalkEntryView;

    open spec fn view(&self) -> WalkEntryView {
        WalkEntryView { path: self.path@, kind: self.kind }
    }
}

/// One step of a traversal as plain values: the node it visited, or nothing
/// where the entry could not be read.
pub open spec fn visit(step: Result<WalkEntry, TraversalEntryError>) -> Option<WalkEntryView> {
    match step {
        Ok(entry) => Some(entry@),
        Err(_) => None,
    }
}

/// The steps of a traversal as plain values, in their order.
pub open spec fn visits(walked: Seq<Result<WalkEntry, TraversalEntryError>>) -> Seq<
    Option<WalkEntryView>,
> {
    walked.map_values(|step: Result<WalkEntry, TraversalEntryError>| visit(step))
}

/// What one step adds to the result: the path of a regular file without a
/// leading `./`, and nothing for any other step.
pub open spec fn yielded(step: Option<WalkEntryView>) -> Option<Seq<char>> {
    match step {
        Some(entry) => if entry.kind == EntryKind::File {
            Some(without_dot_slash(entry.path))
        } else {
            None
        },
        None => None,
    }
}

/// The result of a traversal: what its steps yield, in their order.
pub open spec fn collected(steps: Seq<Option<WalkEntryView>>) -> Seq<Seq<char>> {
    steps.filter_map(|step: Option<WalkEntryView>| yielded(step))
}

/// Gathers the paths of the regular files among the steps of a traversal.
///
/// Steps that failed are dropped, and so is every entry that is not a regular
/// file. Each path loses one leading `./` and is otherwise left as it was
/// reported.
pub fn collect_files(walked: &Vec<Result<WalkEntry, TraversalEntryError>>) -> (files: Vec<String>)
    ensures
        texts(files@) == collected(visits(walked@)),
        forall|i: int|
            0 <= i < files@.len() ==> is_path_of_visited_file(
                visits(walked@),
                (#[trigger] files@[i])@,
            ),
{
    let ghost steps = visits(walked@);
    let ghost step_yield = |step: Option<WalkEntryView>| yielded(step);
    let mut files: Vec<String> = Vec::new();
    let mut i: usize = 0;
    while i < walked.len()
        invariant
            i <= walked.len(),
            steps == visits(walked@),
            step_yield == |step: Option<WalkEntryView>| yielded(step),
            texts(files@) == steps.take(i as int).filter_map(step_yield),
        decreases walked.len() - i,
    {
        proof {
            steps.lemma_filter_map_take_succ(step_yield, i as int);
        }
        match &walked[i] {
            Ok(entry) => {
                if entry.kind == EntryKind::File {
                    files.push(String::from_str(strip_dot_slash(entry.path.as_str())));
                }
            },
            Err(_) => {},
        }
        i += 1;
    }
    assert(steps.take(i as int) == steps);
    proof {
        lemma_result_is_the_regular_files(steps);
        assert forall|k: int| 0 <= k < files@.len() implies is_path_of_visited_file(
            steps,
            (#[trigger] files@[k])@,
        ) by {
            assert(files@[k]@ == collected(steps)[k]);
        }
    }
    files
}

/// What a single step yields, as a list of no or one path.
pub open spec fn yield_of(step: Option<WalkEntryView>) -> Seq<Seq<char>> {
    match yielded(step) {
        Some(path) => seq![path],
        None => Seq::empty(),
    }
}

/// The result of two traversals in a row is the result of the first followed
/// by the result of the second.
pub proof fn lemma_collected_concat(
    first: Seq<Option<WalkEntryView>>,
    second: Seq<Option<WalkEntryView>>,
)
    ensures
        collected(first + second) == collected(first) + collected(second),
    decreases second.len(),
{
    if second.len() > 0 {
        lemma_collected_concat(first, second.drop_last());
        assert((first + second).drop_last() == first + second.drop_last());
        assert(collected(first + second) == collected(first + second.drop_last()) + yield_of(
            second.last(),
        ));
    }
}

/// Whether a step visited a regular file.
pub open spec fn is_regular_file(step: Option<WalkEntryView>) -> bool {
    step matches Some(entry) && entry.kind == EntryKind::File
}

/// Whether `path` is what some visited regular file adds to the result.
pub open spec fn is_path_of_visited_file(
    steps: Seq<Option<WalkEntryView>>,
    path: Seq<char>,
) -> bool {
    exists|j: int|
        0 <= j < steps.len() && is_regular_file(#[trigger] steps[j]) && path == without_dot_slash(
            steps[j]->0.path,
        )
}

/// Every path of the result is the path of a regular file that was visited,
/// and every regular file that was visited has its path in the result: no
/// directory, no other node and no failed entry adds anything.
pub proof fn lemma_result_is_the_regular_files(steps: Seq<Option<WalkEntryView>>)
    ensures
        forall|i: int|
            0 <= i < collected(steps).len() ==> is_path_of_visited_file(
                steps,
                #[trigger] collected(steps)[i],
            ),
        forall|j: int|
            0 <= j < steps.len() && is_regular_file(#[trigger] steps[j]) ==> collected(
                steps,
            ).contains(without_dot_slash(steps[j]->0.path)),
    decreases steps.len(),
{
    if steps.len() > 0 {
        let before = steps.drop_last();
        let last = steps.last();
        lemma_result_is_the_regular_files(before);
        assert forall|i: int| 0 <= i < collected(steps).len() implies is_path_of_visited_file(
            steps,
            #[trigger] collected(steps)[i],
        ) by {
            if i < collected(before).len() {
                let j = choose|j: int|
                    0 <= j < before.len() && is_regular_file(#[trigger] before[j]) && collected(
                        before,
                    )[i] == without_dot_slash(before[j]->0.path);
                assert(steps[j] == before[j]);
            } else {
                assert(is_regular_file(steps[steps.len() - 1]));
            }
        }
        assert forall|j: int|
            0 <= j < steps.len() && is_regular_file(#[trigger] steps[j]) implies collected(
            steps,
        ).contains(without_dot_slash(steps[j]->0.path)) by {
            let path = without_dot_slash(steps[j]->0.path);
            if j < before.len() {
                assert(before[j] == steps[j]);
                let i = choose|i: int|
                    0 <= i < collected(before).len() && collected(before)[i] == path;
                assert(collected(steps)[i] == path);
            } else {
                assert(collected(steps)[collected(before).len() as int] == path);
            }
        }
    }
}

/// The result depends on the order of the visits only in its own order: two
/// traversals that visit the same entries, each as often as the other, give
/// the same paths, each as often as the other.
pub proof fn lemma_order_of_visits_is_irrelevant(
    one: Seq<Option<WalkEntryView>>,
    other: Seq<Option<WalkEntryView>>,
)
    requires
        one.to_multiset() == other.to_multiset(),
    ensures
        collected(one).to_multiset() == collected(other).to_multiset(),
    decreases one.len(),
{
    one.to_multiset_ensures();
    other.to_multiset_ensures();
    if one.len() > 0 {
        let last = one.last();
        let before = one.drop_last();
        assert(one == before.push(last));
        assert(one.to_multiset().count(last) > 0);
        let j = choose|j: int| 0 <= j < other.len() && other[j] == last;
        let rest = other.remove(j);
        before.to_multiset_ensures();
        assert(before.to_multiset() =~= rest.to_multiset());
        lemma_order_of_visits_is_irrelevant(before, rest);

        let head = other.take(j);
        let tail = other.skip(j + 1);
        assert(other == head + seq![last] + tail);
        lemma_collected_concat(head, seq![last]);
        lemma_collected_concat(head + seq![last], tail);
        lemma_collected_concat(head, tail);
        assert(collected(seq![last]) == yield_of(last)) by {
            reveal_with_fuel(Seq::filter_map, 2);
        }
        vstd::seq_lib::lemma_multiset_commutative(collected(before), yield_of(last));
        vstd::seq_lib::lemma_multiset_commutative(collected(head), yield_of(last));
        vstd::seq_lib::lemma_multiset_commutative(collected(head) + yield_of(last), collected(tail));
        vstd::seq_lib::lemma_multiset_commutative(collected(head), collected(tail));
    }
}

} // verus!
