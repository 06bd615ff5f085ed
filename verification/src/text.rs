//! How lists of strings are read in contracts.

use vstd::prelude::*;

verus! {

/// The texts of a list of strings or string slices, in their order.
pub open spec fn texts<T: View<V = Seq<char>>>(strings: Seq<T>) -> Seq<Seq<char>> {
    strings.map_values(|s: T| s@)
}

} // verus!
