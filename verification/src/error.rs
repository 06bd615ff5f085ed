//! The reasons for which a search is refused.

use vstd::prelude::*;

verus! {

/// Why a search was refused before any directory was visited.
#[derive(Clone, Copy, Debug, PartialEq, Eq, Structural)]
pub enum FindError {
    /// No root directory was given.
    Configuration,
    /// The exclusion patterns do not form a valid regular expression.
    Pattern,
    /// The file type matcher could not be built.
    Build,
}

} // verus!
