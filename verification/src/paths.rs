//! The form in which paths are tested and reported.

use vstd::prelude::*;

verus! {

/// `path` without one leading `./`, or `path` itself where it does not start
/// with `./`.
pub open spec fn without_dot_slash(path: Seq<char>) -> Seq<char> {
    if path.len() >= 2 && path[0] == '.' && path[1] == '/' {
        path.subrange(2, path.len() as int)
    } else {
        path
    }
}

/// Strips one leading `./` from a path; any other path is returned as it is.
pub fn strip_dot_slash(path: &str) -> (stripped: &str)
    ensures
        stripped@ == without_dot_slash(path@),
{
    let length = path.unicode_len();
    if length >= 2 && path.get_char(0) == '.' && path.get_char(1) == '/' {
        path.substring_char(2, length)
    } else {
        path
    }
}

} // verus!
