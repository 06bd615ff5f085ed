//! Finds the Python source files, and optionally the Jupyter notebooks, below
//! a set of root directories.
//!
//! The crate holds what is decided about such a search: which roots are
//! walked, which file types are selected, which paths the exclusion patterns
//! prune, and which of the visited entries make up the result. It does not
//! touch the file system. [`find_python_files`] is given the traversal as a
//! function from a [`WalkPlan`] to the entries that were visited, and
//! [`entry_satisfies_predicate`] is the question that such a traversal asks
//! of every entry it comes to.

pub mod collector;
pub mod error;
pub mod file_types;
pub mod finder;
pub mod outside;
pub mod paths;
pub mod pattern;
pub mod roots;
pub mod text;
pub mod walker;

pub use collector::{collect_files, EntryKind, TraversalEntryError, WalkEntry};
pub use error::FindError;
pub use file_types::build_types;
pub use finder::find_python_files;
pub use paths::strip_dot_slash;
pub use pattern::{all_patterns, compile_exclusion, exclusion_pattern, fragments_compile};
pub use roots::normalize_roots;
pub use walker::{build_walker, entry_satisfies_predicate, WalkPlan};
