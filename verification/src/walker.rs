//! The plan of a traversal, and the question that a traversal asks of every
//! entry it comes to.

use crate::error::FindError;
use crate::file_types::{build_types, selected_types, types_available};
use crate::outside::{
    regex_matched, regex_matches, slash_form, to_slash, types_selections, TypeSelection,
};
use crate::paths::{strip_dot_slash, without_dot_slash};
use crate::pattern::{compile_exclusion, exclusion_for, exclusion_of, Exclusion};
use crate::text::texts;
use ignore::types::Types;
use regex::Regex;
use vstd::prelude::*;

verus! {

/// Everything that a traversal has to be told: where it starts, which files it
/// yields, which ignore files it honours and which paths it prunes. Every
/// convention of ignore files has a switch of its own.
#[derive(Debug)]
pub struct WalkPlan {
    /// The root at which the traversal starts.
    pub first_directory: String,
    /// The roots that are walked after the first one, in their order.
    pub additional_directories: Vec<String>,
    /// The matcher that decides which files are yielded.
    pub types: Types,
    /// Whether entries whose name starts with a dot are skipped.
    pub skip_hidden: bool,
    /// Whether the ignore files of the directories above a root are honoured.
    pub parents: bool,
    /// Whether `.ignore` files are honoured.
    pub ignore_files: bool,
    /// Whether `.gitignore` files are honoured.
    pub git_ignore: bool,
    /// Whether the global gitignore file of the user is honoured.
    pub git_global: bool,
    /// Whether `.git/info/exclude` files are honoured.
    pub git_exclude: bool,
    /// Whether the ignore files of git count only inside a git repository.
    pub require_git: bool,
    /// The compiled exclusion; without one no path is pruned.
    pub exclusion: Option<Regex>,
}

/// What a plan says, as plain values.
pub struct WalkPlanView {
    pub roots: Seq<Seq<char>>,
    pub types: Seq<TypeSelection>,
    pub skip_hidden: bool,
    pub parents: bool,
    pub ignore_files: bool,
    pub git_ignore: bool,
    pub git_global: bool,
    pub git_exclude: bool,
    pub require_git: bool,
    pub exclusion: Exclusion,
}

impl View for WalkPlan {
    type V = WalkPlanView;

    open spec fn view(&self) -> WalkPlanView {
        WalkPlanView {
            roots: seq![self.first_directory@] + texts(self.additional_directories@),
            types: types_selections(self.types),
            skip_hidden: self.skip_hidden,
            parents: self.parents,
            ignore_files: self.ignore_files,
            git_ignore: self.git_ignore,
            git_global: self.git_global,
            git_exclude: self.git_exclude,
            require_git: self.require_git,
            exclusion: exclusion_of(self.exclusion),
        }
    }
}

/// The reason for which no plan can be made, if there is one. An empty list
/// of roots is reported before a bad pattern, and a bad pattern before a
/// matcher that cannot be built.
pub open spec fn planning_failure(
    directories: Seq<Seq<char>>,
    excluded_patterns: Seq<Seq<char>>,
    ignore_notebooks: bool,
) -> Option<FindError> {
    if directories.len() == 0 {
        Some(FindError::Configuration)
    } else if exclusion_for(excluded_patterns) is Invalid {
        Some(FindError::Pattern)
    } else if !types_available(ignore_notebooks) {
        Some(FindError::Build)
    } else {
        None
    }
}

/// The plan for the given roots, patterns and flags. Hidden entries are never
/// skipped. Ignore files of every convention are honoured exactly when
/// `use_git_ignore` is set, and then outside a repository too.
pub open spec fn planned(
    directories: Seq<Seq<char>>,
    excluded_patterns: Seq<Seq<char>>,
    use_git_ignore: bool,
    ignore_notebooks: bool,
) -> WalkPlanView {
    WalkPlanView {
        roots: directories,
        types: selected_types(ignore_notebooks),
        skip_hidden: false,
        parents: use_git_ignore,
        ignore_files: use_git_ignore,
        git_ignore: use_git_ignore,
        git_global: use_git_ignore,
        git_exclude: use_git_ignore,
        require_git: false,
        exclusion: exclusion_for(excluded_patterns),
    }
}

/// The text on which an exclusion is tested: the path written with `/` and
/// without a leading `./`.
pub open spec fn normalized(path: Seq<char>) -> Seq<char> {
    without_dot_slash(slash_form(path))
}

/// Whether an exclusion prunes a path.
pub open spec fn is_excluded(exclusion: Exclusion, path: Seq<char>) -> bool {
    match exclusion {
        Exclusion::Paths(paths) => paths.contains(normalized(path)),
        _ => false,
    }
}

/// What an exclusion that is held by reference excludes.
pub open spec fn exclusion_of_ref(regex: Option<&Regex>) -> Exclusion {
    match regex {
        Some(re) => Exclusion::Paths(regex_matched(*re)),
        None => Exclusion::Nothing,
    }
}

/// Makes the plan of a traversal over `directories`.
///
/// The roots are taken as they are given. The patterns are compiled into one
/// exclusion, the file types are chosen by `ignore_notebooks`, and
/// `use_git_ignore` says whether ignore files are honoured: with it unset no
/// ignore file of any convention removes an entry.
pub fn build_walker(
    directories: Vec<String>,
    excluded_patterns: Vec<&str>,
    use_git_ignore: bool,
    ignore_notebooks: bool,
) -> (r: Result<WalkPlan, FindError>)
    ensures
        match r {
            Ok(plan) => {
                &&& planning_failure(
                    texts(directories@),
                    texts(excluded_patterns@),
                    ignore_notebooks,
                ) is None
                &&& plan@ == planned(
                    texts(directories@),
                    texts(excluded_patterns@),
                    use_git_ignore,
                    ignore_notebooks,
                )
            },
            Err(e) => planning_failure(
                texts(directories@),
                texts(excluded_patterns@),
                ignore_notebooks,
            ) == Some(e),
        },
{
    if directories.len() == 0 {
        return Err(FindError::Configuration);
    }
    let mut additional_directories = directories;
    let first_directory = additional_directories.remove(0);
    assert(seq![first_directory@] + texts(additional_directories@) =~= texts(directories@));

    let exclusion = match compile_exclusion(&excluded_patterns) {
        Ok(exclusion) => exclusion,
        Err(e) => {
            return Err(e);
        },
    };
    let types = match build_types(ignore_notebooks) {
        Ok(types) => types,
        Err(e) => {
            return Err(e);
        },
    };
    Ok(
        WalkPlan {
            first_directory,
            additional_directories,
            types,
            skip_hidden: false,
            parents: use_git_ignore,
            ignore_files: use_git_ignore,
            git_ignore: use_git_ignore,
            git_global: use_git_ignore,
            git_exclude: use_git_ignore,
            require_git: false,
            exclusion,
        },
    )
}

/// Whether a traversal goes on with the entry at `path`: it does unless the
/// exclusion matches the path. A directory that is turned down is not
/// entered.
pub fn entry_satisfies_predicate(path: &str, regex: Option<&Regex>) -> (kept: bool)
    ensures
        kept == !is_excluded(exclusion_of_ref(regex), path@),
{
    match regex {
        None => true,
        Some(re) => {
            let path_str = to_slash(path);
            !regex_matches(re, strip_dot_slash(path_str.as_str()))
        },
    }
}

} // verus!
