use python_file_finder::{build_walker, compile_exclusion, entry_satisfies_predicate, FindError};

fn strings(items: &[&str]) -> Vec<String> {
    items.iter().map(|s| s.to_string()).collect()
}

#[test]
fn a_plan_holds_what_it_was_given() {
    let plan = build_walker(strings(&["./dir", "./other_dir", "./x"]), vec!["a", "b"], true, false)
        .unwrap();
    assert_eq!(plan.first_directory, "./dir");
    assert_eq!(plan.additional_directories, strings(&["./other_dir", "./x"]));
    assert!(plan.git_ignore);
    assert_eq!(plan.exclusion.unwrap().as_str(), "^(a|b)");
    assert!(plan.types.matched("a.ipynb", false).is_whitelist());
    assert!(plan.types.matched("a.py", false).is_whitelist());
}

#[test]
fn a_plan_never_skips_hidden_entries_nor_asks_for_a_repository() {
    for use_git_ignore in [false, true] {
        for ignore_notebooks in [false, true] {
            let plan =
                build_walker(strings(&["./"]), vec![], use_git_ignore, ignore_notebooks).unwrap();
            assert!(!plan.skip_hidden);
            assert!(!plan.require_git);
            assert_eq!(plan.git_ignore, use_git_ignore);
            assert_eq!(plan.ignore_files, use_git_ignore);
            assert_eq!(plan.git_global, use_git_ignore);
            assert_eq!(plan.git_exclude, use_git_ignore);
            assert_eq!(plan.parents, use_git_ignore);
            assert_eq!(
                plan.types.matched("a.ipynb", false).is_whitelist(),
                !ignore_notebooks,
            );
        }
    }
}

#[test]
fn a_plan_without_patterns_has_no_exclusion() {
    let plan = build_walker(strings(&["./"]), vec![], false, true).unwrap();
    assert!(plan.exclusion.is_none());
    assert_eq!(plan.first_directory, "./");
    assert!(plan.additional_directories.is_empty());
}

#[test]
fn a_plan_keeps_the_roots_it_is_given() {
    let plan = build_walker(strings(&["a", "a", "b"]), vec![], false, false).unwrap();
    assert_eq!(plan.first_directory, "a");
    assert_eq!(plan.additional_directories, strings(&["a", "b"]));
}

#[test]
fn no_root_is_a_configuration_error() {
    assert_eq!(build_walker(vec![], vec![], false, false).unwrap_err(), FindError::Configuration);
}

#[test]
fn no_root_is_reported_before_a_bad_pattern() {
    assert_eq!(build_walker(vec![], vec!["("], false, false).unwrap_err(), FindError::Configuration);
}

#[test]
fn a_bad_pattern_is_a_pattern_error() {
    assert_eq!(
        build_walker(strings(&["./"]), vec!["fine", "(unclosed"], false, false).unwrap_err(),
        FindError::Pattern,
    );
}

#[test]
fn without_an_exclusion_every_entry_is_kept() {
    assert!(entry_satisfies_predicate("./dir/subdir/file1.py", None));
    assert!(entry_satisfies_predicate("", None));
    assert!(entry_satisfies_predicate(".venv", None));
}

#[test]
fn an_exclusion_matches_from_the_start_of_the_path() {
    let regex = compile_exclusion(&vec!["foo", "subdir"]).unwrap().unwrap();
    assert!(!entry_satisfies_predicate("subdir", Some(&regex)));
    assert!(!entry_satisfies_predicate("subdir/file1.py", Some(&regex)));
    assert!(entry_satisfies_predicate("dir/subdir", Some(&regex)));
    assert!(entry_satisfies_predicate("dir/subdir/file1.py", Some(&regex)));
    assert!(entry_satisfies_predicate("another_dir/subdir/file1.py", Some(&regex)));
}

#[test]
fn an_exclusion_is_not_tied_to_the_end_of_the_path() {
    let regex = compile_exclusion(&vec!["other_dir"]).unwrap().unwrap();
    assert!(!entry_satisfies_predicate("other_dir", Some(&regex)));
    assert!(!entry_satisfies_predicate("other_dir/subdir/file1.py", Some(&regex)));
    assert!(!entry_satisfies_predicate("other_directory", Some(&regex)));
    assert!(entry_satisfies_predicate("another_dir", Some(&regex)));
}

#[test]
fn an_exclusion_is_tested_without_the_leading_dot_slash() {
    let regex = compile_exclusion(&vec!["subdir"]).unwrap().unwrap();
    assert!(!entry_satisfies_predicate("./subdir/file1.py", Some(&regex)));
    assert!(entry_satisfies_predicate("./dir/subdir/file1.py", Some(&regex)));
    let dot = compile_exclusion(&vec!["\\./"]).unwrap().unwrap();
    assert!(entry_satisfies_predicate("./subdir", Some(&dot)));
    assert!(!entry_satisfies_predicate("././subdir", Some(&dot)));
}

#[test]
fn a_fragment_with_its_own_wildcard_reaches_into_the_path() {
    let regex = compile_exclusion(&vec![".*/subdir/"]).unwrap().unwrap();
    assert!(!entry_satisfies_predicate("./dir/subdir/file1.py", Some(&regex)));
    assert!(entry_satisfies_predicate("./dir/subdir", Some(&regex)));
    assert!(entry_satisfies_predicate("./subdir/file1.py", Some(&regex)));
}

#[test]
fn any_fragment_of_the_alternation_excludes() {
    let regex = compile_exclusion(&vec![".venv", "other_dir"]).unwrap().unwrap();
    assert!(!entry_satisfies_predicate("./.venv", Some(&regex)));
    assert!(!entry_satisfies_predicate("./other_dir", Some(&regex)));
    assert!(entry_satisfies_predicate("./dir", Some(&regex)));
    let swapped = compile_exclusion(&vec!["other_dir", ".venv"]).unwrap().unwrap();
    for path in ["./.venv", "./other_dir", "./dir", "./xvenv", "./another_dir"] {
        assert_eq!(
            entry_satisfies_predicate(path, Some(&regex)),
            entry_satisfies_predicate(path, Some(&swapped)),
        );
    }
}

#[test]
fn an_exclusion_is_tested_on_the_path_written_with_slashes() {
    let regex = compile_exclusion(&vec!["dir/subdir"]).unwrap().unwrap();
    let native = format!("dir{}subdir{}file1.py", std::path::MAIN_SEPARATOR, std::path::MAIN_SEPARATOR);
    assert!(!entry_satisfies_predicate(&native, Some(&regex)));
    assert!(!entry_satisfies_predicate("dir/subdir/file1.py", Some(&regex)));
}

#[test]
fn without_the_flag_no_ignore_file_of_any_kind_is_honoured() {
    let plan = build_walker(strings(&["./"]), vec!["a"], false, false).unwrap();
    assert!(!plan.git_ignore);
    assert!(!plan.ignore_files);
    assert!(!plan.git_global);
    assert!(!plan.git_exclude);
    assert!(!plan.parents);
}

#[test]
fn with_the_flag_every_kind_of_ignore_file_is_honoured() {
    let plan = build_walker(strings(&["./"]), vec!["a"], true, false).unwrap();
    assert!(plan.git_ignore);
    assert!(plan.ignore_files);
    assert!(plan.git_global);
    assert!(plan.git_exclude);
    assert!(plan.parents);
    assert!(!plan.require_git);
}

#[test]
fn fragments_that_only_compile_when_joined_give_no_plan() {
    assert_eq!(
        build_walker(strings(&["./"]), vec!["a)", "(b"], false, false).unwrap_err(),
        FindError::Pattern,
    );
}
