use python_file_finder::{
    all_patterns, compile_exclusion, exclusion_pattern, fragments_compile, FindError,
};

#[test]
fn no_fragment_gives_no_pattern() {
    assert_eq!(exclusion_pattern(&vec![]), None);
}

#[test]
fn one_fragment_is_anchored_and_wrapped() {
    assert_eq!(exclusion_pattern(&vec![".venv"]), Some("^(.venv)".to_string()));
}

#[test]
fn fragments_are_joined_with_bars() {
    assert_eq!(
        exclusion_pattern(&vec![".venv", "other_dir", ".*file1"]),
        Some("^(.venv|other_dir|.*file1)".to_string()),
    );
}

#[test]
fn empty_fragments_are_written_too() {
    assert_eq!(exclusion_pattern(&vec![""]), Some("^()".to_string()));
    assert_eq!(exclusion_pattern(&vec!["", "a", ""]), Some("^(|a|)".to_string()));
}

#[test]
fn fragments_are_not_escaped() {
    assert_eq!(
        exclusion_pattern(&vec![".cache|other.*subdir", "a)b("]),
        Some("^(.cache|other.*subdir|a)b()".to_string()),
    );
}

#[test]
fn both_lists_are_taken_in_order() {
    assert_eq!(all_patterns(&vec!["a", "b"], &vec!["c"]), vec!["a", "b", "c"]);
    assert_eq!(all_patterns(&vec![], &vec!["c"]), vec!["c"]);
    assert_eq!(all_patterns(&vec!["a"], &vec![]), vec!["a"]);
    assert_eq!(all_patterns(&vec![], &vec![]), Vec::<&str>::new());
}

#[test]
fn two_lists_make_the_pattern_of_one_list() {
    let split = exclusion_pattern(&all_patterns(&vec!["a", "b"], &vec!["c"]));
    let whole = exclusion_pattern(&all_patterns(&vec!["a", "b", "c"], &vec![]));
    assert_eq!(split, whole);
    assert_eq!(split, Some("^(a|b|c)".to_string()));
}

#[test]
fn no_fragment_compiles_to_no_matcher() {
    assert!(compile_exclusion(&vec![]).unwrap().is_none());
}

#[test]
fn fragments_compile_to_their_anchored_alternation() {
    let regex = compile_exclusion(&vec!["foo", "subdir"]).unwrap().unwrap();
    assert_eq!(regex.as_str(), "^(foo|subdir)");
    assert!(regex.is_match("subdir/file1.py"));
    assert!(regex.is_match("foo"));
    assert!(regex.is_match("foobar/x.py"));
    assert!(!regex.is_match("dir/subdir/file1.py"));
    assert!(!regex.is_match("a/foo"));
}

#[test]
fn a_malformed_fragment_is_a_pattern_error() {
    assert_eq!(compile_exclusion(&vec!["("]).unwrap_err(), FindError::Pattern);
    assert_eq!(compile_exclusion(&vec!["ok", "[a-"]).unwrap_err(), FindError::Pattern);
    assert_eq!(compile_exclusion(&vec!["*"]).unwrap_err(), FindError::Pattern);
}

#[test]
fn a_fragment_that_closes_the_group_is_a_pattern_error() {
    assert_eq!(compile_exclusion(&vec!["a)"]).unwrap_err(), FindError::Pattern);
}

#[test]
fn fragments_that_only_compile_when_joined_are_a_pattern_error() {
    assert!(regex::Regex::new("^(a)|(b)").is_ok());
    assert_eq!(compile_exclusion(&vec!["a)", "(b"]).unwrap_err(), FindError::Pattern);
    assert_eq!(compile_exclusion(&vec!["x", "a)", "y", "(b"]).unwrap_err(), FindError::Pattern);
    assert_eq!(compile_exclusion(&vec!["a)|(b"]).unwrap_err(), FindError::Pattern);
}

#[test]
fn every_fragment_has_to_compile_on_its_own() {
    let regex = compile_exclusion(&vec!["fine", "also fine", "x+"]).unwrap().unwrap();
    assert_eq!(regex.as_str(), "^(fine|also fine|x+)");
    assert_eq!(compile_exclusion(&vec!["fine", "+"]).unwrap_err(), FindError::Pattern);
}

#[test]
fn fragments_that_do_not_compile_together_are_a_pattern_error() {
    assert!(compile_exclusion(&vec!["(?P<n>a)"]).is_ok());
    assert_eq!(
        compile_exclusion(&vec!["(?P<n>a)", "(?P<n>b)"]).unwrap_err(),
        FindError::Pattern,
    );
}

#[test]
fn fragments_are_judged_one_by_one() {
    assert!(fragments_compile(&vec![]));
    assert!(fragments_compile(&vec![".venv", "other_dir", ".*file1", ""]));
    assert!(fragments_compile(&vec!["(?P<n>a)", "(?P<n>b)"]));
    assert!(!fragments_compile(&vec!["a)", "(b"]));
    assert!(!fragments_compile(&vec!["fine", "(b"]));
    assert!(!fragments_compile(&vec!["a)", "fine"]));
}
