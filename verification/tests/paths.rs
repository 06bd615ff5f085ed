use python_file_finder::strip_dot_slash;

#[test]
fn a_leading_dot_slash_is_stripped() {
    assert_eq!(strip_dot_slash("./dir/subdir/file1.py"), "dir/subdir/file1.py");
    assert_eq!(strip_dot_slash("./file.py"), "file.py");
}

#[test]
fn only_one_dot_slash_is_stripped() {
    assert_eq!(strip_dot_slash("././file.py"), "./file.py");
}

#[test]
fn other_paths_are_left_alone() {
    assert_eq!(strip_dot_slash("dir/file.py"), "dir/file.py");
    assert_eq!(strip_dot_slash(".cache/file1.py"), ".cache/file1.py");
    assert_eq!(strip_dot_slash("../file.py"), "../file.py");
    assert_eq!(strip_dot_slash("/abs/./file.py"), "/abs/./file.py");
    assert_eq!(strip_dot_slash("dir/./file.py"), "dir/./file.py");
}

#[test]
fn short_paths_are_handled() {
    assert_eq!(strip_dot_slash(""), "");
    assert_eq!(strip_dot_slash("."), ".");
    assert_eq!(strip_dot_slash("/"), "/");
    assert_eq!(strip_dot_slash("./"), "");
    assert_eq!(strip_dot_slash(".a"), ".a");
}

#[test]
fn characters_beyond_ascii_are_kept_whole() {
    assert_eq!(strip_dot_slash("./données/été.py"), "données/été.py");
    assert_eq!(strip_dot_slash("données/./été.py"), "données/./été.py");
    assert_eq!(strip_dot_slash("./日本語.py"), "日本語.py");
}
