//! Branch naming: sanitizing titles and deriving dated branch names.

use gi::naming::{derive_branch_name, format_commit_title, sanitize_title};

#[test]
fn derives_dated_name_from_title() {
    let name = derive_branch_name("Hello, World", "12-31");
    assert_eq!(name, "12-31-Hello_World");
}

#[test]
fn sanitize_collapses_runs_to_one_underscore() {
    assert_eq!(sanitize_title("Hello, World"), "Hello_World");
    assert_eq!(sanitize_title("a  -  b"), "a_b");
    assert_eq!(sanitize_title("fix: parse (again)"), "fix_parse_again_");
}

#[test]
fn sanitize_keeps_leading_and_trailing_runs() {
    assert_eq!(sanitize_title("  hi  "), "_hi_");
    assert_eq!(sanitize_title("!!!"), "_");
}

#[test]
fn sanitize_of_empty_title_is_empty() {
    assert_eq!(sanitize_title(""), "");
}

#[test]
fn sanitize_replaces_underscores_too() {
    assert_eq!(sanitize_title("a__b"), "a_b");
    assert_eq!(sanitize_title("snake_case name"), "snake_case_name");
    assert_eq!(sanitize_title("x_y"), "x_y");
}

#[test]
fn format_commit_title_prepends_current_date() {
    let name = format_commit_title("Add feature");
    // the date part is MM-DD: five characters with a dash in the middle
    assert_eq!(name.len(), 5 + 1 + "Add_feature".len());
    assert!(name.ends_with("-Add_feature"));
    let chars: Vec<char> = name.chars().collect();
    assert_eq!(chars[2], '-');
    assert_eq!(chars[5], '-');
}
