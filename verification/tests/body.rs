//! Commit-body filtering.

use gi::commitmsg::filter_commit_body;

#[test]
fn signoff_trailer_is_removed_and_whitespace_trimmed() {
    let raw = "Body text\n\nSigned-off-by: Dev <dev@example.com>\n";
    assert_eq!(filter_commit_body(raw), "Body text");
}

#[test]
fn every_signoff_line_goes() {
    let raw = "First\nSigned-off-by: A <a@x>\nSecond\nSigned-off-by: B <b@x>\n";
    assert_eq!(filter_commit_body(raw), "First\nSecond");
}

#[test]
fn a_body_without_signoff_is_only_trimmed() {
    assert_eq!(filter_commit_body("  hello\nworld  \n"), "hello\nworld");
}

#[test]
fn inner_blank_lines_survive() {
    let raw = "para one\n\npara two\nSigned-off-by: X <x@x>\n";
    assert_eq!(filter_commit_body(raw), "para one\n\npara two");
}

#[test]
fn carriage_returns_are_stripped_at_line_ends() {
    let raw = "one\r\ntwo\r\nSigned-off-by: X <x@x>\r\n";
    assert_eq!(filter_commit_body(raw), "one\ntwo");
}

#[test]
fn empty_and_signoff_only_bodies_become_empty() {
    assert_eq!(filter_commit_body(""), "");
    assert_eq!(filter_commit_body("Signed-off-by: X <x@x>\n"), "");
    assert_eq!(filter_commit_body("  \n \t \n"), "");
}

#[test]
fn filtering_twice_changes_nothing_more() {
    for raw in [
        "Body text\n\nSigned-off-by: Dev <dev@example.com>\n",
        "First\nSigned-off-by: A <a@x>\nSecond\n",
        "  hello\nworld  \n",
        "\n\nkeep\n\n",
        "",
    ] {
        let once = filter_commit_body(raw);
        assert_eq!(filter_commit_body(&once), once, "raw: {raw:?}");
    }
}

#[test]
fn the_marker_counts_anywhere_in_the_line() {
    let raw = "keep\nnote: Signed-off-by: someone\n";
    assert_eq!(filter_commit_body(raw), "keep");
}
