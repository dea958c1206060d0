//! The canonical text forms: lineage records, credential files, settings.

use gi::metadata::{parse_branch_metadata, serialize_branch_metadata, BranchMetadata};
use gi::provider::{parse_access_token, serialize_access_token};
use gi::settings::{get_project_settings, serialize_project_settings};

#[test]
fn lineage_serializes_to_one_json_object() {
    let m = BranchMetadata::new(String::from("main"), String::from("abc123"));
    let text = serialize_branch_metadata(&m);
    assert_eq!(
        text,
        "{\"parentBranchName\":\"main\",\"parentBranchRevision\":\"abc123\"}"
    );
}

#[test]
fn lineage_round_trips() {
    let m = BranchMetadata::new(String::from("main"), String::from("0d1e2f"));
    let text = serialize_branch_metadata(&m);
    let back = parse_branch_metadata(&text).expect("canonical record must parse");
    assert_eq!(back.parent_branch_name(), "main");
    assert_eq!(back.parent_branch_revision(), "0d1e2f");
}

#[test]
fn lineage_round_trips_with_escapes() {
    let name = "we\"ird\\branch\nname\tand\rmore";
    let m = BranchMetadata::new(String::from(name), String::from("r"));
    let text = serialize_branch_metadata(&m);
    let back = parse_branch_metadata(&text).expect("escaped record must parse");
    assert_eq!(back.parent_branch_name(), name);
    assert_eq!(back.parent_branch_revision(), "r");
}

#[test]
fn malformed_lineage_is_rejected() {
    assert!(parse_branch_metadata("").is_none());
    assert!(parse_branch_metadata("{}").is_none());
    assert!(parse_branch_metadata("{\"parentBranchName\":\"a\"}").is_none());
    assert!(parse_branch_metadata(
        "{\"parentBranchName\":\"a\",\"parentBranchRevision\":\"b\"} "
    )
    .is_none());
    assert!(parse_branch_metadata(
        "{\"parentBranchName\":\"a\",\"parentBranchRevision\":\"b\\x\"}"
    )
    .is_none());
    assert!(parse_branch_metadata("{\"parentBranchName\":\"a\",\"parentBranchRevision\":\"b")
        .is_none());
}

#[test]
fn token_file_serializes_and_parses() {
    let text = serialize_access_token("SECRET-REDACTED");
    assert_eq!(text, "{\"accessToken\":\"SECRET-REDACTED\"}");
    let back = parse_access_token(&text).expect("canonical token file must parse");
    assert_eq!(back, "SECRET-REDACTED");
}

#[test]
fn bad_token_file_asks_for_a_new_token() {
    assert!(parse_access_token("").is_none());
    assert!(parse_access_token("{\"accessToken\":12}").is_none());
    assert!(parse_access_token("{\"token\":\"x\"}").is_none());
}

#[test]
fn token_file_tolerates_whitespace() {
    let back = parse_access_token(" {\n  \"accessToken\" : \"tok\"\n} \n").unwrap();
    assert_eq!(back, "tok");
}

#[test]
fn settings_file_tolerates_whitespace() {
    let s = get_project_settings(Some("{ \"trunk\" : \"main\" }\n"));
    assert_eq!(serialize_project_settings(&s), "{\"trunk\":\"main\"}");
    let s = get_project_settings(Some(" { \"trunk\" : null } "));
    assert_eq!(serialize_project_settings(&s), "{\"trunk\":null}");
}

#[test]
fn settings_round_trip_with_trunk() {
    let s = get_project_settings(Some("{\"trunk\":\"main\"}"));
    assert_eq!(serialize_project_settings(&s), "{\"trunk\":\"main\"}");
}

#[test]
fn settings_round_trip_without_trunk() {
    let s = get_project_settings(Some("{\"trunk\":null}"));
    assert_eq!(serialize_project_settings(&s), "{\"trunk\":null}");
}

#[test]
fn absent_or_corrupt_settings_mean_no_settings_yet() {
    let s = get_project_settings(None);
    assert_eq!(serialize_project_settings(&s), "{\"trunk\":null}");
    let s = get_project_settings(Some("not json at all"));
    assert_eq!(serialize_project_settings(&s), "{\"trunk\":null}");
    let s = get_project_settings(Some("{\"trunk\":3}"));
    assert_eq!(serialize_project_settings(&s), "{\"trunk\":null}");
}
