//! The lineage store: record, lookup, absence, corruption.

use gi::errors::GiError;
use gi::fake::FakeGit;
use gi::git_client::GitClient;
use gi::metadata::{create_branch_metadata, lookup_branch_metadata, BranchMetadata};

fn repo_on_main() -> FakeGit {
    let mut fake = FakeGit::new();
    assert!(fake.add_branch(String::from("main"), String::from("r0")));
    assert!(fake.set_current_branch("main"));
    fake
}

#[test]
fn lookup_after_record_gives_the_record_back() {
    let mut fake = repo_on_main();
    let m = BranchMetadata::new(String::from("main"), String::from("r0"));
    create_branch_metadata(&mut fake, "01-02-topic", &m).unwrap();
    let back = lookup_branch_metadata(&fake, "01-02-topic")
        .unwrap()
        .expect("recorded lineage must be found");
    assert_eq!(back.parent_branch_name(), "main");
    assert_eq!(back.parent_branch_revision(), "r0");
}

#[test]
fn round_trip_keeps_awkward_names() {
    let mut fake = repo_on_main();
    let m = BranchMetadata::new(String::from("release\\2024 \"x\""), String::from("r\n1"));
    create_branch_metadata(&mut fake, "b", &m).unwrap();
    let back = lookup_branch_metadata(&fake, "b").unwrap().unwrap();
    assert_eq!(back.parent_branch_name(), "release\\2024 \"x\"");
    assert_eq!(back.parent_branch_revision(), "r\n1");
}

#[test]
fn lookup_of_unrecorded_branch_is_absent_both_times() {
    let fake = repo_on_main();
    assert!(lookup_branch_metadata(&fake, "nothing-here").unwrap().is_none());
    assert!(lookup_branch_metadata(&fake, "nothing-here").unwrap().is_none());
}

#[test]
fn malformed_record_is_corrupt_not_absent() {
    let mut fake = repo_on_main();
    let oid = fake.create_blob("this is not a lineage record").unwrap();
    fake.update_ref("refs/branch-metadata/broken", &oid).unwrap();
    let r = lookup_branch_metadata(&fake, "broken");
    assert_eq!(r.unwrap_err(), GiError::CorruptMetadata);
}

#[test]
fn dangling_record_reference_is_corrupt() {
    let mut fake = repo_on_main();
    fake.update_ref("refs/branch-metadata/dangling", "no-such-object")
        .unwrap();
    let r = lookup_branch_metadata(&fake, "dangling");
    assert_eq!(r.unwrap_err(), GiError::CorruptMetadata);
}

#[test]
fn object_store_primitives_round_trip() {
    let mut fake = repo_on_main();
    let oid = fake.create_blob("content").unwrap();
    assert_eq!(fake.read_object(&oid).unwrap(), "content");
    assert_eq!(
        fake.read_object("missing").unwrap_err(),
        GiError::BackendFailure
    );
}
