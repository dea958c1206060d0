//! Bounded collision retry for branch creation.

use gi::errors::GiError;
use gi::fake::FakeGit;
use gi::git_client::create_branch;

#[test]
fn collision_retry_appends_the_attempt_counter() {
    let mut fake = FakeGit::new();
    assert!(fake.add_branch(String::from("x"), String::from("r")));
    assert!(fake.add_branch(String::from("x1"), String::from("r")));
    assert!(fake.add_branch(String::from("x2"), String::from("r")));
    let name = create_branch(&mut fake, "x").unwrap();
    assert_eq!(name, "x3");
    assert!(fake.has_branch("x3"));
}

#[test]
fn free_name_is_taken_unchanged() {
    let mut fake = FakeGit::new();
    let name = create_branch(&mut fake, "topic").unwrap();
    assert_eq!(name, "topic");
}

#[test]
fn two_digit_attempts_work() {
    let mut fake = FakeGit::new();
    assert!(fake.add_branch(String::from("y"), String::from("r")));
    for i in 1..=10 {
        assert!(fake.add_branch(format!("y{i}"), String::from("r")));
    }
    let name = create_branch(&mut fake, "y").unwrap();
    assert_eq!(name, "y11");
}

#[test]
fn a_persistently_colliding_namespace_exhausts_the_retry() {
    let mut fake = FakeGit::new();
    assert!(fake.add_branch(String::from("z"), String::from("r")));
    for i in 1..=15 {
        assert!(fake.add_branch(format!("z{i}"), String::from("r")));
    }
    let r = create_branch(&mut fake, "z");
    assert_eq!(r.unwrap_err(), GiError::BranchNameExhausted);
    assert!(!fake.has_branch("z16"));
}
