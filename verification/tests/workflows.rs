//! The two workflows end to end, against the in-memory collaborators.

use gi::errors::GiError;
use gi::fake::{FakeGit, FakePrompter, FakeProvider, FakeSettingsStore};
use gi::git_client::GitClient;
use gi::metadata::lookup_branch_metadata;
use gi::prompt::StageChoice;
use gi::settings::get_project_settings;
use gi::workflow::{create, submit, CreateOutcome};

fn repo_on_main(staged: &[&str], unstaged: &[&str]) -> FakeGit {
    let mut fake = FakeGit::new();
    assert!(fake.add_branch(String::from("main"), String::from("r0")));
    assert!(fake.set_current_branch("main"));
    fake.set_working_area(
        staged.iter().map(|s| s.to_string()).collect(),
        unstaged.iter().map(|s| s.to_string()).collect(),
    );
    fake
}

fn continuing_prompter() -> FakePrompter {
    FakePrompter::new(StageChoice::StageAll, String::from("main"))
}

#[test]
fn create_without_current_branch_fails() {
    let mut fake = FakeGit::new();
    let mut prompter = continuing_prompter();
    let r = create(&mut fake, &mut prompter);
    assert_eq!(r.unwrap_err(), GiError::NoCurrentBranch);
}

#[test]
fn create_without_changes_fails() {
    let mut fake = repo_on_main(&[], &[]);
    let mut prompter = continuing_prompter();
    let r = create(&mut fake, &mut prompter);
    assert_eq!(r.unwrap_err(), GiError::NoChanges);
}

#[test]
fn abort_at_staging_prompt_changes_nothing() {
    let mut fake = repo_on_main(&[], &["file.txt"]);
    let mut prompter = FakePrompter::new(StageChoice::Abort, String::from("main"));
    let r = create(&mut fake, &mut prompter);
    assert_eq!(r.unwrap(), CreateOutcome::AbortedAtStaging);
    assert_eq!(fake.get_current_branch().as_deref(), Some("main"));
    assert!(!fake.has_branch("gi_temp_branch"));
    let wa = fake.get_working_area().unwrap();
    assert_eq!(wa.unstaged_files, vec![String::from("file.txt")]);
    assert!(wa.staged_files.is_empty());
}

#[test]
fn abort_during_commit_rolls_everything_back() {
    let mut fake = repo_on_main(&["file.txt"], &[]);
    fake.plan_commit(true, String::new(), String::new(), String::new());
    let mut prompter = continuing_prompter();
    let r = create(&mut fake, &mut prompter);
    assert_eq!(r.unwrap(), CreateOutcome::AbortedAtCommit);
    assert_eq!(fake.get_current_branch().as_deref(), Some("main"));
    assert!(!fake.has_branch("gi_temp_branch"));
    assert!(lookup_branch_metadata(&fake, "gi_temp_branch").unwrap().is_none());
}

#[test]
fn completed_create_leaves_a_named_tagged_branch() {
    let mut fake = repo_on_main(&["file.txt"], &[]);
    fake.plan_commit(
        false,
        String::from("Add feature"),
        String::from("Body\n\nSigned-off-by: Dev <dev@example.com>\n"),
        String::from("r1"),
    );
    let mut prompter = continuing_prompter();
    let r = create(&mut fake, &mut prompter);
    let name = match r.unwrap() {
        CreateOutcome::Completed(name) => name,
        other => panic!("expected completion, got {other:?}"),
    };
    assert!(name.ends_with("-Add_feature"), "name: {name}");
    assert_eq!(name.len(), "MM-DD-".len() + "Add_feature".len());
    assert_eq!(fake.get_current_branch().as_deref(), Some(name.as_str()));
    assert!(fake.has_branch("main"));
    assert!(!fake.has_branch("gi_temp_branch"));
    assert_eq!(fake.get_branch_revision("main").unwrap(), "r0");
    let lineage = lookup_branch_metadata(&fake, &name).unwrap().unwrap();
    assert_eq!(lineage.parent_branch_name(), "main");
    assert_eq!(lineage.parent_branch_revision(), "r0");
}

#[test]
fn create_stages_everything_when_told_to() {
    let mut fake = repo_on_main(&[], &["a.txt", "b.txt"]);
    fake.plan_commit(false, String::from("t"), String::new(), String::from("r1"));
    let mut prompter = continuing_prompter();
    let r = create(&mut fake, &mut prompter);
    assert!(matches!(r.unwrap(), CreateOutcome::Completed(_)));
}

#[test]
fn failed_scratch_cleanup_does_not_mask_the_rollback_outcome() {
    let mut fake = repo_on_main(&["file.txt"], &[]);
    fake.plan_commit(true, String::new(), String::new(), String::new());
    fake.fail_deletes();
    let mut prompter = continuing_prompter();
    let r = create(&mut fake, &mut prompter);
    // the no-op outcome is still reported; only the scratch branch survives
    assert_eq!(r.unwrap(), CreateOutcome::AbortedAtCommit);
    assert_eq!(fake.get_current_branch().as_deref(), Some("main"));
    assert!(fake.has_branch("gi_temp_branch"));
    assert!(lookup_branch_metadata(&fake, "gi_temp_branch").unwrap().is_none());
}

#[test]
fn failed_scratch_cleanup_does_not_stop_completion_or_lineage() {
    let mut fake = repo_on_main(&["file.txt"], &[]);
    fake.plan_commit(false, String::from("Add feature"), String::new(), String::from("r1"));
    fake.fail_deletes();
    let mut prompter = continuing_prompter();
    let name = match create(&mut fake, &mut prompter).unwrap() {
        CreateOutcome::Completed(name) => name,
        other => panic!("expected completion, got {other:?}"),
    };
    assert!(name.ends_with("-Add_feature"));
    assert_eq!(fake.get_current_branch().as_deref(), Some(name.as_str()));
    assert!(fake.has_branch("gi_temp_branch"));
    let lineage = lookup_branch_metadata(&fake, &name).unwrap().unwrap();
    assert_eq!(lineage.parent_branch_name(), "main");
    assert_eq!(lineage.parent_branch_revision(), "r0");
}

#[test]
fn a_second_identical_commit_gets_a_counter_suffix() {
    let mut fake = repo_on_main(&["a.txt"], &[]);
    fake.plan_commit(false, String::from("Same title"), String::new(), String::from("r1"));
    let mut prompter = continuing_prompter();
    let first = match create(&mut fake, &mut prompter).unwrap() {
        CreateOutcome::Completed(name) => name,
        other => panic!("expected completion, got {other:?}"),
    };
    // same title again, on the same day: the derived name collides
    fake.set_working_area(vec![String::from("b.txt")], vec![]);
    fake.plan_commit(false, String::from("Same title"), String::new(), String::from("r2"));
    let second = match create(&mut fake, &mut prompter).unwrap() {
        CreateOutcome::Completed(name) => name,
        other => panic!("expected completion, got {other:?}"),
    };
    assert_eq!(second, format!("{first}1"));
    assert!(fake.has_branch(&first));
    assert!(fake.has_branch(&second));
}

#[test]
fn submit_pushes_and_reports_the_pull_request_url() {
    let mut fake = repo_on_main(&[], &[]);
    assert!(fake.add_branch(String::from("01-02-topic"), String::from("r1")));
    assert!(fake.set_current_branch("01-02-topic"));
    fake.set_remote_url(String::from("https://github.com/acme/widgets.git"));
    fake.set_head(String::from("Add feature"), String::from("Body"));
    let mut provider = FakeProvider::new(String::from("https://pull.example/1"));
    let mut prompter = continuing_prompter();
    let mut store = FakeSettingsStore::new();
    let mut settings = get_project_settings(Some("{\"trunk\":\"main\"}"));
    let url = submit(&mut fake, &mut provider, &mut prompter, &mut store, &mut settings).unwrap();
    assert_eq!(url, "https://pull.example/1");
    assert_eq!(fake.pushed_branches(), &vec![String::from("01-02-topic")]);
}

#[test]
fn submit_asks_for_the_trunk_on_first_use_and_persists_it() {
    let mut fake = repo_on_main(&[], &[]);
    fake.set_remote_url(String::from("https://github.com/acme/widgets.git"));
    let mut provider = FakeProvider::new(String::from("https://pull.example/2"));
    let mut prompter = FakePrompter::new(StageChoice::StageAll, String::from("develop"));
    let mut store = FakeSettingsStore::new();
    let mut settings = get_project_settings(None);
    submit(&mut fake, &mut provider, &mut prompter, &mut store, &mut settings).unwrap();
    let saved = store.saved.expect("first use must persist the trunk");
    assert_eq!(
        gi::settings::serialize_project_settings(&saved),
        "{\"trunk\":\"develop\"}"
    );
}

#[test]
fn submit_on_unsupported_provider_fails_before_pushing() {
    let mut fake = repo_on_main(&[], &[]);
    fake.set_remote_url(String::from("git@gitlab.example.com:acme/widgets.git"));
    let mut provider = FakeProvider::new(String::from("unused"));
    let mut prompter = continuing_prompter();
    let mut store = FakeSettingsStore::new();
    let mut settings = get_project_settings(Some("{\"trunk\":\"main\"}"));
    let r = submit(&mut fake, &mut provider, &mut prompter, &mut store, &mut settings);
    assert_eq!(r.unwrap_err(), GiError::UnsupportedProvider);
    assert!(fake.pushed_branches().is_empty());
}

#[test]
fn provider_failure_after_push_leaves_the_pushed_branch_in_place() {
    let mut fake = repo_on_main(&[], &[]);
    fake.set_remote_url(String::from("https://github.com/acme/widgets.git"));
    let mut provider = FakeProvider::new(String::from("unused"));
    provider.fails = true;
    let mut prompter = continuing_prompter();
    let mut store = FakeSettingsStore::new();
    let mut settings = get_project_settings(Some("{\"trunk\":\"main\"}"));
    let r = submit(&mut fake, &mut provider, &mut prompter, &mut store, &mut settings);
    assert_eq!(r.unwrap_err(), GiError::ForgeRequestFailed);
    assert_eq!(fake.pushed_branches(), &vec![String::from("main")]);
}

#[test]
fn submit_without_current_branch_fails() {
    let mut fake = FakeGit::new();
    let mut provider = FakeProvider::new(String::from("unused"));
    let mut prompter = continuing_prompter();
    let mut store = FakeSettingsStore::new();
    let mut settings = get_project_settings(None);
    let r = submit(&mut fake, &mut provider, &mut prompter, &mut store, &mut settings);
    assert_eq!(r.unwrap_err(), GiError::NoCurrentBranch);
}

#[test]
fn backend_errors_carry_their_taxonomy_variant() {
    let mut fake = repo_on_main(&[], &[]);
    assert_eq!(fake.checkout("nope").unwrap_err(), GiError::CheckoutFailed);
    assert_eq!(fake.delete_branch("nope").unwrap_err(), GiError::DeleteFailed);
    assert_eq!(fake.delete_branch("main").unwrap_err(), GiError::DeleteFailed);
    assert_eq!(
        fake.try_create_branch("main").unwrap_err(),
        GiError::BackendFailure
    );
}
