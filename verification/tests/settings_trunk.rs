//! The trunk setting: lazy population and persistence.

use gi::fake::{FakePrompter, FakeSettingsStore};
use gi::prompt::StageChoice;
use gi::settings::{get_project_settings, serialize_project_settings};

#[test]
fn a_configured_trunk_is_returned_without_prompting() {
    let mut settings = get_project_settings(Some("{\"trunk\":\"main\"}"));
    // the prompter would answer differently; it must not be consulted
    let mut prompter = FakePrompter::new(StageChoice::StageAll, String::from("other"));
    let mut store = FakeSettingsStore::new();
    let trunk = settings.get_trunk(&mut prompter, &mut store).unwrap();
    assert_eq!(trunk, "main");
    assert!(store.saved.is_none());
}

#[test]
fn first_use_prompts_records_and_persists() {
    let mut settings = get_project_settings(None);
    let mut prompter = FakePrompter::new(StageChoice::StageAll, String::from("main"));
    let mut store = FakeSettingsStore::new();
    let trunk = settings.get_trunk(&mut prompter, &mut store).unwrap();
    assert_eq!(trunk, "main");
    let saved = store.saved.expect("the prompted trunk must be persisted");
    assert_eq!(serialize_project_settings(&saved), "{\"trunk\":\"main\"}");
    // a second call answers from the settings, not the prompter
    let mut other_prompter = FakePrompter::new(StageChoice::StageAll, String::from("other"));
    let mut other_store = FakeSettingsStore::new();
    let again = settings.get_trunk(&mut other_prompter, &mut other_store).unwrap();
    assert_eq!(again, "main");
    assert!(other_store.saved.is_none());
}

#[test]
fn set_trunk_overwrites_and_saves() {
    let mut settings = get_project_settings(Some("{\"trunk\":\"main\"}"));
    let mut store = FakeSettingsStore::new();
    settings.set_trunk(&String::from("develop"), &mut store).unwrap();
    assert_eq!(serialize_project_settings(&settings), "{\"trunk\":\"develop\"}");
    let saved = store.saved.unwrap();
    assert_eq!(serialize_project_settings(&saved), "{\"trunk\":\"develop\"}");
}
