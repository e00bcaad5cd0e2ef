use bekoedit::editor_mode::EditorMode;
use bekoedit::fixture::{key_spike_fixture, shell_behaviour_fixture, trusted_click_fixture, RECOVERED_TEXT};
use bekoedit::shell_behaviour::CONFLICT_AUTOSAVE_DEBOUNCE_MS;

fn text_of<'a>(files: &'a [(String, String)], path: &str) -> Option<&'a str> {
    files.iter().find(|(p, _)| p == path).map(|(_, t)| t.as_str())
}

#[test]
fn the_shell_fixture_seeds_one_snapshot_a_one_day_debounce_and_the_conflict_file() {
    let plan = shell_behaviour_fixture();
    let snapshot = plan.recovery.expect("exactly one snapshot");
    assert_eq!(snapshot.original_path, "a.md");
    assert_eq!(snapshot.text, RECOVERED_TEXT);
    assert_ne!(Some(snapshot.text.as_str()), text_of(&plan.files, "a.md"));
    assert_eq!(plan.autosave_debounce_ms, Some(CONFLICT_AUTOSAVE_DEBOUNCE_MS));
    assert_eq!(CONFLICT_AUTOSAVE_DEBOUNCE_MS, 86_400_000, "one day, not u64::MAX");
    assert_eq!(plan.conflict_file.as_deref(), Some("sub/child.md"));
    assert_eq!(plan.folders, vec!["sub".to_string()]);
    assert_eq!(text_of(&plan.files, "sub/child.md"), Some("# child\n"));
    assert_eq!(plan.default_mode, Some(EditorMode::Text));
}

#[test]
fn the_trusted_click_fixture_seeds_a_linked_pair() {
    let plan = trusted_click_fixture();
    assert_eq!(text_of(&plan.files, "child.md"), Some("# child\n"));
    let parent = text_of(&plan.files, "parent.md").expect("parent.md is seeded");
    assert!(parent.to_lowercase().contains("child.md"), "{parent}");
    assert_eq!(plan.default_mode, Some(EditorMode::Text));
    assert!(plan.recovery.is_none());
}

#[test]
fn the_key_spike_fixture_is_two_plain_files_with_default_settings() {
    let plan = key_spike_fixture();
    assert_eq!(plan.files.len(), 2);
    assert_eq!(text_of(&plan.files, "a.md"), Some("# a\n"));
    assert_eq!(text_of(&plan.files, "b.md"), Some("# b\n"));
    assert_eq!(plan.default_mode, None);
    assert_eq!(plan.autosave_debounce_ms, None);
}
