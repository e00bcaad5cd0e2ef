use bekoedit::catalog::Catalog;
use bekoedit::editor_mode::EditorMode;
use bekoedit::release::{same_dir, Expectation, Folder, ReleaseChecksTerminal, ReleaseScenario};
use bekoedit::release_bytes::{check_bytes_unchanged, check_saved_bytes, find};
use bekoedit::release_launch::{judge, looks_ready, DomSnapshot, Observation};
use bekoedit::release_seed::{
    opener_log, original_crlf_note, original_note, seed_plan, EDIT_MARKER, OPENER_LOG_ENV, SAVE_FILE,
};
use bekoedit::toast::ToastKind;

fn folder(path: &str) -> Folder {
    Folder { path: path.to_string(), canonical: None }
}

fn catalog() -> Catalog {
    Catalog {
        entries: vec![("workspace.reopen_failed".to_string(), "Could not reopen the last workspace".to_string())],
    }
}

fn tr(key: &str) -> String {
    catalog().tr(key)
}

fn expectation() -> Expectation {
    Expectation {
        workspace: folder("/ws/gone"),
        display_name: "Gone Project".into(),
        older_workspace: Some(folder("/ws/older")),
        file: None,
        original: Vec::new(),
        opener_log: None,
    }
}

fn observed(start_screen: bool, mounts: usize, rows: usize) -> Observation {
    Observation {
        start_screen_mounts: mounts,
        dom: Some(DomSnapshot { start_screen, tree_rows: rows }),
        ..Default::default()
    }
}

fn with_toast(mut observation: Observation, message: String, kind: ToastKind) -> Observation {
    let id = observation.toasts.len() as u64 + 1;
    observation.note_toast(id, kind, message);
    observation
}

fn saved_with_marker(at: usize) -> Vec<u8> {
    let original = original_note();
    let mut saved = original[..at].to_vec();
    saved.extend_from_slice(EDIT_MARKER.as_bytes());
    saved.extend_from_slice(&original[at..]);
    saved
}

#[test]
fn scenarios_parse_by_name_and_reject_anything_else() {
    for name in [
        "reopen_usable",
        "reopen_missing",
        "reopen_disabled",
        "save_preserves_bytes",
        "save_preserves_crlf_bytes",
        "mode_switch_preserves_bytes",
        "link_clicks_reach_only_the_browser",
    ] {
        assert_eq!(ReleaseScenario::parse(name).unwrap().name(), name);
    }
    assert!(ReleaseScenario::parse("nope").unwrap_err().contains("nope"));
}

#[test]
fn an_unknown_scenario_is_refused_with_its_quoted_name() {
    let error = ReleaseScenario::parse("reopen").unwrap_err();
    assert!(error.starts_with("unknown release-checks scenario \"reopen\"; expected reopen_usable"), "{error}");
    assert_eq!(ReleaseScenario::parse("paste_probe"), Ok(ReleaseScenario::PasteProbe));
}

#[test]
fn the_terminal_records_one_result_only() {
    let mut terminal = ReleaseChecksTerminal::new(ReleaseScenario::ReopenUsable, expectation());
    assert!(!terminal.succeeded());
    assert_eq!(terminal.accept(), Ok(()));
    assert!(terminal.succeeded());
    assert_eq!(terminal.accept(), Err("release-checks result was already recorded".to_string()));
    assert!(terminal.succeeded());
}

#[test]
fn reopen_usable_fails_by_name_when_the_start_screen_mounted() {
    let mut good = observed(false, 0, 3);
    good.workspaces.push(expectation().workspace);
    assert!(judge(ReleaseScenario::ReopenUsable, &expectation(), &catalog(), &good).is_ok());

    let mut mounted = observed(false, 1, 3);
    mounted.workspaces.push(expectation().workspace);
    let error = judge(ReleaseScenario::ReopenUsable, &expectation(), &catalog(), &mounted).unwrap_err();
    assert!(error.contains("reopen_usable") && error.contains("Start Screen mounted"), "{error}");
}

#[test]
fn reopen_usable_reports_what_it_saw() {
    let mut good = observed(false, 0, 3);
    good.workspaces.push(expectation().workspace);
    assert_eq!(
        judge(ReleaseScenario::ReopenUsable, &expectation(), &catalog(), &good).unwrap(),
        vec!["the Start Screen never mounted", "the workspace tree is shown (3 rows)", "no toast appeared"]
    );
    let wrong = observed(false, 0, 3);
    assert_eq!(
        judge(ReleaseScenario::ReopenUsable, &expectation(), &catalog(), &wrong).unwrap_err(),
        "reopen_usable: the recent workspace was opened: open workspace is None, expected \"/ws/gone\""
    );
    let mut resolved = observed(false, 0, 1);
    resolved.workspaces.push(Folder { path: "/link/gone".into(), canonical: Some("/real/gone".into()) });
    let mut expected = expectation();
    expected.workspace.canonical = Some("/real/gone".into());
    assert_eq!(
        judge(ReleaseScenario::ReopenUsable, &expected, &catalog(), &resolved).unwrap_err(),
        "reopen_usable: the workspace tree is shown: 1 tree row(s), start screen in DOM: false"
    );
}

#[test]
fn reopen_missing_needs_exactly_the_one_warning_toast_and_no_workspace() {
    let text = format!("{}: Gone Project", tr("workspace.reopen_failed"));
    let good = with_toast(observed(true, 1, 0), text.clone(), ToastKind::Warning);
    assert!(judge(ReleaseScenario::ReopenMissing, &expectation(), &catalog(), &good).is_ok());

    let none = observed(true, 1, 0);
    let error = judge(ReleaseScenario::ReopenMissing, &expectation(), &catalog(), &none).unwrap_err();
    assert!(error.contains("exactly one Warning toast"), "{error}");

    let wrong_kind = with_toast(observed(true, 1, 0), text.clone(), ToastKind::Info);
    assert!(judge(ReleaseScenario::ReopenMissing, &expectation(), &catalog(), &wrong_kind).is_err());

    let two = with_toast(good, "another".into(), ToastKind::Warning);
    assert!(judge(ReleaseScenario::ReopenMissing, &expectation(), &catalog(), &two).is_err());

    let mut fell_back = with_toast(observed(true, 1, 0), text, ToastKind::Warning);
    fell_back.workspaces.push(folder("/ws/older"));
    let error = judge(ReleaseScenario::ReopenMissing, &expectation(), &catalog(), &fell_back).unwrap_err();
    assert!(error.contains("a workspace opened") && error.contains("older recent entry"), "{error}");
}

#[test]
fn reopen_disabled_needs_the_start_screen_no_workspace_and_no_toast() {
    let good = observed(true, 1, 0);
    assert!(judge(ReleaseScenario::ReopenDisabled, &expectation(), &catalog(), &good).is_ok());

    let mut reopened = observed(false, 0, 3);
    reopened.workspaces.push(expectation().workspace);
    let error = judge(ReleaseScenario::ReopenDisabled, &expectation(), &catalog(), &reopened).unwrap_err();
    assert!(error.contains("reopen_disabled") && error.contains("a workspace opened"), "{error}");

    let no_screen = observed(false, 0, 0);
    let error = judge(ReleaseScenario::ReopenDisabled, &expectation(), &catalog(), &no_screen).unwrap_err();
    assert!(error.contains("Start Screen is shown"), "{error}");

    let toasted = with_toast(good, "x".into(), ToastKind::Warning);
    assert!(judge(ReleaseScenario::ReopenDisabled, &expectation(), &catalog(), &toasted).is_err());
}

#[test]
fn a_missing_start_screen_names_the_last_dom_error() {
    let mut observation = observed(false, 0, 0);
    observation.dom_error = Some("the page did not answer".into());
    assert_eq!(
        judge(ReleaseScenario::ReopenDisabled, &expectation(), &catalog(), &observation).unwrap_err(),
        "reopen_disabled: the Start Screen is shown: start screen in DOM: false, mounts: 0, 0 tree row(s), last DOM error: the page did not answer"
    );
}

#[test]
fn a_scenario_looks_ready_by_its_own_condition() {
    assert!(!looks_ready(ReleaseScenario::ReopenUsable, &Observation::default()));
    assert!(looks_ready(ReleaseScenario::ReopenUsable, &observed(false, 0, 2)));
    assert!(!looks_ready(ReleaseScenario::ReopenUsable, &observed(true, 1, 1)));
    assert!(looks_ready(ReleaseScenario::ReopenMissing, &observed(true, 1, 0)));
    assert!(!looks_ready(ReleaseScenario::ReopenDisabled, &observed(false, 0, 5)));
}

#[test]
fn samples_keep_each_workspace_and_toast_once() {
    let mut observation = Observation::default();
    observation.record_sample(Some(folder("/ws/a")), false, 1);
    observation.record_sample(Some(folder("/ws/a")), true, 0);
    observation.record_sample(None, false, 3);
    observation.record_sample(Some(folder("/ws/b")), false, 2);
    assert_eq!(observation.workspaces.len(), 2);
    assert_eq!(observation.workspaces[1].path, "/ws/b");
    assert!(observation.session_seen);
    assert_eq!(observation.start_screen_mounts, 3);
    observation.note_toast(7, ToastKind::Info, "later".into());
    observation.note_toast(2, ToastKind::Warning, "first".into());
    observation.note_toast(7, ToastKind::Error, "again".into());
    let ids: Vec<u64> = observation.toasts.keys().copied().collect();
    assert_eq!(ids, vec![2, 7]);
    assert_eq!(observation.toasts[&7].1, "later");
}

#[test]
fn saved_bytes_must_be_the_original_plus_one_insertion() {
    let original = original_note();
    let marker = EDIT_MARKER.as_bytes();
    assert_eq!(check_saved_bytes("save_preserves_bytes", &original, &saved_with_marker(0), marker), Ok(0));
    assert_eq!(check_saved_bytes("save_preserves_bytes", &original, &saved_with_marker(3), marker), Ok(3));

    // Every CRLF normalised to LF: names the first differing offset.
    let normalised: Vec<u8> =
        String::from_utf8(saved_with_marker(0)).unwrap().replace("\r\n", "\n").into_bytes();
    let error = check_saved_bytes("save_preserves_bytes", &original, &normalised, marker).unwrap_err();
    assert!(error.contains("first differing byte offset 10"), "{error}");

    let mut other_byte = saved_with_marker(0);
    *other_byte.last_mut().unwrap() = b'!';
    assert!(check_saved_bytes("save_preserves_bytes", &original, &other_byte, marker).is_err());
    assert!(check_saved_bytes("save_preserves_bytes", &original, &original, marker)
        .unwrap_err()
        .contains("not in the saved file"));
    let inside_crlf = 8; // between the first line's \r and \n
    assert!(check_saved_bytes("save_preserves_bytes", &original, &saved_with_marker(inside_crlf), marker)
        .unwrap_err()
        .contains("inside a CRLF pair"));
}

#[test]
fn a_saved_byte_failure_is_reported_word_for_word() {
    let original = original_note();
    let marker = EDIT_MARKER.as_bytes();
    let normalised: Vec<u8> =
        String::from_utf8(saved_with_marker(0)).unwrap().replace("\r\n", "\n").into_bytes();
    assert_eq!(
        check_saved_bytes("save_preserves_bytes", &original, &normalised, marker).unwrap_err(),
        format!(
            "save_preserves_bytes: first differing byte offset 10: expected 0x0d, saved 0x0a (expected {} bytes, saved {}; the edit itself was at byte 0)",
            original.len() + 3,
            normalised.len()
        )
    );
    assert_eq!(
        check_saved_bytes("s", &original, &original, marker).unwrap_err(),
        format!("s: the typed marker \"ZQ7\" is not in the saved file ({0} bytes, original {0})", original.len())
    );
    let mut seeded = original.clone();
    seeded.extend_from_slice(marker);
    assert_eq!(
        check_saved_bytes("s", &seeded, &seeded, marker).unwrap_err(),
        "s: the seeded file already contains the marker"
    );
    let mut past = original.clone();
    past.extend_from_slice(b"xxZQ7");
    assert_eq!(
        check_saved_bytes("s", &original, &past, marker).unwrap_err(),
        format!("s: the marker is at byte {}, past the original's {} bytes", original.len() + 2, original.len())
    );
}

#[test]
fn find_gives_the_first_occurrence() {
    assert_eq!(find(b"abcabc", b"bc"), Some(1));
    assert_eq!(find(b"abcabc", b"cab"), Some(2));
    assert_eq!(find(b"ab", b"abc"), None);
    assert_eq!(find(b"", b"a"), None);
}

#[test]
fn the_seeded_note_mixes_endings_and_keeps_the_constructs() {
    let note = String::from_utf8(original_note()).unwrap();
    assert!(note.contains("\r\n") && note.contains("plain LF line\n") && !note.ends_with('\n'));
    assert!(note.contains("|---|---|") && note.contains("```rust") && note.contains("<!--"));
    assert!(!note.contains(EDIT_MARKER));
}

#[test]
fn an_unedited_file_must_be_byte_identical_and_a_change_names_its_offset() {
    let original = original_note();
    assert_eq!(check_bytes_unchanged("mode_switch_preserves_bytes", &original, &original), Ok(()));
    let lf_only = String::from_utf8(original.clone()).unwrap().replace("\r\n", "\n").into_bytes();
    let error = check_bytes_unchanged("mode_switch_preserves_bytes", &original, &lf_only).unwrap_err();
    assert!(error.contains("first differing byte offset 7"), "{error}");
    let truncated = &original[..original.len() - 1];
    assert!(check_bytes_unchanged("x", &original, truncated).unwrap_err().contains("end of file"));
}

#[test]
fn the_uniform_crlf_note_is_all_crlf() {
    let note = String::from_utf8(original_crlf_note()).unwrap();
    assert_eq!(note.matches("\r\n").count(), note.matches('\n').count());
    assert_eq!(note.matches('\r').count(), note.matches("\r\n").count());
    assert!(note.ends_with("\r\n") && !note.contains(EDIT_MARKER));
}

#[test]
fn each_scenario_plans_its_own_profile() {
    let missing = seed_plan(ReleaseScenario::ReopenMissing);
    assert_eq!(missing.display_name, "Gone Project");
    assert_eq!(missing.older.as_ref().unwrap().1, "Older Project");
    assert_eq!(missing.rename_to.as_deref(), Some("gone-project-renamed"));
    assert!(missing.reopen_last_workspace);

    let disabled = seed_plan(ReleaseScenario::ReopenDisabled);
    assert!(!disabled.reopen_last_workspace && disabled.older.is_none());
    assert_eq!(disabled.workspace.files.len(), 2);

    let crlf = seed_plan(ReleaseScenario::SavePreservesCrlfBytes);
    assert_eq!(crlf.original, original_crlf_note());
    assert_eq!(crlf.file.as_deref(), Some(SAVE_FILE));
    assert_eq!(crlf.workspace.files[0].1, original_crlf_note());

    let save = seed_plan(ReleaseScenario::SavePreservesBytes);
    assert_eq!(save.original, original_note());

    let links = seed_plan(ReleaseScenario::LinkClicksReachOnlyTheBrowser);
    assert_eq!(links.default_mode, EditorMode::Preview);
    assert!(links.needs_opener_log);
    assert_eq!(links.workspace.files[1].1, b"# other\n".to_vec());
}

#[test]
fn the_new_scenario_needs_the_opener_log_from_the_environment() {
    let error = opener_log(ReleaseScenario::LinkClicksReachOnlyTheBrowser, None).unwrap_err();
    assert!(error.contains(OPENER_LOG_ENV) && error.contains("link_clicks_reach_only_the_browser"), "{error}");
    assert_eq!(
        opener_log(ReleaseScenario::LinkClicksReachOnlyTheBrowser, Some("/tmp/log".into())),
        Ok(Some("/tmp/log".to_string()))
    );
    assert_eq!(opener_log(ReleaseScenario::ReopenUsable, Some("/tmp/log".into())), Ok(None));
}

#[test]
fn folders_compare_by_path_components() {
    assert!(same_dir(&folder("/ws/a"), &folder("/ws//a/")));
    assert!(same_dir(&folder("/ws/./a"), &folder("/ws/a")));
    assert!(!same_dir(&folder("/ws/a"), &folder("/ws/b")));
    assert!(!same_dir(&folder("ws/a"), &folder("/ws/a")));
    let resolved = |path: &str, canonical: &str| Folder { path: path.into(), canonical: Some(canonical.into()) };
    assert!(same_dir(&resolved("/link", "/real/ws"), &resolved("/real/ws/", "/real/ws")));
    let mut observation = Observation::default();
    observation.record_sample(Some(folder("/ws/a")), false, 0);
    observation.record_sample(Some(folder("/ws/a/")), false, 0);
    assert_eq!(observation.workspaces.len(), 1, "the same folder with a trailing separator");
}

#[test]
fn notices_are_reported_in_ascending_id_order() {
    let mut observation = observed(true, 1, 0);
    observation.note_toast(9, ToastKind::Info, "b".into());
    observation.note_toast(3, ToastKind::Warning, "a".into());
    let error = judge(ReleaseScenario::ReopenDisabled, &expectation(), &catalog(), &observation).unwrap_err();
    assert!(error.ends_with("saw [\"Warning: a\", \"Info: b\"]"), "{error}");
}
