use bekoedit::diagnose::{describe_app, enrich_failure, lifecycle_name, TraceLog, KEEP};
use bekoedit::editor_mode::EditorMode;
use bekoedit::settle::LifecycleState;
use bekoedit::transport::DriverResult;

fn failed(error: &str) -> DriverResult {
    DriverResult {
        ok: false,
        stage: "tree_row_trusted_click_focused_editor".into(),
        marker: "m".into(),
        milestones: Vec::new(),
        error_toast_seen: false,
        error: Some(error.into()),
    }
}

#[test]
fn the_app_side_line_names_the_document_the_mode_and_the_lifecycle() {
    let line = describe_app(Some("child.md"), EditorMode::Text, "Ready");
    assert_eq!(line, "app: open document=child.md mode=Text source-sync lifecycle=Ready");
    let none = describe_app(None, EditorMode::Form, lifecycle_name(&LifecycleState::Mounting));
    assert!(none.contains("open document=none") && none.contains("mode=Form"), "{none}");
    assert!(none.contains("lifecycle=Mounting"), "{none}");
}

#[test]
fn a_refused_focus_claim_shows_what_the_guard_answered() {
    let mut log = TraceLog::new();
    log.record(10, "run:", "tree_row_focus: click sent");
    log.record(240, "source.focus.rejected.guard", "token=7 reason=activeElementIneligible outcome=rejected active=other");
    let text = log.describe();
    assert!(text.starts_with("recent notes (oldest first): "), "{text}");
    assert!(text.contains("+240ms source.focus.rejected.guard token=7 reason=activeElementIneligible"), "{text}");
    assert!(text.contains("+10ms run: tree_row_focus: click sent"), "{text}");
}

#[test]
fn no_recorded_claim_is_said_plainly_never_left_blank() {
    let mut log = TraceLog::new();
    assert!(log.describe().contains("no source.focus.* trace was recorded"));
    log.record(5, "run:", "tree_row_focus: click sent");
    let text = log.describe();
    assert!(text.contains("no source.focus.* trace was recorded"), "{text}");
    assert!(text.contains("click sent"), "{text}");
}

#[test]
fn the_log_keeps_only_the_most_recent_notes() {
    let mut log = TraceLog::new();
    for i in 0..(KEEP + 5) {
        log.record(i as u128, "source.focus.consumed", &format!("n={i}"));
    }
    let text = log.describe();
    assert!(!text.contains("n=4 ") && !text.ends_with("n=4"), "{text}");
    assert!(text.contains(&format!("n={}", KEEP + 4)), "{text}");
    assert_eq!(text.matches("source.focus.consumed").count(), KEEP);
}

#[test]
fn a_note_with_no_details_loses_its_trailing_space() {
    let mut log = TraceLog::new();
    log.record(3, "run:", "");
    assert_eq!(log.describe(), "no source.focus.* trace was recorded, so the focus claim was not attempted or nothing reported it; recent notes: [+3ms run:]");
}

#[test]
fn a_failure_keeps_its_own_reason_and_gains_the_context() {
    let mut result = failed("Error: timed out at tree_row_trusted_click_focused_editor. At the timeout: x");
    enrich_failure(&mut result, "app: open document=none");
    let error = result.error.unwrap();
    assert!(error.starts_with("Error: timed out at tree_row_trusted_click_focused_editor."), "{error}");
    assert!(error.ends_with("| app: open document=none"), "{error}");
}

#[test]
fn a_success_is_never_touched() {
    let mut result = failed("x");
    result.ok = true;
    result.error = None;
    enrich_failure(&mut result, "context");
    assert_eq!(result.error, None);
}

#[test]
fn the_state_line_names_the_open_file_then_the_notes() {
    let mut log = TraceLog::new();
    log.record(12, "run:", "tree_row_focus: click sent");
    let line = bekoedit::diagnose::describe_state(Some("/ws/sub/child.md"), EditorMode::Text, "Ready", &log);
    assert_eq!(
        line,
        "app: open document=child.md mode=Text source-sync lifecycle=Ready | \
         no source.focus.* trace was recorded, so the focus claim was not attempted or nothing reported it; \
         recent notes: [+12ms run: tree_row_focus: click sent]"
    );
    let none = bekoedit::diagnose::describe_state(None, EditorMode::Form, "Unmounted", &TraceLog::new());
    assert!(none.starts_with("app: open document=none mode=Form source-sync lifecycle=Unmounted | "), "{none}");
}
