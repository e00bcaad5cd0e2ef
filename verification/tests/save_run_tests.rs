use bekoedit::save_run::{save_pass_lines, saved_file_step, SavedFileStep};
use bekoedit::session::{DocumentSession, SessionError};
use bekoedit::wait::STEP_DEADLINE_MS;

#[test]
fn a_changed_file_ends_the_wait() {
    assert_eq!(saved_file_step(b"abc", b"abZc", 0), SavedFileStep::Changed);
    assert_eq!(saved_file_step(b"abc", b"abd", STEP_DEADLINE_MS + 1), SavedFileStep::Changed);
}

#[test]
fn an_unchanged_file_is_read_again_until_the_deadline() {
    assert_eq!(saved_file_step(b"abc", b"abc", STEP_DEADLINE_MS - 1), SavedFileStep::Again);
    assert_eq!(
        saved_file_step(b"abc", b"abc", STEP_DEADLINE_MS),
        SavedFileStep::NeverChanged(
            "save_preserves_bytes: the file on disk never changed after Ctrl+S (still the original 3 bytes)".into()
        )
    );
}

#[test]
fn a_passed_save_reports_where_the_edit_landed() {
    assert_eq!(
        save_pass_lines(7, 120),
        vec![
            "one edit at byte 7, saved through the app; the other 120 bytes are identical".to_string(),
            "no line ending was normalized".to_string(),
        ]
    );
}

#[test]
fn a_session_is_made_only_from_utf8_bytes() {
    let session = DocumentSession::from_bytes(3, "/ws/a.md".into(), "é\r\n".as_bytes().to_vec(), None)
        .expect("valid UTF-8");
    assert_eq!(session.canonical_text, "é\r\n");
    assert!(!session.dirty);
    assert_eq!(session.revision, 1);
    let refused = DocumentSession::from_bytes(3, "/ws/a.md".into(), vec![0x61, 0xff], None);
    assert!(matches!(refused, Err(SessionError::NotUtf8)));
}
