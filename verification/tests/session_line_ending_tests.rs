use bekoedit::save::AutosaveScheduler;
use bekoedit::session::{DocumentSession, LineEnding, SessionError};

#[test]
fn a_session_records_the_line_ending_of_its_text() {
    assert_eq!(DocumentSession::from_text(1, "/a.md".into(), "a\nb\n".into()).line_ending, LineEnding::Lf);
    assert_eq!(DocumentSession::from_text(1, "/a.md".into(), "a\r\nb\r\n".into()).line_ending, LineEnding::Crlf);
    assert_eq!(DocumentSession::new_untitled(2, "/tmp/u.md".into()).line_ending, LineEnding::Lf);
    assert_eq!(LineEnding::detect("no break"), LineEnding::Lf);
    assert_eq!(LineEnding::detect("lone\rcr"), LineEnding::Lf);
}

#[test]
fn every_accepted_snapshot_records_the_new_text_s_ending() {
    let mut session = DocumentSession::from_text(1, "/a.md".into(), "a\nb\n".into());
    assert_eq!(session.apply_text_snapshot(1, "a\r\nb\r\n".into()), Ok(()));
    assert_eq!((session.revision, session.dirty, session.line_ending), (2, true, LineEnding::Crlf));
    // The same text again changes nothing, the revision included.
    assert_eq!(session.apply_text_snapshot(2, "a\r\nb\r\n".into()), Ok(()));
    assert_eq!(session.revision, 2);
    // A stale base is refused and nothing changes.
    assert_eq!(
        session.apply_text_snapshot(1, "x\n".into()),
        Err(SessionError::TextRevisionMismatch { base: 1, current: 2 })
    );
    assert_eq!((session.canonical_text.as_str(), session.line_ending), ("a\r\nb\r\n", LineEnding::Crlf));
    assert_eq!(session.apply_text_snapshot(2, "x\n".into()), Ok(()));
    assert_eq!(session.line_ending, LineEnding::Lf);
}

#[test]
fn the_autosave_settings_are_set_through_the_scheduler() {
    let mut scheduler = AutosaveScheduler::new(100);
    assert!(scheduler.is_enabled());
    scheduler.set_debounce_ms(250);
    assert_eq!(scheduler.debounce_ms(), 250);
    scheduler.note_edit(1_000);
    assert_eq!(scheduler.due_at(), Some(1_250));
    scheduler.set_enabled(false);
    assert!(!scheduler.is_enabled());
    assert_eq!(scheduler.due_at(), Some(1_250), "a pending autosave stays");
    scheduler.note_edit(2_000);
    assert_eq!(scheduler.due_at(), Some(1_250), "a disabled scheduler schedules nothing new");
}
