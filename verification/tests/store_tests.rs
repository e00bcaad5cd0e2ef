use bekoedit::conflict::{ConflictState, DiskObservation};
use bekoedit::save::SaveState;
use bekoedit::session::{DocumentSession, Fingerprint, SessionError};
use bekoedit::store::{AppState, SaveStep, StoreError, Workspace};

fn workspace() -> Workspace {
    Workspace { root_path: "/ws".into(), display_name: "ws".into() }
}

fn saved_session(state: &mut AppState, text: &str) {
    let id = state.allocate_document_id();
    let mut session = DocumentSession::from_text(id, "/ws/doc.md".into(), text.into());
    session.mark_saved(Fingerprint { len: text.len() as u64, hash: 7 });
    state.open_document(session);
}

#[test]
fn new_untitled_creates_in_memory_document() {
    let mut state = AppState::new(100);
    assert!(state.session.is_none(), "no document before new_untitled");
    state.new_untitled("/tmp/untitled.md".into());
    let session = state.session.as_ref().expect("document exists after new_untitled");
    assert!(session.is_untitled, "session is flagged untitled");
    assert_eq!(session.canonical_text, "", "untitled document starts empty");
}

#[test]
fn untitled_save_now_is_blocked_until_save_as() {
    let mut state = AppState::new(100);
    state.new_untitled("/tmp/untitled.md".into());
    let err = state.save_now(DiskObservation::Missing).unwrap_err();
    assert!(matches!(err, StoreError::Untitled), "got {err:?}");
}

#[test]
fn save_as_moves_the_untitled_document_and_asks_for_its_write() {
    let mut state = AppState::new(100);
    state.new_untitled("/tmp/untitled.md".into());
    let step = state.save_as("/ws/note.md".into(), DiskObservation::Missing).unwrap();
    assert_eq!(step, SaveStep::Write { path: "/ws/note.md".into(), text: String::new() });
    let session = state.session.as_ref().unwrap();
    assert!(!session.is_untitled, "no longer untitled after save_as");
    assert_eq!(session.path, "/ws/note.md");
    assert_eq!(state.save_state, SaveState::Saving);
    state.save_finished(2000, Ok(Fingerprint { len: 0, hash: 1 })).unwrap();
    assert!(!state.session.as_ref().unwrap().dirty);
}

#[test]
fn save_as_without_document_errors() {
    let mut state = AppState::new(100);
    let err = state.save_as("/ws/x.md".into(), DiskObservation::Missing).unwrap_err();
    assert!(matches!(err, StoreError::NoDocument), "got {err:?}");
}

#[test]
fn new_untitled_increments_document_id() {
    let mut state = AppState::new(100);
    state.new_untitled("/tmp/a.md".into());
    let id1 = state.session.as_ref().unwrap().document_id;
    state.new_untitled("/tmp/b.md".into());
    let id2 = state.session.as_ref().unwrap().document_id;
    assert_ne!(id1, id2, "each untitled document gets a distinct id");
}

#[test]
fn close_workspace_clears_everything() {
    let mut state = AppState::new(100);
    state.open_workspace(workspace());
    saved_session(&mut state, "# Doc\n");
    assert!(state.workspace.is_some() && state.session.is_some());
    state.close_workspace();
    assert!(state.workspace.is_none(), "workspace cleared");
    assert!(state.session.is_none(), "session cleared");
}

#[test]
fn delete_dirty_document_returns_document_dirty() {
    let mut state = AppState::new(100);
    state.open_workspace(workspace());
    saved_session(&mut state, "# Note\n");
    let revision = state.session.as_ref().unwrap().revision;
    state.edit_text(revision, "# Modified\n".into(), 1_000).unwrap();
    let err = state.delete_path(true).unwrap_err();
    assert!(matches!(err, StoreError::DocumentDirty), "expected DocumentDirty, got: {err:?}");
    assert_eq!(state.delete_path(false), Ok(()));
}

#[test]
fn delete_clean_document_succeeds() {
    let mut state = AppState::new(100);
    state.open_workspace(workspace());
    saved_session(&mut state, "# Clean\n");
    assert_eq!(state.delete_path(true), Ok(()));
    state.path_deleted(true);
    assert!(state.session.is_none(), "session should clear after deleting open file");
}

#[test]
fn an_edit_schedules_autosave_and_a_changed_file_blocks_the_save() {
    let mut state = AppState::new(100);
    state.open_workspace(workspace());
    saved_session(&mut state, "a\n");
    let revision = state.session.as_ref().unwrap().revision;
    state.edit_text(revision, "b\n".into(), 1_000).unwrap();
    assert_eq!(state.save_state, SaveState::AutoSaveScheduled { due_at_ms: 1_100 });
    assert!(!state.autosave_due(1_099));
    assert!(state.autosave_due(1_100));
    assert_eq!(state.save_now(DiskObservation::Changed), Err(StoreError::ConflictPending));
    assert_eq!(state.save_state, SaveState::ConflictResolutionRequired);
    assert!(state.conflict.requires_user_decision());
    assert_ne!(state.conflict, ConflictState::NoConflict);
}

#[test]
fn a_form_edit_is_a_new_revision_and_a_failed_one_changes_nothing() {
    let mut state = AppState::new(100);
    state.open_workspace(workspace());
    saved_session(&mut state, "# A\n");
    let revision = state.session.as_ref().unwrap().revision;
    let err = state.edit_form(Err(SessionError::Form("no such block".into())), 500).unwrap_err();
    assert_eq!(err, StoreError::Session(SessionError::Form("no such block".into())));
    assert_eq!(state.session.as_ref().unwrap().revision, revision);
    let snapshot = state.edit_form(Ok("# B\n".into()), 500).unwrap().unwrap();
    assert_eq!(snapshot.text, "# B\n");
    let session = state.session.as_ref().unwrap();
    assert_eq!((session.revision, session.dirty), (revision + 1, true));
}

#[test]
fn a_section_move_is_conflict_safe() {
    let mut state = AppState::new(100);
    state.open_workspace(workspace());
    saved_session(&mut state, "# A\n# B\n");
    assert_eq!(state.apply_section_move(Err("no sibling above".into()), 10), Err(StoreError::SaveFailed("no sibling above".into())));
    state.apply_section_move(Ok("# B\n# A\n".into()), 10).unwrap();
    assert_eq!(state.session.as_ref().unwrap().canonical_text, "# B\n# A\n");
    assert_eq!(state.save_now(DiskObservation::Changed), Err(StoreError::ConflictPending));
    assert_eq!(state.apply_section_move(Ok("# A\n# B\n".into()), 20), Err(StoreError::ConflictPending));
    assert_eq!(state.session.as_ref().unwrap().canonical_text, "# B\n# A\n");
}

#[test]
fn the_autosave_tick_saves_only_when_due() {
    let mut state = AppState::new(100);
    state.open_workspace(workspace());
    saved_session(&mut state, "a");
    let revision = state.session.as_ref().unwrap().revision;
    state.edit_text(revision, "b".into(), 1_000).unwrap();
    assert_eq!(state.autosave_tick(1_050, DiskObservation::Unchanged), Ok(None));
    assert_eq!(
        state.autosave_tick(1_100, DiskObservation::Unchanged),
        Ok(Some(SaveStep::Write { path: "/ws/doc.md".into(), text: "b".into() }))
    );
}
