use bekoedit::conflict::ConflictState;
use bekoedit::recovery::reopen_step;
use bekoedit::store::{AppState, StoreError, Workspace};

fn with_workspace(root: &str) -> AppState {
    let mut state = AppState::new(100);
    state.open_workspace(Workspace { root_path: root.into(), display_name: "ws".into() });
    state
}

#[test]
fn a_snapshot_in_the_workspace_is_reopened_by_its_relative_path() {
    let state = with_workspace("/ws");
    assert_eq!(state.recovery_document("/ws/sub/a.md"), Ok(Some("sub/a.md".to_string())));
}

#[test]
fn a_snapshot_outside_the_workspace_is_refused() {
    let state = with_workspace("/ws");
    assert_eq!(
        state.recovery_document("/elsewhere/a.md"),
        Err(StoreError::SaveFailed("prefix not found".into()))
    );
    // Prefixes are whole components: `/wsx` is not inside `/ws`.
    assert!(matches!(state.recovery_document("/wsx/a.md"), Err(StoreError::SaveFailed(_))));
}

#[test]
fn without_a_workspace_nothing_is_reopened() {
    let state = AppState::new(100);
    assert_eq!(state.recovery_document("/anywhere/a.md"), Ok(None));
}

#[test]
fn a_pending_conflict_refuses_the_restore() {
    let mut state = with_workspace("/ws");
    state.conflict = ConflictState::DiskChangedDirtyMemory;
    assert_eq!(state.recovery_document("/ws/a.md"), Err(StoreError::ConflictPending));
}

#[test]
fn the_prefix_outcome_maps_to_the_step() {
    assert_eq!(reopen_step(Ok("a.md".into())), Ok(Some("a.md".into())));
    assert_eq!(reopen_step(Err("why".into())), Err(StoreError::SaveFailed("why".into())));
}
