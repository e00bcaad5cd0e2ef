use bekoedit::shell_behaviour::{
    expected_milestones, validate_shell_behaviour_result, writes_conflict_after, ShellBehaviourMachine,
    ShellBehaviourPhase, ShellBehaviourTerminal, CONFLICT_AUTOSAVE_DEBOUNCE_MS, MARKER, TERMINAL_STAGE,
};
use bekoedit::shell_behaviour::ShellBehaviourPhase as P;
use bekoedit::transport::{DriverResult, MessageKind, PhaseKind, PhaseMessage, PinnedExchange, SMOKE_PROTOCOL_VERSION};

fn phase_message(kind: MessageKind, phase: &str, exchange_id: u64) -> PhaseMessage {
    PhaseMessage {
        protocol_version: SMOKE_PROTOCOL_VERSION,
        exchange_id,
        kind,
        phase: phase.into(),
        released_exchange_id: None,
        released_phase: None,
        milestone: None,
        result: None,
    }
}

fn successful_result() -> DriverResult {
    DriverResult {
        ok: true,
        stage: TERMINAL_STAGE.into(),
        marker: MARKER.into(),
        milestones: expected_milestones().iter().map(|item| (*item).into()).collect(),
        error_toast_seen: false,
        error: None,
    }
}

#[test]
fn machine_advances_through_every_transition_ending_at_conflict_banner() {
    let mut machine = ShellBehaviourMachine::new();
    let progression = [
        (P::RecoveryEntry, "recovery_heading_focused", P::RecoveryExit),
        (P::RecoveryExit, "recovery_exit_restored_logo", P::DownUp),
        (P::DownUp, "down_up_moved", P::ExpandEnter),
        (P::ExpandEnter, "expand_entered", P::CollapseAscend),
        (P::CollapseAscend, "collapse_ascended", P::HomeEnd),
        (P::HomeEnd, "home_end_reached", P::NonOpenable),
        (P::NonOpenable, "non_openable_reachable", P::EnterOpens),
        (P::EnterOpens, "enter_opened_editor_focused", P::SearchResultOpens),
        (P::SearchResultOpens, "search_result_editor_focused", P::NewFileFocuses),
        (P::NewFileFocuses, "new_file_editor_focused", P::TreeEnterAfterNewFile),
        (P::TreeEnterAfterNewFile, "tree_enter_refocused_after_new_file", P::FormSearchRestores),
        (P::FormSearchRestores, "form_search_restored_to_trigger", P::AppMenuMouseOpen),
        (P::AppMenuMouseOpen, "app_menu_mouse_open_kept_focus", P::AppMenuKeys),
        (P::AppMenuKeys, "app_menu_keys_verified", P::AppMenuEscape),
        (P::AppMenuEscape, "app_menu_escape_restored", P::AppMenuFocusLeave),
        (P::AppMenuFocusLeave, "app_menu_focus_leave_kept", P::ToolsMenuKeys),
        (P::ToolsMenuKeys, "tools_menu_keys_verified", P::ToolsMenuEscape),
        (P::ToolsMenuEscape, "tools_menu_escape_restored", P::ToolsMenuFocusLeave),
        (P::ToolsMenuFocusLeave, "tools_menu_focus_leave_kept", P::TabsArrowsFocusOnly),
        (P::TabsArrowsFocusOnly, "tabs_arrows_moved_focus_only", P::TabsClickActivates),
        (P::TabsClickActivates, "tabs_click_focused_editor", P::MenuClosesIntoEditor),
        (P::MenuClosesIntoEditor, "menu_closed_into_editor_kept", P::AuthorityReleasedAfterEditorFocus),
        (P::AuthorityReleasedAfterEditorFocus, "authority_released_editor_refocused", P::SettingsEntry),
        (P::SettingsEntry, "settings_heading_focused", P::SettingsExitRestored),
        (P::SettingsExitRestored, "settings_exit_restored_trigger", P::ConflictDirtied),
        (P::ConflictDirtied, "conflict_document_dirtied", P::ConflictBannerFocusKept),
    ];
    for (index, (phase, milestone, next)) in progression.into_iter().enumerate() {
        let exchange_id = (index + 1) as u64;
        assert_eq!(machine.current(), phase);
        let mut message = phase_message(MessageKind::Progress, phase.as_str(), exchange_id);
        message.milestone = Some(milestone.into());
        machine.validate(&message, exchange_id, None).unwrap();
        machine.apply_completed(exchange_id, &message).unwrap();
        assert_eq!(machine.current(), next);
    }
    assert_eq!(ShellBehaviourPhase::ConflictBannerFocusKept.next(), None, "the conflict banner is the terminal phase");
    assert_eq!(ShellBehaviourPhase::ConflictBannerFocusKept.as_str(), TERMINAL_STAGE);
}

#[test]
fn terminal_can_come_from_any_phase_not_only_the_last_one() {
    let machine = ShellBehaviourMachine::new();
    assert_eq!(machine.current(), ShellBehaviourPhase::RecoveryEntry);
    let mut message = phase_message(MessageKind::Terminal, "recovery_entry", 1);
    let mut failed = successful_result();
    failed.ok = false;
    failed.stage = "recovery_entry".into();
    failed.error = Some("could not focus the first tree row directly".into());
    message.result = Some(failed);
    machine.validate(&message, 1, None).unwrap();
}

#[test]
fn malformed_progress_and_terminal_messages_are_rejected() {
    let machine = ShellBehaviourMachine::for_phase(ShellBehaviourPhase::DownUp);

    let mut wrong_milestone = phase_message(MessageKind::Progress, "down_up", 1);
    wrong_milestone.milestone = Some("expand_entered".into());
    assert!(machine.validate(&wrong_milestone, 1, None).is_err());

    let mut progress_with_result = phase_message(MessageKind::Progress, "down_up", 1);
    progress_with_result.milestone = Some("down_up_moved".into());
    progress_with_result.result = Some(successful_result());
    assert!(machine.validate(&progress_with_result, 1, None).is_err());

    let mut terminal_with_milestone = phase_message(MessageKind::Terminal, "down_up", 1);
    terminal_with_milestone.milestone = Some("down_up_moved".into());
    terminal_with_milestone.result = Some(successful_result());
    assert!(machine.validate(&terminal_with_milestone, 1, None).is_err());

    let terminal_without_result = phase_message(MessageKind::Terminal, "down_up", 1);
    assert!(machine.validate(&terminal_without_result, 1, None).is_err());

    let out_of_order = phase_message(MessageKind::Pending, "expand_enter", 1);
    assert!(machine.validate(&out_of_order, 1, None).is_err());

    let last_phase = ShellBehaviourMachine::for_phase(ShellBehaviourPhase::ConflictBannerFocusKept);
    let mut malformed = phase_message(MessageKind::Progress, TERMINAL_STAGE, 1);
    malformed.milestone = Some("conflict_banner_focus_kept".into());
    assert!(last_phase.validate(&malformed, 1, None).is_err(), "the terminal phase cannot return nonterminal progress");

    let enter_opens = ShellBehaviourMachine::for_phase(ShellBehaviourPhase::EnterOpens);
    let mut progress = phase_message(MessageKind::Progress, "enter_opens", 1);
    progress.milestone = Some("enter_opened_editor_focused".into());
    assert!(enter_opens.validate(&progress, 1, None).is_ok());
}

#[test]
fn validate_result_checks_stage_marker_toast_and_milestones() {
    assert!(validate_shell_behaviour_result(&successful_result()).is_ok());
    let mutations: [fn(&mut DriverResult); 5] = [
        |result| result.stage = "enter_opens".into(),
        |result| result.marker = "wrong".into(),
        |result| result.error_toast_seen = true,
        |result| result.error = Some("contradictory success".into()),
        |result| result.milestones.swap(0, 1),
    ];
    for mutate in mutations {
        let mut result = successful_result();
        mutate(&mut result);
        assert!(validate_shell_behaviour_result(&result).is_err());
    }
    let mut failed = successful_result();
    failed.ok = false;
    failed.error = Some("explicit failure".into());
    assert!(validate_shell_behaviour_result(&failed).is_err());
}

#[test]
fn terminal_result_transitions_the_terminal_exactly_once() {
    let mut terminal = ShellBehaviourTerminal::with_conflict_file("/ws/sub/child.md".into());
    assert!(!terminal.succeeded());
    assert!(terminal.accept(&successful_result()).is_ok());
    assert!(terminal.succeeded());
    assert_eq!(
        terminal.accept(&successful_result()),
        Err("shell-behaviour terminal result was already recorded".to_string()),
        "duplicates are rejected"
    );
    assert!(terminal.succeeded(), "late results cannot reverse success");
    assert_eq!(terminal.conflict_file().as_deref(), Some("/ws/sub/child.md"));
}

#[test]
fn the_conflict_write_happens_only_between_f1_and_f2() {
    let mut phase = Some(ShellBehaviourMachine::new().current());
    let mut writers = Vec::new();
    while let Some(current) = phase {
        if writes_conflict_after(current) {
            writers.push(current);
        }
        phase = current.next();
    }
    assert_eq!(writers, [ShellBehaviourPhase::ConflictDirtied]);
    assert_eq!(ShellBehaviourPhase::ConflictDirtied.next(), Some(ShellBehaviourPhase::ConflictBannerFocusKept));
    assert_eq!(CONFLICT_AUTOSAVE_DEBOUNCE_MS, 86_400_000, "one day, not u64::MAX");
}

#[test]
fn phase_bijection_every_variant_is_reached_by_walking_next_from_the_first_phase() {
    let mut seen = Vec::new();
    let mut current = Some(ShellBehaviourPhase::first());
    while let Some(phase) = current {
        assert!(!seen.contains(&phase.as_str()), "next() cycles back to {}", phase.as_str());
        seen.push(phase.as_str());
        current = phase.next();
    }
    assert_eq!(seen.len(), 27);
    assert_eq!(seen.len(), expected_milestones().len());
}

#[test]
fn a_terminal_failure_s_own_reason_survives_a_structural_pin_mismatch() {
    let machine = ShellBehaviourMachine::for_phase(ShellBehaviourPhase::DownUp);
    let message = PhaseMessage {
        protocol_version: SMOKE_PROTOCOL_VERSION,
        exchange_id: 6,
        kind: MessageKind::Terminal,
        phase: "down_up".into(),
        released_exchange_id: None,
        released_phase: None,
        milestone: None,
        result: Some(DriverResult {
            ok: false,
            stage: "invalid_request".into(),
            marker: "RFC044_SHELL_BEHAVIOUR_MARKER".into(),
            milestones: Vec::new(),
            error_toast_seen: false,
            error: Some("invalid phase request: phase=\"garbage\"".into()),
        }),
    };
    let release = PinnedExchange { exchange_id: 5, phase: ShellBehaviourPhase::RecoveryExit };
    let error = machine.validate(&message, 6, Some(release)).unwrap_err();
    assert!(error.contains("invalid phase request"), "the driver's own reason must survive a structural rejection: {error}");
}
