use bekoedit::settle::{unsettled_lifecycle_state, LifecycleState};
use bekoedit::transport::{DriverResult, MessageKind, PhaseKind, PhaseMessage, PinnedExchange, SMOKE_PROTOCOL_VERSION};
use bekoedit::trusted_click::{
    expected_milestones, validate_trusted_click_result, TrustedClickMachine, TrustedClickPhase,
    TrustedClickTerminal, MARKER, TERMINAL_STAGE,
};

fn phase_message(kind: MessageKind, phase: &str, exchange_id: u64) -> PhaseMessage {
    PhaseMessage {
        protocol_version: SMOKE_PROTOCOL_VERSION,
        exchange_id,
        kind,
        phase: phase.into(),
        released_exchange_id: None,
        released_phase: None,
        milestone: None,
        result: None,
    }
}

fn successful_result() -> DriverResult {
    DriverResult {
        ok: true,
        stage: TERMINAL_STAGE.into(),
        marker: MARKER.into(),
        milestones: expected_milestones().iter().map(|item| (*item).into()).collect(),
        error_toast_seen: false,
        error: None,
    }
}

#[test]
fn machine_advances_through_every_transition_ending_at_mode_tab_focus() {
    let mut machine = TrustedClickMachine::new();
    let progression = [
        (TrustedClickPhase::ProofOfTrust, "trusted_click_focused_default_target", TrustedClickPhase::TreeRowFocus),
        (TrustedClickPhase::TreeRowFocus, "tree_row_trusted_click_focused_editor", TrustedClickPhase::BacklinkFocus),
        (TrustedClickPhase::BacklinkFocus, "backlink_trusted_click_focused_editor", TrustedClickPhase::ModeTabFocus),
    ];
    for (index, (phase, milestone, next)) in progression.into_iter().enumerate() {
        let exchange_id = (index + 1) as u64;
        assert_eq!(machine.current(), phase);
        let mut message = phase_message(MessageKind::Progress, phase.as_str(), exchange_id);
        message.milestone = Some(milestone.into());
        machine.validate(&message, exchange_id, None).unwrap();
        machine.apply_completed(exchange_id, &message).unwrap();
        assert_eq!(machine.current(), next);
    }
    assert_eq!(TrustedClickPhase::ModeTabFocus.next(), None, "mode_tab_focus is the terminal phase");
    assert_eq!(TrustedClickPhase::ModeTabFocus.as_str(), "mode_tab_focus");
}

#[test]
fn tests_terminal_can_come_from_any_phase_not_only_the_last_one() {
    let machine = TrustedClickMachine::new();
    assert_eq!(machine.current(), TrustedClickPhase::ProofOfTrust);
    let mut message = phase_message(MessageKind::Terminal, "proof_of_trust", 1);
    let mut failed = successful_result();
    failed.ok = false;
    failed.stage = "proof_of_trust".into();
    failed.error = Some("xdotool exited with a nonzero status".into());
    message.result = Some(failed);
    machine.validate(&message, 1, None).unwrap();
}

#[test]
fn tests_malformed_progress_and_terminal_messages_are_rejected() {
    let machine = TrustedClickMachine::for_phase(TrustedClickPhase::TreeRowFocus);

    let mut wrong_milestone = phase_message(MessageKind::Progress, "tree_row_focus", 1);
    wrong_milestone.milestone = Some("backlink_trusted_click_focused_editor".into());
    assert!(machine.validate(&wrong_milestone, 1, None).is_err());

    let mut progress_with_result = phase_message(MessageKind::Progress, "tree_row_focus", 1);
    progress_with_result.milestone = Some("tree_row_trusted_click_focused_editor".into());
    progress_with_result.result = Some(successful_result());
    assert!(machine.validate(&progress_with_result, 1, None).is_err());

    let mut terminal_with_milestone = phase_message(MessageKind::Terminal, "tree_row_focus", 1);
    terminal_with_milestone.milestone = Some("tree_row_trusted_click_focused_editor".into());
    terminal_with_milestone.result = Some(successful_result());
    assert!(machine.validate(&terminal_with_milestone, 1, None).is_err());

    let terminal_without_result = phase_message(MessageKind::Terminal, "tree_row_focus", 1);
    assert!(machine.validate(&terminal_without_result, 1, None).is_err());

    let out_of_order = phase_message(MessageKind::Pending, "backlink_focus", 1);
    assert!(machine.validate(&out_of_order, 1, None).is_err());

    let last = TrustedClickMachine::for_phase(TrustedClickPhase::ModeTabFocus);
    let mut malformed = phase_message(MessageKind::Progress, "mode_tab_focus", 1);
    malformed.milestone = Some(TERMINAL_STAGE.into());
    assert!(last.validate(&malformed, 1, None).is_err(), "the terminal phase cannot return nonterminal progress");
}

#[test]
fn released_pin_must_match_the_prior_exchange_exactly() {
    let machine = TrustedClickMachine::for_phase(TrustedClickPhase::TreeRowFocus);
    let mut message = phase_message(MessageKind::Progress, "tree_row_focus", 2);
    message.milestone = Some("tree_row_trusted_click_focused_editor".into());
    message.released_exchange_id = Some(1);
    message.released_phase = Some("proof_of_trust".into());

    let release = PinnedExchange { exchange_id: 1, phase: TrustedClickPhase::ProofOfTrust };
    assert!(machine.validate(&message, 2, Some(release)).is_ok());

    let wrong_release = PinnedExchange { exchange_id: 1, phase: TrustedClickPhase::TreeRowFocus };
    assert!(machine.validate(&message, 2, Some(wrong_release)).is_err());
    assert!(machine.validate(&message, 2, None).is_err());
}

#[test]
fn tests_validate_result_checks_stage_marker_toast_and_milestones() {
    assert!(validate_trusted_click_result(&successful_result()).is_ok());
    let mutations: [fn(&mut DriverResult); 5] = [
        |result| result.stage = "tree_row_focus".into(),
        |result| result.marker = "wrong".into(),
        |result| result.error_toast_seen = true,
        |result| result.error = Some("contradictory success".into()),
        |result| result.milestones.swap(0, 1),
    ];
    for mutate in mutations {
        let mut result = successful_result();
        mutate(&mut result);
        assert!(validate_trusted_click_result(&result).is_err());
    }
    let mut failed = successful_result();
    failed.ok = false;
    failed.error = Some("explicit failure".into());
    assert!(validate_trusted_click_result(&failed).is_err());
}

#[test]
fn tests_terminal_result_transitions_the_terminal_exactly_once() {
    let mut terminal = TrustedClickTerminal::default();
    assert!(!terminal.succeeded());
    assert!(terminal.accept(&successful_result()).is_ok());
    assert!(terminal.succeeded());
    assert!(terminal.accept(&successful_result()).is_err(), "duplicates are rejected");
    assert!(terminal.succeeded(), "late results cannot reverse success");
}

#[test]
fn the_phase_names_are_distinct_from_the_terminal_stage() {
    let phases = [
        TrustedClickPhase::ProofOfTrust,
        TrustedClickPhase::TreeRowFocus,
        TrustedClickPhase::BacklinkFocus,
        TrustedClickPhase::ModeTabFocus,
    ];
    for phase in phases {
        assert_ne!(phase.as_str(), TERMINAL_STAGE);
    }
    assert_eq!(TrustedClickPhase::ModeTabFocus.expected_milestone(), TERMINAL_STAGE);
}

#[test]
fn unsettled_lifecycle_state_is_clear_once_ready() {
    assert_eq!(unsettled_lifecycle_state(&LifecycleState::Ready), None);
    assert_eq!(unsettled_lifecycle_state(&LifecycleState::Unmounted), None);
}

#[test]
fn unsettled_lifecycle_state_reports_mounting_even_with_an_empty_queue() {
    assert_eq!(unsettled_lifecycle_state(&LifecycleState::Initializing), Some("Initializing".to_string()));
    assert_eq!(unsettled_lifecycle_state(&LifecycleState::Unmounting), Some("Unmounting".to_string()));
}
