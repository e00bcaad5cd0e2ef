use bekoedit::smoke::{expected_milestones, validate_driver_result, SmokePhase, SmokeTerminal, MARKER};
use bekoedit::transport::{
    reject_with_reason, validate_completion, CompletedProbe, DriverResult, MessageKind, ModeledEvaluatorOwner,
    PhaseCompletion, PhaseKind, PhaseMachine, PhaseMessage, PinnedExchange, RunSequence, SMOKE_PROTOCOL_VERSION,
};

fn successful_result() -> DriverResult {
    DriverResult {
        ok: true,
        stage: "preview_verified".into(),
        marker: MARKER.into(),
        milestones: expected_milestones().iter().map(|item| (*item).into()).collect(),
        error_toast_seen: false,
        error: None,
    }
}

fn phase_message(kind: MessageKind, phase: &str, exchange_id: u64) -> PhaseMessage {
    PhaseMessage {
        protocol_version: SMOKE_PROTOCOL_VERSION,
        exchange_id,
        kind,
        phase: phase.into(),
        released_exchange_id: None,
        released_phase: None,
        milestone: None,
        result: None,
    }
}

fn phase_completion(kind: MessageKind, phase: &str, exchange_id: u64) -> PhaseCompletion {
    PhaseCompletion {
        protocol_version: SMOKE_PROTOCOL_VERSION,
        exchange_id,
        phase: phase.into(),
        kind,
        acknowledgement_processed: true,
        evaluator_pinned: true,
        error: None,
    }
}

#[test]
fn terminal_is_fail_closed_and_only_exact_success_transitions_once() {
    let mut terminal = SmokeTerminal::default();
    assert!(!terminal.succeeded(), "no result and unexpected close fail");

    let mut failed = successful_result();
    failed.ok = false;
    failed.error = Some("explicit failure".into());
    assert!(terminal.accept(&failed).is_err());
    assert!(!terminal.succeeded());

    let success = successful_result();
    assert!(terminal.accept(&success).is_ok());
    assert!(terminal.succeeded());
    assert!(terminal.accept(&success).is_err(), "duplicates are rejected");
    assert!(terminal.succeeded(), "late results cannot reverse success");
}

#[test]
fn terminal_rejects_wrong_order_marker_stage_and_transient_error() {
    let mutations: [fn(&mut DriverResult); 5] = [
        |result| result.milestones.swap(0, 1),
        |result| result.marker = "wrong".into(),
        |result| result.stage = "preview_clicked".into(),
        |result| result.error_toast_seen = true,
        |result| result.error = Some("contradictory success".into()),
    ];
    for mutate in mutations {
        let mut terminal = SmokeTerminal::default();
        let mut result = successful_result();
        mutate(&mut result);
        assert!(terminal.accept(&result).is_err());
        assert!(!terminal.succeeded());
    }
}

#[test]
fn each_result_failure_is_named() {
    let mut failed = successful_result();
    failed.ok = false;
    failed.stage = "editor".into();
    assert_eq!(validate_driver_result(&failed), Err("driver failed at editor: unknown error".to_string()));
    let mut toast = successful_result();
    toast.error_toast_seen = true;
    assert_eq!(
        validate_driver_result(&toast),
        Err("an error toast appeared during the WebView smoke sequence".to_string())
    );
    let mut short = successful_result();
    short.milestones.pop();
    assert_eq!(
        validate_driver_result(&short),
        Err("driver returned an incomplete or out-of-order milestone list".to_string())
    );
    assert_eq!(validate_driver_result(&successful_result()), Ok(()));
}

#[test]
fn phase_machine_advances_only_after_valid_completed_progress() {
    let mut machine = PhaseMachine::<SmokePhase>::new();
    let mut launch = phase_message(MessageKind::Progress, "launch", 1);
    launch.milestone = Some("new_clicked".into());

    machine.validate(&launch, 1, None).unwrap();
    assert_eq!(machine.current(), SmokePhase::Launch, "a reported but never-completed evaluator cannot advance");
    machine.apply_completed(1, &launch).unwrap();
    assert_eq!(machine.current(), SmokePhase::Editor);
    assert!(machine.apply_completed(1, &launch).is_err(), "duplicate completed progress is rejected");

    let mut editor = phase_message(MessageKind::Progress, "editor", 2);
    editor.released_exchange_id = Some(1);
    editor.released_phase = Some("launch".into());
    editor.milestone = Some("preview_clicked".into());
    machine.validate(&editor, 2, Some(PinnedExchange { exchange_id: 1, phase: SmokePhase::Launch })).unwrap();
    machine.apply_completed(2, &editor).unwrap();
    assert_eq!(machine.current(), SmokePhase::Preview);
    assert!(machine.apply_completed(1, &launch).is_err(), "stale completion is rejected");
}

#[test]
fn phase_machine_rejects_out_of_order_and_malformed_messages() {
    let machine = PhaseMachine::<SmokePhase>::new();
    assert!(machine.validate(&phase_message(MessageKind::Pending, "editor", 1), 1, None).is_err());

    let mut malformed = phase_message(MessageKind::Progress, "launch", 1);
    malformed.milestone = Some("preview_clicked".into());
    assert!(machine.validate(&malformed, 1, None).is_err());

    let malformed_terminal = phase_message(MessageKind::Terminal, "launch", 1);
    assert!(machine.validate(&malformed_terminal, 1, None).is_err());
    assert_eq!(machine.current(), SmokePhase::Launch);
}

#[test]
fn each_rejection_is_named() {
    let machine = PhaseMachine::<SmokePhase>::for_phase(SmokePhase::Preview);
    let mut progress = phase_message(MessageKind::Progress, "preview", 3);
    progress.milestone = Some("preview_verified".into());
    assert_eq!(
        machine.validate(&progress, 3, None),
        Err("preview phase cannot return nonterminal progress".to_string())
    );
    let mut pending = phase_message(MessageKind::Pending, "preview", 3);
    pending.milestone = Some("x".into());
    assert_eq!(
        machine.validate(&pending, 3, None),
        Err("pending driver message contained progress data".to_string())
    );
    assert_eq!(
        machine.validate(&phase_message(MessageKind::Pending, "preview", 4), 3, None),
        Err("driver returned the wrong smoke exchange".to_string())
    );
}

#[test]
fn report_requires_exact_current_exchange_and_prior_pin_release() {
    let machine = PhaseMachine::<SmokePhase>::new();
    let release = PinnedExchange { exchange_id: 40, phase: SmokePhase::Preview };
    let mut message = phase_message(MessageKind::Pending, "launch", 41);
    message.released_exchange_id = Some(40);
    message.released_phase = Some("preview".into());
    machine.validate(&message, 41, Some(release)).unwrap();

    let mutations: [fn(&mut PhaseMessage); 4] = [
        |message| message.protocol_version += 1,
        |message| message.exchange_id += 1,
        |message| message.released_exchange_id = None,
        |message| message.released_phase = Some("editor".into()),
    ];
    for mutate in mutations {
        let mut invalid = message.clone();
        mutate(&mut invalid);
        assert!(machine.validate(&invalid, 41, Some(release)).is_err());
    }
}

#[test]
fn completion_requires_exact_correlation_acknowledgement_and_pin() {
    let exact = phase_completion(MessageKind::Progress, "editor", 7);
    validate_completion(&exact, 7, "editor", MessageKind::Progress).unwrap();

    let mutations: [fn(&mut PhaseCompletion); 6] = [
        |completion| completion.protocol_version += 1,
        |completion| completion.exchange_id += 1,
        |completion| completion.phase = "preview".into(),
        |completion| completion.kind = MessageKind::Pending,
        |completion| completion.acknowledgement_processed = false,
        |completion| completion.evaluator_pinned = false,
    ];
    for mutate in mutations {
        let mut invalid = exact.clone();
        mutate(&mut invalid);
        assert!(validate_completion(&invalid, 7, "editor", MessageKind::Progress).is_err());
    }
}

#[test]
fn modeled_channel_pin_retains_owner_until_join_then_releases() {
    let mut pinned = ModeledEvaluatorOwner::returned(true);
    pinned.finalizer_attempt();
    assert!(pinned.live, "strong JS pin defers query drop");
    pinned.consume_join().unwrap();
    assert!(pinned.returned, "the retained evaluator is not executing");
    pinned.release();
    pinned.finalizer_attempt();
    assert!(!pinned.live, "next probe release permits finalization");

    let mut unpinned = ModeledEvaluatorOwner::returned(false);
    unpinned.finalizer_attempt();
    assert_eq!(unpinned.consume_join(), Err("EvalError::Finished"));
}

fn completion(error: Option<&str>) -> PhaseCompletion {
    PhaseCompletion {
        protocol_version: SMOKE_PROTOCOL_VERSION,
        exchange_id: 7,
        phase: "editor".into(),
        kind: MessageKind::Progress,
        acknowledgement_processed: true,
        evaluator_pinned: true,
        error: error.map(str::to_string),
    }
}

#[test]
fn a_completion_failure_s_reason_is_in_the_rejection() {
    let mut failed = completion(Some("invalid phase acknowledgement"));
    failed.acknowledgement_processed = false;
    failed.evaluator_pinned = false;
    let error = validate_completion(&failed, 7, "editor", MessageKind::Progress).unwrap_err();
    assert!(error.contains("invalid phase acknowledgement"), "{error}");
    assert_eq!(error, "editor phase evaluator returned invalid pinned completion: invalid phase acknowledgement");
}

#[test]
fn a_completion_carrying_an_error_never_passes() {
    let odd = completion(Some("smoke evaluator pin was already occupied"));
    assert!(validate_completion(&odd, 7, "editor", MessageKind::Progress).is_err());
    assert!(validate_completion(&completion(None), 7, "editor", MessageKind::Progress).is_ok());
}

#[test]
fn a_rejection_carries_a_terminal_failure_s_own_reason() {
    let mut message = phase_message(MessageKind::Terminal, "launch", 1);
    message.result = Some(DriverResult {
        ok: false,
        stage: "launch".into(),
        marker: String::new(),
        milestones: Vec::new(),
        error_toast_seen: false,
        error: Some("no start button".into()),
    });
    assert_eq!(reject_with_reason(&message, "base"), "base: no start button");
    message.kind = MessageKind::Progress;
    assert_eq!(reject_with_reason(&message, "base"), "base");
}

#[test]
fn every_variant_is_reached_by_walking_next_from_the_first_phase() {
    let mut seen = Vec::new();
    let mut current = Some(SmokePhase::first());
    while let Some(phase) = current {
        assert!(!seen.contains(&phase.as_str()), "next() cycles back to {}", phase.as_str());
        seen.push(phase.as_str());
        current = phase.next();
    }
    assert_eq!(seen, vec!["launch", "editor", "preview"]);
}

fn probe(phase: SmokePhase, exchange_id: u64, release: Option<PinnedExchange<SmokePhase>>) -> CompletedProbe<SmokePhase> {
    let (kind, milestone, result) = match phase {
        SmokePhase::Launch => (MessageKind::Progress, Some("new_clicked"), None),
        SmokePhase::Editor => (MessageKind::Progress, Some("preview_clicked"), None),
        SmokePhase::Preview => (MessageKind::Terminal, None, Some(successful_result())),
    };
    let mut message = phase_message(kind, phase.as_str(), exchange_id);
    message.milestone = milestone.map(str::to_string);
    message.result = result;
    if let Some(release) = release {
        message.released_exchange_id = Some(release.exchange_id);
        message.released_phase = Some(release.phase.as_str().into());
    }
    CompletedProbe {
        message,
        completion: phase_completion(kind, phase.as_str(), exchange_id),
        pin: PinnedExchange { exchange_id, phase },
    }
}

#[test]
fn a_whole_run_steps_through_every_phase_and_ends_with_the_result() {
    let mut sequence = RunSequence::<SmokePhase>::new();
    let mut terminal = SmokeTerminal::new();
    let mut joined = Vec::new();
    let result = loop {
        let phase = sequence.phase();
        joined.push(phase.as_str());
        let completed = probe(phase, sequence.exchange_id(), sequence.release());
        if let Some(result) = sequence.step(completed).unwrap() {
            terminal.accept(&result).unwrap();
            break result;
        }
    };
    assert_eq!(result.stage, "preview_verified");
    assert!(terminal.succeeded());
    assert_eq!(joined, ["launch", "editor", "preview"]);
}

#[test]
fn an_invalid_joined_completion_stops_the_run() {
    let mut sequence = RunSequence::<SmokePhase>::new();
    let mut completed = probe(SmokePhase::Launch, 1, None);
    completed.completion.evaluator_pinned = false;
    let error = sequence.step(completed).unwrap_err();
    assert!(error.contains("invalid pinned completion"), "{error}");
    assert_eq!(sequence.phase(), SmokePhase::Launch);
    assert_eq!(sequence.exchange_id(), 1);
}
