use bekoedit::paste_report::{
    answers, helper_exited, helper_not_configured, helper_not_ready, helper_not_started, helper_ready, owner_step, Case,
    Constructed, Helper, Observation, OwnerStep, ProbeEvent,
};

fn key(kind: &str, shift: bool) -> ProbeEvent {
    ProbeEvent {
        kind: kind.into(),
        key: Some(if shift { "V" } else { "v" }.into()),
        ctrl: Some(true),
        shift: Some(shift),
        ..Default::default()
    }
}

fn paste(types: &[&str], html: usize, plain: usize) -> ProbeEvent {
    ProbeEvent {
        kind: "paste".into(),
        has_clipboard_data: Some(true),
        types: Some(types.iter().map(|t| t.to_string()).collect()),
        html_length: Some(html),
        html_head: Some("<h1>Probe".into()),
        plain_length: Some(plain),
        plain_head: Some("Probe heading".into()),
        target: Some("cm-content".into()),
        trusted: true,
        ..Default::default()
    }
}

fn case(events: Vec<ProbeEvent>, before: &str, after: &str) -> Case {
    Case {
        events,
        doc_before: Some(before.into()),
        doc_after: Some(after.into()),
    }
}

fn ready() -> Helper {
    Helper {
        ready: true,
        note: String::new(),
    }
}

fn both_flavours_case() -> Case {
    case(
        vec![
            key("keydown", false),
            paste(&["text/html", "text/plain"], 63, 40),
            key("keyup", false),
        ],
        "abc",
        "abcPasted",
    )
}

fn text(observation: &Observation) -> String {
    answers(observation).join("\n")
}

fn verdict(observation: &Observation, number: u8) -> String {
    answers(observation)
        .into_iter()
        .find(|line| line.starts_with(&format!("VERDICT {number}:")))
        .unwrap_or_else(|| panic!("no VERDICT {number} line"))
}

#[test]
fn a_real_paste_with_both_flavours_is_verdict_one_yes_and_says_what_it_carried() {
    let observation = Observation {
        helper: ready(),
        ctrl_v: both_flavours_case(),
        ..Default::default()
    };
    assert!(
        verdict(&observation, 1).ends_with("YES"),
        "{}",
        verdict(&observation, 1)
    );
    let all = text(&observation);
    assert!(
        all.contains("text/html 63 chars") && all.contains("text/plain 40 chars"),
        "{all}"
    );
    assert!(
        all.contains("the editor text changed, 3 to 9 characters"),
        "{all}"
    );
    assert!(
        all.contains("Q-order Ctrl+V: the keydown came BEFORE the paste event"),
        "{all}"
    );
    assert!(
        all.contains("holds the selection with text/html and text/plain"),
        "{all}"
    );
}

#[test]
fn html_alone_or_an_empty_flavour_is_not_both() {
    for event in [
        paste(&["text/html"], 63, 0),
        paste(&["text/plain"], 0, 40),
        paste(&["text/html", "text/plain"], 0, 40),
        paste(&["text/html", "text/plain"], 63, 0),
        paste(&[], 0, 0),
    ] {
        let observation = Observation {
            ctrl_v: case(vec![event.clone()], "a", "a"),
            ..Default::default()
        };
        assert!(verdict(&observation, 1).ends_with("NO"), "{event:?}");
    }
}

#[test]
fn no_paste_event_at_all_is_said_plainly_with_the_events_that_did_arrive() {
    let observation = Observation {
        ctrl_v: case(vec![key("keydown", false), key("keyup", false)], "a", "a"),
        ..Default::default()
    };
    let all = text(&observation);
    assert!(all.contains("no paste event reached the page"), "{all}");
    assert!(all.contains("keydown Ctrl+v > keyup Ctrl+v"), "{all}");
    assert!(all.contains("the editor text did not change"), "{all}");
    assert!(verdict(&observation, 1).ends_with("NO"));

    let silent = Observation::default();
    assert!(text(&silent).contains("no events at all"));
}

#[test]
fn the_chord_verdict_separates_the_paste_event_from_its_keydown() {
    let only_keydown = Observation {
        chord: case(vec![key("keydown", true)], "a", "a"),
        ..Default::default()
    };
    let line = verdict(&only_keydown, 2);
    assert!(
        line.contains("dispatches a paste event at all: NO"),
        "{line}"
    );
    assert!(line.contains("its keydown is visible: YES"), "{line}");

    let both = Observation {
        chord: case(
            vec![
                key("keydown", true),
                paste(&["text/html", "text/plain"], 5, 5),
            ],
            "a",
            "ab",
        ),
        ..Default::default()
    };
    let line = verdict(&both, 2);
    assert!(
        line.contains("at all: YES") && line.contains("keydown is visible: YES"),
        "{line}"
    );

    let neither = Observation::default();
    let line = verdict(&neither, 2);
    assert!(
        line.contains("at all: NO") && line.contains("visible: NO"),
        "{line}"
    );
}

#[test]
fn a_ctrl_v_keydown_is_not_taken_for_the_chord() {
    // Ctrl+V (no Shift) must not count as the Ctrl+Shift+V keydown.
    let observation = Observation {
        chord: case(vec![key("keydown", false)], "a", "a"),
        ..Default::default()
    };
    assert!(verdict(&observation, 2).contains("keydown is visible: NO"));
}

#[test]
fn a_paste_before_its_keydown_is_reported_as_after() {
    let observation = Observation {
        ctrl_v: case(
            vec![
                paste(&["text/html", "text/plain"], 5, 5),
                key("keydown", false),
            ],
            "a",
            "a",
        ),
        ..Default::default()
    };
    assert!(text(&observation).contains("the keydown came AFTER the paste event"));
}

#[test]
fn a_constructed_event_that_reaches_a_listener_is_verdict_three_yes() {
    let observation = Observation {
        constructed: Constructed {
            ok: true,
            data_transfer_types: Some(vec!["text/html".into(), "text/plain".into()]),
            event_has_clipboard_data: Some(true),
            event_types: Some(vec!["text/html".into(), "text/plain".into()]),
            not_cancelled: Some(true),
            doc_changed: Some(false),
            reached: vec![paste(&["text/html", "text/plain"], 30, 13)],
            ..Default::default()
        },
        ..Default::default()
    };
    assert!(
        verdict(&observation, 3).contains("reaches a listener: YES"),
        "{}",
        verdict(&observation, 3)
    );
    let all = text(&observation);
    assert!(
        all.contains("1 paste event(s) reached the listener"),
        "{all}"
    );
    assert!(all.contains("what the listener read from it"), "{all}");
}

#[test]
fn a_constructed_event_that_fails_or_does_not_arrive_is_verdict_three_no() {
    let failed = Observation {
        constructed: Constructed {
            error: Some("TypeError: illegal constructor".into()),
            ..Default::default()
        },
        ..Default::default()
    };
    assert!(
        text(&failed)
            .contains("Q3 constructing a ClipboardEvent failed: TypeError: illegal constructor")
    );
    assert!(verdict(&failed, 3).contains("reaches a listener: NO"));

    let lost = Observation {
        constructed: Constructed {
            ok: true,
            event_has_clipboard_data: Some(false),
            ..Default::default()
        },
        ..Default::default()
    };
    assert!(verdict(&lost, 3).contains("reaches a listener: NO"));
    // A constructed event with no text/html is not a "yes" either.
    let plain_only = Observation {
        constructed: Constructed {
            ok: true,
            reached: vec![paste(&["text/plain"], 0, 5)],
            ..Default::default()
        },
        ..Default::default()
    };
    assert!(verdict(&plain_only, 3).contains("reaches a listener: NO"));
}

#[test]
fn verdict_three_says_when_it_was_not_needed() {
    let observation = Observation {
        ctrl_v: both_flavours_case(),
        constructed: Constructed {
            ok: true,
            reached: vec![paste(&["text/html"], 5, 0)],
            ..Default::default()
        },
        ..Default::default()
    };
    assert!(verdict(&observation, 3).ends_with("(not needed: verdict 1 holds)"));
}

#[test]
fn a_helper_that_never_became_ready_is_the_first_line() {
    let observation = Observation {
        helper: Helper {
            ready: false,
            note: "the helper exited with exit status: 1; stderr: ModuleNotFoundError: gi".into(),
        },
        ..Default::default()
    };
    let first = answers(&observation).remove(0);
    assert!(
        first.contains("DID NOT become ready") && first.contains("ModuleNotFoundError: gi"),
        "{first}"
    );
}


#[test]
fn the_answers_are_one_line_per_question_in_order() {
    let observation = Observation { helper: ready(), ctrl_v: both_flavours_case(), ..Default::default() };
    let lines = answers(&observation);
    assert_eq!(lines[0], "clipboard owner: holds the selection with text/html and text/plain");
    assert_eq!(lines[1], "Q1 real Ctrl+V, events seen: keydown Ctrl+v > paste > keyup Ctrl+v");
    assert_eq!(
        lines[2],
        "Q1 the paste event: clipboardData present: YES; types [\"text/html\", \"text/plain\"]; text/html 63 chars (starts \"<h1>Probe\"); text/plain 40 chars (starts \"Probe heading\"); target \"cm-content\"; trusted: YES; the editor text changed, 3 to 9 characters"
    );
    assert_eq!(lines[3], "Q2 real Ctrl+Shift+V, events seen: no events at all");
    assert_eq!(lines[4], "Q2 no paste event reached the page; the editor text could not be read");
    assert_eq!(lines[5], "Q-order Ctrl+V: the keydown came BEFORE the paste event");
    assert_eq!(
        lines[6],
        "Q3 constructed ClipboardEvent: DataTransfer types []; event.clipboardData present: NO with types []; dispatched on the editor, not cancelled: NO; 0 paste event(s) reached the listener; the editor text did not change"
    );
    assert_eq!(lines.len(), 10);
    assert_eq!(lines[9], "VERDICT 3: a constructed paste with text/html reaches a listener: NO (not needed: verdict 1 holds)");
}

#[test]
fn an_input_event_is_named_with_its_input_type() {
    let observation = Observation {
        ctrl_v: case(
            vec![ProbeEvent { kind: "beforeinput".into(), input_type: Some("insertFromPaste".into()), ..Default::default() }],
            "a",
            "a",
        ),
        ..Default::default()
    };
    assert!(text(&observation).contains("events seen: beforeinput insertFromPaste"));
}

#[test]
fn no_configured_helper_is_said_by_name() {
    let helper = helper_not_configured();
    assert!(!helper.ready);
    assert!(helper.note.contains("BEKOEDIT_PASTE_PROBE_CLIPBOARD_OWNER"), "{}", helper.note);
}

#[test]
fn a_helper_that_exits_early_reports_its_status_and_what_it_said() {
    let helper = helper_exited("exit status: 3", "  ModuleNotFoundError: gi\n");
    assert!(!helper.ready);
    assert_eq!(helper.note, "the helper exited with exit status: 3; stderr: ModuleNotFoundError: gi");
    let late = helper_not_ready("10s", "");
    assert_eq!(late.note, "not ready within 10s; stderr: ");
    assert!(helper_not_started("No such file").note.starts_with("could not start python3: "));
    let ready = helper_ready();
    assert!(ready.ready && ready.note.is_empty());
}

#[test]
fn waiting_for_the_owner_ends_at_the_deadline_then_prefers_ready_then_exit() {
    assert_eq!(owner_step(true, true, true), OwnerStep::TimedOut);
    assert_eq!(owner_step(false, true, true), OwnerStep::TimedOut);
    assert_eq!(owner_step(false, false, true), OwnerStep::TimedOut);
    assert_eq!(owner_step(true, true, false), OwnerStep::Ready);
    assert_eq!(owner_step(false, true, false), OwnerStep::Exited);
    assert_eq!(owner_step(false, false, false), OwnerStep::Wait);
}
