use bekoedit::key_spike::KeySpikeTerminal;
use bekoedit::link_clicks::{fresh_toasts, lines_after, log_lines, stale_log_check};
use bekoedit::toast::ToastKind;
use bekoedit::trusted_click::{clicks_for, render_locate_script, TrustedClickPhase};

fn is_balanced(script: &str) -> bool {
    let mut parens = 0i32;
    let mut braces = 0i32;
    for c in script.chars() {
        match c {
            '(' => parens += 1,
            ')' => parens -= 1,
            '{' => braces += 1,
            '}' => braces -= 1,
            _ => {}
        }
        if parens < 0 || braces < 0 {
            return false;
        }
    }
    parens == 0 && braces == 0
}

#[test]
fn render_locate_script_stays_balanced_with_a_real_payload() {
    let payload = r#"{"selector":".tree-row.tree-file","textIncludes":"child.md","index":0,"timeoutMs":5000}"#;
    let script = render_locate_script(payload);
    assert!(is_balanced(&script));
    assert!(script.contains(&format!("const request = {payload};")));
    assert!(script.trim_start().starts_with("return (async () => {"));
}

#[test]
fn each_phase_clicks_its_own_targets() {
    let proof = clicks_for(TrustedClickPhase::ProofOfTrust);
    assert_eq!(proof.len(), 1);
    assert_eq!(proof[0].selector, "#app-menu-trigger");
    let tree = clicks_for(TrustedClickPhase::TreeRowFocus);
    assert_eq!(tree[0].text_includes, Some("child.md"));
    let backlink = clicks_for(TrustedClickPhase::BacklinkFocus);
    assert_eq!(backlink.len(), 3);
    assert_eq!(backlink[1].index, 1);
    assert!(backlink[2].selector.contains("backlink:"));
}

#[test]
fn the_opener_log_is_read_as_lines() {
    assert_eq!(log_lines("https://example.com/x\nmailto:a@b\n"), vec!["https://example.com/x", "mailto:a@b"]);
    assert_eq!(log_lines("a\r\nb"), vec!["a", "b"]);
    assert_eq!(log_lines(""), Vec::<String>::new());
    assert_eq!(log_lines("\n\nx"), vec!["", "", "x"]);
}

#[test]
fn a_click_gains_only_the_lines_after_the_ones_before_it() {
    let lines: Vec<String> = vec!["a".into(), "b".into(), "c".into()];
    assert_eq!(lines_after(&lines, 1), vec!["b", "c"]);
    assert_eq!(lines_after(&lines, 3), Vec::<String>::new());
    assert_eq!(lines_after(&lines, 7), Vec::<String>::new());
}

#[test]
fn a_stale_opener_log_is_refused_naming_what_it_held() {
    assert_eq!(stale_log_check(&Vec::new()), Ok(()));
    assert_eq!(
        stale_log_check(&vec!["x".to_string()]),
        Err("link_clicks_reach_only_the_browser: the opener log already held [\"x\"] before any click; it must start empty".to_string())
    );
}

#[test]
fn each_notice_is_taken_once_by_its_id() {
    let mut seen = vec![1u64];
    let list = vec![
        (1, ToastKind::Info, "old".to_string()),
        (2, ToastKind::Warning, "new".to_string()),
        (2, ToastKind::Warning, "again".to_string()),
        (3, ToastKind::Info, "last".to_string()),
    ];
    let fresh = fresh_toasts(&mut seen, &list);
    assert_eq!(fresh, vec![(ToastKind::Warning, "new".to_string()), (ToastKind::Info, "last".to_string())]);
    assert!(seen.contains(&2) && seen.contains(&3));
    assert!(fresh_toasts(&mut seen, &list).is_empty());
}

#[test]
fn the_key_spike_passes_only_when_marked_passed() {
    let mut terminal = KeySpikeTerminal::default();
    assert!(!terminal.passed());
    terminal.mark(false);
    assert!(!terminal.passed());
    terminal.mark(true);
    assert!(terminal.passed());
}
