use bekoedit::catalog::Catalog;
use bekoedit::link_judge::{
    judge, steps, ClickObservation, Expect, Observation, RenderedLink, DROPPED_TEXT, MAIL_URL,
    NAME, UNEXPECTED_OPENER, WEB_URL,
};
use bekoedit::toast::ToastKind;

fn catalog() -> Catalog {
    Catalog {
        entries: vec![
            ("link.not_followed".to_string(), "Link not followed: it is not a web or mail address".to_string()),
            ("link.network_path".to_string(), "Link not followed: it points at another machine".to_string()),
            ("link.no_target".to_string(), "Link not followed: it has no destination".to_string()),
        ],
    }
}

fn tr(key: &str) -> String {
    catalog().tr(key)
}

fn rendered() -> Vec<RenderedLink> {
    steps()
        .iter()
        .filter(|step| !step.injected)
        .map(|step| RenderedLink { text: step.text.to_string(), href: step.href.to_string() })
        .collect()
}

/// What a correct run observes.
fn good() -> Observation {
    let clicks = steps()
        .iter()
        .map(|step| match step.expect {
            Expect::Opens(url) => ClickObservation {
                opener_lines: vec![url.to_string()],
                ..Default::default()
            },
            Expect::Notice(key) => ClickObservation {
                toasts: vec![(ToastKind::Info, tr(key))],
                ..Default::default()
            },
            Expect::Nothing => ClickObservation::default(),
        })
        .collect();
    Observation {
        rendered: rendered(),
        clicks,
        final_log: vec![WEB_URL.to_string(), MAIL_URL.to_string()],
    }
}

fn index(text: &str) -> usize {
    steps().iter().position(|step| step.text == text).unwrap()
}

fn error_of(observation: &Observation) -> String {
    judge(&catalog(), observation).expect_err("this observation must fail")
}

#[test]
fn a_correct_run_passes_and_says_what_it_saw() {
    let passed = judge(&catalog(), &good()).unwrap();
    assert!(passed.iter().any(|line| line.contains("plain text")));
    for step in steps() {
        assert!(passed.iter().any(|line| line.contains(step.text)), "{} missing from {passed:?}", step.text);
    }
    assert!(passed.last().unwrap().contains("the stub file holds exactly"));
}

#[test]
fn a_correct_run_reports_every_line_in_order() {
    let passed = judge(&catalog(), &good()).unwrap();
    assert_eq!(passed.len(), 7, "{passed:?}");
    assert_eq!(
        passed[0],
        "4 links rendered as anchors; the network-path link \"netpath\" is plain text (task 030)"
    );
    assert_eq!(
        passed[1],
        "\"rel-file\" (other.md): one Info notice \"Link not followed: it is not a web or mail address\" and nothing at the opener"
    );
    assert_eq!(passed[2], "\"frag\" (#top): no notice and nothing at the opener");
    assert_eq!(
        passed[3],
        "\"web\" (https://example.com/x): the opener to get exactly \"https://example.com/x\" and no notice"
    );
    assert_eq!(
        passed[6],
        "the stub file holds exactly [\"https://example.com/x\", \"mailto:someone@example.com\"]"
    );
}

#[test]
fn a_relative_link_that_reaches_the_opener_fails_naming_the_link_and_the_file_url() {
    let mut observation = good();
    observation.clicks[index("rel-file")].opener_lines = vec!["file:///cwd/other.md".into()];
    let error = error_of(&observation);
    assert!(error.contains(NAME) && error.contains("\"rel-file\""), "{error}");
    assert!(error.contains("file:///cwd/other.md"), "{error}");
    assert!(error.contains("something reached an opener"), "{error}");
}

#[test]
fn a_refused_link_with_no_notice_fails_naming_the_link() {
    for text in ["rel-file", "injected-netpath"] {
        let mut observation = good();
        observation.clicks[index(text)].toasts.clear();
        let error = error_of(&observation);
        assert!(error.contains(&format!("{text:?}")), "{error}");
        assert!(error.contains("the notice was not raised exactly once"), "{error}");
        assert!(error.contains("the toast layer showed []"), "{error}");
    }
}

#[test]
fn the_notice_must_be_the_right_one_once_and_an_info() {
    let mut wrong_text = good();
    wrong_text.clicks[index("rel-file")].toasts[0].1 = tr("link.no_target");
    assert!(error_of(&wrong_text).contains("\"rel-file\""));

    let mut wrong_kind = good();
    wrong_kind.clicks[index("injected-netpath")].toasts[0].0 = ToastKind::Warning;
    assert!(error_of(&wrong_kind).contains("\"injected-netpath\""));

    let mut twice = good();
    let toast = twice.clicks[index("rel-file")].toasts[0].clone();
    twice.clicks[index("rel-file")].toasts.push(toast);
    assert!(error_of(&twice).contains("exactly once"));
}

#[test]
fn a_network_path_that_reaches_the_opener_fails() {
    let mut observation = good();
    observation.clicks[index("injected-netpath")].opener_lines = vec!["file:////host/x".into()];
    let error = error_of(&observation);
    assert!(error.contains("\"injected-netpath\""), "{error}");
    assert!(error.contains("file:////host/x"), "{error}");
}

#[test]
fn a_fragment_must_do_nothing_at_all() {
    let mut notice = good();
    notice.clicks[index("frag")].toasts.push((ToastKind::Info, "x".into()));
    let error = error_of(&notice);
    assert!(error.contains("\"frag\"") && error.contains("a notice appeared"), "{error}");

    let mut opener = good();
    opener.clicks[index("frag")].opener_lines = vec!["file:///cwd/#top".into()];
    assert!(error_of(&opener).contains("something reached an opener"));
}

#[test]
fn an_external_link_must_reach_the_opener_exactly_once_with_no_notice() {
    for (text, url) in [("web", WEB_URL), ("mail", MAIL_URL)] {
        let mut missing = good();
        missing.clicks[index(text)].opener_lines.clear();
        let error = error_of(&missing);
        assert!(error.contains(&format!("{text:?}")), "{error}");
        assert!(error.contains("did not receive exactly that URL"), "{error}");

        let mut twice = good();
        twice.clicks[index(text)].opener_lines = vec![url.into(), url.into()];
        assert!(error_of(&twice).contains(&format!("{text:?}")));

        let mut other_url = good();
        other_url.clicks[index(text)].opener_lines = vec!["https://example.com/other".into()];
        assert!(error_of(&other_url).contains(&format!("{text:?}")));

        let mut noticed = good();
        noticed.clicks[index(text)].toasts.push((ToastKind::Warning, "Could not open".into()));
        let error = error_of(&noticed);
        assert!(error.contains("a notice appeared"), "{error}");
        assert!(error.contains("Warning: Could not open"), "{error}");
    }
}

#[test]
fn a_click_failure_is_reported_word_for_word() {
    let mut observation = good();
    observation.clicks[index("frag")].opener_lines = vec!["file:///cwd/#top".into()];
    assert_eq!(
        error_of(&observation),
        "link_clicks_reach_only_the_browser: click on \"frag\" (href \"#top\"): expected no notice and nothing at the opener; something reached an opener; the toast layer showed []; the stub file gained [\"file:///cwd/#top\"]"
    );
}

#[test]
fn a_third_line_in_the_stub_file_fails_naming_that_line() {
    let mut observation = good();
    observation.final_log.push("file:///cwd/other.md".into());
    let error = error_of(&observation);
    assert!(error.contains("line 3 is \"file:///cwd/other.md\""), "{error}");
    assert!(error.contains("the whole file was"), "{error}");
    assert!(error.contains("the toast layer showed"), "{error}");
}

#[test]
fn a_fallback_opener_line_fails_and_says_which() {
    let mut observation = good();
    observation.final_log.insert(0, format!("{UNEXPECTED_OPENER} xdg-open file:///cwd/other.md"));
    let error = error_of(&observation);
    assert!(error.contains("a fallback opener ran"), "{error}");
    assert!(error.contains("xdg-open"), "{error}");
}

#[test]
fn the_stub_file_must_hold_both_urls_in_click_order() {
    let mut short = good();
    short.final_log.pop();
    assert!(error_of(&short).contains("line 2 is missing"));

    let mut empty = good();
    empty.final_log.clear();
    assert!(error_of(&empty).contains("line 1 is missing"));

    let mut swapped = good();
    swapped.final_log.reverse();
    let error = error_of(&swapped);
    assert!(error.contains("line 1 is") && error.contains("expected"), "{error}");
}

#[test]
fn a_log_failure_lists_every_notice_of_every_click() {
    let mut observation = good();
    observation.final_log.clear();
    let error = error_of(&observation);
    assert!(
        error.ends_with(
            "; the toast layer showed [\"Info: Link not followed: it is not a web or mail address\", \"Info: Link not followed: it points at another machine\"]"
        ),
        "{error}"
    );
}

#[test]
fn the_network_path_link_must_render_as_plain_text() {
    let mut observation = good();
    observation.rendered.push(RenderedLink { text: DROPPED_TEXT.into(), href: "//host/x".into() });
    let error = error_of(&observation);
    assert!(error.contains("unexpected link"), "{error}");
    assert!(error.contains(DROPPED_TEXT), "{error}");
}

#[test]
fn every_real_link_must_render_with_its_href() {
    for step in steps().iter().filter(|step| !step.injected) {
        let mut missing = good();
        missing.rendered.retain(|link| link.text != step.text);
        let error = error_of(&missing);
        assert!(error.contains(&format!("{:?}", step.text)), "{error}");
        assert!(error.contains("did not render"), "{error}");

        let mut wrong_href = good();
        for link in &mut wrong_href.rendered {
            if link.text == step.text {
                link.href = "elsewhere.md".into();
            }
        }
        assert!(error_of(&wrong_href).contains("did not render"));
    }
}

#[test]
fn one_observation_per_click_is_required() {
    let mut observation = good();
    observation.clicks.pop();
    assert!(error_of(&observation).contains("click(s) were observed"));
    assert!(error_of(&observation).contains(": 4 click(s) were observed, expected 5"));
}

#[test]
fn the_plan_only_expects_an_open_for_web_and_mail_urls() {
    for step in steps() {
        if let Expect::Opens(url) = step.expect {
            assert!(
                url.starts_with("https://") || url.starts_with("http://") || url.starts_with("mailto:"),
                "{step:?}"
            );
            assert_eq!(url, step.href, "an open is of the link's own href");
        }
    }
    assert_eq!(steps().iter().filter(|step| step.injected).count(), 1, "only the network-path link is injected");
}
