//! `link_clicks_reach_only_the_browser`: what is clicked, what each click
//! must do, and the pure judgement of what was observed.
//!
//! The scenario opens a fixture note in Preview and sends a real click to
//! each link. **Only `http(s):` and `mailto:` may reach an OS opener.** The
//! opener is a stub: `$BROWSER` points at one that appends its argument to a
//! log, and every other opener is shimmed to log `UNEXPECTED-OPENER <name>
//! <args>`. So the log is the whole truth about what reached an opener, and
//! the toast layer is the whole truth about which clicks were refused with a
//! notice. `judge` takes what was observed and names the link, the stub log
//! and the toast layer in every failure.

use vstd::prelude::*;
use crate::catalog::{same_text, starts_with_text, Catalog};
use crate::fmt::{debug_list, debug_text, lines_are, push_debug, push_debug_list, push_decimal, decimal, string_views};
use crate::text::push_str;
use crate::toast::{shown_toasts, toast_lines, ToastKind};

verus! {

pub const NAME: &'static str = "link_clicks_reach_only_the_browser";
pub const WEB_URL: &'static str = "https://example.com/x";
pub const MAIL_URL: &'static str = "mailto:someone@example.com";
/// What each fallback shim writes before its own name.
pub const UNEXPECTED_OPENER: &'static str = "UNEXPECTED-OPENER";

/// The fixture note. `[netpath](//host/x)` is written as Markdown, and the
/// render policy drops it to plain text: it is not a link, so it cannot be
/// clicked. The click policy's answer to a network-path `href` is exercised
/// on an anchor the driver injects.
pub const NOTE: &'static str = "# Links\n\n[rel-file](other.md)\n\n[frag](#top)\n\n[web](https://example.com/x)\n\n[netpath](//host/x)\n\n[mail](mailto:someone@example.com)\n";
pub const NOTE_FILE: &'static str = "note.md";
pub const OTHER_FILE: &'static str = "other.md";
/// The one Markdown link that must render as plain text.
pub const DROPPED_TEXT: &'static str = "netpath";

#[derive(Debug, Clone, Copy, PartialEq, Eq)]
pub enum Expect {
    /// Exactly this URL reaches the opener, and no notice appears.
    Opens(&'static str),
    /// One Info notice with this text key appears, and nothing reaches an
    /// opener.
    Notice(&'static str),
    /// Nothing at all: no notice, no opener.
    Nothing,
}

#[derive(Debug, Clone, Copy)]
pub struct Step {
    /// Also what the locator matches in the anchor's text.
    pub text: &'static str,
    pub href: &'static str,
    /// Not in the rendered note: the driver adds it to the Preview DOM.
    pub injected: bool,
    pub expect: Expect,
}

/// A link the rendered note holds.
#[derive(Debug, Clone, PartialEq, Eq)]
pub struct RenderedLink {
    pub text: String,
    pub href: String,
}

/// What one click was followed by, over the settle window after it.
#[derive(Debug, Clone, Default)]
pub struct ClickObservation {
    pub toasts: Vec<(ToastKind, String)>,
    pub opener_lines: Vec<String>,
}

#[derive(Debug, Default)]
pub struct Observation {
    /// The anchors in the rendered note, before anything was injected.
    pub rendered: Vec<RenderedLink>,
    /// One per step, in order.
    pub clicks: Vec<ClickObservation>,
    /// The stub log, line by line, after every click and a final settle.
    pub final_log: Vec<String>,
}

/// The steps, in click order.
pub open spec fn steps_spec() -> Seq<Step> {
    seq![
        Step { text: "rel-file", href: "other.md", injected: false, expect: Expect::Notice("link.not_followed") },
        Step { text: "frag", href: "#top", injected: false, expect: Expect::Nothing },
        Step { text: "web", href: WEB_URL, injected: false, expect: Expect::Opens(WEB_URL) },
        Step {
            text: "injected-netpath",
            href: "//host/x",
            injected: true,
            expect: Expect::Notice("link.network_path"),
        },
        Step { text: "mail", href: MAIL_URL, injected: false, expect: Expect::Opens(MAIL_URL) },
    ]
}

/// What is clicked, in order, and what each click must do.
pub fn steps() -> (s: [Step; 5])
    ensures
        s@ == steps_spec(),
{
    let s = [
        Step {
            text: "rel-file",
            href: "other.md",
            injected: false,
            expect: Expect::Notice("link.not_followed"),
        },
        Step { text: "frag", href: "#top", injected: false, expect: Expect::Nothing },
        Step { text: "web", href: WEB_URL, injected: false, expect: Expect::Opens(WEB_URL) },
        Step {
            text: "injected-netpath",
            href: "//host/x",
            injected: true,
            expect: Expect::Notice("link.network_path"),
        },
        Step { text: "mail", href: MAIL_URL, injected: false, expect: Expect::Opens(MAIL_URL) },
    ];
    assert(s@ =~= steps_spec());
    s
}

/// What the opener and the toast layer showed after one click.
pub open spec fn shown_text(click: ClickObservation) -> Seq<char> {
    "the toast layer showed "@ + debug_list(toast_lines(click.toasts@)) + "; the stub file gained "@
        + debug_list(string_views(click.opener_lines@))
}

/// Appends what the opener and the toast layer showed after one click.
pub fn push_shown(out: &mut String, click: &ClickObservation)
    ensures
        final(out)@ == old(out)@ + shown_text(*click),
{
    push_str(out, "the toast layer showed ");
    let toasts = shown_toasts(&click.toasts);
    push_debug_list(out, &toasts);
    push_str(out, "; the stub file gained ");
    push_debug_list(out, &click.opener_lines);
    assert(out@ =~= old(out)@ + shown_text(*click));
}


// ---------------------------------------------------------------------------
// The judgement
// ---------------------------------------------------------------------------

/// The steps whose links are in the rendered note, in order.
pub open spec fn real_steps() -> Seq<Step> {
    seq![steps_spec()[0], steps_spec()[1], steps_spec()[2], steps_spec()[4]]
}

/// `link` is the anchor of `step`.
pub open spec fn is_link_of(link: RenderedLink, step: Step) -> bool {
    link.text@ == step.text@ && link.href@ == step.href@
}

/// The note rendered `step`'s link.
pub open spec fn renders(rendered: Seq<RenderedLink>, step: Step) -> bool {
    exists|k: int| 0 <= k < rendered.len() && is_link_of(#[trigger] rendered[k], step)
}

/// `link` is the anchor of one of the real steps.
pub open spec fn is_real_link(link: RenderedLink) -> bool {
    exists|j: int| 0 <= j < 4 && is_link_of(link, #[trigger] real_steps()[j])
}

/// The first real step from index `i` on whose link did not render, or 4.
pub open spec fn first_unrendered(rendered: Seq<RenderedLink>, i: int) -> int
    decreases 4 - i,
{
    if i >= 4 {
        4
    } else if !renders(rendered, real_steps()[i]) {
        i
    } else {
        first_unrendered(rendered, i + 1)
    }
}

/// The first rendered link from index `k` on that is no real step's.
pub open spec fn first_unexpected(rendered: Seq<RenderedLink>, k: int) -> int
    decreases rendered.len() - k,
{
    if k >= rendered.len() {
        rendered.len() as int
    } else if !is_real_link(rendered[k]) {
        k
    } else {
        first_unexpected(rendered, k + 1)
    }
}

/// What went wrong with one click.
#[derive(Debug, Clone, Copy, PartialEq, Eq, Structural)]
pub enum ClickProblem {
    WrongOpen,
    NoticeAppeared,
    ReachedOpener,
    NoticeNotOnce,
}

/// What, if anything, went wrong with the click on `step`.
pub open spec fn click_problem(step: Step, click: ClickObservation, catalog: Catalog) -> Option<
    ClickProblem,
> {
    match step.expect {
        Expect::Opens(url) => if string_views(click.opener_lines@) != seq![url@] {
            Some(ClickProblem::WrongOpen)
        } else if click.toasts@.len() > 0 {
            Some(ClickProblem::NoticeAppeared)
        } else {
            None
        },
        Expect::Notice(key) => if click.opener_lines@.len() > 0 {
            Some(ClickProblem::ReachedOpener)
        } else if !(click.toasts@.len() == 1 && click.toasts@[0].0 == ToastKind::Info
            && click.toasts@[0].1@ == catalog.text(key@)) {
            Some(ClickProblem::NoticeNotOnce)
        } else {
            None
        },
        Expect::Nothing => if click.opener_lines@.len() > 0 {
            Some(ClickProblem::ReachedOpener)
        } else if click.toasts@.len() > 0 {
            Some(ClickProblem::NoticeAppeared)
        } else {
            None
        },
    }
}

pub open spec fn problem_text(problem: ClickProblem) -> Seq<char> {
    match problem {
        ClickProblem::WrongOpen => "the opener did not receive exactly that URL"@,
        ClickProblem::NoticeAppeared => "a notice appeared"@,
        ClickProblem::ReachedOpener => "something reached an opener"@,
        ClickProblem::NoticeNotOnce => "the notice was not raised exactly once"@,
    }
}

/// The first click from index `i` on that went wrong, or 5.
pub open spec fn first_bad_click(clicks: Seq<ClickObservation>, catalog: Catalog, i: int) -> int
    decreases 5 - i,
{
    if i >= 5 {
        5
    } else if click_problem(steps_spec()[i], clicks[i], catalog) is Some {
        i
    } else {
        first_bad_click(clicks, catalog, i + 1)
    }
}

/// What a step expects, in words.
pub open spec fn describe(expect: Expect, catalog: Catalog) -> Seq<char> {
    match expect {
        Expect::Opens(url) => "the opener to get exactly "@ + debug_text(url@) + " and no notice"@,
        Expect::Notice(key) => "one Info notice "@ + debug_text(catalog.text(key@))
            + " and nothing at the opener"@,
        Expect::Nothing => "no notice and nothing at the opener"@,
    }
}

/// A rendered link as `Debug` prints it.
pub open spec fn link_debug(link: RenderedLink) -> Seq<char> {
    "RenderedLink { text: "@ + debug_text(link.text@) + ", href: "@ + debug_text(link.href@) + " }"@
}

/// The rendered links as `Debug` prints them.
pub open spec fn links_debug(rendered: Seq<RenderedLink>) -> Seq<char> {
    "["@ + crate::fmt::join_with(rendered.map_values(|l: RenderedLink| link_debug(l)), ", "@) + "]"@
}

/// Every shown notice of every click, in click order.
pub open spec fn all_toast_lines(clicks: Seq<ClickObservation>) -> Seq<Seq<char>>
    decreases clicks.len(),
{
    if clicks.len() == 0 {
        Seq::empty()
    } else {
        all_toast_lines(clicks.drop_last()) + toast_lines(clicks.last().toasts@)
    }
}

/// The first log line from index `i` on that a fallback opener wrote.
pub open spec fn first_fallback(log: Seq<Seq<char>>, i: int) -> int
    decreases log.len() - i,
{
    if i >= log.len() {
        log.len() as int
    } else if UNEXPECTED_OPENER@.len() <= log[i].len() && log[i].take(
        UNEXPECTED_OPENER@.len() as int,
    ) == UNEXPECTED_OPENER@ {
        i
    } else {
        first_fallback(log, i + 1)
    }
}

/// What is wrong with the whole stub log, if anything.
pub open spec fn log_problem(log: Seq<Seq<char>>) -> Option<Seq<char>> {
    let wanted = seq![WEB_URL@, MAIL_URL@];
    if first_fallback(log, 0) < log.len() {
        Some("a fallback opener ran: "@ + debug_text(log[first_fallback(log, 0)]))
    } else if log.len() > 2 {
        Some("line 3 is "@ + debug_text(log[2]))
    } else if log.len() == 0 {
        Some("line 1 is missing, expected "@ + debug_text(WEB_URL@))
    } else if log[0] != WEB_URL@ {
        Some("line 1 is "@ + debug_text(log[0]) + ", expected "@ + debug_text(WEB_URL@))
    } else if log.len() == 1 {
        Some("line 2 is missing, expected "@ + debug_text(MAIL_URL@))
    } else if log[1] != MAIL_URL@ {
        Some("line 2 is "@ + debug_text(log[1]) + ", expected "@ + debug_text(MAIL_URL@))
    } else {
        None
    }
}

/// The line reporting that a click did what its step expects.
pub open spec fn step_line(step: Step, catalog: Catalog) -> Seq<char> {
    debug_text(step.text@) + " ("@ + step.href@ + "): "@ + describe(step.expect, catalog)
}

pub open spec fn wanted_text() -> Seq<char> {
    "[\"https://example.com/x\", \"mailto:someone@example.com\"]"@
}

/// The judgement of the scenario: the first rule broken, with everything
/// the stub log and the toast layer showed; else a line per rule passed.
pub open spec fn judge_spec(catalog: Catalog, obs: Observation) -> Result<Seq<Seq<char>>, Seq<char>> {
    let rendered = obs.rendered@;
    let clicks = obs.clicks@;
    let log = string_views(obs.final_log@);
    let missing = first_unrendered(rendered, 0);
    let extra = first_unexpected(rendered, 0);
    if missing < 4 {
        let step = real_steps()[missing];
        Err(NAME@ + ": the note did not render "@ + debug_text(step.text@) + " as a link to "@
            + debug_text(step.href@) + "; rendered links: "@ + links_debug(rendered))
    } else if extra < rendered.len() {
        Err(NAME@ + ": the note rendered an unexpected link "@ + link_debug(rendered[extra])
            + "; \"netpath\" (`//host/x`) must be plain text, and only the 4 real links may be anchors"@)
    } else if clicks.len() != 5 {
        Err(NAME@ + ": "@ + decimal(clicks.len()) + " click(s) were observed, expected 5"@)
    } else if first_bad_click(clicks, catalog, 0) < 5 {
        let i = first_bad_click(clicks, catalog, 0);
        let step = steps_spec()[i];
        Err(NAME@ + ": click on "@ + debug_text(step.text@) + " (href "@ + debug_text(step.href@)
            + "): expected "@ + describe(step.expect, catalog) + "; "@ + problem_text(
            click_problem(step, clicks[i], catalog)->0,
        ) + "; "@ + shown_text(clicks[i]))
    } else if log_problem(log) is Some {
        Err(NAME@ + ": the stub file must hold exactly "@ + wanted_text() + " and nothing else: "@
            + log_problem(log)->0 + "; the whole file was "@ + debug_list(log)
            + "; the toast layer showed "@ + debug_list(all_toast_lines(clicks)))
    } else {
        Ok(
            seq!["4 links rendered as anchors; the network-path link \"netpath\" is plain text (task 030)"@]
                + Seq::new(5, |i: int| step_line(steps_spec()[i], catalog)) + seq![
                "the stub file holds exactly "@ + wanted_text(),
            ],
        )
    }
}

// ---------------------------------------------------------------------------
// Computing the judgement
// ---------------------------------------------------------------------------

/// The real step at `i`, `0 <= i < 4`.
fn real_step(i: usize) -> (step: Step)
    requires
        i < 4,
    ensures
        step == real_steps()[i as int],
{
    let s = steps();
    if i < 3 {
        s[i]
    } else {
        s[4]
    }
}

fn link_is(link: &RenderedLink, step: &Step) -> (b: bool)
    ensures
        b == is_link_of(*link, *step),
{
    same_text(link.text.as_str(), step.text) && same_text(link.href.as_str(), step.href)
}

fn rendered_has(rendered: &Vec<RenderedLink>, step: &Step) -> (b: bool)
    ensures
        b == renders(rendered@, *step),
{
    let mut k: usize = 0;
    while k < rendered.len()
        invariant
            k <= rendered@.len(),
            forall|j: int| 0 <= j < k ==> !is_link_of(#[trigger] rendered@[j], *step),
        decreases rendered.len() - k,
    {
        if link_is(&rendered[k], step) {
            assert(is_link_of(rendered@[k as int], *step));
            return true;
        }
        k = k + 1;
    }
    false
}

fn is_real(link: &RenderedLink) -> (b: bool)
    ensures
        b == is_real_link(*link),
{
    let mut j: usize = 0;
    while j < 4
        invariant
            j <= 4,
            forall|i: int| 0 <= i < j ==> !is_link_of(*link, #[trigger] real_steps()[i]),
        decreases 4 - j,
    {
        let step = real_step(j);
        if link_is(link, &step) {
            assert(is_link_of(*link, real_steps()[j as int]));
            return true;
        }
        j = j + 1;
    }
    false
}

fn find_unrendered(rendered: &Vec<RenderedLink>) -> (i: usize)
    ensures
        i == first_unrendered(rendered@, 0),
{
    let mut i: usize = 0;
    while i < 4
        invariant
            i <= 4,
            first_unrendered(rendered@, 0) == first_unrendered(rendered@, i as int),
        decreases 4 - i,
    {
        let step = real_step(i);
        if !rendered_has(rendered, &step) {
            return i;
        }
        i = i + 1;
    }
    4
}

fn find_unexpected(rendered: &Vec<RenderedLink>) -> (k: usize)
    ensures
        k == first_unexpected(rendered@, 0),
{
    let mut k: usize = 0;
    while k < rendered.len()
        invariant
            k <= rendered@.len(),
            first_unexpected(rendered@, 0) == first_unexpected(rendered@, k as int),
        decreases rendered.len() - k,
    {
        if !is_real(&rendered[k]) {
            return k;
        }
        k = k + 1;
    }
    k
}

fn check_click(step: &Step, click: &ClickObservation, catalog: &Catalog) -> (p: Option<
    ClickProblem,
>)
    ensures
        p == click_problem(*step, *click, *catalog),
{
    match step.expect {
        Expect::Opens(url) => {
            let exact = lines_are(&click.opener_lines, &[url]);
            assert([url]@.map_values(|s: &str| s@) =~= seq![url@]);
            if !exact {
                Some(ClickProblem::WrongOpen)
            } else if click.toasts.len() > 0 {
                Some(ClickProblem::NoticeAppeared)
            } else {
                None
            }
        },
        Expect::Notice(key) => {
            if click.opener_lines.len() > 0 {
                Some(ClickProblem::ReachedOpener)
            } else {
                let want = catalog.tr(key);
                let once = click.toasts.len() == 1 && click.toasts[0].0 == ToastKind::Info
                    && same_text(click.toasts[0].1.as_str(), want.as_str());
                if !once {
                    Some(ClickProblem::NoticeNotOnce)
                } else {
                    None
                }
            }
        },
        Expect::Nothing => {
            if click.opener_lines.len() > 0 {
                Some(ClickProblem::ReachedOpener)
            } else if click.toasts.len() > 0 {
                Some(ClickProblem::NoticeAppeared)
            } else {
                None
            }
        },
    }
}

proof fn lemma_first_bad_click(clicks: Seq<ClickObservation>, catalog: Catalog, i: int)
    requires
        0 <= i <= 5,
    ensures
        i <= first_bad_click(clicks, catalog, i) <= 5,
        first_bad_click(clicks, catalog, i) < 5 ==> click_problem(
            steps_spec()[first_bad_click(clicks, catalog, i)],
            clicks[first_bad_click(clicks, catalog, i)],
            catalog,
        ) is Some,
    decreases 5 - i,
{
    if i < 5 && click_problem(steps_spec()[i], clicks[i], catalog) is None {
        lemma_first_bad_click(clicks, catalog, i + 1);
    }
}

fn find_bad_click(clicks: &Vec<ClickObservation>, catalog: &Catalog) -> (i: usize)
    requires
        clicks@.len() == 5,
    ensures
        i == first_bad_click(clicks@, *catalog, 0),
{
    let s = steps();
    let mut i: usize = 0;
    while i < 5
        invariant
            i <= 5,
            clicks@.len() == 5,
            s@ == steps_spec(),
            first_bad_click(clicks@, *catalog, 0) == first_bad_click(clicks@, *catalog, i as int),
        decreases 5 - i,
    {
        let p = check_click(&s[i], &clicks[i], catalog);
        if p.is_some() {
            return i;
        }
        i = i + 1;
    }
    5
}

fn push_describe(out: &mut String, expect: Expect, catalog: &Catalog)
    ensures
        final(out)@ == old(out)@ + describe(expect, *catalog),
{
    match expect {
        Expect::Opens(url) => {
            push_str(out, "the opener to get exactly ");
            push_debug(out, url);
            push_str(out, " and no notice");
        },
        Expect::Notice(key) => {
            push_str(out, "one Info notice ");
            let t = catalog.tr(key);
            push_debug(out, t.as_str());
            push_str(out, " and nothing at the opener");
        },
        Expect::Nothing => push_str(out, "no notice and nothing at the opener"),
    }
    assert(out@ =~= old(out)@ + describe(expect, *catalog));
}

fn push_link_debug(out: &mut String, link: &RenderedLink)
    ensures
        final(out)@ == old(out)@ + link_debug(*link),
{
    push_str(out, "RenderedLink { text: ");
    push_debug(out, link.text.as_str());
    push_str(out, ", href: ");
    push_debug(out, link.href.as_str());
    push_str(out, " }");
    assert(out@ =~= old(out)@ + link_debug(*link));
}

fn push_links_debug(out: &mut String, rendered: &Vec<RenderedLink>)
    ensures
        final(out)@ == old(out)@ + links_debug(rendered@),
{
    push_str(out, "[");
    let ghost start = out@;
    let ghost q = rendered@.map_values(|l: RenderedLink| link_debug(l));
    assert(q.take(0) =~= Seq::<Seq<char>>::empty());
    assert(start =~= start + crate::fmt::join_with(q.take(0), ", "@));
    let mut i: usize = 0;
    while i < rendered.len()
        invariant
            i <= rendered@.len(),
            q == rendered@.map_values(|l: RenderedLink| link_debug(l)),
            out@ == start + crate::fmt::join_with(q.take(i as int), ", "@),
        decreases rendered.len() - i,
    {
        if i > 0 {
            push_str(out, ", ");
        }
        push_link_debug(out, &rendered[i]);
        proof {
            let t = q.take(i + 1);
            assert(t.drop_last() =~= q.take(i as int));
            assert(t.last() == link_debug(rendered@[i as int]));
            assert(out@ =~= start + crate::fmt::join_with(t, ", "@));
        }
        i = i + 1;
    }
    assert(q.take(rendered@.len() as int) =~= q);
    push_str(out, "]");
    assert(out@ =~= old(out)@ + links_debug(rendered@));
}

fn problem_message(p: ClickProblem) -> (m: &'static str)
    ensures
        m@ == problem_text(p),
{
    match p {
        ClickProblem::WrongOpen => "the opener did not receive exactly that URL",
        ClickProblem::NoticeAppeared => "a notice appeared",
        ClickProblem::ReachedOpener => "something reached an opener",
        ClickProblem::NoticeNotOnce => "the notice was not raised exactly once",
    }
}

/// Every shown notice of every click, in click order.
fn all_toasts(clicks: &Vec<ClickObservation>) -> (lines: Vec<String>)
    ensures
        string_views(lines@) == all_toast_lines(clicks@),
{
    let mut lines: Vec<String> = Vec::new();
    let mut i: usize = 0;
    assert(clicks@.take(0) =~= Seq::<ClickObservation>::empty());
    while i < clicks.len()
        invariant
            i <= clicks@.len(),
            string_views(lines@) == all_toast_lines(clicks@.take(i as int)),
        decreases clicks.len() - i,
    {
        let shown = shown_toasts(&clicks[i].toasts);
        let ghost before = lines@;
        let mut j: usize = 0;
        while j < shown.len()
            invariant
                j <= shown@.len(),
                lines@ == before + shown@.take(j as int),
            decreases shown.len() - j,
        {
            lines.push(shown[j].clone());
            assert(shown@.take(j + 1) =~= shown@.take(j as int).push(shown@[j as int]));
            j = j + 1;
        }
        proof {
            let t = clicks@.take(i + 1);
            assert(t.drop_last() =~= clicks@.take(i as int));
            assert(shown@.take(shown@.len() as int) =~= shown@);
            assert(string_views(lines@) =~= string_views(before) + string_views(shown@));
        }
        i = i + 1;
    }
    assert(clicks@.take(clicks@.len() as int) =~= clicks@);
    lines
}

fn check_log(log: &Vec<String>) -> (p: Option<String>)
    ensures
        match log_problem(string_views(log@)) {
            Some(t) => p matches Some(m) && m@ == t,
            None => p is None,
        },
{
    let ghost lv = string_views(log@);
    let mut i: usize = 0;
    while i < log.len()
        invariant
            i <= log@.len(),
            lv == string_views(log@),
            first_fallback(lv, 0) == first_fallback(lv, i as int),
        decreases log.len() - i,
    {
        if starts_with_text(log[i].as_str(), UNEXPECTED_OPENER) {
            let mut m = String::new();
            push_str(&mut m, "a fallback opener ran: ");
            push_debug(&mut m, log[i].as_str());
            assert(m@ =~= "a fallback opener ran: "@ + debug_text(lv[i as int]));
            return Some(m);
        }
        i = i + 1;
    }
    let mut m = String::new();
    if log.len() > 2 {
        push_str(&mut m, "line 3 is ");
        push_debug(&mut m, log[2].as_str());
        assert(m@ =~= "line 3 is "@ + debug_text(lv[2]));
        return Some(m);
    }
    if log.len() == 0 {
        push_str(&mut m, "line 1 is missing, expected ");
        push_debug(&mut m, WEB_URL);
        assert(m@ =~= "line 1 is missing, expected "@ + debug_text(WEB_URL@));
        return Some(m);
    }
    if !same_text(log[0].as_str(), WEB_URL) {
        push_str(&mut m, "line 1 is ");
        push_debug(&mut m, log[0].as_str());
        push_str(&mut m, ", expected ");
        push_debug(&mut m, WEB_URL);
        assert(m@ =~= "line 1 is "@ + debug_text(lv[0]) + ", expected "@ + debug_text(WEB_URL@));
        return Some(m);
    }
    if log.len() == 1 {
        push_str(&mut m, "line 2 is missing, expected ");
        push_debug(&mut m, MAIL_URL);
        assert(m@ =~= "line 2 is missing, expected "@ + debug_text(MAIL_URL@));
        return Some(m);
    }
    if !same_text(log[1].as_str(), MAIL_URL) {
        push_str(&mut m, "line 2 is ");
        push_debug(&mut m, log[1].as_str());
        push_str(&mut m, ", expected ");
        push_debug(&mut m, MAIL_URL);
        assert(m@ =~= "line 2 is "@ + debug_text(lv[1]) + ", expected "@ + debug_text(MAIL_URL@));
        return Some(m);
    }
    None
}

fn step_line_text(step: &Step, catalog: &Catalog) -> (line: String)
    ensures
        line@ == step_line(*step, *catalog),
{
    let mut line = String::new();
    push_debug(&mut line, step.text);
    push_str(&mut line, " (");
    push_str(&mut line, step.href);
    push_str(&mut line, "): ");
    push_describe(&mut line, step.expect, catalog);
    assert(line@ =~= step_line(*step, *catalog));
    line
}

/// The lines of a passed judgement.
fn passed_lines(catalog: &Catalog) -> (lines: Vec<String>)
    ensures
        string_views(lines@) == seq![
            "4 links rendered as anchors; the network-path link \"netpath\" is plain text (task 030)"@,
        ] + Seq::new(5, |i: int| step_line(steps_spec()[i], *catalog)) + seq![
            "the stub file holds exactly "@ + wanted_text(),
        ],
{
    let ghost first = "4 links rendered as anchors; the network-path link \"netpath\" is plain text (task 030)"@;
    let mut lines: Vec<String> = Vec::new();
    lines.push("4 links rendered as anchors; the network-path link \"netpath\" is plain text (task 030)".to_owned());
    let s = steps();
    let mut i: usize = 0;
    assert(string_views(lines@) =~= seq![first] + Seq::new(0, |j: int| step_line(steps_spec()[j], *catalog)));
    while i < 5
        invariant
            i <= 5,
            s@ == steps_spec(),
            string_views(lines@) == seq![first] + Seq::new(i as nat, |j: int| step_line(steps_spec()[j], *catalog)),
        decreases 5 - i,
    {
        let line = step_line_text(&s[i], catalog);
        let ghost before = lines@;
        lines.push(line);
        assert(string_views(lines@) =~= string_views(before).push(step_line(steps_spec()[i as int], *catalog)));
        assert(string_views(lines@) =~= seq![first] + Seq::new((i + 1) as nat, |j: int| step_line(steps_spec()[j], *catalog)));
        i = i + 1;
    }
    let mut last = String::new();
    push_str(&mut last, "the stub file holds exactly ");
    push_str(&mut last, "[\"https://example.com/x\", \"mailto:someone@example.com\"]");
    lines.push(last);
    assert(string_views(lines@) =~= seq![first] + Seq::new(5, |i: int| step_line(steps_spec()[i], *catalog)) + seq![
        "the stub file holds exactly "@ + wanted_text(),
    ]);
    lines
}

/// Judges an observation of the scenario. Every failure names the link and
/// what the stub log and the toast layer showed; a pass lists each rule
/// that held.
pub fn judge(catalog: &Catalog, observation: &Observation) -> (r: Result<Vec<String>, String>)
    ensures
        match judge_spec(*catalog, *observation) {
            Ok(lines) => r matches Ok(v) && string_views(v@) == lines,
            Err(m) => r matches Err(e) && e@ == m,
        },
{
    let ghost rendered = observation.rendered@;
    let ghost clicks = observation.clicks@;
    let mut m = String::new();
    push_str(&mut m, NAME);
    let missing = find_unrendered(&observation.rendered);
    if missing < 4 {
        let step = real_step(missing);
        push_str(&mut m, ": the note did not render ");
        push_debug(&mut m, step.text);
        push_str(&mut m, " as a link to ");
        push_debug(&mut m, step.href);
        push_str(&mut m, "; rendered links: ");
        push_links_debug(&mut m, &observation.rendered);
        assert(m@ =~= NAME@ + ": the note did not render "@ + debug_text(step.text@) + " as a link to "@
            + debug_text(step.href@) + "; rendered links: "@ + links_debug(rendered));
        return Err(m);
    }
    let extra = find_unexpected(&observation.rendered);
    if extra < observation.rendered.len() {
        push_str(&mut m, ": the note rendered an unexpected link ");
        push_link_debug(&mut m, &observation.rendered[extra]);
        push_str(&mut m, "; \"netpath\" (`//host/x`) must be plain text, and only the 4 real links may be anchors");
        assert(m@ =~= NAME@ + ": the note rendered an unexpected link "@ + link_debug(rendered[extra as int])
            + "; \"netpath\" (`//host/x`) must be plain text, and only the 4 real links may be anchors"@);
        return Err(m);
    }
    if observation.clicks.len() != 5 {
        push_str(&mut m, ": ");
        push_decimal(&mut m, observation.clicks.len() as u64);
        push_str(&mut m, " click(s) were observed, expected 5");
        assert(m@ =~= NAME@ + ": "@ + decimal(clicks.len()) + " click(s) were observed, expected 5"@);
        return Err(m);
    }
    let bad = find_bad_click(&observation.clicks, catalog);
    if bad < 5 {
        let s = steps();
        let step = s[bad];
        let click = &observation.clicks[bad];
        proof {
            lemma_first_bad_click(clicks, *catalog, 0);
            assert(step == steps_spec()[bad as int]);
        }
        let p = check_click(&step, click, catalog);
        let problem = match p {
            Some(q) => q,
            None => ClickProblem::WrongOpen,
        };
        push_str(&mut m, ": click on ");
        push_debug(&mut m, step.text);
        push_str(&mut m, " (href ");
        push_debug(&mut m, step.href);
        push_str(&mut m, "): expected ");
        push_describe(&mut m, step.expect, catalog);
        push_str(&mut m, "; ");
        push_str(&mut m, problem_message(problem));
        push_str(&mut m, "; ");
        push_shown(&mut m, click);
        assert(m@ =~= NAME@ + ": click on "@ + debug_text(step.text@) + " (href "@ + debug_text(step.href@)
            + "): expected "@ + describe(step.expect, *catalog) + "; "@ + problem_text(
            click_problem(step, clicks[bad as int], *catalog)->0,
        ) + "; "@ + shown_text(clicks[bad as int]));
        return Err(m);
    }
    let log_check = check_log(&observation.final_log);
    match log_check {
        Some(problem) => {
            push_str(&mut m, ": the stub file must hold exactly ");
            push_str(&mut m, "[\"https://example.com/x\", \"mailto:someone@example.com\"]");
            push_str(&mut m, " and nothing else: ");
            push_str(&mut m, problem.as_str());
            push_str(&mut m, "; the whole file was ");
            push_debug_list(&mut m, &observation.final_log);
            push_str(&mut m, "; the toast layer showed ");
            let shown = all_toasts(&observation.clicks);
            push_debug_list(&mut m, &shown);
            let ghost log = string_views(observation.final_log@);
            assert(m@ =~= NAME@ + ": the stub file must hold exactly "@ + wanted_text() + " and nothing else: "@
                + log_problem(log)->0 + "; the whole file was "@ + debug_list(log)
                + "; the toast layer showed "@ + debug_list(all_toast_lines(clicks)));
            Err(m)
        },
        None => Ok(passed_lines(catalog)),
    }
}

} // verus!
