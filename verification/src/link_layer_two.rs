//! The final stage of `link_clicks_reach_only_the_browser`, which proves the
//! link guard's **second layer** on its own.
//!
//! In the first five clicks the capture-phase guard (layer 1) catches every
//! click, so the interpreter's own link route being switched off (layer 2)
//! is never exercised. This stage takes layer 1 away, in the page, and
//! clicks again:
//!
//! 1. **The guard is removed.** A click on `rel-file` must then raise **no
//!    notice**, because nothing sends it to Rust any more.
//! 2. **Layer 2 alone.** A second click on `rel-file`: **nothing** may reach
//!    the opener.
//! 3. **The control.** A click on `web`: with the guard gone it must still
//!    reach the stub, **exactly one new line, `https://example.com/x`**.
//!    Without this, step 2 proves nothing: it would also pass if every route
//!    were dead.

use vstd::prelude::*;
use crate::fmt::{debug_list, lines_are, push_debug_list, string_views};
use crate::link_judge::{push_shown, shown_text, ClickObservation, MAIL_URL, NAME, WEB_URL};
use crate::text::push_str;

verus! {

pub const REL_TEXT: &'static str = "rel-file";
pub const CONTROL_TEXT: &'static str = "web";

#[derive(Debug, Default)]
pub struct StageTwo {
    /// Whether the page had a guard listener to remove.
    pub guard_removed: bool,
    /// Step 1: the click on `rel-file` right after the removal.
    pub gone: ClickObservation,
    /// Step 2: the second click on `rel-file`.
    pub isolated: ClickObservation,
    /// Step 3: the click on `web`.
    pub control: ClickObservation,
    /// The stub file, line by line, after all three and a settle window.
    pub final_log: Vec<String>,
}

pub open spec fn stage_text() -> Seq<char> {
    NAME@ + ": stage 2 (layer two in isolation)"@
}

/// The control reached the stub as exactly the web URL, once.
pub open spec fn control_reached(obs: StageTwo) -> bool {
    string_views(obs.control.opener_lines@) == seq![WEB_URL@]
}

/// The whole stub file: stage one's two lines, then the control's.
pub open spec fn log_complete(obs: StageTwo) -> bool {
    string_views(obs.final_log@) == seq![WEB_URL@, MAIL_URL@, WEB_URL@]
}

/// The judgement of stage 2, step by step: the first thing that went wrong
/// is the thing reported; else the four lines of what passed.
pub open spec fn layer_two_spec(obs: StageTwo) -> Result<Seq<Seq<char>>, Seq<char>> {
    if !obs.guard_removed {
        Err(stage_text() + ", step 1: there was no guard listener to remove (`window.__bk_link_guard` is not a function), so the guard never installed and layer 2 cannot be tested alone"@)
    } else if obs.gone.toasts@.len() > 0 {
        Err(stage_text() + ", step 1 (guard removed): a click on \"rel-file\" still raised a notice, so the guard's listener is still active or Rust was reached another way; "@ + shown_text(obs.gone))
    } else if obs.gone.opener_lines@.len() > 0 {
        Err(stage_text() + ", step 1 (guard removed): a click on \"rel-file\" reached the opener; "@ + shown_text(obs.gone))
    } else if obs.isolated.opener_lines@.len() > 0 {
        Err(stage_text() + ", step 2 (layer 2 alone): a click on \"rel-file\" reached the opener with the guard gone. The interpreter's own link route is still on, or something else opens; "@ + shown_text(obs.isolated))
    } else if obs.isolated.toasts@.len() > 0 {
        Err(stage_text() + ", step 2 (layer 2 alone): a click on \"rel-file\" raised a notice with the guard gone; "@ + shown_text(obs.isolated))
    } else if !control_reached(obs) {
        Err(stage_text() + ", step 3 (control): STOP AND REPORT (task 035 §2). A click on \"web\" with the guard gone did not reach the stub as exactly \"https://example.com/x\", so wry's navigation handler is not opening `https:` there as expected, and step 2 above proves nothing (it would also pass if every route were dead); "@ + shown_text(obs.control))
    } else if obs.control.toasts@.len() > 0 {
        Err(stage_text() + ", step 3 (control): a click on \"web\" raised a notice with the guard gone; "@ + shown_text(obs.control))
    } else if !log_complete(obs) {
        Err(stage_text() + ": the stub file must hold exactly [\"https://example.com/x\", \"mailto:someone@example.com\", \"https://example.com/x\"] and nothing else; the whole file was "@ + debug_list(string_views(obs.final_log@)))
    } else {
        Ok(seq![
            "stage 2 step 1: the guard's listener was removed, and a click on \"rel-file\" raised no notice"@,
            "stage 2 step 2: with the guard gone, a click on \"rel-file\" reached no opener and raised no notice (layer 2 alone)"@,
            "stage 2 step 3: with the guard gone, a click on \"web\" still reached the stub as exactly \"https://example.com/x\", through wry's own handler (the control)"@,
            "stage 2: the stub file holds exactly [\"https://example.com/x\", \"mailto:someone@example.com\", \"https://example.com/x\"]"@,
        ])
    }
}

fn stage_message(tail: &str) -> (m: String)
    ensures
        m@ == stage_text() + tail@,
{
    let mut m = String::new();
    push_str(&mut m, NAME);
    push_str(&mut m, ": stage 2 (layer two in isolation)");
    push_str(&mut m, tail);
    assert(m@ =~= stage_text() + tail@);
    m
}

fn stage_message_shown(tail: &str, click: &ClickObservation) -> (m: String)
    ensures
        m@ == stage_text() + tail@ + shown_text(*click),
{
    let mut m = stage_message(tail);
    push_shown(&mut m, click);
    m
}

/// Judges stage 2. Every failure names the stage, the step, the link, and
/// what the stub file and the toast layer showed.
pub fn judge_layer_two(observation: &StageTwo) -> (r: Result<Vec<String>, String>)
    ensures
        match layer_two_spec(*observation) {
            Ok(lines) => r matches Ok(v) && string_views(v@) == lines,
            Err(m) => r matches Err(e) && e@ == m,
        },
{
    if !observation.guard_removed {
        return Err(stage_message(", step 1: there was no guard listener to remove (`window.__bk_link_guard` is not a function), so the guard never installed and layer 2 cannot be tested alone"));
    }
    if observation.gone.toasts.len() > 0 {
        return Err(stage_message_shown(", step 1 (guard removed): a click on \"rel-file\" still raised a notice, so the guard's listener is still active or Rust was reached another way; ", &observation.gone));
    }
    if observation.gone.opener_lines.len() > 0 {
        return Err(stage_message_shown(", step 1 (guard removed): a click on \"rel-file\" reached the opener; ", &observation.gone));
    }
    if observation.isolated.opener_lines.len() > 0 {
        return Err(stage_message_shown(", step 2 (layer 2 alone): a click on \"rel-file\" reached the opener with the guard gone. The interpreter's own link route is still on, or something else opens; ", &observation.isolated));
    }
    if observation.isolated.toasts.len() > 0 {
        return Err(stage_message_shown(", step 2 (layer 2 alone): a click on \"rel-file\" raised a notice with the guard gone; ", &observation.isolated));
    }
    let control_ok = lines_are(&observation.control.opener_lines, &[WEB_URL]);
    assert([WEB_URL]@.map_values(|s: &str| s@) =~= seq![WEB_URL@]);
    if !control_ok {
        return Err(stage_message_shown(", step 3 (control): STOP AND REPORT (task 035 §2). A click on \"web\" with the guard gone did not reach the stub as exactly \"https://example.com/x\", so wry's navigation handler is not opening `https:` there as expected, and step 2 above proves nothing (it would also pass if every route were dead); ", &observation.control));
    }
    if observation.control.toasts.len() > 0 {
        return Err(stage_message_shown(", step 3 (control): a click on \"web\" raised a notice with the guard gone; ", &observation.control));
    }
    let log_ok = lines_are(&observation.final_log, &[WEB_URL, MAIL_URL, WEB_URL]);
    assert([WEB_URL, MAIL_URL, WEB_URL]@.map_values(|s: &str| s@) =~= seq![WEB_URL@, MAIL_URL@, WEB_URL@]);
    if !log_ok {
        let mut m = stage_message(": the stub file must hold exactly [\"https://example.com/x\", \"mailto:someone@example.com\", \"https://example.com/x\"] and nothing else; the whole file was ");
        push_debug_list(&mut m, &observation.final_log);
        return Err(m);
    }
    let mut passed: Vec<String> = Vec::new();
    passed.push("stage 2 step 1: the guard's listener was removed, and a click on \"rel-file\" raised no notice".to_owned());
    passed.push("stage 2 step 2: with the guard gone, a click on \"rel-file\" reached no opener and raised no notice (layer 2 alone)".to_owned());
    passed.push("stage 2 step 3: with the guard gone, a click on \"web\" still reached the stub as exactly \"https://example.com/x\", through wry's own handler (the control)".to_owned());
    passed.push("stage 2: the stub file holds exactly [\"https://example.com/x\", \"mailto:someone@example.com\", \"https://example.com/x\"]".to_owned());
    assert(string_views(passed@) =~= seq![
        "stage 2 step 1: the guard's listener was removed, and a click on \"rel-file\" raised no notice"@,
        "stage 2 step 2: with the guard gone, a click on \"rel-file\" reached no opener and raised no notice (layer 2 alone)"@,
        "stage 2 step 3: with the guard gone, a click on \"web\" still reached the stub as exactly \"https://example.com/x\", through wry's own handler (the control)"@,
        "stage 2: the stub file holds exactly [\"https://example.com/x\", \"mailto:someone@example.com\", \"https://example.com/x\"]"@,
    ]);
    Ok(passed)
}

} // verus!
