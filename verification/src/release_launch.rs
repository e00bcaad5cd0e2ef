//! The three launch-time scenarios: the app is observed from its first
//! render, and what was seen is judged here. Every failure names the
//! scenario, the check and what was seen.

use vstd::prelude::*;
use crate::catalog::{same_text, Catalog};
use crate::fmt::{debug_list, debug_text, decimal, push_debug, push_debug_list, push_decimal, string_views};
use crate::release::{path_matches, paths_equal, same_dir, same_folder, scenario_name, Expectation, Folder, ReleaseScenario};
use crate::text::push_str;
use crate::toast::ToastKind;
use crate::toast_log::{note_new, toast_list, toast_texts, toast_texts_in_order};
use std::collections::BTreeMap;

verus! {

/// What is on screen: whether the Start Screen is rendered, and how many
/// workspace-tree rows there are.
#[derive(Debug, Clone, Copy, Default)]
pub struct DomSnapshot {
    pub start_screen: bool,
    pub tree_rows: usize,
}

/// Everything seen while a launch scenario ran.
#[derive(Debug, Default)]
pub struct Observation {
    /// How many times the Start Screen mounted, as the app counted.
    pub start_screen_mounts: usize,
    /// The last DOM snapshot, if one was read.
    pub dom: Option<DomSnapshot>,
    /// The last error reading the DOM, if any.
    pub dom_error: Option<String>,
    /// Each workspace that was open at some sample, in the order first seen.
    pub workspaces: Vec<Folder>,
    /// Whether a document was ever open.
    pub session_seen: bool,
    /// Every notice seen, by its id, in ascending id order, each id once.
    pub toasts: BTreeMap<u64, (ToastKind, String)>,
}


/// A scenario judged here.
pub open spec fn is_launch_scenario(s: ReleaseScenario) -> bool {
    s is ReopenUsable || s is ReopenMissing || s is ReopenDisabled
}

/// The snapshot, or an empty one if none was read.
pub open spec fn dom_or_default(obs: Observation) -> DomSnapshot {
    match obs.dom {
        Some(d) => d,
        None => DomSnapshot { start_screen: false, tree_rows: 0 },
    }
}


pub open spec fn bool_text(b: bool) -> Seq<char> {
    if b {
        "true"@
    } else {
        "false"@
    }
}

/// The paths of the seen workspaces.
pub open spec fn folder_paths(folders: Seq<Folder>) -> Seq<Seq<char>> {
    folders.map_values(|f: Folder| f.path@)
}

/// The last seen workspace as `Debug` prints an optional path.
pub open spec fn last_folder_text(folders: Seq<Folder>) -> Seq<char> {
    if folders.len() == 0 {
        "None"@
    } else {
        "Some("@ + debug_text(folders.last().path@) + ")"@
    }
}

/// A failure of `check`, naming the scenario and what was seen.
pub open spec fn failure(s: ReleaseScenario, check: Seq<char>, saw: Seq<char>) -> Seq<char> {
    scenario_name(s) + ": "@ + check + ": "@ + saw
}

/// Whether the older recent entry is among the opened workspaces.
pub open spec fn older_opened(expectation: Expectation, folders: Seq<Folder>) -> bool {
    match expectation.older_workspace {
        Some(older) => exists|k: int| 0 <= k < folders.len() && same_folder(#[trigger] folders[k], older),
        None => false,
    }
}

/// The notice a missing recent workspace must raise.
pub open spec fn reopen_failed_text(catalog: Catalog, expectation: Expectation) -> Seq<char> {
    catalog.text("workspace.reopen_failed"@) + ": "@ + expectation.display_name@
}

pub open spec fn dom_error_text(e: Option<String>) -> Seq<char> {
    match e {
        Some(m) => ", last DOM error: "@ + m@,
        None => Seq::empty(),
    }
}

/// The judgement of a launch scenario.
pub open spec fn launch_spec(
    s: ReleaseScenario,
    expectation: Expectation,
    catalog: Catalog,
    obs: Observation,
) -> Result<Seq<Seq<char>>, Seq<char>> {
    let dom = dom_or_default(obs);
    let texts = toast_texts(toast_list(obs.toasts@));
    let folders = obs.workspaces@;
    if s is ReopenUsable {
        if obs.start_screen_mounts != 0 {
            Err(failure(s, "the Start Screen never mounted"@, "the Start Screen mounted "@ + decimal(
                obs.start_screen_mounts as nat,
            ) + " time(s); RFC-043 decides the workspace before the first render"@))
        } else if !(folders.len() > 0 && same_folder(folders.last(), expectation.workspace)) {
            Err(failure(s, "the recent workspace was opened"@, "open workspace is "@ + last_folder_text(folders)
                + ", expected "@ + debug_text(expectation.workspace.path@)))
        } else if dom.tree_rows < 2 {
            Err(failure(s, "the workspace tree is shown"@, decimal(dom.tree_rows as nat)
                + " tree row(s), start screen in DOM: "@ + bool_text(dom.start_screen)))
        } else if texts.len() > 0 {
            Err(failure(s, "no reopen toast"@, "saw "@ + debug_list(texts)))
        } else {
            Ok(seq![
                "the Start Screen never mounted"@,
                "the workspace tree is shown ("@ + decimal(dom.tree_rows as nat) + " rows)"@,
                "no toast appeared"@,
            ])
        }
    } else if folders.len() > 0 || obs.session_seen {
        Err(failure(s, "no workspace opened"@, "a workspace opened: "@ + debug_list(folder_paths(folders))
            + (if older_opened(expectation, folders) { " (the older recent entry)"@ } else { Seq::empty() })
            + ", document open: "@ + bool_text(obs.session_seen)))
    } else if !dom.start_screen || obs.start_screen_mounts == 0 {
        Err(failure(s, "the Start Screen is shown"@, "start screen in DOM: "@ + bool_text(dom.start_screen)
            + ", mounts: "@ + decimal(obs.start_screen_mounts as nat) + ", "@ + decimal(dom.tree_rows as nat)
            + " tree row(s)"@ + dom_error_text(obs.dom_error)))
    } else if s is ReopenDisabled {
        if texts.len() > 0 {
            Err(failure(s, "no reopen toast"@, "saw "@ + debug_list(texts)))
        } else {
            Ok(seq!["no workspace opened"@, "the Start Screen is shown"@, "no toast appeared"@])
        }
    } else {
        let expected = reopen_failed_text(catalog, expectation);
        if texts == seq!["Warning: "@ + expected] {
            Ok(seq![
                "no workspace opened"@,
                "the Start Screen is shown"@,
                "exactly one Warning toast: "@ + expected,
            ])
        } else {
            Err(failure(s, "exactly one Warning toast naming the workspace"@, "expected Warning: "@
                + expected + ", saw "@ + debug_list(texts)))
        }
    }
}

/// Whether a workspace with the same path components as `path` was seen.
pub open spec fn known_path(folders: Seq<Folder>, path: Seq<char>) -> bool {
    exists|k: int| 0 <= k < folders.len() && path_matches(#[trigger] folders[k].path@, path)
}

/// Whether the scenario's own success condition is on screen yet.
pub open spec fn looks_ready_spec(s: ReleaseScenario, obs: Observation) -> bool {
    match obs.dom {
        None => false,
        Some(d) => if s is ReopenUsable {
            d.tree_rows >= 2
        } else {
            d.start_screen
        },
    }
}

/// Whether the scenario's own success condition is on screen yet.
pub fn looks_ready(scenario: ReleaseScenario, observation: &Observation) -> (ready: bool)
    ensures
        ready == looks_ready_spec(scenario, *observation),
{
    match &observation.dom {
        None => false,
        Some(d) => match scenario {
            ReleaseScenario::ReopenUsable => d.tree_rows >= 2,
            _ => d.start_screen,
        },
    }
}

impl Observation {
    /// Adds a notice seen under `id`, unless that id was already seen.
    pub fn note_toast(&mut self, id: u64, kind: ToastKind, message: String)
        ensures
            final(self).toasts@ == if old(self).toasts@.contains_key(id) {
                old(self).toasts@
            } else {
                old(self).toasts@.insert(id, (kind, message))
            },
            final(self).start_screen_mounts == old(self).start_screen_mounts,
            final(self).dom == old(self).dom,
            final(self).dom_error == old(self).dom_error,
            final(self).workspaces@ == old(self).workspaces@,
            final(self).session_seen == old(self).session_seen,
    {
        note_new(&mut self.toasts, id, kind, message);
    }
}

impl Observation {
    /// Records one sample of the app: the open workspace, if any (kept once
    /// per path, in the order first seen), whether a document is open, and
    /// the Start Screen mount count the app reports (the highest one seen).
    pub fn record_sample(&mut self, workspace: Option<Folder>, session_open: bool, mounts: usize)
        ensures
            final(self).toasts@ == old(self).toasts@,
            final(self).dom == old(self).dom,
            final(self).dom_error == old(self).dom_error,
            final(self).session_seen == (old(self).session_seen || session_open),
            final(self).start_screen_mounts == (if mounts > old(self).start_screen_mounts {
                mounts
            } else {
                old(self).start_screen_mounts
            }),
            final(self).workspaces@ == match workspace {
                Some(w) => if known_path(old(self).workspaces@, w.path@) {
                    old(self).workspaces@
                } else {
                    old(self).workspaces@.push(w)
                },
                None => old(self).workspaces@,
            },
    {
        if let Some(w) = workspace {
            let mut known = false;
            let mut i: usize = 0;
            while i < self.workspaces.len()
                invariant
                    i <= self.workspaces@.len(),
                    *self == *old(self),
                    known == exists|k: int| 0 <= k < i && path_matches(#[trigger] self.workspaces@[k].path@, w.path@),
                decreases self.workspaces.len() - i,
            {
                if paths_equal(self.workspaces[i].path.as_str(), w.path.as_str()) {
                    known = true;
                }
                i = i + 1;
            }
            if !known {
                self.workspaces.push(w);
            }
        }
        self.session_seen = self.session_seen || session_open;
        if mounts > self.start_screen_mounts {
            self.start_screen_mounts = mounts;
        }
    }
}

fn push_bool(out: &mut String, b: bool)
    ensures
        final(out)@ == old(out)@ + bool_text(b),
{
    if b {
        push_str(out, "true");
    } else {
        push_str(out, "false");
    }
}

fn failure_start(scenario: ReleaseScenario, check: &str) -> (m: String)
    ensures
        m@ == scenario_name(scenario) + ": "@ + check@ + ": "@,
{
    let mut m = String::new();
    push_str(&mut m, scenario.name());
    push_str(&mut m, ": ");
    push_str(&mut m, check);
    push_str(&mut m, ": ");
    m
}

fn paths_of(folders: &Vec<Folder>) -> (paths: Vec<String>)
    ensures
        string_views(paths@) == folder_paths(folders@),
{
    let mut paths: Vec<String> = Vec::new();
    let mut i: usize = 0;
    while i < folders.len()
        invariant
            i <= folders@.len(),
            paths@.len() == i,
            forall|k: int| 0 <= k < i ==> #[trigger] paths@[k]@ == folders@[k].path@,
        decreases folders.len() - i,
    {
        paths.push(folders[i].path.clone());
        i = i + 1;
    }
    assert(string_views(paths@) =~= folder_paths(folders@));
    paths
}

fn any_same(folders: &Vec<Folder>, target: &Folder) -> (found: bool)
    ensures
        found == exists|k: int| 0 <= k < folders@.len() && same_folder(#[trigger] folders@[k], *target),
{
    let mut i: usize = 0;
    while i < folders.len()
        invariant
            i <= folders@.len(),
            forall|k: int| 0 <= k < i ==> !same_folder(#[trigger] folders@[k], *target),
        decreases folders.len() - i,
    {
        if same_dir(&folders[i], target) {
            assert(same_folder(folders@[i as int], *target));
            return true;
        }
        i = i + 1;
    }
    false
}

fn lines3(a: String, b: String, c: String) -> (v: Vec<String>)
    ensures
        string_views(v@) == seq![a@, b@, c@],
{
    let mut v: Vec<String> = Vec::new();
    v.push(a);
    v.push(b);
    v.push(c);
    assert(string_views(v@) =~= seq![a@, b@, c@]);
    v
}

fn one_warning_is(texts: &Vec<String>, expected: &String) -> (b: bool)
    ensures
        b == (string_views(texts@) == seq!["Warning: "@ + expected@]),
{
    if texts.len() != 1 {
        assert(string_views(texts@).len() != 1);
        return false;
    }
    let mut want = String::new();
    push_str(&mut want, "Warning: ");
    push_str(&mut want, expected.as_str());
    let same = same_text(texts[0].as_str(), want.as_str());
    assert(same ==> string_views(texts@) =~= seq!["Warning: "@ + expected@]);
    assert(string_views(texts@)[0] == texts@[0]@);
    same
}

/// Judges a launch scenario's observation. Every failure names the
/// scenario, the check and what was seen.
pub fn judge(
    scenario: ReleaseScenario,
    expectation: &Expectation,
    catalog: &Catalog,
    observation: &Observation,
) -> (r: Result<Vec<String>, String>)
    requires
        is_launch_scenario(scenario),
    ensures
        match launch_spec(scenario, *expectation, *catalog, *observation) {
            Ok(lines) => r matches Ok(v) && string_views(v@) == lines,
            Err(m) => r matches Err(e) && e@ == m,
        },
{
    let dom = match &observation.dom {
        Some(d) => *d,
        None => DomSnapshot { start_screen: false, tree_rows: 0 },
    };
    let texts = toast_texts_in_order(&observation.toasts);
    let folders = &observation.workspaces;
    let ghost fs = folders@;
    if let ReleaseScenario::ReopenUsable = scenario {
        if observation.start_screen_mounts != 0 {
            let mut m = failure_start(scenario, "the Start Screen never mounted");
            push_str(&mut m, "the Start Screen mounted ");
            push_decimal(&mut m, observation.start_screen_mounts as u64);
            push_str(&mut m, " time(s); RFC-043 decides the workspace before the first render");
            assert(m@ =~= failure(scenario, "the Start Screen never mounted"@, "the Start Screen mounted "@
                + decimal(observation.start_screen_mounts as nat)
                + " time(s); RFC-043 decides the workspace before the first render"@));
            return Err(m);
        }
        let opened_it = folders.len() > 0 && same_dir(&folders[folders.len() - 1], &expectation.workspace);
        if !opened_it {
            let mut m = failure_start(scenario, "the recent workspace was opened");
            push_str(&mut m, "open workspace is ");
            if folders.len() == 0 {
                push_str(&mut m, "None");
            } else {
                push_str(&mut m, "Some(");
                push_debug(&mut m, folders[folders.len() - 1].path.as_str());
                push_str(&mut m, ")");
            }
            push_str(&mut m, ", expected ");
            push_debug(&mut m, expectation.workspace.path.as_str());
            assert(m@ =~= failure(scenario, "the recent workspace was opened"@, "open workspace is "@
                + last_folder_text(fs) + ", expected "@ + debug_text(expectation.workspace.path@)));
            return Err(m);
        }
        if dom.tree_rows < 2 {
            let mut m = failure_start(scenario, "the workspace tree is shown");
            push_decimal(&mut m, dom.tree_rows as u64);
            push_str(&mut m, " tree row(s), start screen in DOM: ");
            push_bool(&mut m, dom.start_screen);
            assert(m@ =~= failure(scenario, "the workspace tree is shown"@, decimal(dom.tree_rows as nat)
                + " tree row(s), start screen in DOM: "@ + bool_text(dom.start_screen)));
            return Err(m);
        }
        if texts.len() > 0 {
            let mut m = failure_start(scenario, "no reopen toast");
            push_str(&mut m, "saw ");
            push_debug_list(&mut m, &texts);
            assert(m@ =~= failure(scenario, "no reopen toast"@, "saw "@ + debug_list(toast_texts(toast_list(observation.toasts@)))));
            return Err(m);
        }
        let mut shown = String::new();
        push_str(&mut shown, "the workspace tree is shown (");
        push_decimal(&mut shown, dom.tree_rows as u64);
        push_str(&mut shown, " rows)");
        return Ok(lines3("the Start Screen never mounted".to_owned(), shown, "no toast appeared".to_owned()));
    }
    if folders.len() > 0 || observation.session_seen {
        let mut m = failure_start(scenario, "no workspace opened");
        push_str(&mut m, "a workspace opened: ");
        let paths = paths_of(folders);
        push_debug_list(&mut m, &paths);
        let older = match &expectation.older_workspace {
            Some(o) => any_same(folders, o),
            None => false,
        };
        if older {
            push_str(&mut m, " (the older recent entry)");
        }
        push_str(&mut m, ", document open: ");
        push_bool(&mut m, observation.session_seen);
        assert(m@ =~= failure(scenario, "no workspace opened"@, "a workspace opened: "@ + debug_list(folder_paths(fs))
            + (if older_opened(*expectation, fs) { " (the older recent entry)"@ } else { Seq::empty() })
            + ", document open: "@ + bool_text(observation.session_seen)));
        return Err(m);
    }
    if !dom.start_screen || observation.start_screen_mounts == 0 {
        let mut m = failure_start(scenario, "the Start Screen is shown");
        push_str(&mut m, "start screen in DOM: ");
        push_bool(&mut m, dom.start_screen);
        push_str(&mut m, ", mounts: ");
        push_decimal(&mut m, observation.start_screen_mounts as u64);
        push_str(&mut m, ", ");
        push_decimal(&mut m, dom.tree_rows as u64);
        push_str(&mut m, " tree row(s)");
        match &observation.dom_error {
            Some(e) => {
                push_str(&mut m, ", last DOM error: ");
                push_str(&mut m, e.as_str());
            },
            None => {},
        }
        assert(m@ =~= failure(scenario, "the Start Screen is shown"@, "start screen in DOM: "@ + bool_text(dom.start_screen)
            + ", mounts: "@ + decimal(observation.start_screen_mounts as nat) + ", "@ + decimal(dom.tree_rows as nat)
            + " tree row(s)"@ + dom_error_text(observation.dom_error)));
        return Err(m);
    }
    if let ReleaseScenario::ReopenDisabled = scenario {
        if texts.len() > 0 {
            let mut m = failure_start(scenario, "no reopen toast");
            push_str(&mut m, "saw ");
            push_debug_list(&mut m, &texts);
            assert(m@ =~= failure(scenario, "no reopen toast"@, "saw "@ + debug_list(toast_texts(toast_list(observation.toasts@)))));
            return Err(m);
        }
        return Ok(lines3("no workspace opened".to_owned(), "the Start Screen is shown".to_owned(), "no toast appeared".to_owned()));
    }
    let mut expected = catalog.tr("workspace.reopen_failed");
    push_str(&mut expected, ": ");
    push_str(&mut expected, expectation.display_name.as_str());
    if one_warning_is(&texts, &expected) {
        let mut last = String::new();
        push_str(&mut last, "exactly one Warning toast: ");
        push_str(&mut last, expected.as_str());
        Ok(lines3("no workspace opened".to_owned(), "the Start Screen is shown".to_owned(), last))
    } else {
        let mut m = failure_start(scenario, "exactly one Warning toast naming the workspace");
        push_str(&mut m, "expected Warning: ");
        push_str(&mut m, expected.as_str());
        push_str(&mut m, ", saw ");
        push_debug_list(&mut m, &texts);
        assert(m@ =~= failure(scenario, "exactly one Warning toast naming the workspace"@, "expected Warning: "@
            + reopen_failed_text(*catalog, *expectation) + ", saw "@ + debug_list(toast_texts(toast_list(observation.toasts@)))));
        Err(m)
    }
}

/// How long a launch scenario is sampled at most, from launch.
pub const LAUNCH_DEADLINE_MS: u64 = 15_000;

/// How long sampling goes on once the scenario looks ready: far longer than
/// a second render or a late notice takes to appear.
pub const WATCH_AFTER_READY_MS: u64 = 1_500;

/// The pause between two samples.
pub const LAUNCH_POLL_MS: u64 = 40;

/// The launch scenarios' sampling loop: when the scenario first looked
/// ready, in milliseconds since launch.
#[derive(Debug, Default)]
pub struct LaunchWatch {
    ready_at: Option<u64>,
}

/// Whether sampling stops at `elapsed_ms` after launch, the scenario having
/// first looked ready at `ready_at`.
pub open spec fn watch_done(ready_at: Option<u64>, elapsed_ms: u64) -> bool {
    ||| (ready_at matches Some(at) && at <= elapsed_ms && elapsed_ms - at >= WATCH_AFTER_READY_MS)
    ||| elapsed_ms >= LAUNCH_DEADLINE_MS
}

impl LaunchWatch {
    /// When the scenario first looked ready, if it has.
    pub closed spec fn ready_at_spec(&self) -> Option<u64> {
        self.ready_at
    }

    pub fn new() -> (w: Self)
        ensures
            w.ready_at_spec() is None,
    {
        LaunchWatch { ready_at: None }
    }

    /// After a sample taken `elapsed_ms` after launch, in which the scenario
    /// did or did not look ready: notes the first time it did, and says
    /// whether sampling stops, because it has been watched long enough since
    /// then or the deadline has passed.
    pub fn sampled(&mut self, elapsed_ms: u64, ready: bool) -> (stop: bool)
        ensures
            final(self).ready_at_spec() == (if old(self).ready_at_spec() is None && ready {
                Some(elapsed_ms)
            } else {
                old(self).ready_at_spec()
            }),
            stop == watch_done(final(self).ready_at_spec(), elapsed_ms),
    {
        if self.ready_at.is_none() && ready {
            self.ready_at = Some(elapsed_ms);
        }
        let watched = match self.ready_at {
            Some(at) => at <= elapsed_ms && elapsed_ms - at >= WATCH_AFTER_READY_MS,
            None => false,
        };
        watched || elapsed_ms >= LAUNCH_DEADLINE_MS
    }
}

} // verus!
