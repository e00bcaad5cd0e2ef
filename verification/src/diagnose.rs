//! What the app itself knew when a trusted-click phase failed: which
//! document is open, the mode, the source-sync lifecycle state, and what the
//! focus guard answered, kept as a bounded log of timestamped notes.

use std::collections::VecDeque;
use vstd::prelude::*;
use crate::catalog::{contains_spec, contains_text};
use crate::editor_mode::{mode_name, EditorMode};
use crate::fmt::{decimal, join_with, push_decimal_wide, string_views};
use crate::session::{char_is_whitespace, is_white_space};
use crate::settle::LifecycleState;
use crate::text::{chars_of, push_str, string_of};
use crate::transport::DriverResult;

verus! {

/// How many notes the log keeps: the most recent ones.
pub const KEEP: usize = 24;

/// `s` without its trailing white space.
pub open spec fn trim_end_spec(s: Seq<char>) -> Seq<char>
    decreases s.len(),
{
    if s.len() > 0 && is_white_space(s.last()) {
        trim_end_spec(s.drop_last())
    } else {
        s
    }
}

/// One note as the log keeps it.
pub open spec fn note_text(at_ms: u128, event: Seq<char>, details: Seq<char>) -> Seq<char> {
    trim_end_spec("+"@ + decimal(at_ms as nat) + "ms "@ + event + " "@ + details)
}

/// The log's notes after one more.
pub open spec fn recorded(entries: Seq<Seq<char>>, note: Seq<char>) -> Seq<Seq<char>> {
    (if entries.len() >= KEEP { entries.drop_first() } else { entries }).push(note)
}

/// Whether any note is a focus-guard trace.
pub open spec fn has_focus_trace(entries: Seq<Seq<char>>) -> bool {
    exists|k: int| 0 <= k < entries.len() && contains_spec(#[trigger] entries[k], " source.focus."@)
}

/// The focus claim, if a trace recorded one, else a plain statement that
/// none did: never an empty text that could be misread as "fine".
pub open spec fn describe_spec(entries: Seq<Seq<char>>) -> Seq<char> {
    let all = join_with(entries, " ; "@);
    if has_focus_trace(entries) {
        "recent notes (oldest first): "@ + all
    } else {
        "no source.focus.* trace was recorded, so the focus claim was not attempted or nothing reported it; recent notes: ["@
            + all + "]"@
    }
}

/// A bounded log of timestamped notes: page traces the app received, and
/// the moments the run clicked.
#[derive(Debug, Default)]
pub struct TraceLog {
    entries: VecDeque<String>,
}

fn trim_end(s: &str) -> (t: String)
    ensures
        t@ == trim_end_spec(s@),
{
    let chars = chars_of(s);
    let mut end: usize = chars.len();
    assert(s@.take(end as int) =~= s@);
    while end > 0 && char_is_whitespace(chars[end - 1])
        invariant
            chars@ == s@,
            end <= chars@.len(),
            trim_end_spec(s@) == trim_end_spec(s@.take(end as int)),
        decreases end,
    {
        assert(s@.take(end as int).drop_last() =~= s@.take(end - 1));
        end = end - 1;
    }
    assert(s@.take(end as int).len() == 0 || !is_white_space(s@.take(end as int).last()));
    let mut kept: Vec<char> = Vec::new();
    let mut i: usize = 0;
    while i < end
        invariant
            chars@ == s@,
            end <= chars@.len(),
            i <= end,
            kept@ == s@.take(i as int),
        decreases end - i,
    {
        kept.push(chars[i]);
        i = i + 1;
        assert(kept@ =~= s@.take(i as int));
    }
    string_of(&kept)
}

impl TraceLog {
    /// The notes, oldest first.
    pub closed spec fn notes(&self) -> Seq<Seq<char>> {
        string_views(self.entries@)
    }

    pub fn new() -> (log: Self)
        ensures
            log.notes() == Seq::<Seq<char>>::empty(),
    {
        TraceLog { entries: VecDeque::new() }
    }

    /// Adds a note at `at_ms`; once the log holds `KEEP` notes, the oldest
    /// goes.
    pub fn record(&mut self, at_ms: u128, event: &str, details: &str)
        ensures
            final(self).notes() == recorded(old(self).notes(), note_text(at_ms, event@, details@)),
    {
        let mut line = String::new();
        push_str(&mut line, "+");
        push_decimal_wide(&mut line, at_ms);
        push_str(&mut line, "ms ");
        push_str(&mut line, event);
        push_str(&mut line, " ");
        push_str(&mut line, details);
        let note = trim_end(line.as_str());
        let ghost before = self.entries@;
        if self.entries.len() >= KEEP {
            let _ = self.entries.pop_front();
            assert(string_views(self.entries@) =~= string_views(before).drop_first());
        }
        let ghost middle = self.entries@;
        self.entries.push_back(note);
        assert(string_views(self.entries@) =~= string_views(middle).push(note@));
    }

    /// The focus claim, if a trace recorded one, else a plain statement
    /// that none did, with every note.
    pub fn describe(&self) -> (d: String)
        ensures
            d@ == describe_spec(self.notes()),
    {
        let ghost q = string_views(self.entries@);
        let mut all = String::new();
        let mut found = false;
        let mut i: usize = 0;
        assert(q.take(0) =~= Seq::<Seq<char>>::empty());
        while i < self.entries.len()
            invariant
                i <= self.entries@.len(),
                q == string_views(self.entries@),
                all@ == join_with(q.take(i as int), " ; "@),
                found == exists|k: int| 0 <= k < i && contains_spec(#[trigger] q[k], " source.focus."@),
            decreases self.entries.len() - i,
        {
            if i > 0 {
                push_str(&mut all, " ; ");
            }
            push_str(&mut all, self.entries[i].as_str());
            if contains_text(self.entries[i].as_str(), " source.focus.") {
                found = true;
            }
            proof {
                let t = q.take(i + 1);
                assert(t.drop_last() =~= q.take(i as int));
                assert(t.last() == q[i as int]);
                if i == 0 {
                    assert(join_with(t, " ; "@) == t[0]);
                }
                assert(all@ =~= join_with(t, " ; "@));
            }
            i = i + 1;
        }
        assert(q.take(self.entries@.len() as int) =~= q);
        let mut d = String::new();
        if found {
            push_str(&mut d, "recent notes (oldest first): ");
            push_str(&mut d, all.as_str());
        } else {
            push_str(
                &mut d,
                "no source.focus.* trace was recorded, so the focus claim was not attempted or nothing reported it; recent notes: [",
            );
            push_str(&mut d, all.as_str());
            push_str(&mut d, "]");
        }
        d
    }
}

/// The lifecycle state's name.
pub fn lifecycle_name(state: &LifecycleState) -> (n: &'static str)
    ensures
        n@ == match *state {
            LifecycleState::Unmounted => "Unmounted"@,
            LifecycleState::Mounting => "Mounting"@,
            LifecycleState::Initializing => "Initializing"@,
            LifecycleState::Ready => "Ready"@,
            LifecycleState::SnapshotPending => "SnapshotPending"@,
            LifecycleState::BarrierHeld => "BarrierHeld"@,
            LifecycleState::ResumePending => "ResumePending"@,
            LifecycleState::RefreshPending => "RefreshPending"@,
            LifecycleState::Unmounting => "Unmounting"@,
            LifecycleState::Unavailable => "Unavailable"@,
        },
{
    match state {
        LifecycleState::Unmounted => "Unmounted",
        LifecycleState::Mounting => "Mounting",
        LifecycleState::Initializing => "Initializing",
        LifecycleState::Ready => "Ready",
        LifecycleState::SnapshotPending => "SnapshotPending",
        LifecycleState::BarrierHeld => "BarrierHeld",
        LifecycleState::ResumePending => "ResumePending",
        LifecycleState::RefreshPending => "RefreshPending",
        LifecycleState::Unmounting => "Unmounting",
        LifecycleState::Unavailable => "Unavailable",
    }
}

/// The app-side facts, as one line.
pub open spec fn app_line(document: Option<Seq<char>>, mode: EditorMode, lifecycle: Seq<char>) -> Seq<
    char,
> {
    "app: open document="@ + match document {
        Some(d) => d,
        None => "none"@,
    } + " mode="@ + mode_name(mode) + " source-sync lifecycle="@ + lifecycle
}

/// The app-side facts, as one line.
pub fn describe_app(document: Option<&str>, mode: EditorMode, lifecycle: &str) -> (line: String)
    ensures
        line@ == app_line(
            match document {
                Some(d) => Some(d@),
                None => None,
            },
            mode,
            lifecycle@,
        ),
{
    let mut line = String::new();
    push_str(&mut line, "app: open document=");
    match document {
        Some(d) => push_str(&mut line, d),
        None => push_str(&mut line, "none"),
    }
    push_str(&mut line, " mode=");
    match mode {
        EditorMode::Form => push_str(&mut line, "Form"),
        EditorMode::Text => push_str(&mut line, "Text"),
        EditorMode::Preview => push_str(&mut line, "Preview"),
    }
    push_str(&mut line, " source-sync lifecycle=");
    push_str(&mut line, lifecycle);
    line
}

/// Appends `context` to a driver failure's own reason; a success is
/// untouched.
pub fn enrich_failure(result: &mut DriverResult, context: &str)
    ensures
        old(result).ok ==> *final(result) == *old(result),
        !old(result).ok ==> {
            &&& final(result).error matches Some(e) && e@ == (match old(result).error {
                Some(r) => r@,
                None => "unknown error"@,
            }) + " | "@ + context@
            &&& final(result).ok == old(result).ok
            &&& final(result).stage == old(result).stage
            &&& final(result).marker == old(result).marker
            &&& final(result).milestones == old(result).milestones
            &&& final(result).error_toast_seen == old(result).error_toast_seen
        },
{
    if result.ok {
        return;
    }
    let mut e = String::new();
    match &result.error {
        Some(r) => push_str(&mut e, r.as_str()),
        None => push_str(&mut e, "unknown error"),
    }
    push_str(&mut e, " | ");
    push_str(&mut e, context);
    result.error = Some(e);
}

/// What `Path::file_name` gives for `path`: its final component, or nothing
/// where the path ends in `..` or has no components.
pub uninterp spec fn path_file_name(path: Seq<char>) -> Option<Seq<char>>;

/// `std::path::Path::file_name` on `path`, converted to a `String`.
///
/// Claimed: the result is `path_file_name` of the path, a function of the
/// path alone. How the final component is found is left unsaid.
#[verifier::external_body]
fn file_name(path: &str) -> (name: Option<String>)
    ensures
        match name {
            Some(n) => path_file_name(path@) == Some(n@),
            None => path_file_name(path@) is None,
        },
{
    match std::path::Path::new(path).file_name() {
        Some(n) => Some(n.to_string_lossy().into_owned()),
        None => None,
    }
}

/// The failure context of a trusted-click run: the app-side facts, then the
/// trace notes.
pub open spec fn state_line(document: Option<Seq<char>>, mode: EditorMode, lifecycle: Seq<char>, notes: Seq<Seq<char>>) -> Seq<char> {
    app_line(document, mode, lifecycle) + " | "@ + describe_spec(notes)
}

/// The failure context for an app whose open document is stored at
/// `session_path` (if one is open): the document's file name, the mode and
/// the source-sync lifecycle, then the trace log.
pub fn describe_state(session_path: Option<&str>, mode: EditorMode, lifecycle: &str, log: &TraceLog) -> (line: String)
    ensures
        line@ == state_line(
            match session_path {
                Some(p) => path_file_name(p@),
                None => None,
            },
            mode,
            lifecycle@,
            log.notes(),
        ),
{
    let document = match session_path {
        Some(p) => file_name(p),
        None => None,
    };
    let mut line = match &document {
        Some(d) => describe_app(Some(d.as_str()), mode, lifecycle),
        None => describe_app(None, mode, lifecycle),
    };
    push_str(&mut line, " | ");
    let notes = log.describe();
    push_str(&mut line, notes.as_str());
    line
}

/// The log never holds more than `KEEP` notes: recording into a log within
/// the bound keeps it within the bound, and keeps the newest note last.
pub proof fn lemma_log_stays_bounded(entries: Seq<Seq<char>>, note: Seq<char>)
    requires
        entries.len() <= KEEP,
    ensures
        recorded(entries, note).len() <= KEEP,
        recorded(entries, note).last() == note,
{
}

} // verus!
