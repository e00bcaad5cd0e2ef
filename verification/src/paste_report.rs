//! Turns what the paste probe saw into answers.
//!
//! The probe sends real key chords and a constructed event to a live
//! WebView and records what the page saw. This module reads those
//! recordings and writes one line per question, then the verdicts. It
//! asserts nothing about product behaviour: a probe that observed and
//! reported has passed, whatever the answers are.

use vstd::prelude::*;
use crate::catalog::same_text;
use crate::fmt::{debug_list, debug_text, decimal, join_with, push_debug, push_debug_list, push_decimal, string_views};
use crate::text::push_str;
use crate::transport_guard::{trim_both, trim_end_of, trim_start_spec};

verus! {

/// One event the page recorded.
#[derive(Debug, Clone, Default)]
pub struct ProbeEvent {
    pub kind: String,
    pub at: u64,
    pub target: Option<String>,
    pub trusted: bool,
    pub default_prevented: bool,
    pub key: Option<String>,
    pub code: Option<String>,
    pub ctrl: Option<bool>,
    pub shift: Option<bool>,
    pub meta: Option<bool>,
    pub input_type: Option<String>,
    pub data: Option<String>,
    pub has_clipboard_data: Option<bool>,
    pub types: Option<Vec<String>>,
    pub html_length: Option<usize>,
    pub html_head: Option<String>,
    pub plain_length: Option<usize>,
    pub plain_head: Option<String>,
}

/// What the page's recorder hands back: its events and the editor text.
#[derive(Debug, Clone, Default)]
pub struct Taken {
    pub events: Vec<ProbeEvent>,
    pub doc: Option<String>,
}

/// What constructing and dispatching a paste event in the page gave.
#[derive(Debug, Clone, Default)]
pub struct Constructed {
    pub ok: bool,
    pub error: Option<String>,
    pub data_transfer_types: Option<Vec<String>>,
    pub event_has_clipboard_data: Option<bool>,
    pub event_types: Option<Vec<String>>,
    pub not_cancelled: Option<bool>,
    pub doc_changed: Option<bool>,
    pub reached: Vec<ProbeEvent>,
}

/// One key chord: the editor's text before, the events, and the text after.
#[derive(Debug, Clone, Default)]
pub struct Case {
    pub events: Vec<ProbeEvent>,
    pub doc_before: Option<String>,
    pub doc_after: Option<String>,
}

/// The clipboard owner the probe starts.
#[derive(Debug, Clone, Default)]
pub struct Helper {
    /// The clipboard owner reported that it holds the selection.
    pub ready: bool,
    /// Why not, or what it said.
    pub note: String,
}

#[derive(Debug, Clone, Default)]
pub struct Observation {
    pub helper: Helper,
    pub ctrl_v: Case,
    pub chord: Case,
    pub constructed: Constructed,
}

pub const HTML: &'static str = "text/html";
pub const PLAIN: &'static str = "text/plain";

pub open spec fn yes_text(b: bool) -> Seq<char> {
    if b {
        "YES"@
    } else {
        "NO"@
    }
}

/// `YES` or `NO`.
pub fn yes(value: bool) -> (s: &'static str)
    ensures
        s@ == yes_text(value),
{
    if value {
        "YES"
    } else {
        "NO"
    }
}

pub open spec fn is_paste(e: ProbeEvent) -> bool {
    e.kind@ == "paste"@
}

/// The first event from `i` on that is a paste event.
pub open spec fn first_paste_from(events: Seq<ProbeEvent>, i: int) -> Option<int>
    decreases events.len() - i,
{
    if i < 0 || i >= events.len() {
        None
    } else if is_paste(events[i]) {
        Some(i)
    } else {
        first_paste_from(events, i + 1)
    }
}

/// The key is `v`, in either case.
pub open spec fn is_v(key: Option<String>) -> bool {
    key matches Some(k) && (k@ == "v"@ || k@ == "V"@)
}

/// A keydown for Ctrl+V, with Shift held or not as `shift` says.
pub open spec fn is_chord_keydown(e: ProbeEvent, shift: bool) -> bool {
    e.kind@ == "keydown"@ && e.ctrl == Some(true) && e.shift == Some(shift) && is_v(e.key)
}

/// The first event from `i` on that is the chord's keydown.
pub open spec fn first_chord_from(events: Seq<ProbeEvent>, shift: bool, i: int) -> Option<int>
    decreases events.len() - i,
{
    if i < 0 || i >= events.len() {
        None
    } else if is_chord_keydown(events[i], shift) {
        Some(i)
    } else {
        first_chord_from(events, shift, i + 1)
    }
}

/// The event lists `flavour` among its types.
pub open spec fn carries_spec(e: ProbeEvent, flavour: Seq<char>) -> bool {
    e.types matches Some(t) && string_views(t@).contains(flavour)
}

pub open spec fn or_zero(n: Option<usize>) -> nat {
    match n {
        Some(v) => v as nat,
        None => 0,
    }
}

pub open spec fn or_empty(s: Option<String>) -> Seq<char> {
    match s {
        Some(v) => v@,
        None => Seq::empty(),
    }
}

pub open spec fn list_or_empty(s: Option<Vec<String>>) -> Seq<Seq<char>> {
    match s {
        Some(v) => string_views(v@),
        None => Seq::empty(),
    }
}

/// `text/html` and `text/plain` both listed, and both non-empty.
pub open spec fn has_both_spec(e: ProbeEvent) -> bool {
    carries_spec(e, HTML@) && carries_spec(e, PLAIN@) && or_zero(e.html_length) > 0 && or_zero(
        e.plain_length,
    ) > 0
}

/// Whether the chord's keydown came before the paste event, when both
/// were recorded.
pub open spec fn keydown_before_paste_spec(case: Case, shift: bool) -> Option<bool> {
    match (first_chord_from(case.events@, shift, 0), first_paste_from(case.events@, 0)) {
        (Some(k), Some(p)) => Some(k < p),
        _ => None,
    }
}

/// How the editor text changed over the chord.
pub open spec fn doc_delta_spec(case: Case) -> Seq<char> {
    match (case.doc_before, case.doc_after) {
        (Some(before), Some(after)) => if before@ == after@ {
            "the editor text did not change"@
        } else {
            "the editor text changed, "@ + decimal(before@.len()) + " to "@ + decimal(after@.len())
                + " characters"@
        },
        _ => "the editor text could not be read"@,
    }
}

/// One event, briefly: a key with its modifiers, an input with its type,
/// else its kind.
pub open spec fn kind_text(e: ProbeEvent) -> Seq<char> {
    if e.kind@ == "keydown"@ || e.kind@ == "keyup"@ {
        e.kind@ + " "@ + (if e.ctrl == Some(true) { "Ctrl+"@ } else { Seq::empty() }) + (if e.shift
            == Some(true) {
            "Shift+"@
        } else {
            Seq::empty()
        }) + or_empty(e.key)
    } else if e.kind@ == "beforeinput"@ || e.kind@ == "input"@ {
        e.kind@ + " "@ + or_empty(e.input_type)
    } else {
        e.kind@
    }
}

/// Every event of the chord, briefly, in order.
pub open spec fn kinds_spec(case: Case) -> Seq<char> {
    if case.events@.len() == 0 {
        "no events at all"@
    } else {
        join_with(case.events@.map_values(|e: ProbeEvent| kind_text(e)), " > "@)
    }
}

/// What a paste event carried.
pub open spec fn describe_paste_spec(e: ProbeEvent) -> Seq<char> {
    "clipboardData present: "@ + yes_text(e.has_clipboard_data == Some(true)) + "; types "@
        + debug_list(list_or_empty(e.types)) + "; text/html "@ + decimal(or_zero(e.html_length))
        + " chars (starts "@ + debug_text(or_empty(e.html_head)) + "); text/plain "@ + decimal(
        or_zero(e.plain_length),
    ) + " chars (starts "@ + debug_text(or_empty(e.plain_head)) + "); target "@ + debug_text(
        or_empty(e.target),
    ) + "; trusted: "@ + yes_text(e.trusted)
}

/// How many of the events are paste events.
pub open spec fn paste_count(events: Seq<ProbeEvent>) -> nat
    decreases events.len(),
{
    if events.len() == 0 {
        0
    } else {
        paste_count(events.drop_last()) + if is_paste(events.last()) {
            1nat
        } else {
            0nat
        }
    }
}

/// The line about the clipboard owner.
pub open spec fn helper_line(h: Helper) -> Seq<char> {
    "clipboard owner: "@ + (if h.ready {
        "holds the selection with text/html and text/plain"@
    } else {
        "DID NOT become ready"@
    }) + (if h.note@.len() == 0 {
        Seq::empty()
    } else {
        " ("@ + h.note@ + ")"@
    })
}

/// The line about a chord's paste event.
pub open spec fn paste_line(label: Seq<char>, case: Case) -> Seq<char> {
    match first_paste_from(case.events@, 0) {
        Some(i) => label + " the paste event: "@ + describe_paste_spec(case.events@[i]) + "; "@
            + doc_delta_spec(case),
        None => label + " no paste event reached the page; "@ + doc_delta_spec(case),
    }
}

/// The line on which came first, the chord's keydown or its paste, when
/// both were recorded.
pub open spec fn order_lines(case: Case, shift: bool, label: Seq<char>) -> Seq<Seq<char>> {
    match keydown_before_paste_spec(case, shift) {
        Some(order) => seq![
            "Q-order "@ + label + ": the keydown came "@ + (if order {
                "BEFORE"@
            } else {
                "AFTER"@
            }) + " the paste event"@,
        ],
        None => Seq::empty(),
    }
}

/// The line about the constructed event.
pub open spec fn constructed_line(built: Constructed) -> Seq<char> {
    match built.error {
        Some(error) => "Q3 constructing a ClipboardEvent failed: "@ + error@,
        None => "Q3 constructed ClipboardEvent: DataTransfer types "@ + debug_list(
            list_or_empty(built.data_transfer_types),
        ) + "; event.clipboardData present: "@ + yes_text(built.event_has_clipboard_data == Some(true))
            + " with types "@ + debug_list(list_or_empty(built.event_types))
            + "; dispatched on the editor, not cancelled: "@ + yes_text(built.not_cancelled == Some(true))
            + "; "@ + decimal(paste_count(built.reached@)) + " paste event(s) reached the listener; the editor text "@
            + (if built.doc_changed == Some(true) { "changed"@ } else { "did not change"@ }),
    }
}

/// What the listener read from the constructed event, if a paste reached it.
pub open spec fn listener_lines(built: Constructed) -> Seq<Seq<char>> {
    match first_paste_from(built.reached@, 0) {
        Some(i) => seq!["Q3 what the listener read from it: "@ + describe_paste_spec(built.reached@[i])],
        None => Seq::empty(),
    }
}

/// A real Ctrl+V reached a paste listener with both flavours.
pub open spec fn verdict_one(obs: Observation) -> bool {
    match first_paste_from(obs.ctrl_v.events@, 0) {
        Some(i) => has_both_spec(obs.ctrl_v.events@[i]),
        None => false,
    }
}

/// A constructed paste with `text/html` reached the listener.
pub open spec fn verdict_three(obs: Observation) -> bool {
    exists|k: int| 0 <= k < obs.constructed.reached@.len() && is_paste(
        #[trigger] obs.constructed.reached@[k],
    ) && carries_spec(obs.constructed.reached@[k], HTML@)
}

/// The answers: one line per question, then the three verdicts, each
/// carrying a `YES` or `NO`.
pub open spec fn answers_spec(obs: Observation) -> Seq<Seq<char>> {
    head_spec(obs) + order_lines(obs.ctrl_v, false, "Ctrl+V"@) + order_lines(
        obs.chord,
        true,
        "Ctrl+Shift+V"@,
    ) + seq![constructed_line(obs.constructed)] + listener_lines(obs.constructed) + verdicts_spec(
        obs,
    )
}

/// The helper line and the two real key presses' lines.
pub open spec fn head_spec(obs: Observation) -> Seq<Seq<char>> {
    seq![
        helper_line(obs.helper),
        "Q1 real Ctrl+V, events seen: "@ + kinds_spec(obs.ctrl_v),
        paste_line("Q1"@, obs.ctrl_v),
        "Q2 real Ctrl+Shift+V, events seen: "@ + kinds_spec(obs.chord),
        paste_line("Q2"@, obs.chord),
    ]
}

/// The three verdict lines.
pub open spec fn verdicts_spec(obs: Observation) -> Seq<Seq<char>> {
    seq![
        "VERDICT 1: a real Ctrl+V reaches a paste listener with BOTH flavours: "@ + yes_text(
            verdict_one(obs),
        ),
        "VERDICT 2: Ctrl+Shift+V dispatches a paste event at all: "@ + yes_text(
            first_paste_from(obs.chord.events@, 0) is Some,
        ) + "; its keydown is visible: "@ + yes_text(first_chord_from(obs.chord.events@, true, 0) is Some),
        "VERDICT 3: a constructed paste with text/html reaches a listener: "@ + yes_text(
            verdict_three(obs),
        ) + (if verdict_one(obs) { " (not needed: verdict 1 holds)"@ } else { Seq::empty() }),
    ]
}

proof fn lemma_first_paste(events: Seq<ProbeEvent>, i: int)
    requires
        0 <= i,
    ensures
        first_paste_from(events, i) matches Some(p) ==> i <= p < events.len() && is_paste(events[p]),
        first_paste_from(events, i) is None ==> forall|k: int| i <= k < events.len() ==> !is_paste(
            #[trigger] events[k],
        ),
    decreases events.len() - i,
{
    if i < events.len() && !is_paste(events[i]) {
        lemma_first_paste(events, i + 1);
    }
}

proof fn lemma_first_chord(events: Seq<ProbeEvent>, shift: bool, i: int)
    requires
        0 <= i,
    ensures
        first_chord_from(events, shift, i) matches Some(p) ==> i <= p < events.len(),
    decreases events.len() - i,
{
    if i < events.len() && !is_chord_keydown(events[i], shift) {
        lemma_first_chord(events, shift, i + 1);
    }
}

fn kind_is(e: &ProbeEvent, kind: &str) -> (b: bool)
    ensures
        b == (e.kind@ == kind@),
{
    same_text(e.kind.as_str(), kind)
}

/// The chord's first paste event, if any.
pub fn paste_event(case: &Case) -> (r: Option<&ProbeEvent>)
    ensures
        match first_paste_from(case.events@, 0) {
            Some(i) => r == Some(&case.events@[i]),
            None => r is None,
        },
{
    let mut i: usize = 0;
    while i < case.events.len()
        invariant
            i <= case.events@.len(),
            first_paste_from(case.events@, 0) == first_paste_from(case.events@, i as int),
        decreases case.events.len() - i,
    {
        if kind_is(&case.events[i], "paste") {
            return Some(&case.events[i]);
        }
        i = i + 1;
    }
    None
}

/// Whether the event lists `flavour` among its types.
pub fn carries(event: &ProbeEvent, flavour: &str) -> (b: bool)
    ensures
        b == carries_spec(*event, flavour@),
{
    match &event.types {
        None => false,
        Some(types) => {
            let mut i: usize = 0;
            while i < types.len()
                invariant
                    i <= types@.len(),
                    event.types == Some(*types),
                    forall|k: int| 0 <= k < i ==> #[trigger] types@[k]@ != flavour@,
                decreases types.len() - i,
            {
                if same_text(types[i].as_str(), flavour) {
                    assert(string_views(types@)[i as int] == flavour@);
                    assert(string_views(types@).contains(flavour@));
                    assert(carries_spec(*event, flavour@));
                    return true;
                }
                i = i + 1;
            }
            assert forall|k: int| 0 <= k < string_views(types@).len() implies string_views(types@)[k]
                != flavour@ by {
                assert(types@[k]@ != flavour@);
            }
            false
        },
    }
}

fn or_zero_exec(n: Option<usize>) -> (v: usize)
    ensures
        v == or_zero(n),
{
    match n {
        Some(v) => v,
        None => 0,
    }
}

/// `text/html` and `text/plain` both listed, and both non-empty.
pub fn has_both(event: &ProbeEvent) -> (b: bool)
    ensures
        b == has_both_spec(*event),
{
    carries(event, HTML) && carries(event, PLAIN) && or_zero_exec(event.html_length) > 0
        && or_zero_exec(event.plain_length) > 0
}

fn key_is_v(key: &Option<String>) -> (b: bool)
    ensures
        b == is_v(*key),
{
    match key {
        Some(k) => same_text(k.as_str(), "v") || same_text(k.as_str(), "V"),
        None => false,
    }
}

fn is_chord(e: &ProbeEvent, shift: bool) -> (b: bool)
    ensures
        b == is_chord_keydown(*e, shift),
{
    kind_is(e, "keydown") && e.ctrl == Some(true) && e.shift == Some(shift) && key_is_v(&e.key)
}

fn chord_index(case: &Case, shift: bool) -> (r: Option<usize>)
    ensures
        match r {
            Some(i) => first_chord_from(case.events@, shift, 0) == Some(i as int) && i < case.events@.len(),
            None => first_chord_from(case.events@, shift, 0) is None,
        },
{
    proof {
        lemma_first_chord(case.events@, shift, 0);
    }
    let mut i: usize = 0;
    while i < case.events.len()
        invariant
            i <= case.events@.len(),
            first_chord_from(case.events@, shift, 0) == first_chord_from(case.events@, shift, i as int),
        decreases case.events.len() - i,
    {
        if is_chord(&case.events[i], shift) {
            return Some(i);
        }
        i = i + 1;
    }
    None
}

fn paste_index(events: &Vec<ProbeEvent>) -> (r: Option<usize>)
    ensures
        match r {
            Some(i) => first_paste_from(events@, 0) == Some(i as int) && i < events@.len(),
            None => first_paste_from(events@, 0) is None,
        },
{
    proof {
        lemma_first_paste(events@, 0);
    }
    let mut i: usize = 0;
    while i < events.len()
        invariant
            i <= events@.len(),
            first_paste_from(events@, 0) == first_paste_from(events@, i as int),
        decreases events.len() - i,
    {
        if kind_is(&events[i], "paste") {
            return Some(i);
        }
        i = i + 1;
    }
    None
}

/// A keydown for Ctrl+V, with Shift held or not as `shift` says.
pub fn chord_keydown(case: &Case, shift: bool) -> (r: Option<&ProbeEvent>)
    ensures
        match first_chord_from(case.events@, shift, 0) {
            Some(i) => r == Some(&case.events@[i]),
            None => r is None,
        },
{
    match chord_index(case, shift) {
        Some(i) => Some(&case.events[i]),
        None => None,
    }
}

/// Whether the keydown was seen before the paste event, by the order
/// recorded.
pub fn keydown_before_paste(case: &Case, shift: bool) -> (r: Option<bool>)
    ensures
        r == keydown_before_paste_spec(*case, shift),
{
    let keydown = chord_index(case, shift);
    let paste = paste_index(&case.events);
    match (keydown, paste) {
        (Some(k), Some(p)) => Some(k < p),
        _ => None,
    }
}

fn char_count(s: &String) -> (n: usize)
    ensures
        n == s@.len(),
{
    let chars = crate::text::chars_of(s.as_str());
    chars.len()
}

/// How the editor text changed over the chord.
pub fn doc_delta(case: &Case) -> (d: String)
    ensures
        d@ == doc_delta_spec(*case),
{
    match (&case.doc_before, &case.doc_after) {
        (Some(before), Some(after)) => {
            if same_text(before.as_str(), after.as_str()) {
                "the editor text did not change".to_owned()
            } else {
                let mut d = String::new();
                push_str(&mut d, "the editor text changed, ");
                push_decimal(&mut d, char_count(before) as u64);
                push_str(&mut d, " to ");
                push_decimal(&mut d, char_count(after) as u64);
                push_str(&mut d, " characters");
                assert(d@ =~= doc_delta_spec(*case));
                d
            }
        },
        _ => "the editor text could not be read".to_owned(),
    }
}

fn push_or_empty(out: &mut String, s: &Option<String>)
    ensures
        final(out)@ == old(out)@ + or_empty(*s),
{
    match s {
        Some(v) => push_str(out, v.as_str()),
        None => {
            assert(old(out)@ + Seq::<char>::empty() =~= old(out)@);
        },
    }
}

fn push_kind_text(out: &mut String, e: &ProbeEvent)
    ensures
        final(out)@ == old(out)@ + kind_text(*e),
{
    if kind_is(e, "keydown") || kind_is(e, "keyup") {
        push_str(out, e.kind.as_str());
        push_str(out, " ");
        if e.ctrl == Some(true) {
            push_str(out, "Ctrl+");
        }
        if e.shift == Some(true) {
            push_str(out, "Shift+");
        }
        push_or_empty(out, &e.key);
    } else if kind_is(e, "beforeinput") || kind_is(e, "input") {
        push_str(out, e.kind.as_str());
        push_str(out, " ");
        push_or_empty(out, &e.input_type);
    } else {
        push_str(out, e.kind.as_str());
    }
    assert(out@ =~= old(out)@ + kind_text(*e));
}

/// Every event of the chord, briefly, in order.
pub fn kinds(case: &Case) -> (k: String)
    ensures
        k@ == kinds_spec(*case),
{
    if case.events.len() == 0 {
        return "no events at all".to_owned();
    }
    let mut out = String::new();
    let ghost q = case.events@.map_values(|e: ProbeEvent| kind_text(e));
    assert(q.take(0) =~= Seq::<Seq<char>>::empty());
    let mut i: usize = 0;
    while i < case.events.len()
        invariant
            i <= case.events@.len(),
            q == case.events@.map_values(|e: ProbeEvent| kind_text(e)),
            out@ == join_with(q.take(i as int), " > "@),
        decreases case.events.len() - i,
    {
        if i > 0 {
            push_str(&mut out, " > ");
        }
        push_kind_text(&mut out, &case.events[i]);
        proof {
            let t = q.take(i + 1);
            assert(t.drop_last() =~= q.take(i as int));
            assert(t.last() == kind_text(case.events@[i as int]));
            if i == 0 {
                assert(join_with(t, " > "@) == t[0]);
            }
            assert(out@ =~= join_with(t, " > "@));
        }
        i = i + 1;
    }
    assert(q.take(case.events@.len() as int) =~= q);
    out
}

fn push_list_or_empty(out: &mut String, list: &Option<Vec<String>>)
    ensures
        final(out)@ == old(out)@ + debug_list(list_or_empty(*list)),
{
    match list {
        Some(v) => push_debug_list(out, v),
        None => {
            push_str(out, "[]");
            proof { reveal_strlit("[]"); }
            assert(join_with(Seq::<Seq<char>>::empty(), seq![',', ' ']) =~= Seq::<char>::empty());
            assert(Seq::<Seq<char>>::empty().map_values(|s: Seq<char>| debug_text(s)) =~= Seq::<Seq<char>>::empty());
            assert(out@ =~= old(out)@ + debug_list(list_or_empty(*list)));
        },
    }
}

fn push_debug_or_empty(out: &mut String, s: &Option<String>)
    ensures
        final(out)@ == old(out)@ + debug_text(or_empty(*s)),
{
    match s {
        Some(v) => push_debug(out, v.as_str()),
        None => {
            push_debug(out, "");
            proof {
                reveal_strlit("");
                assert(""@ =~= Seq::<char>::empty());
            }
        },
    }
}

/// What a paste event carried.
pub fn describe_paste(event: &ProbeEvent) -> (d: String)
    ensures
        d@ == describe_paste_spec(*event),
{
    let mut d = String::new();
    push_str(&mut d, "clipboardData present: ");
    push_str(&mut d, yes(event.has_clipboard_data == Some(true)));
    push_str(&mut d, "; types ");
    push_list_or_empty(&mut d, &event.types);
    push_str(&mut d, "; text/html ");
    push_decimal(&mut d, or_zero_exec(event.html_length) as u64);
    push_str(&mut d, " chars (starts ");
    push_debug_or_empty(&mut d, &event.html_head);
    push_str(&mut d, "); text/plain ");
    push_decimal(&mut d, or_zero_exec(event.plain_length) as u64);
    push_str(&mut d, " chars (starts ");
    push_debug_or_empty(&mut d, &event.plain_head);
    push_str(&mut d, "); target ");
    push_debug_or_empty(&mut d, &event.target);
    push_str(&mut d, "; trusted: ");
    push_str(&mut d, yes(event.trusted));
    assert(d@ =~= describe_paste_spec(*event));
    d
}

fn count_pastes(events: &Vec<ProbeEvent>) -> (n: usize)
    ensures
        n == paste_count(events@),
{
    let mut n: usize = 0;
    let mut i: usize = 0;
    while i < events.len()
        invariant
            i <= events@.len(),
            n == paste_count(events@.take(i as int)),
            n <= i,
        decreases events.len() - i,
    {
        assert(events@.take(i + 1).drop_last() =~= events@.take(i as int));
        if kind_is(&events[i], "paste") {
            n = n + 1;
        }
        i = i + 1;
    }
    assert(events@.take(events@.len() as int) =~= events@);
    n
}

fn helper_text(h: &Helper) -> (line: String)
    ensures
        line@ == helper_line(*h),
{
    let mut line = String::new();
    push_str(&mut line, "clipboard owner: ");
    if h.ready {
        push_str(&mut line, "holds the selection with text/html and text/plain");
    } else {
        push_str(&mut line, "DID NOT become ready");
    }
    if h.note.as_str().is_empty() == false {
        push_str(&mut line, " (");
        push_str(&mut line, h.note.as_str());
        push_str(&mut line, ")");
    }
    proof {
        if h.note@.len() == 0 {
            assert(h.note@ =~= Seq::<char>::empty());
        }
    }
    assert(line@ =~= helper_line(*h));
    line
}

fn events_line(prefix: &str, case: &Case) -> (line: String)
    ensures
        line@ == prefix@ + kinds_spec(*case),
{
    let mut line = String::new();
    push_str(&mut line, prefix);
    let k = kinds(case);
    push_str(&mut line, k.as_str());
    line
}

fn paste_text(label: &str, case: &Case) -> (line: String)
    ensures
        line@ == paste_line(label@, *case),
{
    let mut line = String::new();
    push_str(&mut line, label);
    match paste_event(case) {
        Some(event) => {
            push_str(&mut line, " the paste event: ");
            let d = describe_paste(event);
            push_str(&mut line, d.as_str());
            push_str(&mut line, "; ");
        },
        None => {
            push_str(&mut line, " no paste event reached the page; ");
        },
    }
    let delta = doc_delta(case);
    push_str(&mut line, delta.as_str());
    assert(line@ =~= paste_line(label@, *case));
    line
}

fn push_order_line(lines: &mut Vec<String>, case: &Case, shift: bool, label: &str)
    ensures
        string_views(final(lines)@) == string_views(old(lines)@) + order_lines(*case, shift, label@),
{
    let ghost before = lines@;
    match keydown_before_paste(case, shift) {
        Some(order) => {
            let mut line = String::new();
            push_str(&mut line, "Q-order ");
            push_str(&mut line, label);
            push_str(&mut line, ": the keydown came ");
            push_str(&mut line, if order { "BEFORE" } else { "AFTER" });
            push_str(&mut line, " the paste event");
            lines.push(line);
        },
        None => {},
    }
    assert(string_views(lines@) =~= string_views(before) + order_lines(*case, shift, label@));
}

fn constructed_text(built: &Constructed) -> (line: String)
    ensures
        line@ == constructed_line(*built),
{
    match &built.error {
        Some(error) => {
            let mut line = String::new();
            push_str(&mut line, "Q3 constructing a ClipboardEvent failed: ");
            push_str(&mut line, error.as_str());
            line
        },
        None => {
            let mut line = String::new();
            push_str(&mut line, "Q3 constructed ClipboardEvent: DataTransfer types ");
            push_list_or_empty(&mut line, &built.data_transfer_types);
            push_str(&mut line, "; event.clipboardData present: ");
            push_str(&mut line, yes(built.event_has_clipboard_data == Some(true)));
            push_str(&mut line, " with types ");
            push_list_or_empty(&mut line, &built.event_types);
            push_str(&mut line, "; dispatched on the editor, not cancelled: ");
            push_str(&mut line, yes(built.not_cancelled == Some(true)));
            push_str(&mut line, "; ");
            push_decimal(&mut line, count_pastes(&built.reached) as u64);
            push_str(&mut line, " paste event(s) reached the listener; the editor text ");
            if built.doc_changed == Some(true) {
                push_str(&mut line, "changed");
            } else {
                push_str(&mut line, "did not change");
            }
            assert(line@ =~= constructed_line(*built));
            line
        },
    }
}

fn reaches_with_html(reached: &Vec<ProbeEvent>) -> (b: bool)
    ensures
        b == exists|k: int| 0 <= k < reached@.len() && is_paste(#[trigger] reached@[k]) && carries_spec(
            reached@[k],
            HTML@,
        ),
{
    let mut i: usize = 0;
    while i < reached.len()
        invariant
            i <= reached@.len(),
            forall|k: int| 0 <= k < i ==> !(is_paste(#[trigger] reached@[k]) && carries_spec(reached@[k], HTML@)),
        decreases reached.len() - i,
    {
        if kind_is(&reached[i], "paste") && carries(&reached[i], HTML) {
            assert(is_paste(reached@[i as int]) && carries_spec(reached@[i as int], HTML@));
            return true;
        }
        i = i + 1;
    }
    false
}

fn head_lines(observation: &Observation) -> (lines: Vec<String>)
    ensures
        string_views(lines@) == head_spec(*observation),
{
    let mut lines: Vec<String> = Vec::new();
    lines.push(helper_text(&observation.helper));
    lines.push(events_line("Q1 real Ctrl+V, events seen: ", &observation.ctrl_v));
    lines.push(paste_text("Q1", &observation.ctrl_v));
    lines.push(events_line("Q2 real Ctrl+Shift+V, events seen: ", &observation.chord));
    lines.push(paste_text("Q2", &observation.chord));
    assert(string_views(lines@) =~= head_spec(*observation));
    lines
}

fn push_constructed_lines(lines: &mut Vec<String>, built: &Constructed)
    ensures
        string_views(final(lines)@) == string_views(old(lines)@) + seq![constructed_line(*built)]
            + listener_lines(*built),
{
    let ghost start = lines@;
    lines.push(constructed_text(built));
    let ghost before_listener = lines@;
    assert(string_views(before_listener) =~= string_views(start) + seq![constructed_line(*built)]);
    match paste_event_in(&built.reached) {
        Some(event) => {
            let mut line = String::new();
            push_str(&mut line, "Q3 what the listener read from it: ");
            let d = describe_paste(event);
            push_str(&mut line, d.as_str());
            lines.push(line);
        },
        None => {},
    }
    assert(string_views(lines@) =~= string_views(before_listener) + listener_lines(*built));
}

fn push_verdicts(lines: &mut Vec<String>, observation: &Observation)
    ensures
        string_views(final(lines)@) == string_views(old(lines)@) + verdicts_spec(*observation),
{
    let ctrl_v = &observation.ctrl_v;
    let chord = &observation.chord;
    let q1 = match paste_event(ctrl_v) {
        Some(event) => has_both(event),
        None => false,
    };
    let q3_reaches = reaches_with_html(&observation.constructed.reached);
    let ghost start = lines@;
    let mut v1 = String::new();
    push_str(&mut v1, "VERDICT 1: a real Ctrl+V reaches a paste listener with BOTH flavours: ");
    push_str(&mut v1, yes(q1));
    lines.push(v1);
    let mut v2 = String::new();
    push_str(&mut v2, "VERDICT 2: Ctrl+Shift+V dispatches a paste event at all: ");
    push_str(&mut v2, yes(paste_event(chord).is_some()));
    push_str(&mut v2, "; its keydown is visible: ");
    push_str(&mut v2, yes(chord_keydown(chord, true).is_some()));
    lines.push(v2);
    let mut v3 = String::new();
    push_str(&mut v3, "VERDICT 3: a constructed paste with text/html reaches a listener: ");
    push_str(&mut v3, yes(q3_reaches));
    if q1 {
        push_str(&mut v3, " (not needed: verdict 1 holds)");
    }
    proof {
        if !q1 {
            assert(v3@ =~= v3@ + Seq::<char>::empty());
        }
    }
    lines.push(v3);
    assert(string_views(lines@) =~= string_views(start) + verdicts_spec(*observation));
}

/// One line per question, then the verdict lines. Each verdict carries a
/// `YES` or a `NO`.
pub fn answers(observation: &Observation) -> (lines: Vec<String>)
    ensures
        string_views(lines@) == answers_spec(*observation),
{
    let mut lines = head_lines(observation);
    push_order_line(&mut lines, &observation.ctrl_v, false, "Ctrl+V");
    push_order_line(&mut lines, &observation.chord, true, "Ctrl+Shift+V");
    push_constructed_lines(&mut lines, &observation.constructed);
    push_verdicts(&mut lines, observation);
    lines
}

fn paste_event_in(events: &Vec<ProbeEvent>) -> (r: Option<&ProbeEvent>)
    ensures
        match first_paste_from(events@, 0) {
            Some(i) => r == Some(&events@[i]),
            None => r is None,
        },
{
    proof {
        lemma_first_paste(events@, 0);
    }
    match paste_index(events) {
        Some(i) => Some(&events[i]),
        None => None,
    }
}

/// The variable naming the clipboard owner script.
pub const CLIPBOARD_OWNER_ENV: &'static str = "BEKOEDIT_PASTE_PROBE_CLIPBOARD_OWNER";

/// What the clipboard owner puts on the clipboard, as a browser would: a
/// heading, a paragraph with bold, a list.
pub const HTML_FLAVOUR: &'static str = "<h1>Probe heading</h1><p>Some <b>bold</b> text.</p><ul><li>one</li><li>two</li></ul>";
pub const PLAIN_FLAVOUR: &'static str = "Probe heading\nSome bold text.\none\ntwo";

/// Where waiting for the clipboard owner stands after one look.
#[derive(Debug, Clone, Copy, PartialEq, Eq, Structural)]
pub enum OwnerStep {
    /// It wrote its ready file: it holds the selection.
    Ready,
    /// It exited before saying so.
    Exited,
    /// The deadline passed first.
    TimedOut,
    /// Look again after a moment.
    Wait,
}

/// The next step of the wait: once the deadline has passed the wait is
/// over; before it, a ready file wins, then an exit.
pub fn owner_step(ready_file: bool, exited: bool, deadline_passed: bool) -> (step: OwnerStep)
    ensures
        step == if deadline_passed {
            OwnerStep::TimedOut
        } else if ready_file {
            OwnerStep::Ready
        } else if exited {
            OwnerStep::Exited
        } else {
            OwnerStep::Wait
        },
{
    if deadline_passed {
        OwnerStep::TimedOut
    } else if ready_file {
        OwnerStep::Ready
    } else if exited {
        OwnerStep::Exited
    } else {
        OwnerStep::Wait
    }
}

/// A helper that holds the selection.
pub fn helper_ready() -> (h: Helper)
    ensures
        h.ready,
        h.note@ == Seq::<char>::empty(),
{
    let h = Helper { ready: true, note: String::new() };
    h
}

/// No helper was configured: said by the variable's name.
pub fn helper_not_configured() -> (h: Helper)
    ensures
        !h.ready,
        h.note@ == CLIPBOARD_OWNER_ENV@ + " is not set"@,
{
    let mut note = String::new();
    push_str(&mut note, CLIPBOARD_OWNER_ENV);
    push_str(&mut note, " is not set");
    Helper { ready: false, note }
}

/// The helper could not be started.
pub fn helper_not_started(error: &str) -> (h: Helper)
    ensures
        !h.ready,
        h.note@ == "could not start python3: "@ + error@,
{
    let mut note = String::new();
    push_str(&mut note, "could not start python3: ");
    push_str(&mut note, error);
    Helper { ready: false, note }
}

fn push_trimmed(out: &mut String, text: &str)
    ensures
        final(out)@ == old(out)@ + trim_end_of(trim_start_spec(text@)),
{
    let chars = crate::text::chars_of(text);
    let t = trim_both(&chars);
    crate::text::push_chars(out, &t);
}

/// The helper exited before it was ready: its status and what it said.
pub fn helper_exited(status: &str, stderr: &str) -> (h: Helper)
    ensures
        !h.ready,
        h.note@ == "the helper exited with "@ + status@ + "; stderr: "@ + trim_end_of(trim_start_spec(stderr@)),
{
    let mut note = String::new();
    push_str(&mut note, "the helper exited with ");
    push_str(&mut note, status);
    push_str(&mut note, "; stderr: ");
    push_trimmed(&mut note, stderr);
    Helper { ready: false, note }
}

/// The helper did not say it was ready within `waited`.
pub fn helper_not_ready(waited: &str, stderr: &str) -> (h: Helper)
    ensures
        !h.ready,
        h.note@ == "not ready within "@ + waited@ + "; stderr: "@ + trim_end_of(trim_start_spec(stderr@)),
{
    let mut note = String::new();
    push_str(&mut note, "not ready within ");
    push_str(&mut note, waited);
    push_str(&mut note, "; stderr: ");
    push_trimmed(&mut note, stderr);
    Helper { ready: false, note }
}

} // verus!
