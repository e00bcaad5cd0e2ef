//! The app's notices, as the release harness observes them.

use vstd::prelude::*;
use crate::fmt::string_views;
use crate::text::push_str;

verus! {

/// The kind of a notice (a toast).
#[derive(Debug, Clone, Copy, PartialEq, Eq, Structural)]
pub enum ToastKind {
    Info,
    Warning,
    Error,
}

/// The kind's name, as `Debug` prints it.
pub open spec fn kind_name(kind: ToastKind) -> Seq<char> {
    match kind {
        ToastKind::Info => "Info"@,
        ToastKind::Warning => "Warning"@,
        ToastKind::Error => "Error"@,
    }
}

/// Appends the kind's name.
pub fn push_kind(out: &mut String, kind: ToastKind)
    ensures
        final(out)@ == old(out)@ + kind_name(kind),
{
    match kind {
        ToastKind::Info => push_str(out, "Info"),
        ToastKind::Warning => push_str(out, "Warning"),
        ToastKind::Error => push_str(out, "Error"),
    }
}

/// A shown notice as one line: `Kind: message`.
pub open spec fn toast_line(toast: (ToastKind, String)) -> Seq<char> {
    kind_name(toast.0) + ": "@ + toast.1@
}

/// Each shown notice as one line.
pub open spec fn toast_lines(toasts: Seq<(ToastKind, String)>) -> Seq<Seq<char>> {
    toasts.map_values(|t: (ToastKind, String)| toast_line(t))
}

/// Each shown notice as one line.
pub fn shown_toasts(toasts: &Vec<(ToastKind, String)>) -> (lines: Vec<String>)
    ensures
        string_views(lines@) == toast_lines(toasts@),
{
    let mut lines: Vec<String> = Vec::new();
    let mut i: usize = 0;
    while i < toasts.len()
        invariant
            i <= toasts@.len(),
            lines@.len() == i,
            forall|k: int| 0 <= k < i ==> #[trigger] lines@[k]@ == toast_line(toasts@[k]),
        decreases toasts.len() - i,
    {
        let mut line = String::new();
        push_kind(&mut line, toasts[i].0);
        push_str(&mut line, ": ");
        push_str(&mut line, toasts[i].1.as_str());
        assert(line@ =~= toast_line(toasts@[i as int]));
        lines.push(line);
        i = i + 1;
    }
    assert(string_views(lines@) =~= toast_lines(toasts@));
    lines
}

} // verus!
