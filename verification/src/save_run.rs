//! The save scenario's decisions: after the real Ctrl+S, the file on disk is
//! read until it differs from the seeded original, within the step deadline;
//! once it has settled, its bytes are judged (`check_saved_bytes`), and a
//! pass is reported in two lines.

use vstd::prelude::*;
use crate::fmt::{decimal, push_decimal};
use crate::text::push_str;
use crate::wait::STEP_DEADLINE_MS;

verus! {

/// The save scenario's name, as its failures give it.
pub const SAVE_CHECK: &'static str = "save_preserves_bytes";

/// What to do after reading the file back.
#[derive(Debug, Clone, PartialEq, Eq)]
pub enum SavedFileStep {
    /// The file differs from the original: wait for it to settle, then judge.
    Changed,
    /// Still the original: read again after the pause.
    Again,
    /// The deadline passed with the file unchanged; the failure message.
    NeverChanged(String),
}

/// The failure of a save that never reached the disk.
pub open spec fn never_changed_text(saved_len: nat) -> Seq<char> {
    SAVE_CHECK@ + ": the file on disk never changed after Ctrl+S (still the original "@ + decimal(
        saved_len,
    ) + " bytes)"@
}

fn bytes_equal(a: &[u8], b: &[u8]) -> (eq: bool)
    ensures
        eq == (a@ == b@),
{
    if a.len() != b.len() {
        return false;
    }
    let mut i: usize = 0;
    while i < a.len()
        invariant
            a@.len() == b@.len(),
            i <= a@.len(),
            forall|k: int| 0 <= k < i ==> a@[k] == b@[k],
        decreases a.len() - i,
    {
        if a[i] != b[i] {
            return false;
        }
        i = i + 1;
    }
    assert(a@ =~= b@);
    true
}

/// After reading the file back `elapsed_ms` after Ctrl+S: changed once its
/// bytes differ from the original; otherwise read again until the step
/// deadline, then fail naming the file's size.
pub fn saved_file_step(original: &[u8], saved: &[u8], elapsed_ms: u64) -> (step: SavedFileStep)
    ensures
        saved@ != original@ ==> step == SavedFileStep::Changed,
        saved@ == original@ && elapsed_ms < STEP_DEADLINE_MS ==> step == SavedFileStep::Again,
        saved@ == original@ && elapsed_ms >= STEP_DEADLINE_MS ==> (step matches SavedFileStep::NeverChanged(
            m,
        ) && m@ == never_changed_text(saved@.len())),
{
    if !bytes_equal(saved, original) {
        return SavedFileStep::Changed;
    }
    if elapsed_ms < STEP_DEADLINE_MS {
        return SavedFileStep::Again;
    }
    let mut m = String::new();
    push_str(&mut m, SAVE_CHECK);
    push_str(&mut m, ": the file on disk never changed after Ctrl+S (still the original ");
    push_decimal(&mut m, saved.len() as u64);
    push_str(&mut m, " bytes)");
    SavedFileStep::NeverChanged(m)
}

/// The two lines a passed save scenario reports.
pub open spec fn save_pass_spec(at: nat, original_len: nat) -> Seq<Seq<char>> {
    seq![
        "one edit at byte "@ + decimal(at) + ", saved through the app; the other "@ + decimal(
            original_len,
        ) + " bytes are identical"@,
        "no line ending was normalized"@,
    ]
}

/// The report of a passed save scenario: where the one edit landed, and
/// that every other byte of the original is unchanged.
pub fn save_pass_lines(at: usize, original_len: usize) -> (lines: Vec<String>)
    ensures
        lines@.len() == 2,
        lines@[0]@ == save_pass_spec(at as nat, original_len as nat)[0],
        lines@[1]@ == save_pass_spec(at as nat, original_len as nat)[1],
{
    let mut first = String::new();
    push_str(&mut first, "one edit at byte ");
    push_decimal(&mut first, at as u64);
    push_str(&mut first, ", saved through the app; the other ");
    push_decimal(&mut first, original_len as u64);
    push_str(&mut first, " bytes are identical");
    let mut lines: Vec<String> = Vec::new();
    lines.push(first);
    lines.push("no line ending was normalized".to_owned());
    lines
}

} // verus!
