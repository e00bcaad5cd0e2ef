//! The byte comparisons of the save and mode-switch scenarios, taken against
//! the seeded original: never through the editor or the parser.

use vstd::prelude::*;
use vstd::utf8::{decode_utf8, valid_utf8};
use crate::fmt::{debug_text, decimal, hex_byte, push_debug, push_decimal, push_hex_byte};
use crate::text::push_str;

verus! {

/// `needle` occurs in `haystack` at `p`.
pub open spec fn occurs_at(haystack: Seq<u8>, needle: Seq<u8>, p: int) -> bool {
    0 <= p && p + needle.len() <= haystack.len() && haystack.subrange(p, p + needle.len())
        == needle
}

/// The first position from `p` on where `needle` occurs, if any.
pub open spec fn find_from(haystack: Seq<u8>, needle: Seq<u8>, p: int) -> Option<int>
    decreases haystack.len() + 1 - p,
{
    if p < 0 || p + needle.len() > haystack.len() {
        None
    } else if occurs_at(haystack, needle, p) {
        Some(p)
    } else {
        find_from(haystack, needle, p + 1)
    }
}

/// The first position where `needle` occurs, if any.
pub open spec fn first_occurrence(haystack: Seq<u8>, needle: Seq<u8>) -> Option<int> {
    find_from(haystack, needle, 0)
}

/// The byte at `i`, or nothing past the end.
pub open spec fn byte_at(bytes: Seq<u8>, i: int) -> Option<u8> {
    if 0 <= i < bytes.len() {
        Some(bytes[i])
    } else {
        None
    }
}

pub open spec fn longer_len(a: Seq<u8>, b: Seq<u8>) -> int {
    if a.len() >= b.len() {
        a.len() as int
    } else {
        b.len() as int
    }
}

/// The first offset from `i` on where `a` and `b` differ, counting the end
/// of the shorter one as a difference.
pub open spec fn difference_from(a: Seq<u8>, b: Seq<u8>, i: int) -> Option<int>
    decreases longer_len(a, b) - i,
{
    if i < 0 || i >= longer_len(a, b) {
        None
    } else if byte_at(a, i) != byte_at(b, i) {
        Some(i)
    } else {
        difference_from(a, b, i + 1)
    }
}

/// The first offset where `a` and `b` differ, if they do.
pub open spec fn first_difference(a: Seq<u8>, b: Seq<u8>) -> Option<int> {
    difference_from(a, b, 0)
}

/// The byte at `offset` in report form: `0x..`, or `end of file`.
pub open spec fn show_byte(bytes: Seq<u8>, offset: int) -> Seq<char> {
    if 0 <= offset < bytes.len() {
        hex_byte(bytes[offset])
    } else {
        "end of file"@
    }
}

/// `original` with `marker` inserted at `at`.
pub open spec fn inserted(original: Seq<u8>, at: int, marker: Seq<u8>) -> Seq<u8> {
    original.take(at) + marker + original.skip(at)
}

/// What `String::from_utf8_lossy` makes of `bytes`.
pub uninterp spec fn lossy_utf8(bytes: Seq<u8>) -> Seq<char>;

/// `String::from_utf8_lossy`: the text of `bytes`, each invalid sequence
/// replaced by U+FFFD; valid UTF-8 decodes as itself.
#[verifier::external_body]
fn lossy_text(bytes: &[u8]) -> (text: String)
    ensures
        text@ == lossy_utf8(bytes@),
        valid_utf8(bytes@) ==> text@ == decode_utf8(bytes@),
{
    String::from_utf8_lossy(bytes).into_owned()
}

/// The judgement of a saved file: the original with the typed `marker`
/// inserted once, and nothing else changed.
pub open spec fn saved_bytes_spec(
    scenario: Seq<char>,
    original: Seq<u8>,
    saved: Seq<u8>,
    marker: Seq<u8>,
) -> Result<int, Seq<char>> {
    if first_occurrence(original, marker) is Some {
        Err(scenario + ": the seeded file already contains the marker"@)
    } else {
        match first_occurrence(saved, marker) {
            None => Err(scenario + ": the typed marker "@ + debug_text(lossy_utf8(marker))
                + " is not in the saved file ("@ + decimal(saved.len()) + " bytes, original "@
                + decimal(original.len()) + ")"@),
            Some(at) => if at > original.len() {
                Err(scenario + ": the marker is at byte "@ + decimal(at as nat) + ", past the original's "@
                    + decimal(original.len()) + " bytes"@)
            } else if 0 < at < original.len() && original[at - 1] == 13 && original[at] == 10 {
                Err(scenario + ": the edit landed inside a CRLF pair at byte "@ + decimal(at as nat))
            } else {
                let expected = inserted(original, at, marker);
                match first_difference(expected, saved) {
                    Some(offset) => Err(scenario + ": first differing byte offset "@ + decimal(
                        offset as nat,
                    ) + ": expected "@ + show_byte(expected, offset) + ", saved "@ + show_byte(
                        saved,
                        offset,
                    ) + " (expected "@ + decimal(expected.len()) + " bytes, saved "@ + decimal(
                        saved.len(),
                    ) + "; the edit itself was at byte "@ + decimal(at as nat) + ")"@),
                    None => Ok(at),
                }
            },
        }
    }
}

/// The judgement of a file that must not have changed.
pub open spec fn unchanged_spec(scenario: Seq<char>, original: Seq<u8>, saved: Seq<u8>) -> Result<
    (),
    Seq<char>,
> {
    match first_difference(original, saved) {
        None => Ok(()),
        Some(offset) => Err(scenario + ": the file changed with no edit: first differing byte offset "@
            + decimal(offset as nat) + ": original "@ + show_byte(original, offset) + ", on disk "@
            + show_byte(saved, offset) + " (original "@ + decimal(original.len()) + " bytes, on disk "@
            + decimal(saved.len()) + ")"@),
    }
}

proof fn lemma_find_from_bounds(haystack: Seq<u8>, needle: Seq<u8>, p: int)
    requires
        0 <= p,
    ensures
        find_from(haystack, needle, p) matches Some(q) ==> p <= q && occurs_at(haystack, needle, q),
    decreases haystack.len() + 1 - p,
{
    if p + needle.len() <= haystack.len() && !occurs_at(haystack, needle, p) {
        lemma_find_from_bounds(haystack, needle, p + 1);
    }
}

/// Two byte strings with no first difference are equal.
proof fn lemma_no_difference(a: Seq<u8>, b: Seq<u8>, i: int)
    requires
        0 <= i <= longer_len(a, b),
        difference_from(a, b, i) is None,
        forall|j: int| 0 <= j < i ==> byte_at(a, j) == byte_at(b, j),
    ensures
        a == b,
    decreases longer_len(a, b) - i,
{
    if i < longer_len(a, b) {
        lemma_no_difference(a, b, i + 1);
    } else {
        assert(a.len() == b.len()) by {
            if a.len() != b.len() {
                let j = if a.len() < b.len() { a.len() as int } else { b.len() as int };
                assert(byte_at(a, j) != byte_at(b, j));
            }
        }
        assert forall|j: int| 0 <= j < a.len() implies a[j] == b[j] by {
            assert(byte_at(a, j) == byte_at(b, j));
        }
        assert(a =~= b);
    }
}

/// A first difference is one.
proof fn lemma_difference_found(a: Seq<u8>, b: Seq<u8>, i: int)
    requires
        0 <= i,
    ensures
        difference_from(a, b, i) matches Some(d) ==> i <= d < longer_len(a, b) && byte_at(a, d)
            != byte_at(b, d),
    decreases longer_len(a, b) - i,
{
    if i < longer_len(a, b) && byte_at(a, i) == byte_at(b, i) {
        lemma_difference_found(a, b, i + 1);
    }
}

fn occurs_here(haystack: &[u8], needle: &[u8], p: usize) -> (b: bool)
    requires
        p + needle@.len() <= haystack@.len(),
    ensures
        b == occurs_at(haystack@, needle@, p as int),
{
    let hl = haystack.len();
    let mut k: usize = 0;
    while k < needle.len()
        invariant
            hl == haystack@.len(),
            p + needle@.len() <= haystack@.len(),
            k <= needle@.len(),
            forall|j: int| 0 <= j < k ==> haystack@[p + j] == needle@[j],
        decreases needle.len() - k,
    {
        if haystack[p + k] != needle[k] {
            assert(haystack@.subrange(p as int, p + needle@.len())[k as int] != needle@[k as int]);
            return false;
        }
        k = k + 1;
    }
    assert(haystack@.subrange(p as int, p + needle@.len()) =~= needle@);
    true
}

/// The first position where `needle` occurs in `haystack`.
pub fn find(haystack: &[u8], needle: &[u8]) -> (r: Option<usize>)
    requires
        needle@.len() > 0,
    ensures
        match first_occurrence(haystack@, needle@) {
            Some(p) => r == Some(p as usize),
            None => r is None,
        },
{
    let mut p: usize = 0;
    if needle.len() > haystack.len() {
        return None;
    }
    let hl = haystack.len();
    let last = hl - needle.len();
    while p <= last
        invariant
            last + needle@.len() == haystack@.len(),
            last < hl,
            needle@.len() > 0,
            p <= last + 1,
            find_from(haystack@, needle@, 0) == find_from(haystack@, needle@, p as int),
        decreases last + 1 - p,
    {
        if occurs_here(haystack, needle, p) {
            return Some(p);
        }
        p = p + 1;
    }
    None
}

/// `a` and `b`'s first differing offset.
fn difference(a: &[u8], b: &[u8]) -> (r: Option<usize>)
    ensures
        match first_difference(a@, b@) {
            Some(d) => r == Some(d as usize),
            None => r is None,
        },
{
    let n = if a.len() >= b.len() {
        a.len()
    } else {
        b.len()
    };
    let mut i: usize = 0;
    while i < n
        invariant
            n == longer_len(a@, b@),
            i <= n,
            difference_from(a@, b@, 0) == difference_from(a@, b@, i as int),
        decreases n - i,
    {
        let same = if i < a.len() && i < b.len() {
            a[i] == b[i]
        } else {
            false
        };
        if !same {
            return Some(i);
        }
        i = i + 1;
    }
    None
}

fn push_show_byte(out: &mut String, bytes: &[u8], offset: usize)
    ensures
        final(out)@ == old(out)@ + show_byte(bytes@, offset as int),
{
    if offset < bytes.len() {
        push_hex_byte(out, bytes[offset]);
    } else {
        push_str(out, "end of file");
    }
}

fn inserted_bytes(original: &[u8], at: usize, marker: &[u8]) -> (v: Vec<u8>)
    requires
        at <= original@.len(),
    ensures
        v@ == inserted(original@, at as int, marker@),
{
    let mut v: Vec<u8> = Vec::new();
    let mut i: usize = 0;
    while i < at
        invariant
            at <= original@.len(),
            i <= at,
            v@ == original@.take(i as int),
        decreases at - i,
    {
        v.push(original[i]);
        i = i + 1;
        assert(v@ =~= original@.take(i as int));
    }
    let mut j: usize = 0;
    while j < marker.len()
        invariant
            j <= marker@.len(),
            v@ == original@.take(at as int) + marker@.take(j as int),
        decreases marker.len() - j,
    {
        v.push(marker[j]);
        j = j + 1;
        assert(v@ =~= original@.take(at as int) + marker@.take(j as int));
    }
    assert(marker@.take(marker@.len() as int) =~= marker@);
    let mut k: usize = at;
    while k < original.len()
        invariant
            at <= k <= original@.len(),
            v@ == original@.take(at as int) + marker@ + original@.subrange(at as int, k as int),
        decreases original.len() - k,
    {
        v.push(original[k]);
        k = k + 1;
        assert(v@ =~= original@.take(at as int) + marker@ + original@.subrange(at as int, k as int));
    }
    assert(original@.subrange(at as int, original@.len() as int) =~= original@.skip(at as int));
    v
}

/// The saved file must be the original with the typed `marker` inserted,
/// and nothing else changed: every other byte identical, no line ending
/// normalised. Returns the offset the edit landed at.
///
/// The insertion point is found from the marker in the saved bytes, so the
/// check does not assume where the caret was; it only requires that the edit
/// is one insertion, not inside a CRLF pair, and that the rest is untouched.
pub fn check_saved_bytes(scenario: &str, original: &[u8], saved: &[u8], marker: &[u8]) -> (r:
    Result<usize, String>)
    requires
        marker@.len() > 0,
    ensures
        match saved_bytes_spec(scenario@, original@, saved@, marker@) {
            Ok(at) => r == Ok::<usize, String>(at as usize),
            Err(m) => r matches Err(e) && e@ == m,
        },
        r matches Ok(at) ==> saved@ == inserted(original@, at as int, marker@) && first_occurrence(
            original@,
            marker@,
        ) is None,
{
    let original_len = original.len();
    let saved_len = saved.len();
    let mut m = String::new();
    push_str(&mut m, scenario);
    if find(original, marker).is_some() {
        push_str(&mut m, ": the seeded file already contains the marker");
        return Err(m);
    }
    let found = find(saved, marker);
    let at = match found {
        None => {
            push_str(&mut m, ": the typed marker ");
            let text = lossy_text(marker);
            push_debug(&mut m, text.as_str());
            push_str(&mut m, " is not in the saved file (");
            push_decimal(&mut m, saved.len() as u64);
            push_str(&mut m, " bytes, original ");
            push_decimal(&mut m, original.len() as u64);
            push_str(&mut m, ")");
            assert(m@ =~= scenario@ + ": the typed marker "@ + debug_text(lossy_utf8(marker@))
                + " is not in the saved file ("@ + decimal(saved@.len()) + " bytes, original "@
                + decimal(original@.len()) + ")"@);
            return Err(m);
        },
        Some(at) => at,
    };
    proof {
        lemma_find_from_bounds(saved@, marker@, 0);
    }
    if at > original.len() {
        push_str(&mut m, ": the marker is at byte ");
        push_decimal(&mut m, at as u64);
        push_str(&mut m, ", past the original's ");
        push_decimal(&mut m, original.len() as u64);
        push_str(&mut m, " bytes");
        assert(m@ =~= scenario@ + ": the marker is at byte "@ + decimal(at as nat) + ", past the original's "@
            + decimal(original@.len()) + " bytes"@);
        return Err(m);
    }
    if at > 0 && at < original.len() && original[at - 1] == 13u8 && original[at] == 10u8 {
        push_str(&mut m, ": the edit landed inside a CRLF pair at byte ");
        push_decimal(&mut m, at as u64);
        assert(m@ =~= scenario@ + ": the edit landed inside a CRLF pair at byte "@ + decimal(at as nat));
        return Err(m);
    }
    let expected = inserted_bytes(original, at, marker);
    proof {
        lemma_difference_found(expected@, saved@, 0);
    }
    match difference(expected.as_slice(), saved) {
        Some(offset) => {
            push_str(&mut m, ": first differing byte offset ");
            push_decimal(&mut m, offset as u64);
            push_str(&mut m, ": expected ");
            push_show_byte(&mut m, expected.as_slice(), offset);
            push_str(&mut m, ", saved ");
            push_show_byte(&mut m, saved, offset);
            push_str(&mut m, " (expected ");
            push_decimal(&mut m, expected.len() as u64);
            push_str(&mut m, " bytes, saved ");
            push_decimal(&mut m, saved.len() as u64);
            push_str(&mut m, "; the edit itself was at byte ");
            push_decimal(&mut m, at as u64);
            push_str(&mut m, ")");
            let ghost ex = inserted(original@, at as int, marker@);
            assert(m@ =~= scenario@ + ": first differing byte offset "@ + decimal(offset as nat)
                + ": expected "@ + show_byte(ex, offset as int) + ", saved "@ + show_byte(
                saved@,
                offset as int,
            ) + " (expected "@ + decimal(ex.len()) + " bytes, saved "@ + decimal(saved@.len())
                + "; the edit itself was at byte "@ + decimal(at as nat) + ")"@);
            Err(m)
        },
        None => {
            proof {
                lemma_no_difference(expected@, saved@, 0);
            }
            Ok(at)
        },
    }
}

/// The file must be byte for byte the seeded original (a mode switch with
/// no edit must not write anything). Names the first differing byte offset.
pub fn check_bytes_unchanged(scenario: &str, original: &[u8], saved: &[u8]) -> (r: Result<
    (),
    String,
>)
    ensures
        match unchanged_spec(scenario@, original@, saved@) {
            Ok(u) => r == Ok::<(), String>(u),
            Err(m) => r matches Err(e) && e@ == m,
        },
        r is Ok <==> original@ == saved@,
{
    proof {
        lemma_difference_found(original@, saved@, 0);
        if first_difference(original@, saved@) is None {
            lemma_no_difference(original@, saved@, 0);
        }
    }
    match difference(original, saved) {
        None => Ok(()),
        Some(offset) => {
            let mut m = String::new();
            push_str(&mut m, scenario);
            push_str(&mut m, ": the file changed with no edit: first differing byte offset ");
            push_decimal(&mut m, offset as u64);
            push_str(&mut m, ": original ");
            push_show_byte(&mut m, original, offset);
            push_str(&mut m, ", on disk ");
            push_show_byte(&mut m, saved, offset);
            push_str(&mut m, " (original ");
            push_decimal(&mut m, original.len() as u64);
            push_str(&mut m, " bytes, on disk ");
            push_decimal(&mut m, saved.len() as u64);
            push_str(&mut m, ")");
            assert(m@ =~= scenario@ + ": the file changed with no edit: first differing byte offset "@
                + decimal(offset as nat) + ": original "@ + show_byte(original@, offset as int)
                + ", on disk "@ + show_byte(saved@, offset as int) + " (original "@ + decimal(
                original@.len(),
            ) + " bytes, on disk "@ + decimal(saved@.len()) + ")"@);
            Err(m)
        },
    }
}

/// A correct save passes: when the original does not hold the marker and
/// the saved file is the original with the marker inserted once at `at`,
/// not between a `\r` and its `\n`, where the marker is first found, the
/// check answers `Ok(at)`.
pub proof fn lemma_correct_save_passes(scenario: Seq<char>, original: Seq<u8>, at: int, marker: Seq<u8>)
    requires
        first_occurrence(original, marker) is None,
        0 <= at <= original.len(),
        !(0 < at < original.len() && original[at - 1] == 13 && original[at] == 10),
        first_occurrence(inserted(original, at, marker), marker) == Some(at),
    ensures
        saved_bytes_spec(scenario, original, inserted(original, at, marker), marker) == Ok::<
            int,
            Seq<char>,
        >(at),
{
    let e = inserted(original, at, marker);
    lemma_difference_found(e, e, 0);
}

/// An edit between a `\r` and its `\n` is always refused, whatever else
/// the saved file holds.
pub proof fn lemma_edit_inside_crlf_refused(scenario: Seq<char>, original: Seq<u8>, saved: Seq<u8>, marker: Seq<u8>, at: int)
    requires
        first_occurrence(saved, marker) == Some(at),
        0 < at < original.len(),
        original[at - 1] == 13,
        original[at] == 10,
    ensures
        saved_bytes_spec(scenario, original, saved, marker) is Err,
{
}

} // verus!
