//! Reconciling the source editor's text with the session's canonical text.
//!
//! The editor speaks **editor form**: every line break is `\n`, exactly as
//! CodeMirror's `doc.toString()` returns it, whatever the file contains. The
//! session keeps **canonical form**: the file's own bytes.
//!
//! - **Rule 0.** Text equal to the editor form of the canonical text changes
//!   nothing.
//! - **Rule 1, uniform files** (only `\n`, or only `\r\n`, and no lone `\r`):
//!   the new canonical text is the incoming text with every `\n` replaced by
//!   the file's ending.
//! - **Rule 2, mixed files or any lone `\r`:** a minimal splice. The common
//!   prefix and suffix of the two editor forms are found, both boundaries are
//!   mapped back to canonical offsets through the line-break map (a boundary
//!   never splits a `\r\n`), and only that range is replaced. Line breaks
//!   inside the inserted text take the ending of the canonical break that
//!   ends the line where the splice starts, else the break before it (the
//!   last line), else `\n`.
//!
//! Everything here computes on the text's characters; the line-break
//! characters are all one byte long, so a character offset and a byte
//! offset name the same place.

use vstd::prelude::*;
use vstd::utf8::{char_is_scalar, encode_scalar, encode_utf8};
use crate::text::{chars_of, push_char, string_of};

verus! {

// ---------------------------------------------------------------------------
// Editor form
// ---------------------------------------------------------------------------

/// A `\r\n` pair starts at index `i` of `s`.
pub open spec fn is_crlf_at(s: Seq<char>, i: int) -> bool {
    0 <= i && i + 1 < s.len() && s[i] == '\r' && s[i + 1] == '\n'
}

/// The editor form of `s`: every `\r\n`, then every lone `\r`, becomes `\n`.
pub open spec fn editor_form_spec(s: Seq<char>) -> Seq<char>
    decreases s.len(),
{
    if s.len() == 0 {
        Seq::empty()
    } else if is_crlf_at(s, 0) {
        seq!['\n'] + editor_form_spec(s.skip(2))
    } else if s[0] == '\r' {
        seq!['\n'] + editor_form_spec(s.skip(1))
    } else {
        seq![s[0]] + editor_form_spec(s.skip(1))
    }
}

/// The editor form of a character vector.
fn editor_form_chars(s: &Vec<char>) -> (out: Vec<char>)
    ensures
        out@ == editor_form_spec(s@),
{
    let mut out: Vec<char> = Vec::new();
    let n = s.len();
    let mut i: usize = 0;
    assert(s@.skip(0) =~= s@);
    assert(out@ + editor_form_spec(s@) =~= editor_form_spec(s@));
    while i < n
        invariant
            n == s@.len(),
            i <= n,
            out@ + editor_form_spec(s@.skip(i as int)) == editor_form_spec(s@),
        decreases n - i,
    {
        let ghost rest = s@.skip(i as int);
        assert(rest[0] == s@[i as int]);
        if s[i] == '\r' && i + 1 < n && s[i + 1] == '\n' {
            assert(is_crlf_at(rest, 0));
            assert(rest.skip(2) =~= s@.skip(i + 2));
            out.push('\n');
            i = i + 2;
        } else {
            assert(!is_crlf_at(rest, 0));
            assert(rest.skip(1) =~= s@.skip(i + 1));
            if s[i] == '\r' {
                out.push('\n');
            } else {
                out.push(s[i]);
            }
            i = i + 1;
        }
        assert(out@ + editor_form_spec(s@.skip(i as int)) =~= editor_form_spec(s@));
    }
    assert(s@.skip(n as int) =~= Seq::<char>::empty());
    assert(out@ + Seq::<char>::empty() =~= out@);
    out
}

/// The editor form of `text`: every `\r\n`, then every lone `\r`, becomes
/// `\n` -- exactly what CodeMirror does when it splits a document into lines.
pub fn editor_form(text: &str) -> (out: String)
    ensures
        out@ == editor_form_spec(text@),
{
    let chars = chars_of(text);
    let form = editor_form_chars(&chars);
    string_of(&form)
}


// ---------------------------------------------------------------------------
// The line-break map
// ---------------------------------------------------------------------------

/// One line break in canonical text.
#[derive(Debug, Clone, Copy)]
pub struct Break {
    /// Its offset in canonical text.
    pub at: usize,
    /// Its length there: 2 for `\r\n`, else 1.
    pub len: usize,
    /// Its offset in the editor form.
    pub editor_at: usize,
}

/// The line breaks of `s` from index `i` on, when `shift` `\r\n` pairs lie
/// wholly before `i`.
pub open spec fn breaks_from(s: Seq<char>, i: int, shift: int) -> Seq<Break>
    decreases s.len() - i,
{
    if i < 0 || i >= s.len() {
        Seq::empty()
    } else if is_crlf_at(s, i) {
        seq![Break { at: i as usize, len: 2, editor_at: (i - shift) as usize }] + breaks_from(
            s,
            i + 2,
            shift + 1,
        )
    } else if s[i] == '\r' || s[i] == '\n' {
        seq![Break { at: i as usize, len: 1, editor_at: (i - shift) as usize }] + breaks_from(
            s,
            i + 1,
            shift,
        )
    } else {
        breaks_from(s, i + 1, shift)
    }
}

/// Every line break of `s`, in order.
pub open spec fn breaks_spec(s: Seq<char>) -> Seq<Break> {
    breaks_from(s, 0, 0)
}

fn breaks(s: &Vec<char>) -> (out: Vec<Break>)
    ensures
        out@ == breaks_spec(s@),
{
    let mut out: Vec<Break> = Vec::new();
    let n = s.len();
    let mut shift: usize = 0;
    let mut i: usize = 0;
    assert(out@ + breaks_from(s@, 0, 0) =~= breaks_spec(s@));
    while i < n
        invariant
            n == s@.len(),
            shift <= i <= n,
            out@ + breaks_from(s@, i as int, shift as int) == breaks_spec(s@),
        decreases n - i,
    {
        if s[i] == '\r' && i + 1 < n && s[i + 1] == '\n' {
            out.push(Break { at: i, len: 2, editor_at: i - shift });
            shift = shift + 1;
            i = i + 2;
        } else if s[i] == '\r' || s[i] == '\n' {
            out.push(Break { at: i, len: 1, editor_at: i - shift });
            i = i + 1;
        } else {
            i = i + 1;
        }
        assert(out@ + breaks_from(s@, i as int, shift as int) =~= breaks_spec(s@));
    }
    assert(out@ + Seq::<Break>::empty() =~= out@);
    out
}

/// How many bytes beyond its editor offset the canonical offset of editor
/// offset `e` lies: one for every `\r\n` break wholly before it.
spec fn extra_before(bs: Seq<Break>, e: int) -> int
    decreases bs.len(),
{
    if bs.len() == 0 {
        0
    } else {
        (if bs[0].editor_at < e {
            bs[0].len - 1
        } else {
            0int
        }) + extra_before(bs.drop_first(), e)
    }
}

/// The canonical offset of editor offset `e` in `s`: walk the canonical
/// text, one editor character (a `\r\n` pair counts as one) at a time.
pub open spec fn canonical_pos(s: Seq<char>, e: int) -> int
    decreases s.len(),
{
    if e <= 0 {
        0
    } else if s.len() == 0 {
        e
    } else if is_crlf_at(s, 0) {
        2 + canonical_pos(s.skip(2), e - 1)
    } else {
        1 + canonical_pos(s.skip(1), e - 1)
    }
}

/// `b` is a genuine break of `s`, at or after canonical offset `at_lo` and
/// editor offset `editor_lo`.
spec fn break_ok(s: Seq<char>, b: Break, at_lo: int, editor_lo: int) -> bool {
    &&& b.editor_at >= editor_lo
    &&& at_lo <= b.at
    &&& b.at + b.len <= s.len()
    &&& (b.len == 2 && is_crlf_at(s, b.at as int)) || (b.len == 1 && (s[b.at as int] == '\r'
        || s[b.at as int] == '\n') && !is_crlf_at(s, b.at as int))
}

/// Every break found from `i` on is a genuine break at or after `i`, at or
/// after editor offset `i - shift`.
proof fn lemma_breaks_after(s: Seq<char>, i: int, shift: int)
    requires
        0 <= shift <= i,
        s.len() <= usize::MAX,
    ensures
        forall|j: int|
            0 <= j < breaks_from(s, i, shift).len() ==> break_ok(
                s,
                #[trigger] breaks_from(s, i, shift)[j],
                i,
                i - shift,
            ),
    decreases s.len() - i,
{
    let bs = breaks_from(s, i, shift);
    if i < 0 || i >= s.len() {
    } else if is_crlf_at(s, i) {
        lemma_breaks_after(s, i + 2, shift + 1);
        let rest = breaks_from(s, i + 2, shift + 1);
        assert forall|j: int| 0 <= j < bs.len() implies break_ok(s, #[trigger] bs[j], i, i - shift) by {
            if j > 0 {
                assert(bs[j] == rest[j - 1]);
                assert(break_ok(s, rest[j - 1], i + 2, i + 2 - (shift + 1)));
            }
        }
    } else if s[i] == '\r' || s[i] == '\n' {
        lemma_breaks_after(s, i + 1, shift);
        let rest = breaks_from(s, i + 1, shift);
        assert forall|j: int| 0 <= j < bs.len() implies break_ok(s, #[trigger] bs[j], i, i - shift) by {
            if j > 0 {
                assert(bs[j] == rest[j - 1]);
                assert(break_ok(s, rest[j - 1], i + 1, i + 1 - shift));
            }
        }
    } else {
        lemma_breaks_after(s, i + 1, shift);
        let rest = breaks_from(s, i + 1, shift);
        assert forall|j: int| 0 <= j < bs.len() implies break_ok(s, #[trigger] bs[j], i, i - shift) by {
            assert(break_ok(s, rest[j], i + 1, i + 1 - shift));
        }
    }
}

proof fn lemma_extra_none(bs: Seq<Break>, e: int)
    requires
        forall|j: int| 0 <= j < bs.len() ==> #[trigger] bs[j].editor_at >= e,
    ensures
        extra_before(bs, e) == 0,
    decreases bs.len(),
{
    if bs.len() > 0 {
        assert forall|j: int| 0 <= j < bs.drop_first().len() implies #[trigger] bs.drop_first()[j].editor_at
            >= e by {
            assert(bs.drop_first()[j] == bs[j + 1]);
        }
        lemma_extra_none(bs.drop_first(), e);
    }
}

/// The break map's offsets agree with the walk over the text.
proof fn lemma_offset_walk(s: Seq<char>, i: int, shift: int, e: int)
    requires
        0 <= shift <= i <= s.len(),
        s.len() <= usize::MAX,
        e >= i - shift,
    ensures
        e + shift + extra_before(breaks_from(s, i, shift), e) == i + canonical_pos(
            s.skip(i),
            e - (i - shift),
        ),
    decreases s.len() - i,
{
    let rest = s.skip(i);
    if i == s.len() {
        assert(breaks_from(s, i, shift) =~= Seq::<Break>::empty());
        assert(rest.len() == 0);
    } else if e == i - shift {
        lemma_breaks_after(s, i, shift);
        lemma_extra_none(breaks_from(s, i, shift), e);
    } else {
        assert(rest[0] == s[i]);
        if is_crlf_at(s, i) {
            assert(is_crlf_at(rest, 0));
            assert(rest.skip(2) =~= s.skip(i + 2));
            lemma_offset_walk(s, i + 2, shift + 1, e);
            let bs = breaks_from(s, i, shift);
            assert(bs.drop_first() =~= breaks_from(s, i + 2, shift + 1));
        } else {
            assert(!is_crlf_at(rest, 0));
            assert(rest.skip(1) =~= s.skip(i + 1));
            lemma_offset_walk(s, i + 1, shift, e);
            if s[i] == '\r' || s[i] == '\n' {
                let bs = breaks_from(s, i, shift);
                assert(bs.drop_first() =~= breaks_from(s, i + 1, shift));
            }
        }
    }
}

/// A canonical offset for an editor offset: every break wholly before it
/// contributes its extra bytes.
fn canonical_offset(breaks: &Vec<Break>, editor_offset: usize, Ghost(s): Ghost<Seq<char>>) -> (at: usize)
    requires
        breaks@ == breaks_spec(s),
        canonical_pos(s, editor_offset as int) <= s.len(),
        s.len() <= usize::MAX,
    ensures
        at == canonical_pos(s, editor_offset as int),
{
    proof {
        lemma_offset_walk(s, 0, 0, editor_offset as int);
        assert(s.skip(0) =~= s);
        lemma_breaks_after(s, 0, 0);
        lemma_extra_nonneg_prefix(breaks@, editor_offset as int);
        assert(breaks@.skip(0) =~= breaks@);
    }
    let mut extra: usize = 0;
    let mut j: usize = 0;
    while j < breaks.len()
        invariant
            j <= breaks@.len(),
            extra + extra_before(breaks@.skip(j as int), editor_offset as int) == extra_before(
                breaks@,
                editor_offset as int,
            ),
            editor_offset + extra_before(breaks@, editor_offset as int) <= s.len(),
            s.len() <= usize::MAX,
            forall|k: int| j <= k <= breaks@.len() ==> extra_before(#[trigger] breaks@.skip(k), editor_offset as int) >= 0,
            forall|k: int| 0 <= k < breaks@.len() ==> break_ok(s, #[trigger] breaks@[k], 0, 0),
        decreases breaks.len() - j,
    {
        let b = breaks[j];
        assert(break_ok(s, breaks@[j as int], 0, 0));
        assert(extra_before(breaks@.skip(j + 1), editor_offset as int) >= 0);
        assert(breaks@.skip(j as int).drop_first() =~= breaks@.skip(j + 1));
        assert(breaks@.skip(j as int)[0] == b);
        assert(extra_before(breaks@.skip(j as int), editor_offset as int) == (if b.editor_at
            < editor_offset {
            b.len - 1
        } else {
            0int
        }) + extra_before(breaks@.skip(j + 1), editor_offset as int));
        if b.editor_at < editor_offset {
            extra = extra + (b.len - 1);
        }
        j = j + 1;
    }
    editor_offset + extra
}

/// Every suffix of the break list contributes a non-negative extra.
proof fn lemma_extra_nonneg_prefix(bs: Seq<Break>, e: int)
    requires
        forall|j: int| 0 <= j < bs.len() ==> #[trigger] bs[j].len >= 1,
    ensures
        forall|k: int| 0 <= k <= bs.len() ==> extra_before(#[trigger] bs.skip(k), e) >= 0,
{
    assert forall|k: int| 0 <= k <= bs.len() implies extra_before(#[trigger] bs.skip(k), e) >= 0 by {
        lemma_extra_nonneg(bs.skip(k), e);
    }
}

proof fn lemma_extra_nonneg(bs: Seq<Break>, e: int)
    requires
        forall|j: int| 0 <= j < bs.len() ==> #[trigger] bs[j].len >= 1,
    ensures
        extra_before(bs, e) >= 0,
    decreases bs.len(),
{
    if bs.len() > 0 {
        assert forall|j: int| 0 <= j < bs.drop_first().len() implies #[trigger] bs.drop_first()[j].len >= 1 by {
            assert(bs.drop_first()[j] == bs[j + 1]);
        }
        lemma_extra_nonneg(bs.drop_first(), e);
    }
}


// ---------------------------------------------------------------------------
// Facts about the editor form
// ---------------------------------------------------------------------------

/// Joining `a` and `b` forms a `\r\n` that neither held: `a` ends with `\r`
/// and `b` starts with `\n`.
pub open spec fn seam(a: Seq<char>, b: Seq<char>) -> bool {
    a.len() > 0 && b.len() > 0 && a.last() == '\r' && b[0] == '\n'
}

/// The editor form of a join is the join of the editor forms, unless the
/// join forms a new `\r\n`.
pub proof fn lemma_editor_form_concat(a: Seq<char>, b: Seq<char>)
    requires
        !seam(a, b),
    ensures
        editor_form_spec(a + b) == editor_form_spec(a) + editor_form_spec(b),
    decreases a.len(),
{
    let ab = a + b;
    if a.len() == 0 {
        assert(ab =~= b);
        assert(editor_form_spec(a) =~= Seq::<char>::empty());
        assert(editor_form_spec(a) + editor_form_spec(b) =~= editor_form_spec(b));
    } else {
        assert(ab[0] == a[0]);
        if is_crlf_at(a, 0) {
            assert(ab[1] == a[1]);
            assert(is_crlf_at(ab, 0));
            assert(ab.skip(2) =~= a.skip(2) + b);
            if a.len() > 2 {
                assert(a.skip(2).last() == a.last());
            }
            lemma_editor_form_concat(a.skip(2), b);
            assert(editor_form_spec(ab) =~= editor_form_spec(a) + editor_form_spec(b));
        } else {
            if a.len() >= 2 {
                assert(ab[1] == a[1]);
            } else {
                assert(a.last() == a[0]);
            }
            assert(!is_crlf_at(ab, 0));
            assert(ab.skip(1) =~= a.skip(1) + b);
            if a.len() > 1 {
                assert(a.skip(1).last() == a.last());
            }
            lemma_editor_form_concat(a.skip(1), b);
            assert(editor_form_spec(ab) =~= editor_form_spec(a) + editor_form_spec(b));
        }
    }
}

/// The editor form holds no `\r`.
pub proof fn lemma_editor_form_no_cr(s: Seq<char>)
    ensures
        forall|i: int| 0 <= i < editor_form_spec(s).len() ==> #[trigger] editor_form_spec(s)[i]
            != '\r',
    decreases s.len(),
{
    if s.len() > 0 {
        if is_crlf_at(s, 0) {
            lemma_editor_form_no_cr(s.skip(2));
        } else {
            lemma_editor_form_no_cr(s.skip(1));
        }
        assert forall|i: int| 0 <= i < editor_form_spec(s).len() implies #[trigger] editor_form_spec(
            s,
        )[i] != '\r' by {
            if i > 0 {
                if is_crlf_at(s, 0) {
                    assert(editor_form_spec(s)[i] == editor_form_spec(s.skip(2))[i - 1]);
                } else {
                    assert(editor_form_spec(s)[i] == editor_form_spec(s.skip(1))[i - 1]);
                }
            }
        }
    }
}

/// Text without `\r` is its own editor form.
pub proof fn lemma_editor_form_identity(s: Seq<char>)
    requires
        forall|i: int| 0 <= i < s.len() ==> #[trigger] s[i] != '\r',
    ensures
        editor_form_spec(s) == s,
    decreases s.len(),
{
    if s.len() > 0 {
        assert(!is_crlf_at(s, 0));
        let t = s.skip(1);
        assert forall|i: int| 0 <= i < t.len() implies #[trigger] t[i] != '\r' by {
            assert(t[i] == s[i + 1]);
        }
        lemma_editor_form_identity(t);
        assert(editor_form_spec(s) =~= s);
    }
}

/// The editor form is idempotent.
pub proof fn lemma_editor_form_idempotent(s: Seq<char>)
    ensures
        editor_form_spec(editor_form_spec(s)) == editor_form_spec(s),
{
    lemma_editor_form_no_cr(s);
    lemma_editor_form_identity(editor_form_spec(s));
}

/// Mapping editor offset `e` to its canonical offset splits the text where
/// the editor form splits, and never between a `\r` and its `\n`.
pub proof fn lemma_canonical_pos(s: Seq<char>, e: int)
    requires
        0 <= e <= editor_form_spec(s).len(),
    ensures
        0 <= canonical_pos(s, e) <= s.len(),
        editor_form_spec(s.take(canonical_pos(s, e))) == editor_form_spec(s).take(e),
        editor_form_spec(s.skip(canonical_pos(s, e))) == editor_form_spec(s).skip(e),
        !seam(s.take(canonical_pos(s, e)), s.skip(canonical_pos(s, e))),
    decreases s.len(),
{
    let k = canonical_pos(s, e);
    if e == 0 {
        assert(s.take(0) =~= Seq::<char>::empty());
        assert(s.skip(0) =~= s);
        assert(editor_form_spec(s.take(0)) =~= editor_form_spec(s).take(0));
        assert(editor_form_spec(s).skip(0) =~= editor_form_spec(s));
    } else {
        assert(s.len() > 0);
        if is_crlf_at(s, 0) {
            let t = s.skip(2);
            let k1 = canonical_pos(t, e - 1);
            lemma_canonical_pos(t, e - 1);
            assert(k == 2 + k1);
            let pre = s.take(k);
            assert(pre[0] == s[0] && pre[1] == s[1]);
            assert(is_crlf_at(pre, 0));
            assert(pre.skip(2) =~= t.take(k1));
            assert(editor_form_spec(pre) =~= editor_form_spec(s).take(e));
            assert(s.skip(k) =~= t.skip(k1));
            assert(editor_form_spec(s).skip(e) =~= editor_form_spec(t).skip(e - 1));
            if k1 > 0 {
                assert(pre.last() == t.take(k1).last());
            }
        } else {
            let t = s.skip(1);
            let k1 = canonical_pos(t, e - 1);
            lemma_canonical_pos(t, e - 1);
            assert(k == 1 + k1);
            let pre = s.take(k);
            assert(pre[0] == s[0]);
            if k >= 2 {
                assert(pre[1] == s[1]);
            }
            assert(!is_crlf_at(pre, 0));
            assert(pre.skip(1) =~= t.take(k1));
            assert(editor_form_spec(pre) =~= editor_form_spec(s).take(e));
            assert(s.skip(k) =~= t.skip(k1));
            assert(editor_form_spec(s).skip(e) =~= editor_form_spec(t).skip(e - 1));
            if k1 > 0 {
                assert(pre.last() == t.take(k1).last());
            } else {
                assert(pre.last() == s[0]);
                if s.len() > 1 {
                    assert(s.skip(k)[0] == s[1]);
                }
            }
        }
    }
}

/// `m` with every `\n` replaced by `ending`.
pub open spec fn replace_newlines(m: Seq<char>, ending: Seq<char>) -> Seq<char>
    decreases m.len(),
{
    if m.len() == 0 {
        Seq::empty()
    } else if m[0] == '\n' {
        ending + replace_newlines(m.skip(1), ending)
    } else {
        seq![m[0]] + replace_newlines(m.skip(1), ending)
    }
}

/// One of the three line endings a file can use.
pub open spec fn is_line_ending(ending: Seq<char>) -> bool {
    ending == seq!['\n'] || ending == seq!['\r', '\n'] || ending == seq!['\r']
}

/// Replacing every `\n` of `\r`-free text by a line ending leaves its
/// editor form unchanged.
pub proof fn lemma_replace_newlines_form(m: Seq<char>, ending: Seq<char>)
    requires
        is_line_ending(ending),
        forall|i: int| 0 <= i < m.len() ==> #[trigger] m[i] != '\r',
    ensures
        editor_form_spec(replace_newlines(m, ending)) == m,
        m.len() > 0 ==> replace_newlines(m, ending).len() > 0 && replace_newlines(m, ending)[0]
            == if m[0] == '\n' {
            ending[0]
        } else {
            m[0]
        },
    decreases m.len(),
{
    if m.len() > 0 {
        let t = m.skip(1);
        assert forall|i: int| 0 <= i < t.len() implies #[trigger] t[i] != '\r' by {
            assert(t[i] == m[i + 1]);
        }
        lemma_replace_newlines_form(t, ending);
        let rest = replace_newlines(t, ending);
        if t.len() > 0 {
            assert(t[0] == m[1]);
        }
        if m[0] == '\n' {
            assert(!seam(ending, rest));
            lemma_editor_form_concat(ending, rest);
            if ending == seq!['\n'] {
                lemma_editor_form_single('\n');
            } else if ending == seq!['\r', '\n'] {
                assert(is_crlf_at(ending, 0));
                assert(ending.skip(2) =~= Seq::<char>::empty());
                assert(editor_form_spec(Seq::<char>::empty()) =~= Seq::<char>::empty());
                assert(editor_form_spec(ending) == seq!['\n'] + editor_form_spec(ending.skip(2)));
                assert(editor_form_spec(ending) =~= seq!['\n']);
            } else {
                assert(!is_crlf_at(ending, 0));
                assert(ending.skip(1) =~= Seq::<char>::empty());
                assert(editor_form_spec(Seq::<char>::empty()) =~= Seq::<char>::empty());
                assert(editor_form_spec(ending) == seq!['\n'] + editor_form_spec(ending.skip(1)));
                assert(editor_form_spec(ending) =~= seq!['\n']);
            }
            assert(editor_form_spec(replace_newlines(m, ending)) =~= m);
        } else {
            let one = seq![m[0]];
            assert(!seam(one, rest));
            lemma_editor_form_concat(one, rest);
            lemma_editor_form_single(m[0]);
            assert(editor_form_spec(replace_newlines(m, ending)) =~= m);
        }
    }
}

/// The editor form of a single character.
pub proof fn lemma_editor_form_single(c: char)
    ensures
        editor_form_spec(seq![c]) == seq![if c == '\r' { '\n' } else { c }],
{
    let one = seq![c];
    assert(!is_crlf_at(one, 0));
    assert(one.skip(1) =~= Seq::<char>::empty());
    assert(editor_form_spec(Seq::<char>::empty()) =~= Seq::<char>::empty());
    assert(editor_form_spec(one) =~= seq![if c == '\r' { '\n' } else { c }]);
}

/// Replacing newlines distributes over a join.
pub proof fn lemma_replace_newlines_concat(a: Seq<char>, b: Seq<char>, ending: Seq<char>)
    ensures
        replace_newlines(a + b, ending) == replace_newlines(a, ending) + replace_newlines(b, ending),
    decreases a.len(),
{
    if a.len() == 0 {
        assert(a + b =~= b);
        assert(replace_newlines(a, ending) =~= Seq::<char>::empty());
        assert(replace_newlines(a, ending) + replace_newlines(b, ending) =~= replace_newlines(b, ending));
    } else {
        assert((a + b)[0] == a[0]);
        assert((a + b).skip(1) =~= a.skip(1) + b);
        lemma_replace_newlines_concat(a.skip(1), b, ending);
        assert(replace_newlines(a + b, ending) =~= replace_newlines(a, ending) + replace_newlines(b, ending));
    }
}


// ---------------------------------------------------------------------------
// The reconciliation
// ---------------------------------------------------------------------------

/// How many of the breaks are `\r\n`.
pub open spec fn count_crlf(bs: Seq<Break>) -> nat
    decreases bs.len(),
{
    if bs.len() == 0 {
        0
    } else {
        (if bs[0].len == 2 {
            1nat
        } else {
            0nat
        }) + count_crlf(bs.drop_first())
    }
}

/// How many of the breaks are the single character `c`.
pub open spec fn count_single(s: Seq<char>, bs: Seq<Break>, c: char) -> nat
    decreases bs.len(),
{
    if bs.len() == 0 {
        0
    } else {
        (if bs[0].len == 1 && s[bs[0].at as int] == c {
            1nat
        } else {
            0nat
        }) + count_single(s, bs.drop_first(), c)
    }
}

/// Only `\n`, or only `\r\n`, breaks, and no lone `\r`.
pub open spec fn is_uniform(s: Seq<char>) -> bool {
    &&& count_single(s, breaks_spec(s), '\r') == 0
    &&& (count_crlf(breaks_spec(s)) == 0 || count_single(s, breaks_spec(s), '\n') == 0)
}

/// A uniform file's own ending; `\n` when it has no break at all.
pub open spec fn uniform_ending(s: Seq<char>) -> Seq<char> {
    if count_crlf(breaks_spec(s)) > 0 {
        seq!['\r', '\n']
    } else {
        seq!['\n']
    }
}

/// The length of the longest common prefix of `a` and `b`.
pub open spec fn common_prefix(a: Seq<char>, b: Seq<char>) -> int
    decreases a.len(),
{
    if a.len() == 0 || b.len() == 0 || a[0] != b[0] {
        0
    } else {
        1 + common_prefix(a.skip(1), b.skip(1))
    }
}

/// The length of the longest common suffix of `a` and `b`.
pub open spec fn common_suffix(a: Seq<char>, b: Seq<char>) -> int
    decreases a.len(),
{
    if a.len() == 0 || b.len() == 0 || a.last() != b.last() {
        0
    } else {
        1 + common_suffix(a.drop_last(), b.drop_last())
    }
}

/// The first break at or after canonical offset `start`.
pub open spec fn first_break_from(bs: Seq<Break>, start: int) -> Option<Break>
    decreases bs.len(),
{
    if bs.len() == 0 {
        None
    } else if bs[0].at >= start {
        Some(bs[0])
    } else {
        first_break_from(bs.drop_first(), start)
    }
}

/// The ending inserted line breaks take in a splice starting at `start`:
/// that of the break ending the line where the splice starts, else the
/// last break, else `\n`.
pub open spec fn splice_ending(s: Seq<char>, start: int) -> Seq<char> {
    let bs = breaks_spec(s);
    match first_break_from(bs, start) {
        Some(b) => s.subrange(b.at as int, b.at + b.len),
        None => if bs.len() > 0 {
            s.subrange(bs.last().at as int, bs.last().at + bs.last().len)
        } else {
            seq!['\n']
        },
    }
}

/// The editor-form length of the unchanged prefix.
pub open spec fn splice_prefix(s: Seq<char>, incoming: Seq<char>) -> int {
    common_prefix(editor_form_spec(s), editor_form_spec(incoming))
}

/// The editor-form length of the unchanged suffix, after the prefix.
pub open spec fn splice_suffix(s: Seq<char>, incoming: Seq<char>) -> int {
    let p = splice_prefix(s, incoming);
    common_suffix(editor_form_spec(s).skip(p), editor_form_spec(incoming).skip(p))
}

/// The canonical offset where the splice starts.
pub open spec fn splice_start(s: Seq<char>, incoming: Seq<char>) -> int {
    canonical_pos(s, splice_prefix(s, incoming))
}

/// The canonical offset where the splice ends.
pub open spec fn splice_end(s: Seq<char>, incoming: Seq<char>) -> int {
    canonical_pos(s, editor_form_spec(s).len() - splice_suffix(s, incoming))
}

/// The text put in place of the canonical range, its breaks re-ended.
pub open spec fn splice_inserted(s: Seq<char>, incoming: Seq<char>) -> Seq<char> {
    let inc = editor_form_spec(incoming);
    replace_newlines(
        inc.subrange(splice_prefix(s, incoming), inc.len() - splice_suffix(s, incoming)),
        splice_ending(s, splice_start(s, incoming)),
    )
}

/// The minimal splice of Rule 2.
pub open spec fn splice_spec(s: Seq<char>, incoming: Seq<char>) -> Seq<char> {
    s.take(splice_start(s, incoming)) + splice_inserted(s, incoming) + s.skip(
        splice_end(s, incoming),
    )
}

/// The new canonical text for `incoming` editor text over canonical `s`.
pub open spec fn reconcile_spec(s: Seq<char>, incoming: Seq<char>) -> Seq<char> {
    if editor_form_spec(incoming) == editor_form_spec(s) {
        s
    } else if is_uniform(s) {
        replace_newlines(editor_form_spec(incoming), uniform_ending(s))
    } else {
        splice_spec(s, incoming)
    }
}

proof fn lemma_common_prefix(a: Seq<char>, b: Seq<char>)
    ensures
        0 <= common_prefix(a, b) <= a.len(),
        common_prefix(a, b) <= b.len(),
        a.take(common_prefix(a, b)) == b.take(common_prefix(a, b)),
    decreases a.len(),
{
    let p = common_prefix(a, b);
    if a.len() == 0 || b.len() == 0 || a[0] != b[0] {
        assert(a.take(0) =~= b.take(0));
    } else {
        lemma_common_prefix(a.skip(1), b.skip(1));
        assert(a.take(p) =~= seq![a[0]] + a.skip(1).take(p - 1));
        assert(b.take(p) =~= seq![b[0]] + b.skip(1).take(p - 1));
    }
}

proof fn lemma_common_suffix(a: Seq<char>, b: Seq<char>)
    ensures
        0 <= common_suffix(a, b) <= a.len(),
        common_suffix(a, b) <= b.len(),
        a.skip(a.len() - common_suffix(a, b)) == b.skip(b.len() - common_suffix(a, b)),
    decreases a.len(),
{
    let q = common_suffix(a, b);
    if a.len() == 0 || b.len() == 0 || a.last() != b.last() {
        assert(a.skip(a.len() as int) =~= b.skip(b.len() as int));
    } else {
        lemma_common_suffix(a.drop_last(), b.drop_last());
        assert(a.skip(a.len() - q) =~= a.drop_last().skip(a.len() - q) + seq![a.last()]);
        assert(b.skip(b.len() - q) =~= b.drop_last().skip(b.len() - q) + seq![b.last()]);
    }
}

fn chars_equal(a: &Vec<char>, b: &Vec<char>) -> (eq: bool)
    ensures
        eq == (a@ == b@),
{
    if a.len() != b.len() {
        return false;
    }
    let mut i: usize = 0;
    while i < a.len()
        invariant
            a@.len() == b@.len(),
            i <= a@.len(),
            forall|k: int| 0 <= k < i ==> a@[k] == b@[k],
        decreases a.len() - i,
    {
        if a[i] != b[i] {
            return false;
        }
        i = i + 1;
    }
    assert(a@ =~= b@);
    true
}

fn count_breaks(
    s: &Vec<char>,
    bs: &Vec<Break>,
) -> (counts: (usize, usize, usize))
    requires
        bs@ == breaks_spec(s@),
    ensures
        counts.0 == count_crlf(bs@),
        counts.1 == count_single(s@, bs@, '\r'),
        counts.2 == count_single(s@, bs@, '\n'),
{
    let n = s.len();
    proof {
        lemma_breaks_after(s@, 0, 0);
    }
    let mut crlf: usize = 0;
    let mut lone_cr: usize = 0;
    let mut lf: usize = 0;
    let mut j: usize = 0;
    assert(bs@.skip(0) =~= bs@);
    while j < bs.len()
        invariant
            j <= bs@.len(),
            forall|k: int| 0 <= k < bs@.len() ==> break_ok(s@, #[trigger] bs@[k], 0, 0),
            crlf + count_crlf(bs@.skip(j as int)) == count_crlf(bs@),
            lone_cr + count_single(s@, bs@.skip(j as int), '\r') == count_single(s@, bs@, '\r'),
            lf + count_single(s@, bs@.skip(j as int), '\n') == count_single(s@, bs@, '\n'),
            crlf + lone_cr + lf <= j,
        decreases bs.len() - j,
    {
        let b = bs[j];
        assert(break_ok(s@, bs@[j as int], 0, 0));
        assert(bs@.skip(j as int).drop_first() =~= bs@.skip(j + 1));
        assert(bs@.skip(j as int)[0] == b);
        if b.len == 2 {
            crlf = crlf + 1;
        } else if s[b.at] == '\r' {
            lone_cr = lone_cr + 1;
        } else if s[b.at] == '\n' {
            lf = lf + 1;
        }
        j = j + 1;
    }
    (crlf, lone_cr, lf)
}


fn common_prefix_len(a: &Vec<char>, b: &Vec<char>) -> (p: usize)
    ensures
        p == common_prefix(a@, b@),
{
    let mut i: usize = 0;
    assert(a@.skip(0) =~= a@);
    assert(b@.skip(0) =~= b@);
    while i < a.len() && i < b.len() && a[i] == b[i]
        invariant
            i <= a@.len(),
            i <= b@.len(),
            common_prefix(a@, b@) == i + common_prefix(a@.skip(i as int), b@.skip(i as int)),
        decreases a.len() - i,
    {
        assert(a@.skip(i as int)[0] == a@[i as int]);
        assert(b@.skip(i as int)[0] == b@[i as int]);
        assert(a@.skip(i as int).skip(1) =~= a@.skip(i + 1));
        assert(b@.skip(i as int).skip(1) =~= b@.skip(i + 1));
        i = i + 1;
    }
    if i < a.len() && i < b.len() {
        assert(a@.skip(i as int)[0] == a@[i as int]);
        assert(b@.skip(i as int)[0] == b@[i as int]);
    }
    i
}

/// The common suffix of `a[from..]` and `b[from..]`.
fn common_suffix_len(a: &Vec<char>, b: &Vec<char>, from: usize) -> (q: usize)
    requires
        from <= a@.len(),
        from <= b@.len(),
    ensures
        q == common_suffix(a@.skip(from as int), b@.skip(from as int)),
{
    let ghost x = a@.skip(from as int);
    let ghost y = b@.skip(from as int);
    let alen = a.len();
    let blen = b.len();
    let la = alen - from;
    let lb = blen - from;
    let mut j: usize = 0;
    assert(x.take(la as int) =~= x);
    assert(y.take(lb as int) =~= y);
    while j < la && j < lb && a[alen - 1 - j] == b[blen - 1 - j]
        invariant
            alen == a@.len(),
            blen == b@.len(),
            la == x.len(),
            lb == y.len(),
            la + from == a@.len(),
            lb + from == b@.len(),
            x == a@.skip(from as int),
            y == b@.skip(from as int),
            j <= la,
            j <= lb,
            common_suffix(x, y) == j + common_suffix(
                x.take(la - j),
                y.take(lb - j),
            ),
        decreases la - j,
    {
        assert(x.take(la - j).last() == a@[from + la - 1 - j]);
        assert(y.take(lb - j).last() == b@[from + lb - 1 - j]);
        assert(x.take(la - j).drop_last() =~= x.take(la - j - 1));
        assert(y.take(lb - j).drop_last() =~= y.take(lb - j - 1));
        j = j + 1;
    }
    if j < la && j < lb {
        assert(x.take(la - j).last() == a@[from + la - 1 - j]);
        assert(y.take(lb - j).last() == b@[from + lb - 1 - j]);
    }
    j
}

/// The ending an inserted line break takes (see `splice_ending`).
fn splice_ending_exec(s: &Vec<char>, bs: &Vec<Break>, start: usize) -> (ending: Vec<char>)
    requires
        bs@ == breaks_spec(s@),
    ensures
        ending@ == splice_ending(s@, start as int),
        is_line_ending(ending@),
{
    let n = s.len();
    proof {
        lemma_breaks_after(s@, 0, 0);
    }
    let mut j: usize = 0;
    assert(bs@.skip(0) =~= bs@);
    while j < bs.len() && bs[j].at < start
        invariant
            j <= bs@.len(),
            first_break_from(bs@, start as int) == first_break_from(bs@.skip(j as int), start as int),
        decreases bs.len() - j,
    {
        assert(bs@.skip(j as int).drop_first() =~= bs@.skip(j + 1));
        assert(bs@.skip(j as int)[0] == bs@[j as int]);
        j = j + 1;
    }
    let chosen: Option<Break> = if j < bs.len() {
        assert(bs@.skip(j as int)[0] == bs@[j as int]);
        Some(bs[j])
    } else if bs.len() > 0 {
        assert(bs@.skip(j as int) =~= Seq::<Break>::empty());
        Some(bs[bs.len() - 1])
    } else {
        None
    };
    let mut ending: Vec<char> = Vec::new();
    match chosen {
        Some(b) => {
            assert(break_ok(s@, b, 0, 0)) by {
                if j < bs.len() {
                    assert(b == bs@[j as int]);
                } else {
                    assert(b == bs@[bs@.len() - 1]);
                }
            }
            if b.len == 2 {
                ending.push('\r');
                ending.push('\n');
                assert(ending@ =~= s@.subrange(b.at as int, b.at + b.len));
                assert(ending@ =~= seq!['\r', '\n']);
            } else {
                ending.push(s[b.at]);
                assert(ending@ =~= s@.subrange(b.at as int, b.at + b.len));
                assert(ending@ =~= seq!['\r'] || ending@ =~= seq!['\n']);
            }
        },
        None => {
            ending.push('\n');
            assert(ending@ =~= seq!['\n']);
        },
    }
    ending
}

/// Appends `v[from..to]` to `out`.
fn push_range(out: &mut String, v: &Vec<char>, from: usize, to: usize)
    requires
        from <= to <= v@.len(),
    ensures
        final(out)@ == old(out)@ + v@.subrange(from as int, to as int),
{
    let mut i = from;
    while i < to
        invariant
            from <= i <= to <= v@.len(),
            out@ == old(out)@ + v@.subrange(from as int, i as int),
        decreases to - i,
    {
        push_char(out, v[i]);
        i = i + 1;
        assert(v@.subrange(from as int, i as int) =~= v@.subrange(from as int, i - 1) + seq![v@[i - 1]]);
    }
}

/// Appends `v[from..to]` with every `\n` replaced by `ending`.
fn push_replacing(out: &mut String, v: &Vec<char>, from: usize, to: usize, ending: &Vec<char>)
    requires
        from <= to <= v@.len(),
    ensures
        final(out)@ == old(out)@ + replace_newlines(v@.subrange(from as int, to as int), ending@),
{
    let mut i = from;
    assert(v@.subrange(from as int, from as int) =~= Seq::<char>::empty());
    assert(old(out)@ + Seq::<char>::empty() =~= old(out)@);
    while i < to
        invariant
            from <= i <= to <= v@.len(),
            out@ == old(out)@ + replace_newlines(v@.subrange(from as int, i as int), ending@),
        decreases to - i,
    {
        let ghost before = out@;
        let c = v[i];
        if c == '\n' {
            let mut k: usize = 0;
            while k < ending.len()
                invariant
                    k <= ending@.len(),
                    out@ == before + ending@.take(k as int),
                decreases ending.len() - k,
            {
                push_char(out, ending[k]);
                k = k + 1;
                assert(ending@.take(k as int) =~= ending@.take(k - 1) + seq![ending@[k - 1]]);
            }
            assert(ending@.take(ending@.len() as int) =~= ending@);
        } else {
            push_char(out, c);
        }
        proof {
            let m = v@.subrange(from as int, i as int);
            let one = seq![c];
            assert(v@.subrange(from as int, i + 1) =~= m + one);
            lemma_replace_newlines_concat(m, one, ending@);
            assert(one.skip(1) =~= Seq::<char>::empty());
            assert(replace_newlines(Seq::<char>::empty(), ending@) =~= Seq::<char>::empty());
            if c == '\n' {
                assert(replace_newlines(one, ending@) =~= ending@);
            } else {
                assert(replace_newlines(one, ending@) =~= one);
            }
        }
        i = i + 1;
    }
}

/// The new canonical text for `incoming` editor text over `canonical`.
/// Returns `canonical` itself, unchanged, under Rule 0.
pub fn reconcile(canonical: &str, incoming: &str) -> (result: String)
    ensures
        result@ == reconcile_spec(canonical@, incoming@),
{
    let can = chars_of(canonical);
    let raw = chars_of(incoming);
    let inc = editor_form_chars(&raw);
    let cur = editor_form_chars(&can);
    if chars_equal(&inc, &cur) {
        return canonical.to_owned();
    }
    let can_len = can.len();
    let bs = breaks(&can);
    let (crlf, lone_cr, lf) = count_breaks(&can, &bs);
    if lone_cr == 0 && (crlf == 0 || lf == 0) {
        let mut ending: Vec<char> = Vec::new();
        if crlf > 0 {
            ending.push('\r');
        }
        ending.push('\n');
        assert(ending@ =~= uniform_ending(can@));
        let mut out = String::new();
        push_replacing(&mut out, &inc, 0, inc.len(), &ending);
        assert(inc@.subrange(0, inc@.len() as int) =~= inc@);
        assert(Seq::<char>::empty() + replace_newlines(inc@, ending@) =~= replace_newlines(inc@, ending@));
        return out;
    }
    let prefix = common_prefix_len(&cur, &inc);
    proof {
        lemma_common_prefix(cur@, inc@);
    }
    let suffix = common_suffix_len(&cur, &inc, prefix);
    proof {
        lemma_common_suffix(cur@.skip(prefix as int), inc@.skip(prefix as int));
        lemma_canonical_pos(can@, prefix as int);
        lemma_canonical_pos(can@, cur@.len() - suffix);
    }
    let start = canonical_offset(&bs, prefix, Ghost(can@));
    let end = canonical_offset(&bs, cur.len() - suffix, Ghost(can@));
    let ending = splice_ending_exec(&can, &bs, start);
    let mut out = String::new();
    push_range(&mut out, &can, 0, start);
    push_replacing(&mut out, &inc, prefix, inc.len() - suffix, &ending);
    push_range(&mut out, &can, end, can.len());
    assert(can@.subrange(0, start as int) =~= can@.take(start as int));
    assert(can@.subrange(end as int, can@.len() as int) =~= can@.skip(end as int));
    assert(out@ =~= splice_spec(can@, raw@));
    out
}


// ---------------------------------------------------------------------------
// What reconciliation guarantees
// ---------------------------------------------------------------------------

/// Every splice ending is one of the three line endings.
proof fn lemma_splice_ending(s: Seq<char>, start: int)
    requires
        s.len() <= usize::MAX,
    ensures
        is_line_ending(splice_ending(s, start)),
{
    let bs = breaks_spec(s);
    lemma_breaks_after(s, 0, 0);
    lemma_first_break_from(bs, start);
    let chosen = match first_break_from(bs, start) {
        Some(b) => b,
        None => if bs.len() > 0 { bs.last() } else { Break { at: 0, len: 0, editor_at: 0 } },
    };
    if first_break_from(bs, start) is Some || bs.len() > 0 {
        assert(break_ok(s, chosen, 0, 0)) by {
            if first_break_from(bs, start) is None {
                assert(chosen == bs[bs.len() - 1]);
            }
        }
        let e = s.subrange(chosen.at as int, chosen.at + chosen.len);
        if chosen.len == 2 {
            assert(e =~= seq!['\r', '\n']);
        } else if s[chosen.at as int] == '\r' {
            assert(e =~= seq!['\r']);
        } else {
            assert(e =~= seq!['\n']);
        }
    }
}

/// The first break from an offset is one of the breaks.
proof fn lemma_first_break_from(bs: Seq<Break>, start: int)
    ensures
        first_break_from(bs, start) matches Some(b) ==> exists|j: int| 0 <= j < bs.len() && bs[j]
            == b,
    decreases bs.len(),
{
    if bs.len() > 0 && bs[0].at < start {
        lemma_first_break_from(bs.drop_first(), start);
        if let Some(b) = first_break_from(bs, start) {
            let j = choose|j: int| 0 <= j < bs.drop_first().len() && bs.drop_first()[j] == b;
            assert(bs[j + 1] == b);
        }
    }
}

/// Where reconciliation splices (Rule 2) and the splice's own joins form a
/// new `\r\n` pair: a `\r` kept before the splice meets a `\n` after it, or
/// an inserted lone-`\r` ending meets a kept `\n`.
pub open spec fn splice_forms_crlf(s: Seq<char>, incoming: Seq<char>) -> bool {
    let before = s.take(splice_start(s, incoming));
    let inserted = splice_inserted(s, incoming);
    let after = s.skip(splice_end(s, incoming));
    &&& editor_form_spec(incoming) != editor_form_spec(s)
    &&& !is_uniform(s)
    &&& (seam(before, inserted + after) || seam(inserted, after))
}

/// A text that is just its own editor form changes nothing: reconciling
/// the editor form of the canonical text gives back the canonical text.
pub proof fn lemma_reconcile_own_editor_form(s: Seq<char>)
    ensures
        reconcile_spec(s, editor_form_spec(s)) == s,
{
    lemma_editor_form_idempotent(s);
}

/// The editor's view is kept: the editor form of the reconciled text is the
/// incoming editor text, unless the splice itself joins a `\r` to a `\n`.
pub proof fn lemma_reconcile_keeps_editor_view(s: Seq<char>, incoming: Seq<char>)
    requires
        s.len() <= usize::MAX,
        !splice_forms_crlf(s, incoming),
    ensures
        editor_form_spec(reconcile_spec(s, incoming)) == editor_form_spec(incoming),
{
    let inc = editor_form_spec(incoming);
    let cur = editor_form_spec(s);
    lemma_editor_form_no_cr(incoming);
    if inc == cur {
    } else if is_uniform(s) {
        lemma_replace_newlines_form(inc, uniform_ending(s));
    } else {
        let p = splice_prefix(s, incoming);
        let q = splice_suffix(s, incoming);
        lemma_common_prefix(cur, inc);
        lemma_common_suffix(cur.skip(p), inc.skip(p));
        lemma_canonical_pos(s, p);
        lemma_canonical_pos(s, cur.len() - q);
        let start = splice_start(s, incoming);
        let end = splice_end(s, incoming);
        let ending = splice_ending(s, start);
        lemma_splice_ending(s, start);
        let mid = inc.subrange(p, inc.len() - q);
        assert forall|i: int| 0 <= i < mid.len() implies #[trigger] mid[i] != '\r' by {
            assert(mid[i] == inc[p + i]);
        }
        lemma_replace_newlines_form(mid, ending);
        let before = s.take(start);
        let inserted = splice_inserted(s, incoming);
        let after = s.skip(end);
        lemma_editor_form_concat(inserted, after);
        lemma_editor_form_concat(before, inserted + after);
        assert(before + inserted + after =~= before + (inserted + after));
        assert(cur.skip(p).skip(cur.skip(p).len() - q) =~= cur.skip(cur.len() - q));
        assert(inc.skip(p).skip(inc.skip(p).len() - q) =~= inc.skip(inc.len() - q));
        assert(inc.take(p) + mid + inc.skip(inc.len() - q) =~= inc);
        assert(editor_form_spec(before + inserted + after) =~= inc);
    }
}

/// Every `\n` comes right after a `\r`, and every `\r` right before a `\n`:
/// the text's only breaks are `\r\n`.
pub open spec fn only_crlf_breaks(r: Seq<char>) -> bool {
    &&& forall|i: int| 0 <= i < r.len() && #[trigger] r[i] == '\n' ==> i > 0 && r[i - 1] == '\r'
    &&& forall|i: int| 0 <= i < r.len() && #[trigger] r[i] == '\r' ==> i + 1 < r.len() && r[i + 1] == '\n'
}

/// The text holds no `\r`: its only breaks are `\n`.
pub open spec fn only_lf_breaks(r: Seq<char>) -> bool {
    forall|i: int| 0 <= i < r.len() ==> #[trigger] r[i] != '\r'
}

proof fn lemma_replace_newlines_breaks(m: Seq<char>, ending: Seq<char>)
    requires
        forall|i: int| 0 <= i < m.len() ==> #[trigger] m[i] != '\r',
        ending == seq!['\n'] || ending == seq!['\r', '\n'],
    ensures
        ending == seq!['\n'] ==> only_lf_breaks(replace_newlines(m, ending)),
        ending == seq!['\r', '\n'] ==> only_crlf_breaks(replace_newlines(m, ending)),
    decreases m.len(),
{
    if m.len() > 0 {
        let rest = m.skip(1);
        assert forall|i: int| 0 <= i < rest.len() implies #[trigger] rest[i] != '\r' by {
            assert(rest[i] == m[i + 1]);
        }
        lemma_replace_newlines_breaks(rest, ending);
        let head = if m[0] == '\n' { ending } else { seq![m[0]] };
        let tail = replace_newlines(rest, ending);
        let out = replace_newlines(m, ending);
        assert(out =~= head + tail);
        let hl = head.len() as int;
        assert forall|i: int| 0 <= i < out.len() && #[trigger] out[i] == '\n' implies (ending == seq![
            '\r',
            '\n',
        ] ==> i > 0 && out[i - 1] == '\r') by {
            if i >= hl && ending == seq!['\r', '\n'] {
                assert(out[i] == tail[i - hl]);
                assert(tail[i - hl] == '\n');
                assert(out[i - 1] == tail[i - hl - 1]);
            }
        }
        assert forall|i: int| 0 <= i < out.len() && #[trigger] out[i] == '\r' implies (ending == seq![
            '\r',
            '\n',
        ] ==> i + 1 < out.len() && out[i + 1] == '\n') by {
            if i >= hl && ending == seq!['\r', '\n'] {
                assert(out[i] == tail[i - hl]);
                assert(out[i + 1] == tail[i - hl + 1]);
            }
        }
        assert forall|i: int| 0 <= i < out.len() implies (ending == seq!['\n'] ==> #[trigger] out[i]
            != '\r') by {
            if i >= hl && ending == seq!['\n'] {
                assert(out[i] == tail[i - hl]);
            }
        }
    }
}

/// A uniform file keeps its ending for every edit: when the editor text
/// differs, the result is the editor text with each line break written as
/// the file's own ending, so a `\r\n` file has only `\r\n` breaks and an
/// `\n` file only `\n` breaks.
pub proof fn lemma_uniform_file_keeps_its_ending(s: Seq<char>, incoming: Seq<char>)
    requires
        is_uniform(s),
        editor_form_spec(incoming) != editor_form_spec(s),
    ensures
        reconcile_spec(s, incoming) == replace_newlines(editor_form_spec(incoming), uniform_ending(s)),
        uniform_ending(s) == seq!['\r', '\n'] ==> only_crlf_breaks(reconcile_spec(s, incoming)),
        uniform_ending(s) == seq!['\n'] ==> only_lf_breaks(reconcile_spec(s, incoming)),
        editor_form_spec(reconcile_spec(s, incoming)) == editor_form_spec(incoming),
{
    lemma_editor_form_no_cr(incoming);
    lemma_replace_newlines_breaks(editor_form_spec(incoming), uniform_ending(s));
    lemma_replace_newlines_form(editor_form_spec(incoming), uniform_ending(s));
}

/// Rule 2 changes only the spliced range: every canonical character
/// before the splice start and after the splice end is kept as it was.
pub proof fn lemma_splice_keeps_outside(s: Seq<char>, incoming: Seq<char>)
    requires
        s.len() <= usize::MAX,
        editor_form_spec(incoming) != editor_form_spec(s),
        !is_uniform(s),
    ensures
        0 <= splice_start(s, incoming) <= splice_end(s, incoming) <= s.len(),
        reconcile_spec(s, incoming) == s.take(splice_start(s, incoming)) + splice_inserted(
            s,
            incoming,
        ) + s.skip(splice_end(s, incoming)),
        reconcile_spec(s, incoming).take(splice_start(s, incoming)) == s.take(
            splice_start(s, incoming),
        ),
{
    let inc = editor_form_spec(incoming);
    let cur = editor_form_spec(s);
    let p = splice_prefix(s, incoming);
    let q = splice_suffix(s, incoming);
    lemma_common_prefix(cur, inc);
    lemma_common_suffix(cur.skip(p), inc.skip(p));
    lemma_canonical_pos(s, p);
    lemma_canonical_pos(s, cur.len() - q);
    lemma_canonical_pos_monotone(s, p, cur.len() - q);
    let r = reconcile_spec(s, incoming);
    let start = splice_start(s, incoming);
    assert(r.take(start) =~= s.take(start));
}

/// Mapping editor offsets to canonical offsets keeps their order.
proof fn lemma_canonical_pos_monotone(s: Seq<char>, e1: int, e2: int)
    requires
        0 <= e1 <= e2,
    ensures
        canonical_pos(s, e1) <= canonical_pos(s, e2),
    decreases s.len(),
{
    if e1 > 0 && s.len() > 0 {
        if is_crlf_at(s, 0) {
            lemma_canonical_pos_monotone(s.skip(2), e1 - 1, e2 - 1);
        } else {
            lemma_canonical_pos_monotone(s.skip(1), e1 - 1, e2 - 1);
        }
    } else if e1 <= 0 {
        lemma_canonical_pos_nonneg(s, e2);
    }
}

proof fn lemma_canonical_pos_nonneg(s: Seq<char>, e: int)
    ensures
        canonical_pos(s, e) >= 0,
    decreases s.len(),
{
    if e > 0 && s.len() > 0 {
        if is_crlf_at(s, 0) {
            lemma_canonical_pos_nonneg(s.skip(2), e - 1);
        } else {
            lemma_canonical_pos_nonneg(s.skip(1), e - 1);
        }
    }
}


// ---------------------------------------------------------------------------
// Editor positions
// ---------------------------------------------------------------------------

/// The number of bytes `c` takes in UTF-8.
pub open spec fn utf8_width(c: char) -> nat {
    encode_scalar(c as u32).len()
}

/// The number of UTF-16 code units `c` takes: two above the Basic
/// Multilingual Plane, else one.
pub open spec fn utf16_width(c: char) -> nat {
    if (c as u32) < 0x10000 {
        1
    } else {
        2
    }
}

/// The UTF-8 length of `s` in bytes.
pub open spec fn utf8_len(s: Seq<char>) -> nat
    decreases s.len(),
{
    if s.len() == 0 {
        0
    } else {
        utf8_width(s[0]) + utf8_len(s.skip(1))
    }
}

/// The UTF-16 length of `s` in code units.
pub open spec fn utf16_len(s: Seq<char>) -> nat
    decreases s.len(),
{
    if s.len() == 0 {
        0
    } else {
        utf16_width(s[0]) + utf16_len(s.skip(1))
    }
}

/// How many leading characters of `s` lie wholly within its first `bytes`
/// bytes: the character boundary at or before byte offset `bytes`.
pub open spec fn chars_within(s: Seq<char>, bytes: int) -> int
    decreases s.len(),
{
    if s.len() == 0 || utf8_width(s[0]) > bytes {
        0
    } else {
        1 + chars_within(s.skip(1), bytes - utf8_width(s[0]))
    }
}

/// The editor position of canonical byte offset `byte_offset`: the UTF-16
/// length of the editor form of the text before it, after moving back to a
/// character boundary and out of any `\r\n` pair.
pub open spec fn editor_position_spec(s: Seq<char>, byte_offset: int) -> int {
    let k0 = chars_within(s, byte_offset);
    let k = if is_crlf_at(s, k0 - 1) {
        k0 - 1
    } else {
        k0
    };
    utf16_len(editor_form_spec(s.take(k))) as int
}

proof fn lemma_utf8_width(c: char)
    ensures
        utf8_width(c) == if (c as u32) < 0x80 {
            1nat
        } else if (c as u32) < 0x800 {
            2nat
        } else if (c as u32) < 0x10000 {
            3nat
        } else {
            4nat
        },
{
    broadcast use char_is_scalar;
    assert(vstd::utf8::is_scalar(c as u32));
}

fn utf8_width_exec(c: char) -> (w: usize)
    ensures
        w == utf8_width(c),
        1 <= w <= 4,
{
    proof {
        lemma_utf8_width(c);
    }
    let v = c as u32;
    if v < 0x80 {
        1
    } else if v < 0x800 {
        2
    } else if v < 0x10000 {
        3
    } else {
        4
    }
}

fn utf16_width_exec(c: char) -> (w: usize)
    ensures
        w == utf16_width(c),
{
    if (c as u32) < 0x10000 {
        1
    } else {
        2
    }
}

proof fn lemma_utf8_len_concat(a: Seq<char>, b: Seq<char>)
    ensures
        utf8_len(a + b) == utf8_len(a) + utf8_len(b),
    decreases a.len(),
{
    if a.len() == 0 {
        assert(a + b =~= b);
    } else {
        assert((a + b)[0] == a[0]);
        assert((a + b).skip(1) =~= a.skip(1) + b);
        lemma_utf8_len_concat(a.skip(1), b);
    }
}

proof fn lemma_utf16_len_concat(a: Seq<char>, b: Seq<char>)
    ensures
        utf16_len(a + b) == utf16_len(a) + utf16_len(b),
    decreases a.len(),
{
    if a.len() == 0 {
        assert(a + b =~= b);
    } else {
        assert((a + b)[0] == a[0]);
        assert((a + b).skip(1) =~= a.skip(1) + b);
        lemma_utf16_len_concat(a.skip(1), b);
    }
}

/// A character's UTF-8 length is its length in a one-character sequence.
proof fn lemma_len_single(c: char)
    ensures
        utf8_len(seq![c]) == utf8_width(c),
        utf16_len(seq![c]) == utf16_width(c),
{
    let one = seq![c];
    assert(one.skip(1) =~= Seq::<char>::empty());
    assert(one[0] == c);
    assert(utf8_len(Seq::<char>::empty()) == 0);
    assert(utf16_len(Seq::<char>::empty()) == 0);
    assert(utf8_len(one) == utf8_width(one[0]) + utf8_len(one.skip(1)));
    assert(utf16_len(one) == utf16_width(one[0]) + utf16_len(one.skip(1)));
}

/// The editor form never takes more UTF-16 units than the text takes bytes.
proof fn lemma_editor_units_within_bytes(t: Seq<char>)
    ensures
        utf16_len(editor_form_spec(t)) <= utf8_len(t),
    decreases t.len(),
{
    if t.len() > 0 {
        lemma_utf8_width(t[0]);
        if is_crlf_at(t, 0) {
            lemma_editor_units_within_bytes(t.skip(2));
            lemma_utf8_width(t[1]);
            assert(t.skip(1).skip(1) =~= t.skip(2));
            assert(t.skip(1)[0] == t[1]);
            let f = editor_form_spec(t);
            assert(f[0] == '\n');
            assert(f.skip(1) =~= editor_form_spec(t.skip(2)));
            assert(utf16_width('\n') == 1);
            assert(utf16_len(f) == utf16_width(f[0]) + utf16_len(f.skip(1)));
            assert(utf8_len(t) == utf8_width(t[0]) + utf8_len(t.skip(1)));
            assert(utf8_len(t.skip(1)) == utf8_width(t.skip(1)[0]) + utf8_len(t.skip(1).skip(1)));
        } else {
            lemma_editor_units_within_bytes(t.skip(1));
            let f = editor_form_spec(t);
            assert(f.skip(1) =~= editor_form_spec(t.skip(1)));
            assert(f[0] == if t[0] == '\r' { '\n' } else { t[0] });
            assert(utf16_width('\n') == 1);
            assert(utf16_len(f) == utf16_width(f[0]) + utf16_len(f.skip(1)));
            assert(utf8_len(t) == utf8_width(t[0]) + utf8_len(t.skip(1)));
        }
    }
}

/// The characters within a byte count take at most that many bytes.
proof fn lemma_chars_within(s: Seq<char>, bytes: int)
    requires
        bytes >= 0,
    ensures
        0 <= chars_within(s, bytes) <= s.len(),
        utf8_len(s.take(chars_within(s, bytes))) <= bytes,
    decreases s.len(),
{
    let k = chars_within(s, bytes);
    if s.len() == 0 || utf8_width(s[0]) > bytes {
        assert(s.take(0) =~= Seq::<char>::empty());
    } else {
        lemma_chars_within(s.skip(1), bytes - utf8_width(s[0]));
        let t = s.skip(1).take(k - 1);
        assert(s.take(k) =~= seq![s[0]] + t);
        lemma_utf8_len_concat(seq![s[0]], t);
        lemma_len_single(s[0]);
    }
}

/// The editor position (CodeMirror's: UTF-16 code units into the editor
/// form) of a canonical byte offset. A position between the `\r` and `\n`
/// of one break maps to before that break, since the editor has no
/// position there.
pub fn editor_position(canonical: &str, byte_offset: usize) -> (pos: usize)
    ensures
        pos == editor_position_spec(canonical@, byte_offset as int),
        utf8_len(canonical@) <= usize::MAX,
        editor_position_spec(canonical@, usize::MAX as int) == utf16_len(editor_form_spec(canonical@)),
{
    let byte_len = canonical.as_bytes().len();
    proof {
        lemma_utf8_len_encoding(canonical@);
        assert(utf8_len(canonical@) == byte_len);
        lemma_editor_position_end(canonical@, usize::MAX as int);
    }
    let s = chars_of(canonical);
    let n = s.len();
    let mut k: usize = 0;
    let mut used: usize = 0;
    assert(s@.skip(0) =~= s@);
    assert(s@.take(0) =~= Seq::<char>::empty());
    while k < n && utf8_width_exec(s[k]) <= byte_offset - used
        invariant
            n == s@.len(),
            k <= n,
            used <= byte_offset,
            used == utf8_len(s@.take(k as int)),
            chars_within(s@, byte_offset as int) == k + chars_within(
                s@.skip(k as int),
                byte_offset - used,
            ),
        decreases n - k,
    {
        let w = utf8_width_exec(s[k]);
        proof {
            assert(s@.skip(k as int)[0] == s@[k as int]);
            assert(s@.skip(k as int).skip(1) =~= s@.skip(k + 1));
            assert(s@.take(k + 1) =~= s@.take(k as int) + seq![s@[k as int]]);
            lemma_utf8_len_concat(s@.take(k as int), seq![s@[k as int]]);
            lemma_len_single(s@[k as int]);
        }
        used = used + w;
        k = k + 1;
    }
    proof {
        if k < n {
            assert(s@.skip(k as int)[0] == s@[k as int]);
        }
        assert(chars_within(s@, byte_offset as int) == k);
    }
    let mut used_k = used;
    if k > 0 && k < n && s[k - 1] == '\r' && s[k] == '\n' {
        proof {
            assert(s@.take(k as int) =~= s@.take(k - 1) + seq!['\r']);
            lemma_utf8_len_concat(s@.take(k - 1), seq!['\r']);
            lemma_len_single('\r');
            lemma_utf8_width('\r');
        }
        k = k - 1;
        used_k = used - 1;
    }
    let mut prefix: Vec<char> = Vec::new();
    let mut i: usize = 0;
    while i < k
        invariant
            k <= n == s@.len(),
            i <= k,
            prefix@ == s@.take(i as int),
        decreases k - i,
    {
        prefix.push(s[i]);
        i = i + 1;
        assert(prefix@ =~= s@.take(i as int));
    }
    let form = editor_form_chars(&prefix);
    proof {
        lemma_editor_units_within_bytes(prefix@);
    }
    let mut count: usize = 0;
    let mut j: usize = 0;
    assert(form@.take(0) =~= Seq::<char>::empty());
    while j < form.len()
        invariant
            j <= form@.len(),
            count == utf16_len(form@.take(j as int)),
            utf16_len(form@) <= used_k,
        decreases form.len() - j,
    {
        proof {
            assert(form@.take(j + 1) =~= form@.take(j as int) + seq![form@[j as int]]);
            lemma_utf16_len_concat(form@.take(j as int), seq![form@[j as int]]);
            lemma_len_single(form@[j as int]);
            assert(form@ =~= form@.take(j + 1) + form@.skip(j + 1));
            lemma_utf16_len_concat(form@.take(j + 1), form@.skip(j + 1));
        }
        count = count + utf16_width_exec(form[j]);
        j = j + 1;
    }
    assert(form@.take(form@.len() as int) =~= form@);
    count
}

/// Counting characters within more bytes never gives fewer characters.
proof fn lemma_chars_within_monotone(s: Seq<char>, b1: int, b2: int)
    requires
        0 <= b1 <= b2,
    ensures
        chars_within(s, b1) <= chars_within(s, b2),
    decreases s.len(),
{
    if s.len() > 0 && utf8_width(s[0]) <= b1 {
        lemma_chars_within_monotone(s.skip(1), b1 - utf8_width(s[0]), b2 - utf8_width(s[0]));
    } else {
        lemma_chars_within(s, b2);
    }
}

/// The characters within the byte length of a prefix are that prefix.
proof fn lemma_chars_within_prefix(s: Seq<char>, k: int)
    requires
        0 <= k <= s.len(),
    ensures
        chars_within(s, utf8_len(s.take(k)) as int) == k,
    decreases s.len(),
{
    if k > 0 {
        let t = s.skip(1);
        assert(s.take(k) =~= seq![s[0]] + t.take(k - 1));
        lemma_utf8_len_concat(seq![s[0]], t.take(k - 1));
        lemma_len_single(s[0]);
        lemma_chars_within_prefix(t, k - 1);
    } else {
        assert(s.take(0) =~= Seq::<char>::empty());
        if s.len() > 0 {
            lemma_utf8_width(s[0]);
        }
    }
}

/// The character count `editor_position` stops at: the character boundary
/// within the byte offset, moved out of a `\r\n` pair.
pub open spec fn position_chars(s: Seq<char>, byte_offset: int) -> int {
    let k0 = chars_within(s, byte_offset);
    if is_crlf_at(s, k0 - 1) {
        k0 - 1
    } else {
        k0
    }
}

/// Between character boundaries that split no `\r\n`, the editor form of
/// the longer prefix extends that of the shorter.
proof fn lemma_editor_form_prefixes(s: Seq<char>, k1: int, k2: int)
    requires
        0 <= k1 <= k2 <= s.len(),
        !is_crlf_at(s, k1 - 1),
    ensures
        utf16_len(editor_form_spec(s.take(k1))) <= utf16_len(editor_form_spec(s.take(k2))),
{
    let a = s.take(k1);
    let b = s.subrange(k1, k2);
    assert(s.take(k2) =~= a + b);
    if k1 < k2 && k1 > 0 {
        assert(a.last() == s[k1 - 1]);
        assert(b[0] == s[k1]);
    }
    assert(!seam(a, b));
    lemma_editor_form_concat(a, b);
    lemma_utf16_len_concat(editor_form_spec(a), editor_form_spec(b));
}

/// `editor_position` keeps the order of byte offsets: a later offset never
/// maps to an earlier editor position.
pub proof fn lemma_editor_position_monotone(s: Seq<char>, b1: int, b2: int)
    requires
        0 <= b1 <= b2,
    ensures
        editor_position_spec(s, b1) <= editor_position_spec(s, b2),
{
    lemma_chars_within(s, b1);
    lemma_chars_within(s, b2);
    lemma_chars_within_monotone(s, b1, b2);
    let k1 = position_chars(s, b1);
    let k2 = position_chars(s, b2);
    assert(k1 <= k2);
    assert(!is_crlf_at(s, k1 - 1));
    lemma_editor_form_prefixes(s, k1, k2);
}

/// At or past the end of the text, the editor position is the UTF-16 length
/// of the whole editor form.
pub proof fn lemma_editor_position_end(s: Seq<char>, byte_offset: int)
    requires
        byte_offset >= utf8_len(s),
    ensures
        editor_position_spec(s, byte_offset) == utf16_len(editor_form_spec(s)),
{
    lemma_chars_within_prefix(s, s.len() as int);
    assert(s.take(s.len() as int) =~= s);
    lemma_chars_within(s, byte_offset);
    lemma_chars_within_monotone(s, utf8_len(s) as int, byte_offset);
    assert(chars_within(s, byte_offset) == s.len());
}

/// At a character boundary that splits no `\r\n`, the editor position is
/// the UTF-16 length of the editor form of the text before it.
pub proof fn lemma_editor_position_at_boundary(s: Seq<char>, k: int)
    requires
        0 <= k <= s.len(),
        !is_crlf_at(s, k - 1),
    ensures
        editor_position_spec(s, utf8_len(s.take(k)) as int) == utf16_len(editor_form_spec(s.take(k))),
{
    lemma_chars_within_prefix(s, k);
}

/// `s` holds a lone `\r`: one not followed by `\n`.
pub open spec fn has_lone_cr(s: Seq<char>) -> bool {
    exists|i: int| 0 <= i < s.len() && #[trigger] s[i] == '\r' && !is_crlf_at(s, i)
}

/// `s` holds a bare `\n`: one not preceded by `\r`.
pub open spec fn has_bare_lf(s: Seq<char>) -> bool {
    exists|i: int| 0 <= i < s.len() && #[trigger] s[i] == '\n' && !is_crlf_at(s, i - 1)
}

/// Every single-`\n` break found from `i` on is a bare `\n`, when `i` does
/// not fall inside a `\r\n`.
proof fn lemma_breaks_bare(s: Seq<char>, i: int, shift: int)
    requires
        0 <= shift <= i,
        s.len() <= usize::MAX,
        !is_crlf_at(s, i - 1),
    ensures
        forall|j: int|
            0 <= j < breaks_from(s, i, shift).len() && (#[trigger] breaks_from(s, i, shift)[j]).len
                == 1 && s[breaks_from(s, i, shift)[j].at as int] == '\n' ==> !is_crlf_at(
                s,
                breaks_from(s, i, shift)[j].at - 1,
            ),
    decreases s.len() - i,
{
    let bs = breaks_from(s, i, shift);
    if i < 0 || i >= s.len() {
    } else if is_crlf_at(s, i) {
        lemma_breaks_bare(s, i + 2, shift + 1);
        let rest = breaks_from(s, i + 2, shift + 1);
        assert forall|j: int|
            0 <= j < bs.len() && (#[trigger] bs[j]).len == 1 && s[bs[j].at as int] == '\n' implies !is_crlf_at(
            s,
            bs[j].at - 1,
        ) by {
            assert(j > 0);
            assert(bs[j] == rest[j - 1]);
        }
    } else if s[i] == '\r' || s[i] == '\n' {
        lemma_breaks_bare(s, i + 1, shift);
        let rest = breaks_from(s, i + 1, shift);
        assert forall|j: int|
            0 <= j < bs.len() && (#[trigger] bs[j]).len == 1 && s[bs[j].at as int] == '\n' implies !is_crlf_at(
            s,
            bs[j].at - 1,
        ) by {
            if j > 0 {
                assert(bs[j] == rest[j - 1]);
            }
        }
    } else {
        lemma_breaks_bare(s, i + 1, shift);
        let rest = breaks_from(s, i + 1, shift);
        assert forall|j: int|
            0 <= j < bs.len() && (#[trigger] bs[j]).len == 1 && s[bs[j].at as int] == '\n' implies !is_crlf_at(
            s,
            bs[j].at - 1,
        ) by {
            assert(bs[j] == rest[j]);
        }
    }
}

/// Where the splice ending comes from: a `\r\n` break, a lone `\r` of the
/// text, a bare `\n` of the text, or the default `\n` of a text with no
/// break at all.
proof fn lemma_splice_ending_source(s: Seq<char>, start: int)
    requires
        s.len() <= usize::MAX,
    ensures
        splice_ending(s, start) == seq!['\r', '\n'] || (splice_ending(s, start) == seq!['\r']
            && has_lone_cr(s)) || (splice_ending(s, start) == seq!['\n'] && (has_bare_lf(s)
            || breaks_spec(s).len() == 0)),
{
    let bs = breaks_spec(s);
    lemma_breaks_after(s, 0, 0);
    lemma_breaks_bare(s, 0, 0);
    lemma_first_break_from(bs, start);
    lemma_splice_ending(s, start);
    if first_break_from(bs, start) is Some || bs.len() > 0 {
        let j = if first_break_from(bs, start) is Some {
            choose|j: int| 0 <= j < bs.len() && bs[j] == first_break_from(bs, start)->0
        } else {
            bs.len() - 1
        };
        let chosen = bs[j];
        assert(break_ok(s, chosen, 0, 0));
        let e = s.subrange(chosen.at as int, chosen.at + chosen.len);
        assert(splice_ending(s, start) == e);
        if chosen.len == 2 {
            assert(e =~= seq!['\r', '\n']);
        } else if s[chosen.at as int] == '\r' {
            assert(e =~= seq!['\r']);
            assert(has_lone_cr(s));
        } else {
            assert(e =~= seq!['\n']);
            assert(!is_crlf_at(s, chosen.at - 1));
            assert(has_bare_lf(s));
        }
    }
}

/// The last character of `m` with its newlines replaced.
proof fn lemma_replace_newlines_last(m: Seq<char>, ending: Seq<char>)
    requires
        m.len() > 0,
        ending.len() > 0,
    ensures
        replace_newlines(m, ending).len() > 0,
        replace_newlines(m, ending).last() == if m.last() == '\n' {
            ending.last()
        } else {
            m.last()
        },
{
    let one = seq![m.last()];
    assert(m =~= m.drop_last() + one);
    lemma_replace_newlines_concat(m.drop_last(), one, ending);
    assert(one.skip(1) =~= Seq::<char>::empty());
    assert(replace_newlines(one.skip(1), ending) =~= Seq::<char>::empty());
    if m.last() == '\n' {
        assert(replace_newlines(one, ending) =~= ending);
    } else {
        assert(replace_newlines(one, ending) =~= one);
    }
}

/// In a file that does not mix lone `\r`s with bare `\n`s, the splice never
/// joins a `\r` to a `\n`.
proof fn lemma_unmixed_splice_joins_no_crlf(s: Seq<char>, incoming: Seq<char>)
    requires
        s.len() <= usize::MAX,
        !(has_lone_cr(s) && has_bare_lf(s)),
    ensures
        !splice_forms_crlf(s, incoming),
{
    let inc = editor_form_spec(incoming);
    let cur = editor_form_spec(s);
    if inc != cur && !is_uniform(s) {
        let p = splice_prefix(s, incoming);
        let q = splice_suffix(s, incoming);
        lemma_common_prefix(cur, inc);
        lemma_common_suffix(cur.skip(p), inc.skip(p));
        lemma_canonical_pos(s, p);
        lemma_canonical_pos(s, cur.len() - q);
        lemma_editor_form_no_cr(incoming);
        let start = splice_start(s, incoming);
        let end = splice_end(s, incoming);
        let ending = splice_ending(s, start);
        lemma_splice_ending(s, start);
        lemma_splice_ending_source(s, start);
        let mid = inc.subrange(p, inc.len() - q);
        assert forall|i: int| 0 <= i < mid.len() implies #[trigger] mid[i] != '\r' by {
            assert(mid[i] == inc[p + i]);
        }
        let before = s.take(start);
        let ins = splice_inserted(s, incoming);
        let after = s.skip(end);
        assert(ins == replace_newlines(mid, ending));
        if mid.len() == 0 {
            assert(ins =~= Seq::<char>::empty());
        }
        if breaks_spec(s).len() == 0 {
            assert(is_uniform(s));
        }
        if !has_lone_cr(s) {
            if seam(before, ins + after) {
                assert(before.last() == s[start - 1]);
                assert(!(s[start - 1] == '\r' && !is_crlf_at(s, start - 1)));
                assert(s.skip(start)[0] == s[start]);
                assert(seam(s.take(start), s.skip(start)));
            }
            if seam(ins, after) {
                lemma_replace_newlines_last(mid, ending);
                assert(mid.last() == mid[mid.len() - 1]);
            }
        } else {
            assert(!has_bare_lf(s));
            if after.len() > 0 && after[0] == '\n' {
                assert(after[0] == s[end]);
                assert(!(s[end] == '\n' && !is_crlf_at(s, end - 1)));
                assert(s.take(end).last() == s[end - 1]);
                assert(seam(s.take(end), s.skip(end)));
            }
            if seam(before, ins + after) && ins.len() > 0 {
                lemma_replace_newlines_form(mid, ending);
                assert((ins + after)[0] == ins[0]);
            }
            if seam(before, ins + after) && ins.len() == 0 {
                assert((ins + after)[0] == after[0]);
            }
        }
    }
}

/// The editor's view is kept in every file that does not mix lone `\r`s
/// with bare `\n`s: the editor form of the reconciled text is exactly the
/// text the editor sent.
pub proof fn lemma_unmixed_file_keeps_editor_view(s: Seq<char>, incoming: Seq<char>)
    requires
        s.len() <= usize::MAX,
        !(has_lone_cr(s) && has_bare_lf(s)),
    ensures
        editor_form_spec(reconcile_spec(s, incoming)) == editor_form_spec(incoming),
{
    lemma_unmixed_splice_joins_no_crlf(s, incoming);
    lemma_reconcile_keeps_editor_view(s, incoming);
}

/// What the break counts say of the characters from `i` on: no lone-`\r`
/// break means every `\r` starts a `\r\n`, no single-`\n` break means every
/// `\n` ends one, and no `\r\n` break means there is no `\r\n`.
proof fn lemma_break_counts(s: Seq<char>, i: int, shift: int)
    requires
        0 <= shift <= i,
        s.len() <= usize::MAX,
        !is_crlf_at(s, i - 1),
    ensures
        count_single(s, breaks_from(s, i, shift), '\r') == 0 ==> forall|k: int|
            i <= k < s.len() && #[trigger] s[k] == '\r' ==> is_crlf_at(s, k),
        count_single(s, breaks_from(s, i, shift), '\n') == 0 ==> forall|k: int|
            i <= k < s.len() && #[trigger] s[k] == '\n' ==> is_crlf_at(s, k - 1),
        count_crlf(breaks_from(s, i, shift)) == 0 ==> forall|k: int|
            i <= k < s.len() ==> !is_crlf_at(s, k),
    decreases s.len() - i,
{
    let bs = breaks_from(s, i, shift);
    if i < 0 || i >= s.len() {
    } else if is_crlf_at(s, i) {
        lemma_break_counts(s, i + 2, shift + 1);
        assert(bs.drop_first() =~= breaks_from(s, i + 2, shift + 1));
    } else if s[i] == '\r' || s[i] == '\n' {
        lemma_break_counts(s, i + 1, shift);
        assert(bs.drop_first() =~= breaks_from(s, i + 1, shift));
    } else {
        lemma_break_counts(s, i + 1, shift);
    }
}

/// A uniform file, character by character: only `\r\n` breaks when its
/// ending is `\r\n`, no `\r` at all when it is `\n`.
proof fn lemma_uniform_chars(s: Seq<char>)
    requires
        s.len() <= usize::MAX,
        is_uniform(s),
    ensures
        uniform_ending(s) == seq!['\r', '\n'] ==> only_crlf_breaks(s),
        uniform_ending(s) == seq!['\n'] ==> only_lf_breaks(s),
{
    lemma_break_counts(s, 0, 0);
    if uniform_ending(s) == seq!['\r', '\n'] {
        assert(count_crlf(breaks_spec(s)) > 0);
        assert forall|i: int| 0 <= i < s.len() && #[trigger] s[i] == '\n' implies i > 0 && s[i - 1]
            == '\r' by {
            assert(is_crlf_at(s, i - 1));
        }
        assert forall|i: int| 0 <= i < s.len() && #[trigger] s[i] == '\r' implies i + 1 < s.len()
            && s[i + 1] == '\n' by {
            assert(is_crlf_at(s, i));
        }
    } else {
        assert(count_crlf(breaks_spec(s)) == 0);
        assert forall|i: int| 0 <= i < s.len() implies #[trigger] s[i] != '\r' by {
            if s[i] == '\r' {
                assert(is_crlf_at(s, i));
            }
        }
    }
}

/// Writing every `\n` as `\n` changes nothing.
proof fn lemma_replace_lf_identity(t: Seq<char>)
    ensures
        replace_newlines(t, seq!['\n']) == t,
    decreases t.len(),
{
    if t.len() > 0 {
        lemma_replace_lf_identity(t.skip(1));
        assert(t =~= seq![t[0]] + t.skip(1));
    }
}

/// A text whose only breaks are `\r\n` is its editor form with every `\n`
/// written as `\r\n`.
proof fn lemma_crlf_text_form(t: Seq<char>)
    requires
        only_crlf_breaks(t),
    ensures
        replace_newlines(editor_form_spec(t), seq!['\r', '\n']) == t,
    decreases t.len(),
{
    let crlf = seq!['\r', '\n'];
    if t.len() > 0 {
        let f = editor_form_spec(t);
        if t[0] == '\r' {
            assert(is_crlf_at(t, 0));
            let u = t.skip(2);
            assert forall|i: int| 0 <= i < u.len() && #[trigger] u[i] == '\n' implies i > 0 && u[i - 1]
                == '\r' by {
                assert(u[i] == t[i + 2]);
                if i > 0 {
                    assert(u[i - 1] == t[i + 1]);
                }
            }
            assert forall|i: int| 0 <= i < u.len() && #[trigger] u[i] == '\r' implies i + 1 < u.len()
                && u[i + 1] == '\n' by {
                assert(u[i] == t[i + 2]);
                assert(t[i + 3] == '\n');
                assert(u[i + 1] == t[i + 3]);
            }
            lemma_crlf_text_form(u);
            assert(f[0] == '\n');
            assert(f.skip(1) =~= editor_form_spec(u));
            assert(t =~= crlf + u);
        } else {
            assert(t[0] != '\n');
            assert(!is_crlf_at(t, 0));
            let u = t.skip(1);
            assert forall|i: int| 0 <= i < u.len() && #[trigger] u[i] == '\n' implies i > 0 && u[i - 1]
                == '\r' by {
                assert(u[i] == t[i + 1]);
                assert(t[i] == '\r');
                if i > 0 {
                    assert(u[i - 1] == t[i]);
                }
            }
            assert forall|i: int| 0 <= i < u.len() && #[trigger] u[i] == '\r' implies i + 1 < u.len()
                && u[i + 1] == '\n' by {
                assert(u[i] == t[i + 1]);
                assert(u[i + 1] == t[i + 2]);
            }
            lemma_crlf_text_form(u);
            assert(f[0] == t[0]);
            assert(f.skip(1) =~= editor_form_spec(u));
            assert(t =~= seq![t[0]] + u);
        }
    }
}

/// A cut that splits no `\r\n` leaves both sides with only `\r\n` breaks.
proof fn lemma_crlf_cut(s: Seq<char>, k: int)
    requires
        only_crlf_breaks(s),
        0 <= k <= s.len(),
        !seam(s.take(k), s.skip(k)),
    ensures
        only_crlf_breaks(s.take(k)),
        only_crlf_breaks(s.skip(k)),
{
    let a = s.take(k);
    let b = s.skip(k);
    assert forall|i: int| 0 <= i < a.len() && #[trigger] a[i] == '\r' implies i + 1 < a.len() && a[i
        + 1] == '\n' by {
        if i + 1 == k {
            assert(a.last() == s[i]);
            assert(b[0] == s[k]);
        }
    }
    assert forall|i: int| 0 <= i < a.len() && #[trigger] a[i] == '\n' implies i > 0 && a[i - 1] == '\r' by {
        assert(a[i] == s[i]);
    }
    assert forall|i: int| 0 <= i < b.len() && #[trigger] b[i] == '\n' implies i > 0 && b[i - 1] == '\r' by {
        assert(b[i] == s[k + i]);
        if i == 0 {
            assert(a.last() == s[k - 1]);
        } else {
            assert(b[i - 1] == s[k + i - 1]);
        }
    }
    assert forall|i: int| 0 <= i < b.len() && #[trigger] b[i] == '\r' implies i + 1 < b.len() && b[i
        + 1] == '\n' by {
        assert(b[i] == s[k + i]);
        assert(b[i + 1] == s[k + i + 1]);
    }
}

/// A piece of a uniform file, cut where no `\r\n` is split, is its editor
/// form with every `\n` written as the file's ending.
proof fn lemma_uniform_piece(s: Seq<char>, piece: Seq<char>, k: int, take: bool)
    requires
        s.len() <= usize::MAX,
        is_uniform(s),
        0 <= k <= s.len(),
        !seam(s.take(k), s.skip(k)),
        piece == if take { s.take(k) } else { s.skip(k) },
    ensures
        replace_newlines(editor_form_spec(piece), uniform_ending(s)) == piece,
{
    lemma_uniform_chars(s);
    if uniform_ending(s) == seq!['\r', '\n'] {
        lemma_crlf_cut(s, k);
        lemma_crlf_text_form(piece);
    } else {
        assert forall|i: int| 0 <= i < piece.len() implies #[trigger] piece[i] != '\r' by {
            if take {
                assert(piece[i] == s[i]);
            } else {
                assert(piece[i] == s[k + i]);
            }
        }
        lemma_editor_form_identity(piece);
        lemma_replace_lf_identity(piece);
    }
}

/// Every reconcile that changes the text keeps every canonical character
/// outside the edited range, line endings included: the text before the
/// splice start and after the splice end come through unchanged, for
/// uniform and mixed files alike.
pub proof fn lemma_reconcile_keeps_outside(s: Seq<char>, incoming: Seq<char>)
    requires
        s.len() <= usize::MAX,
        editor_form_spec(incoming) != editor_form_spec(s),
    ensures
        0 <= splice_start(s, incoming) <= splice_end(s, incoming) <= s.len(),
        splice_start(s, incoming) + (s.len() - splice_end(s, incoming)) <= reconcile_spec(
            s,
            incoming,
        ).len(),
        reconcile_spec(s, incoming).take(splice_start(s, incoming)) == s.take(
            splice_start(s, incoming),
        ),
        reconcile_spec(s, incoming).skip(
            reconcile_spec(s, incoming).len() - (s.len() - splice_end(s, incoming)),
        ) == s.skip(splice_end(s, incoming)),
{
    let inc = editor_form_spec(incoming);
    let cur = editor_form_spec(s);
    let p = splice_prefix(s, incoming);
    let q = splice_suffix(s, incoming);
    lemma_common_prefix(cur, inc);
    lemma_common_suffix(cur.skip(p), inc.skip(p));
    lemma_canonical_pos(s, p);
    lemma_canonical_pos(s, cur.len() - q);
    lemma_canonical_pos_monotone(s, p, cur.len() - q);
    let start = splice_start(s, incoming);
    let end = splice_end(s, incoming);
    let r = reconcile_spec(s, incoming);
    let a = s.take(start);
    let z = s.skip(end);
    if is_uniform(s) {
        let e = uniform_ending(s);
        lemma_uniform_piece(s, a, start, true);
        lemma_uniform_piece(s, z, end, false);
        let mid = inc.subrange(p, inc.len() - q);
        assert(cur.skip(p).skip(cur.skip(p).len() - q) =~= cur.skip(cur.len() - q));
        assert(inc.skip(p).skip(inc.skip(p).len() - q) =~= inc.skip(inc.len() - q));
        assert(inc =~= inc.take(p) + mid + inc.skip(inc.len() - q));
        lemma_replace_newlines_concat(inc.take(p), mid, e);
        lemma_replace_newlines_concat(inc.take(p) + mid, inc.skip(inc.len() - q), e);
        let rm = replace_newlines(mid, e);
        assert(r == a + rm + z);
        assert(r.take(start) =~= a);
        assert(r.skip(r.len() - (s.len() - end)) =~= z);
    } else {
        lemma_splice_keeps_outside(s, incoming);
        let ins = splice_inserted(s, incoming);
        assert(r == a + ins + z);
        assert(r.skip(r.len() - (s.len() - end)) =~= z);
    }
}

/// The UTF-8 length of a text is the length of its encoding.
proof fn lemma_utf8_len_encoding(s: Seq<char>)
    ensures
        utf8_len(s) == encode_utf8(s).len(),
    decreases s.len(),
{
    if s.len() > 0 {
        assert(s.drop_first() =~= s.skip(1));
        lemma_utf8_len_encoding(s.skip(1));
    }
}

/// The editor positions of a text whose bytes fit a `usize` (every `str`'s
/// do; `editor_position` ensures it) keep their order and end at the UTF-16
/// length of the whole editor form, reached at `usize::MAX`.
pub proof fn lemma_editor_position_range(s: Seq<char>, b1: int, b2: int)
    requires
        0 <= b1 <= b2 <= usize::MAX,
        utf8_len(s) <= usize::MAX,
    ensures
        editor_position_spec(s, b1) <= editor_position_spec(s, b2),
        editor_position_spec(s, b2) <= editor_position_spec(s, usize::MAX as int),
        editor_position_spec(s, usize::MAX as int) == utf16_len(editor_form_spec(s)),
{
    lemma_editor_position_monotone(s, b1, b2);
    lemma_editor_position_monotone(s, b2, usize::MAX as int);
    lemma_editor_position_end(s, usize::MAX as int);
}

} // verus!
