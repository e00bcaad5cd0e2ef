//! The document session: the canonical raw text of one open document, its
//! revision and its dirty state.
//!
//! Every accepted mutation increments the revision, marks the session
//! dirty and records the line ending of the new text. Text Mode's updates arrive as editor text and are reconciled with
//! the canonical text, so the file's own line endings survive.

use vstd::prelude::*;
use crate::editor_text::{editor_form, editor_form_spec, is_crlf_at, reconcile, reconcile_spec};
use crate::text::chars_of;
use crate::link_click::utf8_text;
use vstd::utf8::{decode_utf8, valid_utf8};

verus! {

/// The identity of a file's on-disk content: its length and a hash of it.
#[derive(Debug, Clone, Copy, PartialEq, Eq, Structural)]
pub struct Fingerprint {
    pub len: u64,
    pub hash: u64,
}

/// Structured session errors.
#[derive(Debug, Clone, PartialEq, Eq)]
pub enum SessionError {
    /// The client's base revision is not the session's current one.
    TextRevisionMismatch { base: u64, current: u64 },
    /// A Form Mode edit could not be resolved (its message).
    Form(String),
    /// A source patch could not be applied (its message).
    Patch(String),
    /// The file could not be read (the reason).
    Read(String),
    /// The file is not valid UTF-8.
    NotUtf8,
}

/// The line ending a document is said to use.
#[derive(Debug, Clone, Copy, PartialEq, Eq, Structural)]
pub enum LineEnding {
    Lf,
    Crlf,
}

/// The line ending of `s`: `Crlf` when it holds a `\r\n`, else `Lf`.
pub open spec fn line_ending_of(s: Seq<char>) -> LineEnding {
    if exists|i: int| #[trigger] is_crlf_at(s, i) {
        LineEnding::Crlf
    } else {
        LineEnding::Lf
    }
}

impl LineEnding {
    /// The line ending of `text`: `Crlf` when it holds a `\r\n`, else `Lf`.
    pub fn detect(text: &str) -> (e: Self)
        ensures
            e == line_ending_of(text@),
    {
        let s = chars_of(text);
        let mut i: usize = 0;
        while i < s.len()
            invariant
                s@ == text@,
                i <= s@.len(),
                forall|k: int| 0 <= k < i ==> !#[trigger] is_crlf_at(s@, k),
            decreases s.len() - i,
        {
            if s[i] == '\r' && i + 1 < s.len() && s[i + 1] == '\n' {
                assert(is_crlf_at(s@, i as int));
                return LineEnding::Crlf;
            }
            i = i + 1;
        }
        assert forall|k: int| !#[trigger] is_crlf_at(s@, k) by {
            if 0 <= k < i {
            }
        }
        LineEnding::Lf
    }
}

/// One open Markdown document.
#[derive(Debug, Clone)]
pub struct DocumentSession {
    pub document_id: u64,
    /// Path of the backing file.
    pub path: String,
    pub canonical_text: String,
    /// Incremented on every accepted mutation.
    pub revision: u64,
    /// True when memory differs from the last confirmed save.
    pub dirty: bool,
    /// `true` for in-memory files not yet saved to disk.
    pub is_untitled: bool,
    /// Identity of the last-known on-disk content.
    pub disk_fingerprint: Option<Fingerprint>,
    /// The line ending of the canonical text.
    pub line_ending: LineEnding,
}

/// The Unicode `White_Space` characters.
pub open spec fn is_white_space(c: char) -> bool {
    let v = c as u32;
    (0x9 <= v <= 0xD) || v == 0x20 || v == 0x85 || v == 0xA0 || v == 0x1680 || (0x2000 <= v
        <= 0x200A) || v == 0x2028 || v == 0x2029 || v == 0x202F || v == 0x205F || v == 0x3000
}

/// Whether `c` has the Unicode `White_Space` property, as
/// `char::is_whitespace` answers.
pub(crate) fn char_is_whitespace(c: char) -> (ws: bool)
    ensures
        ws == is_white_space(c),
{
    let v = c as u32;
    (0x9 <= v && v <= 0xD) || v == 0x20 || v == 0x85 || v == 0xA0 || v == 0x1680 || (0x2000 <= v
        && v <= 0x200A) || v == 0x2028 || v == 0x2029 || v == 0x202F || v == 0x205F || v == 0x3000
}

/// The number of words of `s`: maximal runs of non-white-space characters.
pub open spec fn word_count(s: Seq<char>) -> nat
    decreases s.len(),
{
    if s.len() == 0 {
        0
    } else {
        word_count(s.drop_last()) + if !is_white_space(s.last()) && (s.len() == 1
            || is_white_space(s[s.len() - 2])) {
            1nat
        } else {
            0nat
        }
    }
}

impl DocumentSession {
    /// Creates a session over in-memory text (also used by recovery
    /// restore): revision 1, clean, no disk identity yet.
    pub fn from_text(document_id: u64, path: String, text: String) -> (s: Self)
        ensures
            s.document_id == document_id,
            s.path == path,
            s.canonical_text@ == text@,
            s.revision == 1,
            !s.dirty,
            !s.is_untitled,
            s.disk_fingerprint is None,
            s.line_ending == line_ending_of(text@),
    {
        let line_ending = LineEnding::detect(text.as_str());
        DocumentSession {
            line_ending,
            document_id,
            path,
            canonical_text: text,
            revision: 1,
            dirty: false,
            is_untitled: false,
            disk_fingerprint: None,
        }
    }

    /// A session over a file's bytes, as read from disk with the disk
    /// identity `fingerprint` (if it could be read): its text if the bytes are
    /// UTF-8, revision 1 and clean. Bytes that are not UTF-8 are refused with
    /// `NotUtf8`, never decoded lossily.
    pub fn from_bytes(document_id: u64, path: String, bytes: Vec<u8>, fingerprint: Option<Fingerprint>) -> (r: Result<Self, SessionError>)
        ensures
            !valid_utf8(bytes@) ==> r == Err::<Self, SessionError>(SessionError::NotUtf8),
            valid_utf8(bytes@) ==> (r matches Ok(s) && s.document_id == document_id && s.path == path
                && s.canonical_text@ == decode_utf8(bytes@) && s.revision == 1 && !s.dirty
                && !s.is_untitled && s.disk_fingerprint == fingerprint
                && s.line_ending == line_ending_of(decode_utf8(bytes@))),
    {
        match utf8_text(bytes) {
            None => Err(SessionError::NotUtf8),
            Some(text) => {
                let mut session = DocumentSession::from_text(document_id, path, text);
                session.disk_fingerprint = fingerprint;
                Ok(session)
            },
        }
    }

    /// A blank in-memory session that has not been saved to disk, at the
    /// scratch `path` the caller chose for it.
    pub fn new_untitled(document_id: u64, path: String) -> (s: Self)
        ensures
            s.document_id == document_id,
            s.path == path,
            s.canonical_text@ == Seq::<char>::empty(),
            s.revision == 1,
            s.dirty,
            s.is_untitled,
            s.disk_fingerprint is None,
            s.line_ending == LineEnding::Lf,
    {
        DocumentSession {
            line_ending: LineEnding::Lf,
            document_id,
            path,
            canonical_text: String::new(),
            revision: 1,
            dirty: true,
            is_untitled: true,
            disk_fingerprint: None,
        }
    }

    /// Replaces the canonical text after revision validation (a whole-text
    /// snapshot). A snapshot equal to the current text changes nothing.
    pub fn apply_text_snapshot(&mut self, base_revision: u64, text: String) -> (r: Result<
        (),
        SessionError,
    >)
        requires
            old(self).revision < u64::MAX,
        ensures
            base_revision != old(self).revision ==> r == Err::<(), SessionError>(
                SessionError::TextRevisionMismatch { base: base_revision, current: old(self).revision },
            ) && *final(self) == *old(self),
            base_revision == old(self).revision ==> r is Ok,
            base_revision == old(self).revision && text@ == old(self).canonical_text@
                ==> *final(self) == *old(self),
            base_revision == old(self).revision && text@ != old(self).canonical_text@ ==> {
                &&& final(self).canonical_text@ == text@
                &&& final(self).revision == old(self).revision + 1
                &&& final(self).dirty
                &&& final(self).line_ending == line_ending_of(text@)
                &&& final(self).document_id == old(self).document_id
                &&& final(self).path == old(self).path
                &&& final(self).is_untitled == old(self).is_untitled
                &&& final(self).disk_fingerprint == old(self).disk_fingerprint
            },
    {
        if base_revision != self.revision {
            return Err(
                SessionError::TextRevisionMismatch { base: base_revision, current: self.revision },
            );
        }
        if text == self.canonical_text {
            return Ok(());
        }
        self.canonical_text = text;
        self.after_mutation();
        Ok(())
    }

    /// Text Mode update: `editor_text` is the editor's own text (editor
    /// form); it is reconciled with the canonical text. `Ok(true)` when the
    /// canonical text changed, `Ok(false)` when it did not.
    pub fn apply_editor_text(&mut self, base_revision: u64, editor_text: &str) -> (r: Result<
        bool,
        SessionError,
    >)
        requires
            old(self).revision < u64::MAX,
        ensures
            base_revision != old(self).revision ==> r == Err::<bool, SessionError>(
                SessionError::TextRevisionMismatch { base: base_revision, current: old(self).revision },
            ) && *final(self) == *old(self),
            base_revision == old(self).revision ==> {
                let next = reconcile_spec(old(self).canonical_text@, editor_text@);
                &&& r == Ok::<bool, SessionError>(next != old(self).canonical_text@)
                &&& next == old(self).canonical_text@ ==> *final(self) == *old(self)
                &&& next != old(self).canonical_text@ ==> {
                    &&& final(self).canonical_text@ == next
                    &&& final(self).revision == old(self).revision + 1
                    &&& final(self).dirty
                    &&& final(self).line_ending == line_ending_of(next)
                    &&& final(self).document_id == old(self).document_id
                    &&& final(self).path == old(self).path
                    &&& final(self).is_untitled == old(self).is_untitled
                    &&& final(self).disk_fingerprint == old(self).disk_fingerprint
                }
            },
    {
        if base_revision != self.revision {
            return Err(
                SessionError::TextRevisionMismatch { base: base_revision, current: self.revision },
            );
        }
        let next = reconcile(self.canonical_text.as_str(), editor_text);
        if next == self.canonical_text {
            return Ok(false);
        }
        self.canonical_text = next;
        self.after_mutation();
        Ok(true)
    }

    /// Whether `editor_text` is exactly what the editor shows for the
    /// canonical text.
    pub fn matches_editor_text(&self, editor_text: &str) -> (m: bool)
        ensures
            m == (editor_form_spec(self.canonical_text@) == editor_text@),
    {
        let form = editor_form(self.canonical_text.as_str());
        let given = editor_text.to_owned();
        form == given
    }

    /// Restores earlier text (a history entry or a recovery snapshot) as a
    /// new dirty edit.
    pub fn apply_restored_snapshot(&mut self, text: String)
        requires
            old(self).revision < u64::MAX,
        ensures
            final(self).canonical_text@ == text@,
            final(self).revision == old(self).revision + 1,
            final(self).dirty,
            final(self).line_ending == line_ending_of(text@),
            final(self).document_id == old(self).document_id,
            final(self).path == old(self).path,
            final(self).is_untitled == old(self).is_untitled,
            final(self).disk_fingerprint == old(self).disk_fingerprint,
    {
        self.canonical_text = text;
        self.after_mutation();
    }

    /// Form Mode update: `patched` is the canonical text with the form
    /// command's minimal patch applied, or why it could not be resolved or
    /// applied. A patched text is accepted as a new revision.
    pub fn apply_form_result(&mut self, patched: Result<String, SessionError>) -> (r: Result<
        (),
        SessionError,
    >)
        requires
            old(self).revision < u64::MAX,
        ensures
            match patched {
                Err(e) => r == Err::<(), SessionError>(e) && *final(self) == *old(self),
                Ok(text) => {
                    &&& r is Ok
                    &&& final(self).canonical_text == text
                    &&& final(self).revision == old(self).revision + 1
                    &&& final(self).dirty
                    &&& final(self).line_ending == line_ending_of(text@)
                    &&& final(self).document_id == old(self).document_id
                    &&& final(self).path == old(self).path
                    &&& final(self).is_untitled == old(self).is_untitled
                    &&& final(self).disk_fingerprint == old(self).disk_fingerprint
                },
            },
    {
        match patched {
            Err(e) => Err(e),
            Ok(text) => {
                self.canonical_text = text;
                self.after_mutation();
                Ok(())
            },
        }
    }

    fn after_mutation(&mut self)
        requires
            old(self).revision < u64::MAX,
        ensures
            final(self).revision == old(self).revision + 1,
            final(self).dirty,
            final(self).canonical_text == old(self).canonical_text,
            final(self).line_ending == line_ending_of(old(self).canonical_text@),
            final(self).document_id == old(self).document_id,
            final(self).path == old(self).path,
            final(self).is_untitled == old(self).is_untitled,
            final(self).disk_fingerprint == old(self).disk_fingerprint,
    {
        self.revision = self.revision + 1;
        self.dirty = true;
        self.line_ending = LineEnding::detect(self.canonical_text.as_str());
    }

    /// Marks the session clean after a confirmed save.
    pub fn mark_saved(&mut self, fingerprint: Fingerprint)
        ensures
            !final(self).dirty,
            final(self).disk_fingerprint == Some(fingerprint),
            final(self).canonical_text == old(self).canonical_text,
            final(self).revision == old(self).revision,
            final(self).document_id == old(self).document_id,
            final(self).path == old(self).path,
            final(self).is_untitled == old(self).is_untitled,
            final(self).line_ending == old(self).line_ending,
    {
        self.dirty = false;
        self.disk_fingerprint = Some(fingerprint);
    }

    /// Returns `(word_count, char_count)` for the current canonical text.
    pub fn word_char_count(&self) -> (counts: (usize, usize))
        ensures
            counts.0 == word_count(self.canonical_text@),
            counts.1 == self.canonical_text@.len(),
    {
        let s = chars_of(self.canonical_text.as_str());
        let n = s.len();
        let mut words: usize = 0;
        let mut i: usize = 0;
        assert(s@.take(0) =~= Seq::<char>::empty());
        while i < n
            invariant
                n == s@.len(),
                i <= n,
                words <= i,
                words == word_count(s@.take(i as int)),
            decreases n - i,
        {
            let ws = char_is_whitespace(s[i]);
            let starts = !ws && (i == 0 || char_is_whitespace(s[i - 1]));
            proof {
                let t = s@.take(i + 1);
                assert(t.drop_last() =~= s@.take(i as int));
                assert(t.last() == s@[i as int]);
                if i > 0 {
                    assert(t[t.len() - 2] == s@[i - 1]);
                }
            }
            if starts {
                words = words + 1;
            }
            i = i + 1;
        }
        assert(s@.take(n as int) =~= s@);
        (words, n)
    }
}

/// Any white-space character separates words: the words of `a`, a white
/// space, then `b` are those of `a` and those of `b`.
pub proof fn lemma_white_space_separates_words(a: Seq<char>, c: char, b: Seq<char>)
    requires
        is_white_space(c),
    ensures
        word_count(a + seq![c] + b) == word_count(a) + word_count(b),
    decreases b.len(),
{
    let s = a + seq![c] + b;
    if b.len() == 0 {
        assert(s.drop_last() =~= a);
        assert(s.last() == c);
    } else {
        let b2 = b.drop_last();
        lemma_white_space_separates_words(a, c, b2);
        assert(s.drop_last() =~= a + seq![c] + b2);
        assert(s.last() == b.last());
        if b2.len() > 0 {
            assert(s[s.len() - 2] == b2.last());
            assert(b[b.len() - 2] == b2.last());
        } else {
            assert(s[s.len() - 2] == c);
        }
    }
}

/// A non-empty run without white space is one word.
pub proof fn lemma_one_word(w: Seq<char>)
    requires
        w.len() > 0,
        forall|i: int| 0 <= i < w.len() ==> !is_white_space(#[trigger] w[i]),
    ensures
        word_count(w) == 1,
    decreases w.len(),
{
    assert(!is_white_space(w[w.len() - 1]));
    if w.len() > 1 {
        let v = w.drop_last();
        assert forall|i: int| 0 <= i < v.len() implies !is_white_space(#[trigger] v[i]) by {
            assert(v[i] == w[i]);
        }
        lemma_one_word(v);
        assert(!is_white_space(w[w.len() - 2]));
    } else {
        assert(w.drop_last().len() == 0);
        assert(word_count(w.drop_last()) == 0);
    }
}

/// Space, tab, line feed and carriage return are all white space, so a
/// line break separates words as a space does.
pub proof fn lemma_line_breaks_are_white_space()
    ensures
        is_white_space(' '),
        is_white_space('\t'),
        is_white_space('\n'),
        is_white_space('\r'),
        !is_white_space('a'),
        !is_white_space('#'),
{
}

} // verus!
