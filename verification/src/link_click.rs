//! What a click on a link in rendered Markdown may do.
//!
//! The click handler forwards the clicked `href` here and does exactly what
//! comes back. Only a destination the caller's Markdown classification
//! calls a web or mail link (its `http:`, `https:` and `mailto:` schemes)
//! ever yields `OpenExternal`; which schemes those are is that
//! classification's guarantee, not this module's. `ExternalUrl` can be built
//! nowhere else, so nothing but a decided URL can reach the OS opener. A relative path is
//! resolved against the current document's directory and must land on an
//! existing Markdown file inside the workspace, after canonicalisation
//! (which follows symlinks, so a link out of the workspace is refused). It
//! is never handed to the OS.
//!
//! Paths are component lists (the names between `/` separators) of
//! absolute, canonical paths; the caller canonicalises on disk between the
//! steps: `link_action`, then `requested_path`, `lexical_target` and
//! `resolved_document`.

use vstd::prelude::*;
use vstd::utf8::{decode_utf8, encode_utf8, valid_utf8};
use crate::text::chars_of;

verus! {

/// A URL that may be handed to the OS opener. Only `link_action` makes one,
/// and only from a destination classified as a web or mail link.
#[derive(Debug, Clone, PartialEq, Eq)]
pub struct ExternalUrl(String);

impl ExternalUrl {
    /// The URL's text.
    pub closed spec fn url(&self) -> Seq<char> {
        self.0@
    }

    pub fn as_str(&self) -> (s: &str)
        ensures
            s@ == self.url(),
    {
        self.0.as_str()
    }
}

/// Why a link was not followed. The app shows each as a notice.
#[derive(Debug, Clone, Copy, PartialEq, Eq, Structural)]
pub enum LinkRefusal {
    /// The link has no destination.
    NoTarget,
    /// A scheme other than `http:`, `https:` and `mailto:`.
    UnsupportedScheme,
    /// `//host/x` or `\\host\x`: names another machine.
    NetworkPath,
    /// A path from the filesystem root.
    AbsolutePath,
    /// The destination is not a valid path (bad percent-encoding, NUL).
    InvalidPath,
    /// A relative path with no open document or no open workspace to
    /// resolve it against.
    NoBase,
    /// Resolves outside the workspace root, lexically or through a symlink.
    OutsideWorkspace,
    /// Resolves inside the workspace to nothing that exists.
    NotFound,
    /// Exists, but is not a Markdown file.
    NotADocument,
}

/// How a link destination was classified.
#[derive(Debug, Clone, Copy, PartialEq, Eq, Structural)]
pub enum DestinationKind {
    Web,
    Mail,
    Fragment,
    NetworkPath,
    Other,
    Path,
}

#[derive(Debug, Clone, PartialEq, Eq)]
pub enum LinkAction {
    /// Hand to the system browser or mail client.
    OpenExternal(ExternalUrl),
    /// A `#fragment`: stays in the page. The text after `#`.
    InPage(String),
    /// A Markdown file inside the workspace, as a workspace-relative path.
    OpenDocument(String),
    Refuse(LinkRefusal),
}

/// What a click on a destination of kind `kind` does, its normalised text
/// being `normalized`; `None` for a path, which must be resolved.
pub open spec fn link_action_spec(kind: DestinationKind, normalized: Seq<char>) -> Option<
    LinkAction,
> {
    match kind {
        DestinationKind::Web | DestinationKind::Mail => None,
        DestinationKind::Fragment => None,
        DestinationKind::NetworkPath => Some(LinkAction::Refuse(LinkRefusal::NetworkPath)),
        DestinationKind::Other => Some(LinkAction::Refuse(LinkRefusal::UnsupportedScheme)),
        DestinationKind::Path => None,
    }
}

/// Decides a click on a destination that needs no filesystem: a web or mail
/// URL opens externally, a fragment stays in the page, a network path and
/// any other scheme are refused. A path returns `None`: it is resolved with
/// `requested_path`, `lexical_target` and `resolved_document`.
pub fn link_action(kind: DestinationKind, normalized: &str) -> (action: Option<LinkAction>)
    requires
        kind is Fragment ==> normalized@.len() >= 1,
    ensures
        (kind is Web || kind is Mail) ==> (action matches Some(LinkAction::OpenExternal(url))
            && url.url() == normalized@),
        kind is Fragment ==> (action matches Some(LinkAction::InPage(text)) && text@
            == normalized@.skip(1)),
        !(kind is Web || kind is Mail || kind is Fragment) ==> action == link_action_spec(
            kind,
            normalized@,
        ),
        action matches Some(LinkAction::OpenExternal(_)) ==> (kind is Web || kind is Mail),
{
    match kind {
        DestinationKind::Web | DestinationKind::Mail => Some(
            LinkAction::OpenExternal(ExternalUrl(normalized.to_owned())),
        ),
        DestinationKind::Fragment => {
            let chars = chars_of(normalized);
            let mut rest = String::new();
            let mut i: usize = 1;
            while i < chars.len()
                invariant
                    1 <= i <= chars@.len(),
                    rest@ == chars@.subrange(1, i as int),
                decreases chars.len() - i,
            {
                crate::text::push_char(&mut rest, chars[i]);
                i = i + 1;
                assert(rest@ =~= chars@.subrange(1, i as int));
            }
            assert(chars@.subrange(1, chars@.len() as int) =~= chars@.skip(1));
            Some(LinkAction::InPage(rest))
        },
        DestinationKind::NetworkPath => Some(LinkAction::Refuse(LinkRefusal::NetworkPath)),
        DestinationKind::Other => Some(LinkAction::Refuse(LinkRefusal::UnsupportedScheme)),
        DestinationKind::Path => None,
    }
}

// ---------------------------------------------------------------------------
// Percent-decoding
// ---------------------------------------------------------------------------

/// The value of an ASCII hex digit.
pub open spec fn hex_value(c: u8) -> Option<u8> {
    if 0x30 <= c <= 0x39 {
        Some((c - 0x30) as u8)
    } else if 0x61 <= c <= 0x66 {
        Some((c - 0x61 + 10) as u8)
    } else if 0x41 <= c <= 0x46 {
        Some((c - 0x41 + 10) as u8)
    } else {
        None
    }
}

/// The byte two hex digits spell.
pub open spec fn hex_pair_spec(high: u8, low: u8) -> Option<u8> {
    match (hex_value(high), hex_value(low)) {
        (Some(h), Some(l)) => Some((h * 16 + l) as u8),
        _ => None,
    }
}

/// `bytes` with every `%XX` escape decoded; a `%` not followed by two hex
/// digits stays literal, as in a browser.
pub open spec fn percent_decode_bytes(bytes: Seq<u8>) -> Seq<u8>
    decreases bytes.len(),
{
    if bytes.len() == 0 {
        Seq::empty()
    } else if bytes[0] == 0x25 && bytes.len() > 2 && hex_pair_spec(bytes[1], bytes[2]) is Some {
        seq![hex_pair_spec(bytes[1], bytes[2])->0] + percent_decode_bytes(bytes.skip(3))
    } else {
        seq![bytes[0]] + percent_decode_bytes(bytes.skip(1))
    }
}

fn hex_digit(c: u8) -> (d: Option<u8>)
    ensures
        d == hex_value(c),
        d matches Some(v) ==> v < 16,
{
    if 0x30 <= c && c <= 0x39 {
        Some(c - 0x30)
    } else if 0x61 <= c && c <= 0x66 {
        Some(c - 0x61 + 10)
    } else if 0x41 <= c && c <= 0x46 {
        Some(c - 0x41 + 10)
    } else {
        None
    }
}

/// The byte the hex digits `high` and `low` spell, if both are hex digits.
pub fn hex_pair(high: u8, low: u8) -> (b: Option<u8>)
    ensures
        b == hex_pair_spec(high, low),
{
    match (hex_digit(high), hex_digit(low)) {
        (Some(h), Some(l)) => Some(h * 16 + l),
        _ => None,
    }
}

/// `String::from_utf8`: the text the bytes encode, if they are UTF-8.
#[verifier::external_body]
pub(crate) fn utf8_text(bytes: Vec<u8>) -> (text: Option<String>)
    ensures
        text is Some <==> valid_utf8(bytes@),
        text matches Some(t) ==> t@ == decode_utf8(bytes@),
{
    String::from_utf8(bytes).ok()
}

/// Decodes `%XX` escapes. A `%` not followed by two hex digits stays
/// literal. `None` if the result is not UTF-8.
pub fn percent_decode(text: &str) -> (decoded: Option<String>)
    ensures
        decoded is Some <==> valid_utf8(percent_decode_bytes(encode_utf8(text@))),
        decoded matches Some(d) ==> d@ == decode_utf8(percent_decode_bytes(encode_utf8(text@))),
{
    let bytes = text.as_bytes();
    let n = bytes.len();
    let mut out: Vec<u8> = Vec::new();
    let mut i: usize = 0;
    assert(bytes@.skip(0) =~= bytes@);
    assert(out@ + percent_decode_bytes(bytes@) =~= percent_decode_bytes(bytes@));
    while i < n
        invariant
            n == bytes@.len(),
            i <= n,
            out@ + percent_decode_bytes(bytes@.skip(i as int)) == percent_decode_bytes(bytes@),
        decreases n - i,
    {
        let ghost rest = bytes@.skip(i as int);
        assert(rest[0] == bytes@[i as int]);
        let escaped = if bytes[i] == 0x25 && n - i > 2 {
            hex_pair(bytes[i + 1], bytes[i + 2])
        } else {
            None
        };
        match escaped {
            Some(byte) => {
                assert(rest[1] == bytes@[i + 1] && rest[2] == bytes@[i + 2]);
                assert(rest.skip(3) =~= bytes@.skip(i + 3));
                out.push(byte);
                i = i + 3;
            },
            None => {
                if bytes[i] == 0x25 && n - i > 2 {
                    assert(rest[1] == bytes@[i + 1] && rest[2] == bytes@[i + 2]);
                }
                assert(rest.skip(1) =~= bytes@.skip(i + 1));
                out.push(bytes[i]);
                i = i + 1;
            },
        }
        assert(out@ + percent_decode_bytes(bytes@.skip(i as int)) =~= percent_decode_bytes(
            bytes@,
        ));
    }
    assert(bytes@.skip(n as int) =~= Seq::<u8>::empty());
    assert(out@ + Seq::<u8>::empty() =~= out@);
    utf8_text(out)
}


// ---------------------------------------------------------------------------
// Resolving a relative path
// ---------------------------------------------------------------------------

/// The views of a list of strings.
pub open spec fn views(v: Seq<String>) -> Seq<Seq<char>> {
    v.map_values(|s: String| s@)
}

/// A path separator in a link: `/` or `\`.
pub open spec fn is_separator(c: char) -> bool {
    c == '/' || c == '\\'
}

/// The index of the first `c` in `s`, or its length.
pub open spec fn first_index(s: Seq<char>, c: char) -> int
    decreases s.len(),
{
    if s.len() == 0 || s[0] == c {
        0
    } else {
        1 + first_index(s.skip(1), c)
    }
}

/// The index of the first `#` or `?` in `s`, or its length.
pub open spec fn path_end(s: Seq<char>) -> int
    decreases s.len(),
{
    if s.len() == 0 || s[0] == '#' || s[0] == '?' {
        0
    } else {
        1 + path_end(s.skip(1))
    }
}

/// The components of a relative path: its `/`-separated names, with empty
/// names and `.` left out (`..` is kept).
pub open spec fn components(s: Seq<char>) -> Seq<Seq<char>>
    decreases s.len(),
{
    if s.len() == 0 {
        Seq::empty()
    } else {
        let k = first_index(s, '/');
        proof {
            lemma_first_index(s, '/');
        }
        let seg = s.take(k);
        let rest = if k < s.len() {
            components(s.skip(k + 1))
        } else {
            Seq::empty()
        };
        if seg.len() == 0 || seg == seq!['.'] {
            rest
        } else {
            seq![seg] + rest
        }
    }
}

/// What `requested_path` decides for a path destination `normalized`.
pub open spec fn requested_path_spec(normalized: Seq<char>) -> Result<Seq<Seq<char>>, LinkRefusal> {
    let part = normalized.take(path_end(normalized));
    let bytes = percent_decode_bytes(encode_utf8(part));
    let decoded = decode_utf8(bytes);
    if part.len() == 0 {
        Err(LinkRefusal::NoTarget)
    } else if !valid_utf8(bytes) || decoded.contains('\0') {
        Err(LinkRefusal::InvalidPath)
    } else if decoded.len() >= 2 && is_separator(decoded[0]) && is_separator(decoded[1]) {
        Err(LinkRefusal::NetworkPath)
    } else if decoded.len() >= 1 && is_separator(decoded[0]) {
        Err(LinkRefusal::AbsolutePath)
    } else {
        Ok(components(decoded))
    }
}

/// What a path destination asks for once the base is known to exist or not:
/// the refusals decided from the text come first, then `NoBase` when there
/// is no open document or no workspace to resolve against.
pub open spec fn path_request_spec(normalized: Seq<char>, has_document: bool, has_workspace: bool) -> Result<
    Seq<Seq<char>>,
    LinkRefusal,
> {
    match requested_path_spec(normalized) {
        Err(e) => Err(e),
        Ok(parts) => if has_document && has_workspace {
            Ok(parts)
        } else {
            Err(LinkRefusal::NoBase)
        },
    }
}

/// The components a path destination asks for, or why it is refused before
/// the filesystem is consulted, `NoBase` included.
pub fn path_request(normalized: &str, has_document: bool, has_workspace: bool) -> (r: Result<
    Vec<String>,
    LinkRefusal,
>)
    ensures
        match path_request_spec(normalized@, has_document, has_workspace) {
            Ok(parts) => r matches Ok(v) && views(v@) == parts,
            Err(e) => r == Err::<Vec<String>, LinkRefusal>(e),
        },
{
    let requested = requested_path(normalized);
    match requested {
        Err(e) => Err(e),
        Ok(parts) => if has_document && has_workspace {
            Ok(parts)
        } else {
            Err(LinkRefusal::NoBase)
        },
    }
}

/// A click decided as far as it can be without the filesystem.
#[derive(Debug, Clone, PartialEq, Eq)]
pub enum ClickDecision {
    /// The click's answer.
    Decided(LinkAction),
    /// A path: these components are to be resolved on disk, with
    /// `lexical_target` and `resolved_document`.
    Resolve(Vec<String>),
}

/// Decides a click on a destination of kind `kind` with normalised text
/// `normalized`, given whether a document and a workspace are open. Only a
/// web or mail destination opens externally, and whether it does, or stays
/// in the page, does not depend on the document or the workspace; a path is
/// refused or handed on for resolution, never opened externally.
pub fn decide_click(kind: DestinationKind, normalized: &str, has_document: bool, has_workspace: bool) -> (d: ClickDecision)
    requires
        kind is Fragment ==> normalized@.len() >= 1,
    ensures
        (kind is Web || kind is Mail) ==> (d matches ClickDecision::Decided(LinkAction::OpenExternal(url))
            && url.url() == normalized@),
        kind is Fragment ==> (d matches ClickDecision::Decided(LinkAction::InPage(text)) && text@
            == normalized@.skip(1)),
        kind is NetworkPath ==> d == ClickDecision::Decided(LinkAction::Refuse(LinkRefusal::NetworkPath)),
        kind is Other ==> d == ClickDecision::Decided(LinkAction::Refuse(LinkRefusal::UnsupportedScheme)),
        kind is Path ==> match path_request_spec(normalized@, has_document, has_workspace) {
            Ok(parts) => d matches ClickDecision::Resolve(v) && views(v@) == parts,
            Err(e) => d == ClickDecision::Decided(LinkAction::Refuse(e)),
        },
        d matches ClickDecision::Decided(LinkAction::OpenExternal(_)) ==> (kind is Web || kind is Mail),
{
    match kind {
        DestinationKind::Path => match path_request(normalized, has_document, has_workspace) {
            Ok(parts) => ClickDecision::Resolve(parts),
            Err(e) => ClickDecision::Decided(LinkAction::Refuse(e)),
        },
        _ => match link_action(kind, normalized) {
            Some(action) => ClickDecision::Decided(action),
            None => ClickDecision::Decided(LinkAction::Refuse(LinkRefusal::UnsupportedScheme)),
        },
    }
}

pub proof fn lemma_first_index(s: Seq<char>, c: char)
    ensures
        0 <= first_index(s, c) <= s.len(),
        forall|i: int| 0 <= i < first_index(s, c) ==> s[i] != c,
        first_index(s, c) < s.len() ==> s[first_index(s, c)] == c,
    decreases s.len(),
{
    if s.len() > 0 && s[0] != c {
        lemma_first_index(s.skip(1), c);
        assert forall|i: int| 0 <= i < first_index(s, c) implies s[i] != c by {
            if i > 0 {
                assert(s[i] == s.skip(1)[i - 1]);
            }
        }
    }
}

proof fn lemma_path_end(s: Seq<char>)
    ensures
        0 <= path_end(s) <= s.len(),
        forall|i: int| 0 <= i < path_end(s) ==> s[i] != '#' && s[i] != '?',
        path_end(s) < s.len() ==> (s[path_end(s)] == '#' || s[path_end(s)] == '?'),
    decreases s.len(),
{
    if s.len() > 0 && s[0] != '#' && s[0] != '?' {
        lemma_path_end(s.skip(1));
        assert forall|i: int| 0 <= i < path_end(s) implies s[i] != '#' && s[i] != '?' by {
            if i > 0 {
                assert(s[i] == s.skip(1)[i - 1]);
            }
        }
    }
}

/// The `String` of `v[from..to]`.
fn string_of_range(v: &Vec<char>, from: usize, to: usize) -> (s: String)
    requires
        from <= to <= v@.len(),
    ensures
        s@ == v@.subrange(from as int, to as int),
{
    let mut s = String::new();
    let mut i = from;
    while i < to
        invariant
            from <= i <= to <= v@.len(),
            s@ == v@.subrange(from as int, i as int),
        decreases to - i,
    {
        crate::text::push_char(&mut s, v[i]);
        i = i + 1;
        assert(s@ =~= v@.subrange(from as int, i as int));
    }
    s
}

/// The components of a relative path.
fn split_components(s: &Vec<char>) -> (parts: Vec<String>)
    ensures
        views(parts@) == components(s@),
{
    let n = s.len();
    let mut parts: Vec<String> = Vec::new();
    let mut i: usize = 0;
    assert(s@.skip(0) =~= s@);
    assert(views(parts@) + components(s@) =~= components(s@));
    while i < n
        invariant
            n == s@.len(),
            i <= n,
            views(parts@) + components(s@.skip(i as int)) == components(s@),
        decreases n - i,
    {
        let ghost rest = s@.skip(i as int);
        let mut j = i;
        while j < n && s[j] != '/'
            invariant
                n == s@.len(),
                i <= j <= n,
                rest == s@.skip(i as int),
                forall|k: int| i <= k < j ==> s@[k] != '/',
            decreases n - j,
        {
            j = j + 1;
        }
        proof {
            lemma_first_index(rest, '/');
            assert forall|k: int| 0 <= k < j - i implies rest[k] != '/' by {
                assert(rest[k] == s@[i + k]);
            }
            if j < n {
                assert(rest[j - i] == s@[j as int]);
            }
            assert(first_index(rest, '/') == j - i) by {
                if first_index(rest, '/') < j - i {
                    assert(rest[first_index(rest, '/')] == '/');
                }
            }
        }
        let seg = string_of_range(s, i, j);
        let ghost seg_view = seg@;
        assert(seg_view =~= rest.take(j - i));
        let keep = if j == i {
            false
        } else if j == i + 1 && s[i] == '.' {
            assert(seg_view =~= seq!['.']);
            false
        } else {
            assert(seg_view != seq!['.']) by {
                if j == i + 1 {
                    assert(seg_view[0] == s@[i as int]);
                }
            }
            true
        };
        let ghost before = parts@;
        if keep {
            parts.push(seg);
        }
        let next = if j < n {
            j + 1
        } else {
            n
        };
        proof {
            if j < n {
                assert(rest.skip(j - i + 1) =~= s@.skip(next as int));
            } else {
                assert(s@.skip(next as int) =~= Seq::<char>::empty());
            }
            assert(views(parts@) =~= if keep {
                views(before) + seq![seg_view]
            } else {
                views(before)
            });
            assert(views(parts@) + components(s@.skip(next as int)) =~= components(s@));
        }
        i = next;
    }
    assert(s@.skip(n as int) =~= Seq::<char>::empty());
    assert(views(parts@) + Seq::<Seq<char>>::empty() =~= views(parts@));
    parts
}

/// The components a relative path destination asks for, or why it is
/// refused before any filesystem is consulted.
#[verifier::loop_isolation(false)]
pub fn requested_path(normalized: &str) -> (r: Result<Vec<String>, LinkRefusal>)
    ensures
        match requested_path_spec(normalized@) {
            Ok(parts) => r matches Ok(v) && views(v@) == parts,
            Err(e) => r == Err::<Vec<String>, LinkRefusal>(e),
        },
{
    let chars = chars_of(normalized);
    let n = chars.len();
    let mut end: usize = 0;
    while end < n && chars[end] != '#' && chars[end] != '?'
        invariant
            n == chars@.len(),
            end <= n,
            forall|k: int| 0 <= k < end ==> chars@[k] != '#' && chars@[k] != '?',
        decreases n - end,
    {
        end = end + 1;
    }
    proof {
        lemma_path_end(chars@);
        let pe = path_end(chars@);
        if pe < end {
            assert(chars@[pe] == '#' || chars@[pe] == '?');
        }
    }
    if end == 0 {
        return Err(LinkRefusal::NoTarget);
    }
    let part = string_of_range(&chars, 0, end);
    assert(part@ =~= normalized@.take(path_end(normalized@)));
    let decoded = match percent_decode(part.as_str()) {
        None => {
            return Err(LinkRefusal::InvalidPath);
        },
        Some(d) => d,
    };
    let dchars = chars_of(decoded.as_str());
    let dn = dchars.len();
    let mut k: usize = 0;
    while k < dn
        invariant
            dn == dchars@.len(),
            k <= dn,
            forall|m: int| 0 <= m < k ==> dchars@[m] != '\0',
        decreases dn - k,
    {
        if dchars[k] == '\0' {
            assert(dchars@.contains('\0'));
            return Err(LinkRefusal::InvalidPath);
        }
        k = k + 1;
    }
    assert(!dchars@.contains('\0'));
    if dn >= 2 && (dchars[0] == '/' || dchars[0] == '\\') && (dchars[1] == '/' || dchars[1]
        == '\\') {
        return Err(LinkRefusal::NetworkPath);
    }
    if dn >= 1 && (dchars[0] == '/' || dchars[0] == '\\') {
        return Err(LinkRefusal::AbsolutePath);
    }
    Ok(split_components(&dchars))
}


/// Resolving `req` onto the absolute path `base`, component by component:
/// a name descends, `..` ascends (not above the root).
pub open spec fn walk_components(base: Seq<Seq<char>>, req: Seq<Seq<char>>) -> Seq<Seq<char>>
    decreases req.len(),
{
    if req.len() == 0 {
        base
    } else if req[0] == seq!['.', '.'] {
        walk_components(
            if base.len() > 0 {
                base.drop_last()
            } else {
                base
            },
            req.skip(1),
        )
    } else {
        walk_components(base.push(req[0]), req.skip(1))
    }
}

/// `root` is a leading part of `path`, component by component.
pub open spec fn is_within(path: Seq<Seq<char>>, root: Seq<Seq<char>>) -> bool {
    root.len() <= path.len() && path.take(root.len() as int) == root
}

/// The components joined by `/`.
pub open spec fn join_components(parts: Seq<Seq<char>>) -> Seq<char>
    decreases parts.len(),
{
    if parts.len() == 0 {
        Seq::empty()
    } else if parts.len() == 1 {
        parts[0]
    } else {
        parts[0] + seq!['/'] + join_components(parts.skip(1))
    }
}

fn is_parent_dir(name: &String) -> (up: bool)
    ensures
        up == (name@ == seq!['.', '.']),
{
    let c = chars_of(name.as_str());
    if c.len() == 2 && c[0] == '.' && c[1] == '.' {
        assert(c@ =~= seq!['.', '.']);
        true
    } else {
        false
    }
}

fn within(path: &Vec<String>, root: &Vec<String>) -> (w: bool)
    ensures
        w == is_within(views(path@), views(root@)),
{
    if root.len() > path.len() {
        return false;
    }
    let mut i: usize = 0;
    while i < root.len()
        invariant
            root@.len() <= path@.len(),
            i <= root@.len(),
            forall|k: int| 0 <= k < i ==> path@[k]@ == root@[k]@,
        decreases root.len() - i,
    {
        if path[i] != root[i] {
            assert(views(path@).take(root@.len() as int)[i as int] == path@[i as int]@);
            return false;
        }
        i = i + 1;
    }
    assert(views(path@).take(root@.len() as int) =~= views(root@));
    true
}

/// A relative path, lexically resolved against the canonical `directory`
/// of the open document; refused when it leaves the canonical workspace
/// `root`, whether or not it exists.
pub fn lexical_target(directory: &Vec<String>, requested: &Vec<String>, root: &Vec<String>) -> (r:
    Result<Vec<String>, LinkRefusal>)
    ensures
        ({
            let target = walk_components(views(directory@), views(requested@));
            if is_within(target, views(root@)) {
                r matches Ok(v) && views(v@) == target
            } else {
                r == Err::<Vec<String>, LinkRefusal>(LinkRefusal::OutsideWorkspace)
            }
        }),
{
    let mut cur: Vec<String> = Vec::new();
    let mut i: usize = 0;
    while i < directory.len()
        invariant
            i <= directory@.len(),
            cur@.len() == i,
            forall|k: int| 0 <= k < i ==> #[trigger] cur@[k]@ == directory@[k]@,
        decreases directory.len() - i,
    {
        let item = directory[i].clone();
        cur.push(item);
        i = i + 1;
    }
    assert(views(cur@) =~= views(directory@));
    let mut j: usize = 0;
    assert(views(requested@).skip(0) =~= views(requested@));
    while j < requested.len()
        invariant
            j <= requested@.len(),
            walk_components(views(cur@), views(requested@).skip(j as int)) == walk_components(
                views(directory@),
                views(requested@),
            ),
        decreases requested.len() - j,
    {
        let ghost rest = views(requested@).skip(j as int);
        assert(rest[0] == requested@[j as int]@);
        assert(rest.skip(1) =~= views(requested@).skip(j + 1));
        let ghost before = views(cur@);
        if is_parent_dir(&requested[j]) {
            if cur.len() > 0 {
                cur.pop();
                assert(views(cur@) =~= before.drop_last());
            }
        } else {
            cur.push(requested[j].clone());
            assert(views(cur@) =~= before.push(requested@[j as int]@));
        }
        j = j + 1;
    }
    assert(views(requested@).skip(requested@.len() as int) =~= Seq::<Seq<char>>::empty());
    if within(&cur, root) {
        Ok(cur)
    } else {
        Err(LinkRefusal::OutsideWorkspace)
    }
}

/// The document a link opens, as a workspace-relative path, from the
/// canonical target the caller found on disk (`None`: nothing exists
/// there) and whether it is a Markdown file.
pub fn resolved_document(root: &Vec<String>, canonical: Option<Vec<String>>, is_document: bool) -> (r:
    Result<String, LinkRefusal>)
    ensures
        match canonical {
            None => r == Err::<String, LinkRefusal>(LinkRefusal::NotFound),
            Some(path) => if !is_within(views(path@), views(root@)) {
                r == Err::<String, LinkRefusal>(LinkRefusal::OutsideWorkspace)
            } else if !is_document {
                r == Err::<String, LinkRefusal>(LinkRefusal::NotADocument)
            } else {
                r matches Ok(rel) && rel@ == join_components(
                    views(path@).skip(root@.len() as int),
                )
            },
        },
{
    let path = match canonical {
        None => {
            return Err(LinkRefusal::NotFound);
        },
        Some(path) => path,
    };
    if !within(&path, root) {
        return Err(LinkRefusal::OutsideWorkspace);
    }
    if !is_document {
        return Err(LinkRefusal::NotADocument);
    }
    let mut rel = String::new();
    let start = root.len();
    let mut i = start;
    let ghost parts = views(path@).skip(start as int);
    assert(parts.skip(0) =~= parts);
    while i < path.len()
        invariant
            start <= i <= path@.len(),
            parts == views(path@).skip(start as int),
            i == start ==> rel@ == Seq::<char>::empty(),
            i > start ==> rel@ + seq!['/'] + join_components(parts.skip(i - start))
                == join_components(parts) || (i == path@.len() && rel@ == join_components(parts)),
            i > start && i < path@.len() ==> rel@ + seq!['/'] + join_components(
                parts.skip(i - start),
            ) == join_components(parts),
            i == start && i < path@.len() ==> join_components(parts.skip(0)) == join_components(
                parts,
            ),
            i > start && i == path@.len() ==> rel@ == join_components(parts),
        decreases path.len() - i,
    {
        let ghost before = rel@;
        let ghost rest = parts.skip(i - start);
        assert(rest[0] == path@[i as int]@);
        if i > start {
            crate::text::push_char(&mut rel, '/');
        }
        crate::text::push_str(&mut rel, path[i].as_str());
        proof {
            assert(rest.skip(1) =~= parts.skip(i + 1 - start));
            if rest.len() == 1 {
                assert(join_components(rest) == rest[0]);
            } else {
                assert(join_components(rest) == rest[0] + seq!['/'] + join_components(
                    rest.skip(1),
                ));
            }
            if i == start {
                assert(rel@ =~= rest[0]);
            } else {
                assert(rel@ =~= before + seq!['/'] + rest[0]);
            }
            if rest.len() > 1 {
                assert(rel@ + seq!['/'] + join_components(rest.skip(1)) =~= join_components(parts))
                    by {
                    if i == start {
                        assert(seq!['/'] + join_components(rest.skip(1)) =~= seq!['/']
                            + join_components(rest.skip(1)));
                    } else {
                        assert(before + seq!['/'] + join_components(rest) =~= join_components(
                            parts,
                        ));
                    }
                }
            } else {
                assert(rel@ =~= join_components(parts)) by {
                    if i > start {
                        assert(before + seq!['/'] + join_components(rest) =~= join_components(
                            parts,
                        ));
                    }
                }
            }
        }
        i = i + 1;
    }
    proof {
        if path@.len() == start {
            assert(parts =~= Seq::<Seq<char>>::empty());
        }
    }
    Ok(rel)
}

/// The first `#` or `?` ends the path: when `p` holds neither, `p`
/// followed by a fragment or a query asks for exactly what `p` asks for,
/// whatever follows.
pub proof fn lemma_fragment_and_query_are_not_the_path(p: Seq<char>, c: char, rest: Seq<char>)
    requires
        forall|i: int| 0 <= i < p.len() ==> p[i] != '#' && p[i] != '?',
        c == '#' || c == '?',
    ensures
        requested_path_spec(p + seq![c] + rest) == requested_path_spec(p),
        forall|has_document: bool, has_workspace: bool|
            path_request_spec(p + seq![c] + rest, has_document, has_workspace) == path_request_spec(
                p,
                has_document,
                has_workspace,
            ),
{
    let s = p + seq![c] + rest;
    lemma_path_end(s);
    lemma_path_end(p);
    let k = p.len() as int;
    assert(s[k] == c);
    assert forall|i: int| 0 <= i < k implies s[i] != '#' && s[i] != '?' by {
        assert(s[i] == p[i]);
    }
    if path_end(s) < k {
        assert(s[path_end(s)] == p[path_end(s)]);
    }
    assert(path_end(s) == k);
    if path_end(p) < k {
        assert(p[path_end(p)] == '#' || p[path_end(p)] == '?');
    }
    assert(s.take(k) =~= p);
    assert(p.take(path_end(p)) =~= p);
}

} // verus!
