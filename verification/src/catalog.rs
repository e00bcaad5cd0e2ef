//! User-facing text by key, in one language.

use vstd::prelude::*;
use crate::text::chars_of;

verus! {

/// A language's texts: pairs of a key and its text.
#[derive(Debug, Clone)]
pub struct Catalog {
    pub entries: Vec<(String, String)>,
}

/// The text of `key` among `entries`: that of the first entry with the
/// key, else the key itself.
pub open spec fn lookup(entries: Seq<(String, String)>, key: Seq<char>) -> Seq<char>
    decreases entries.len(),
{
    if entries.len() == 0 {
        key
    } else if entries[0].0@ == key {
        entries[0].1@
    } else {
        lookup(entries.skip(1), key)
    }
}

impl Catalog {
    /// The text of `key`.
    pub open spec fn text(&self, key: Seq<char>) -> Seq<char> {
        lookup(self.entries@, key)
    }

    /// The text of `key`; a key with no entry stands for itself.
    pub fn tr(&self, key: &str) -> (text: String)
        ensures
            text@ == self.text(key@),
    {
        let wanted = key.to_owned();
        let mut i: usize = 0;
        assert(self.entries@.skip(0) =~= self.entries@);
        while i < self.entries.len()
            invariant
                i <= self.entries@.len(),
                wanted@ == key@,
                lookup(self.entries@.skip(i as int), key@) == lookup(self.entries@, key@),
            decreases self.entries.len() - i,
        {
            assert(self.entries@.skip(i as int)[0] == self.entries@[i as int]);
            assert(self.entries@.skip(i as int).skip(1) =~= self.entries@.skip(i + 1));
            if self.entries[i].0 == wanted {
                return self.entries[i].1.clone();
            }
            i = i + 1;
        }
        wanted
    }
}

/// Whether two texts are equal.
pub fn same_text(a: &str, b: &str) -> (eq: bool)
    ensures
        eq == (a@ == b@),
{
    let x = chars_of(a);
    let y = chars_of(b);
    if x.len() != y.len() {
        return false;
    }
    let mut i: usize = 0;
    while i < x.len()
        invariant
            x@ == a@,
            y@ == b@,
            x@.len() == y@.len(),
            i <= x@.len(),
            forall|k: int| 0 <= k < i ==> x@[k] == y@[k],
        decreases x.len() - i,
    {
        if x[i] != y[i] {
            return false;
        }
        i = i + 1;
    }
    assert(x@ =~= y@);
    true
}

/// Whether `s` starts with `prefix`.
pub fn starts_with_text(s: &str, prefix: &str) -> (b: bool)
    ensures
        b == (prefix@.len() <= s@.len() && s@.take(prefix@.len() as int) == prefix@),
{
    let x = chars_of(s);
    let p = chars_of(prefix);
    if p.len() > x.len() {
        return false;
    }
    let mut i: usize = 0;
    while i < p.len()
        invariant
            x@ == s@,
            p@ == prefix@,
            p@.len() <= x@.len(),
            i <= p@.len(),
            forall|k: int| 0 <= k < i ==> x@[k] == p@[k],
        decreases p.len() - i,
    {
        if x[i] != p[i] {
            assert(x@.take(p@.len() as int)[i as int] == x@[i as int]);
            return false;
        }
        i = i + 1;
    }
    assert(x@.take(p@.len() as int) =~= p@);
    true
}

/// `pattern` occurs in `s` at `i`.
pub open spec fn occurs_in_at(s: Seq<char>, pattern: Seq<char>, i: int) -> bool {
    0 <= i && i + pattern.len() <= s.len() && s.subrange(i, i + pattern.len()) == pattern
}

/// `pattern` occurs somewhere in `s`.
pub open spec fn contains_spec(s: Seq<char>, pattern: Seq<char>) -> bool {
    exists|i: int| #[trigger] occurs_in_at(s, pattern, i)
}

/// Whether `pattern` occurs somewhere in `s`.
pub fn contains_text(s: &str, pattern: &str) -> (b: bool)
    ensures
        b == contains_spec(s@, pattern@),
{
    let x = chars_of(s);
    let p = chars_of(pattern);
    if p.len() > x.len() {
        assert forall|i: int| !#[trigger] occurs_in_at(s@, pattern@, i) by {}
        return false;
    }
    let xl = x.len();
    let last = xl - p.len();
    let mut i: usize = 0;
    while i <= last
        invariant
            x@ == s@,
            p@ == pattern@,
            last + p@.len() == x@.len(),
            xl == x@.len(),
            i <= last + 1,
            forall|k: int| 0 <= k < i ==> !#[trigger] occurs_in_at(s@, pattern@, k),
        decreases last + 1 - i,
    {
        let mut j: usize = 0;
        let mut same = true;
        while j < p.len()
            invariant
                x@ == s@,
                p@ == pattern@,
                last + p@.len() == x@.len(),
                xl == x@.len(),
                i <= last,
                j <= p@.len(),
                same == forall|m: int| 0 <= m < j ==> x@[i + m] == p@[m],
            decreases p.len() - j,
        {
            if x[i + j] != p[j] {
                same = false;
            }
            j = j + 1;
        }
        if same {
            assert(x@.subrange(i as int, i + p@.len()) =~= p@);
            assert(occurs_in_at(s@, pattern@, i as int));
            return true;
        }
        proof {
            let m = choose|m: int| 0 <= m < p@.len() && x@[i + m] != p@[m];
            assert(x@.subrange(i as int, i + p@.len())[m] != p@[m]);
        }
        if i == last {
            assert forall|k: int| !#[trigger] occurs_in_at(s@, pattern@, k) by {
                }
            return false;
        }
        i = i + 1;
    }
    false
}

} // verus!
