//! The bookkeeping of the link-click run's driver: the opener log read as
//! lines, the lines a click added, and the notices a click raised.

use vstd::prelude::*;
use crate::fmt::{debug_list, push_debug_list, string_views};
use crate::link_judge::NAME;
use crate::text::{push_str, string_of};
use crate::toast::ToastKind;
use crate::transport_guard::{lines_of, split_lines};

verus! {

/// The opener log's text as lines, as `str::lines` splits it.
pub fn log_lines(text: &str) -> (lines: Vec<String>)
    ensures
        string_views(lines@) == lines_of(text@),
{
    let split = split_lines(text);
    let mut lines: Vec<String> = Vec::new();
    let mut i: usize = 0;
    while i < split.len()
        invariant
            i <= split@.len(),
            lines@.len() == i,
            forall|k: int| 0 <= k < i ==> #[trigger] lines@[k]@ == split@[k]@,
        decreases split.len() - i,
    {
        lines.push(string_of(&split[i]));
        i = i + 1;
    }
    assert(string_views(lines@) =~= split@.map_values(|l: Vec<char>| l@));
    lines
}

/// The lines after the first `before`; none if there are fewer.
pub fn lines_after(lines: &Vec<String>, before: usize) -> (added: Vec<String>)
    ensures
        string_views(added@) == if before <= lines@.len() {
            string_views(lines@).skip(before as int)
        } else {
            Seq::empty()
        },
{
    let mut added: Vec<String> = Vec::new();
    if before > lines.len() {
        assert(string_views(added@) =~= Seq::<Seq<char>>::empty());
        return added;
    }
    let mut i: usize = before;
    while i < lines.len()
        invariant
            before <= i <= lines@.len(),
            added@.len() == i - before,
            forall|k: int| 0 <= k < i - before ==> #[trigger] added@[k]@ == lines@[before + k]@,
        decreases lines.len() - i,
    {
        added.push(lines[i].clone());
        i = i + 1;
    }
    assert(string_views(added@) =~= string_views(lines@).skip(before as int));
    added
}

/// The opener log must start empty; the message names what it held.
pub fn stale_log_check(stale: &Vec<String>) -> (r: Result<(), String>)
    ensures
        r is Ok <==> stale@.len() == 0,
        r matches Err(m) ==> m@ == NAME@ + ": the opener log already held "@ + debug_list(string_views(stale@))
            + " before any click; it must start empty"@,
{
    if stale.len() == 0 {
        return Ok(());
    }
    let mut m = String::new();
    push_str(&mut m, NAME);
    push_str(&mut m, ": the opener log already held ");
    push_debug_list(&mut m, stale);
    push_str(&mut m, " before any click; it must start empty");
    Err(m)
}

/// Reading the notices in order: the ids seen so far, and the notices not
/// seen before, each once.
pub open spec fn fresh_fold(seen: Set<u64>, list: Seq<(u64, ToastKind, String)>) -> (Set<u64>, Seq<
    (ToastKind, String),
>)
    decreases list.len(),
{
    if list.len() == 0 {
        (seen, Seq::empty())
    } else {
        let (s, out) = fresh_fold(seen, list.drop_last());
        let t = list.last();
        if s.contains(t.0) {
            (s, out)
        } else {
            (s.insert(t.0), out.push((t.1, t.2)))
        }
    }
}

fn holds(seen: &Vec<u64>, id: u64) -> (b: bool)
    ensures
        b == seen@.to_set().contains(id),
{
    let mut i: usize = 0;
    while i < seen.len()
        invariant
            i <= seen@.len(),
            forall|k: int| 0 <= k < i ==> #[trigger] seen@[k] != id,
        decreases seen.len() - i,
    {
        if seen[i] == id {
            assert(seen@.contains(id));
            return true;
        }
        i = i + 1;
    }
    assert(!seen@.contains(id));
    false
}

/// The notices in `list` whose ids were not seen yet, in order, each id
/// once; their ids are added to `seen`.
pub fn fresh_toasts(seen: &mut Vec<u64>, list: &Vec<(u64, ToastKind, String)>) -> (fresh: Vec<
    (ToastKind, String),
>)
    ensures
        final(seen)@.to_set() == fresh_fold(old(seen)@.to_set(), list@).0,
        fresh@ == fresh_fold(old(seen)@.to_set(), list@).1,
{
    let ghost start = seen@.to_set();
    let mut fresh: Vec<(ToastKind, String)> = Vec::new();
    let mut i: usize = 0;
    assert(list@.take(0) =~= Seq::<(u64, ToastKind, String)>::empty());
    while i < list.len()
        invariant
            i <= list@.len(),
            (seen@.to_set(), fresh@) == fresh_fold(start, list@.take(i as int)),
        decreases list.len() - i,
    {
        assert(list@.take(i + 1).drop_last() =~= list@.take(i as int));
        assert(list@.take(i + 1).last() == list@[i as int]);
        let id = list[i].0;
        if !holds(seen, id) {
            let ghost before = seen@;
            seen.push(id);
            assert(seen@.to_set() =~= before.to_set().insert(id)) by {
                assert forall|x: u64| seen@.to_set().contains(x) <==> before.to_set().insert(id).contains(x) by {
                    if x == id {
                        assert(seen@[before.len() as int] == id);
                    }
                    if before.contains(x) {
                        let k = choose|k: int| 0 <= k < before.len() && before[k] == x;
                        assert(seen@[k] == x);
                    }
                    if seen@.contains(x) {
                        let k = choose|k: int| 0 <= k < seen@.len() && seen@[k] == x;
                        if k < before.len() {
                            assert(before[k] == x);
                        }
                    }
                }
            }
            fresh.push((list[i].1, list[i].2.clone()));
        }
        i = i + 1;
    }
    assert(list@.take(list@.len() as int) =~= list@);
    fresh
}

} // verus!
