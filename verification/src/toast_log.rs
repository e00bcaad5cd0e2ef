//! The notices a launch scenario saw, kept by id in a `BTreeMap`, and read
//! back in ascending id order.

use std::collections::BTreeMap;
use vstd::prelude::*;
use vstd::std_specs::btree::{increasing_seq, spec_btree_map_iter};
use vstd::std_specs::cmp::OrdSpec;
use vstd::std_specs::iter::IteratorSpec;
use crate::fmt::string_views;
use crate::text::push_str;
use crate::toast::{kind_name, push_kind, ToastKind};

verus! {

/// `s` lists the notices of `m` in ascending id order, each once.
pub open spec fn lists_in_order(m: Map<u64, (ToastKind, String)>, s: Seq<(u64, ToastKind, String)>) -> bool {
    &&& forall|i: int, j: int| 0 <= i < j < s.len() ==> s[i].0 < s[j].0
    &&& forall|i: int|
        0 <= i < s.len() ==> m.contains_key(#[trigger] s[i].0) && m[s[i].0] == (s[i].1, s[i].2)
    &&& forall|k: u64| #[trigger]
        m.contains_key(k) ==> exists|i: int| 0 <= i < s.len() && s[i].0 == k
}

/// The notices of `m` in ascending id order.
pub open spec fn toast_list(m: Map<u64, (ToastKind, String)>) -> Seq<(u64, ToastKind, String)> {
    choose|s: Seq<(u64, ToastKind, String)>| lists_in_order(m, s)
}

/// How each notice reads: its kind, a colon, its text.
pub open spec fn toast_texts(toasts: Seq<(u64, ToastKind, String)>) -> Seq<Seq<char>> {
    toasts.map_values(|t: (u64, ToastKind, String)| kind_name(t.1) + ": "@ + t.2@)
}

/// Only one sequence lists a map's notices in ascending id order.
proof fn lemma_in_order_unique(
    m: Map<u64, (ToastKind, String)>,
    a: Seq<(u64, ToastKind, String)>,
    b: Seq<(u64, ToastKind, String)>,
)
    requires
        lists_in_order(m, a),
        lists_in_order(m, b),
    ensures
        a == b,
    decreases a.len(),
{
    if a.len() == 0 {
        if b.len() > 0 {
            assert(m.contains_key(b[0].0));
        }
        assert(a =~= b);
    } else {
        assert(m.contains_key(a[0].0));
        let k = a[0].0;
        let j = choose|j: int| 0 <= j < b.len() && b[j].0 == k;
        assert(m.contains_key(b[0].0));
        let i = choose|i: int| 0 <= i < a.len() && a[i].0 == b[0].0;
        if j > 0 {
            assert(b[0].0 < b[j].0);
            if i > 0 {
                assert(a[0].0 < a[i].0);
            }
        }
        assert(b[0] == a[0]);
        let m2 = m.remove(k);
        let a2 = a.drop_first();
        let b2 = b.drop_first();
        assert forall|x: u64| #[trigger] m2.contains_key(x) implies exists|t: int|
            0 <= t < a2.len() && a2[t].0 == x by {
            let t = choose|t: int| 0 <= t < a.len() && a[t].0 == x;
            assert(a2[t - 1].0 == x);
        }
        assert forall|x: u64| #[trigger] m2.contains_key(x) implies exists|t: int|
            0 <= t < b2.len() && b2[t].0 == x by {
            let t = choose|t: int| 0 <= t < b.len() && b[t].0 == x;
            assert(b2[t - 1].0 == x);
        }
        assert forall|t: int| 0 <= t < a2.len() implies m2.contains_key(#[trigger] a2[t].0) && m2[a2[t].0]
            == (a2[t].1, a2[t].2) by {
            assert(a2[t] == a[t + 1]);
            assert(a[0].0 < a[t + 1].0);
        }
        assert forall|t: int| 0 <= t < b2.len() implies m2.contains_key(#[trigger] b2[t].0) && m2[b2[t].0]
            == (b2[t].1, b2[t].2) by {
            assert(b2[t] == b[t + 1]);
            assert(b[0].0 < b[t + 1].0);
        }
        assert forall|x: int, y: int| 0 <= x < y < a2.len() implies a2[x].0 < a2[y].0 by {
            assert(a2[x] == a[x + 1] && a2[y] == a[y + 1]);
        }
        assert forall|x: int, y: int| 0 <= x < y < b2.len() implies b2[x].0 < b2[y].0 by {
            assert(b2[x] == b[x + 1] && b2[y] == b[y + 1]);
        }
        lemma_in_order_unique(m2, a2, b2);
        assert(a =~= seq![a[0]] + a2);
        assert(b =~= seq![b[0]] + b2);
    }
}

/// A map's iteration yields ascending ids.
proof fn lemma_ids_ascend(s: Seq<(&u64, &(ToastKind, String))>, i: int, j: int)
    requires
        increasing_seq(s.map_values(|kv: (&u64, &(ToastKind, String))| *kv.0)),
        0 <= i < j < s.len(),
    ensures
        *s[i].0 < *s[j].0,
{
    let keys = s.map_values(|kv: (&u64, &(ToastKind, String))| *kv.0);
    assert(vstd::laws_cmp::obeys_cmp::<u64>());
    vstd::std_specs::btree::axiom_increasing_seq_meaning::<u64>(keys);
    assert(keys[i] == *s[i].0);
    assert(keys[j] == *s[j].0);
    assert(keys[i].cmp_spec(&keys[j]) is Less);
}

/// Records notice `id` unless it is already recorded.
pub fn note_new(toasts: &mut BTreeMap<u64, (ToastKind, String)>, id: u64, kind: ToastKind, message: String)
    ensures
        final(toasts)@ == if old(toasts)@.contains_key(id) {
            old(toasts)@
        } else {
            old(toasts)@.insert(id, (kind, message))
        },
{
    proof {
        assert(vstd::laws_cmp::obeys_cmp::<u64>());
    }
    if !toasts.contains_key(&id) {
        toasts.insert(id, (kind, message));
    }
}

/// How each notice reads, in ascending id order.
pub fn toast_texts_in_order(toasts: &BTreeMap<u64, (ToastKind, String)>) -> (texts: Vec<String>)
    ensures
        string_views(texts@) == toast_texts(toast_list(toasts@)),
{
    let mut texts: Vec<String> = Vec::new();
    let ghost mut list: Seq<(u64, ToastKind, String)> = Seq::empty();
    for kv in it: toasts.iter()
        invariant
            it.seq() == spec_btree_map_iter(toasts).remaining(),
            increasing_seq(it.seq().map_values(|kv: (&u64, &(ToastKind, String))| *kv.0)),
            list.len() == it.index(),
            forall|t: int| 0 <= t < it.index() ==> #[trigger] list[t] == (
                *it.seq()[t].0,
                it.seq()[t].1.0,
                it.seq()[t].1.1,
            ),
            string_views(texts@) == toast_texts(list),
            forall|i: int, j: int| 0 <= i < j < list.len() ==> list[i].0 < list[j].0,
            forall|i: int|
                0 <= i < list.len() ==> toasts@.contains_key(#[trigger] list[i].0) && toasts@[list[i].0]
                    == (list[i].1, list[i].2),
            forall|k: u64| #[trigger]
                toasts@.contains_key(k) ==> (exists|i: int| 0 <= i < list.len() && list[i].0 == k)
                    || (exists|t: int| it.index() <= t < it.seq().len() && *it.seq()[t].0 == k),
    {
        let ghost before = list;
        let ghost idx = it.index();
        let ghost texts_before = texts@;
        let mut text = String::new();
        push_kind(&mut text, kv.1.0);
        push_str(&mut text, ": ");
        push_str(&mut text, kv.1.1.as_str());
        texts.push(text);
        proof {
            assert forall|i: int| 0 <= i < before.len() implies before[i].0 < *kv.0 by {
                lemma_ids_ascend(it.seq(), i, idx);
            }
            list = before.push((*kv.0, kv.1.0, kv.1.1));
            assert(text@ =~= kind_name(kv.1.0) + ": "@ + kv.1.1@);
            assert(string_views(texts@) =~= string_views(texts_before).push(text@));
            assert(toast_texts(list) =~= toast_texts(before).push(text@));
            assert forall|k: u64| #[trigger] toasts@.contains_key(k) implies (exists|i: int|
                0 <= i < list.len() && list[i].0 == k) || (exists|t: int|
                idx + 1 <= t < it.seq().len() && *it.seq()[t].0 == k) by {
                if exists|i: int| 0 <= i < before.len() && before[i].0 == k {
                    let i = choose|i: int| 0 <= i < before.len() && before[i].0 == k;
                    assert(list[i].0 == k);
                } else {
                    let t = choose|t: int| idx <= t < it.seq().len() && *it.seq()[t].0 == k;
                    if t == idx {
                        assert(list[idx].0 == k);
                    }
                }
            }
        }
    }
    proof {
        lemma_in_order_unique(toasts@, list, toast_list(toasts@));
    }
    texts
}

} // verus!
