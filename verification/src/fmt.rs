//! Building report text: decimal and hexadecimal numbers, and the quoted
//! (`Debug`) form of strings and of string lists.

use vstd::prelude::*;
use crate::catalog::same_text;
use crate::text::{push_char, push_str};

verus! {

/// The `Debug` form of a string: quoted, with its special characters
/// escaped.
pub uninterp spec fn debug_text(s: Seq<char>) -> Seq<char>;

/// `<str as Debug>::fmt`: the quoted, escaped form of `s`.
#[verifier::external_body]
pub(crate) fn debug_str(s: &str) -> (d: String)
    ensures
        d@ == debug_text(s@),
{
    format!("{s:?}")
}

/// Appends the quoted form of `s`.
pub fn push_debug(out: &mut String, s: &str)
    ensures
        final(out)@ == old(out)@ + debug_text(s@),
{
    let d = debug_str(s);
    push_str(out, d.as_str());
}

/// `items` joined by `sep`.
pub open spec fn join_with(items: Seq<Seq<char>>, sep: Seq<char>) -> Seq<char>
    decreases items.len(),
{
    if items.len() == 0 {
        Seq::empty()
    } else if items.len() == 1 {
        items[0]
    } else {
        join_with(items.drop_last(), sep) + sep + items.last()
    }
}

/// The `Debug` form of a list of strings: `[` the quoted items, separated by
/// `, `, `]`.
pub open spec fn debug_list(items: Seq<Seq<char>>) -> Seq<char> {
    seq!['['] + join_with(items.map_values(|s: Seq<char>| debug_text(s)), seq![',', ' ']) + seq![
        ']',
    ]
}

/// The views of a list of strings.
pub open spec fn string_views(v: Seq<String>) -> Seq<Seq<char>> {
    v.map_values(|s: String| s@)
}

/// Appends the `Debug` form of a list of strings.
pub fn push_debug_list(out: &mut String, items: &Vec<String>)
    ensures
        final(out)@ == old(out)@ + debug_list(string_views(items@)),
{
    push_char(out, '[');
    let ghost start = out@;
    let mut i: usize = 0;
    let ghost q = string_views(items@).map_values(|s: Seq<char>| debug_text(s));
    assert(q.take(0) =~= Seq::<Seq<char>>::empty());
    assert(start =~= start + join_with(q.take(0), seq![',', ' ']));
    while i < items.len()
        invariant
            i <= items@.len(),
            q == string_views(items@).map_values(|s: Seq<char>| debug_text(s)),
            q.len() == items@.len(),
            out@ == start + join_with(q.take(i as int), seq![',', ' ']),
        decreases items.len() - i,
    {
        let ghost before = out@;
        if i > 0 {
            push_str(out, ", ");
            proof {
                reveal_strlit(", ");
                assert(", "@ =~= seq![',', ' ']);
            }
        }
        push_debug(out, items[i].as_str());
        proof {
            assert(q[i as int] == debug_text(items@[i as int]@));
            let t = q.take(i + 1);
            assert(t.drop_last() =~= q.take(i as int));
            assert(t.last() == q[i as int]);
            if i == 0 {
                assert(join_with(t, seq![',', ' ']) == t[0]);
                assert(out@ =~= start + join_with(t, seq![',', ' ']));
            } else {
                assert(out@ =~= start + join_with(t, seq![',', ' ']));
            }
        }
        i = i + 1;
    }
    assert(q.take(items@.len() as int) =~= q);
    push_char(out, ']');
    assert(out@ =~= old(out)@ + debug_list(string_views(items@)));
}

/// Whether `lines` holds exactly the texts of `expected`, in order.
pub fn lines_are(lines: &Vec<String>, expected: &[&str]) -> (same: bool)
    ensures
        same == (string_views(lines@) == expected@.map_values(|s: &str| s@)),
{
    if lines.len() != expected.len() {
        assert(string_views(lines@).len() != expected@.map_values(|s: &str| s@).len());
        return false;
    }
    let mut i: usize = 0;
    while i < lines.len()
        invariant
            lines@.len() == expected@.len(),
            i <= lines@.len(),
            forall|k: int| 0 <= k < i ==> #[trigger] lines@[k]@ == expected@[k]@,
        decreases lines.len() - i,
    {
        if !same_text(lines[i].as_str(), expected[i]) {
            assert(string_views(lines@)[i as int] != expected@.map_values(|s: &str| s@)[i as int]);
            return false;
        }
        i = i + 1;
    }
    assert(string_views(lines@) =~= expected@.map_values(|s: &str| s@));
    true
}

/// The character of decimal digit `d`.
pub open spec fn digit_char(d: nat) -> char {
    if d == 0 {
        '0'
    } else if d == 1 {
        '1'
    } else if d == 2 {
        '2'
    } else if d == 3 {
        '3'
    } else if d == 4 {
        '4'
    } else if d == 5 {
        '5'
    } else if d == 6 {
        '6'
    } else if d == 7 {
        '7'
    } else if d == 8 {
        '8'
    } else {
        '9'
    }
}

/// The decimal form of `n`.
pub open spec fn decimal(n: nat) -> Seq<char>
    decreases n,
{
    if n < 10 {
        seq![digit_char(n)]
    } else {
        decimal(n / 10).push(digit_char(n % 10))
    }
}

fn digit(d: u64) -> (c: char)
    requires
        d < 10,
    ensures
        c == digit_char(d as nat),
{
    if d == 0 {
        '0'
    } else if d == 1 {
        '1'
    } else if d == 2 {
        '2'
    } else if d == 3 {
        '3'
    } else if d == 4 {
        '4'
    } else if d == 5 {
        '5'
    } else if d == 6 {
        '6'
    } else if d == 7 {
        '7'
    } else if d == 8 {
        '8'
    } else {
        '9'
    }
}

/// Appends the decimal form of `n`.
pub fn push_decimal(out: &mut String, n: u64)
    ensures
        final(out)@ == old(out)@ + decimal(n as nat),
    decreases n,
{
    if n >= 10 {
        push_decimal(out, n / 10);
    }
    push_char(out, digit(n % 10));
    assert(out@ =~= old(out)@ + decimal(n as nat));
}

/// Appends the decimal form of a 128-bit `n`.
pub fn push_decimal_wide(out: &mut String, n: u128)
    ensures
        final(out)@ == old(out)@ + decimal(n as nat),
    decreases n,
{
    if n >= 10 {
        push_decimal_wide(out, n / 10);
    }
    push_char(out, digit((n % 10) as u64));
    assert(out@ =~= old(out)@ + decimal(n as nat));
}

/// The lowercase character of hex digit `d`.
pub open spec fn hex_char(d: nat) -> char {
    if d < 10 {
        digit_char(d)
    } else if d == 10 {
        'a'
    } else if d == 11 {
        'b'
    } else if d == 12 {
        'c'
    } else if d == 13 {
        'd'
    } else if d == 14 {
        'e'
    } else {
        'f'
    }
}

/// `{:#04x}` of a byte: `0x` and two lowercase hex digits.
pub open spec fn hex_byte(b: u8) -> Seq<char> {
    seq!['0', 'x', hex_char((b / 16) as nat), hex_char((b % 16) as nat)]
}

fn hex_digit_char(d: u8) -> (c: char)
    requires
        d < 16,
    ensures
        c == hex_char(d as nat),
{
    if d < 10 {
        digit(d as u64)
    } else if d == 10 {
        'a'
    } else if d == 11 {
        'b'
    } else if d == 12 {
        'c'
    } else if d == 13 {
        'd'
    } else if d == 14 {
        'e'
    } else {
        'f'
    }
}

/// Appends `{:#04x}` of a byte.
pub fn push_hex_byte(out: &mut String, b: u8)
    ensures
        final(out)@ == old(out)@ + hex_byte(b),
{
    push_char(out, '0');
    push_char(out, 'x');
    push_char(out, hex_digit_char(b / 16));
    push_char(out, hex_digit_char(b % 16));
    assert(out@ =~= old(out)@ + hex_byte(b));
}

} // verus!
