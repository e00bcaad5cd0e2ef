//! A guard against one anti-pattern in the driver source: creating the
//! driver's evaluator and then entering a bare `loop` on it, which drops the
//! evaluator between sends. The check is on lines, indentation-insensitive.

use vstd::prelude::*;
use crate::catalog::starts_with_text;
use crate::session::{char_is_whitespace, is_white_space};
use crate::text::{chars_of, string_of};

verus! {

/// The start of the line that creates the driver's evaluator.
pub const EVAL_START: &'static str = "let mut eval = document::eval(";

/// A line without the `\r` of its `\r\n` ending.
pub open spec fn strip_cr(line: Seq<char>) -> Seq<char> {
    if line.len() > 0 && line.last() == '\r' {
        line.drop_last()
    } else {
        line
    }
}

/// Reading `s` left to right: the lines finished so far, and the line
/// being read. A `\n` finishes a line.
pub open spec fn line_fold(s: Seq<char>) -> (Seq<Seq<char>>, Seq<char>)
    decreases s.len(),
{
    if s.len() == 0 {
        (Seq::empty(), Seq::empty())
    } else {
        let (done, current) = line_fold(s.drop_last());
        if s.last() == '\n' {
            (done.push(strip_cr(current)), Seq::empty())
        } else {
            (done, current.push(s.last()))
        }
    }
}

/// The lines of `s`, as `str::lines` gives them: split at `\n`, each
/// without its `\r\n` or `\n`, and no empty line after a final `\n`.
pub open spec fn lines_of(s: Seq<char>) -> Seq<Seq<char>> {
    let (done, current) = line_fold(s);
    if current.len() > 0 {
        done.push(current)
    } else {
        done
    }
}

/// `s` without its leading white space.
pub open spec fn trim_start_spec(s: Seq<char>) -> Seq<char>
    decreases s.len(),
{
    if s.len() > 0 && is_white_space(s[0]) {
        trim_start_spec(s.drop_first())
    } else {
        s
    }
}

/// `s` without its trailing white space.
pub open spec fn trim_end_of(s: Seq<char>) -> Seq<char>
    decreases s.len(),
{
    if s.len() > 0 && is_white_space(s.last()) {
        trim_end_of(s.drop_last())
    } else {
        s
    }
}

pub open spec fn starts_with_spec(s: Seq<char>, prefix: Seq<char>) -> bool {
    prefix.len() <= s.len() && s.take(prefix.len() as int) == prefix
}

/// The line creates the driver's evaluator.
pub open spec fn is_eval_line(line: Seq<char>) -> bool {
    starts_with_spec(trim_start_spec(line), EVAL_START@)
}

/// A trimmed line that is a bare `loop`.
pub open spec fn is_loop_line(trimmed: Seq<char>) -> bool {
    trimmed == "loop"@ || starts_with_spec(trimmed, "loop {"@) || starts_with_spec(trimmed, "loop{"@)
}

/// The first line from `j` on that is not blank.
pub open spec fn next_nonblank(lines: Seq<Seq<char>>, j: int) -> Option<int>
    decreases lines.len() - j,
{
    if j < 0 || j >= lines.len() {
        None
    } else if trim_end_of(trim_start_spec(lines[j])).len() > 0 {
        Some(j)
    } else {
        next_nonblank(lines, j + 1)
    }
}

/// Line `i` creates the evaluator and the next non-blank line is a loop.
pub open spec fn eval_then_loop_at(lines: Seq<Seq<char>>, i: int) -> bool {
    0 <= i < lines.len() && is_eval_line(lines[i]) && (next_nonblank(lines, i + 1) matches Some(k)
        && is_loop_line(trim_end_of(trim_start_spec(lines[k]))))
}

/// Somewhere in `rust`, the line creating the driver's evaluator is followed,
/// blank lines aside, by a line that is a bare `loop`.
pub open spec fn eval_then_loop(rust: Seq<char>) -> bool {
    exists|i: int| #[trigger] eval_then_loop_at(lines_of(rust), i)
}

pub(crate) fn split_lines(s: &str) -> (lines: Vec<Vec<char>>)
    ensures
        lines@.map_values(|l: Vec<char>| l@) == lines_of(s@),
{
    let chars = chars_of(s);
    let mut done: Vec<Vec<char>> = Vec::new();
    let mut current: Vec<char> = Vec::new();
    let mut i: usize = 0;
    assert(s@.take(0) =~= Seq::<char>::empty());
    while i < chars.len()
        invariant
            chars@ == s@,
            i <= chars@.len(),
            line_fold(s@.take(i as int)) == (done@.map_values(|l: Vec<char>| l@), current@),
        decreases chars.len() - i,
    {
        let c = chars[i];
        assert(s@.take(i + 1).drop_last() =~= s@.take(i as int));
        assert(s@.take(i + 1).last() == c);
        if c == '\n' {
            if current.len() > 0 && current[current.len() - 1] == '\r' {
                current.pop();
            }
            let ghost before = done@;
            done.push(current);
            assert(done@.map_values(|l: Vec<char>| l@) =~= before.map_values(|l: Vec<char>| l@).push(
                done@.last()@,
            ));
            current = Vec::new();
        } else {
            current.push(c);
        }
        i = i + 1;
    }
    assert(s@.take(chars@.len() as int) =~= s@);
    if current.len() > 0 {
        let ghost before = done@;
        done.push(current);
        assert(done@.map_values(|l: Vec<char>| l@) =~= before.map_values(|l: Vec<char>| l@).push(
            done@.last()@,
        ));
    }
    done
}

pub(crate) fn trim_both(line: &Vec<char>) -> (t: Vec<char>)
    ensures
        t@ == trim_end_of(trim_start_spec(line@)),
{
    let mut start: usize = 0;
    assert(line@.skip(0) =~= line@);
    while start < line.len() && char_is_whitespace(line[start])
        invariant
            start <= line@.len(),
            trim_start_spec(line@) == trim_start_spec(line@.skip(start as int)),
        decreases line.len() - start,
    {
        assert(line@.skip(start as int).drop_first() =~= line@.skip(start + 1));
        start = start + 1;
    }
    let mut end: usize = line.len();
    let ghost front = line@.skip(start as int);
    assert(trim_start_spec(line@) == front) by {
        assert(line@.skip(start as int) =~= line@.subrange(start as int, line@.len() as int));
    }
    assert(front.take(front.len() as int) =~= front);
    while end > start && char_is_whitespace(line[end - 1])
        invariant
            start <= end <= line@.len(),
            front == line@.skip(start as int),
            trim_end_of(front) == trim_end_of(front.take(end - start)),
        decreases end,
    {
        assert(front.take(end - start).drop_last() =~= front.take(end - 1 - start));
        end = end - 1;
    }
    let mut t: Vec<char> = Vec::new();
    let mut k: usize = start;
    while k < end
        invariant
            start <= k <= end <= line@.len(),
            front == line@.skip(start as int),
            t@ == front.take(k - start),
        decreases end - k,
    {
        t.push(line[k]);
        k = k + 1;
        assert(t@ =~= front.take(k - start));
    }
    t
}

fn trimmed_start_is_eval(line: &Vec<char>) -> (b: bool)
    ensures
        b == is_eval_line(line@),
{
    let mut start: usize = 0;
    assert(line@.skip(0) =~= line@);
    while start < line.len() && char_is_whitespace(line[start])
        invariant
            start <= line@.len(),
            trim_start_spec(line@) == trim_start_spec(line@.skip(start as int)),
        decreases line.len() - start,
    {
        assert(line@.skip(start as int).drop_first() =~= line@.skip(start + 1));
        start = start + 1;
    }
    let mut rest: Vec<char> = Vec::new();
    let mut k: usize = start;
    while k < line.len()
        invariant
            start <= k <= line@.len(),
            rest@ == line@.subrange(start as int, k as int),
        decreases line.len() - k,
    {
        rest.push(line[k]);
        k = k + 1;
        assert(rest@ =~= line@.subrange(start as int, k as int));
    }
    assert(rest@ =~= line@.skip(start as int));
    let text = string_of(&rest);
    starts_with_text(text.as_str(), EVAL_START)
}

fn is_loop(trimmed: &Vec<char>) -> (b: bool)
    ensures
        b == is_loop_line(trimmed@),
{
    let text = string_of(trimmed);
    let bare = crate::catalog::same_text(text.as_str(), "loop");
    bare || starts_with_text(text.as_str(), "loop {") || starts_with_text(text.as_str(), "loop{")
}

proof fn lemma_next_nonblank(lines: Seq<Seq<char>>, j: int)
    requires
        0 <= j,
    ensures
        next_nonblank(lines, j) matches Some(k) ==> j <= k < lines.len(),
    decreases lines.len() - j,
{
    if j < lines.len() && trim_end_of(trim_start_spec(lines[j])).len() == 0 {
        lemma_next_nonblank(lines, j + 1);
    }
}

/// Whether, somewhere in `rust`, the line creating the driver's evaluator
/// is followed (blank lines aside) by a line that is a bare `loop`, at any
/// indentation.
pub fn eval_immediately_followed_by_a_loop(rust: &str) -> (found: bool)
    ensures
        found == eval_then_loop(rust@),
{
    let lines = split_lines(rust);
    let ghost ls = lines_of(rust@);
    let mut i: usize = 0;
    while i < lines.len()
        invariant
            i <= lines@.len(),
            ls == lines@.map_values(|l: Vec<char>| l@),
            ls == lines_of(rust@),
            forall|k: int| 0 <= k < i ==> !#[trigger] eval_then_loop_at(ls, k),
        decreases lines.len() - i,
    {
        assert(ls[i as int] == lines@[i as int]@);
        if trimmed_start_is_eval(&lines[i]) {
            let mut j: usize = i + 1;
            proof {
                lemma_next_nonblank(ls, i + 1);
            }
            let mut decided = false;
            let mut loops = false;
            while j < lines.len() && !decided
                invariant
                    i < j <= lines@.len(),
                    ls == lines@.map_values(|l: Vec<char>| l@),
                    !decided ==> next_nonblank(ls, i + 1) == next_nonblank(ls, j as int),
                    !decided ==> !loops,
                    decided ==> (loops == (next_nonblank(ls, i + 1) matches Some(k) && is_loop_line(
                        trim_end_of(trim_start_spec(ls[k])),
                    ))),
                decreases lines.len() - j, (if decided { 0int } else { 1int }),
            {
                let t = trim_both(&lines[j]);
                assert(ls[j as int] == lines@[j as int]@);
                if t.len() > 0 {
                    decided = true;
                    loops = is_loop(&t);
                } else {
                    j = j + 1;
                }
            }
            if !decided {
                assert(next_nonblank(ls, j as int) is None);
            }
            if loops {
                assert(eval_then_loop_at(ls, i as int));
                return true;
            }
        }
        i = i + 1;
    }
    false
}

} // verus!
