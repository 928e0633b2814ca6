//! Blank lines: a run of them is collapsed into its first line.
//!
//! A text is split into lines at each newline; a carriage return right before
//! that newline belongs to the line ending. The last line needs no newline
//! after it. A line is blank when it holds nothing but whitespace.

use crate::chars::{append_between, is_whitespace, whitespace};
use vstd::prelude::*;

verus! {

/// The number of characters of `s` that come before its first newline: the
/// length of `s` when it has none.
pub open spec fn first_newline(s: Seq<char>) -> nat
    decreases s.len(),
{
    if s.len() == 0 || s[0] == '\n' {
        0
    } else {
        1 + first_newline(s.drop_first())
    }
}

/// `line` without the carriage return at its end, if it has one.
pub open spec fn without_carriage_return(line: Seq<char>) -> Seq<char> {
    if line.len() > 0 && line.last() == '\r' {
        line.drop_last()
    } else {
        line
    }
}

/// The lines of `s`, each without its line ending. A newline ends a line, and
/// so does a carriage return with a newline after it. What follows the last
/// newline is a line too, unless it is empty.
pub open spec fn split_lines(s: Seq<char>) -> Seq<Seq<char>>
    decreases s.len(),
{
    let end = first_newline(s) as int;
    if s.len() == 0 {
        Seq::empty()
    } else if end >= s.len() {
        seq![s]
    } else {
        seq![without_carriage_return(s.take(end))] + split_lines(s.skip(end + 1))
    }
}

/// Whether `line` holds nothing but whitespace.
pub open spec fn is_blank(line: Seq<char>) -> bool {
    forall|i: int| 0 <= i < line.len() ==> is_whitespace(#[trigger] line[i])
}

/// `lines` without each blank line that comes right after a blank line.
pub open spec fn collapse_blank_lines(lines: Seq<Seq<char>>) -> Seq<Seq<char>>
    decreases lines.len(),
{
    if lines.len() == 0 {
        lines
    } else {
        let before = lines.drop_last();
        let kept = collapse_blank_lines(before);
        if is_blank(lines.last()) && before.len() > 0 && is_blank(before.last()) {
            kept
        } else {
            kept.push(lines.last())
        }
    }
}

/// `lines` with one newline between each line and the next.
pub open spec fn join_lines(lines: Seq<Seq<char>>) -> Seq<char>
    decreases lines.len(),
{
    if lines.len() == 0 {
        Seq::empty()
    } else if lines.len() == 1 {
        lines[0]
    } else {
        join_lines(lines.drop_last()) + seq!['\n'] + lines.last()
    }
}

/// Whether the last character of `s` is a newline.
pub open spec fn ends_with_newline(s: Seq<char>) -> bool {
    s.len() > 0 && s.last() == '\n'
}

/// `s` with every run of blank lines collapsed into the first line of the run.
/// The lines that stay are joined by newlines, and the text ends with a newline
/// if and only if `s` does.
pub open spec fn collapsed(s: Seq<char>) -> Seq<char> {
    let body = join_lines(collapse_blank_lines(split_lines(s)));
    if ends_with_newline(s) {
        body.push('\n')
    } else {
        body
    }
}

/// `first_newline` is the place of the first newline, or the length.
pub proof fn lemma_first_newline(s: Seq<char>, end: int)
    requires
        0 <= end <= s.len(),
        forall|j: int| 0 <= j < end ==> s[j] != '\n',
        end == s.len() || s[end] == '\n',
    ensures
        first_newline(s) == end,
    decreases end,
{
    if end > 0 {
        lemma_first_newline(s.drop_first(), end - 1);
    }
}

/// Something is kept of `lines` unless there are none.
pub proof fn lemma_collapse_keeps_some(lines: Seq<Seq<char>>)
    ensures
        collapse_blank_lines(lines).len() <= lines.len(),
        collapse_blank_lines(lines).len() > 0 <==> lines.len() > 0,
    decreases lines.len(),
{
    if lines.len() > 0 {
        lemma_collapse_keeps_some(lines.drop_last());
    }
}

/// The lines from `from` on, when the line that begins at `from` ends with the
/// newline at `end`.
pub proof fn lemma_split_at_newline(s: Seq<char>, from: int, end: int)
    requires
        0 <= from <= end < s.len(),
        first_newline(s.skip(from)) == end - from,
    ensures
        split_lines(s.skip(from)) == seq![without_carriage_return(s.subrange(from, end))]
            + split_lines(s.skip(end + 1)),
{
    let rest = s.skip(from);
    assert(rest.take(end - from) =~= s.subrange(from, end));
    assert(rest.skip(end - from + 1) =~= s.skip(end + 1));
}

/// The lines from `from` on, when no newline comes at or after `from`.
pub proof fn lemma_split_last_line(s: Seq<char>, from: int)
    requires
        0 <= from <= s.len(),
        first_newline(s.skip(from)) == s.len() - from,
    ensures
        split_lines(s.skip(from)) == if from < s.len() {
            seq![s.subrange(from, s.len() as int)]
        } else {
            Seq::empty()
        },
{
    assert(s.skip(from) =~= s.subrange(from, s.len() as int));
}

/// What `collapse_blank_lines` does with one more line.
pub proof fn lemma_collapse_push(lines: Seq<Seq<char>>, line: Seq<char>)
    ensures
        collapse_blank_lines(lines.push(line)) == if is_blank(line) && lines.len() > 0
            && is_blank(lines.last()) {
            collapse_blank_lines(lines)
        } else {
            collapse_blank_lines(lines).push(line)
        },
{
    assert(lines.push(line).drop_last() =~= lines);
}

/// What `join_lines` does with one more line.
pub proof fn lemma_join_push(lines: Seq<Seq<char>>, line: Seq<char>)
    ensures
        join_lines(lines.push(line)) == if lines.len() == 0 {
            line
        } else {
            join_lines(lines) + seq!['\n'] + line
        },
{
    assert(lines.push(line).drop_last() =~= lines);
}

/// The place at or after `from` where the line that holds `from` ends: that of
/// its newline, or the end of the text.
fn line_end(text: &Vec<char>, from: usize) -> (end: usize)
    requires
        from <= text.len(),
    ensures
        from <= end <= text.len(),
        first_newline(text@.skip(from as int)) == end - from,
        forall|j: int| from <= j < end ==> text[j] != '\n',
        end < text.len() ==> text[end as int] == '\n',
{
    let mut end = from;
    while end < text.len() && text[end] != '\n'
        invariant
            from <= end <= text.len(),
            forall|j: int| from <= j < end ==> text[j] != '\n',
        decreases text.len() - end,
    {
        end += 1;
    }
    proof {
        lemma_first_newline(text@.skip(from as int), end - from);
    }
    end
}

/// Whether the characters of `text` from `lo` up to `hi` are all whitespace.
fn blank_between(text: &Vec<char>, lo: usize, hi: usize) -> (r: bool)
    requires
        lo <= hi <= text.len(),
    ensures
        r == is_blank(text@.subrange(lo as int, hi as int)),
{
    let ghost line = text@.subrange(lo as int, hi as int);
    let mut i = lo;
    while i < hi
        invariant
            lo <= i <= hi <= text.len(),
            line == text@.subrange(lo as int, hi as int),
            forall|j: int| 0 <= j < i - lo ==> is_whitespace(#[trigger] line[j]),
        decreases hi - i,
    {
        if !whitespace(text[i]) {
            assert(!is_whitespace(line[i - lo]));
            return false;
        }
        i += 1;
    }
    true
}

/// Collapses every run of blank lines in `text` into the first line of the run.
pub fn collapse(text: &Vec<char>) -> (out: Vec<char>)
    ensures
        out@ == collapsed(text@),
        out.len() <= text.len(),
{
    let n = text.len();
    let mut out: Vec<char> = Vec::new();
    let mut from: usize = 0;
    let mut started = false;
    let mut previous_blank = false;
    let ghost mut done: Seq<Seq<char>> = Seq::empty();
    assert(text@.skip(0) =~= text@);
    while from < n
        invariant
            n == text.len(),
            from <= n,
            done + split_lines(text@.skip(from as int)) == split_lines(text@),
            out@ == join_lines(collapse_blank_lines(done)),
            started == (done.len() > 0),
            previous_blank == (done.len() > 0 && is_blank(done.last())),
            from == 0 ==> out.len() == 0 && !started,
            from > 0 ==> started,
            0 < from < n ==> text[from - 1] == '\n',
            from > 0 && text[from - 1] == '\n' ==> out.len() + 1 <= from,
            out.len() <= from,
        decreases n - from,
    {
        let end = line_end(text, from);
        let ended = end < n;
        let stop = if ended && from < end && text[end - 1] == '\r' {
            end - 1
        } else {
            end
        };
        let blank = blank_between(text, from, stop);
        let ghost line = text@.subrange(from as int, stop as int);
        let ghost kept = collapse_blank_lines(done);
        proof {
            lemma_collapse_keeps_some(done);
            lemma_collapse_push(done, line);
            lemma_join_push(kept, line);
            if ended {
                lemma_split_at_newline(text@, from as int, end as int);
                let whole = text@.subrange(from as int, end as int);
                assert(line =~= without_carriage_return(whole)) by {
                    if from < end {
                        assert(whole.last() == text[end - 1]);
                        assert(whole.drop_last() =~= text@.subrange(from as int, end - 1));
                    }
                }
                assert(done.push(line) + split_lines(text@.skip(end + 1)) =~= done + (seq![line]
                    + split_lines(text@.skip(end + 1))));
            } else {
                lemma_split_last_line(text@, from as int);
                lemma_first_newline(text@.skip(n as int), 0);
                lemma_split_last_line(text@, n as int);
                assert(done.push(line) + Seq::<Seq<char>>::empty() =~= done + seq![line]);
            }
        }
        if !(blank && previous_blank) {
            if started {
                out.push('\n');
            }
            append_between(&mut out, text, from, stop);
        }
        proof {
            done = done.push(line);
        }
        started = true;
        previous_blank = blank;
        from = if ended {
            end + 1
        } else {
            n
        };
    }
    proof {
        lemma_first_newline(text@.skip(n as int), 0);
        lemma_split_last_line(text@, n as int);
        assert(done + Seq::<Seq<char>>::empty() =~= done);
    }
    if n > 0 && text[n - 1] == '\n' {
        out.push('\n');
    }
    out
}

} // verus!
