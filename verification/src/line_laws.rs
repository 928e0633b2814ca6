//! What holds of lines and of the collapsing of blank lines.

use crate::lines::{
    collapse_blank_lines, collapsed, ends_with_newline, first_newline, is_blank, join_lines,
    lemma_first_newline, split_lines, without_carriage_return,
};
use vstd::prelude::*;

verus! {

/// Whether `s` holds a carriage return with a newline right after it.
pub open spec fn has_carriage_return_newline(s: Seq<char>) -> bool {
    exists|i: int| 0 <= i && i + 1 < s.len() && #[trigger] s[i] == '\r' && s[i + 1] == '\n'
}

/// Whether `line` holds no newline.
pub open spec fn newline_free(line: Seq<char>) -> bool {
    forall|i: int| 0 <= i < line.len() ==> #[trigger] line[i] != '\n'
}

/// Whether no line of `lines` holds a newline.
pub open spec fn all_newline_free(lines: Seq<Seq<char>>) -> bool {
    forall|j: int| 0 <= j < lines.len() ==> newline_free(#[trigger] lines[j])
}

/// Whether no blank line of `lines` comes right after a blank line.
pub open spec fn no_adjacent_blank_lines(lines: Seq<Seq<char>>) -> bool {
    forall|j: int| 0 < j < lines.len() ==> !(is_blank(lines[j - 1]) && is_blank(#[trigger] lines[j]))
}

/// `lines` with a newline after each line.
pub open spec fn terminated_lines(lines: Seq<Seq<char>>) -> Seq<char> {
    if lines.len() == 0 {
        Seq::empty()
    } else {
        join_lines(lines).push('\n')
    }
}

/// `first_newline` is within the text, nothing before it is a newline, and it
/// is the place of a newline unless it is the end.
pub proof fn lemma_first_newline_is_first(s: Seq<char>)
    ensures
        first_newline(s) <= s.len(),
        forall|j: int| 0 <= j < first_newline(s) ==> s[j] != '\n',
        first_newline(s) < s.len() ==> s[first_newline(s) as int] == '\n',
    decreases s.len(),
{
    if !(s.len() == 0 || s[0] == '\n') {
        let tail = s.drop_first();
        lemma_first_newline_is_first(tail);
        assert forall|j: int| 0 <= j < first_newline(s) implies s[j] != '\n' by {
            if j > 0 {
                assert(s[j] == tail[j - 1]);
            }
        }
        if first_newline(s) < s.len() {
            assert(s[first_newline(s) as int] == tail[first_newline(tail) as int]);
        }
    }
}

/// A text that is empty or ends with a newline can be split apart from what
/// follows it.
pub proof fn lemma_split_concat(a: Seq<char>, b: Seq<char>)
    requires
        a.len() == 0 || a.last() == '\n',
    ensures
        split_lines(a + b) == split_lines(a) + split_lines(b),
    decreases a.len(),
{
    if a.len() == 0 {
        assert(a + b =~= b);
        assert(split_lines(a) + split_lines(b) =~= split_lines(b));
    } else {
        lemma_first_newline_is_first(a);
        let end = first_newline(a) as int;
        assert(end < a.len());
        let whole = a + b;
        lemma_first_newline(whole, end);
        let rest = a.skip(end + 1);
        assert(whole.take(end) =~= a.take(end));
        assert(whole.skip(end + 1) =~= rest + b);
        if rest.len() > 0 {
            assert(rest.last() == a.last());
        }
        lemma_split_concat(rest, b);
        let head = seq![without_carriage_return(a.take(end))];
        assert(split_lines(whole) == head + split_lines(rest + b));
        assert(split_lines(a) == head + split_lines(rest));
        assert(head + (split_lines(rest) + split_lines(b)) =~= (head + split_lines(rest))
            + split_lines(b));
    }
}

/// A line with its newline is one line.
pub proof fn lemma_split_terminated_line(line: Seq<char>)
    requires
        newline_free(line),
    ensures
        split_lines(line.push('\n')) == seq![without_carriage_return(line)],
{
    let s = line.push('\n');
    lemma_first_newline(s, line.len() as int);
    assert(s.take(line.len() as int) =~= line);
    assert(s.skip(line.len() as int + 1) =~= Seq::<char>::empty());
    assert(split_lines(Seq::<char>::empty()) =~= Seq::<Seq<char>>::empty());
    assert(seq![without_carriage_return(line)] + Seq::<Seq<char>>::empty() =~= seq![
        without_carriage_return(line),
    ]);
}

/// A line without a newline is one line, unless it is empty.
pub proof fn lemma_split_open_line(line: Seq<char>)
    requires
        newline_free(line),
    ensures
        split_lines(line) == if line.len() == 0 {
            Seq::<Seq<char>>::empty()
        } else {
            seq![line]
        },
{
    lemma_first_newline(line, line.len() as int);
}

/// No line of a text holds a newline.
pub proof fn lemma_lines_are_newline_free(s: Seq<char>)
    ensures
        all_newline_free(split_lines(s)),
    decreases s.len(),
{
    lemma_first_newline_is_first(s);
    let end = first_newline(s) as int;
    if s.len() > 0 && end < s.len() {
        let rest = s.skip(end + 1);
        lemma_lines_are_newline_free(rest);
        let line = without_carriage_return(s.take(end));
        assert(newline_free(line)) by {
            assert forall|i: int| 0 <= i < line.len() implies line[i] != '\n' by {
                assert(line[i] == s[i]);
            }
        }
        let lines = seq![line] + split_lines(rest);
        assert forall|j: int| 0 <= j < lines.len() implies newline_free(#[trigger] lines[j]) by {
            if j > 0 {
                assert(lines[j] == split_lines(rest)[j - 1]);
            }
        }
    } else if s.len() > 0 {
        assert(newline_free(s));
    }
}

/// A text has lines unless it is empty.
pub proof fn lemma_text_has_lines(s: Seq<char>)
    ensures
        split_lines(s).len() > 0 <==> s.len() > 0,
{
    lemma_first_newline_is_first(s);
}

/// After collapsing, no blank line comes right after a blank line. The lines
/// that stay are lines of the text, and the last of them is blank if and only
/// if the last line of the text is.
pub proof fn lemma_collapsed_lines(lines: Seq<Seq<char>>)
    ensures
        no_adjacent_blank_lines(collapse_blank_lines(lines)),
        all_newline_free(lines) ==> all_newline_free(collapse_blank_lines(lines)),
        collapse_blank_lines(lines).len() > 0 <==> lines.len() > 0,
        lines.len() > 0 ==> is_blank(collapse_blank_lines(lines).last()) == is_blank(lines.last()),
    decreases lines.len(),
{
    if lines.len() > 0 {
        let before = lines.drop_last();
        let kept = collapse_blank_lines(before);
        lemma_collapsed_lines(before);
        let all = collapse_blank_lines(lines);
        if all_newline_free(lines) {
            assert forall|j: int| 0 <= j < before.len() implies newline_free(
                #[trigger] before[j],
            ) by {
                assert(before[j] == lines[j]);
            }
            assert(newline_free(lines.last()));
        }
    }
}

/// Lines among which no blank line comes right after a blank line stay as they
/// are.
pub proof fn lemma_collapse_changes_nothing(lines: Seq<Seq<char>>)
    requires
        no_adjacent_blank_lines(lines),
    ensures
        collapse_blank_lines(lines) == lines,
    decreases lines.len(),
{
    if lines.len() > 0 {
        let before = lines.drop_last();
        assert forall|j: int| 0 < j < before.len() implies !(is_blank(before[j - 1]) && is_blank(
            #[trigger] before[j],
        )) by {
            assert(before[j] == lines[j]);
            assert(before[j - 1] == lines[j - 1]);
        }
        lemma_collapse_changes_nothing(before);
        if before.len() > 0 {
            assert(before.last() == lines[lines.len() - 2]);
            assert(lines.last() == lines[lines.len() - 1]);
        }
        assert(before.push(lines.last()) =~= lines);
    }
}

/// The terminated lines, taken apart at the last line.
pub proof fn lemma_terminated_lines_push(lines: Seq<Seq<char>>)
    requires
        lines.len() > 0,
    ensures
        terminated_lines(lines) == terminated_lines(lines.drop_last()) + lines.last().push('\n'),
        lines.last().len() > 0 ==> join_lines(lines) == terminated_lines(lines.drop_last())
            + lines.last(),
        lines.last().len() == 0 ==> join_lines(lines) == terminated_lines(lines.drop_last()),
{
    let before = lines.drop_last();
    let last = lines.last();
    if before.len() == 0 {
        assert(terminated_lines(lines) =~= terminated_lines(before) + last.push('\n'));
        assert(join_lines(lines) =~= terminated_lines(before) + last);
    } else {
        assert(join_lines(lines) == join_lines(before) + seq!['\n'] + last);
        assert(terminated_lines(lines) =~= terminated_lines(before) + last.push('\n'));
        assert(join_lines(lines) =~= terminated_lines(before) + last);
    }
    if last.len() == 0 {
        assert(terminated_lines(before) + last =~= terminated_lines(before));
    }
}

/// A carriage return with a newline after it in the beginning of a text is one
/// in the text.
pub proof fn lemma_carriage_return_newline_in_prefix(a: Seq<char>, b: Seq<char>)
    requires
        has_carriage_return_newline(a),
    ensures
        has_carriage_return_newline(a + b),
{
    let i = choose|i: int| 0 <= i && i + 1 < a.len() && #[trigger] a[i] == '\r' && a[i + 1] == '\n';
    let whole = a + b;
    assert(whole[i] == '\r' && whole[i + 1] == '\n');
}

/// Lines that are written out with a newline after each are read back as they
/// were, if no carriage return stands before a newline.
pub proof fn lemma_split_of_terminated_lines(lines: Seq<Seq<char>>)
    requires
        all_newline_free(lines),
        !has_carriage_return_newline(terminated_lines(lines)),
    ensures
        split_lines(terminated_lines(lines)) == lines,
    decreases lines.len(),
{
    if lines.len() == 0 {
        assert(split_lines(terminated_lines(lines)) =~= lines);
    } else {
        let before = lines.drop_last();
        let last = lines.last();
        let start = terminated_lines(before);
        let text = terminated_lines(lines);
        lemma_terminated_lines_push(lines);
        assert forall|j: int| 0 <= j < before.len() implies newline_free(#[trigger] before[j]) by {
            assert(before[j] == lines[j]);
        }
        if has_carriage_return_newline(start) {
            lemma_carriage_return_newline_in_prefix(start, last.push('\n'));
        }
        lemma_split_of_terminated_lines(before);
        lemma_split_concat(start, last.push('\n'));
        lemma_split_terminated_line(last);
        if last.len() > 0 && last.last() == '\r' {
            let at = start.len() + last.len() - 1;
            assert(text[at] == '\r' && text[at + 1] == '\n');
        }
        assert(before + seq![last] =~= lines);
    }
}

/// Lines that are written out with a newline between them are read back as
/// they were, if the last line is not empty and no carriage return stands
/// before a newline.
pub proof fn lemma_split_of_joined_lines(lines: Seq<Seq<char>>)
    requires
        all_newline_free(lines),
        lines.len() > 0,
        lines.last().len() > 0,
        !has_carriage_return_newline(join_lines(lines)),
    ensures
        split_lines(join_lines(lines)) == lines,
        !ends_with_newline(join_lines(lines)),
{
    let before = lines.drop_last();
    let last = lines.last();
    let start = terminated_lines(before);
    lemma_terminated_lines_push(lines);
    assert forall|j: int| 0 <= j < before.len() implies newline_free(#[trigger] before[j]) by {
        assert(before[j] == lines[j]);
    }
    if has_carriage_return_newline(start) {
        lemma_carriage_return_newline_in_prefix(start, last);
    }
    lemma_split_of_terminated_lines(before);
    lemma_split_concat(start, last);
    lemma_split_open_line(last);
    assert(before + seq![last] =~= lines);
    assert(join_lines(lines).last() == last.last());
}

/// Lines written out with a newline after each, taken apart at the first
/// line.
pub proof fn lemma_terminated_lines_prepend(line: Seq<char>, rest: Seq<Seq<char>>)
    ensures
        terminated_lines(seq![line] + rest) == line.push('\n') + terminated_lines(rest),
    decreases rest.len(),
{
    let all = seq![line] + rest;
    lemma_terminated_lines_push(all);
    if rest.len() == 0 {
        assert(all.drop_last() =~= Seq::<Seq<char>>::empty());
        assert(terminated_lines(all) =~= line.push('\n') + terminated_lines(rest));
    } else {
        lemma_terminated_lines_prepend(line, rest.drop_last());
        lemma_terminated_lines_push(rest);
        assert(all.drop_last() =~= seq![line] + rest.drop_last());
        assert(all.last() == rest.last());
        assert(terminated_lines(all) =~= line.push('\n') + terminated_lines(rest));
    }
}

/// The lines that stay after collapsing take no more room than all the lines.
pub proof fn lemma_collapsed_lines_are_no_longer(lines: Seq<Seq<char>>)
    ensures
        terminated_lines(collapse_blank_lines(lines)).len() <= terminated_lines(lines).len(),
    decreases lines.len(),
{
    if lines.len() > 0 {
        let before = lines.drop_last();
        let stay = collapse_blank_lines(before);
        lemma_collapsed_lines_are_no_longer(before);
        lemma_terminated_lines_push(lines);
        let more = stay.push(lines.last());
        lemma_terminated_lines_push(more);
        assert(more.drop_last() =~= stay);
    }
}

/// The lines of a text, each with a newline after it, take no more room than
/// the text, but for the newline that the last line may lack. They take less
/// where a carriage return stands before a newline, since it goes with the
/// line ending.
pub proof fn lemma_lines_are_no_longer(s: Seq<char>)
    ensures
        terminated_lines(split_lines(s)).len() <= s.len() + if s.len() > 0 && !ends_with_newline(s) {
            1int
        } else {
            0int
        },
        has_carriage_return_newline(s) ==> terminated_lines(split_lines(s)).len() < s.len()
            + if !ends_with_newline(s) {
            1int
        } else {
            0int
        },
    decreases s.len(),
{
    lemma_first_newline_is_first(s);
    let end = first_newline(s) as int;
    if s.len() == 0 {
    } else if end >= s.len() {
        assert(terminated_lines(seq![s]) =~= s.push('\n'));
        assert(s.last() == s[s.len() - 1]);
    } else {
        let whole = s.take(end);
        let line = without_carriage_return(whole);
        let rest = s.skip(end + 1);
        lemma_lines_are_no_longer(rest);
        lemma_terminated_lines_prepend(line, split_lines(rest));
        if rest.len() > 0 {
            assert(rest.last() == s.last());
        } else {
            assert(s.last() == s[end]);
        }
        if has_carriage_return_newline(s) {
            let i = choose|i: int|
                0 <= i && i + 1 < s.len() && #[trigger] s[i] == '\r' && s[i + 1] == '\n';
            if i + 1 == end {
                assert(whole.last() == s[i]);
            } else {
                assert(i > end);
                assert(rest[i - end - 1] == '\r' && rest[i - end] == '\n');
            }
        }
    }
}

/// Collapsing never makes a text longer, and it makes the text shorter where a
/// carriage return stands before a newline.
pub proof fn lemma_collapsed_is_no_longer(s: Seq<char>)
    ensures
        collapsed(s).len() <= s.len(),
        has_carriage_return_newline(s) ==> collapsed(s).len() < s.len(),
{
    let lines = split_lines(s);
    let stay = collapse_blank_lines(lines);
    lemma_text_has_lines(s);
    lemma_collapsed_lines(lines);
    lemma_collapsed_lines_are_no_longer(lines);
    lemma_lines_are_no_longer(s);
}

/// Collapsing a second time changes nothing, unless the first time left a
/// carriage return before a newline: that carriage return would go.
pub proof fn lemma_collapse_is_idempotent(s: Seq<char>)
    requires
        !has_carriage_return_newline(collapsed(s)),
    ensures
        collapsed(collapsed(s)) == collapsed(s),
{
    let lines = split_lines(s);
    let stay = collapse_blank_lines(lines);
    let once = collapsed(s);
    lemma_lines_are_newline_free(s);
    lemma_collapsed_lines(lines);
    lemma_collapse_changes_nothing(stay);
    lemma_text_has_lines(s);
    lemma_first_newline(Seq::<char>::empty(), 0);
    if stay.len() == 0 {
        assert(once =~= Seq::<char>::empty());
    } else if ends_with_newline(s) {
        assert(once == terminated_lines(stay));
        lemma_split_of_terminated_lines(stay);
    } else if stay.last().len() > 0 {
        lemma_split_of_joined_lines(stay);
    } else {
        let before = stay.drop_last();
        lemma_terminated_lines_push(stay);
        assert(once == terminated_lines(before));
        assert forall|j: int| 0 <= j < before.len() implies newline_free(#[trigger] before[j]) by {
            assert(before[j] == stay[j]);
        }
        assert forall|j: int| 0 < j < before.len() implies !(is_blank(before[j - 1]) && is_blank(
            #[trigger] before[j],
        )) by {
            assert(before[j] == stay[j]);
            assert(before[j - 1] == stay[j - 1]);
        }
        lemma_split_of_terminated_lines(before);
        lemma_collapse_changes_nothing(before);
        if before.len() == 0 {
            assert(once =~= Seq::<char>::empty());
        }
    }
}

} // verus!
