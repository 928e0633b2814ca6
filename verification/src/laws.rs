//! What holds of the scanners and of the cleaner as a whole.

use crate::basic::rem_at;
use crate::chars::{is_whitespace, peek};
use crate::cleaner::{cleaned, comments_removed};
use crate::language::LanguageFamily;
use crate::line_laws::{
    has_carriage_return_newline, lemma_collapse_is_idempotent, lemma_collapsed_is_no_longer,
};
use crate::scan::{kept, output_upto, scanned, state_at, transition, Scanner};
use vstd::prelude::*;

verus! {

/// Whether the character at position `i` of `s` belongs to a literal: `scanner`
/// reads it inside a literal, or it is the delimiter that opens one.
pub open spec fn in_literal(scanner: Scanner, s: Seq<char>, i: int) -> bool {
    state_at(scanner, s, i).mode.is_literal() || state_at(scanner, s, i + 1).mode.is_literal()
}

/// What a scanner has copied is never longer than what it has read.
pub proof fn lemma_output_is_no_longer(scanner: Scanner, s: Seq<char>, i: int)
    requires
        0 <= i <= s.len(),
    ensures
        output_upto(scanner, s, i).len() <= i,
        scanned(scanner, s).len() <= s.len(),
{
    lemma_output_length(scanner, s, i);
    lemma_output_length(scanner, s, s.len() as int);
}

proof fn lemma_output_length(scanner: Scanner, s: Seq<char>, i: int)
    requires
        0 <= i,
    ensures
        output_upto(scanner, s, i).len() <= i,
    decreases i,
{
    if i > 0 {
        lemma_output_length(scanner, s, i - 1);
    }
}

/// What a scanner has copied stays: the output after `i` characters begins the
/// output after `j` characters, for `i <= j`.
pub proof fn lemma_output_grows(scanner: Scanner, s: Seq<char>, i: int, j: int)
    requires
        0 <= i <= j,
    ensures
        output_upto(scanner, s, i).is_prefix_of(output_upto(scanner, s, j)),
    decreases j - i,
{
    if i < j {
        lemma_output_grows(scanner, s, i, j - 1);
    }
}

/// A character of a literal is copied, whatever it is: its delimiters, its
/// escapes, and any comment marker in it. A character read inside a literal
/// never begins a comment.
pub proof fn lemma_literal_is_kept(scanner: Scanner, s: Seq<char>, i: int)
    requires
        0 <= i < s.len(),
        in_literal(scanner, s, i),
    ensures
        kept(scanner, s, i),
        state_at(scanner, s, i).mode.is_literal() ==> !state_at(scanner, s, i + 1).mode.is_comment(),
{
    let st = state_at(scanner, s, i);
    assert(state_at(scanner, s, i + 1) == transition(scanner, st, s, i).next);
}

/// A scanner never leaves the modes of its language.
pub proof fn lemma_scanner_keeps_to_its_modes(scanner: Scanner, s: Seq<char>, i: int)
    ensures
        scanner.knows(state_at(scanner, s, i).mode),
    decreases i,
{
    if i > 0 {
        lemma_scanner_keeps_to_its_modes(scanner, s, i - 1);
    }
}

/// A character read inside a comment is left out, but for the newline that
/// ends a line comment; and so is the character that begins a comment.
pub proof fn lemma_comment_is_left_out(scanner: Scanner, s: Seq<char>, i: int)
    requires
        0 <= i < s.len(),
    ensures
        state_at(scanner, s, i).mode.is_comment() ==> (kept(scanner, s, i) <==> state_at(
            scanner,
            s,
            i,
        ).mode is LineComment && s[i] == '\n'),
        !state_at(scanner, s, i).mode.is_comment() && state_at(scanner, s, i + 1).mode.is_comment()
            ==> !kept(scanner, s, i),
{
    let st = state_at(scanner, s, i);
    lemma_scanner_keeps_to_its_modes(scanner, s, i);
    assert(state_at(scanner, s, i + 1) == transition(scanner, st, s, i).next);
}

/// A stretch of text that lies in literals from end to end is copied as it is:
/// it stands in the output, unbroken, right after what was copied before it.
pub proof fn lemma_literal_span_is_preserved(scanner: Scanner, s: Seq<char>, from: int, to: int)
    requires
        0 <= from <= to <= s.len(),
        forall|i: int| from <= i < to ==> in_literal(scanner, s, i),
    ensures
        output_upto(scanner, s, to) == output_upto(scanner, s, from) + s.subrange(from, to),
        ({
            let start = output_upto(scanner, s, from).len() as int;
            &&& start + (to - from) <= scanned(scanner, s).len()
            &&& scanned(scanner, s).subrange(start, start + (to - from)) == s.subrange(from, to)
        }),
    decreases to - from,
{
    let before = output_upto(scanner, s, from);
    if from < to {
        lemma_literal_span_is_preserved(scanner, s, from, to - 1);
        lemma_literal_is_kept(scanner, s, to - 1);
        assert(s.subrange(from, to) =~= s.subrange(from, to - 1).push(s[to - 1]));
        assert(output_upto(scanner, s, to) =~= before + s.subrange(from, to));
    } else {
        assert(s.subrange(from, to) =~= Seq::<char>::empty());
        assert(before + s.subrange(from, to) =~= before);
    }
    lemma_output_grows(scanner, s, to, s.len() as int);
    let whole = scanned(scanner, s);
    let upto = output_upto(scanner, s, to);
    assert(whole.subrange(before.len() as int, before.len() + (to - from)) =~= s.subrange(
        from,
        to,
    )) by {
        assert(upto.len() == before.len() + (to - from));
        assert forall|k: int| 0 <= k < to - from implies whole[before.len() + k] == s.subrange(
            from,
            to,
        )[k] by {
            assert(whole[before.len() + k] == upto[before.len() + k]);
        }
    }
}

/// Whether a comment marker of `scanner` stands at position `i` of `s`, or
/// anything else that could make the scanner leave a character out: for Python
/// that is a `#`, three equal quotes in a row, or a backslash.
pub open spec fn marker_at(scanner: Scanner, s: Seq<char>, i: int) -> bool {
    let c = s[i];
    let next = peek(s, i + 1);
    match scanner {
        Scanner::CStyle => c == '/' && (next == Some('/') || next == Some('*')),
        Scanner::Css => c == '/' && next == Some('*'),
        Scanner::Php => c == '#' || (c == '/' && (next == Some('/') || next == Some('*'))),
        Scanner::Python => c == '#' || c == '\\' || ((c == '"' || c == '\'') && next == Some(c)
            && peek(s, i + 2) == Some(c)),
        Scanner::Basic => c == '\'' || rem_at(s, i),
    }
}

/// Whether `s` holds a marker of `scanner` anywhere, be it in a literal.
pub open spec fn has_marker(scanner: Scanner, s: Seq<char>) -> bool {
    exists|i: int| 0 <= i < s.len() && #[trigger] marker_at(scanner, s, i)
}

proof fn lemma_without_markers(scanner: Scanner, s: Seq<char>, i: int)
    requires
        !has_marker(scanner, s),
        0 <= i <= s.len(),
    ensures
        output_upto(scanner, s, i) == s.take(i),
        !state_at(scanner, s, i).mode.is_comment(),
        !(state_at(scanner, s, i).mode is TripleQuoted),
    decreases i,
{
    if i > 0 {
        lemma_without_markers(scanner, s, i - 1);
        let st = state_at(scanner, s, i - 1);
        assert(!marker_at(scanner, s, i - 1));
        assert(state_at(scanner, s, i) == transition(scanner, st, s, i - 1).next);
        assert(kept(scanner, s, i - 1));
        assert(s.take(i) =~= s.take(i - 1).push(s[i - 1]));
    } else {
        assert(s.take(0) =~= Seq::<char>::empty());
    }
}

/// A text without a marker passes through the scanner as it is.
pub proof fn lemma_nothing_to_remove(scanner: Scanner, s: Seq<char>)
    requires
        !has_marker(scanner, s),
    ensures
        scanned(scanner, s) == s,
{
    lemma_without_markers(scanner, s, s.len() as int);
    assert(s.take(s.len() as int) =~= s);
}

/// The cleaned text is never longer than the text, for every family with a
/// scanner of its own.
pub proof fn lemma_cleaned_is_no_longer(content: Seq<char>, family: LanguageFamily)
    requires
        family.scanner() is Some,
    ensures
        cleaned(content, family).len() <= content.len(),
{
    lemma_output_is_no_longer(family.scanner()->0, content, 0);
    lemma_collapsed_is_no_longer(comments_removed(content, family));
}

/// Cleaning changes a text in which a carriage return stands before a newline,
/// even where it holds no comment.
pub proof fn lemma_clean_takes_carriage_return(content: Seq<char>, family: LanguageFamily)
    requires
        comments_removed(content, family) == content,
        has_carriage_return_newline(content),
    ensures
        cleaned(content, family) != content,
{
    lemma_collapsed_is_no_longer(content);
}

/// Cleaning a second time changes nothing, when the first time has left no
/// comment behind, so that the scanner finds nothing to remove in the cleaned
/// text, and no carriage return before a newline.
pub proof fn lemma_clean_is_idempotent(content: Seq<char>, family: LanguageFamily)
    requires
        comments_removed(cleaned(content, family), family) == cleaned(content, family),
        !has_carriage_return_newline(cleaned(content, family)),
    ensures
        cleaned(cleaned(content, family), family) == cleaned(content, family),
{
    lemma_collapse_is_idempotent(comments_removed(content, family));
}

/// Cleaning a second time changes nothing, when the cleaned text holds no
/// marker of its family and no carriage return before a newline.
pub proof fn lemma_clean_without_markers_is_idempotent(content: Seq<char>, family: LanguageFamily)
    requires
        family.scanner() matches Some(scanner) && !has_marker(scanner, cleaned(content, family)),
        !has_carriage_return_newline(cleaned(content, family)),
    ensures
        cleaned(cleaned(content, family), family) == cleaned(content, family),
{
    lemma_nothing_to_remove(family.scanner()->0, cleaned(content, family));
    lemma_clean_is_idempotent(content, family);
}

/// The last character of `out` that is not whitespace.
pub open spec fn last_non_whitespace(out: Seq<char>) -> Option<char>
    decreases out.len(),
{
    if out.len() == 0 {
        None
    } else if is_whitespace(out.last()) {
        last_non_whitespace(out.drop_last())
    } else {
        Some(out.last())
    }
}

/// The Python scanner tells a string literal from a docstring by the text it
/// has copied so far: the last significant character that it carries is the
/// last character of that text that is not whitespace.
pub proof fn lemma_python_significant_is_last_copied(s: Seq<char>, i: int)
    requires
        0 <= i <= s.len(),
    ensures
        state_at(Scanner::Python, s, i).last_significant == last_non_whitespace(
            output_upto(Scanner::Python, s, i),
        ),
    decreases i,
{
    if i > 0 {
        lemma_python_significant_is_last_copied(s, i - 1);
        let st = state_at(Scanner::Python, s, i - 1);
        let out = output_upto(Scanner::Python, s, i - 1);
        assert(state_at(Scanner::Python, s, i) == transition(Scanner::Python, st, s, i - 1).next);
        assert(crate::python::plain_transition(st, s, i - 1).next.last_significant
            == st.last_significant);
        if kept(Scanner::Python, s, i - 1) {
            assert(out.push(s[i - 1]).drop_last() =~= out);
        }
    }
}

} // verus!
