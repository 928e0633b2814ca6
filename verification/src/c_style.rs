//! The scanner for C, C++, Java, JavaScript, TypeScript and Rust.
//!
//! `//` opens a line comment and `/*` a block comment. Strings, character
//! literals and template literals honour backslash escapes. A `/` that follows
//! neither an operand nor a closing bracket opens a regular-expression literal.

use crate::chars::{ascii_alphanumeric, is_ascii_alphanumeric, is_whitespace, peek, peek_ahead, whitespace};
use crate::mode::{
    block_comment, block_comment_step, copied, copy, dropped, escaped_literal,
    escaped_literal_step, line_comment, line_comment_step, omit, Mode, ScanState, Step,
};
use vstd::prelude::*;

verus! {

/// Whether a `/` may open a regular-expression literal, given the last
/// significant character of the code before it: it may, unless that character
/// is an ASCII letter or digit, `)`, `]`, `}` or `.`.
pub open spec fn regex_may_start(last_significant: Option<char>) -> bool {
    match last_significant {
        None => true,
        Some(p) => !(is_ascii_alphanumeric(p) || p == ')' || p == ']' || p == '}' || p == '.'),
    }
}

/// One character of code, with the character after it.
pub open spec fn code_step(st: ScanState, c: char, next: Option<char>) -> Step {
    if c == '"' {
        copied(st.with_mode(Mode::InString('"')))
    } else if c == '\'' {
        copied(st.with_mode(Mode::InChar))
    } else if c == '`' {
        copied(st.with_mode(Mode::InTemplateLiteral))
    } else if c == '/' && next == Some('/') {
        dropped(st.with_mode(Mode::LineComment))
    } else if c == '/' && next == Some('*') {
        dropped(st.with_mode(Mode::BlockComment(false)))
    } else if c == '/' && next != Some('=') && regex_may_start(st.last_significant) {
        copied(st.with_mode(Mode::InRegexLiteral(false)))
    } else if is_whitespace(c) {
        copied(st)
    } else {
        copied(st.with_significant(Some(c)))
    }
}

/// One character inside a regular-expression literal. Every character is
/// copied. A backslash shields the character after it; otherwise `[` opens a
/// character class, `]` closes it, and a `/` outside a class ends the literal.
pub open spec fn regex_step(st: ScanState, in_class: bool, c: char) -> Step {
    if c == '\\' {
        copied(st.with_escape(true))
    } else if st.pending_escape {
        copied(st.with_escape(false))
    } else if c == '[' {
        copied(st.with_mode(Mode::InRegexLiteral(true)))
    } else if c == ']' {
        copied(st.with_mode(Mode::InRegexLiteral(false)))
    } else if c == '/' && !in_class {
        copied(st.with_mode(Mode::Code))
    } else {
        copied(st)
    }
}

/// What the scanner does with the character at position `i` of `s` when it is
/// in state `st`.
pub open spec fn transition(st: ScanState, s: Seq<char>, i: int) -> Step {
    let c = s[i];
    match st.mode {
        Mode::Code => code_step(st, c, peek(s, i + 1)),
        Mode::InString(delimiter) => escaped_literal_step(st, c, delimiter),
        Mode::InChar => escaped_literal_step(st, c, '\''),
        Mode::InTemplateLiteral => escaped_literal_step(st, c, '`'),
        Mode::InRegexLiteral(in_class) => regex_step(st, in_class, c),
        Mode::LineComment => line_comment_step(st, c),
        Mode::BlockComment(star) => block_comment_step(st, star, c),
        Mode::TripleQuoted { .. } => copied(st),
    }
}

fn may_start_regex(last_significant: Option<char>) -> (r: bool)
    ensures
        r == regex_may_start(last_significant),
{
    match last_significant {
        None => true,
        Some(p) => !(ascii_alphanumeric(p) || p == ')' || p == ']' || p == '}' || p == '.'),
    }
}

fn code(st: ScanState, c: char, next: Option<char>) -> (r: Step)
    ensures
        r == code_step(st, c, next),
{
    if c == '"' {
        return copy(st.enter(Mode::InString('"')));
    }
    if c == '\'' {
        return copy(st.enter(Mode::InChar));
    }
    if c == '`' {
        return copy(st.enter(Mode::InTemplateLiteral));
    }
    if c == '/' {
        match next {
            Some('/') => {
                return omit(st.enter(Mode::LineComment));
            },
            Some('*') => {
                return omit(st.enter(Mode::BlockComment(false)));
            },
            Some('=') => {},
            _ => {
                if may_start_regex(st.last_significant) {
                    return copy(st.enter(Mode::InRegexLiteral(false)));
                }
            },
        }
    }
    if whitespace(c) {
        copy(st)
    } else {
        copy(st.note(Some(c)))
    }
}

fn regex(st: ScanState, in_class: bool, c: char) -> (r: Step)
    ensures
        r == regex_step(st, in_class, c),
{
    if c == '\\' {
        copy(st.escape(true))
    } else if st.pending_escape {
        copy(st.escape(false))
    } else if c == '[' {
        copy(st.enter(Mode::InRegexLiteral(true)))
    } else if c == ']' {
        copy(st.enter(Mode::InRegexLiteral(false)))
    } else if c == '/' && !in_class {
        copy(st.enter(Mode::Code))
    } else {
        copy(st)
    }
}

/// Reads the character at position `i`.
pub fn step(st: ScanState, text: &Vec<char>, i: usize) -> (r: Step)
    requires
        i < text.len(),
    ensures
        r == transition(st, text@, i as int),
{
    let c = text[i];
    match st.mode {
        Mode::Code => code(st, c, peek_ahead(text, i, 1)),
        Mode::InString(delimiter) => escaped_literal(st, c, delimiter),
        Mode::InChar => escaped_literal(st, c, '\''),
        Mode::InTemplateLiteral => escaped_literal(st, c, '`'),
        Mode::InRegexLiteral(in_class) => regex(st, in_class, c),
        Mode::LineComment => line_comment(st, c),
        Mode::BlockComment(star) => block_comment(st, star, c),
        Mode::TripleQuoted { .. } => copy(st),
    }
}

} // verus!
