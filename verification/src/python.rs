//! The scanner for Python.
//!
//! `#` opens a line comment. Single-quoted and double-quoted strings honour
//! backslash escapes. A triple-quoted block is a string literal when it follows
//! an `=`, and a docstring otherwise: the literal is copied, the docstring is
//! left out. This tells the two apart by what stands before the block only; it
//! does not parse. A backslash in code is left out.

use crate::chars::{is_whitespace, peek, peek_ahead, whitespace};
use crate::mode::{
    copied, copy, dropped, escaped_literal, escaped_literal_step, line_comment,
    line_comment_step, omit, Mode, ScanState, Step,
};
use vstd::prelude::*;

verus! {

/// Whether a triple-quoted block that begins after `last_significant` is a
/// string literal: it is when the text copied so far, without the whitespace at
/// its end, ends with `=`.
pub open spec fn follows_assignment(last_significant: Option<char>) -> bool {
    last_significant == Some('=')
}

/// One character of code, with the two characters after it.
pub open spec fn code_step(
    st: ScanState,
    c: char,
    next: Option<char>,
    after_next: Option<char>,
) -> Step {
    if c == '\\' {
        dropped(st)
    } else if c == '"' || c == '\'' {
        if next == Some(c) && after_next == Some(c) {
            let kept = follows_assignment(st.last_significant);
            Step {
                next: st.with_mode(Mode::TripleQuoted { quote: c, kept, opening: 2, run: 0 }),
                emit: kept,
            }
        } else {
            copied(st.with_mode(Mode::InString(c)))
        }
    } else if c == '#' {
        dropped(st.with_mode(Mode::LineComment))
    } else {
        copied(st)
    }
}

/// One character of a triple-quoted block. The two quotes that complete the
/// opening delimiter come first. After them the block ends with the third of
/// three quotes in a row. In a string literal every character is copied, and a
/// backslash makes the character after it part of the literal whatever it is;
/// in a docstring nothing is copied and a backslash is a character like any
/// other.
pub open spec fn triple_quoted_step(
    st: ScanState,
    quote: char,
    kept: bool,
    opening: u8,
    run: u8,
    c: char,
) -> Step {
    let within = |opening: u8, run: u8| st.with_mode(Mode::TripleQuoted { quote, kept, opening, run });
    if opening > 0 {
        Step { next: within((opening - 1) as u8, 0), emit: kept }
    } else if kept && st.pending_escape {
        copied(within(0, 0).with_escape(false))
    } else if kept && c == '\\' {
        copied(within(0, 0).with_escape(true))
    } else if c == quote {
        if run >= 2 {
            Step { next: st.with_mode(Mode::Code), emit: kept }
        } else {
            Step { next: within(0, (run + 1) as u8), emit: kept }
        }
    } else {
        Step { next: within(0, 0), emit: kept }
    }
}

/// The step without the bookkeeping of the last significant character.
pub open spec fn plain_transition(st: ScanState, s: Seq<char>, i: int) -> Step {
    let c = s[i];
    match st.mode {
        Mode::Code => code_step(st, c, peek(s, i + 1), peek(s, i + 2)),
        Mode::InString(delimiter) => escaped_literal_step(st, c, delimiter),
        Mode::LineComment => line_comment_step(st, c),
        Mode::TripleQuoted { quote, kept, opening, run } => triple_quoted_step(
            st,
            quote,
            kept,
            opening,
            run,
            c,
        ),
        _ => copied(st),
    }
}

/// What the scanner does with the character at position `i` of `s` when it is
/// in state `st`. Every copied character that is not whitespace becomes the
/// last significant one.
pub open spec fn transition(st: ScanState, s: Seq<char>, i: int) -> Step {
    let step = plain_transition(st, s, i);
    if step.emit && !is_whitespace(s[i]) {
        Step { next: step.next.with_significant(Some(s[i])), emit: true }
    } else {
        step
    }
}

fn code(st: ScanState, c: char, next: Option<char>, after_next: Option<char>) -> (r: Step)
    ensures
        r == code_step(st, c, next, after_next),
{
    if c == '\\' {
        omit(st)
    } else if c == '"' || c == '\'' {
        let doubled = match next {
            Some(n) => n == c,
            None => false,
        };
        let tripled = doubled && match after_next {
            Some(n) => n == c,
            None => false,
        };
        if tripled {
            let kept = match st.last_significant {
                Some(p) => p == '=',
                None => false,
            };
            Step {
                next: st.enter(Mode::TripleQuoted { quote: c, kept, opening: 2, run: 0 }),
                emit: kept,
            }
        } else {
            copy(st.enter(Mode::InString(c)))
        }
    } else if c == '#' {
        omit(st.enter(Mode::LineComment))
    } else {
        copy(st)
    }
}

fn triple_quoted(st: ScanState, quote: char, kept: bool, opening: u8, run: u8, c: char) -> (r:
    Step)
    ensures
        r == triple_quoted_step(st, quote, kept, opening, run, c),
{
    if opening > 0 {
        let mode = Mode::TripleQuoted { quote, kept, opening: opening - 1, run: 0 };
        Step { next: st.enter(mode), emit: kept }
    } else if kept && st.pending_escape {
        let mode = Mode::TripleQuoted { quote, kept, opening: 0, run: 0 };
        copy(st.enter(mode).escape(false))
    } else if kept && c == '\\' {
        let mode = Mode::TripleQuoted { quote, kept, opening: 0, run: 0 };
        copy(st.enter(mode).escape(true))
    } else if c == quote {
        if run >= 2 {
            Step { next: st.enter(Mode::Code), emit: kept }
        } else {
            let mode = Mode::TripleQuoted { quote, kept, opening: 0, run: run + 1 };
            Step { next: st.enter(mode), emit: kept }
        }
    } else {
        let mode = Mode::TripleQuoted { quote, kept, opening: 0, run: 0 };
        Step { next: st.enter(mode), emit: kept }
    }
}

/// Reads the character at position `i`.
pub fn step(st: ScanState, text: &Vec<char>, i: usize) -> (r: Step)
    requires
        i < text.len(),
    ensures
        r == transition(st, text@, i as int),
{
    let c = text[i];
    let plain = match st.mode {
        Mode::Code => code(st, c, peek_ahead(text, i, 1), peek_ahead(text, i, 2)),
        Mode::InString(delimiter) => escaped_literal(st, c, delimiter),
        Mode::LineComment => line_comment(st, c),
        Mode::TripleQuoted { quote, kept, opening, run } => triple_quoted(
            st,
            quote,
            kept,
            opening,
            run,
            c,
        ),
        _ => copy(st),
    };
    if plain.emit && !whitespace(c) {
        Step { next: plain.next.note(Some(c)), emit: true }
    } else {
        plain
    }
}

} // verus!
