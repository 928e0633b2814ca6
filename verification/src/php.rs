//! The scanner for PHP.
//!
//! `//` and `#` open a line comment and `/*` a block comment. Outside comments
//! a backslash is copied together with the character after it, which is taken
//! as it is: in a string it cannot end the string, and in code it can open
//! neither a literal nor a comment.

use crate::chars::{peek, peek_ahead};
use crate::mode::{
    block_comment, block_comment_step, copied, copy, dropped, line_comment,
    line_comment_step, omit, Mode, ScanState, Step,
};
use vstd::prelude::*;

verus! {

/// One character of code that no backslash shields, with the character after
/// it.
pub open spec fn code_step(st: ScanState, c: char, next: Option<char>) -> Step {
    if c == '"' {
        copied(st.with_mode(Mode::InString('"')))
    } else if c == '\'' {
        copied(st.with_mode(Mode::InChar))
    } else if c == '/' && next == Some('/') {
        dropped(st.with_mode(Mode::LineComment))
    } else if c == '/' && next == Some('*') {
        dropped(st.with_mode(Mode::BlockComment(false)))
    } else if c == '#' {
        dropped(st.with_mode(Mode::LineComment))
    } else {
        copied(st)
    }
}

/// One character outside comments: in code, in a string or in a character
/// literal. Every character but a comment marker in code is copied.
pub open spec fn text_step(st: ScanState, c: char, next: Option<char>) -> Step {
    if st.pending_escape {
        copied(st.with_escape(false))
    } else if c == '\\' {
        copied(st.with_escape(true))
    } else {
        match st.mode {
            Mode::InString(delimiter) => if c == delimiter {
                copied(st.with_mode(Mode::Code))
            } else {
                copied(st)
            },
            Mode::InChar => if c == '\'' {
                copied(st.with_mode(Mode::Code))
            } else {
                copied(st)
            },
            Mode::Code => code_step(st, c, next),
            _ => copied(st),
        }
    }
}

/// What the scanner does with the character at position `i` of `s` when it is
/// in state `st`.
pub open spec fn transition(st: ScanState, s: Seq<char>, i: int) -> Step {
    let c = s[i];
    match st.mode {
        Mode::LineComment => line_comment_step(st, c),
        Mode::BlockComment(star) => block_comment_step(st, star, c),
        _ => text_step(st, c, peek(s, i + 1)),
    }
}

fn code(st: ScanState, c: char, next: Option<char>) -> (r: Step)
    ensures
        r == code_step(st, c, next),
{
    if c == '"' {
        return copy(st.enter(Mode::InString('"')));
    }
    if c == '\'' {
        return copy(st.enter(Mode::InChar));
    }
    if c == '/' {
        match next {
            Some('/') => {
                return omit(st.enter(Mode::LineComment));
            },
            Some('*') => {
                return omit(st.enter(Mode::BlockComment(false)));
            },
            _ => {},
        }
    }
    if c == '#' {
        return omit(st.enter(Mode::LineComment));
    }
    copy(st)
}

fn text(st: ScanState, c: char, next: Option<char>) -> (r: Step)
    ensures
        r == text_step(st, c, next),
{
    if st.pending_escape {
        return copy(st.escape(false));
    }
    if c == '\\' {
        return copy(st.escape(true));
    }
    match st.mode {
        Mode::InString(delimiter) => {
            if c == delimiter {
                copy(st.enter(Mode::Code))
            } else {
                copy(st)
            }
        },
        Mode::InChar => {
            if c == '\'' {
                copy(st.enter(Mode::Code))
            } else {
                copy(st)
            }
        },
        Mode::Code => code(st, c, next),
        _ => copy(st),
    }
}

/// Reads the character at position `i`.
pub fn step(st: ScanState, text: &Vec<char>, i: usize) -> (r: Step)
    requires
        i < text.len(),
    ensures
        r == transition(st, text@, i as int),
{
    let c = text[i];
    match st.mode {
        Mode::LineComment => line_comment(st, c),
        Mode::BlockComment(star) => block_comment(st, star, c),
        _ => self::text(st, c, peek_ahead(text, i, 1)),
    }
}

} // verus!
