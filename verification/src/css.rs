//! The scanner for CSS.
//!
//! `/*` opens a block comment. Strings in single or double quotes honour
//! backslash escapes. There is no line comment: `//` is copied like any text.

use crate::chars::{peek, peek_ahead};
use crate::mode::{
    block_comment, block_comment_step, copied, copy, dropped, escaped_literal,
    escaped_literal_step, omit, Mode, ScanState, Step,
};
use vstd::prelude::*;

verus! {

/// One character of code, with the character after it.
pub open spec fn code_step(st: ScanState, c: char, next: Option<char>) -> Step {
    if c == '"' || c == '\'' {
        copied(st.with_mode(Mode::InString(c)))
    } else if c == '/' && next == Some('*') {
        dropped(st.with_mode(Mode::BlockComment(false)))
    } else {
        copied(st)
    }
}

/// What the scanner does with the character at position `i` of `s` when it is
/// in state `st`.
pub open spec fn transition(st: ScanState, s: Seq<char>, i: int) -> Step {
    let c = s[i];
    match st.mode {
        Mode::Code => code_step(st, c, peek(s, i + 1)),
        Mode::InString(delimiter) => escaped_literal_step(st, c, delimiter),
        Mode::BlockComment(star) => block_comment_step(st, star, c),
        _ => copied(st),
    }
}

fn code(st: ScanState, c: char, next: Option<char>) -> (r: Step)
    ensures
        r == code_step(st, c, next),
{
    if c == '"' || c == '\'' {
        return copy(st.enter(Mode::InString(c)));
    }
    if c == '/' {
        if let Some('*') = next {
            return omit(st.enter(Mode::BlockComment(false)));
        }
    }
    copy(st)
}

/// Reads the character at position `i`.
pub fn step(st: ScanState, text: &Vec<char>, i: usize) -> (r: Step)
    requires
        i < text.len(),
    ensures
        r == transition(st, text@, i as int),
{
    let c = text[i];
    match st.mode {
        Mode::Code => code(st, c, peek_ahead(text, i, 1)),
        Mode::InString(delimiter) => escaped_literal(st, c, delimiter),
        Mode::BlockComment(star) => block_comment(st, star, c),
        _ => copy(st),
    }
}

} // verus!
