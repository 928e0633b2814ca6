//! The scanner for the Basic family.
//!
//! An apostrophe opens a line comment, and so does the keyword `REM`, in any
//! mix of capitals and small letters, when whitespace follows it. Strings stand
//! in double quotes and know no escapes.

use crate::chars::{is_whitespace, peek, peek_ahead, whitespace};
use crate::mode::{copied, copy, dropped, line_comment, line_comment_step, omit, Mode, ScanState, Step};
use vstd::prelude::*;

verus! {

/// Whether the keyword `REM` begins at position `i` of `s` with whitespace
/// after it.
pub open spec fn rem_at(s: Seq<char>, i: int) -> bool {
    &&& peek(s, i) == Some('R') || peek(s, i) == Some('r')
    &&& peek(s, i + 1) == Some('E') || peek(s, i + 1) == Some('e')
    &&& peek(s, i + 2) == Some('M') || peek(s, i + 2) == Some('m')
    &&& peek(s, i + 3) matches Some(w) && is_whitespace(w)
}

/// What the scanner does with the character at position `i` of `s` when it is
/// in state `st`.
pub open spec fn transition(st: ScanState, s: Seq<char>, i: int) -> Step {
    let c = s[i];
    match st.mode {
        Mode::Code => if c == '"' {
            copied(st.with_mode(Mode::InString('"')))
        } else if c == '\'' || rem_at(s, i) {
            dropped(st.with_mode(Mode::LineComment))
        } else {
            copied(st)
        },
        Mode::InString(delimiter) => if c == delimiter {
            copied(st.with_mode(Mode::Code))
        } else {
            copied(st)
        },
        Mode::LineComment => line_comment_step(st, c),
        _ => copied(st),
    }
}

/// Whether `found` is `letter` as a capital or as a small letter.
fn is_letter(found: Option<char>, capital: char, small: char) -> (r: bool)
    ensures
        r == (found == Some(capital) || found == Some(small)),
{
    match found {
        Some(c) => c == capital || c == small,
        None => false,
    }
}

fn rem_begins(text: &Vec<char>, i: usize) -> (r: bool)
    requires
        i < text.len(),
    ensures
        r == rem_at(text@, i as int),
{
    is_letter(peek_ahead(text, i, 0), 'R', 'r') && is_letter(peek_ahead(text, i, 1), 'E', 'e')
        && is_letter(peek_ahead(text, i, 2), 'M', 'm') && match peek_ahead(text, i, 3) {
        Some(w) => whitespace(w),
        None => false,
    }
}

/// Reads the character at position `i`.
pub fn step(st: ScanState, text: &Vec<char>, i: usize) -> (r: Step)
    requires
        i < text.len(),
    ensures
        r == transition(st, text@, i as int),
{
    let c = text[i];
    match st.mode {
        Mode::Code => {
            if c == '"' {
                copy(st.enter(Mode::InString('"')))
            } else if c == '\'' || rem_begins(text, i) {
                omit(st.enter(Mode::LineComment))
            } else {
                copy(st)
            }
        },
        Mode::InString(delimiter) => {
            if c == delimiter {
                copy(st.enter(Mode::Code))
            } else {
                copy(st)
            }
        },
        Mode::LineComment => line_comment(st, c),
        _ => copy(st),
    }
}

} // verus!
