//! The run of a scanner over a text.
//!
//! A scanner reads the text from left to right, one character at a time, and
//! either copies the character to the output or leaves it out. `state_at` gives
//! the state before each position, `kept` tells which positions are copied, and
//! `output_upto` is the output after a prefix of the text.

use crate::mode::{Mode, ScanState, Step};
use vstd::prelude::*;

verus! {

/// The lexical grammars that have a scanner of their own.
#[derive(Clone, Copy, Debug, PartialEq, Eq, Structural)]
pub enum Scanner {
    /// C, C++, Java, JavaScript, TypeScript and Rust.
    CStyle,
    Python,
    Css,
    Php,
    Basic,
}

impl Scanner {
    /// The modes that the scanner can be in.
    pub open spec fn knows(self, mode: Mode) -> bool {
        match self {
            Scanner::CStyle => !(mode is TripleQuoted),
            Scanner::Python => mode is Code || mode is InString || mode is LineComment
                || mode is TripleQuoted,
            Scanner::Css => mode is Code || mode is InString || mode is BlockComment,
            Scanner::Php => mode is Code || mode is InString || mode is InChar
                || mode is LineComment || mode is BlockComment,
            Scanner::Basic => mode is Code || mode is InString || mode is LineComment,
        }
    }
}

/// What `scanner` does with the character at position `i` of `s` when it is in
/// state `st`.
pub open spec fn transition(scanner: Scanner, st: ScanState, s: Seq<char>, i: int) -> Step {
    match scanner {
        Scanner::CStyle => crate::c_style::transition(st, s, i),
        Scanner::Python => crate::python::transition(st, s, i),
        Scanner::Css => crate::css::transition(st, s, i),
        Scanner::Php => crate::php::transition(st, s, i),
        Scanner::Basic => crate::basic::transition(st, s, i),
    }
}

/// The state of `scanner` after it has read the first `i` characters of `s`.
pub open spec fn state_at(scanner: Scanner, s: Seq<char>, i: int) -> ScanState
    decreases i,
{
    if i <= 0 {
        ScanState::start()
    } else {
        transition(scanner, state_at(scanner, s, i - 1), s, i - 1).next
    }
}

/// Whether `scanner` copies the character at position `i` of `s`.
pub open spec fn kept(scanner: Scanner, s: Seq<char>, i: int) -> bool {
    transition(scanner, state_at(scanner, s, i), s, i).emit
}

/// What `scanner` has copied after it has read the first `i` characters of `s`:
/// the characters at the kept positions below `i`, in their order.
pub open spec fn output_upto(scanner: Scanner, s: Seq<char>, i: int) -> Seq<char>
    decreases i,
{
    if i <= 0 {
        Seq::empty()
    } else if kept(scanner, s, i - 1) {
        output_upto(scanner, s, i - 1).push(s[i - 1])
    } else {
        output_upto(scanner, s, i - 1)
    }
}

/// The text that `scanner` makes of `s`.
pub open spec fn scanned(scanner: Scanner, s: Seq<char>) -> Seq<char> {
    output_upto(scanner, s, s.len() as int)
}

/// Reads the character at position `i` of `text`.
pub fn step(scanner: Scanner, st: ScanState, text: &Vec<char>, i: usize) -> (r: Step)
    requires
        i < text.len(),
    ensures
        r == transition(scanner, st, text@, i as int),
{
    match scanner {
        Scanner::CStyle => crate::c_style::step(st, text, i),
        Scanner::Python => crate::python::step(st, text, i),
        Scanner::Css => crate::css::step(st, text, i),
        Scanner::Php => crate::php::step(st, text, i),
        Scanner::Basic => crate::basic::step(st, text, i),
    }
}

/// Runs `scanner` over `text` and returns what it copies.
pub fn scan(scanner: Scanner, text: &Vec<char>) -> (out: Vec<char>)
    ensures
        out@ == scanned(scanner, text@),
        out.len() <= text.len(),
{
    let mut st = ScanState::initial();
    let mut out: Vec<char> = Vec::new();
    let mut i: usize = 0;
    while i < text.len()
        invariant
            i <= text.len(),
            st == state_at(scanner, text@, i as int),
            out@ == output_upto(scanner, text@, i as int),
            out.len() <= i,
        decreases text.len() - i,
    {
        let taken = step(scanner, st, text, i);
        if taken.emit {
            out.push(text[i]);
        }
        st = taken.next;
        i += 1;
    }
    out
}

} // verus!
