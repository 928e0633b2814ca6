//! The state of a scanner, and the steps that several scanners share.

use vstd::prelude::*;

verus! {

/// The lexical context a scanner is in before it reads a character.
#[derive(Clone, Copy, Debug, PartialEq, Eq, Structural)]
pub enum Mode {
    /// Ordinary code: comment markers and literal delimiters are active.
    Code,
    /// Inside a string literal that ends at the given delimiter.
    InString(char),
    /// Inside a character literal.
    InChar,
    /// Inside a template literal.
    InTemplateLiteral,
    /// Inside a regular-expression literal; the flag tells whether a character
    /// class (`[` ... `]`) is open.
    InRegexLiteral(bool),
    /// Inside a comment that runs up to the next newline.
    LineComment,
    /// Inside a block comment; the flag tells whether the character just read
    /// was `*`.
    BlockComment(bool),
    /// Inside a triple-quoted block. `kept` tells a string literal from a
    /// docstring, `opening` counts the quotes of the opening delimiter that are
    /// still to be read, and `run` counts the quotes just read that may begin
    /// the closing delimiter.
    TripleQuoted { quote: char, kept: bool, opening: u8, run: u8 },
}

/// What a scanner carries from one character to the next.
#[derive(Clone, Copy, Debug, PartialEq, Eq, Structural)]
pub struct ScanState {
    pub mode: Mode,
    /// The character read next is taken as it is.
    pub pending_escape: bool,
    /// The last character other than whitespace that counts as significant for
    /// the scanner: for the C-style scanner the last one copied as code, for the
    /// Python scanner the last one copied at all. Other scanners leave it unset.
    pub last_significant: Option<char>,
}

/// The outcome of reading one character: the state that follows, and whether
/// the character is copied to the output.
#[derive(Clone, Copy, Debug, PartialEq, Eq, Structural)]
pub struct Step {
    pub next: ScanState,
    pub emit: bool,
}

impl Mode {
    /// String, character, template and regular-expression literals, and
    /// triple-quoted strings that are kept.
    pub open spec fn is_literal(self) -> bool {
        match self {
            Mode::InString(_) => true,
            Mode::InChar => true,
            Mode::InTemplateLiteral => true,
            Mode::InRegexLiteral(_) => true,
            Mode::TripleQuoted { kept, .. } => kept,
            _ => false,
        }
    }

    /// Line and block comments, and docstrings.
    pub open spec fn is_comment(self) -> bool {
        match self {
            Mode::LineComment => true,
            Mode::BlockComment(_) => true,
            Mode::TripleQuoted { kept, .. } => !kept,
            _ => false,
        }
    }
}

impl ScanState {
    /// The state in which every scan begins.
    pub open spec fn start() -> ScanState {
        ScanState { mode: Mode::Code, pending_escape: false, last_significant: None }
    }

    /// The state in another mode.
    pub open spec fn with_mode(self, mode: Mode) -> ScanState {
        ScanState { mode, ..self }
    }

    /// The state with or without a pending escape.
    pub open spec fn with_escape(self, pending_escape: bool) -> ScanState {
        ScanState { pending_escape, ..self }
    }

    /// The state with another last significant character.
    pub open spec fn with_significant(self, last_significant: Option<char>) -> ScanState {
        ScanState { last_significant, ..self }
    }

    /// The state in which every scan begins.
    pub fn initial() -> (st: ScanState)
        ensures
            st == ScanState::start(),
    {
        ScanState { mode: Mode::Code, pending_escape: false, last_significant: None }
    }

    /// The state in another mode.
    pub fn enter(self, mode: Mode) -> (st: ScanState)
        ensures
            st == self.with_mode(mode),
    {
        ScanState { mode, ..self }
    }

    /// The state with or without a pending escape.
    pub fn escape(self, pending_escape: bool) -> (st: ScanState)
        ensures
            st == self.with_escape(pending_escape),
    {
        ScanState { pending_escape, ..self }
    }

    /// The state with another last significant character.
    pub fn note(self, last_significant: Option<char>) -> (st: ScanState)
        ensures
            st == self.with_significant(last_significant),
    {
        ScanState { last_significant, ..self }
    }
}

/// The character is copied and the scan goes on in `next`.
pub open spec fn copied(next: ScanState) -> Step {
    Step { next, emit: true }
}

/// The character is left out and the scan goes on in `next`.
pub open spec fn dropped(next: ScanState) -> Step {
    Step { next, emit: false }
}

/// One character inside a literal that honours backslash escapes and ends at
/// `closing`. Every character is copied. A backslash makes the character after
/// it part of the literal whatever it is; otherwise `closing` ends the literal.
pub open spec fn escaped_literal_step(st: ScanState, c: char, closing: char) -> Step {
    if st.pending_escape {
        copied(st.with_escape(false))
    } else if c == '\\' {
        copied(st.with_escape(true))
    } else if c == closing {
        copied(st.with_mode(Mode::Code))
    } else {
        copied(st)
    }
}

/// One character inside a line comment: everything is left out but the newline
/// that ends the comment, which is copied.
pub open spec fn line_comment_step(st: ScanState, c: char) -> Step {
    if c == '\n' {
        copied(st.with_mode(Mode::Code))
    } else {
        dropped(st)
    }
}

/// One character inside a block comment: nothing is copied, and a `/` that
/// comes right after a `*` ends the comment.
pub open spec fn block_comment_step(st: ScanState, star: bool, c: char) -> Step {
    if star && c == '/' {
        dropped(st.with_mode(Mode::Code))
    } else {
        dropped(st.with_mode(Mode::BlockComment(c == '*')))
    }
}

/// The character is copied and the scan goes on in `next`.
pub fn copy(next: ScanState) -> (r: Step)
    ensures
        r == copied(next),
{
    Step { next, emit: true }
}

/// The character is left out and the scan goes on in `next`.
pub fn omit(next: ScanState) -> (r: Step)
    ensures
        r == dropped(next),
{
    Step { next, emit: false }
}

/// Reads one character inside a literal that honours backslash escapes.
pub fn escaped_literal(st: ScanState, c: char, closing: char) -> (r: Step)
    ensures
        r == escaped_literal_step(st, c, closing),
{
    if st.pending_escape {
        copy(st.escape(false))
    } else if c == '\\' {
        copy(st.escape(true))
    } else if c == closing {
        copy(st.enter(Mode::Code))
    } else {
        copy(st)
    }
}

/// Reads one character inside a line comment.
pub fn line_comment(st: ScanState, c: char) -> (r: Step)
    ensures
        r == line_comment_step(st, c),
{
    if c == '\n' {
        copy(st.enter(Mode::Code))
    } else {
        omit(st)
    }
}

/// Reads one character inside a block comment.
pub fn block_comment(st: ScanState, star: bool, c: char) -> (r: Step)
    ensures
        r == block_comment_step(st, star, c),
{
    if star && c == '/' {
        omit(st.enter(Mode::Code))
    } else {
        omit(st.enter(Mode::BlockComment(c == '*')))
    }
}

} // verus!
