//! Removes the comments from source text and leaves everything else as it is:
//! code, and the string, character, template and regular-expression literals
//! in it. Runs of blank lines are then collapsed into one blank line.
//!
//! Text is modelled as a sequence of characters. A scanner is an automaton
//! that reads a text one character at a time and copies each character or
//! leaves it out: `mode` holds its states, `scan` its run, and `c_style`,
//! `python`, `css`, `php` and `basic` the steps of the five scanners. `html`
//! takes a document apart for the scanners, `lines` collapses blank lines, and
//! `cleaner` offers the whole. `laws` and `line_laws` state what holds of all
//! this. `language` tells the language of a file, and `plan` decides what is
//! done with a file without touching it.

pub mod basic;
pub mod c_style;
pub mod chars;
pub mod cleaner;
pub mod css;
pub mod html;
pub mod language;
pub mod laws;
pub mod line_laws;
pub mod lines;
pub mod mode;
pub mod pattern;
pub mod php;
pub mod plan;
pub mod python;
pub mod scan;
