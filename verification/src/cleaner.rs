//! Removing the comments of a text in a given language.

use crate::chars::{to_chars, to_text};
use crate::html::{html_scanned, scan_html};
use crate::language::{Language, LanguageFamily};
use crate::lines::{collapse, collapsed};
use crate::scan::{scan, scanned, Scanner};
use vstd::prelude::*;

verus! {

/// `content` without the comments of the languages of `family`, before blank
/// lines are collapsed.
pub open spec fn comments_removed(content: Seq<char>, family: LanguageFamily) -> Seq<char> {
    match family.scanner() {
        Some(scanner) => scanned(scanner, content),
        None => html_scanned(content),
    }
}

/// `content` without the comments of the languages of `family` and with every
/// run of blank lines collapsed into one.
pub open spec fn cleaned(content: Seq<char>, family: LanguageFamily) -> Seq<char> {
    collapsed(comments_removed(content, family))
}

/// Removes the comments of the languages of `family` from `content`, then
/// collapses every run of blank lines into one. The result is never longer
/// than `content`.
pub fn clean(content: &str, family: LanguageFamily) -> (r: String)
    ensures
        r@ == cleaned(content@, family),
        r@.len() <= content@.len(),
{
    let without_comments = match family {
        LanguageFamily::CStyle => scan(Scanner::CStyle, &to_chars(content)),
        LanguageFamily::Python => scan(Scanner::Python, &to_chars(content)),
        LanguageFamily::Html => scan_html(content),
        LanguageFamily::Css => scan(Scanner::Css, &to_chars(content)),
        LanguageFamily::Php => scan(Scanner::Php, &to_chars(content)),
        LanguageFamily::Basic => scan(Scanner::Basic, &to_chars(content)),
    };
    to_text(&collapse(&without_comments))
}

/// Removes the comments of `language` from `content`, then collapses every run
/// of blank lines into one. The result is never longer than `content`.
pub fn clean_comments(content: &str, language: Language) -> (r: String)
    ensures
        r@ == cleaned(content@, language.family_of()),
        r@.len() <= content@.len(),
{
    clean(content, language.family())
}

/// Collapses every run of blank lines in `content` into the first line of the
/// run.
pub fn clean_empty_lines(content: &str) -> (r: String)
    ensures
        r@ == collapsed(content@),
        r@.len() <= content@.len(),
{
    to_text(&collapse(&to_chars(content)))
}

/// Removes `//` and `/* */` comments from `content`.
pub fn clean_c_style_comments(content: &str) -> (r: String)
    ensures
        r@ == scanned(Scanner::CStyle, content@),
        r@.len() <= content@.len(),
{
    to_text(&scan(Scanner::CStyle, &to_chars(content)))
}

/// Removes `#` comments and docstrings from `content`.
pub fn clean_python_comments(content: &str) -> (r: String)
    ensures
        r@ == scanned(Scanner::Python, content@),
        r@.len() <= content@.len(),
{
    to_text(&scan(Scanner::Python, &to_chars(content)))
}

/// Removes the comments from an HTML document, and those in its scripts and
/// style sheets.
pub fn clean_html_comments(content: &str) -> (r: String)
    ensures
        r@ == html_scanned(content@),
        r@.len() <= content@.len(),
{
    to_text(&scan_html(content))
}

/// Removes `/* */` comments from `content`.
pub fn clean_css_comments(content: &str) -> (r: String)
    ensures
        r@ == scanned(Scanner::Css, content@),
        r@.len() <= content@.len(),
{
    to_text(&scan(Scanner::Css, &to_chars(content)))
}

/// Removes `//`, `#` and `/* */` comments from `content`.
pub fn clean_php_comments(content: &str) -> (r: String)
    ensures
        r@ == scanned(Scanner::Php, content@),
        r@.len() <= content@.len(),
{
    to_text(&scan(Scanner::Php, &to_chars(content)))
}

/// Removes `'` and `REM` comments from `content`.
pub fn clean_basic_comments(content: &str) -> (r: String)
    ensures
        r@ == scanned(Scanner::Basic, content@),
        r@.len() <= content@.len(),
{
    to_text(&scan(Scanner::Basic, &to_chars(content)))
}

} // verus!
