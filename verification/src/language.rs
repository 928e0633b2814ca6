//! The languages the cleaner knows, and how a language is told from a file
//! extension, a path or a name.

use crate::chars::{ascii_lowercase_text, spells, to_ascii_lowercase, to_chars};
use crate::scan::Scanner;
use std::path::Path;
use vstd::prelude::*;

verus! {

/// A language whose comments the cleaner can remove.
#[derive(Clone, Copy, Debug, PartialEq, Eq, Structural)]
pub enum Language {
    C,
    Cpp,
    Java,
    JavaScript,
    TypeScript,
    Python,
    Html,
    Css,
    Php,
    Rust,
    Basic,
}

/// A group of languages that share one convention for comments and strings.
#[derive(Clone, Copy, Debug, PartialEq, Eq, Structural)]
pub enum LanguageFamily {
    /// C, C++, Java, JavaScript, TypeScript and Rust.
    CStyle,
    Python,
    Html,
    Css,
    Php,
    Basic,
}

impl LanguageFamily {
    /// The scanner that reads the texts of the family. HTML has none of its
    /// own: its documents are taken apart and their parts handed to the
    /// scanners of other families.
    pub open spec fn scanner(self) -> Option<Scanner> {
        match self {
            LanguageFamily::CStyle => Some(Scanner::CStyle),
            LanguageFamily::Python => Some(Scanner::Python),
            LanguageFamily::Html => None,
            LanguageFamily::Css => Some(Scanner::Css),
            LanguageFamily::Php => Some(Scanner::Php),
            LanguageFamily::Basic => Some(Scanner::Basic),
        }
    }
}

/// `std::path::Path`. The library looks at a path only through
/// `extension_of`.
#[verifier::external_type_specification]
#[verifier::external_body]
pub struct ExPath(Path);

/// The extension of `path` as `std::path::Path::extension` finds it, where it
/// is valid Unicode. Which part of a path is its extension depends on the
/// platform, so nothing is promised of the result.
#[verifier::external_body]
fn extension_of(path: &Path) -> (ext: Option<&str>) {
    path.extension()?.to_str()
}

/// `text` in small letters, as far as ASCII goes.
fn lowercase(text: &str) -> (lowered: Vec<char>)
    ensures
        lowered@ == ascii_lowercase_text(text@),
{
    let chars = to_chars(text);
    let mut lowered: Vec<char> = Vec::new();
    let mut i: usize = 0;
    while i < chars.len()
        invariant
            i <= chars.len(),
            chars@ == text@,
            lowered@ == ascii_lowercase_text(text@.take(i as int)),
        decreases chars.len() - i,
    {
        lowered.push(to_ascii_lowercase(chars[i]));
        assert(ascii_lowercase_text(text@.take(i + 1)) =~= ascii_lowercase_text(
            text@.take(i as int),
        ).push(crate::chars::ascii_lowercase(text@[i as int])));
        i += 1;
    }
    assert(text@.take(chars.len() as int) =~= text@);
    lowered
}

impl Language {
    /// The family that the language belongs to.
    pub open spec fn family_of(self) -> LanguageFamily {
        match self {
            Language::C => LanguageFamily::CStyle,
            Language::Cpp => LanguageFamily::CStyle,
            Language::Java => LanguageFamily::CStyle,
            Language::JavaScript => LanguageFamily::CStyle,
            Language::TypeScript => LanguageFamily::CStyle,
            Language::Rust => LanguageFamily::CStyle,
            Language::Python => LanguageFamily::Python,
            Language::Html => LanguageFamily::Html,
            Language::Css => LanguageFamily::Css,
            Language::Php => LanguageFamily::Php,
            Language::Basic => LanguageFamily::Basic,
        }
    }

    /// The language that files with extension `ext` are written in. Capitals
    /// and small letters of ASCII count as the same.
    pub open spec fn of_extension(ext: Seq<char>) -> Option<Language> {
        let e = ascii_lowercase_text(ext);
        if e == "c"@ || e == "h"@ {
            Some(Language::C)
        } else if e == "cpp"@ || e == "cc"@ || e == "cxx"@ || e == "hpp"@ || e == "hxx"@ {
            Some(Language::Cpp)
        } else if e == "java"@ {
            Some(Language::Java)
        } else if e == "js"@ || e == "jsx"@ {
            Some(Language::JavaScript)
        } else if e == "ts"@ || e == "tsx"@ {
            Some(Language::TypeScript)
        } else if e == "py"@ || e == "pyw"@ {
            Some(Language::Python)
        } else if e == "html"@ || e == "htm"@ {
            Some(Language::Html)
        } else if e == "css"@ {
            Some(Language::Css)
        } else if e == "php"@ {
            Some(Language::Php)
        } else if e == "rs"@ {
            Some(Language::Rust)
        } else if e == "vb"@ || e == "bas"@ || e == "vba"@ || e == "vbs"@ {
            Some(Language::Basic)
        } else {
            None
        }
    }

    /// The language that goes by the name `name`. Capitals and small letters of
    /// ASCII count as the same.
    pub open spec fn of_name(name: Seq<char>) -> Option<Language> {
        let n = ascii_lowercase_text(name);
        if n == "c"@ {
            Some(Language::C)
        } else if n == "cpp"@ || n == "c++"@ {
            Some(Language::Cpp)
        } else if n == "java"@ {
            Some(Language::Java)
        } else if n == "js"@ || n == "javascript"@ {
            Some(Language::JavaScript)
        } else if n == "ts"@ || n == "typescript"@ {
            Some(Language::TypeScript)
        } else if n == "python"@ || n == "py"@ {
            Some(Language::Python)
        } else if n == "html"@ {
            Some(Language::Html)
        } else if n == "css"@ {
            Some(Language::Css)
        } else if n == "php"@ {
            Some(Language::Php)
        } else if n == "rust"@ || n == "rs"@ {
            Some(Language::Rust)
        } else if n == "basic"@ || n == "vb"@ || n == "vba"@ || n == "vbs"@ {
            Some(Language::Basic)
        } else {
            None
        }
    }

    /// The name of the language as it is shown to a reader.
    pub open spec fn display_name(self) -> Seq<char> {
        match self {
            Language::C => "C"@,
            Language::Cpp => "C++"@,
            Language::Java => "Java"@,
            Language::JavaScript => "JavaScript"@,
            Language::TypeScript => "TypeScript"@,
            Language::Python => "Python"@,
            Language::Html => "HTML"@,
            Language::Css => "CSS"@,
            Language::Php => "PHP"@,
            Language::Rust => "Rust"@,
            Language::Basic => "Basic"@,
        }
    }

    /// The family that the language belongs to.
    pub fn family(&self) -> (r: LanguageFamily)
        ensures
            r == self.family_of(),
    {
        match self {
            Language::C
            | Language::Cpp
            | Language::Java
            | Language::JavaScript
            | Language::TypeScript
            | Language::Rust => LanguageFamily::CStyle,
            Language::Python => LanguageFamily::Python,
            Language::Html => LanguageFamily::Html,
            Language::Css => LanguageFamily::Css,
            Language::Php => LanguageFamily::Php,
            Language::Basic => LanguageFamily::Basic,
        }
    }

    /// The language that files with extension `ext` are written in, if the
    /// extension is known.
    pub fn from_extension(ext: &str) -> (r: Option<Language>)
        ensures
            r == Language::of_extension(ext@),
    {
        let e = lowercase(ext);
        if spells(&e, "c") || spells(&e, "h") {
            Some(Language::C)
        } else if spells(&e, "cpp") || spells(&e, "cc") || spells(&e, "cxx") || spells(&e, "hpp")
            || spells(&e, "hxx") {
            Some(Language::Cpp)
        } else if spells(&e, "java") {
            Some(Language::Java)
        } else if spells(&e, "js") || spells(&e, "jsx") {
            Some(Language::JavaScript)
        } else if spells(&e, "ts") || spells(&e, "tsx") {
            Some(Language::TypeScript)
        } else if spells(&e, "py") || spells(&e, "pyw") {
            Some(Language::Python)
        } else if spells(&e, "html") || spells(&e, "htm") {
            Some(Language::Html)
        } else if spells(&e, "css") {
            Some(Language::Css)
        } else if spells(&e, "php") {
            Some(Language::Php)
        } else if spells(&e, "rs") {
            Some(Language::Rust)
        } else if spells(&e, "vb") || spells(&e, "bas") || spells(&e, "vba") || spells(&e, "vbs") {
            Some(Language::Basic)
        } else {
            None
        }
    }

    /// The language for the extension that was found in a path, if one was
    /// found.
    pub fn from_found_extension(ext: Option<&str>) -> (r: Option<Language>)
        ensures
            r == match ext {
                Some(e) => Language::of_extension(e@),
                None => None,
            },
    {
        match ext {
            Some(e) => Language::from_extension(e),
            None => None,
        }
    }

    /// The language of the file at `path`, told from its extension. A path
    /// without an extension, or with one that is not valid Unicode, has none.
    /// Where the extension of a path begins is for the platform to say, so the
    /// contract is that of `from_found_extension`, which does the rest.
    pub fn from_path(path: &Path) -> (r: Option<Language>) {
        Language::from_found_extension(extension_of(path))
    }

    /// The language that goes by the name `s`, if the name is known.
    pub fn from_str(s: &str) -> (r: Option<Language>)
        ensures
            r == Language::of_name(s@),
    {
        let n = lowercase(s);
        if spells(&n, "c") {
            Some(Language::C)
        } else if spells(&n, "cpp") || spells(&n, "c++") {
            Some(Language::Cpp)
        } else if spells(&n, "java") {
            Some(Language::Java)
        } else if spells(&n, "js") || spells(&n, "javascript") {
            Some(Language::JavaScript)
        } else if spells(&n, "ts") || spells(&n, "typescript") {
            Some(Language::TypeScript)
        } else if spells(&n, "python") || spells(&n, "py") {
            Some(Language::Python)
        } else if spells(&n, "html") {
            Some(Language::Html)
        } else if spells(&n, "css") {
            Some(Language::Css)
        } else if spells(&n, "php") {
            Some(Language::Php)
        } else if spells(&n, "rust") || spells(&n, "rs") {
            Some(Language::Rust)
        } else if spells(&n, "basic") || spells(&n, "vb") || spells(&n, "vba") || spells(
            &n,
            "vbs",
        ) {
            Some(Language::Basic)
        } else {
            None
        }
    }

    /// The name of the language as it is shown to a reader.
    pub fn name(&self) -> (r: &str)
        ensures
            r@ == self.display_name(),
    {
        match self {
            Language::C => "C",
            Language::Cpp => "C++",
            Language::Java => "Java",
            Language::JavaScript => "JavaScript",
            Language::TypeScript => "TypeScript",
            Language::Python => "Python",
            Language::Html => "HTML",
            Language::Css => "CSS",
            Language::Php => "PHP",
            Language::Rust => "Rust",
            Language::Basic => "Basic",
        }
    }
}

} // verus!
