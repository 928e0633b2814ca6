//! What to do with a file: whether it is taken, in which language it is read,
//! and where the cleaned text goes.
//!
//! Nothing here touches a file. The caller looks at the disk and hands over
//! what it has found.

use crate::chars::{append_between, is_whitespace, spells, to_chars, to_text, whitespace};
use crate::language::Language;
use vstd::prelude::*;
use vstd::string::StringExecFns;

verus! {

/// The number of characters of `s` that come before its first comma: the
/// length of `s` when it has none.
pub open spec fn first_comma(s: Seq<char>) -> nat
    decreases s.len(),
{
    if s.len() == 0 || s[0] == ',' {
        0
    } else {
        1 + first_comma(s.drop_first())
    }
}

/// The parts of `s` between its commas. A text without a comma is one part,
/// the empty text too.
pub open spec fn split_at_commas(s: Seq<char>) -> Seq<Seq<char>>
    decreases s.len(),
{
    let end = first_comma(s) as int;
    if end >= s.len() {
        seq![s]
    } else {
        seq![s.take(end)] + split_at_commas(s.skip(end + 1))
    }
}

/// `s` without the whitespace at its beginning.
pub open spec fn trimmed_start(s: Seq<char>) -> Seq<char>
    decreases s.len(),
{
    if s.len() > 0 && is_whitespace(s[0]) {
        trimmed_start(s.drop_first())
    } else {
        s
    }
}

/// `s` without the whitespace at its end.
pub open spec fn trimmed_end(s: Seq<char>) -> Seq<char>
    decreases s.len(),
{
    if s.len() > 0 && is_whitespace(s.last()) {
        trimmed_end(s.drop_last())
    } else {
        s
    }
}

/// `s` without the whitespace at its beginning and at its end.
pub open spec fn trimmed(s: Seq<char>) -> Seq<char> {
    trimmed_end(trimmed_start(s))
}

/// The extensions that a list names: the parts between its commas, each
/// without the whitespace around it.
pub open spec fn listed_extensions(list: Seq<char>) -> Seq<Seq<char>> {
    split_at_commas(list).map_values(|part: Seq<char>| trimmed(part))
}

/// The name of the file that holds the cleaned text of a file with the given
/// stem and extension: `_cleaned` follows the stem, and the extension follows
/// that after a dot, if there is an extension.
pub open spec fn cleaned_name(stem: Seq<char>, extension: Seq<char>) -> Seq<char> {
    if extension.len() == 0 {
        stem + "_cleaned"@
    } else {
        stem + "_cleaned"@ + seq!['.'] + extension
    }
}

/// The extension of the backup of a file with the given extension.
pub open spec fn backup_extension_of(extension: Seq<char>) -> Seq<char> {
    extension + ".bak"@
}

/// What becomes of a file that a walk through a directory has found.
#[derive(Clone, Copy, Debug, PartialEq, Eq, Structural)]
pub enum Verdict {
    /// Its extension is not among those asked for: it is passed over.
    Filtered,
    /// Its language is not known: it is passed over, and the user is told.
    Unrecognized,
    /// It is cleaned as a text of this language.
    Clean(Language),
}

/// Where the cleaned text of a file goes.
#[derive(Clone, Copy, Debug, PartialEq, Eq, Structural)]
pub enum Destination {
    /// Into the file it came from.
    InPlace,
    /// To the output path as it was given.
    Output,
    /// Into the output directory, under the name of the file.
    InsideOutput,
    /// Beside the file, under its cleaned name.
    Beside,
}

/// Why no destination can be named.
#[derive(Clone, Copy, Debug, PartialEq, Eq, Structural)]
pub enum PlanError {
    /// The path of the file ends in no name that could be used.
    NoFileName,
}

/// Whether `listed` holds `extension`, letter for letter.
pub open spec fn is_listed(listed: Seq<Seq<char>>, extension: Seq<char>) -> bool {
    exists|j: int| 0 <= j < listed.len() && #[trigger] listed[j] == extension
}

/// The verdict on a file, given the extensions asked for, if any were, the
/// language named by the user, if one was, and the extension of the file, if
/// it has one.
pub open spec fn verdict_on(
    wanted: Option<Seq<Seq<char>>>,
    named: Option<Seq<char>>,
    extension: Option<Seq<char>>,
) -> Verdict {
    let filtered = match wanted {
        Some(listed) => match extension {
            Some(e) => !is_listed(listed, e),
            None => true,
        },
        None => false,
    };
    let language = match named {
        Some(name) => Language::of_name(name),
        None => match extension {
            Some(e) => Language::of_extension(e),
            None => None,
        },
    };
    if filtered {
        Verdict::Filtered
    } else {
        match language {
            Some(l) => Verdict::Clean(l),
            None => Verdict::Unrecognized,
        }
    }
}

/// `first_comma` is the place of the first comma, or the length.
proof fn lemma_first_comma(s: Seq<char>, end: int)
    requires
        0 <= end <= s.len(),
        forall|j: int| 0 <= j < end ==> s[j] != ',',
        end == s.len() || s[end] == ',',
    ensures
        first_comma(s) == end,
    decreases end,
{
    if end > 0 {
        lemma_first_comma(s.drop_first(), end - 1);
    }
}

/// The characters of `text` from `lo` up to `hi`, without the whitespace at
/// either end.
fn trim_between(text: &Vec<char>, lo: usize, hi: usize) -> (part: Vec<char>)
    requires
        lo <= hi <= text.len(),
    ensures
        part@ == trimmed(text@.subrange(lo as int, hi as int)),
{
    let mut from = lo;
    while from < hi && whitespace(text[from])
        invariant
            lo <= from <= hi <= text.len(),
            trimmed_start(text@.subrange(lo as int, hi as int)) == trimmed_start(
                text@.subrange(from as int, hi as int),
            ),
        decreases hi - from,
    {
        assert(text@.subrange(from as int, hi as int).drop_first() =~= text@.subrange(
            from + 1,
            hi as int,
        ));
        from += 1;
    }
    let mut to = hi;
    while from < to && whitespace(text[to - 1])
        invariant
            from <= to <= hi <= text.len(),
            trimmed_end(text@.subrange(from as int, hi as int)) == trimmed_end(
                text@.subrange(from as int, to as int),
            ),
        decreases to - from,
    {
        assert(text@.subrange(from as int, to as int).drop_last() =~= text@.subrange(
            from as int,
            to - 1,
        ));
        to -= 1;
    }
    let mut part: Vec<char> = Vec::new();
    append_between(&mut part, text, from, to);
    assert(part@ =~= text@.subrange(from as int, to as int));
    part
}

/// Reads a list of extensions such as `c, cpp,h`.
pub fn parse_extensions(list: &str) -> (listed: Vec<String>)
    ensures
        listed.deep_view() == listed_extensions(list@),
{
    let text = to_chars(list);
    let n = text.len();
    let mut listed: Vec<String> = Vec::new();
    let mut from: usize = 0;
    let ghost mut done: Seq<Seq<char>> = Seq::empty();
    assert(text@.skip(0) =~= text@);
    loop
        invariant
            n == text.len(),
            text@ == list@,
            from <= n,
            done + split_at_commas(text@.skip(from as int)) == split_at_commas(text@),
            listed.deep_view() == done.map_values(|part: Seq<char>| trimmed(part)),
        decreases n - from,
    {
        let mut end = from;
        while end < n && text[end] != ','
            invariant
                from <= end <= n,
                n == text.len(),
                forall|j: int| from <= j < end ==> text[j] != ',',
            decreases n - end,
        {
            end += 1;
        }
        let part = to_text(&trim_between(&text, from, end));
        let ghost rest = text@.skip(from as int);
        let ghost raw = text@.subrange(from as int, end as int);
        let ghost before = listed.deep_view();
        proof {
            lemma_first_comma(rest, end - from);
            assert(rest.take(end - from) =~= raw);
        }
        listed.push(part);
        proof {
            assert(listed.deep_view() =~= before.push(trimmed(raw)));
            assert(done.push(raw).map_values(|part: Seq<char>| trimmed(part)) =~= done.map_values(
                |part: Seq<char>| trimmed(part),
            ).push(trimmed(raw)));
        }
        if end == n {
            proof {
                assert(rest =~= raw);
                assert(done.push(raw) =~= split_at_commas(text@));
            }
            return listed;
        }
        proof {
            assert(rest.skip(end - from + 1) =~= text@.skip(end + 1));
            assert(done.push(raw) + split_at_commas(text@.skip(end + 1)) =~= done + split_at_commas(
                rest,
            ));
            done = done.push(raw);
        }
        from = end + 1;
    }
}

/// Whether `listed` holds `extension`, letter for letter.
pub fn extension_is_listed(listed: &Vec<String>, extension: &str) -> (r: bool)
    ensures
        r == is_listed(listed.deep_view(), extension@),
{
    let wanted = to_chars(extension);
    let mut j: usize = 0;
    while j < listed.len()
        invariant
            j <= listed.len(),
            wanted@ == extension@,
            forall|k: int| 0 <= k < j ==> listed.deep_view()[k] != extension@,
        decreases listed.len() - j,
    {
        assert(listed.deep_view()[j as int] == listed[j as int]@);
        if spells(&wanted, listed[j].as_str()) {
            return true;
        }
        j += 1;
    }
    false
}

/// The verdict on a file that a walk through a directory has found.
pub fn judge(wanted: Option<&Vec<String>>, named: Option<&str>, extension: Option<&str>) -> (r:
    Verdict)
    ensures
        r == verdict_on(
            match wanted {
                Some(listed) => Some(listed.deep_view()),
                None => None,
            },
            match named {
                Some(name) => Some(name@),
                None => None,
            },
            match extension {
                Some(e) => Some(e@),
                None => None,
            },
        ),
{
    if let Some(listed) = wanted {
        match extension {
            Some(e) => {
                if !extension_is_listed(listed, e) {
                    return Verdict::Filtered;
                }
            },
            None => {
                return Verdict::Filtered;
            },
        }
    }
    let language = match named {
        Some(name) => Language::from_str(name),
        None => Language::from_found_extension(extension),
    };
    match language {
        Some(l) => Verdict::Clean(l),
        None => Verdict::Unrecognized,
    }
}

/// The name of the file that holds the cleaned text.
pub fn cleaned_file_name(stem: &str, extension: &str) -> (name: String)
    ensures
        name@ == cleaned_name(stem@, extension@),
{
    let mut name = String::from_str(stem);
    name.append("_cleaned");
    if !extension.is_empty() {
        name.push('.');
        name.append(extension);
        assert(name@ =~= stem@ + "_cleaned"@ + seq!['.'] + extension@);
    }
    name
}

/// The extension of the backup of a file.
pub fn backup_extension(extension: &str) -> (backup: String)
    ensures
        backup@ == backup_extension_of(extension@),
{
    let mut backup = String::from_str(extension);
    backup.append(".bak");
    backup
}

/// Where the cleaned text of a file goes. In place, if that is asked for. Else
/// to the output path, if one is given: into it under the name of the file
/// where it serves as a directory, and to the path itself otherwise. Else
/// beside the file, under its cleaned name. A file without a usable name has
/// no place inside a directory, and one without a usable stem has none beside
/// itself.
pub open spec fn destination_for(
    in_place: bool,
    has_output: bool,
    output_is_directory: bool,
    has_file_name: bool,
    has_stem: bool,
) -> Result<Destination, PlanError> {
    if in_place {
        Ok(Destination::InPlace)
    } else if has_output && !output_is_directory {
        Ok(Destination::Output)
    } else if has_output {
        if has_file_name {
            Ok(Destination::InsideOutput)
        } else {
            Err(PlanError::NoFileName)
        }
    } else if has_stem {
        Ok(Destination::Beside)
    } else {
        Err(PlanError::NoFileName)
    }
}

/// Decides where the cleaned text of a file goes. `output_is_directory` tells
/// whether the files of a recursive run are gathered in the output path.
pub fn plan_destination(
    in_place: bool,
    has_output: bool,
    output_is_directory: bool,
    has_file_name: bool,
    has_stem: bool,
) -> (r: Result<Destination, PlanError>)
    ensures
        r == destination_for(in_place, has_output, output_is_directory, has_file_name, has_stem),
{
    if in_place {
        Ok(Destination::InPlace)
    } else if has_output {
        if !output_is_directory {
            Ok(Destination::Output)
        } else if has_file_name {
            Ok(Destination::InsideOutput)
        } else {
            Err(PlanError::NoFileName)
        }
    } else if has_stem {
        Ok(Destination::Beside)
    } else {
        Err(PlanError::NoFileName)
    }
}

} // verus!
