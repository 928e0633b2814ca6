//! HTML documents.
//!
//! The bodies of `<script>` and `<style>` elements are found in the document as
//! it is given, and each is cleaned by the scanner of its language. Then the
//! `<!-- -->` comments are taken out of the document, and in what is left each
//! body is replaced by its cleaned form, at the first place where its text
//! occurs. A body that a comment has swallowed is no longer found and is left
//! alone; of two bodies with the same text the first place is taken each time.
//!
//! Finding the elements and the comments is the work of regular expressions.

use crate::chars::{append_between, to_chars};
use crate::pattern::{all_matches_replaced, capture_groups, group_captures, replace_all_matches};
use crate::scan::{scan, scanned, Scanner};
use vstd::prelude::*;

verus! {

/// A `<script>` element; its first group is the body.
pub const SCRIPT_ELEMENT: &'static str = "(?s)<script[^>]*>(.*?)</script>";

/// A `<style>` element; its first group is the body.
pub const STYLE_ELEMENT: &'static str = "(?s)<style[^>]*>(.*?)</style>";

/// A comment, up to the first `-->` after its beginning.
pub const COMMENT: &'static str = "<!--[\\s\\S]*?-->";

/// Whether `part` stands in `doc` at position `at`.
pub open spec fn occurs_at(doc: Seq<char>, part: Seq<char>, at: int) -> bool {
    &&& 0 <= at
    &&& at + part.len() <= doc.len()
    &&& doc.subrange(at, at + part.len()) == part
}

/// The first position at or after `from` where `part` stands in `doc`.
pub open spec fn first_occurrence_from(doc: Seq<char>, part: Seq<char>, from: int) -> Option<int>
    decreases doc.len() - from,
{
    if occurs_at(doc, part, from) {
        Some(from)
    } else if 0 <= from && from + part.len() < doc.len() {
        first_occurrence_from(doc, part, from + 1)
    } else {
        None
    }
}

/// The first position where `part` stands in `doc`.
pub open spec fn first_occurrence(doc: Seq<char>, part: Seq<char>) -> Option<int> {
    first_occurrence_from(doc, part, 0)
}

/// `doc` with `with` in place of `part` at the first position where `part`
/// stands; `doc` itself if `part` stands nowhere.
pub open spec fn replaced_first(doc: Seq<char>, part: Seq<char>, with: Seq<char>) -> Seq<char> {
    match first_occurrence(doc, part) {
        Some(at) => doc.take(at) + with + doc.skip(at + part.len()),
        None => doc,
    }
}

/// `doc` after each body of `bodies`, one after the other, has been replaced at
/// its first position by what `scanner` makes of it.
pub open spec fn bodies_replaced(
    doc: Seq<char>,
    bodies: Seq<Option<Seq<char>>>,
    scanner: Scanner,
) -> Seq<char>
    decreases bodies.len(),
{
    if bodies.len() == 0 {
        doc
    } else {
        let before = bodies_replaced(doc, bodies.drop_last(), scanner);
        match bodies.last() {
            Some(body) => replaced_first(before, body, scanned(scanner, body)),
            None => before,
        }
    }
}

/// The bodies that a search has found; none if the search could not be made.
pub open spec fn found_bodies(found: Option<Seq<Option<Seq<char>>>>) -> Seq<Option<Seq<char>>> {
    match found {
        Some(bodies) => bodies,
        None => Seq::empty(),
    }
}

/// The cleaned document, given what the searches have found in `content`: the
/// bodies of its script elements, the bodies of its style elements, and
/// `content` without its comments. Where the last is missing, the comments
/// stay.
pub open spec fn html_cleaned(
    content: Seq<char>,
    scripts: Option<Seq<Option<Seq<char>>>>,
    styles: Option<Seq<Option<Seq<char>>>>,
    stripped: Option<Seq<char>>,
) -> Seq<char> {
    let doc = match stripped {
        Some(without_comments) => without_comments,
        None => content,
    };
    bodies_replaced(
        bodies_replaced(doc, found_bodies(scripts), Scanner::CStyle),
        found_bodies(styles),
        Scanner::Css,
    )
}

/// What the scanner for HTML makes of `content`.
pub open spec fn html_scanned(content: Seq<char>) -> Seq<char> {
    html_cleaned(
        content,
        group_captures(SCRIPT_ELEMENT@, 1, content),
        group_captures(STYLE_ELEMENT@, 1, content),
        all_matches_replaced(COMMENT@, content, ""@),
    )
}

/// `first_occurrence_from` finds the first position at or after `from` where
/// `part` stands, and finds none only where there is none.
pub proof fn lemma_first_occurrence_is_first(doc: Seq<char>, part: Seq<char>, from: int)
    requires
        0 <= from,
    ensures
        match first_occurrence_from(doc, part, from) {
            Some(at) => from <= at && occurs_at(doc, part, at) && forall|k: int|
                from <= k < at ==> !occurs_at(doc, part, k),
            None => forall|k: int| from <= k ==> !occurs_at(doc, part, k),
        },
    decreases doc.len() - from,
{
    if !occurs_at(doc, part, from) && from + part.len() < doc.len() {
        lemma_first_occurrence_is_first(doc, part, from + 1);
    }
}

fn stands_at(doc: &Vec<char>, part: &Vec<char>, at: usize) -> (r: bool)
    requires
        at + part.len() <= doc.len(),
    ensures
        r == occurs_at(doc@, part@, at as int),
{
    let ghost window = doc@.subrange(at as int, at + part.len());
    let mut i: usize = 0;
    while i < part.len()
        invariant
            i <= part.len(),
            at + part.len() <= doc.len(),
            window == doc@.subrange(at as int, at + part.len()),
            forall|j: int| 0 <= j < i ==> window[j] == part[j],
        decreases part.len() - i,
    {
        if doc[at + i] != part[i] {
            assert(window[i as int] != part[i as int]);
            return false;
        }
        i += 1;
    }
    assert(window =~= part@);
    true
}

fn find_first(doc: &Vec<char>, part: &Vec<char>) -> (r: Option<usize>)
    ensures
        match r {
            Some(at) => first_occurrence(doc@, part@) == Some(at as int) && at + part.len()
                <= doc.len(),
            None => first_occurrence(doc@, part@) is None,
        },
{
    if part.len() > doc.len() {
        return None;
    }
    let last = doc.len() - part.len();
    let mut at: usize = 0;
    loop
        invariant
            last == doc.len() - part.len(),
            at <= last,
            first_occurrence_from(doc@, part@, at as int) == first_occurrence(doc@, part@),
        decreases last - at,
    {
        if stands_at(doc, part, at) {
            return Some(at);
        }
        if at == last {
            return None;
        }
        at += 1;
    }
}

fn replace_first(doc: Vec<char>, part: &Vec<char>, with: &Vec<char>) -> (r: Vec<char>)
    ensures
        r@ == replaced_first(doc@, part@, with@),
        with.len() <= part.len() ==> r.len() <= doc.len(),
{
    match find_first(&doc, part) {
        Some(at) => {
            let mut out: Vec<char> = Vec::new();
            append_between(&mut out, &doc, 0, at);
            append_between(&mut out, with, 0, with.len());
            append_between(&mut out, &doc, at + part.len(), doc.len());
            assert(out@ =~= doc@.take(at as int) + with@ + doc@.skip(at + part.len()));
            out
        },
        None => doc,
    }
}

fn replace_bodies(doc: Vec<char>, bodies: &Vec<Option<String>>, scanner: Scanner) -> (r: Vec<char>)
    ensures
        r@ == bodies_replaced(doc@, bodies.deep_view(), scanner),
        r.len() <= doc.len(),
{
    let ghost given = doc@;
    let ghost all = bodies.deep_view();
    let mut doc = doc;
    let mut i: usize = 0;
    assert(all.take(0) =~= Seq::<Option<Seq<char>>>::empty());
    while i < bodies.len()
        invariant
            i <= bodies.len(),
            all == bodies.deep_view(),
            doc@ == bodies_replaced(given, all.take(i as int), scanner),
            doc.len() <= given.len(),
        decreases bodies.len() - i,
    {
        assert(all.take(i + 1).drop_last() =~= all.take(i as int));
        assert(all.take(i + 1).last() == bodies[i as int].deep_view());
        if let Some(body) = &bodies[i] {
            let body = to_chars(body.as_str());
            let cleaned = scan(scanner, &body);
            doc = replace_first(doc, &body, &cleaned);
        }
        i += 1;
    }
    assert(all.take(bodies.len() as int) =~= all);
    doc
}

/// Puts the cleaned form of each body in its place, given what the searches
/// have found in `content`: the bodies of its script elements, the bodies of
/// its style elements, and `content` without its comments.
pub fn splice_cleaned_bodies(
    content: &str,
    scripts: Option<Vec<Option<String>>>,
    styles: Option<Vec<Option<String>>>,
    stripped: Option<String>,
) -> (r: Vec<char>)
    ensures
        r@ == html_cleaned(
            content@,
            scripts.deep_view(),
            styles.deep_view(),
            stripped.deep_view(),
        ),
        (stripped matches Some(d) ==> d@.len() <= content@.len()) ==> r.len() <= content@.len(),
{
    let mut doc = match stripped {
        Some(without_comments) => to_chars(without_comments.as_str()),
        None => to_chars(content),
    };
    if let Some(bodies) = scripts {
        doc = replace_bodies(doc, &bodies, Scanner::CStyle);
    }
    if let Some(bodies) = styles {
        doc = replace_bodies(doc, &bodies, Scanner::Css);
    }
    doc
}

/// Runs the scanner for HTML over `content`.
pub fn scan_html(content: &str) -> (r: Vec<char>)
    ensures
        r@ == html_scanned(content@),
        r.len() <= content@.len(),
{
    proof {
        reveal_strlit("");
    }
    let scripts = capture_groups(SCRIPT_ELEMENT, 1, content);
    let styles = capture_groups(STYLE_ELEMENT, 1, content);
    let stripped = replace_all_matches(COMMENT, content, "");
    splice_cleaned_bodies(content, scripts, styles, stripped)
}

} // verus!
