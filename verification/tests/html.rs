use cclean::cleaner::{clean_comments, clean_html_comments};
use cclean::html::splice_cleaned_bodies;
use cclean::language::Language;

fn text(chars: Vec<char>) -> String {
    chars.into_iter().collect()
}

fn bodies(parts: &[&str]) -> Option<Vec<Option<String>>> {
    Some(parts.iter().map(|part| Some(part.to_string())).collect())
}

#[test]
fn html_comment_is_removed() {
    assert_eq!(clean_html_comments("<p>a</p><!-- b --><p>c</p>"), "<p>a</p><p>c</p>");
    assert_eq!(clean_comments("<p>a</p><!-- b --><p>c</p>", Language::Html), "<p>a</p><p>c</p>");
}

#[test]
fn html_comment_may_span_lines_and_ends_at_the_first_closing() {
    assert_eq!(clean_html_comments("a<!-- b\nc -->d-->e"), "ad-->e");
    assert_eq!(clean_html_comments("a<!-- b --><!-- c -->d"), "ad");
}

#[test]
fn unterminated_html_comment_stays() {
    assert_eq!(clean_html_comments("a<!-- b"), "a<!-- b");
}

#[test]
fn script_body_is_cleaned_as_javascript() {
    let input = "<script>var a = 1; // b\nvar c = \"// d\"; /* e */</script>";
    let expected = "<script>var a = 1; \nvar c = \"// d\"; </script>";
    assert_eq!(clean_html_comments(input), expected);
}

#[test]
fn script_tag_may_carry_attributes() {
    let input = "<script type=\"text/javascript\">a; // b\n</script>";
    assert_eq!(clean_html_comments(input), "<script type=\"text/javascript\">a; \n</script>");
}

#[test]
fn style_body_is_cleaned_as_css() {
    let input = "<style>a { /* b */ c: d; } // e</style>";
    assert_eq!(clean_html_comments(input), "<style>a {  c: d; } // e</style>");
}

#[test]
fn slashes_outside_scripts_are_text() {
    let input = "<a href=\"http://b.c\">// d /* e */</a>";
    assert_eq!(clean_html_comments(input), input);
}

#[test]
fn script_style_and_comment_together() {
    let input = "<!-- a -->\n<style>b { } /* c */</style>\n<script>d; // e\n</script>\n<p>f</p>";
    let expected = "\n<style>b { } </style>\n<script>d; \n</script>\n<p>f</p>";
    assert_eq!(clean_html_comments(input), expected);
    assert_eq!(clean_comments(input, Language::Html), expected);
}

#[test]
fn script_ends_at_the_first_closing_tag() {
    let input = "<script>a; // b</script>c // d</script>";
    assert_eq!(clean_html_comments(input), "<script>a; </script>c // d</script>");
}

#[test]
fn script_swallowed_by_a_comment_is_gone_with_it() {
    let input = "a<!-- <script>b; // c\n</script> -->d";
    assert_eq!(clean_html_comments(input), "ad");
}

#[test]
fn body_is_replaced_where_its_text_stands_first() {
    let input = "x // y\n<script>x // y\n</script>";
    assert_eq!(clean_html_comments(input), "x \n<script>x // y\n</script>");
}

#[test]
fn empty_html_stays_empty() {
    assert_eq!(clean_html_comments(""), "");
    assert_eq!(clean_html_comments("<script></script>"), "<script></script>");
}

#[test]
fn html_blank_lines_are_collapsed() {
    assert_eq!(clean_comments("a\n<!-- b -->\n<!-- c -->\n\nd", Language::Html), "a\n\nd");
}

#[test]
fn splice_replaces_each_body_once_and_in_turn() {
    let out = splice_cleaned_bodies(
        "ignored",
        bodies(&["a // b", "c /* d */"]),
        bodies(&["e /* f */ // g"]),
        Some("<a // b><c /* d */><a // b><e /* f */ // g>".to_string()),
    );
    assert_eq!(text(out), "<a ><c ><a // b><e  // g>");
}

#[test]
fn splice_without_findings_returns_the_document() {
    let out = splice_cleaned_bodies("a // b", None, None, None);
    assert_eq!(text(out), "a // b");
    let out = splice_cleaned_bodies("a // b", bodies(&[]), bodies(&[]), Some("c // d".to_string()));
    assert_eq!(text(out), "c // d");
}

#[test]
fn splice_skips_a_body_that_is_not_there_and_a_group_that_took_no_part() {
    let out = splice_cleaned_bodies(
        "a // b",
        Some(vec![None, Some("x // y".to_string()), Some("a // b".to_string())]),
        None,
        None,
    );
    assert_eq!(text(out), "a ");
}

#[test]
fn splice_sees_what_earlier_replacements_left() {
    let out = splice_cleaned_bodies("", bodies(&["a /* b */c", "ac // d"]), None, Some("a /* b */c // d".to_string()));
    assert_eq!(text(out), "a c // d");
    let out = splice_cleaned_bodies("", bodies(&["/* b */", "a c // d"]), None, Some("a /* b */ c // d".to_string()));
    assert_eq!(text(out), "a  c // d");
    let out = splice_cleaned_bodies("", bodies(&["/* b */", "a  c // d"]), None, Some("a /* b */ c // d".to_string()));
    assert_eq!(text(out), "a  c ");
}
