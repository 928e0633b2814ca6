use cclean::cleaner::{clean_comments, clean_python_comments};
use cclean::language::Language;

#[test]
fn test_python_comment() {
    let input = "x = 5  # this is a comment\ny = 10";
    let expected = "x = 5  \ny = 10";
    assert_eq!(clean_python_comments(input), expected);
}

#[test]
fn hash_comment_is_removed_up_to_the_newline() {
    assert_eq!(clean_python_comments("x = 5  # c\ny = 10"), "x = 5  \ny = 10");
    assert_eq!(clean_comments("x = 5  # c\ny = 10", Language::Python), "x = 5  \ny = 10");
}

#[test]
fn hash_inside_a_string_is_kept() {
    assert_eq!(clean_python_comments("s = '# a' # b"), "s = '# a' ");
    assert_eq!(clean_python_comments("s = \"# a\" # b"), "s = \"# a\" ");
}

#[test]
fn the_other_quote_does_not_close_a_string() {
    assert_eq!(clean_python_comments("s = \"it's # a\" # b"), "s = \"it's # a\" ");
}

#[test]
fn escaped_quote_does_not_close_a_python_string() {
    assert_eq!(clean_python_comments("s = 'a\\' # b' # c"), "s = 'a\\' # b' ");
}

#[test]
fn backslash_at_the_end_of_an_open_python_string_is_kept() {
    assert_eq!(clean_python_comments("'a\\"), "'a\\");
}

#[test]
fn backslash_in_code_is_left_out() {
    assert_eq!(clean_python_comments("a = 1 + \\\n  2"), "a = 1 + \n  2");
    assert_eq!(clean_python_comments("\\# a"), "");
}

#[test]
fn docstring_is_removed_with_its_quotes() {
    assert_eq!(clean_python_comments("def f():\n    \"\"\"doc\"\"\"\n    pass"), "def f():\n    \n    pass");
    assert_eq!(clean_python_comments("'''doc'''x"), "x");
}

#[test]
fn docstring_may_span_lines_and_hold_quotes() {
    assert_eq!(clean_python_comments("\"\"\"a\n\"b\" ''c''\n\"\"\"d"), "d");
}

#[test]
fn docstring_knows_no_escapes() {
    assert_eq!(clean_python_comments("\"\"\"a\\\"\"\"b"), "b");
}

#[test]
fn unterminated_docstring_runs_to_the_end() {
    assert_eq!(clean_python_comments("a\n\"\"\"b\nc"), "a\n");
}

#[test]
fn triple_quoted_string_after_assignment_is_kept() {
    let input = "s = \"\"\"a # b\n'c'\"\"\" # d";
    assert_eq!(clean_python_comments(input), "s = \"\"\"a # b\n'c'\"\"\" ");
    let input = "s =\n  '''a'''";
    assert_eq!(clean_python_comments(input), input);
}

#[test]
fn kept_triple_quoted_string_honours_escapes() {
    let input = "s = \"\"\"a\\\"\"\" # b\"\"\" # c";
    assert_eq!(clean_python_comments(input), "s = \"\"\"a\\\"\"\" # b\"\"\" ");
}

#[test]
fn empty_triple_quoted_blocks() {
    assert_eq!(clean_python_comments("s = \"\"\"\"\"\" # a"), "s = \"\"\"\"\"\" ");
    assert_eq!(clean_python_comments("\"\"\"\"\"\"a"), "a");
}

#[test]
fn four_quotes_close_at_the_third() {
    assert_eq!(clean_python_comments("\"\"\"a\"\"\"\" # b\" # c"), "\" # b\" ");
}

#[test]
fn unterminated_kept_block_is_copied_to_the_end() {
    assert_eq!(clean_python_comments("s = '''a # b\n''c"), "s = '''a # b\n''c");
}

#[test]
fn two_quotes_are_an_empty_string() {
    assert_eq!(clean_python_comments("s = \"\" # a"), "s = \"\" ");
    assert_eq!(clean_python_comments("s = '' # a"), "s = '' ");
}

#[test]
fn assignment_is_told_from_the_copied_text() {
    assert_eq!(clean_python_comments("x = # a\n'''b'''"), "x = \n'''b'''");
    assert_eq!(clean_python_comments("x == '''b'''"), "x == '''b'''");
    assert_eq!(clean_python_comments("x = 1\n'''b'''"), "x = 1\n");
    assert_eq!(clean_python_comments("s = 'a=' '''b'''"), "s = 'a=' ");
    assert_eq!(clean_python_comments("x =\u{2003}'''b'''"), "x =\u{2003}'''b'''");
}

#[test]
fn python_slashes_are_no_comment() {
    assert_eq!(clean_python_comments("a // b /* c */"), "a // b /* c */");
}
