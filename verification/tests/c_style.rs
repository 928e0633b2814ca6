use cclean::cleaner::{clean_c_style_comments, clean_comments};
use cclean::language::Language;

#[test]
fn test_c_single_line_comment() {
    let input = "int x = 5; // this is a comment\nint y = 10;";
    let expected = "int x = 5; \nint y = 10;";
    assert_eq!(clean_c_style_comments(input), expected);
}

#[test]
fn test_c_multi_line_comment() {
    let input = "int x = 5; /* this is a\nmulti-line comment */ int y = 10;";
    let expected = "int x = 5;  int y = 10;";
    assert_eq!(clean_c_style_comments(input), expected);
}

#[test]
fn test_string_with_comment_chars() {
    let input = r#"String s = "// not a comment";"#;
    let output = clean_c_style_comments(input);
    assert!(output.contains("// not a comment"));
}

#[test]
fn test_js_regex_preserve_escape() {
    let input = r#"const re = /[^\d]/g;"#;
    let output = clean_c_style_comments(input);
    assert!(output.contains(r"/[^\d]/g"));
}

#[test]
fn test_js_regex_with_double_slash() {
    let input = r#"const re = /https?:\/\/[^\s]+/;"#;
    let output = clean_c_style_comments(input);
    assert!(output.contains(r"/https?:\/\/[^\s]+/"));
}

#[test]
fn test_js_regex_with_comment_markers() {
    let input = r#"const re = /\/\*[^]*\*\//;"#;
    let output = clean_c_style_comments(input);
    assert!(output.contains(r"/\/\*[^]*\*\//"));
}

#[test]
fn test_js_template_string_with_url() {
    let input = r#"const apiUrl = `https://example.com/path?x=${1+2}`;"#;
    let output = clean_c_style_comments(input);
    assert!(output.contains("`https://example.com/path?x=${1+2}`"));
}

#[test]
fn line_comment_is_removed_up_to_the_newline() {
    assert_eq!(clean_c_style_comments("a = 5; // c\nb = 6;"), "a = 5; \nb = 6;");
    assert_eq!(clean_comments("a = 5; // c\nb = 6;", Language::C), "a = 5; \nb = 6;");
}

#[test]
fn block_comment_is_removed_with_its_newline() {
    assert_eq!(clean_c_style_comments("a = 5; /* x\ny */ b = 6;"), "a = 5;  b = 6;");
    assert_eq!(clean_comments("a = 5; /* x\ny */ b = 6;", Language::Java), "a = 5;  b = 6;");
}

#[test]
fn regex_literal_is_preserved_whole() {
    let input = "const re = /[^\\d]/g;";
    assert_eq!(clean_c_style_comments(input), input);
    assert_eq!(clean_comments(input, Language::JavaScript), input);
}

#[test]
fn every_c_style_language_uses_the_same_scanner() {
    let input = "x; // c\ny; /* d */ z;";
    let expected = "x; \ny;  z;";
    for language in [
        Language::C,
        Language::Cpp,
        Language::Java,
        Language::JavaScript,
        Language::TypeScript,
        Language::Rust,
    ] {
        assert_eq!(clean_comments(input, language), expected);
    }
}

#[test]
fn empty_text_stays_empty() {
    assert_eq!(clean_c_style_comments(""), "");
    assert_eq!(clean_comments("", Language::C), "");
}

#[test]
fn unterminated_block_comment_runs_to_the_end() {
    assert_eq!(clean_c_style_comments("a /* b\nc"), "a ");
}

#[test]
fn unterminated_line_comment_runs_to_the_end() {
    assert_eq!(clean_c_style_comments("a // b"), "a ");
}

#[test]
fn unterminated_string_is_copied_to_the_end() {
    assert_eq!(clean_c_style_comments("s = \"a // b\nc /* d */"), "s = \"a // b\nc /* d */");
}

#[test]
fn backslash_at_the_end_of_an_open_string_is_kept() {
    assert_eq!(clean_c_style_comments("\"a\\"), "\"a\\");
}

#[test]
fn block_comment_closes_at_slash_right_after_its_opening_star() {
    assert_eq!(clean_c_style_comments("a /*/ b"), "a  b");
}

#[test]
fn block_comments_do_not_nest() {
    assert_eq!(clean_c_style_comments("a /* /* b */ c */ d"), "a  c */ d");
}

#[test]
fn escaped_quote_does_not_close_a_string() {
    let input = r#"s = "a \" // b"; // c"#;
    assert_eq!(clean_c_style_comments(input), r#"s = "a \" // b"; "#);
}

#[test]
fn escaped_backslash_before_the_closing_quote() {
    let input = r#"s = "a\\"; // c"#;
    assert_eq!(clean_c_style_comments(input), r#"s = "a\\"; "#);
}

#[test]
fn char_literal_hides_comment_markers() {
    assert_eq!(clean_c_style_comments("c = '/'; d = '*'; // e"), "c = '/'; d = '*'; ");
    assert_eq!(clean_c_style_comments("c = '\\'' + '//'; // e"), "c = '\\'' + '//'; ");
}

#[test]
fn double_quote_inside_char_literal_opens_no_string() {
    assert_eq!(clean_c_style_comments("c = '\"'; // e"), "c = '\"'; ");
}

#[test]
fn template_literal_ignores_interpolation() {
    let input = "t = `a ${b /* c */} // d`; // e";
    assert_eq!(clean_c_style_comments(input), "t = `a ${b /* c */} // d`; ");
}

#[test]
fn backslash_in_code_is_copied_and_opens_no_escape() {
    assert_eq!(clean_c_style_comments("a \\// b"), "a \\");
    assert_eq!(clean_c_style_comments("a \\\" // b\" // c"), "a \\\" // b\" ");
}

#[test]
fn slash_after_an_operand_is_division() {
    assert_eq!(clean_c_style_comments("a / b // c"), "a / b ");
    assert_eq!(clean_c_style_comments("f(x) / 2 // c"), "f(x) / 2 ");
    assert_eq!(clean_c_style_comments("v[0] / 2 // c"), "v[0] / 2 ");
    assert_eq!(clean_c_style_comments("9 / 3 // c"), "9 / 3 ");
    assert_eq!(clean_c_style_comments("a. / 3 // c"), "a. / 3 ");
    assert_eq!(clean_c_style_comments("{} / 3 // c"), "{} / 3 ");
}

#[test]
fn slash_at_the_start_opens_a_regex() {
    assert_eq!(clean_c_style_comments("/a b/ // c"), "/a b/ ");
    assert_eq!(clean_c_style_comments("/a // b"), "/a // b");
}

#[test]
fn slash_after_an_operator_opens_a_regex() {
    assert_eq!(clean_c_style_comments("x = /a\\/b/ // c"), "x = /a\\/b/ ");
    assert_eq!(clean_c_style_comments("f(/a/, 1) // c"), "f(/a/, 1) ");
    assert_eq!(clean_c_style_comments("x = /a // b"), "x = /a // b");
}

#[test]
fn slash_before_equals_is_an_operator() {
    assert_eq!(clean_c_style_comments("x = y; x /= 2; // c"), "x = y; x /= 2; ");
    assert_eq!(clean_c_style_comments("= /= 2; // c"), "= /= 2; ");
}

#[test]
fn slash_inside_a_character_class_does_not_close_a_regex() {
    assert_eq!(clean_c_style_comments("x = /[/]*/ // c"), "x = /[/]*/ ");
    assert_eq!(clean_c_style_comments("x = /[/*]/ // c"), "x = /[/*]/ ");
}

#[test]
fn escaped_bracket_in_a_regex_opens_no_class() {
    assert_eq!(clean_c_style_comments("x = /\\[/ // c"), "x = /\\[/ ");
}

#[test]
fn every_backslash_in_a_regex_shields_the_next_character() {
    assert_eq!(clean_c_style_comments("x = /a\\\\/ // c/ // d"), "x = /a\\\\/ // c/ ");
}

#[test]
fn characters_of_a_literal_do_not_count_as_significant() {
    assert_eq!(clean_c_style_comments("x = \"a\" /b // c"), "x = \"a\" /b // c");
    assert_eq!(clean_c_style_comments("x = a \"b\" /c // d"), "x = a \"b\" /c ");
}

#[test]
fn whitespace_does_not_count_as_significant() {
    assert_eq!(clean_c_style_comments("a \t\n / b // c"), "a \t\n / b ");
    assert_eq!(clean_c_style_comments("= \u{a0}/b // c"), "= \u{a0}/b // c");
}

#[test]
fn comment_does_not_count_as_significant() {
    assert_eq!(clean_c_style_comments("a /* = */ / b // c"), "a  / b ");
    assert_eq!(clean_c_style_comments("= /* a */ /b // c"), "=  /b // c");
}

#[test]
fn text_beyond_ascii_is_copied() {
    assert_eq!(clean_c_style_comments("s = \"é // ü\"; // ö\nπ"), "s = \"é // ü\"; \nπ");
}

#[test]
fn non_ascii_letter_before_a_slash_is_no_operand() {
    assert_eq!(clean_c_style_comments("é /b // c"), "é /b // c");
}

#[test]
fn blank_lines_left_by_comments_are_collapsed() {
    assert_eq!(clean_comments("a\n// b\n// c\nd", Language::C), "a\n\nd");
    assert_eq!(clean_comments("a\n// b\nd\n", Language::Rust), "a\n\nd\n");
}
