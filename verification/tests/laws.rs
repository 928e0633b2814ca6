use cclean::cleaner::{
    clean_basic_comments, clean_c_style_comments, clean_comments, clean_css_comments,
    clean_empty_lines, clean_html_comments, clean_php_comments, clean_python_comments,
};
use cclean::language::Language;

const LANGUAGES: [Language; 11] = [
    Language::C,
    Language::Cpp,
    Language::Java,
    Language::JavaScript,
    Language::TypeScript,
    Language::Python,
    Language::Html,
    Language::Css,
    Language::Php,
    Language::Rust,
    Language::Basic,
];

const SAMPLES: [&str; 24] = [
    "",
    "\n",
    "a",
    "a // b\nc /* d */ e\n",
    "s = \"// a\" + '/* b */' + `c // d`; // e",
    "x = /[/]\\// / 2 // y",
    "x = 1 # a\n\"\"\"doc\"\"\"\ny = '''kept''' # b\n",
    "a = 1 + \\\n    2\n",
    "<!-- a --><script>b; // c\n</script><style>d /* e */</style>",
    "<script>x</script><!-- <script>x</script> -->",
    "$a = 'b'; # c\n// d\n/* e */ \\f",
    "REM a\nx = 1 ' b\ns = \"REM c\"\n",
    "a\n\n\n\nb\r\n\r\n\r\nc",
    "\"unterminated \\",
    "/* unterminated",
    "'''unterminated",
    "x = '''unterminated \\",
    "/",
    "\\",
    "é // ü\n\u{2003}\n\u{3000}\nπ",
    "a /*/ b */ c",
    "\"\"\"\"\"\"\"",
    "rem\trem\nREMREM x",
    "a\r\r\nb",
];

fn length(text: &str) -> usize {
    text.chars().count()
}

#[test]
fn cleaned_text_is_never_longer() {
    for sample in SAMPLES {
        for language in LANGUAGES {
            let cleaned = clean_comments(sample, language);
            assert!(length(&cleaned) <= length(sample), "{:?} {:?}", language, sample);
            assert!(cleaned.len() <= sample.len(), "{:?} {:?}", language, sample);
        }
        assert!(length(&clean_empty_lines(sample)) <= length(sample));
        assert!(length(&clean_c_style_comments(sample)) <= length(sample));
        assert!(length(&clean_python_comments(sample)) <= length(sample));
        assert!(length(&clean_html_comments(sample)) <= length(sample));
        assert!(length(&clean_css_comments(sample)) <= length(sample));
        assert!(length(&clean_php_comments(sample)) <= length(sample));
        assert!(length(&clean_basic_comments(sample)) <= length(sample));
    }
}

#[test]
fn cleaned_length_on_given_texts() {
    assert_eq!(length(&clean_comments("a // b\n\n\nc", Language::C)), 5);
    assert_eq!(length(&clean_comments("abc", Language::C)), 3);
    assert_eq!(length(&clean_comments("# a", Language::Python)), 0);
}

#[test]
fn literals_pass_through_every_scanner_unbroken() {
    let literal = "\"a // b /* c */ # d ' e \\\" f\"";
    assert!(clean_c_style_comments(&format!("x = {}; // y", literal)).contains(literal));
    assert!(clean_python_comments(&format!("x = {} # y", literal)).contains(literal));
    assert!(clean_css_comments(&format!("x: {}; /* y */", literal)).contains(literal));
    assert!(clean_php_comments(&format!("$x = {}; # y", literal)).contains(literal));
    let plain = "\"a // b /* c */ # d ' e REM f\"";
    assert!(clean_basic_comments(&format!("x = {} ' y", plain)).contains(plain));
    let regex = "/a[/*]\\/\\/b/";
    assert!(clean_c_style_comments(&format!("x = {}; // y", regex)).contains(regex));
    let template = "`a // b\n/* c */`";
    assert!(clean_c_style_comments(&format!("x = {}; // y", template)).contains(template));
    let character = "'\\''";
    assert!(clean_c_style_comments(&format!("x = {} + '/'; // y", character)).contains(character));
    let block = "'''a # b\n\\''' c'''";
    assert!(clean_python_comments(&format!("x = {} # y", block)).contains(block));
}

#[test]
fn literal_is_copied_at_its_place() {
    assert_eq!(clean_c_style_comments("/* a */\"b // c\"/* d */"), "\"b // c\"");
    assert_eq!(clean_python_comments("# a\nx = '# b'# c"), "\nx = '# b'");
}

#[test]
fn cleaning_twice_changes_nothing_where_no_marker_is_left() {
    let cases = [
        ("a = 5; // c\n\n\n\nb = 6; /* d */\n", Language::C),
        ("int x; /* a\nb */\n// c\n// d\nint y;", Language::Cpp),
        ("x = 5  # c\n\"\"\"doc\"\"\"\n\n\ny = 10\n", Language::Python),
        ("a { /* b */ c: d; }\n\n\n/* e */", Language::Css),
        ("$a = 1; // b\n# c\n/* d */\n$e;", Language::Php),
        ("x = 1 ' a\nREM b\n\n\ny = 2", Language::Basic),
        ("<!-- a -->\n\n\n<p>b</p>\n<script>c; // d\n</script>", Language::Html),
        ("", Language::Rust),
        ("\n\n\n", Language::Java),
    ];
    for (text, language) in cases {
        let once = clean_comments(text, language);
        let twice = clean_comments(&once, language);
        assert_eq!(twice, once, "{:?} {:?}", language, text);
    }
}

#[test]
fn collapsing_twice_changes_nothing_without_carriage_returns() {
    for sample in SAMPLES {
        let once = clean_empty_lines(sample);
        if !once.contains("\r\n") {
            assert_eq!(clean_empty_lines(&once), once, "{:?}", sample);
        }
    }
}

#[test]
fn carriage_return_before_a_line_ending_goes_the_second_time() {
    let once = clean_comments("a\r\r\nb", Language::C);
    assert_eq!(once, "a\r\nb");
    assert_eq!(clean_comments(&once, Language::C), "a\nb");
}

#[test]
fn marker_made_by_a_removal_is_found_the_second_time() {
    let once = clean_comments("//* c */* d */ e", Language::Css);
    assert_eq!(once, "/* d */ e");
    assert_eq!(clean_comments(&once, Language::Css), " e");
}

#[test]
fn slash_left_after_a_regex_opens_no_comment() {
    let once = clean_comments("x = /a//* b *// c", Language::JavaScript);
    assert_eq!(once, "x = /a// c");
    assert_eq!(clean_comments(&once, Language::JavaScript), once);
}

#[test]
fn blank_lines_inside_a_literal_are_collapsed_too() {
    assert_eq!(clean_c_style_comments("s = `a\n\n\nb`;"), "s = `a\n\n\nb`;");
    assert_eq!(clean_comments("s = `a\n\n\nb`;", Language::JavaScript), "s = `a\n\nb`;");
}
