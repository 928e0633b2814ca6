use cclean::cleaner::{clean_comments, clean_empty_lines};
use cclean::language::Language;

#[test]
fn three_blank_lines_become_one() {
    assert_eq!(clean_empty_lines("a\n\n\n\nb"), "a\n\nb");
    assert_eq!(clean_comments("a\n\n\n\nb", Language::C), "a\n\nb");
}

#[test]
fn a_single_blank_line_stays() {
    assert_eq!(clean_empty_lines("a\n\nb"), "a\n\nb");
    assert_eq!(clean_comments("a\n\nb", Language::Python), "a\n\nb");
}

#[test]
fn text_without_blank_lines_stays() {
    assert_eq!(clean_empty_lines("a\nb\nc"), "a\nb\nc");
    assert_eq!(clean_empty_lines("a"), "a");
    assert_eq!(clean_empty_lines(""), "");
}

#[test]
fn trailing_newline_is_kept_if_and_only_if_given() {
    assert_eq!(clean_empty_lines("a\nb\n"), "a\nb\n");
    assert_eq!(clean_empty_lines("a\nb"), "a\nb");
    assert_eq!(clean_empty_lines("\n"), "\n");
    assert_eq!(clean_empty_lines("a\n\n"), "a\n\n");
    assert_eq!(clean_empty_lines("a\n\n\n"), "a\n\n");
    assert_eq!(clean_empty_lines("\n\n\n"), "\n");
}

#[test]
fn whitespace_lines_are_blank_and_the_first_of_a_run_stays_as_it_is() {
    assert_eq!(clean_empty_lines("a\n  \n\t\n\nb"), "a\n  \nb");
    assert_eq!(clean_empty_lines("a\n\n \nb"), "a\n\nb");
    assert_eq!(clean_empty_lines("a\n\u{a0}\n\u{3000}\nb"), "a\n\u{a0}\nb");
}

#[test]
fn blank_lines_at_the_start_collapse_too() {
    assert_eq!(clean_empty_lines("\n\na"), "\na");
    assert_eq!(clean_empty_lines(" \n\n\na\n"), " \na\n");
}

#[test]
fn blank_run_at_the_end_without_newline() {
    assert_eq!(clean_empty_lines("a\n\n "), "a\n");
    assert_eq!(clean_empty_lines("a\n \n "), "a\n ");
    assert_eq!(clean_empty_lines("\n "), "");
}

#[test]
fn separate_runs_collapse_separately() {
    assert_eq!(clean_empty_lines("a\n\n\nb\n\n\n\nc\n"), "a\n\nb\n\nc\n");
}

#[test]
fn carriage_return_before_newline_belongs_to_the_line_ending() {
    assert_eq!(clean_empty_lines("a\r\nb\r\n"), "a\nb\n");
    assert_eq!(clean_empty_lines("a\r\n\r\n\r\nb"), "a\n\nb");
    assert_eq!(clean_empty_lines("a\r"), "a\r");
    assert_eq!(clean_empty_lines("a\rb\n"), "a\rb\n");
    assert_eq!(clean_empty_lines("a\r\r\n"), "a\r\n");
}

#[test]
fn zero_width_space_is_no_whitespace() {
    assert_eq!(clean_empty_lines("a\n\u{200b}\n\u{200b}\nb"), "a\n\u{200b}\n\u{200b}\nb");
}

#[test]
fn agrees_with_the_lines_of_std() {
    let samples = [
        "", "\n", "\r\n", "a", "a\n", "a\r\n", "a\n\n", "\n\n", "a\n\nb", "a\r\n\r\n\r\nb\r\n",
        " \n \n \n", "a\n \n\n\t\nb\n\n\nc", "\r", "\r\r\n", "a\n\r\n\n", "\n \n\na\n\n",
    ];
    for sample in samples {
        let mut kept: Vec<&str> = Vec::new();
        let mut previous_blank = false;
        for line in sample.lines() {
            let blank = line.trim().is_empty();
            if !(blank && previous_blank) {
                kept.push(line);
            }
            previous_blank = blank;
        }
        let mut expected = kept.join("\n");
        if sample.ends_with('\n') {
            expected.push('\n');
        }
        assert_eq!(clean_empty_lines(sample), expected);
    }
}
