//! The save comparison and the load split.

use remacs::buffer::{count_changed_lines, split_lines};
use remacs::text::str_to_chars;

fn lines(strs: &[&str]) -> Vec<Vec<char>> {
    strs.iter().map(|s| str_to_chars(s)).collect()
}

#[test]
fn identical_buffers_report_zero_changes() {
    let a = lines(&["one", "two", "three"]);
    let b = lines(&["one", "two", "three"]);
    assert_eq!(count_changed_lines(&a, &b), 0);
}

#[test]
fn saving_unchanged_content_twice_reports_zero() {
    // first save: nothing on disk yet, every line counts as changed
    let buf = lines(&["alpha", "beta"]);
    let on_disk = lines(&[]);
    assert_eq!(count_changed_lines(&buf, &on_disk), 2);
    // after the write the file holds the buffer; a second save of the
    // same content reports zero changed lines, so no write happens
    let on_disk = lines(&["alpha", "beta"]);
    assert_eq!(count_changed_lines(&buf, &on_disk), 0);
    assert_eq!(count_changed_lines(&buf, &on_disk), 0);
}

#[test]
fn trailing_whitespace_does_not_count_as_change() {
    let a = lines(&["code here   ", "next\t"]);
    let b = lines(&["code here", "next"]);
    assert_eq!(count_changed_lines(&a, &b), 0);
    // leading whitespace does
    let c = lines(&["   code here", "next"]);
    assert_eq!(count_changed_lines(&c, &b), 1);
}

#[test]
fn length_difference_counts_extra_positions() {
    let a = lines(&["one", "two", "three", "four"]);
    let b = lines(&["one", "zwei"]);
    assert_eq!(count_changed_lines(&a, &b), 3);
    assert_eq!(count_changed_lines(&b, &a), 3);
}

#[test]
fn changed_middle_line_counts_once() {
    let a = lines(&["one", "two", "three"]);
    let b = lines(&["one", "TWO", "three"]);
    assert_eq!(count_changed_lines(&a, &b), 1);
}

#[test]
fn split_lines_basic() {
    assert_eq!(split_lines("a\nb"), vec!["a", "b"]);
    assert_eq!(split_lines("a\nb\n"), vec!["a", "b"]);
    assert_eq!(split_lines(""), Vec::<String>::new());
    assert_eq!(split_lines("\n"), vec![""]);
    assert_eq!(split_lines("one\n\ntwo"), vec!["one", "", "two"]);
}

#[test]
fn split_lines_strips_carriage_return_before_newline_only() {
    assert_eq!(split_lines("a\r\nb\r\n"), vec!["a", "b"]);
    assert_eq!(split_lines("a\rb"), vec!["a\rb"]);
    assert_eq!(split_lines("tail\r"), vec!["tail\r"]);
}
