use explore_table::formatter::{clip, preview_text, preview_value, printable, CUTOFF};

fn repeated(c: char, n: usize) -> String {
    let mut s = String::new();
    for _ in 0..n {
        s.push(c);
    }
    s
}

#[test]
fn cutoff_is_seventy_characters() {
    assert_eq!(CUTOFF, 70);
}

#[test]
fn missing_value_reads_null() {
    assert_eq!(printable(None), "null");
}

#[test]
fn empty_text_reads_empty_string() {
    assert_eq!(printable(Some(String::new())), "(empty string)");
}

#[test]
fn blank_text_reads_empty_string() {
    assert_eq!(printable(Some("  ".to_string())), "(empty string)");
    assert_eq!(printable(Some(" \t\r\n ".to_string())), "(empty string)");
}

#[test]
fn the_text_null_is_not_a_missing_value() {
    assert_eq!(printable(Some("null".to_string())), "null");
    assert_eq!(printable(Some("(empty string)".to_string())), "(empty string)");
}

#[test]
fn short_plain_text_is_kept() {
    assert_eq!(printable(Some("hello".to_string())), "hello");
    assert_eq!(printable(Some("a b  c".to_string())), "a b  c");
}

#[test]
fn whitespace_is_trimmed_at_both_ends() {
    assert_eq!(printable(Some("  hello \t".to_string())), "hello");
    assert_eq!(printable(Some("\n\nhello\n".to_string())), "hello");
    assert_eq!(printable(Some("\u{a0}x\u{3000}".to_string())), "x");
}

#[test]
fn text_that_is_not_whitespace_is_not_trimmed() {
    assert_eq!(printable(Some("_x_".to_string())), "_x_");
    assert_eq!(printable(Some("\u{200b}x".to_string())), "\u{200b}x");
}

#[test]
fn inner_newlines_are_escaped() {
    assert_eq!(printable(Some("a\nb".to_string())), "a\\nb");
    assert_eq!(printable(Some(" a\n\nb\n".to_string())), "a\\n\\nb");
    assert_eq!(printable(Some("a\\nb".to_string())), "a\\nb");
}

#[test]
fn carriage_return_is_left_alone() {
    assert_eq!(printable(Some("a\r\nb".to_string())), "a\r\\nb");
}

#[test]
fn text_of_cutoff_length_is_kept() {
    let s = repeated('x', 70);
    assert_eq!(printable(Some(s.clone())), s);
}

#[test]
fn text_over_cutoff_is_cut() {
    let s = repeated('x', 71);
    let shown = printable(Some(s));
    assert_eq!(shown, repeated('x', 70) + "..");
    assert_eq!(shown.chars().count(), 72);
}

#[test]
fn much_longer_text_is_cut_to_the_same_length() {
    let mut s = String::from("abc");
    s.push_str(&repeated('y', 5000));
    let shown = printable(Some(s));
    assert_eq!(shown, String::from("abc") + &repeated('y', 67) + "..");
}

#[test]
fn length_is_counted_in_characters() {
    let s = repeated('\u{e9}', 40);
    assert!(s.len() > 70);
    assert_eq!(printable(Some(s.clone())), s);
    let long = repeated('\u{e9}', 71);
    let shown = printable(Some(long));
    assert_eq!(shown, repeated('\u{e9}', 70) + "..");
    assert_eq!(shown.chars().count(), 72);
}

#[test]
fn trimming_comes_before_the_cut() {
    let mut s = repeated(' ', 50);
    s.push_str(&repeated('z', 70));
    s.push_str(&repeated(' ', 50));
    assert_eq!(printable(Some(s)), repeated('z', 70));
}

#[test]
fn long_blank_text_reads_empty_string() {
    assert_eq!(printable(Some(repeated(' ', 71))), "(empty string)");
}

#[test]
fn escaping_counts_toward_the_cutoff() {
    let mut s = repeated('a', 69);
    s.push('\n');
    s.push('b');
    let shown = printable(Some(s));
    assert_eq!(shown, repeated('a', 69) + "\\..");
    assert_eq!(shown.chars().count(), 72);
}

#[test]
fn preview_of_borrowed_values() {
    assert_eq!(preview_value(&None), "null");
    assert_eq!(preview_value(&Some(" x ".to_string())), "x");
    assert_eq!(preview_text(" x\ny "), "x\\ny");
    assert_eq!(preview_text(""), "(empty string)");
}

#[test]
fn clip_takes_the_text_as_it_is() {
    assert_eq!(clip(&Vec::new()), "(empty string)");
    assert_eq!(clip(&vec![' ', 'a', '\n']), " a\n");
    let long: Vec<char> = repeated('q', 80).chars().collect();
    assert_eq!(clip(&long), repeated('q', 70) + "..");
}
