use explore_table::text::{
    blank_flags, chars_of, ink_bounds, push_decimal, push_padded, same_text, trim_bounds,
};

fn decimal_of(n: i64) -> String {
    let mut out = String::new();
    push_decimal(&mut out, n);
    out
}

fn padded_to(t: &str, width: usize) -> String {
    let mut out = String::from(">");
    push_padded(&mut out, t, width);
    out
}

#[test]
fn chars_of_gives_the_characters_in_order() {
    assert_eq!(chars_of(""), Vec::<char>::new());
    assert_eq!(chars_of("a\u{e9}z"), vec!['a', '\u{e9}', 'z']);
}

#[test]
fn trim_bounds_of_padded_text() {
    assert_eq!(trim_bounds(&chars_of("  ab c \n")), (2, 6));
}

#[test]
fn trim_bounds_of_plain_text() {
    assert_eq!(trim_bounds(&chars_of("abc")), (0, 3));
}

#[test]
fn trim_bounds_of_blank_and_empty_text() {
    assert_eq!(trim_bounds(&chars_of("   ")), (3, 3));
    assert_eq!(trim_bounds(&chars_of("")), (0, 0));
}

#[test]
fn decimal_of_small_numbers() {
    assert_eq!(decimal_of(0), "0");
    assert_eq!(decimal_of(7), "7");
    assert_eq!(decimal_of(10), "10");
    assert_eq!(decimal_of(1234567890), "1234567890");
}

#[test]
fn decimal_of_negative_numbers() {
    assert_eq!(decimal_of(-1), "-1");
    assert_eq!(decimal_of(-120), "-120");
}

#[test]
fn decimal_of_the_extremes() {
    assert_eq!(decimal_of(i64::MAX), "9223372036854775807");
    assert_eq!(decimal_of(i64::MIN), "-9223372036854775808");
}

#[test]
fn decimal_is_appended() {
    let mut out = String::from("n=");
    push_decimal(&mut out, 42);
    assert_eq!(out, "n=42");
}

#[test]
fn padding_fills_on_the_left() {
    assert_eq!(padded_to("42", 8), ">      42");
    assert_eq!(padded_to("", 3), ">   ");
}

#[test]
fn padding_leaves_wide_text_alone() {
    assert_eq!(padded_to("12345678", 8), ">12345678");
    assert_eq!(padded_to("123456789", 8), ">123456789");
    assert_eq!(padded_to("x", 0), ">x");
}

#[test]
fn padding_counts_characters() {
    assert_eq!(padded_to("\u{e9}\u{e9}", 4), ">  \u{e9}\u{e9}");
}

#[test]
fn blank_flags_mark_whitespace() {
    assert_eq!(blank_flags(&chars_of(" a\tb\n")), vec![true, false, true, false, true]);
    assert_eq!(blank_flags(&chars_of("\u{a0}_\u{2003}")), vec![true, false, true]);
    assert_eq!(blank_flags(&Vec::new()), Vec::<bool>::new());
}

#[test]
fn ink_bounds_drop_blank_ends() {
    assert_eq!(ink_bounds(&vec![true, true, false, true, false, true]), (2, 5));
    assert_eq!(ink_bounds(&vec![false]), (0, 1));
    assert_eq!(ink_bounds(&vec![true, true]), (2, 2));
    assert_eq!(ink_bounds(&Vec::new()), (0, 0));
}

#[test]
fn whitespace_is_the_unicode_white_space_property() {
    let listed = |c: char| {
        let n = c as u32;
        (0x9..=0xd).contains(&n)
            || n == 0x20
            || n == 0x85
            || n == 0xa0
            || n == 0x1680
            || (0x2000..=0x200a).contains(&n)
            || n == 0x2028
            || n == 0x2029
            || n == 0x202f
            || n == 0x205f
            || n == 0x3000
    };
    let mut all: Vec<char> = Vec::new();
    for n in 0..=0x10ffffu32 {
        if let Some(c) = char::from_u32(n) {
            all.push(c);
        }
    }
    let flags = blank_flags(&all);
    assert_eq!(flags.len(), all.len());
    let mut blank = 0;
    for (c, flag) in all.iter().zip(flags.iter()) {
        assert_eq!(*flag, listed(*c));
        if *flag {
            blank += 1;
        }
    }
    assert_eq!(blank, 25);
}

#[test]
fn same_text_compares_characters() {
    assert!(same_text("", ""));
    assert!(same_text("abc", "abc"));
    assert!(same_text("stra\u{df}e", "stra\u{df}e"));
    assert!(!same_text("abc", "abd"));
    assert!(!same_text("abc", "ab"));
    assert!(!same_text("", "a"));
    assert!(!same_text("Abc", "abc"));
}
