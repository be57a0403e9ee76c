use explore_table::identifier::{is_plain_name, push_doubled, push_identifier, qualified_name};

fn chars(s: &str) -> Vec<char> {
    s.chars().collect()
}

fn written(name: &str) -> String {
    let mut out = String::new();
    push_identifier(&mut out, name);
    out
}

fn doubled(s: &str, mark: char) -> String {
    let mut out = String::from("<");
    push_doubled(&mut out, &chars(s), mark);
    out
}

#[test]
fn plain_names() {
    assert!(is_plain_name(&chars("orders")));
    assert!(is_plain_name(&chars("Orders")));
    assert!(is_plain_name(&chars("_t1$x")));
    assert!(is_plain_name(&chars("a")));
}

#[test]
fn names_that_are_not_plain() {
    assert!(!is_plain_name(&chars("")));
    assert!(!is_plain_name(&chars("1st")));
    assert!(!is_plain_name(&chars("$x")));
    assert!(!is_plain_name(&chars("my table")));
    assert!(!is_plain_name(&chars("a.b")));
    assert!(!is_plain_name(&chars("a\"b")));
    assert!(!is_plain_name(&chars("stra\u{df}e")));
    assert!(!is_plain_name(&chars("t;")));
}

#[test]
fn plain_names_stand_as_they_are() {
    assert_eq!(written("orders"), "orders");
    assert_eq!(written("Orders_2"), "Orders_2");
}

#[test]
fn other_names_stand_between_quotes() {
    assert_eq!(written("my table"), "\"my table\"");
    assert_eq!(written(""), "\"\"");
    assert_eq!(written("a\"b"), "\"a\"\"b\"");
    assert_eq!(written("\""), "\"\"\"\"");
    assert_eq!(written("x\"; drop table y; --"), "\"x\"\"; drop table y; --\"");
}

#[test]
fn identifier_is_appended() {
    let mut out = String::from("from ");
    push_identifier(&mut out, "t");
    assert_eq!(out, "from t");
}

#[test]
fn doubling_writes_each_mark_twice() {
    assert_eq!(doubled("", '\''), "<");
    assert_eq!(doubled("abc", '\''), "<abc");
    assert_eq!(doubled("o'neil", '\''), "<o''neil");
    assert_eq!(doubled("''", '\''), "<''''");
    assert_eq!(doubled("a\"b'c", '"'), "<a\"\"b'c");
}

#[test]
fn qualified_names() {
    assert_eq!(qualified_name("public", "orders"), "public.orders");
    assert_eq!(qualified_name("my schema", "orders"), "\"my schema\".orders");
    assert_eq!(qualified_name("s", "a.b"), "s.\"a.b\"");
}
