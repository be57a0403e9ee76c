use explore_table::classify::classify;
use explore_table::error::ProfileError;
use explore_table::rows::Cell;
use explore_table::stats::{
    decode_comment, decode_distinct_count, decode_min_max, decode_row_count, decode_top_values,
    needs_min_max, needs_top_values, ColumnStats,
};

fn text(s: &str) -> Cell {
    Cell::Text(s.to_string())
}

fn counted(value: &str, count: i64) -> Vec<Cell> {
    vec![text(value), Cell::BigInt(count)]
}

#[test]
fn empty_stats_hold_nothing() {
    let s = ColumnStats::empty();
    assert_eq!(s.distinct_count, None);
    assert!(s.min_max.is_none());
    assert!(s.top_values.is_empty());
}

#[test]
fn row_count_is_the_first_cell() {
    assert_eq!(decode_row_count(&vec![vec![Cell::BigInt(4)]]), Ok(4));
    assert_eq!(decode_row_count(&vec![vec![Cell::BigInt(0)]]), Ok(0));
    assert_eq!(decode_row_count(&vec![vec![Cell::BigInt(7), text("x")], vec![Cell::Null]]), Ok(7));
}

#[test]
fn no_row_count_row_means_no_such_table() {
    assert_eq!(decode_row_count(&Vec::new()), Err(ProfileError::TableNotFound));
}

#[test]
fn a_malformed_row_count_is_a_query_error() {
    assert_eq!(decode_row_count(&vec![Vec::new()]), Err(ProfileError::QueryError));
    assert_eq!(decode_row_count(&vec![vec![Cell::Int(4)]]), Err(ProfileError::QueryError));
    assert_eq!(decode_row_count(&vec![vec![Cell::Null]]), Err(ProfileError::QueryError));
    assert_eq!(decode_row_count(&vec![vec![Cell::BigInt(-1)]]), Err(ProfileError::QueryError));
}

#[test]
fn distinct_count_is_the_first_cell() {
    assert_eq!(decode_distinct_count(&vec![vec![Cell::BigInt(2)]]), Ok(2));
    assert_eq!(decode_distinct_count(&vec![vec![Cell::BigInt(0)]]), Ok(0));
}

#[test]
fn a_malformed_distinct_count_is_a_query_error() {
    assert_eq!(decode_distinct_count(&Vec::new()), Err(ProfileError::QueryError));
    assert_eq!(decode_distinct_count(&vec![vec![text("2")]]), Err(ProfileError::QueryError));
    assert_eq!(decode_distinct_count(&vec![vec![Cell::BigInt(-5)]]), Err(ProfileError::QueryError));
}

#[test]
fn min_and_max_are_read_as_text_or_null() {
    let r = decode_min_max(&vec![vec![text("1.00"), text("2.00")]]).unwrap();
    assert_eq!(r, (Some("1.00".to_string()), Some("2.00".to_string())));
    let r = decode_min_max(&vec![vec![Cell::Null, Cell::Null]]).unwrap();
    assert_eq!(r, (None, None));
}

#[test]
fn a_malformed_min_max_is_a_query_error() {
    assert!(matches!(decode_min_max(&Vec::new()), Err(ProfileError::QueryError)));
    assert!(matches!(decode_min_max(&vec![vec![text("1")]]), Err(ProfileError::QueryError)));
    assert!(matches!(
        decode_min_max(&vec![vec![Cell::BigInt(1), Cell::BigInt(2)]]),
        Err(ProfileError::QueryError)
    ));
}

#[test]
fn top_values_keep_their_order() {
    let rows = vec![counted("true", 2), counted("false", 1), counted("", 1)];
    let values = decode_top_values(&rows).unwrap();
    assert_eq!(
        values,
        vec![
            (Some("true".to_string()), 2),
            (Some("false".to_string()), 1),
            (Some(String::new()), 1)
        ]
    );
}

#[test]
fn a_null_among_the_top_values_is_refused() {
    let rows = vec![counted("true", 2), vec![Cell::Null, Cell::BigInt(1)], counted("false", 1)];
    assert!(matches!(decode_top_values(&rows), Err(ProfileError::QueryError)));
    let rows = vec![vec![Cell::Null, Cell::BigInt(1)]];
    assert!(matches!(decode_top_values(&rows), Err(ProfileError::QueryError)));
}

#[test]
fn no_top_values_is_an_empty_list() {
    assert_eq!(decode_top_values(&Vec::new()).unwrap(), Vec::new());
}

#[test]
fn ten_top_values_are_accepted_and_eleven_refused() {
    let mut rows = Vec::new();
    for i in 0..10 {
        rows.push(counted("v", 100 - i));
    }
    assert_eq!(decode_top_values(&rows).unwrap().len(), 10);
    rows.push(counted("w", 1));
    assert!(matches!(decode_top_values(&rows), Err(ProfileError::QueryError)));
}

#[test]
fn top_values_with_rising_counts_are_refused() {
    let rows = vec![counted("a", 1), counted("b", 2)];
    assert!(matches!(decode_top_values(&rows), Err(ProfileError::QueryError)));
    let rows = vec![counted("a", 5), counted("b", 5), counted("c", 6)];
    assert!(matches!(decode_top_values(&rows), Err(ProfileError::QueryError)));
}

#[test]
fn equal_counts_are_in_order() {
    let rows = vec![counted("b", 5), counted("a", 5)];
    assert_eq!(decode_top_values(&rows).unwrap().len(), 2);
}

#[test]
fn a_malformed_top_value_is_a_query_error() {
    assert!(matches!(decode_top_values(&vec![vec![text("a")]]), Err(ProfileError::QueryError)));
    assert!(matches!(
        decode_top_values(&vec![vec![text("a"), Cell::Int(1)]]),
        Err(ProfileError::QueryError)
    ));
    assert!(matches!(
        decode_top_values(&vec![vec![Cell::BigInt(1), Cell::BigInt(1)]]),
        Err(ProfileError::QueryError)
    ));
}

#[test]
fn a_comment_may_be_absent() {
    assert_eq!(decode_comment(&Vec::new()), Ok(None));
    assert_eq!(decode_comment(&vec![vec![Cell::Null]]), Ok(None));
    assert_eq!(decode_comment(&vec![vec![text("net price")]]), Ok(Some("net price".to_string())));
}

#[test]
fn a_malformed_comment_is_a_query_error() {
    assert_eq!(decode_comment(&vec![Vec::new()]), Err(ProfileError::QueryError));
    assert_eq!(decode_comment(&vec![vec![Cell::Int(1)]]), Err(ProfileError::QueryError));
}

#[test]
fn min_max_is_asked_above_ten_distinct_values() {
    let both = classify("text", None, None, None, None).unwrap();
    assert!(!needs_min_max(&both, 0));
    assert!(!needs_min_max(&both, 1));
    assert!(!needs_min_max(&both, 10));
    assert!(needs_min_max(&both, 11));
    assert!(needs_min_max(&both, i64::MAX));
}

#[test]
fn min_max_is_asked_where_values_are_not_listed() {
    let date = classify("date", None, None, None, None).unwrap();
    assert!(!needs_min_max(&date, 0));
    assert!(needs_min_max(&date, 1));
    assert!(needs_min_max(&date, 11));
}

#[test]
fn min_max_is_never_asked_against_the_policy() {
    let boolean = classify("boolean", None, None, None, None).unwrap();
    assert!(!needs_min_max(&boolean, 2));
    assert!(!needs_min_max(&boolean, 11));
    let custom = classify("USER-DEFINED", None, None, None, None).unwrap();
    assert!(!needs_min_max(&custom, 5));
    assert!(!needs_top_values(&custom, 5));
}

#[test]
fn top_values_are_asked_for_columns_with_values() {
    let both = classify("text", None, None, None, None).unwrap();
    assert!(!needs_top_values(&both, 0));
    assert!(needs_top_values(&both, 1));
    assert!(needs_top_values(&both, 5000));
    let date = classify("date", None, None, None, None).unwrap();
    assert!(!needs_top_values(&date, 3));
}
