use explore_table::catalog::{decode_column, decode_columns};
use explore_table::error::ProfileError;
use explore_table::rows::Cell;

fn text(s: &str) -> Cell {
    Cell::Text(s.to_string())
}

fn catalog_row(name: &str, declared: &str, position: i32) -> Vec<Cell> {
    vec![text(name), text(declared), Cell::Null, Cell::Null, Cell::Null, Cell::Int(position), Cell::Null]
}

#[test]
fn a_catalog_row_is_read_by_position() {
    let row = vec![
        text("price"),
        text("numeric"),
        Cell::Null,
        Cell::Int(10),
        Cell::Int(2),
        Cell::Int(4),
        text("numeric"),
    ];
    let c = decode_column(&row).unwrap();
    assert_eq!(c.name, "price");
    assert_eq!(c.declared_type, "numeric");
    assert_eq!(c.max_char_length, None);
    assert_eq!(c.numeric_precision, Some(10));
    assert_eq!(c.numeric_scale, Some(2));
    assert_eq!(c.ordinal_position, 4);
    assert_eq!(c.underlying_type_name, Some("numeric".to_string()));
}

#[test]
fn cells_beyond_the_seventh_are_ignored() {
    let mut row = catalog_row("a", "text", 1);
    row.push(Cell::BigInt(9));
    assert!(decode_column(&row).is_some());
}

#[test]
fn a_short_catalog_row_is_refused() {
    let mut row = catalog_row("a", "text", 1);
    row.pop();
    assert!(decode_column(&row).is_none());
    assert!(decode_column(&Vec::new()).is_none());
}

#[test]
fn a_cell_of_the_wrong_type_is_refused() {
    let mut row = catalog_row("a", "text", 1);
    row[0] = Cell::Null;
    assert!(decode_column(&row).is_none());
    let mut row = catalog_row("a", "text", 1);
    row[2] = Cell::BigInt(5);
    assert!(decode_column(&row).is_none());
    let mut row = catalog_row("a", "text", 1);
    row[5] = Cell::Null;
    assert!(decode_column(&row).is_none());
    let mut row = catalog_row("a", "text", 1);
    row[6] = Cell::Int(1);
    assert!(decode_column(&row).is_none());
}

#[test]
fn positions_start_at_one() {
    assert!(decode_column(&catalog_row("a", "text", 0)).is_none());
    assert!(decode_column(&catalog_row("a", "text", -3)).is_none());
    assert!(decode_column(&catalog_row("a", "text", 1)).is_some());
}

#[test]
fn an_empty_catalog_means_no_such_table() {
    assert!(matches!(decode_columns(&Vec::new()), Err(ProfileError::TableNotFound)));
}

#[test]
fn columns_come_out_in_catalog_order() {
    let rows = vec![catalog_row("a", "text", 1), catalog_row("b", "date", 2), catalog_row("c", "text", 5)];
    let columns = decode_columns(&rows).unwrap();
    assert_eq!(columns.len(), 3);
    assert_eq!(columns[0].name, "a");
    assert_eq!(columns[1].name, "b");
    assert_eq!(columns[1].declared_type, "date");
    assert_eq!(columns[2].name, "c");
    assert_eq!(columns[2].ordinal_position, 5);
}

#[test]
fn a_malformed_row_fails_the_catalog() {
    let rows = vec![catalog_row("a", "text", 1), vec![text("b")]];
    assert!(matches!(decode_columns(&rows), Err(ProfileError::QueryError)));
}

#[test]
fn positions_out_of_order_fail_the_catalog() {
    let rows = vec![catalog_row("a", "text", 2), catalog_row("b", "text", 1)];
    assert!(matches!(decode_columns(&rows), Err(ProfileError::QueryError)));
}

#[test]
fn a_repeated_position_fails_the_catalog() {
    let rows = vec![catalog_row("a", "text", 1), catalog_row("b", "text", 1)];
    assert!(matches!(decode_columns(&rows), Err(ProfileError::QueryError)));
}

#[test]
fn a_repeated_name_fails_the_catalog() {
    let rows = vec![catalog_row("a", "text", 1), catalog_row("b", "text", 2), catalog_row("a", "date", 3)];
    assert!(matches!(decode_columns(&rows), Err(ProfileError::QueryError)));
}
