use explore_table::rows::Cell;

#[test]
fn text_cells_give_their_text() {
    assert_eq!(Cell::Text("abc".to_string()).text(), Some("abc".to_string()));
    assert_eq!(Cell::Null.text(), None);
    assert_eq!(Cell::Int(1).text(), None);
}

#[test]
fn optional_text_accepts_null() {
    assert_eq!(Cell::Text("abc".to_string()).optional_text(), Some(Some("abc".to_string())));
    assert_eq!(Cell::Null.optional_text(), Some(None));
    assert_eq!(Cell::BigInt(1).optional_text(), None);
}

#[test]
fn integer_cells_give_their_number() {
    assert_eq!(Cell::Int(-7).int4(), Some(-7));
    assert_eq!(Cell::BigInt(7).int4(), None);
    assert_eq!(Cell::Null.int4(), None);
    assert_eq!(Cell::Int(7).optional_int4(), Some(Some(7)));
    assert_eq!(Cell::Null.optional_int4(), Some(None));
    assert_eq!(Cell::Text("7".to_string()).optional_int4(), None);
}

#[test]
fn big_integer_cells_give_their_number() {
    assert_eq!(Cell::BigInt(1 << 40).int8(), Some(1 << 40));
    assert_eq!(Cell::Int(7).int8(), None);
    assert_eq!(Cell::Null.int8(), None);
}
