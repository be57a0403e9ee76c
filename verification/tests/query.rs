use explore_table::error::QueryKind;
use explore_table::query::{Param, Query, TOP_VALUES};

#[test]
fn row_count_query_text() {
    let q = Query::row_count("public", "orders");
    assert_eq!(q.kind, QueryKind::RowCount);
    assert_eq!(q.sql, "select count(*) from public.orders");
    assert!(q.params.is_empty());
}

#[test]
fn catalog_query_binds_schema_and_table() {
    let q = Query::catalog("public", "orders");
    assert_eq!(q.kind, QueryKind::Catalog);
    assert_eq!(
        q.sql,
        "select column_name, data_type, character_maximum_length, numeric_precision, \
         numeric_scale, ordinal_position, udt_name from information_schema.columns where \
         lower(table_schema)=lower($1) and lower(table_name)=lower($2) order by ordinal_position"
    );
    assert_eq!(q.params.len(), 2);
    assert!(matches!(&q.params[0], Param::Text(s) if s == "public"));
    assert!(matches!(&q.params[1], Param::Text(s) if s == "orders"));
}

#[test]
fn distinct_count_query_text() {
    let q = Query::distinct_count("public", "orders", "status");
    assert_eq!(q.kind, QueryKind::DistinctCount);
    assert_eq!(q.sql, "select count(distinct(\"status\")) from public.orders");
    assert!(q.params.is_empty());
}

#[test]
fn min_max_query_text() {
    let q = Query::min_max("s", "t", "c");
    assert_eq!(q.kind, QueryKind::MinMax);
    assert_eq!(q.sql, "select min(\"c\")::text, max(\"c\")::text from s.t");
    assert!(q.params.is_empty());
}

#[test]
fn top_values_query_text() {
    let q = Query::top_values("s", "t", "c");
    assert_eq!(q.kind, QueryKind::TopValues);
    assert_eq!(
        q.sql,
        "select v::text, c from (select distinct \"c\" as v, count(*) as c from s.t where \"c\" \
         is not null group by 1 order by 2 desc, 1 desc limit 10) as preview"
    );
    assert!(q.params.is_empty());
    assert_eq!(TOP_VALUES, 10);
}

#[test]
fn comment_query_binds_the_position() {
    let q = Query::comment("s", "t", 3);
    assert_eq!(q.kind, QueryKind::Comment);
    assert_eq!(q.sql, "select pg_catalog.col_description('s.t'::regclass::oid, $1)");
    assert_eq!(q.params.len(), 1);
    assert!(matches!(q.params[0], Param::Int(3)));
}

#[test]
fn names_that_are_not_plain_are_quoted() {
    let q = Query::row_count("my schema", "t; drop table x");
    assert_eq!(q.sql, "select count(*) from \"my schema\".\"t; drop table x\"");
    let q = Query::distinct_count("public", "Orders", "a\"b");
    assert_eq!(q.sql, "select count(distinct(\"a\"\"b\")) from public.Orders");
}

#[test]
fn catalog_query_binds_names_as_they_are() {
    let q = Query::catalog("my schema", "o'neil");
    assert!(matches!(&q.params[0], Param::Text(s) if s == "my schema"));
    assert!(matches!(&q.params[1], Param::Text(s) if s == "o'neil"));
}

#[test]
fn comment_query_doubles_single_quotes() {
    let q = Query::comment("public", "o'neil", 2);
    assert_eq!(
        q.sql,
        "select pg_catalog.col_description('public.\"o''neil\"'::regclass::oid, $1)"
    );
    assert!(matches!(q.params[0], Param::Int(2)));
}
