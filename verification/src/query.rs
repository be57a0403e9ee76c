//! The queries of a profiling run: their text and their bound parameters.
//!
//! Names and values reach a query by two ways. A value that the database
//! compares or computes with is bound as a parameter and never written into
//! the text. A name stands in the text: a column name, which comes from the
//! catalog and is the exact name of the column, stands between double
//! quotes; the names of schema and table, which the caller gives, stand as
//! [`crate::identifier::identifier`] writes them. The name of the table inside the text
//! literal of the comment query is written with each single quote doubled.

use vstd::prelude::*;
use crate::error::QueryKind;
use crate::identifier::{push_doubled, push_identifier, qualified, qualified_name, quoted};
use crate::text::{chars_of, decimal, push_decimal};

verus! {

/// Number of rows that the query for the most frequent values is limited to.
pub const TOP_VALUES: usize = 10;

/// A value bound to a placeholder of a query.
#[derive(Debug)]
pub enum Param {
    Text(String),
    Int(i32),
}

/// A [`Param`] with its text as a sequence of characters.
pub enum ParamView {
    Text(Seq<char>),
    Int(i32),
}

impl View for Param {
    type V = ParamView;

    open spec fn view(&self) -> ParamView {
        match self {
            Param::Text(s) => ParamView::Text(s@),
            Param::Int(n) => ParamView::Int(*n),
        }
    }
}

impl DeepView for Param {
    type V = ParamView;

    open spec fn deep_view(&self) -> ParamView {
        self@
    }
}

/// A query for the executor to run.
#[derive(Debug)]
pub struct Query {
    pub kind: QueryKind,
    pub sql: String,
    pub params: Vec<Param>,
}

/// A [`Query`] over sequences.
pub struct QueryView {
    pub kind: QueryKind,
    pub sql: Seq<char>,
    pub params: Seq<ParamView>,
}

impl View for Query {
    type V = QueryView;

    open spec fn view(&self) -> QueryView {
        QueryView { kind: self.kind, sql: self.sql@, params: self.params.deep_view() }
    }
}

impl DeepView for Query {
    type V = QueryView;

    open spec fn deep_view(&self) -> QueryView {
        self@
    }
}

/// The exact name of a column, as it stands in a query.
pub open spec fn column_ref(column: Seq<char>) -> Seq<char> {
    quoted(column, '"')
}

/// Counts the rows of the table.
pub open spec fn row_count_query(schema: Seq<char>, table: Seq<char>) -> QueryView {
    QueryView {
        kind: QueryKind::RowCount,
        sql: "select count(*) from "@ + qualified(schema, table),
        params: Seq::empty(),
    }
}

/// Lists the columns of the table in ordinal position, matching schema and
/// table name without regard to case.
pub open spec fn catalog_query(schema: Seq<char>, table: Seq<char>) -> QueryView {
    QueryView {
        kind: QueryKind::Catalog,
        sql: "select column_name, data_type, character_maximum_length, numeric_precision, numeric_scale, ordinal_position, udt_name from information_schema.columns where lower(table_schema)=lower($1) and lower(table_name)=lower($2) order by ordinal_position"@,
        params: seq![ParamView::Text(schema), ParamView::Text(table)],
    }
}

/// Counts the distinct values of a column; nulls are not counted.
pub open spec fn distinct_query(schema: Seq<char>, table: Seq<char>, column: Seq<char>) -> QueryView {
    QueryView {
        kind: QueryKind::DistinctCount,
        sql: "select count(distinct("@ + column_ref(column) + ")) from "@ + qualified(
            schema,
            table,
        ),
        params: Seq::empty(),
    }
}

/// Asks for the smallest and the largest value of a column, as text.
pub open spec fn min_max_query(schema: Seq<char>, table: Seq<char>, column: Seq<char>) -> QueryView {
    QueryView {
        kind: QueryKind::MinMax,
        sql: "select min("@ + column_ref(column) + ")::text, max("@ + column_ref(column)
            + ")::text from "@ + qualified(schema, table),
        params: Seq::empty(),
    }
}

/// Asks for the values of a column with the number of rows that hold each,
/// most frequent first, equal counts by value descending, at most
/// [`TOP_VALUES`] rows. Rows in which the column is null are left out, as
/// they are from the distinct count, so null is never among the values.
pub open spec fn top_values_query(
    schema: Seq<char>,
    table: Seq<char>,
    column: Seq<char>,
) -> QueryView {
    QueryView {
        kind: QueryKind::TopValues,
        sql: "select v::text, c from (select distinct "@ + column_ref(column)
            + " as v, count(*) as c from "@
            + qualified(schema, table) + " where "@ + column_ref(column)
            + " is not null group by 1 order by 2 desc, 1 desc limit "@ + decimal(
            TOP_VALUES as int,
        ) + ") as preview"@,
        params: Seq::empty(),
    }
}

/// Asks for the comment on the column at `ordinal_position`. The table is
/// named in a text literal, which the database resolves to the table.
pub open spec fn comment_query(
    schema: Seq<char>,
    table: Seq<char>,
    ordinal_position: i32,
) -> QueryView {
    QueryView {
        kind: QueryKind::Comment,
        sql: "select pg_catalog.col_description("@ + quoted(qualified(schema, table), '\'')
            + "::regclass::oid, $1)"@,
        params: seq![ParamView::Int(ordinal_position)],
    }
}

fn push_qualified(out: &mut String, schema: &str, table: &str)
    ensures
        final(out)@ == old(out)@ + qualified(schema@, table@),
{
    push_identifier(out, schema);
    out.append(".");
    push_identifier(out, table);
    assert(out@ =~= old(out)@ + qualified(schema@, table@));
}

fn push_column(out: &mut String, column: &str)
    ensures
        final(out)@ == old(out)@ + column_ref(column@),
{
    let chars = chars_of(column);
    out.push('"');
    push_doubled(out, &chars, '"');
    out.push('"');
    assert(out@ =~= old(out)@ + column_ref(column@));
}

impl Query {
    /// The query that counts the rows of `schema.table`.
    pub fn row_count(schema: &str, table: &str) -> (query: Query)
        ensures
            query@ == row_count_query(schema@, table@),
    {
        let mut sql = String::new();
        sql.append("select count(*) from ");
        push_qualified(&mut sql, schema, table);
        let params: Vec<Param> = Vec::new();
        assert(sql@ =~= row_count_query(schema@, table@).sql);
        assert(params.deep_view() =~= Seq::empty());
        Query { kind: QueryKind::RowCount, sql, params }
    }

    /// The query that lists the columns of `schema.table`.
    pub fn catalog(schema: &str, table: &str) -> (query: Query)
        ensures
            query@ == catalog_query(schema@, table@),
    {
        let sql =
            "select column_name, data_type, character_maximum_length, numeric_precision, numeric_scale, ordinal_position, udt_name from information_schema.columns where lower(table_schema)=lower($1) and lower(table_name)=lower($2) order by ordinal_position".to_owned();
        let mut params: Vec<Param> = Vec::new();
        params.push(Param::Text(schema.to_owned()));
        params.push(Param::Text(table.to_owned()));
        assert(params.deep_view() =~= seq![ParamView::Text(schema@), ParamView::Text(table@)]);
        Query { kind: QueryKind::Catalog, sql, params }
    }

    /// The query that counts the distinct values of `column`.
    pub fn distinct_count(schema: &str, table: &str, column: &str) -> (query: Query)
        ensures
            query@ == distinct_query(schema@, table@, column@),
    {
        let mut sql = String::new();
        sql.append("select count(distinct(");
        push_column(&mut sql, column);
        sql.append(")) from ");
        push_qualified(&mut sql, schema, table);
        let params: Vec<Param> = Vec::new();
        assert(sql@ =~= distinct_query(schema@, table@, column@).sql);
        assert(params.deep_view() =~= Seq::empty());
        Query { kind: QueryKind::DistinctCount, sql, params }
    }

    /// The query for the smallest and the largest value of `column`.
    pub fn min_max(schema: &str, table: &str, column: &str) -> (query: Query)
        ensures
            query@ == min_max_query(schema@, table@, column@),
    {
        let mut sql = String::new();
        sql.append("select min(");
        push_column(&mut sql, column);
        sql.append(")::text, max(");
        push_column(&mut sql, column);
        sql.append(")::text from ");
        push_qualified(&mut sql, schema, table);
        let params: Vec<Param> = Vec::new();
        assert(sql@ =~= min_max_query(schema@, table@, column@).sql);
        assert(params.deep_view() =~= Seq::empty());
        Query { kind: QueryKind::MinMax, sql, params }
    }

    /// The query for the most frequent values of `column`.
    pub fn top_values(schema: &str, table: &str, column: &str) -> (query: Query)
        ensures
            query@ == top_values_query(schema@, table@, column@),
    {
        let mut sql = String::new();
        sql.append("select v::text, c from (select distinct ");
        push_column(&mut sql, column);
        sql.append(" as v, count(*) as c from ");
        push_qualified(&mut sql, schema, table);
        sql.append(" where ");
        push_column(&mut sql, column);
        sql.append(" is not null group by 1 order by 2 desc, 1 desc limit ");
        push_decimal(&mut sql, TOP_VALUES as i64);
        sql.append(") as preview");
        let params: Vec<Param> = Vec::new();
        assert(sql@ =~= top_values_query(schema@, table@, column@).sql);
        assert(params.deep_view() =~= Seq::empty());
        Query { kind: QueryKind::TopValues, sql, params }
    }

    /// The query for the comment on the column at `ordinal_position`.
    pub fn comment(schema: &str, table: &str, ordinal_position: i32) -> (query: Query)
        ensures
            query@ == comment_query(schema@, table@, ordinal_position),
    {
        let mut sql = String::new();
        let name = chars_of(qualified_name(schema, table).as_str());
        sql.append("select pg_catalog.col_description(");
        sql.push('\'');
        push_doubled(&mut sql, &name, '\'');
        sql.push('\'');
        sql.append("::regclass::oid, $1)");
        let mut params: Vec<Param> = Vec::new();
        params.push(Param::Int(ordinal_position));
        assert(sql@ =~= comment_query(schema@, table@, ordinal_position).sql);
        assert(params.deep_view() =~= seq![ParamView::Int(ordinal_position)]);
        Query { kind: QueryKind::Comment, sql, params }
    }
}

} // verus!
