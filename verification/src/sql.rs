//! SQL text: table schemas with their CREATE/DROP statements, and INSERT
//! statements whose values are quoted with `$$`.
use crate::text::{join, join_strings, views_of};
use vstd::prelude::*;

verus! {

/// Types that own a database table: the statements that create and drop it.
pub trait PostGresObj {
    fn postgres_create() -> String;

    fn postgres_drop() -> String;
}

/// Types whose values are stored as one row: the INSERT statement for it.
pub trait SerialiseDB {
    fn insert(&self) -> String;
}

/// Column types of generated tables.
#[derive(PartialEq, Eq, Structural, Clone, Copy, Debug)]
pub enum SqlType {
    /// `i32` fields.
    Integer,
    /// `String` fields.
    Varchar,
    /// Field types written as a multi-segment path or not as a path.
    Unknown,
}

pub open spec fn sql_type_text(t: SqlType) -> Seq<char> {
    match t {
        SqlType::Integer => "INTEGER"@,
        SqlType::Varchar => "VARCHAR"@,
        SqlType::Unknown => "Unknown"@,
    }
}

impl SqlType {
    /// The type's name in a column definition.
    pub fn as_sql(&self) -> (r: &'static str)
        ensures
            r@ == sql_type_text(*self),
    {
        match self {
            SqlType::Integer => "INTEGER",
            SqlType::Varchar => "VARCHAR",
            SqlType::Unknown => "Unknown",
        }
    }
}

pub struct Column {
    pub name: String,
    pub sql_type: SqlType,
}

pub struct TableSchema {
    pub name: String,
    pub columns: Vec<Column>,
}

/// A column as a name and a type.
pub open spec fn column_pair(c: Column) -> (Seq<char>, SqlType) {
    (c.name@, c.sql_type)
}

pub open spec fn column_pairs(cols: Seq<Column>) -> Seq<(Seq<char>, SqlType)> {
    cols.map_values(|c: Column| column_pair(c))
}

/// `name TYPE` for one column.
pub open spec fn column_definition(c: (Seq<char>, SqlType)) -> Seq<char> {
    c.0 + " "@ + sql_type_text(c.1)
}

pub open spec fn column_definitions(cols: Seq<(Seq<char>, SqlType)>) -> Seq<Seq<char>> {
    cols.map_values(|c: (Seq<char>, SqlType)| column_definition(c))
}

/// `CREATE TABLE <name> (<col> <TYPE>, ...);`
pub open spec fn create_table_sql(name: Seq<char>, cols: Seq<(Seq<char>, SqlType)>) -> Seq<char> {
    "CREATE TABLE "@ + name + " ("@ + join(column_definitions(cols), ", "@) + ");"@
}

/// `DROP TABLE <name>;`
pub open spec fn drop_table_sql(name: Seq<char>) -> Seq<char> {
    "DROP TABLE "@ + name + ";"@
}

impl Column {
    pub fn new(name: &str, sql_type: SqlType) -> (r: Column)
        ensures
            r.name@ == name@,
            r.sql_type == sql_type,
    {
        Column { name: name.to_owned(), sql_type }
    }

    /// The column's definition, `name TYPE`.
    pub fn definition(&self) -> (r: String)
        ensures
            r@ == column_definition(column_pair(*self)),
    {
        let mut s = self.name.clone();
        s.append(" ");
        s.append(self.sql_type.as_sql());
        s
    }
}

impl TableSchema {
    /// The statement that creates the table.
    pub fn create_statement(&self) -> (r: String)
        ensures
            r@ == create_table_sql(self.name@, column_pairs(self.columns@)),
    {
        let mut defs: Vec<String> = Vec::new();
        let n = self.columns.len();
        let mut i: usize = 0;
        while i < n
            invariant
                n == self.columns@.len(),
                i <= n,
                defs@.len() == i,
                forall|j: int| 0 <= j < i ==> (#[trigger] defs@[j])@ == column_definition(column_pair(self.columns@[j])),
            decreases n - i,
        {
            let d = self.columns[i].definition();
            defs.push(d);
            i = i + 1;
        }
        assert(views_of(defs@) =~= column_definitions(column_pairs(self.columns@)));
        let body = join_strings(&defs, ", ");
        let mut s = "CREATE TABLE ".to_owned();
        s.append(self.name.as_str());
        s.append(" (");
        s.append(body.as_str());
        s.append(");");
        s
    }

    /// The statement that drops the table.
    pub fn drop_statement(&self) -> (r: String)
        ensures
            r@ == drop_table_sql(self.name@),
    {
        let mut s = "DROP TABLE ".to_owned();
        s.append(self.name.as_str());
        s.append(";");
        s
    }
}


/// A table schema from its name and its columns' names and types.
pub fn table_schema(name: &str, columns: &[(&str, SqlType)]) -> (r: TableSchema)
    ensures
        r.name@ == name@,
        column_pairs(r.columns@) == columns@.map_values(|c: (&str, SqlType)| (c.0@, c.1)),
{
    let mut cols: Vec<Column> = Vec::new();
    let n = columns.len();
    let mut i: usize = 0;
    while i < n
        invariant
            n == columns@.len(),
            i <= n,
            cols@.len() == i,
            forall|j: int| 0 <= j < i ==> column_pair(#[trigger] cols@[j]) == (columns@[j].0@, columns@[j].1),
        decreases n - i,
    {
        let (c, t) = columns[i];
        cols.push(Column::new(c, t));
        i = i + 1;
    }
    let r = TableSchema { name: name.to_owned(), columns: cols };
    assert(column_pairs(r.columns@) =~= columns@.map_values(|c: (&str, SqlType)| (c.0@, c.1)));
    r
}

/// A value between `$$` quotes, as the statements write every value.
pub open spec fn dollar_quoted(v: Seq<char>) -> Seq<char> {
    "$$"@ + v + "$$"@
}

pub open spec fn dollar_quoted_all(vals: Seq<Seq<char>>) -> Seq<Seq<char>> {
    vals.map_values(|v: Seq<char>| dollar_quoted(v))
}

/// `$$v1$$, $$v2$$, ...`
pub open spec fn quoted_list(vals: Seq<Seq<char>>) -> Seq<char> {
    join(dollar_quoted_all(vals), ", "@)
}

/// `($$v1$$, $$v2$$, ...)`
pub open spec fn value_tuple(vals: Seq<Seq<char>>) -> Seq<char> {
    "("@ + quoted_list(vals) + ")"@
}

/// Quotes one value with `$$`.
pub fn dollar_quote(v: &str) -> (r: String)
    ensures
        r@ == dollar_quoted(v@),
{
    let mut s = "$$".to_owned();
    s.append(v);
    s.append("$$");
    s
}

/// Appends a value quoted with `$$`.
pub fn push_quoted(s: &mut String, v: &str)
    ensures
        final(s)@ == old(s)@ + dollar_quoted(v@),
{
    let ghost start = s@;
    s.append("$$");
    s.append(v);
    s.append("$$");
    assert(s@ =~= start + dollar_quoted(v@));
}

/// The values quoted with `$$`, separated by `, `.
pub fn quoted_list_text(vals: &Vec<String>) -> (r: String)
    ensures
        r@ == quoted_list(views_of(vals@)),
{
    let mut quoted: Vec<String> = Vec::new();
    let n = vals.len();
    let mut i: usize = 0;
    while i < n
        invariant
            n == vals@.len(),
            i <= n,
            quoted@.len() == i,
            forall|j: int| 0 <= j < i ==> (#[trigger] quoted@[j])@ == dollar_quoted(vals@[j]@),
        decreases n - i,
    {
        let q = dollar_quote(vals[i].as_str());
        quoted.push(q);
        i = i + 1;
    }
    assert(views_of(quoted@) =~= dollar_quoted_all(views_of(vals@)));
    join_strings(&quoted, ", ")
}

/// The values quoted with `$$`, separated by `, `, in round brackets.
pub fn value_tuple_text(vals: &Vec<String>) -> (r: String)
    ensures
        r@ == value_tuple(views_of(vals@)),
{
    let body = quoted_list_text(vals);
    let mut s = "(".to_owned();
    s.append(body.as_str());
    s.append(")");
    s
}

/// `INSERT INTO <table> (<c1>, <c2>, ...) VALUES ($$v1$$, $$v2$$, ...)`
pub open spec fn insert_sql(table: Seq<char>, columns: Seq<Seq<char>>, values: Seq<Seq<char>>) -> Seq<char> {
    "INSERT INTO "@ + table + " ("@ + join(columns, ", "@) + ") VALUES "@ + value_tuple(values)
}

/// The INSERT statement for one row of `table`.
pub fn insert_statement(table: &str, columns: &Vec<String>, values: &Vec<String>) -> (r: String)
    ensures
        r@ == insert_sql(table@, views_of(columns@), views_of(values@)),
{
    let cols = join_strings(columns, ", ");
    let tuple = value_tuple_text(values);
    let mut s = "INSERT INTO ".to_owned();
    s.append(table);
    s.append(" (");
    s.append(cols.as_str());
    s.append(") VALUES ");
    s.append(tuple.as_str());
    s
}

} // verus!
