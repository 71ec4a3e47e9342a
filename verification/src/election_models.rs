//! The tables of the election model: an election event and its elections.
use crate::sql::{create_table_sql, drop_table_sql, table_schema, column_pairs, PostGresObj, SqlType};
use crate::text::views_of;
use vstd::prelude::*;

verus! {

/// An election event.
pub struct ElectionEvent {
    pub id: i32,
    pub name: String,
}

/// An election of an election event.
pub struct Election {
    pub id: String,
    pub election_event_id: i32,
    pub name: String,
    pub category: String,
}

pub open spec fn election_event_columns() -> Seq<(Seq<char>, SqlType)> {
    seq![("id"@, SqlType::Integer), ("name"@, SqlType::Varchar)]
}

pub open spec fn election_columns() -> Seq<(Seq<char>, SqlType)> {
    seq![
        ("id"@, SqlType::Varchar),
        ("election_event_id"@, SqlType::Integer),
        ("name"@, SqlType::Varchar),
        ("category"@, SqlType::Varchar),
    ]
}

impl PostGresObj for ElectionEvent {
    fn postgres_create() -> (r: String)
        ensures
            r@ == create_table_sql("ElectionEvent"@, election_event_columns()),
    {
        let t = table_schema("ElectionEvent", &[("id", SqlType::Integer), ("name", SqlType::Varchar)]);
        assert(column_pairs(t.columns@) =~= election_event_columns());
        t.create_statement()
    }

    fn postgres_drop() -> (r: String)
        ensures
            r@ == drop_table_sql("ElectionEvent"@),
    {
        let t = table_schema("ElectionEvent", &[("id", SqlType::Integer), ("name", SqlType::Varchar)]);
        t.drop_statement()
    }
}

impl PostGresObj for Election {
    fn postgres_create() -> (r: String)
        ensures
            r@ == create_table_sql("Election"@, election_columns()),
    {
        let t = table_schema(
            "Election",
            &[("id", SqlType::Varchar), ("election_event_id", SqlType::Integer), ("name", SqlType::Varchar), ("category", SqlType::Varchar)],
        );
        assert(column_pairs(t.columns@) =~= election_columns());
        t.create_statement()
    }

    fn postgres_drop() -> (r: String)
        ensures
            r@ == drop_table_sql("Election"@),
    {
        let t = table_schema(
            "Election",
            &[("id", SqlType::Varchar), ("election_event_id", SqlType::Integer), ("name", SqlType::Varchar), ("category", SqlType::Varchar)],
        );
        t.drop_statement()
    }
}

/// The statements that create the model's tables: the event table, then
/// the election table.
pub fn generate_tables() -> (r: Vec<String>)
    ensures
        views_of(r@) == seq![
            create_table_sql("ElectionEvent"@, election_event_columns()),
            create_table_sql("Election"@, election_columns()),
        ],
{
    let mut v: Vec<String> = Vec::new();
    v.push(ElectionEvent::postgres_create());
    v.push(Election::postgres_create());
    assert(views_of(v@) =~= seq![
        create_table_sql("ElectionEvent"@, election_event_columns()),
        create_table_sql("Election"@, election_columns()),
    ]);
    v
}

/// The statements that drop the model's tables, in the order they are
/// created.
pub fn drop_tables() -> (r: Vec<String>)
    ensures
        views_of(r@) == seq![drop_table_sql("ElectionEvent"@), drop_table_sql("Election"@)],
{
    let mut v: Vec<String> = Vec::new();
    v.push(ElectionEvent::postgres_drop());
    v.push(Election::postgres_drop());
    assert(views_of(v@) =~= seq![drop_table_sql("ElectionEvent"@), drop_table_sql("Election"@)]);
    v
}

} // verus!
