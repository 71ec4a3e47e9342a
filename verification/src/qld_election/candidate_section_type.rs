//! A candidate of a district, and the row it is stored as.
use crate::qld_election::{text_or, text_or_default};
use crate::sql::{insert_sql, insert_statement, SerialiseDB};
use crate::text::{decimal, decimal_string, views_of};
use vstd::prelude::*;

verus! {

#[derive(Clone, Debug, Default)]
pub struct Candidate {
    pub ballot_order: u8,
    pub ballot_name: String,
    pub party_code: Option<String>,
    pub party: Option<String>,
    pub sitting: Option<String>,
    pub surname: Option<String>,
    pub given_names: Option<String>,
}

/// The columns of the `candidates` table a candidate is stored in.
pub open spec fn candidate_columns() -> Seq<Seq<char>> {
    seq![
        "ballot_order"@,
        "ballot_name"@,
        "party_code"@,
        "party"@,
        "sitting"@,
        "surname"@,
        "given_names"@,
    ]
}

/// The candidate's values in column order; an absent value is stored as
/// the empty text.
pub open spec fn candidate_values(c: Candidate) -> Seq<Seq<char>> {
    seq![
        decimal(c.ballot_order as nat),
        c.ballot_name@,
        text_or(c.party_code, ""@),
        text_or(c.party, ""@),
        text_or(c.sitting, ""@),
        text_or(c.surname, ""@),
        text_or(c.given_names, ""@),
    ]
}

impl SerialiseDB for Candidate {
    /// `INSERT INTO candidates (ballot_order, ..., given_names) VALUES ($$..$$, ...)`
    fn insert(&self) -> (r: String)
        ensures
            r@ == insert_sql("candidates"@, candidate_columns(), candidate_values(*self)),
    {
        let mut columns: Vec<String> = Vec::new();
        columns.push("ballot_order".to_owned());
        columns.push("ballot_name".to_owned());
        columns.push("party_code".to_owned());
        columns.push("party".to_owned());
        columns.push("sitting".to_owned());
        columns.push("surname".to_owned());
        columns.push("given_names".to_owned());
        let mut values: Vec<String> = Vec::new();
        values.push(decimal_string(self.ballot_order as u64));
        values.push(self.ballot_name.clone());
        values.push(text_or_default(&self.party_code, ""));
        values.push(text_or_default(&self.party, ""));
        values.push(text_or_default(&self.sitting, ""));
        values.push(text_or_default(&self.surname, ""));
        values.push(text_or_default(&self.given_names, ""));
        assert(views_of(columns@) =~= candidate_columns());
        assert(views_of(values@) =~= candidate_values(*self));
        insert_statement("candidates", &columns, &values)
    }
}

} // verus!
