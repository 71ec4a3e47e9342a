//! Loading an ECQ (Queensland) results document: its model, and the SQL
//! statements that store its elections, districts, candidates, booths and
//! unofficial preliminary counts.
pub mod booths_section;
pub mod candidate_section_type;
pub mod count_round_parties_type;
pub mod ecq_types;
pub mod indicative_count_details;

use crate::qld_election::booths_section::Booth as ResultBooth;
use crate::qld_election::candidate_section_type::Candidate;
use crate::qld_election::count_round_parties_type::Party;
use crate::qld_election::ecq_types::{Booth, BoothDistrict, District, Election, Venues};
use crate::archive::{read_zip_entry, zip_entry_text};
use crate::sql::{dollar_quoted, push_quoted, quoted_list, quoted_list_text, value_tuple, value_tuple_text};
use crate::text::{decimal, decimal_string, lemma_flatten_contains, lemma_flatten_take_step, lemma_views_of_add, views_of};
use crate::xml::{opt_view, str_equal};
use vstd::prelude::*;

verus! {

/// The ECQ's archive of current public results.
pub const QLD_ELECTION_LINK: &'static str = "https://resultsdata.elections.qld.gov.au/PublicResults.zip";

/// The archive of the 2020 state election results.
pub const QLD_2020_ELECTION: &'static str = "https://resultsdata.elections.qld.gov.au/XMLData/publicResults_State2020_aurukun2020_Final.zip";

/// The entry of a results archive that holds the results document.
pub const RESULTS_ENTRY: &'static str = "publicResults.xml";

/// The text of the results document in a results archive, or `None` when
/// the archive cannot be opened or has no readable results entry.
pub fn read_results_text(archive: &[u8]) -> (r: Option<String>)
    ensures
        opt_view(r) == zip_entry_text(archive@, RESULTS_ENTRY@),
{
    read_zip_entry(archive, RESULTS_ENTRY)
}

/// The flag values of the feed: `YES` is true, `NO` is false, anything
/// else is rejected.
pub open spec fn yes_no(s: Seq<char>) -> Option<bool> {
    if s == "YES"@ {
        Some(true)
    } else if s == "NO"@ {
        Some(false)
    } else {
        None
    }
}

/// Reads a `YES` / `NO` flag.
pub fn parse_yes_no(s: &str) -> (r: Option<bool>)
    ensures
        r == yes_no(s@),
{
    if str_equal(s, "YES") {
        Some(true)
    } else if str_equal(s, "NO") {
        Some(false)
    } else {
        None
    }
}

/// The text, or `default` when it is absent.
pub open spec fn text_or(o: Option<String>, default: Seq<char>) -> Seq<char> {
    match o {
        Some(s) => s@,
        None => default,
    }
}

pub fn text_or_default(o: &Option<String>, default: &str) -> (r: String)
    ensures
        r@ == text_or(*o, default@),
{
    match o {
        Some(s) => s.clone(),
        None => default.to_owned(),
    }
}

/// A parties count round of an election.
#[derive(Clone, Debug, Default)]
pub struct CountRoundPartiesType {
    pub id: u16,
    pub round: u16,
    pub count_name: String,
    pub preliminary: String,
    pub unofficial: String,
    pub indicative: String,
    pub preferences: String,
    pub parties: Vec<Party>,
}

/// A count round of a district.
#[derive(Clone, Debug, Default)]
pub struct CountRoundCouncillorType {
    pub count_name: String,
    pub id: u32,
    pub indicative: bool,
    pub preferences: String,
    pub preliminary: String,
    pub round: u16,
    pub unofficial: String,
    pub last_updated: Option<String>,
    /// The share of the roll counted, as the decimal text of the feed's float.
    pub percent_counted: Option<String>,
    pub parties: Vec<Party>,
    pub total_votes: Option<u32>,
    pub total_formal_votes: Option<CountPercentageSection>,
    pub total_informal_votes: Option<CountPercentageSection>,
    pub primary_vote_results: Option<PrimaryVoteResultsSection>,
    pub booth_results: BoothsSection,
}

#[derive(Clone, Debug, Default)]
pub struct BoothsSection {
    pub count: u16,
    pub booths: Vec<ResultBooth>,
}

#[derive(Clone, Debug, Default)]
pub struct CountPercentageSection {
    pub count: u32,
    /// As the decimal text of the feed's float.
    pub percentage: String,
}

#[derive(Clone, Debug, Default)]
pub struct PrimaryVoteResultsSection {
    pub candidate_results: Vec<CandidateResult>,
}

#[derive(Clone, Debug, Default)]
pub struct PrimaryVoteResponseResultsSection {
    pub responses: Vec<ResponseResult>,
}

/// A candidate's votes.
#[derive(Clone, Debug, Default)]
pub struct CandidateResult {
    pub ballot_order: u8,
    pub ballot_name: String,
    pub count: u32,
    /// As the decimal text of the feed's float.
    pub percentage: String,
}

#[derive(Clone, Debug, Default)]
pub struct ResponseResult {
    pub response_order_number: u8,
    pub response_name: String,
    pub count: u32,
    /// As the decimal text of the feed's float.
    pub percentage: String,
}

/// At most two candidates.
#[derive(Clone, Debug, Default)]
pub struct TwoCandidateVotesSection {
    pub candidates: Vec<CandidateResult>,
}

#[derive(Clone, Debug, Default)]
pub struct PreferenceDistributionSummary {
    pub primary_votes: PrimaryVoteResultsSection,
    pub pref_dis: Vec<PreferenceDistribution>,
}

#[derive(Clone, Debug, Default)]
pub struct PreferenceDistribution {
    pub distribution: u8,
    pub excluded_ballot_name: String,
    pub excluded_ballot_order: u8,
    pub candidate_preferences: Vec<CandidateResult>,
    pub exhausted: CountPercentageSection,
    pub votes_distributed: u32,
    pub votes_remaining_in_count: u32,
}

#[derive(Clone, Debug, Default)]
pub struct CandidateSectionType {
    pub count: u16,
    pub candidates: Vec<Candidate>,
}

/// An ECQ results document.
#[derive(Clone, Debug, Default)]
pub struct ECQResults {
    pub remarks: String,
    pub gen_date: String,
    pub venues: Venues,
    pub elections: Vec<Election>,
}

/// The election an ECQ document is loaded for: the first one it lists.
pub open spec fn loaded_election(r: ECQResults) -> Election {
    r.elections@[0]
}

/// A number as decimal text, or the empty text when it is absent.
pub open spec fn number_or_empty(n: Option<u16>) -> Seq<char> {
    match n {
        Some(v) => decimal(v as nat),
        None => Seq::empty(),
    }
}

pub open spec fn bool_text(b: bool) -> Seq<char> {
    if b {
        "true"@
    } else {
        "false"@
    }
}

fn number_or_empty_text(n: Option<u16>) -> (r: String)
    ensures
        r@ == number_or_empty(n),
{
    match n {
        Some(v) => decimal_string(v as u64),
        None => String::new(),
    }
}

fn bool_string(b: bool) -> (r: String)
    ensures
        r@ == bool_text(b),
{
    if b {
        "true".to_owned()
    } else {
        "false".to_owned()
    }
}

/// The statement that stores an election.
pub open spec fn election_insert_sql(e: Election) -> Seq<char> {
    "INSERT INTO aec.elections(date, gen_date, name, event_type, state, ec_id) VALUES"@ + value_tuple(
        seq![e.election_day@, e.gen_date@, e.election_name@, e.event_type@, "QLD"@, decimal(e.id as nat)],
    ) + ";"@
}

pub fn election_insert(e: &Election) -> (r: String)
    ensures
        r@ == election_insert_sql(*e),
{
    let mut vals: Vec<String> = Vec::new();
    vals.push(e.election_day.clone());
    vals.push(e.gen_date.clone());
    vals.push(e.election_name.clone());
    vals.push(e.event_type.clone());
    vals.push("QLD".to_owned());
    vals.push(decimal_string(e.id as u64));
    assert(views_of(vals@) =~= seq![e.election_day@, e.gen_date@, e.election_name@, e.event_type@, "QLD"@, decimal(e.id as nat)]);
    let tuple = value_tuple_text(&vals);
    let mut s = "INSERT INTO aec.elections(date, gen_date, name, event_type, state, ec_id) VALUES".to_owned();
    s.append(tuple.as_str());
    s.append(";");
    s
}

/// A district's values, from its name to its number of elected candidates.
pub open spec fn district_values(d: District) -> Seq<Seq<char>> {
    seq![
        d.district_name@,
        decimal(d.enrolment as nat),
        d.last_updated@,
        text_or(d.final_count, ""@),
        decimal(d.number as nat),
        d.voting_method@,
        d.voting_system@,
        text_or(d.percent_counted, ""@),
        decimal(d.num_elected as nat),
    ]
}

/// The statement that stores a district of election `e`; the district's
/// election is looked up by the election's day and name.
pub open spec fn district_insert_sql(e: Election, d: District) -> Seq<char> {
    "INSERT INTO aec.districts(election_id, district_name, enrolment, last_updated, final_count, number, voting_method, voting_system, percent_counted, num_elected) VALUES((SELECT id FROM elections WHERE elections.date LIKE "@
        + dollar_quoted(e.election_day@) + " AND elections.name LIKE "@ + dollar_quoted(e.election_name@)
        + "),"@ + quoted_list(district_values(d)) + ");"@
}

pub fn district_insert(e: &Election, d: &District) -> (r: String)
    ensures
        r@ == district_insert_sql(*e, *d),
{
    let mut vals: Vec<String> = Vec::new();
    vals.push(d.district_name.clone());
    vals.push(decimal_string(d.enrolment as u64));
    vals.push(d.last_updated.clone());
    vals.push(text_or_default(&d.final_count, ""));
    vals.push(decimal_string(d.number as u64));
    vals.push(d.voting_method.clone());
    vals.push(d.voting_system.clone());
    vals.push(text_or_default(&d.percent_counted, ""));
    vals.push(decimal_string(d.num_elected as u64));
    assert(views_of(vals@) =~= district_values(*d));
    let list = quoted_list_text(&vals);
    let mut s = "INSERT INTO aec.districts(election_id, district_name, enrolment, last_updated, final_count, number, voting_method, voting_system, percent_counted, num_elected) VALUES((SELECT id FROM elections WHERE elections.date LIKE ".to_owned();
    push_quoted(&mut s, e.election_day.as_str());
    s.append(" AND elections.name LIKE ");
    push_quoted(&mut s, e.election_name.as_str());
    s.append("),");
    s.append(list.as_str());
    s.append(");");
    s
}

/// The statement that stores a candidate; whether the candidate sits is
/// stored as NULL.
pub open spec fn candidate_insert_sql(c: Candidate) -> Seq<char> {
    "INSERT INTO aec.candidates(name, party_name, party_code, sitting, surname, given_names) VALUES("@
        + dollar_quoted(c.ballot_name@) + ", "@ + dollar_quoted(text_or(c.party, ""@)) + ", "@
        + dollar_quoted(text_or(c.party_code, ""@)) + ", NULL, "@ + dollar_quoted(text_or(c.surname, ""@))
        + ", "@ + dollar_quoted(text_or(c.given_names, ""@)) + ");"@
}

pub fn candidate_insert(c: &Candidate) -> (r: String)
    ensures
        r@ == candidate_insert_sql(*c),
{
    let party = text_or_default(&c.party, "");
    let party_code = text_or_default(&c.party_code, "");
    let surname = text_or_default(&c.surname, "");
    let given_names = text_or_default(&c.given_names, "");
    let mut s = "INSERT INTO aec.candidates(name, party_name, party_code, sitting, surname, given_names) VALUES(".to_owned();
    push_quoted(&mut s, c.ballot_name.as_str());
    s.append(", ");
    push_quoted(&mut s, party.as_str());
    s.append(", ");
    push_quoted(&mut s, party_code.as_str());
    s.append(", NULL, ");
    push_quoted(&mut s, surname.as_str());
    s.append(", ");
    push_quoted(&mut s, given_names.as_str());
    s.append(");");
    s
}

/// The statement that links a candidate to its district, with its ballot
/// order; the candidate is looked up by name and party.
pub open spec fn candidate_district_sql(d: District, c: Candidate) -> Seq<char> {
    "INSERT INTO aec.candidate_district (candidate_id, district_id, ballot_order) VALUES ((SELECT candidates.id FROM candidates WHERE candidates.name LIKE "@
        + dollar_quoted(c.ballot_name@) + " AND candidates.party_name LIKE "@ + dollar_quoted(text_or(c.party, ""@))
        + "), (SELECT districts.id FROM districts WHERE districts.district_name LIKE "@ + dollar_quoted(d.district_name@)
        + "), "@ + dollar_quoted(decimal(c.ballot_order as nat)) + ");"@
}

pub fn candidate_district_insert(d: &District, c: &Candidate) -> (r: String)
    ensures
        r@ == candidate_district_sql(*d, *c),
{
    let party = text_or_default(&c.party, "");
    let order = decimal_string(c.ballot_order as u64);
    let mut s = "INSERT INTO aec.candidate_district (candidate_id, district_id, ballot_order) VALUES ((SELECT candidates.id FROM candidates WHERE candidates.name LIKE ".to_owned();
    push_quoted(&mut s, c.ballot_name.as_str());
    s.append(" AND candidates.party_name LIKE ");
    push_quoted(&mut s, party.as_str());
    s.append("), (SELECT districts.id FROM districts WHERE districts.district_name LIKE ");
    push_quoted(&mut s, d.district_name.as_str());
    s.append("), ");
    push_quoted(&mut s, order.as_str());
    s.append(");");
    s
}

/// A venue's values; absent texts are stored empty, an absent position as
/// `0`.
pub open spec fn booth_values(v: Booth) -> Seq<Seq<char>> {
    seq![
        v.id@,
        v.name@,
        text_or(v.building_name, ""@),
        text_or(v.street_no, ""@),
        text_or(v.street_name, ""@),
        text_or(v.locality, ""@),
        text_or(v.state, ""@),
        number_or_empty(v.postcode),
        text_or(v.lat, "0"@),
        text_or(v.long, "0"@),
        bool_text(v.abolished),
    ]
}

/// The statement that stores a venue.
pub open spec fn booth_insert_sql(v: Booth) -> Seq<char> {
    "INSERT INTO aec.booths (ec_id, name, building_name, street_no, street_name, locality, state, postcode, lat, long, abolished)VALUES "@
        + value_tuple(booth_values(v)) + ";"@
}

pub fn booth_insert(v: &Booth) -> (r: String)
    ensures
        r@ == booth_insert_sql(*v),
{
    let mut vals: Vec<String> = Vec::new();
    vals.push(v.id.clone());
    vals.push(v.name.clone());
    vals.push(text_or_default(&v.building_name, ""));
    vals.push(text_or_default(&v.street_no, ""));
    vals.push(text_or_default(&v.street_name, ""));
    vals.push(text_or_default(&v.locality, ""));
    vals.push(text_or_default(&v.state, ""));
    vals.push(number_or_empty_text(v.postcode));
    vals.push(text_or_default(&v.lat, "0"));
    vals.push(text_or_default(&v.long, "0"));
    vals.push(bool_string(v.abolished));
    assert(views_of(vals@) =~= booth_values(*v));
    let tuple = value_tuple_text(&vals);
    let mut s = "INSERT INTO aec.booths (ec_id, name, building_name, street_no, street_name, locality, state, postcode, lat, long, abolished)VALUES ".to_owned();
    s.append(tuple.as_str());
    s.append(";");
    s
}

/// The statement that links a venue to a district it serves; the venue is
/// looked up by name and building name.
pub open spec fn booth_district_sql(v: Booth, bd: BoothDistrict) -> Seq<char> {
    "INSERT INTO aec.booth_district (booth_id, district_id) VALUES ((SELECT booths.id FROM booths WHERE booths.name LIKE "@
        + dollar_quoted(v.name@) + " AND booths.building_name LIKE "@ + dollar_quoted(text_or(v.building_name, ""@))
        + "),(SELECT districts.id FROM districts WHERE districts.district_name LIKE "@
        + dollar_quoted(bd.district_name@) + "));"@
}

pub fn booth_district_insert(v: &Booth, bd: &BoothDistrict) -> (r: String)
    ensures
        r@ == booth_district_sql(*v, *bd),
{
    let building = text_or_default(&v.building_name, "");
    let mut s = "INSERT INTO aec.booth_district (booth_id, district_id) VALUES ((SELECT booths.id FROM booths WHERE booths.name LIKE ".to_owned();
    push_quoted(&mut s, v.name.as_str());
    s.append(" AND booths.building_name LIKE ");
    push_quoted(&mut s, building.as_str());
    s.append("),(SELECT districts.id FROM districts WHERE districts.district_name LIKE ");
    push_quoted(&mut s, bd.district_name.as_str());
    s.append("));");
    s
}

/// The statement that stores a candidate's unofficial preliminary count at
/// a booth; the candidate is looked up by name within the district.
pub open spec fn unof_insert_sql(district_name: Seq<char>, booth_id: Seq<char>, c: CandidateResult) -> Seq<char> {
    "INSERT INTO aec.unof_prelim_count (candidate_id, booth_id, vote_count) VALUES ((SELECT candidate_id FROM candidate_district cd JOIN candidates c ON cd.candidate_id = c.id JOIN districts d ON cd.district_id = d.id WHERE c.name LIKE "@
        + dollar_quoted(c.ballot_name@) + " AND d.district_name LIKE "@ + dollar_quoted(district_name)
        + "),(SELECT booths.id FROM booths WHERE booths.ec_id LIKE "@ + dollar_quoted(booth_id) + "),"@
        + decimal(c.count as nat) + ")"@
}

pub fn unof_insert(district_name: &str, booth_id: &str, c: &CandidateResult) -> (r: String)
    ensures
        r@ == unof_insert_sql(district_name@, booth_id@, *c),
{
    let count = decimal_string(c.count as u64);
    let mut s = "INSERT INTO aec.unof_prelim_count (candidate_id, booth_id, vote_count) VALUES ((SELECT candidate_id FROM candidate_district cd JOIN candidates c ON cd.candidate_id = c.id JOIN districts d ON cd.district_id = d.id WHERE c.name LIKE ".to_owned();
    push_quoted(&mut s, c.ballot_name.as_str());
    s.append(" AND d.district_name LIKE ");
    push_quoted(&mut s, district_name);
    s.append("),(SELECT booths.id FROM booths WHERE booths.ec_id LIKE ");
    push_quoted(&mut s, booth_id);
    s.append("),");
    s.append(count.as_str());
    s.append(")");
    s
}

/// The statements that empty the tables before a document is loaded.
pub open spec fn clearing_statements() -> Seq<Seq<char>> {
    seq![
        "DELETE FROM elections"@,
        "DELETE FROM booth_district"@,
        "DELETE FROM candidate_district"@,
        "DELETE FROM candidates;"@,
        "DELETE FROM booths"@,
        "DELETE FROM districts"@,
    ]
}

/// A candidate is stored, then linked to its district.
pub open spec fn candidate_statements(d: District, c: Candidate) -> Seq<Seq<char>> {
    seq![candidate_insert_sql(c), candidate_district_sql(d, c)]
}

/// A district is stored, then each of its candidates in order.
pub open spec fn district_statements(e: Election, d: District) -> Seq<Seq<char>> {
    seq![district_insert_sql(e, d)] + d.candidates.candidates@.map_values(
        |c: Candidate| candidate_statements(d, c),
    ).flatten()
}

/// The two by-elections whose venue links are not stored.
pub open spec fn skipped_booth_election(election: Seq<char>) -> bool {
    election == "2024 Ipswich City Council Councillor By-election - Division 4"@ || election
        == "Aurukun Councillor By-Election"@
}

pub open spec fn booth_district_statements(v: Booth, bd: BoothDistrict) -> Seq<Seq<char>> {
    if skipped_booth_election(bd.election@) {
        Seq::empty()
    } else {
        seq![booth_district_sql(v, bd)]
    }
}

/// A venue is stored, then linked to each district it serves.
pub open spec fn venue_statements(v: Booth) -> Seq<Seq<char>> {
    seq![booth_insert_sql(v)] + v.districts@.map_values(|bd: BoothDistrict| booth_district_statements(v, bd)).flatten()
}

/// What loading a document's elections, districts, candidates and venues
/// runs, in order: the clearing statements, every election, the districts
/// (with their candidates) of the loaded election, every venue (with its
/// district links).
pub open spec fn setup_info_sql(r: ECQResults) -> Seq<Seq<char>> {
    let e = loaded_election(r);
    clearing_statements() + r.elections@.map_values(|x: Election| election_insert_sql(x))
        + e.districts.districts@.map_values(|d: District| district_statements(e, d)).flatten()
        + r.venues.booths@.map_values(|v: Booth| venue_statements(v)).flatten()
}

/// The count round whose booth results are stored.
pub open spec fn is_preliminary_round(cr: CountRoundCouncillorType) -> bool {
    cr.count_name@ == "Unofficial Preliminary Count"@
}

pub open spec fn booth_count_statements(d: District, b: ResultBooth) -> Seq<Seq<char>> {
    b.primary_vote_results.candidate_results@.map_values(
        |c: CandidateResult| unof_insert_sql(d.district_name@, b.id@, c),
    )
}

pub open spec fn round_count_statements(d: District, cr: CountRoundCouncillorType) -> Seq<Seq<char>> {
    if is_preliminary_round(cr) {
        cr.booth_results.booths@.map_values(|b: ResultBooth| booth_count_statements(d, b)).flatten()
    } else {
        Seq::empty()
    }
}

pub open spec fn district_count_statements(d: District) -> Seq<Seq<char>> {
    d.count_rounds@.map_values(|cr: CountRoundCouncillorType| round_count_statements(d, cr)).flatten()
}

/// What loading the counts runs: the table is emptied, then every
/// candidate's primary votes at every booth of the unofficial preliminary
/// count of every district of the loaded election are stored.
pub open spec fn count_sql(r: ECQResults) -> Seq<Seq<char>> {
    seq!["DELETE FROM unof_prelim_count"@] + loaded_election(r).districts.districts@.map_values(
        |d: District| district_count_statements(d),
    ).flatten()
}

/// Everything loading a document runs, in order.
pub open spec fn result_sql(r: ECQResults) -> Seq<Seq<char>> {
    setup_info_sql(r) + count_sql(r)
}

fn candidate_pair(d: &District, c: &Candidate) -> (r: Vec<String>)
    ensures
        views_of(r@) == candidate_statements(*d, *c),
{
    let mut out: Vec<String> = Vec::new();
    out.push(candidate_insert(c));
    out.push(candidate_district_insert(d, c));
    assert(views_of(out@) =~= candidate_statements(*d, *c));
    out
}

pub fn district_sql(e: &Election, d: &District) -> (r: Vec<String>)
    ensures
        views_of(r@) == district_statements(*e, *d),
{
    let ghost m = d.candidates.candidates@.map_values(|c: Candidate| candidate_statements(*d, c));
    let mut out: Vec<String> = Vec::new();
    out.push(district_insert(e, d));
    let ghost head = views_of(out@);
    assert(head =~= seq![district_insert_sql(*e, *d)]);
    let n = d.candidates.candidates.len();
    let mut i: usize = 0;
    while i < n
        invariant
            n == d.candidates.candidates@.len(),
            i <= n,
            m == d.candidates.candidates@.map_values(|c: Candidate| candidate_statements(*d, c)),
            head == seq![district_insert_sql(*e, *d)],
            views_of(out@) == head + m.take(i as int).flatten(),
        decreases n - i,
    {
        let mut part = candidate_pair(d, &d.candidates.candidates[i]);
        let ghost before = out@;
        let ghost added = part@;
        out.append(&mut part);
        proof {
            lemma_views_of_add(before, added);
            lemma_flatten_take_step(m, i as int);
            assert(views_of(out@) =~= head + m.take(i + 1).flatten());
        }
        i = i + 1;
    }
    assert(m.take(n as int) =~= m);
    out
}

fn booth_district_part(v: &Booth, bd: &BoothDistrict) -> (r: Vec<String>)
    ensures
        views_of(r@) == booth_district_statements(*v, *bd),
{
    let mut out: Vec<String> = Vec::new();
    let skipped = str_equal(bd.election.as_str(), "2024 Ipswich City Council Councillor By-election - Division 4")
        || str_equal(bd.election.as_str(), "Aurukun Councillor By-Election");
    if !skipped {
        out.push(booth_district_insert(v, bd));
    }
    assert(views_of(out@) =~= booth_district_statements(*v, *bd));
    out
}

pub fn venue_sql(v: &Booth) -> (r: Vec<String>)
    ensures
        views_of(r@) == venue_statements(*v),
{
    let ghost m = v.districts@.map_values(|bd: BoothDistrict| booth_district_statements(*v, bd));
    let mut out: Vec<String> = Vec::new();
    out.push(booth_insert(v));
    let ghost head = views_of(out@);
    assert(head =~= seq![booth_insert_sql(*v)]);
    let n = v.districts.len();
    let mut i: usize = 0;
    while i < n
        invariant
            n == v.districts@.len(),
            i <= n,
            m == v.districts@.map_values(|bd: BoothDistrict| booth_district_statements(*v, bd)),
            head == seq![booth_insert_sql(*v)],
            views_of(out@) == head + m.take(i as int).flatten(),
        decreases n - i,
    {
        let mut part = booth_district_part(v, &v.districts[i]);
        let ghost before = out@;
        let ghost added = part@;
        out.append(&mut part);
        proof {
            lemma_views_of_add(before, added);
            lemma_flatten_take_step(m, i as int);
            assert(views_of(out@) =~= head + m.take(i + 1).flatten());
        }
        i = i + 1;
    }
    assert(m.take(n as int) =~= m);
    out
}

fn booth_count_sql(d: &District, b: &ResultBooth) -> (r: Vec<String>)
    ensures
        views_of(r@) == booth_count_statements(*d, *b),
{
    let results = &b.primary_vote_results.candidate_results;
    let mut out: Vec<String> = Vec::new();
    let n = results.len();
    let mut i: usize = 0;
    while i < n
        invariant
            n == results@.len(),
            *results == b.primary_vote_results.candidate_results,
            i <= n,
            out@.len() == i,
            forall|j: int| 0 <= j < i ==> (#[trigger] out@[j])@ == unof_insert_sql(d.district_name@, b.id@, results@[j]),
        decreases n - i,
    {
        out.push(unof_insert(d.district_name.as_str(), b.id.as_str(), &results[i]));
        i = i + 1;
    }
    assert(views_of(out@) =~= booth_count_statements(*d, *b));
    out
}

fn round_count_sql(d: &District, cr: &CountRoundCouncillorType) -> (r: Vec<String>)
    ensures
        views_of(r@) == round_count_statements(*d, *cr),
{
    let mut out: Vec<String> = Vec::new();
    if !str_equal(cr.count_name.as_str(), "Unofficial Preliminary Count") {
        assert(views_of(out@) =~= Seq::<Seq<char>>::empty());
        return out;
    }
    let booths = &cr.booth_results.booths;
    let ghost m = booths@.map_values(|b: ResultBooth| booth_count_statements(*d, b));
    let n = booths.len();
    let mut i: usize = 0;
    assert(views_of(out@) =~= m.take(0).flatten());
    while i < n
        invariant
            n == booths@.len(),
            i <= n,
            m == booths@.map_values(|b: ResultBooth| booth_count_statements(*d, b)),
            views_of(out@) == m.take(i as int).flatten(),
        decreases n - i,
    {
        let mut part = booth_count_sql(d, &booths[i]);
        let ghost before = out@;
        let ghost added = part@;
        out.append(&mut part);
        proof {
            lemma_views_of_add(before, added);
            lemma_flatten_take_step(m, i as int);
        }
        i = i + 1;
    }
    assert(m.take(n as int) =~= m);
    out
}

fn district_count_sql(d: &District) -> (r: Vec<String>)
    ensures
        views_of(r@) == district_count_statements(*d),
{
    let ghost m = d.count_rounds@.map_values(|cr: CountRoundCouncillorType| round_count_statements(*d, cr));
    let mut out: Vec<String> = Vec::new();
    let n = d.count_rounds.len();
    let mut i: usize = 0;
    assert(views_of(out@) =~= m.take(0).flatten());
    while i < n
        invariant
            n == d.count_rounds@.len(),
            i <= n,
            m == d.count_rounds@.map_values(|cr: CountRoundCouncillorType| round_count_statements(*d, cr)),
            views_of(out@) == m.take(i as int).flatten(),
        decreases n - i,
    {
        let mut part = round_count_sql(d, &d.count_rounds[i]);
        let ghost before = out@;
        let ghost added = part@;
        out.append(&mut part);
        proof {
            lemma_views_of_add(before, added);
            lemma_flatten_take_step(m, i as int);
        }
        i = i + 1;
    }
    assert(m.take(n as int) =~= m);
    out
}

/// The statements that store a document's elections, the districts and
/// candidates of its first election, and its venues. A document without
/// an election cannot be loaded; `requires` leaves it out.
pub fn setup_info_statements(results: &ECQResults) -> (r: Vec<String>)
    requires
        results.elections@.len() > 0,
    ensures
        views_of(r@) == setup_info_sql(*results),
{
    let e = &results.elections[0];
    let mut out: Vec<String> = Vec::new();
    out.push("DELETE FROM elections".to_owned());
    out.push("DELETE FROM booth_district".to_owned());
    out.push("DELETE FROM candidate_district".to_owned());
    out.push("DELETE FROM candidates;".to_owned());
    out.push("DELETE FROM booths".to_owned());
    out.push("DELETE FROM districts".to_owned());
    assert(views_of(out@) =~= clearing_statements());
    let ghost mut acc = clearing_statements();
    // every election
    let ghost me = results.elections@.map_values(|x: Election| election_insert_sql(x));
    let n = results.elections.len();
    let mut i: usize = 0;
    while i < n
        invariant
            n == results.elections@.len(),
            i <= n,
            me == results.elections@.map_values(|x: Election| election_insert_sql(x)),
            views_of(out@) == clearing_statements() + me.take(i as int),
        decreases n - i,
    {
        let stmt = election_insert(&results.elections[i]);
        let ghost before = out@;
        out.push(stmt);
        proof {
            assert(views_of(out@) =~= views_of(before).push(me[i as int]));
            assert(me.take(i + 1) =~= me.take(i as int).push(me[i as int]));
            assert(views_of(out@) =~= clearing_statements() + me.take(i + 1));
        }
        i = i + 1;
    }
    assert(me.take(n as int) =~= me);
    proof {
        acc = clearing_statements() + me;
    }
    // the districts of the loaded election
    let districts = &e.districts.districts;
    let ghost md = districts@.map_values(|d: District| district_statements(*e, d));
    let n = districts.len();
    let mut i: usize = 0;
    assert(md.take(0).flatten() =~= Seq::<Seq<char>>::empty());
    assert(acc + md.take(0).flatten() =~= acc);
    while i < n
        invariant
            n == districts@.len(),
            i <= n,
            md == districts@.map_values(|d: District| district_statements(*e, d)),
            views_of(out@) == acc + md.take(i as int).flatten(),
        decreases n - i,
    {
        let mut part = district_sql(e, &districts[i]);
        let ghost before = out@;
        let ghost added = part@;
        out.append(&mut part);
        proof {
            lemma_views_of_add(before, added);
            lemma_flatten_take_step(md, i as int);
            assert(views_of(out@) =~= acc + md.take(i + 1).flatten());
        }
        i = i + 1;
    }
    assert(md.take(n as int) =~= md);
    proof {
        acc = acc + md.flatten();
    }
    // every venue
    let venues = &results.venues.booths;
    let ghost mv = venues@.map_values(|v: Booth| venue_statements(v));
    let n = venues.len();
    let mut i: usize = 0;
    assert(mv.take(0).flatten() =~= Seq::<Seq<char>>::empty());
    assert(acc + mv.take(0).flatten() =~= acc);
    while i < n
        invariant
            n == venues@.len(),
            i <= n,
            mv == venues@.map_values(|v: Booth| venue_statements(v)),
            views_of(out@) == acc + mv.take(i as int).flatten(),
        decreases n - i,
    {
        let mut part = venue_sql(&venues[i]);
        let ghost before = out@;
        let ghost added = part@;
        out.append(&mut part);
        proof {
            lemma_views_of_add(before, added);
            lemma_flatten_take_step(mv, i as int);
            assert(views_of(out@) =~= acc + mv.take(i + 1).flatten());
        }
        i = i + 1;
    }
    assert(mv.take(n as int) =~= mv);
    out
}

/// The statements that store the unofficial preliminary counts of the
/// first election of a document. A document without an election cannot be
/// loaded; `requires` leaves it out.
pub fn count_statements(results: &ECQResults) -> (r: Vec<String>)
    requires
        results.elections@.len() > 0,
    ensures
        views_of(r@) == count_sql(*results),
{
    let districts = &results.elections[0].districts.districts;
    let ghost m = districts@.map_values(|d: District| district_count_statements(d));
    let mut out: Vec<String> = Vec::new();
    out.push("DELETE FROM unof_prelim_count".to_owned());
    let ghost head = views_of(out@);
    assert(head =~= seq!["DELETE FROM unof_prelim_count"@]);
    assert(head + m.take(0).flatten() =~= head);
    let n = districts.len();
    let mut i: usize = 0;
    while i < n
        invariant
            n == districts@.len(),
            i <= n,
            m == districts@.map_values(|d: District| district_count_statements(d)),
            views_of(out@) == head + m.take(i as int).flatten(),
        decreases n - i,
    {
        let mut part = district_count_sql(&districts[i]);
        let ghost before = out@;
        let ghost added = part@;
        out.append(&mut part);
        proof {
            lemma_views_of_add(before, added);
            lemma_flatten_take_step(m, i as int);
            assert(views_of(out@) =~= head + m.take(i + 1).flatten());
        }
        i = i + 1;
    }
    assert(m.take(n as int) =~= m);
    out
}

/// Everything loading a document runs: its elections, districts,
/// candidates and venues, then its counts. A document without an election
/// cannot be loaded; `requires` leaves it out.
pub fn result_statements(results: &ECQResults) -> (r: Vec<String>)
    requires
        results.elections@.len() > 0,
    ensures
        views_of(r@) == result_sql(*results),
{
    let mut out = setup_info_statements(results);
    let mut counts = count_statements(results);
    let ghost before = out@;
    let ghost added = counts@;
    out.append(&mut counts);
    proof {
        lemma_views_of_add(before, added);
    }
    out
}

/// Loading a document first empties its six tables, then stores each of
/// its elections, in the document's order.
pub proof fn law_setup_clears_then_stores_elections(r: ECQResults)
    requires
        r.elections@.len() > 0,
    ensures
        setup_info_sql(r).take(6) == clearing_statements(),
        setup_info_sql(r).subrange(6, 6 + r.elections@.len() as int) == r.elections@.map_values(
            |x: Election| election_insert_sql(x),
        ),
{
    let e = loaded_election(r);
    let a = clearing_statements() + r.elections@.map_values(|x: Election| election_insert_sql(x));
    let b = e.districts.districts@.map_values(|d: District| district_statements(e, d)).flatten();
    let c = r.venues.booths@.map_values(|v: Booth| venue_statements(v)).flatten();
    assert(setup_info_sql(r) == a + b + c);
    assert((a + b + c).take(6) =~= clearing_statements());
    assert((a + b + c).subrange(6, 6 + r.elections@.len() as int) =~= r.elections@.map_values(
        |x: Election| election_insert_sql(x),
    ));
}

proof fn lemma_flatten_all_empty(s: Seq<Seq<Seq<char>>>)
    requires
        forall|i: int| 0 <= i < s.len() ==> (#[trigger] s[i]).len() == 0,
    ensures
        s.flatten() == Seq::<Seq<char>>::empty(),
    decreases s.len(),
{
    if s.len() > 0 {
        lemma_flatten_all_empty(s.drop_first());
        assert(s.first() =~= Seq::<Seq<char>>::empty());
        assert(s.flatten() =~= Seq::<Seq<char>>::empty());
    }
}

/// A venue that serves only the two skipped by-elections is stored without
/// any district link.
pub proof fn law_skipped_by_elections_are_not_linked(v: Booth)
    requires
        forall|i: int| 0 <= i < v.districts@.len() ==> skipped_booth_election(#[trigger] v.districts@[i].election@),
    ensures
        venue_statements(v) == seq![booth_insert_sql(v)],
{
    let m = v.districts@.map_values(|bd: BoothDistrict| booth_district_statements(v, bd));
    assert forall|i: int| 0 <= i < m.len() implies (#[trigger] m[i]).len() == 0 by {
        assert(skipped_booth_election(v.districts@[i].election@));
    }
    lemma_flatten_all_empty(m);
    assert(venue_statements(v) =~= seq![booth_insert_sql(v)]);
}

/// The number of statements in a list of statement lists.
pub open spec fn statement_count(s: Seq<Seq<Seq<char>>>) -> int
    decreases s.len(),
{
    if s.len() == 0 {
        0
    } else {
        statement_count(s.drop_last()) + s.last().len()
    }
}

proof fn lemma_flatten_len(s: Seq<Seq<Seq<char>>>)
    ensures
        s.flatten().len() == statement_count(s),
    decreases s.len(),
{
    s.lemma_flatten_and_flatten_alt_are_equivalent();
    if s.len() > 0 {
        lemma_flatten_len(s.drop_last());
        s.drop_last().lemma_flatten_and_flatten_alt_are_equivalent();
    }
}

proof fn lemma_count_of_pairs(s: Seq<Seq<Seq<char>>>)
    requires
        forall|i: int| 0 <= i < s.len() ==> (#[trigger] s[i]).len() == 2,
    ensures
        statement_count(s) == 2 * s.len(),
    decreases s.len(),
{
    if s.len() > 0 {
        let t = s.drop_last();
        assert forall|i: int| 0 <= i < t.len() implies (#[trigger] t[i]).len() == 2 by {
            assert(t[i] == s[i]);
        }
        lemma_count_of_pairs(t);
    }
}

/// Loading a document's elections, districts, candidates and venues runs
/// six clearing statements, one per election, per district of the loaded
/// election one plus two per candidate, and per venue one plus one per
/// district link that is not skipped.
pub proof fn law_setup_statement_count(r: ECQResults)
    requires
        r.elections@.len() > 0,
    ensures
        ({
            let e = loaded_election(r);
            let ds = e.districts.districts@.map_values(|d: District| district_statements(e, d));
            let vs = r.venues.booths@.map_values(|v: Booth| venue_statements(v));
            &&& setup_info_sql(r).len() == 6 + r.elections@.len() + statement_count(ds) + statement_count(vs)
            &&& forall|i: int| 0 <= i < ds.len() ==> (#[trigger] ds[i]).len() == 1 + 2
                * e.districts.districts@[i].candidates.candidates@.len()
            &&& forall|i: int| 0 <= i < vs.len() ==> (#[trigger] vs[i]).len() == 1 + statement_count(
                r.venues.booths@[i].districts@.map_values(
                    |bd: BoothDistrict| booth_district_statements(r.venues.booths@[i], bd),
                ),
            )
        }),
{
    let e = loaded_election(r);
    let ds = e.districts.districts@.map_values(|d: District| district_statements(e, d));
    let vs = r.venues.booths@.map_values(|v: Booth| venue_statements(v));
    lemma_flatten_len(ds);
    lemma_flatten_len(vs);
    assert forall|i: int| 0 <= i < ds.len() implies (#[trigger] ds[i]).len() == 1 + 2
        * e.districts.districts@[i].candidates.candidates@.len() by {
        lemma_district_statement_count(e, e.districts.districts@[i]);
    }
    assert forall|i: int| 0 <= i < vs.len() implies (#[trigger] vs[i]).len() == 1 + statement_count(
        r.venues.booths@[i].districts@.map_values(
            |bd: BoothDistrict| booth_district_statements(r.venues.booths@[i], bd),
        ),
    ) by {
        lemma_venue_statement_count(r.venues.booths@[i]);
    }
}

proof fn lemma_district_statement_count(e: Election, d: District)
    ensures
        district_statements(e, d).len() == 1 + 2 * d.candidates.candidates@.len(),
{
    let m = d.candidates.candidates@.map_values(|c: Candidate| candidate_statements(d, c));
    lemma_flatten_len(m);
    lemma_count_of_pairs(m);
}

proof fn lemma_venue_statement_count(v: Booth)
    ensures
        venue_statements(v).len() == 1 + statement_count(
            v.districts@.map_values(|bd: BoothDistrict| booth_district_statements(v, bd)),
        ),
{
    lemma_flatten_len(v.districts@.map_values(|bd: BoothDistrict| booth_district_statements(v, bd)));
}

/// A document none of whose loaded districts has an unofficial preliminary
/// count round stores no count: loading the counts only empties the table.
pub proof fn law_counts_come_only_from_preliminary_rounds(r: ECQResults)
    requires
        r.elections@.len() > 0,
        forall|i: int, j: int|
            0 <= i < loaded_election(r).districts.districts@.len() && 0 <= j
                < loaded_election(r).districts.districts@[i].count_rounds@.len() ==> !is_preliminary_round(
                #[trigger] loaded_election(r).districts.districts@[i].count_rounds@[j],
            ),
    ensures
        count_sql(r) == seq!["DELETE FROM unof_prelim_count"@],
{
    let ds = loaded_election(r).districts.districts@;
    let m = ds.map_values(|d: District| district_count_statements(d));
    assert forall|i: int| 0 <= i < m.len() implies (#[trigger] m[i]).len() == 0 by {
        let d = ds[i];
        let rm = d.count_rounds@.map_values(|cr: CountRoundCouncillorType| round_count_statements(d, cr));
        assert forall|j: int| 0 <= j < rm.len() implies (#[trigger] rm[j]).len() == 0 by {
            assert(!is_preliminary_round(ds[i].count_rounds@[j]));
        }
        lemma_flatten_all_empty(rm);
    }
    lemma_flatten_all_empty(m);
    assert(count_sql(r) =~= seq!["DELETE FROM unof_prelim_count"@]);
}

proof fn lemma_flatten_keeps(s: Seq<Seq<Seq<char>>>, k: int, x: Seq<char>)
    requires
        0 <= k < s.len(),
        s[k].contains(x),
    ensures
        s.flatten().contains(x),
{
    let j = choose|j: int| 0 <= j < s[k].len() && s[k][j] == x;
    lemma_flatten_contains(s, k, j);
}

/// The counts stored for a booth of an unofficial preliminary count round
/// of a loaded district are one statement per candidate result of the
/// booth, in the booth's order, each naming the candidate, the district,
/// the booth and the candidate's votes; and every one of them is among the
/// statements that load the counts.
pub proof fn law_booth_counts(r: ECQResults, i: int, j: int, m: int)
    requires
        r.elections@.len() > 0,
        0 <= i < r.elections@[0].districts.districts@.len(),
        0 <= j < r.elections@[0].districts.districts@[i].count_rounds@.len(),
        r.elections@[0].districts.districts@[i].count_rounds@[j].count_name@ == "Unofficial Preliminary Count"@,
        0 <= m < r.elections@[0].districts.districts@[i].count_rounds@[j].booth_results.booths@.len(),
    ensures
        ({
            let d = r.elections@[0].districts.districts@[i];
            let b = d.count_rounds@[j].booth_results.booths@[m];
            let results = b.primary_vote_results.candidate_results@;
            &&& booth_count_statements(d, b).len() == results.len()
            &&& forall|k: int|
                0 <= k < results.len() ==> #[trigger] booth_count_statements(d, b)[k] == unof_insert_sql(
                    d.district_name@,
                    b.id@,
                    results[k],
                )
            &&& forall|k: int|
                0 <= k < results.len() ==> count_sql(r).contains(
                    unof_insert_sql(d.district_name@, b.id@, #[trigger] results[k]),
                )
        }),
{
    let ds = r.elections@[0].districts.districts@;
    let d = ds[i];
    let cr = d.count_rounds@[j];
    let b = cr.booth_results.booths@[m];
    let results = b.primary_vote_results.candidate_results@;
    let bm = cr.booth_results.booths@.map_values(|x: ResultBooth| booth_count_statements(d, x));
    let rm = d.count_rounds@.map_values(|x: CountRoundCouncillorType| round_count_statements(d, x));
    let dm = ds.map_values(|x: District| district_count_statements(x));
    assert forall|k: int| 0 <= k < results.len() implies count_sql(r).contains(
        unof_insert_sql(d.district_name@, b.id@, #[trigger] results[k]),
    ) by {
        let x = unof_insert_sql(d.district_name@, b.id@, results[k]);
        assert(bm[m][k] == x);
        lemma_flatten_contains(bm, m, k);
        assert(rm[j] == bm.flatten());
        lemma_flatten_keeps(rm, j, x);
        assert(dm[i] == rm.flatten());
        lemma_flatten_keeps(dm, i, x);
        let c = count_sql(r);
        let w = choose|w: int| 0 <= w < dm.flatten().len() && dm.flatten()[w] == x;
        assert(c[w + 1] == x);
    }
}

/// A venue's stored abolished value reads back as its flag: the row has
/// eleven values, the last is `true` exactly when the venue is abolished
/// and `false` otherwise; and the venue's row is among the setup
/// statements.
pub proof fn law_venue_row_keeps_abolished(r: ECQResults, k: int)
    requires
        r.elections@.len() > 0,
        0 <= k < r.venues.booths@.len(),
    ensures
        ({
            let v = r.venues.booths@[k];
            &&& booth_values(v).len() == 11
            &&& (booth_values(v)[10] == "true"@) == v.abolished
            &&& (booth_values(v)[10] == "false"@) == !v.abolished
            &&& booth_insert_sql(v) == "INSERT INTO aec.booths (ec_id, name, building_name, street_no, street_name, locality, state, postcode, lat, long, abolished)VALUES "@
                + value_tuple(booth_values(v)) + ";"@
            &&& setup_info_sql(r).contains(booth_insert_sql(v))
        }),
{
    reveal_strlit("true");
    reveal_strlit("false");
    let v = r.venues.booths@[k];
    let vm = r.venues.booths@.map_values(|x: Booth| venue_statements(x));
    assert(vm[k][0] == booth_insert_sql(v));
    lemma_flatten_contains(vm, k, 0);
    let e = loaded_election(r);
    let a = clearing_statements() + r.elections@.map_values(|x: Election| election_insert_sql(x))
        + e.districts.districts@.map_values(|d: District| district_statements(e, d)).flatten();
    let w = choose|w: int| 0 <= w < vm.flatten().len() && vm.flatten()[w] == booth_insert_sql(v);
    assert(setup_info_sql(r) == a + vm.flatten());
    assert(setup_info_sql(r)[a.len() + w] == booth_insert_sql(v));
}

/// Loading a document's setup stores every district of its first election
/// with each of the district's candidates and the candidate's district
/// link, and links every venue to every district it serves outside the two
/// skipped by-elections.
pub proof fn law_setup_stores_districts_candidates_and_links(r: ECQResults)
    requires
        r.elections@.len() > 0,
    ensures
        forall|i: int|
            0 <= i < r.elections@[0].districts.districts@.len() ==> setup_info_sql(r).contains(
                district_insert_sql(r.elections@[0], #[trigger] r.elections@[0].districts.districts@[i]),
            ),
        forall|i: int, c: int|
            0 <= i < r.elections@[0].districts.districts@.len() && 0 <= c
                < r.elections@[0].districts.districts@[i].candidates.candidates@.len() ==> setup_info_sql(r).contains(
                candidate_insert_sql(#[trigger] r.elections@[0].districts.districts@[i].candidates.candidates@[c]),
            ) && setup_info_sql(r).contains(
                candidate_district_sql(
                    r.elections@[0].districts.districts@[i],
                    r.elections@[0].districts.districts@[i].candidates.candidates@[c],
                ),
            ),
        forall|k: int, l: int|
            0 <= k < r.venues.booths@.len() && 0 <= l < r.venues.booths@[k].districts@.len()
                && !skipped_booth_election(#[trigger] r.venues.booths@[k].districts@[l].election@)
                ==> setup_info_sql(r).contains(booth_district_sql(r.venues.booths@[k], r.venues.booths@[k].districts@[l])),
{
    let e = loaded_election(r);
    let dm = e.districts.districts@.map_values(|d: District| district_statements(e, d));
    let vm = r.venues.booths@.map_values(|x: Booth| venue_statements(x));
    let head = clearing_statements() + r.elections@.map_values(|x: Election| election_insert_sql(x));
    let all = setup_info_sql(r);
    assert(all == head + dm.flatten() + vm.flatten());
    assert forall|x: Seq<char>| dm.flatten().contains(x) implies all.contains(x) by {
        let w = choose|w: int| 0 <= w < dm.flatten().len() && dm.flatten()[w] == x;
        assert(all[head.len() + w] == x);
    }
    assert forall|x: Seq<char>| vm.flatten().contains(x) implies all.contains(x) by {
        let w = choose|w: int| 0 <= w < vm.flatten().len() && vm.flatten()[w] == x;
        assert(all[head.len() + dm.flatten().len() + w] == x);
    }
    assert forall|i: int| 0 <= i < r.elections@[0].districts.districts@.len() implies all.contains(
        district_insert_sql(r.elections@[0], #[trigger] r.elections@[0].districts.districts@[i]),
    ) by {
        assert(dm[i][0] == district_insert_sql(e, e.districts.districts@[i]));
        lemma_flatten_contains(dm, i, 0);
    }
    assert forall|i: int, c: int|
        0 <= i < r.elections@[0].districts.districts@.len() && 0 <= c
            < r.elections@[0].districts.districts@[i].candidates.candidates@.len() implies all.contains(
        candidate_insert_sql(#[trigger] r.elections@[0].districts.districts@[i].candidates.candidates@[c]),
    ) && all.contains(
        candidate_district_sql(
            r.elections@[0].districts.districts@[i],
            r.elections@[0].districts.districts@[i].candidates.candidates@[c],
        ),
    ) by {
        let d = e.districts.districts@[i];
        let cm = d.candidates.candidates@.map_values(|x: Candidate| candidate_statements(d, x));
        assert(cm[c][0] == candidate_insert_sql(d.candidates.candidates@[c]));
        assert(cm[c][1] == candidate_district_sql(d, d.candidates.candidates@[c]));
        lemma_flatten_contains(cm, c, 0);
        lemma_flatten_contains(cm, c, 1);
        let f = cm.flatten();
        assert(dm[i] == seq![district_insert_sql(e, d)] + f);
        let w0 = choose|w: int| 0 <= w < f.len() && f[w] == candidate_insert_sql(d.candidates.candidates@[c]);
        let w1 = choose|w: int| 0 <= w < f.len() && f[w] == candidate_district_sql(d, d.candidates.candidates@[c]);
        assert(dm[i][w0 + 1] == candidate_insert_sql(d.candidates.candidates@[c]));
        assert(dm[i][w1 + 1] == candidate_district_sql(d, d.candidates.candidates@[c]));
        lemma_flatten_contains(dm, i, w0 + 1);
        lemma_flatten_contains(dm, i, w1 + 1);
    }
    assert forall|k: int, l: int|
        0 <= k < r.venues.booths@.len() && 0 <= l < r.venues.booths@[k].districts@.len()
            && !skipped_booth_election(#[trigger] r.venues.booths@[k].districts@[l].election@)
        implies all.contains(booth_district_sql(r.venues.booths@[k], r.venues.booths@[k].districts@[l])) by {
        let v = r.venues.booths@[k];
        let lm = v.districts@.map_values(|bd: BoothDistrict| booth_district_statements(v, bd));
        let x = booth_district_sql(v, v.districts@[l]);
        assert(lm[l][0] == x);
        lemma_flatten_contains(lm, l, 0);
        let f = lm.flatten();
        assert(vm[k] == seq![booth_insert_sql(v)] + f);
        let w = choose|w: int| 0 <= w < f.len() && f[w] == x;
        assert(vm[k][w + 1] == x);
        lemma_flatten_contains(vm, k, w + 1);
    }
}

} // verus!
