//! Loading an AEC federal election feed: the SQL statements that store the
//! votes, polling places, events, elections, contests and candidates of the
//! feed documents, and the tables they go into.
use crate::archive::{document_in, read_feed_document, FeedError};
use crate::sql::{column_pairs, create_table_sql, drop_table_sql, table_schema, value_tuple, value_tuple_text, PostGresObj, SqlType};
use crate::text::{
    all_present, concat_present, join, join_strings, lemma_all_present_prefix, lemma_concat_present_prefix,
    lemma_all_present_items, lemma_concat_present_parts, lemma_present_len_mono, lemma_present_len_uniform, present_len, lemma_views_of_add, parse_i32, parsed_integer, signed_decimal, signed_decimal_string, views_of,
};
use crate::xml::{child_text_of, lemma_view_child, str_equal, XmlElement};
use vstd::prelude::*;

verus! {

pub const PRIMARY_VOTE_INSERT: &'static str = "INSERT INTO aec.primaryvote (timestamp, event_id, contest_id, polling_place_id, candidate_id, votes) VALUES ";

pub const TWO_CANDIDATE_VOTE_INSERT: &'static str = "INSERT INTO aec.twocandidatepreferredvote (timestamp, event_id, contest_id, polling_place_id, candidate_id, votes) VALUES ";

pub const PRELOAD_PRIMARY_VOTE_INSERT: &'static str = "INSERT INTO aec.primaryvote (event_id, contest_id, polling_place_id, candidate_id, votes) VALUES ";

pub const POLLING_PLACE_INSERT: &'static str = "INSERT INTO aec.pollingplace (event_id, district_id, id, name, lat, long) VALUES ";

pub const ELECTION_EVENT_INSERT: &'static str = "INSERT INTO aec.electionevent (election_id, transaction_id, name) VALUES ";

pub const ELECTION_INSERT: &'static str = "INSERT INTO aec.election (event_id, identifier, name, category, date) VALUES ";

pub const CONTEST_INSERT: &'static str = "INSERT INTO aec.contest (event_id, identifier, id, shortcode, name) VALUES ";

pub const CANDIDATE_INSERT: &'static str = "INSERT INTO aec.candidate (event_id, election_identifier, contest_id, id, name, affiliation) VALUES ";

/// The election whose candidate list the loader skips (a referendum).
pub const SKIPPED_CANDIDATE_EVENT: &'static str = "29581";

/// The attribute `attr` of the first child called `child`.
pub open spec fn attr_of_child(e: XmlElement, child: Seq<char>, attr: Seq<char>) -> Option<Seq<char>> {
    match e.child_named(child) {
        Some(c) => c.attr_value(attr),
        None => None,
    }
}

fn child_attr(e: &XmlElement, child: &str, attr: &str) -> (r: Option<String>)
    ensures
        match r {
            Some(v) => attr_of_child(*e, child@, attr@) == Some(v@),
            None => attr_of_child(*e, child@, attr@) is None,
        },
{
    match e.get_child_ignore_ns(child) {
        Some(c) => c.attr_string(attr),
        None => None,
    }
}

/// The `Updated` attribute of a count, empty without one.
pub open spec fn updated_of(e: XmlElement) -> Seq<char> {
    match e.attr_value("Updated"@) {
        Some(u) => u,
        None => Seq::empty(),
    }
}

fn updated_text(e: &XmlElement) -> (r: String)
    ensures
        r@ == updated_of(*e),
{
    match e.attr_string("Updated") {
        Some(u) => u,
        None => String::new(),
    }
}

/// One row of votes: the leading values, then the polling place, the candidate
/// and the candidate's votes (read as an `i32`).
pub open spec fn vote_row(lead: Seq<Seq<char>>, pp: XmlElement, cand: XmlElement) -> Option<Seq<char>> {
    match (
        attr_of_child(pp, "PollingPlaceIdentifier"@, "Id"@),
        attr_of_child(cand, "CandidateIdentifier"@, "Id"@),
        cand.child_named("Votes"@),
    ) {
        (Some(pp_id), Some(cand_id), Some(v)) => match parsed_integer(v.text@, i32::MIN as int, i32::MAX as int) {
            Some(votes) => Some(value_tuple(lead + seq![pp_id, cand_id, signed_decimal(votes)])),
            None => None,
        },
        _ => None,
    }
}

pub open spec fn vote_row_items(lead: Seq<Seq<char>>, pp: XmlElement, cands: Seq<XmlElement>) -> Seq<Option<Seq<char>>> {
    cands.map_values(|c: XmlElement| vote_row(lead, pp, c))
}

/// The rows of every `Candidate` of a count section.
pub open spec fn vote_rows(lead: Seq<Seq<char>>, pp: XmlElement, section: XmlElement) -> Option<Seq<Seq<char>>> {
    all_present(vote_row_items(lead, pp, section.children_named("Candidate"@)))
}

fn vote_row_text(lead: &Vec<String>, pp: &XmlElement, cand: &XmlElement) -> (r: Option<String>)
    ensures
        match r {
            Some(t) => vote_row(views_of(lead@), *pp, *cand) == Some(t@),
            None => vote_row(views_of(lead@), *pp, *cand) is None,
        },
{
    let pp_id = match child_attr(pp, "PollingPlaceIdentifier", "Id") {
        Some(v) => v,
        None => return None,
    };
    let cand_id = match child_attr(cand, "CandidateIdentifier", "Id") {
        Some(v) => v,
        None => return None,
    };
    let votes = match cand.get_child_ignore_ns("Votes") {
        Some(v) => match parse_i32(v.text.as_str()) {
            Some(n) => n,
            None => return None,
        },
        None => return None,
    };
    let mut values: Vec<String> = Vec::new();
    let n = lead.len();
    let mut i: usize = 0;
    while i < n
        invariant
            n == lead@.len(),
            i <= n,
            values@.len() == i,
            forall|j: int| 0 <= j < i ==> (#[trigger] values@[j])@ == lead@[j]@,
        decreases n - i,
    {
        values.push(lead[i].clone());
        i = i + 1;
    }
    values.push(pp_id);
    values.push(cand_id);
    values.push(signed_decimal_string(votes as i64));
    let ghost expected = views_of(lead@) + seq![
        attr_of_child(*pp, "PollingPlaceIdentifier"@, "Id"@).unwrap(),
        attr_of_child(*cand, "CandidateIdentifier"@, "Id"@).unwrap(),
        signed_decimal(votes as int)
    ];
    assert(views_of(values@) =~= expected);
    Some(value_tuple_text(&values))
}

fn vote_rows_text(lead: &Vec<String>, pp: &XmlElement, section: &XmlElement) -> (r: Option<Vec<String>>)
    ensures
        match r {
            Some(rows) => vote_rows(views_of(lead@), *pp, *section) == Some(views_of(rows@)),
            None => vote_rows(views_of(lead@), *pp, *section) is None,
        },
{
    let cands = section.get_children_ignore_ns("Candidate");
    let ghost spec_cands = section.children_named("Candidate"@);
    let ghost items = vote_row_items(views_of(lead@), *pp, spec_cands);
    let mut rows: Vec<String> = Vec::new();
    let n = cands.len();
    let mut i: usize = 0;
    assert(items.take(0) =~= Seq::<Option<Seq<char>>>::empty());
    while i < n
        invariant
            n == cands@.len(),
            spec_cands.len() == n,
            items.len() == n,
            items == vote_row_items(views_of(lead@), *pp, spec_cands),
            spec_cands == section.children_named("Candidate"@),
            forall|k: int| 0 <= k < n ==> *cands@[k] == #[trigger] spec_cands[k],
            i <= n,
            all_present(items.take(i as int)) == Some(views_of(rows@)),
        decreases n - i,
    {
        proof {
            assert(items.take(i + 1).drop_last() =~= items.take(i as int));
            assert(items.take(i + 1).last() == items[i as int]);
        }
        match vote_row_text(lead, pp, cands[i]) {
            Some(row) => {
                let ghost before = rows@;
                rows.push(row);
                assert(views_of(rows@) =~= views_of(before).push(row@));
            },
            None => {
                proof {
                    lemma_all_present_prefix(items, i + 1, n as int);
                    assert(items.take(n as int) =~= items);
                }
                return None;
            },
        }
        i = i + 1;
    }
    assert(items.take(n as int) =~= items);
    Some(rows)
}


/// The vote statements of one polling place: with `light` (the "light"
/// results feed) one first-preference and one two-candidate-preferred
/// statement, each row stamped with its count's `Updated` time; otherwise
/// (the preload feed) one first-preference statement without times.
pub open spec fn polling_place_votes(light: bool, eid: Seq<char>, cid: Seq<char>, pp: XmlElement) -> Option<Seq<Seq<char>>> {
    if light {
        match (pp.child_named("FirstPreferences"@), pp.child_named("TwoCandidatePreferred"@)) {
            (Some(fp), Some(tcp)) => match (
                vote_rows(seq![updated_of(fp), eid, cid], pp, fp),
                vote_rows(seq![updated_of(tcp), eid, cid], pp, tcp),
            ) {
                (Some(a), Some(b)) => Some(
                    seq![PRIMARY_VOTE_INSERT@ + join(a, ", "@), TWO_CANDIDATE_VOTE_INSERT@ + join(b, ", "@)],
                ),
                _ => None,
            },
            _ => None,
        }
    } else {
        match pp.child_named("FirstPreferences"@) {
            Some(fp) => match vote_rows(seq![eid, cid], pp, fp) {
                Some(a) => Some(seq![PRELOAD_PRIMARY_VOTE_INSERT@ + join(a, ", "@)]),
                None => None,
            },
            None => None,
        }
    }
}

pub open spec fn polling_place_items(light: bool, eid: Seq<char>, cid: Seq<char>, pps: Seq<XmlElement>) -> Seq<Option<Seq<Seq<char>>>> {
    pps.map_values(|pp: XmlElement| polling_place_votes(light, eid, cid, pp))
}

/// The vote statements of a House contest: those of its polling places, in order.
pub open spec fn contest_votes(light: bool, eid: Seq<char>, contest: XmlElement) -> Option<Seq<Seq<char>>> {
    match (attr_of_child(contest, "ContestIdentifier"@, "Id"@), contest.child_named("PollingPlaces"@)) {
        (Some(cid), Some(pps)) => concat_present(polling_place_items(light, eid, cid, pps.children_named("PollingPlace"@))),
        _ => None,
    }
}

pub open spec fn contest_items(light: bool, eid: Seq<char>, contests: Seq<XmlElement>) -> Seq<Option<Seq<Seq<char>>>> {
    contests.map_values(|c: XmlElement| contest_votes(light, eid, c))
}

/// The vote statements of an election: those of its House contests; Senate
/// and referendum results give none.
pub open spec fn election_votes(light: bool, eid: Seq<char>, election: XmlElement) -> Option<Seq<Seq<char>>> {
    match election.child_named("House"@) {
        Some(h) => match h.child_named("Contests"@) {
            Some(cs) => concat_present(contest_items(light, eid, cs.children_named("Contest"@))),
            None => None,
        },
        None => Some(Seq::empty()),
    }
}

pub open spec fn election_items(light: bool, eid: Seq<char>, elections: Seq<XmlElement>) -> Seq<Option<Seq<Seq<char>>>> {
    elections.map_values(|e: XmlElement| election_votes(light, eid, e))
}

/// The vote statements of a results feed document, election by election.
pub open spec fn feed_votes(light: bool, eid: Seq<char>, root: XmlElement) -> Option<Seq<Seq<char>>> {
    match root.child_named("Results"@) {
        Some(r) => concat_present(election_items(light, eid, r.children_named("Election"@))),
        None => None,
    }
}

fn polling_place_statements(light: bool, eid: &str, cid: &str, pp: &XmlElement) -> (r: Option<Vec<String>>)
    ensures
        match r {
            Some(v) => polling_place_votes(light, eid@, cid@, *pp) == Some(views_of(v@)),
            None => polling_place_votes(light, eid@, cid@, *pp) is None,
        },
{
    let fp = match pp.get_child_ignore_ns("FirstPreferences") {
        Some(f) => f,
        None => return None,
    };
    let mut out: Vec<String> = Vec::new();
    if light {
        let mut lead: Vec<String> = Vec::new();
        lead.push(updated_text(fp));
        lead.push(eid.to_owned());
        lead.push(cid.to_owned());
        assert(views_of(lead@) =~= seq![updated_of(*fp), eid@, cid@]);
        let rows = match vote_rows_text(&lead, pp, fp) {
            Some(r) => r,
            None => return None,
        };
        let tcp = match pp.get_child_ignore_ns("TwoCandidatePreferred") {
            Some(t) => t,
            None => return None,
        };
        let mut lead2: Vec<String> = Vec::new();
        lead2.push(updated_text(tcp));
        lead2.push(eid.to_owned());
        lead2.push(cid.to_owned());
        assert(views_of(lead2@) =~= seq![updated_of(*tcp), eid@, cid@]);
        let rows2 = match vote_rows_text(&lead2, pp, tcp) {
            Some(r) => r,
            None => return None,
        };
        let mut first = PRIMARY_VOTE_INSERT.to_owned();
        first.append(join_strings(&rows, ", ").as_str());
        let mut second = TWO_CANDIDATE_VOTE_INSERT.to_owned();
        second.append(join_strings(&rows2, ", ").as_str());
        out.push(first);
        out.push(second);
    } else {
        let mut lead: Vec<String> = Vec::new();
        lead.push(eid.to_owned());
        lead.push(cid.to_owned());
        assert(views_of(lead@) =~= seq![eid@, cid@]);
        let rows = match vote_rows_text(&lead, pp, fp) {
            Some(r) => r,
            None => return None,
        };
        let mut first = PRELOAD_PRIMARY_VOTE_INSERT.to_owned();
        first.append(join_strings(&rows, ", ").as_str());
        out.push(first);
    }
    assert(views_of(out@) =~= polling_place_votes(light, eid@, cid@, *pp).unwrap());
    Some(out)
}

fn contest_statements(light: bool, eid: &str, contest: &XmlElement) -> (r: Option<Vec<String>>)
    ensures
        match r {
            Some(v) => contest_votes(light, eid@, *contest) == Some(views_of(v@)),
            None => contest_votes(light, eid@, *contest) is None,
        },
{
    let cid = match child_attr(contest, "ContestIdentifier", "Id") {
        Some(c) => c,
        None => return None,
    };
    let holder = match contest.get_child_ignore_ns("PollingPlaces") {
        Some(p) => p,
        None => return None,
    };
    let pps = holder.get_children_ignore_ns("PollingPlace");
    let ghost spec_pps = holder.children_named("PollingPlace"@);
    let ghost items = polling_place_items(light, eid@, cid@, spec_pps);
    let mut out: Vec<String> = Vec::new();
    let n = pps.len();
    let mut i: usize = 0;
    assert(items.take(0) =~= Seq::<Option<Seq<Seq<char>>>>::empty());
    while i < n
        invariant
            n == pps@.len(),
            spec_pps.len() == n,
            items.len() == n,
            items == polling_place_items(light, eid@, cid@, spec_pps),
            spec_pps == holder.children_named("PollingPlace"@),
            contest.child_named("PollingPlaces"@) == Some(*holder),
            attr_of_child(*contest, "ContestIdentifier"@, "Id"@) == Some(cid@),
            forall|k: int| 0 <= k < n ==> *pps@[k] == #[trigger] spec_pps[k],
            i <= n,
            concat_present(items.take(i as int)) == Some(views_of(out@)),
        decreases n - i,
    {
        proof {
            assert(items.take(i + 1).drop_last() =~= items.take(i as int));
            assert(items.take(i + 1).last() == items[i as int]);
        }
        match polling_place_statements(light, eid, cid.as_str(), pps[i]) {
            Some(mut piece) => {
                let ghost before = out@;
                let ghost added = piece@;
                out.append(&mut piece);
                proof {
                    lemma_views_of_add(before, added);
                }
            },
            None => {
                proof {
                    lemma_concat_present_prefix(items, i + 1, n as int);
                    assert(items.take(n as int) =~= items);
                }
                return None;
            },
        }
        i = i + 1;
    }
    assert(items.take(n as int) =~= items);
    Some(out)
}

fn election_statements(light: bool, eid: &str, election: &XmlElement) -> (r: Option<Vec<String>>)
    ensures
        match r {
            Some(v) => election_votes(light, eid@, *election) == Some(views_of(v@)),
            None => election_votes(light, eid@, *election) is None,
        },
{
    let house = match election.get_child_ignore_ns("House") {
        Some(h) => h,
        None => {
            let empty: Vec<String> = Vec::new();
            assert(views_of(empty@) =~= Seq::<Seq<char>>::empty());
            return Some(empty);
        },
    };
    let holder = match house.get_child_ignore_ns("Contests") {
        Some(c) => c,
        None => return None,
    };
    let contests = holder.get_children_ignore_ns("Contest");
    let ghost spec_cs = holder.children_named("Contest"@);
    let ghost items = contest_items(light, eid@, spec_cs);
    let mut out: Vec<String> = Vec::new();
    let n = contests.len();
    let mut i: usize = 0;
    assert(items.take(0) =~= Seq::<Option<Seq<Seq<char>>>>::empty());
    while i < n
        invariant
            n == contests@.len(),
            spec_cs.len() == n,
            items.len() == n,
            items == contest_items(light, eid@, spec_cs),
            spec_cs == holder.children_named("Contest"@),
            election.child_named("House"@) == Some(*house),
            house.child_named("Contests"@) == Some(*holder),
            forall|k: int| 0 <= k < n ==> *contests@[k] == #[trigger] spec_cs[k],
            i <= n,
            concat_present(items.take(i as int)) == Some(views_of(out@)),
        decreases n - i,
    {
        proof {
            assert(items.take(i + 1).drop_last() =~= items.take(i as int));
            assert(items.take(i + 1).last() == items[i as int]);
        }
        match contest_statements(light, eid, contests[i]) {
            Some(mut piece) => {
                let ghost before = out@;
                let ghost added = piece@;
                out.append(&mut piece);
                proof {
                    lemma_views_of_add(before, added);
                }
            },
            None => {
                proof {
                    lemma_concat_present_prefix(items, i + 1, n as int);
                    assert(items.take(n as int) =~= items);
                }
                return None;
            },
        }
        i = i + 1;
    }
    assert(items.take(n as int) =~= items);
    Some(out)
}

/// The vote statements of a results feed document.
pub fn feed_vote_statements(light: bool, election_id: &str, root: &XmlElement) -> (r: Option<Vec<String>>)
    ensures
        match r {
            Some(v) => feed_votes(light, election_id@, *root) == Some(views_of(v@)),
            None => feed_votes(light, election_id@, *root) is None,
        },
{
    let holder = match root.get_child_ignore_ns("Results") {
        Some(r) => r,
        None => return None,
    };
    let elections = holder.get_children_ignore_ns("Election");
    let ghost spec_es = holder.children_named("Election"@);
    let ghost items = election_items(light, election_id@, spec_es);
    let mut out: Vec<String> = Vec::new();
    let n = elections.len();
    let mut i: usize = 0;
    assert(items.take(0) =~= Seq::<Option<Seq<Seq<char>>>>::empty());
    while i < n
        invariant
            n == elections@.len(),
            spec_es.len() == n,
            items.len() == n,
            items == election_items(light, election_id@, spec_es),
            spec_es == holder.children_named("Election"@),
            root.child_named("Results"@) == Some(*holder),
            forall|k: int| 0 <= k < n ==> *elections@[k] == #[trigger] spec_es[k],
            i <= n,
            concat_present(items.take(i as int)) == Some(views_of(out@)),
        decreases n - i,
    {
        proof {
            assert(items.take(i + 1).drop_last() =~= items.take(i as int));
            assert(items.take(i + 1).last() == items[i as int]);
        }
        match election_statements(light, election_id, elections[i]) {
            Some(mut piece) => {
                let ghost before = out@;
                let ghost added = piece@;
                out.append(&mut piece);
                proof {
                    lemma_views_of_add(before, added);
                }
            },
            None => {
                proof {
                    lemma_concat_present_prefix(items, i + 1, n as int);
                    assert(items.take(n as int) =~= items);
                }
                return None;
            },
        }
        i = i + 1;
    }
    assert(items.take(n as int) =~= items);
    Some(out)
}


/// A coordinate of a polling place's physical address.
pub open spec fn coordinate_of(pp: XmlElement, which: Seq<char>) -> Option<Seq<char>> {
    match pp.child_named("PhysicalLocation"@) {
        Some(l) => match l.child_named("Address"@) {
            Some(a) => match a.child_named("PostalServiceElements"@) {
                Some(p) => child_text_of(p, which),
                None => None,
            },
            None => None,
        },
        None => None,
    }
}

fn coordinate_text(pp: &XmlElement, which: &str) -> (r: Option<String>)
    ensures
        match r {
            Some(t) => coordinate_of(*pp, which@) == Some(t@),
            None => coordinate_of(*pp, which@) is None,
        },
{
    let l = match pp.get_child_ignore_ns("PhysicalLocation") {
        Some(l) => l,
        None => return None,
    };
    let a = match l.get_child_ignore_ns("Address") {
        Some(a) => a,
        None => return None,
    };
    let p = match a.get_child_ignore_ns("PostalServiceElements") {
        Some(p) => p,
        None => return None,
    };
    p.child_text(which)
}

/// One polling place row: event, district, place id and name, latitude and longitude.
pub open spec fn polling_place_row(eid: Seq<char>, did: Seq<char>, pp: XmlElement) -> Option<Seq<char>> {
    match (
        attr_of_child(pp, "PollingPlaceIdentifier"@, "Id"@),
        attr_of_child(pp, "PollingPlaceIdentifier"@, "Name"@),
        coordinate_of(pp, "AddressLatitude"@),
        coordinate_of(pp, "AddressLongitude"@),
    ) {
        (Some(id), Some(name), Some(lat), Some(long)) => Some(value_tuple(seq![eid, did, id, name, lat, long])),
        _ => None,
    }
}

pub open spec fn polling_place_row_items(eid: Seq<char>, did: Seq<char>, pps: Seq<XmlElement>) -> Seq<Option<Seq<char>>> {
    pps.map_values(|pp: XmlElement| polling_place_row(eid, did, pp))
}

/// The rows of a district's polling places, joined with `, `.
pub open spec fn district_rows(eid: Seq<char>, district: XmlElement) -> Option<Seq<char>> {
    match (attr_of_child(district, "PollingDistrictIdentifier"@, "Id"@), district.child_named("PollingPlaces"@)) {
        (Some(did), Some(pps)) => match all_present(polling_place_row_items(eid, did, pps.children_named("PollingPlace"@))) {
            Some(rows) => Some(join(rows, ", "@)),
            None => None,
        },
        _ => None,
    }
}

pub open spec fn district_items(eid: Seq<char>, districts: Seq<XmlElement>) -> Seq<Option<Seq<char>>> {
    districts.map_values(|d: XmlElement| district_rows(eid, d))
}

/// The single statement that stores every polling place of a polling districts document.
pub open spec fn polling_districts_statement(eid: Seq<char>, root: XmlElement) -> Option<Seq<char>> {
    match root.child_named("PollingDistrictList"@) {
        Some(l) => match all_present(district_items(eid, l.children_named("PollingDistrict"@))) {
            Some(ds) => Some(POLLING_PLACE_INSERT@ + join(ds, ", "@)),
            None => None,
        },
        None => None,
    }
}

fn polling_place_row_text(eid: &str, did: &str, pp: &XmlElement) -> (r: Option<String>)
    ensures
        match r {
            Some(t) => polling_place_row(eid@, did@, *pp) == Some(t@),
            None => polling_place_row(eid@, did@, *pp) is None,
        },
{
    let id = match child_attr(pp, "PollingPlaceIdentifier", "Id") {
        Some(v) => v,
        None => return None,
    };
    let name = match child_attr(pp, "PollingPlaceIdentifier", "Name") {
        Some(v) => v,
        None => return None,
    };
    let lat = match coordinate_text(pp, "AddressLatitude") {
        Some(v) => v,
        None => return None,
    };
    let long = match coordinate_text(pp, "AddressLongitude") {
        Some(v) => v,
        None => return None,
    };
    let mut values: Vec<String> = Vec::new();
    values.push(eid.to_owned());
    values.push(did.to_owned());
    values.push(id);
    values.push(name);
    values.push(lat);
    values.push(long);
    assert(views_of(values@) =~= seq![
        eid@,
        did@,
        attr_of_child(*pp, "PollingPlaceIdentifier"@, "Id"@).unwrap(),
        attr_of_child(*pp, "PollingPlaceIdentifier"@, "Name"@).unwrap(),
        coordinate_of(*pp, "AddressLatitude"@).unwrap(),
        coordinate_of(*pp, "AddressLongitude"@).unwrap()
    ]);
    Some(value_tuple_text(&values))
}

fn district_rows_text(eid: &str, district: &XmlElement) -> (r: Option<String>)
    ensures
        match r {
            Some(t) => district_rows(eid@, *district) == Some(t@),
            None => district_rows(eid@, *district) is None,
        },
{
    let did = match child_attr(district, "PollingDistrictIdentifier", "Id") {
        Some(v) => v,
        None => return None,
    };
    let holder = match district.get_child_ignore_ns("PollingPlaces") {
        Some(p) => p,
        None => return None,
    };
    let pps = holder.get_children_ignore_ns("PollingPlace");
    let ghost spec_pps = holder.children_named("PollingPlace"@);
    let ghost items = polling_place_row_items(eid@, did@, spec_pps);
    let mut rows: Vec<String> = Vec::new();
    let n = pps.len();
    let mut i: usize = 0;
    assert(items.take(0) =~= Seq::<Option<Seq<char>>>::empty());
    while i < n
        invariant
            n == pps@.len(),
            spec_pps.len() == n,
            items.len() == n,
            items == polling_place_row_items(eid@, did@, spec_pps),
            spec_pps == holder.children_named("PollingPlace"@),
            district.child_named("PollingPlaces"@) == Some(*holder),
            attr_of_child(*district, "PollingDistrictIdentifier"@, "Id"@) == Some(did@),
            forall|k: int| 0 <= k < n ==> *pps@[k] == #[trigger] spec_pps[k],
            i <= n,
            all_present(items.take(i as int)) == Some(views_of(rows@)),
        decreases n - i,
    {
        proof {
            assert(items.take(i + 1).drop_last() =~= items.take(i as int));
            assert(items.take(i + 1).last() == items[i as int]);
        }
        match polling_place_row_text(eid, did.as_str(), pps[i]) {
            Some(row) => {
                let ghost before = rows@;
                rows.push(row);
                assert(views_of(rows@) =~= views_of(before).push(row@));
            },
            None => {
                proof {
                    lemma_all_present_prefix(items, i + 1, n as int);
                    assert(items.take(n as int) =~= items);
                }
                return None;
            },
        }
        i = i + 1;
    }
    assert(items.take(n as int) =~= items);
    Some(join_strings(&rows, ", "))
}

/// The statement that stores every polling place of a polling districts document.
pub fn polling_districts_sql(election_id: &str, root: &XmlElement) -> (r: Option<String>)
    ensures
        match r {
            Some(t) => polling_districts_statement(election_id@, *root) == Some(t@),
            None => polling_districts_statement(election_id@, *root) is None,
        },
{
    let holder = match root.get_child_ignore_ns("PollingDistrictList") {
        Some(l) => l,
        None => return None,
    };
    let ds = holder.get_children_ignore_ns("PollingDistrict");
    let ghost spec_ds = holder.children_named("PollingDistrict"@);
    let ghost items = district_items(election_id@, spec_ds);
    let mut parts: Vec<String> = Vec::new();
    let n = ds.len();
    let mut i: usize = 0;
    assert(items.take(0) =~= Seq::<Option<Seq<char>>>::empty());
    while i < n
        invariant
            n == ds@.len(),
            spec_ds.len() == n,
            items.len() == n,
            items == district_items(election_id@, spec_ds),
            spec_ds == holder.children_named("PollingDistrict"@),
            root.child_named("PollingDistrictList"@) == Some(*holder),
            forall|k: int| 0 <= k < n ==> *ds@[k] == #[trigger] spec_ds[k],
            i <= n,
            all_present(items.take(i as int)) == Some(views_of(parts@)),
        decreases n - i,
    {
        proof {
            assert(items.take(i + 1).drop_last() =~= items.take(i as int));
            assert(items.take(i + 1).last() == items[i as int]);
        }
        match district_rows_text(election_id, ds[i]) {
            Some(part) => {
                let ghost before = parts@;
                parts.push(part);
                assert(views_of(parts@) =~= views_of(before).push(part@));
            },
            None => {
                proof {
                    lemma_all_present_prefix(items, i + 1, n as int);
                    assert(items.take(n as int) =~= items);
                }
                return None;
            },
        }
        i = i + 1;
    }
    assert(items.take(n as int) =~= items);
    let mut q = POLLING_PLACE_INSERT.to_owned();
    q.append(join_strings(&parts, ", ").as_str());
    Some(q)
}


/// The text of `child` under the first child called `parent`.
pub open spec fn grandchild_text(e: XmlElement, parent: Seq<char>, child: Seq<char>) -> Option<Seq<char>> {
    match e.child_named(parent) {
        Some(p) => child_text_of(p, child),
        None => None,
    }
}

fn grandchild_text_of(e: &XmlElement, parent: &str, child: &str) -> (r: Option<String>)
    ensures
        match r {
            Some(t) => grandchild_text(*e, parent@, child@) == Some(t@),
            None => grandchild_text(*e, parent@, child@) is None,
        },
{
    match e.get_child_ignore_ns(parent) {
        Some(p) => p.child_text(child),
        None => None,
    }
}

/// The statement storing one contest of an election event document.
pub open spec fn event_contest_statement(eid: Seq<char>, election_id: Seq<char>, contest: XmlElement) -> Option<Seq<char>> {
    match (
        attr_of_child(contest, "ContestIdentifier"@, "Id"@),
        grandchild_text(contest, "ContestIdentifier"@, "ContestName"@),
    ) {
        (Some(id), Some(name)) => {
            let short = match attr_of_child(contest, "ContestIdentifier"@, "ShortCode"@) {
                Some(c) => c,
                None => Seq::empty(),
            };
            Some(CONTEST_INSERT@ + value_tuple(seq![eid, election_id, id, short, name]))
        },
        _ => None,
    }
}

pub open spec fn event_contest_items(eid: Seq<char>, election_id: Seq<char>, contests: Seq<XmlElement>) -> Seq<Option<Seq<char>>> {
    contests.map_values(|c: XmlElement| event_contest_statement(eid, election_id, c))
}

/// The statements storing one election of an election event document: the
/// election, then each of its contests.
pub open spec fn event_election_statements(eid: Seq<char>, election: XmlElement) -> Option<Seq<Seq<char>>> {
    match (
        attr_of_child(election, "ElectionIdentifier"@, "Id"@),
        grandchild_text(election, "ElectionIdentifier"@, "ElectionName"@),
        grandchild_text(election, "ElectionIdentifier"@, "ElectionCategory"@),
        grandchild_text(election, "Date"@, "SingleDate"@),
    ) {
        (Some(id), Some(name), Some(category), Some(date)) => match all_present(
            event_contest_items(eid, id, election.children_named("Contest"@)),
        ) {
            Some(cs) => Some(seq![ELECTION_INSERT@ + value_tuple(seq![eid, id, name, category, date])] + cs),
            None => None,
        },
        _ => None,
    }
}

pub open spec fn event_election_items(eid: Seq<char>, elections: Seq<XmlElement>) -> Seq<Option<Seq<Seq<char>>>> {
    elections.map_values(|e: XmlElement| event_election_statements(eid, e))
}

/// The statements storing an election event document (EML 110): the event,
/// then each election followed by its contests.
pub open spec fn event_statements(eid: Seq<char>, root: XmlElement) -> Option<Seq<Seq<char>>> {
    match (child_text_of(root, "TransactionId"@), root.child_named("ElectionEvent"@)) {
        (Some(tid), Some(ev)) => match (
            grandchild_text(ev, "EventIdentifier"@, "EventName"@),
            concat_present(event_election_items(eid, ev.children_named("Election"@))),
        ) {
            (Some(name), Some(rest)) => Some(seq![ELECTION_EVENT_INSERT@ + value_tuple(seq![eid, tid, name])] + rest),
            _ => None,
        },
        _ => None,
    }
}

fn event_contest_sql(eid: &str, election_id: &str, contest: &XmlElement) -> (r: Option<String>)
    ensures
        match r {
            Some(t) => event_contest_statement(eid@, election_id@, *contest) == Some(t@),
            None => event_contest_statement(eid@, election_id@, *contest) is None,
        },
{
    let id = match child_attr(contest, "ContestIdentifier", "Id") {
        Some(v) => v,
        None => return None,
    };
    let short = match child_attr(contest, "ContestIdentifier", "ShortCode") {
        Some(v) => v,
        None => String::new(),
    };
    let name = match grandchild_text_of(contest, "ContestIdentifier", "ContestName") {
        Some(v) => v,
        None => return None,
    };
    let mut values: Vec<String> = Vec::new();
    values.push(eid.to_owned());
    values.push(election_id.to_owned());
    values.push(id);
    values.push(short);
    values.push(name);
    let ghost short_v = match attr_of_child(*contest, "ContestIdentifier"@, "ShortCode"@) {
        Some(c) => c,
        None => Seq::<char>::empty(),
    };
    assert(views_of(values@) =~= seq![
        eid@,
        election_id@,
        attr_of_child(*contest, "ContestIdentifier"@, "Id"@).unwrap(),
        short_v,
        grandchild_text(*contest, "ContestIdentifier"@, "ContestName"@).unwrap()
    ]);
    let mut q = CONTEST_INSERT.to_owned();
    q.append(value_tuple_text(&values).as_str());
    Some(q)
}

fn event_election_sql(eid: &str, election: &XmlElement) -> (r: Option<Vec<String>>)
    ensures
        match r {
            Some(v) => event_election_statements(eid@, *election) == Some(views_of(v@)),
            None => event_election_statements(eid@, *election) is None,
        },
{
    let id = match child_attr(election, "ElectionIdentifier", "Id") {
        Some(v) => v,
        None => return None,
    };
    let name = match grandchild_text_of(election, "ElectionIdentifier", "ElectionName") {
        Some(v) => v,
        None => return None,
    };
    let category = match grandchild_text_of(election, "ElectionIdentifier", "ElectionCategory") {
        Some(v) => v,
        None => return None,
    };
    let date = match grandchild_text_of(election, "Date", "SingleDate") {
        Some(v) => v,
        None => return None,
    };
    let mut values: Vec<String> = Vec::new();
    values.push(eid.to_owned());
    values.push(id.clone());
    values.push(name);
    values.push(category);
    values.push(date);
    assert(views_of(values@) =~= seq![
        eid@,
        id@,
        grandchild_text(*election, "ElectionIdentifier"@, "ElectionName"@).unwrap(),
        grandchild_text(*election, "ElectionIdentifier"@, "ElectionCategory"@).unwrap(),
        grandchild_text(*election, "Date"@, "SingleDate"@).unwrap()
    ]);
    let mut head = ELECTION_INSERT.to_owned();
    head.append(value_tuple_text(&values).as_str());
    let mut out: Vec<String> = Vec::new();
    out.push(head);
    let ghost head_view = out@;
    let cs = election.get_children_ignore_ns("Contest");
    let ghost spec_cs = election.children_named("Contest"@);
    let ghost items = event_contest_items(eid@, id@, spec_cs);
    let n = cs.len();
    let mut i: usize = 0;
    assert(items.take(0) =~= Seq::<Option<Seq<char>>>::empty());
    let mut rows: Vec<String> = Vec::new();
    while i < n
        invariant
            n == cs@.len(),
            spec_cs.len() == n,
            items.len() == n,
            items == event_contest_items(eid@, id@, spec_cs),
            spec_cs == election.children_named("Contest"@),
            attr_of_child(*election, "ElectionIdentifier"@, "Id"@) == Some(id@),
            grandchild_text(*election, "ElectionIdentifier"@, "ElectionName"@) is Some,
            grandchild_text(*election, "ElectionIdentifier"@, "ElectionCategory"@) is Some,
            grandchild_text(*election, "Date"@, "SingleDate"@) is Some,
            forall|k: int| 0 <= k < n ==> *cs@[k] == #[trigger] spec_cs[k],
            i <= n,
            all_present(items.take(i as int)) == Some(views_of(rows@)),
        decreases n - i,
    {
        proof {
            assert(items.take(i + 1).drop_last() =~= items.take(i as int));
            assert(items.take(i + 1).last() == items[i as int]);
        }
        match event_contest_sql(eid, id.as_str(), cs[i]) {
            Some(row) => {
                let ghost before = rows@;
                rows.push(row);
                assert(views_of(rows@) =~= views_of(before).push(row@));
            },
            None => {
                proof {
                    lemma_all_present_prefix(items, i + 1, n as int);
                    assert(items.take(n as int) =~= items);
                }
                return None;
            },
        }
        i = i + 1;
    }
    assert(items.take(n as int) =~= items);
    let ghost rows_view = rows@;
    out.append(&mut rows);
    proof {
        lemma_views_of_add(head_view, rows_view);
    }
    Some(out)
}

/// The statements that store an election event document (EML 110).
pub fn event_sql(election_id: &str, root: &XmlElement) -> (r: Option<Vec<String>>)
    ensures
        match r {
            Some(v) => event_statements(election_id@, *root) == Some(views_of(v@)),
            None => event_statements(election_id@, *root) is None,
        },
{
    let tid = match root.child_text("TransactionId") {
        Some(t) => t,
        None => return None,
    };
    let ev = match root.get_child_ignore_ns("ElectionEvent") {
        Some(e) => e,
        None => return None,
    };
    let name = match grandchild_text_of(ev, "EventIdentifier", "EventName") {
        Some(t) => t,
        None => return None,
    };
    let mut values: Vec<String> = Vec::new();
    values.push(election_id.to_owned());
    values.push(tid);
    values.push(name);
    assert(views_of(values@) =~= seq![
        election_id@,
        child_text_of(*root, "TransactionId"@).unwrap(),
        grandchild_text(*ev, "EventIdentifier"@, "EventName"@).unwrap()
    ]);
    let mut head = ELECTION_EVENT_INSERT.to_owned();
    head.append(value_tuple_text(&values).as_str());
    let mut out: Vec<String> = Vec::new();
    out.push(head);
    let ghost head_view = out@;
    let es = ev.get_children_ignore_ns("Election");
    let ghost spec_es = ev.children_named("Election"@);
    let ghost items = event_election_items(election_id@, spec_es);
    let n = es.len();
    let mut i: usize = 0;
    assert(items.take(0) =~= Seq::<Option<Seq<Seq<char>>>>::empty());
    let mut rest: Vec<String> = Vec::new();
    while i < n
        invariant
            n == es@.len(),
            spec_es.len() == n,
            items.len() == n,
            items == event_election_items(election_id@, spec_es),
            spec_es == ev.children_named("Election"@),
            root.child_named("ElectionEvent"@) == Some(*ev),
            forall|k: int| 0 <= k < n ==> *es@[k] == #[trigger] spec_es[k],
            i <= n,
            concat_present(items.take(i as int)) == Some(views_of(rest@)),
        decreases n - i,
    {
        proof {
            assert(items.take(i + 1).drop_last() =~= items.take(i as int));
            assert(items.take(i + 1).last() == items[i as int]);
        }
        match event_election_sql(election_id, es[i]) {
            Some(mut piece) => {
                let ghost before = rest@;
                let ghost added = piece@;
                rest.append(&mut piece);
                proof {
                    lemma_views_of_add(before, added);
                }
            },
            None => {
                proof {
                    lemma_concat_present_prefix(items, i + 1, n as int);
                    assert(items.take(n as int) =~= items);
                }
                return None;
            },
        }
        i = i + 1;
    }
    assert(items.take(n as int) =~= items);
    let ghost rest_view = rest@;
    out.append(&mut rest);
    proof {
        lemma_views_of_add(head_view, rest_view);
    }
    Some(out)
}

/// The statement storing one candidate of a candidate list document.
pub open spec fn candidate_statement(eid: Seq<char>, election_id: Seq<char>, contest_id: Seq<char>, cand: XmlElement) -> Option<Seq<char>> {
    let affiliation = match cand.child_named("Affiliation"@) {
        Some(a) => attr_of_child(a, "AffiliationIdentifier"@, "ShortCode"@),
        None => Some(Seq::empty()),
    };
    match (
        attr_of_child(cand, "CandidateIdentifier"@, "Id"@),
        grandchild_text(cand, "CandidateIdentifier"@, "CandidateName"@),
        affiliation,
    ) {
        (Some(id), Some(name), Some(aff)) => Some(
            CANDIDATE_INSERT@ + value_tuple(seq![eid, election_id, contest_id, id, name, aff]),
        ),
        _ => None,
    }
}

pub open spec fn candidate_items(eid: Seq<char>, election_id: Seq<char>, contest_id: Seq<char>, cands: Seq<XmlElement>) -> Seq<Option<Seq<char>>> {
    cands.map_values(|c: XmlElement| candidate_statement(eid, election_id, contest_id, c))
}

/// The statements storing the candidates of one contest.
pub open spec fn candidate_contest_statements(eid: Seq<char>, election_id: Seq<char>, contest: XmlElement) -> Option<Seq<Seq<char>>> {
    match attr_of_child(contest, "ContestIdentifier"@, "Id"@) {
        Some(cid) => all_present(candidate_items(eid, election_id, cid, contest.children_named("Candidate"@))),
        None => None,
    }
}

pub open spec fn candidate_contest_items(eid: Seq<char>, election_id: Seq<char>, contests: Seq<XmlElement>) -> Seq<Option<Seq<Seq<char>>>> {
    contests.map_values(|c: XmlElement| candidate_contest_statements(eid, election_id, c))
}

/// The statements storing the candidates of one election (whose identifier
/// must carry a name and a category, though neither is stored).
pub open spec fn candidate_election_statements(eid: Seq<char>, election: XmlElement) -> Option<Seq<Seq<char>>> {
    match (
        attr_of_child(election, "ElectionIdentifier"@, "Id"@),
        grandchild_text(election, "ElectionIdentifier"@, "ElectionName"@),
        grandchild_text(election, "ElectionIdentifier"@, "ElectionCategory"@),
    ) {
        (Some(id), Some(_), Some(_)) => concat_present(candidate_contest_items(eid, id, election.children_named("Contest"@))),
        _ => None,
    }
}

pub open spec fn candidate_election_items(eid: Seq<char>, elections: Seq<XmlElement>) -> Seq<Option<Seq<Seq<char>>>> {
    elections.map_values(|e: XmlElement| candidate_election_statements(eid, e))
}

/// The statements storing a candidate list document (EML 230): one per
/// candidate, election by election and contest by contest.
pub open spec fn candidate_statements(eid: Seq<char>, root: XmlElement) -> Option<Seq<Seq<char>>> {
    match root.child_named("CandidateList"@) {
        Some(l) => concat_present(candidate_election_items(eid, l.children_named("Election"@))),
        None => None,
    }
}

fn candidate_sql(eid: &str, election_id: &str, contest_id: &str, cand: &XmlElement) -> (r: Option<String>)
    ensures
        match r {
            Some(t) => candidate_statement(eid@, election_id@, contest_id@, *cand) == Some(t@),
            None => candidate_statement(eid@, election_id@, contest_id@, *cand) is None,
        },
{
    let id = match child_attr(cand, "CandidateIdentifier", "Id") {
        Some(v) => v,
        None => return None,
    };
    let name = match grandchild_text_of(cand, "CandidateIdentifier", "CandidateName") {
        Some(v) => v,
        None => return None,
    };
    let aff = match cand.get_child_ignore_ns("Affiliation") {
        Some(a) => match child_attr(a, "AffiliationIdentifier", "ShortCode") {
            Some(v) => v,
            None => return None,
        },
        None => String::new(),
    };
    let ghost aff_v = match cand.child_named("Affiliation"@) {
        Some(a) => attr_of_child(a, "AffiliationIdentifier"@, "ShortCode"@).unwrap(),
        None => Seq::<char>::empty(),
    };
    let mut values: Vec<String> = Vec::new();
    values.push(eid.to_owned());
    values.push(election_id.to_owned());
    values.push(contest_id.to_owned());
    values.push(id);
    values.push(name);
    values.push(aff);
    assert(views_of(values@) =~= seq![
        eid@,
        election_id@,
        contest_id@,
        attr_of_child(*cand, "CandidateIdentifier"@, "Id"@).unwrap(),
        grandchild_text(*cand, "CandidateIdentifier"@, "CandidateName"@).unwrap(),
        aff_v
    ]);
    let mut q = CANDIDATE_INSERT.to_owned();
    q.append(value_tuple_text(&values).as_str());
    Some(q)
}

fn candidate_contest_sql(eid: &str, election_id: &str, contest: &XmlElement) -> (r: Option<Vec<String>>)
    ensures
        match r {
            Some(v) => candidate_contest_statements(eid@, election_id@, *contest) == Some(views_of(v@)),
            None => candidate_contest_statements(eid@, election_id@, *contest) is None,
        },
{
    let cid = match child_attr(contest, "ContestIdentifier", "Id") {
        Some(v) => v,
        None => return None,
    };
    let cands = contest.get_children_ignore_ns("Candidate");
    let ghost spec_cands = contest.children_named("Candidate"@);
    let ghost items = candidate_items(eid@, election_id@, cid@, spec_cands);
    let mut rows: Vec<String> = Vec::new();
    let n = cands.len();
    let mut i: usize = 0;
    assert(items.take(0) =~= Seq::<Option<Seq<char>>>::empty());
    while i < n
        invariant
            n == cands@.len(),
            spec_cands.len() == n,
            items.len() == n,
            items == candidate_items(eid@, election_id@, cid@, spec_cands),
            spec_cands == contest.children_named("Candidate"@),
            attr_of_child(*contest, "ContestIdentifier"@, "Id"@) == Some(cid@),
            forall|k: int| 0 <= k < n ==> *cands@[k] == #[trigger] spec_cands[k],
            i <= n,
            all_present(items.take(i as int)) == Some(views_of(rows@)),
        decreases n - i,
    {
        proof {
            assert(items.take(i + 1).drop_last() =~= items.take(i as int));
            assert(items.take(i + 1).last() == items[i as int]);
        }
        match candidate_sql(eid, election_id, cid.as_str(), cands[i]) {
            Some(row) => {
                let ghost before = rows@;
                rows.push(row);
                assert(views_of(rows@) =~= views_of(before).push(row@));
            },
            None => {
                proof {
                    lemma_all_present_prefix(items, i + 1, n as int);
                    assert(items.take(n as int) =~= items);
                }
                return None;
            },
        }
        i = i + 1;
    }
    assert(items.take(n as int) =~= items);
    Some(rows)
}

fn candidate_election_sql(eid: &str, election: &XmlElement) -> (r: Option<Vec<String>>)
    ensures
        match r {
            Some(v) => candidate_election_statements(eid@, *election) == Some(views_of(v@)),
            None => candidate_election_statements(eid@, *election) is None,
        },
{
    let id = match child_attr(election, "ElectionIdentifier", "Id") {
        Some(v) => v,
        None => return None,
    };
    if grandchild_text_of(election, "ElectionIdentifier", "ElectionName").is_none() {
        return None;
    }
    if grandchild_text_of(election, "ElectionIdentifier", "ElectionCategory").is_none() {
        return None;
    }
    let cs = election.get_children_ignore_ns("Contest");
    let ghost spec_cs = election.children_named("Contest"@);
    let ghost items = candidate_contest_items(eid@, id@, spec_cs);
    let mut out: Vec<String> = Vec::new();
    let n = cs.len();
    let mut i: usize = 0;
    assert(items.take(0) =~= Seq::<Option<Seq<Seq<char>>>>::empty());
    while i < n
        invariant
            n == cs@.len(),
            spec_cs.len() == n,
            items.len() == n,
            items == candidate_contest_items(eid@, id@, spec_cs),
            spec_cs == election.children_named("Contest"@),
            attr_of_child(*election, "ElectionIdentifier"@, "Id"@) == Some(id@),
            grandchild_text(*election, "ElectionIdentifier"@, "ElectionName"@) is Some,
            grandchild_text(*election, "ElectionIdentifier"@, "ElectionCategory"@) is Some,
            forall|k: int| 0 <= k < n ==> *cs@[k] == #[trigger] spec_cs[k],
            i <= n,
            concat_present(items.take(i as int)) == Some(views_of(out@)),
        decreases n - i,
    {
        proof {
            assert(items.take(i + 1).drop_last() =~= items.take(i as int));
            assert(items.take(i + 1).last() == items[i as int]);
        }
        match candidate_contest_sql(eid, id.as_str(), cs[i]) {
            Some(mut piece) => {
                let ghost before = out@;
                let ghost added = piece@;
                out.append(&mut piece);
                proof {
                    lemma_views_of_add(before, added);
                }
            },
            None => {
                proof {
                    lemma_concat_present_prefix(items, i + 1, n as int);
                    assert(items.take(n as int) =~= items);
                }
                return None;
            },
        }
        i = i + 1;
    }
    assert(items.take(n as int) =~= items);
    Some(out)
}

/// The statements that store a candidate list document (EML 230).
pub fn candidate_list_sql(election_id: &str, root: &XmlElement) -> (r: Option<Vec<String>>)
    ensures
        match r {
            Some(v) => candidate_statements(election_id@, *root) == Some(views_of(v@)),
            None => candidate_statements(election_id@, *root) is None,
        },
{
    let holder = match root.get_child_ignore_ns("CandidateList") {
        Some(l) => l,
        None => return None,
    };
    let es = holder.get_children_ignore_ns("Election");
    let ghost spec_es = holder.children_named("Election"@);
    let ghost items = candidate_election_items(election_id@, spec_es);
    let mut out: Vec<String> = Vec::new();
    let n = es.len();
    let mut i: usize = 0;
    assert(items.take(0) =~= Seq::<Option<Seq<Seq<char>>>>::empty());
    while i < n
        invariant
            n == es@.len(),
            spec_es.len() == n,
            items.len() == n,
            items == candidate_election_items(election_id@, spec_es),
            spec_es == holder.children_named("Election"@),
            root.child_named("CandidateList"@) == Some(*holder),
            forall|k: int| 0 <= k < n ==> *es@[k] == #[trigger] spec_es[k],
            i <= n,
            concat_present(items.take(i as int)) == Some(views_of(out@)),
        decreases n - i,
    {
        proof {
            assert(items.take(i + 1).drop_last() =~= items.take(i as int));
            assert(items.take(i + 1).last() == items[i as int]);
        }
        match candidate_election_sql(election_id, es[i]) {
            Some(mut piece) => {
                let ghost before = out@;
                let ghost added = piece@;
                out.append(&mut piece);
                proof {
                    lemma_views_of_add(before, added);
                }
            },
            None => {
                proof {
                    lemma_concat_present_prefix(items, i + 1, n as int);
                    assert(items.take(n as int) =~= items);
                }
                return None;
            },
        }
        i = i + 1;
    }
    assert(items.take(n as int) =~= items);
    Some(out)
}


pub const LIGHT_RESULTS_ENTRY: &'static str = "xml/aec-mediafeed-results-detailed-light-";

pub const PRELOAD_RESULTS_ENTRY: &'static str = "xml/aec-mediafeed-results-detailed-preload-";

pub const POLLING_DISTRICTS_ENTRY: &'static str = "xml/aec-mediafeed-pollingdistricts-";

pub const EVENT_ENTRY: &'static str = "xml/eml-110-event-";

pub const CANDIDATES_ENTRY: &'static str = "xml/eml-230-candidates-";

/// The archive entry of a feed document: `<prefix><election id>.xml`.
pub open spec fn entry_for(prefix: Seq<char>, election_id: Seq<char>) -> Seq<char> {
    prefix + election_id + ".xml"@
}

pub fn entry_name(prefix: &str, election_id: &str) -> (r: String)
    ensures
        r@ == entry_for(prefix@, election_id@),
{
    let mut s = prefix.to_owned();
    s.append(election_id);
    s.append(".xml");
    s
}

/// What a loader returns for a document: the document's error, else its
/// statements for some tree with the document's value, else `Malformed`.
///
/// A loader answers every document: a missing entry, text that is not XML,
/// or a missing element, attribute or number is an error value, where a
/// reader that unwraps would stop the program. The statements are built as
/// a whole before any of them runs, so a document refused part-way gives
/// an error and no statement, not the statements of the parts before the
/// fault.
pub open spec fn loaded(
    doc: Result<crate::xml::XmlNode, FeedError>,
    r: Result<Vec<String>, FeedError>,
    statements: spec_fn(XmlElement) -> Option<Seq<Seq<char>>>,
) -> bool {
    match doc {
        Err(e) => r == Err::<Vec<String>, FeedError>(e),
        Ok(n) => exists|root: XmlElement|
            root@ == n && match statements(root) {
                Some(s) => r matches Ok(v) && views_of(v@) == s,
                None => r == Err::<Vec<String>, FeedError>(FeedError::Malformed),
            },
    }
}

/// The statements that load the "light" results document of an election:
/// per polling place, its first-preference and two-candidate-preferred votes.
pub fn read_aec_light(election_id: &str, archive: &[u8]) -> (r: Result<Vec<String>, FeedError>)
    ensures
        loaded(
            document_in(archive@, entry_for(LIGHT_RESULTS_ENTRY@, election_id@)),
            r,
            |root: XmlElement| feed_votes(true, election_id@, root),
        ),
{
    let name = entry_name(LIGHT_RESULTS_ENTRY, election_id);
    let root = match read_feed_document(archive, name.as_str()) {
        Ok(root) => root,
        Err(e) => return Err(e),
    };
    match feed_vote_statements(true, election_id, &root) {
        Some(v) => Ok(v),
        None => Err(FeedError::Malformed),
    }
}

/// The statements that load the preload results document of an election:
/// per polling place, its first-preference votes.
pub fn read_results_preload(election_id: &str, archive: &[u8]) -> (r: Result<Vec<String>, FeedError>)
    ensures
        loaded(
            document_in(archive@, entry_for(PRELOAD_RESULTS_ENTRY@, election_id@)),
            r,
            |root: XmlElement| feed_votes(false, election_id@, root),
        ),
{
    let name = entry_name(PRELOAD_RESULTS_ENTRY, election_id);
    let root = match read_feed_document(archive, name.as_str()) {
        Ok(root) => root,
        Err(e) => return Err(e),
    };
    match feed_vote_statements(false, election_id, &root) {
        Some(v) => Ok(v),
        None => Err(FeedError::Malformed),
    }
}

/// The statement that loads the polling places of an election's polling districts document.
pub fn read_aec_pollingdistricts(election_id: &str, archive: &[u8]) -> (r: Result<Vec<String>, FeedError>)
    ensures
        loaded(
            document_in(archive@, entry_for(POLLING_DISTRICTS_ENTRY@, election_id@)),
            r,
            |root: XmlElement| match polling_districts_statement(election_id@, root) {
                Some(q) => Some(seq![q]),
                None => None,
            },
        ),
{
    let name = entry_name(POLLING_DISTRICTS_ENTRY, election_id);
    let root = match read_feed_document(archive, name.as_str()) {
        Ok(root) => root,
        Err(e) => return Err(e),
    };
    match polling_districts_sql(election_id, &root) {
        Some(q) => {
            let mut v: Vec<String> = Vec::new();
            v.push(q);
            assert(views_of(v@) =~= seq![polling_districts_statement(election_id@, root).unwrap()]);
            Ok(v)
        },
        None => Err(FeedError::Malformed),
    }
}

/// The statements that load an election's event document (EML 110).
pub fn read_eml_110_event_xml(election_id: &str, archive: &[u8]) -> (r: Result<Vec<String>, FeedError>)
    ensures
        loaded(
            document_in(archive@, entry_for(EVENT_ENTRY@, election_id@)),
            r,
            |root: XmlElement| event_statements(election_id@, root),
        ),
{
    let name = entry_name(EVENT_ENTRY, election_id);
    let root = match read_feed_document(archive, name.as_str()) {
        Ok(root) => root,
        Err(e) => return Err(e),
    };
    match event_sql(election_id, &root) {
        Some(v) => Ok(v),
        None => Err(FeedError::Malformed),
    }
}

/// The statements that load an election's candidate list (EML 230); none,
/// without reading the archive, for the election the loader skips.
pub fn read_eml_230_candidates(election_id: &str, archive: &[u8]) -> (r: Result<Vec<String>, FeedError>)
    ensures
        election_id@ == SKIPPED_CANDIDATE_EVENT@ ==> (r matches Ok(v) && v@.len() == 0),
        election_id@ != SKIPPED_CANDIDATE_EVENT@ ==> loaded(
            document_in(archive@, entry_for(CANDIDATES_ENTRY@, election_id@)),
            r,
            |root: XmlElement| candidate_statements(election_id@, root),
        ),
{
    if str_equal(election_id, SKIPPED_CANDIDATE_EVENT) {
        return Ok(Vec::new());
    }
    let name = entry_name(CANDIDATES_ENTRY, election_id);
    let root = match read_feed_document(archive, name.as_str()) {
        Ok(root) => root,
        Err(e) => return Err(e),
    };
    match candidate_list_sql(election_id, &root) {
        Some(v) => Ok(v),
        None => Err(FeedError::Malformed),
    }
}

/// Essentially when the election happens.
#[derive(Clone, Debug)]
pub struct ElectionEvent {
    pub election_id: String,
    pub transaction_id: String,
    pub name: String,
}

impl PostGresObj for ElectionEvent {
    fn postgres_create() -> (r: String)
        ensures
            r@ == create_table_sql("ElectionEvent"@, seq![("election_id"@, SqlType::Varchar), ("transaction_id"@, SqlType::Varchar), ("name"@, SqlType::Varchar)]),
    {
        let t = table_schema("ElectionEvent", &[("election_id", SqlType::Varchar), ("transaction_id", SqlType::Varchar), ("name", SqlType::Varchar)]);
        assert(column_pairs(t.columns@) =~= seq![("election_id"@, SqlType::Varchar), ("transaction_id"@, SqlType::Varchar), ("name"@, SqlType::Varchar)]);
        t.create_statement()
    }

    fn postgres_drop() -> (r: String)
        ensures
            r@ == drop_table_sql("ElectionEvent"@),
    {
        let t = table_schema("ElectionEvent", &[("election_id", SqlType::Varchar), ("transaction_id", SqlType::Varchar), ("name", SqlType::Varchar)]);
        t.drop_statement()
    }
}

/// An election of an event.
#[derive(Clone, Debug)]
pub struct Election {
    pub event_id: String,
    pub identifier: String,
    pub name: String,
    pub category: String,
    pub date: String,
}

impl PostGresObj for Election {
    fn postgres_create() -> (r: String)
        ensures
            r@ == create_table_sql("Election"@, seq![("event_id"@, SqlType::Varchar), ("identifier"@, SqlType::Varchar), ("name"@, SqlType::Varchar), ("category"@, SqlType::Varchar), ("date"@, SqlType::Varchar)]),
    {
        let t = table_schema("Election", &[("event_id", SqlType::Varchar), ("identifier", SqlType::Varchar), ("name", SqlType::Varchar), ("category", SqlType::Varchar), ("date", SqlType::Varchar)]);
        assert(column_pairs(t.columns@) =~= seq![("event_id"@, SqlType::Varchar), ("identifier"@, SqlType::Varchar), ("name"@, SqlType::Varchar), ("category"@, SqlType::Varchar), ("date"@, SqlType::Varchar)]);
        t.create_statement()
    }

    fn postgres_drop() -> (r: String)
        ensures
            r@ == drop_table_sql("Election"@),
    {
        let t = table_schema("Election", &[("event_id", SqlType::Varchar), ("identifier", SqlType::Varchar), ("name", SqlType::Varchar), ("category", SqlType::Varchar), ("date", SqlType::Varchar)]);
        t.drop_statement()
    }
}

/// A contest of an election.
#[derive(Clone, Debug)]
pub struct Contest {
    pub event_id: String,
    pub identifier: String,
    pub id: String,
    pub shortcode: String,
    pub name: String,
}

impl PostGresObj for Contest {
    fn postgres_create() -> (r: String)
        ensures
            r@ == create_table_sql("Contest"@, seq![("event_id"@, SqlType::Varchar), ("identifier"@, SqlType::Varchar), ("id"@, SqlType::Varchar), ("shortcode"@, SqlType::Varchar), ("name"@, SqlType::Varchar)]),
    {
        let t = table_schema("Contest", &[("event_id", SqlType::Varchar), ("identifier", SqlType::Varchar), ("id", SqlType::Varchar), ("shortcode", SqlType::Varchar), ("name", SqlType::Varchar)]);
        assert(column_pairs(t.columns@) =~= seq![("event_id"@, SqlType::Varchar), ("identifier"@, SqlType::Varchar), ("id"@, SqlType::Varchar), ("shortcode"@, SqlType::Varchar), ("name"@, SqlType::Varchar)]);
        t.create_statement()
    }

    fn postgres_drop() -> (r: String)
        ensures
            r@ == drop_table_sql("Contest"@),
    {
        let t = table_schema("Contest", &[("event_id", SqlType::Varchar), ("identifier", SqlType::Varchar), ("id", SqlType::Varchar), ("shortcode", SqlType::Varchar), ("name", SqlType::Varchar)]);
        t.drop_statement()
    }
}

/// A candidate of a contest.
#[derive(Clone, Debug)]
pub struct Candidate {
    pub event_id: String,
    pub election_identifier: String,
    pub contest_id: String,
    pub id: String,
    pub name: String,
    pub affiliation: String,
}

impl PostGresObj for Candidate {
    fn postgres_create() -> (r: String)
        ensures
            r@ == create_table_sql("Candidate"@, seq![("event_id"@, SqlType::Varchar), ("election_identifier"@, SqlType::Varchar), ("contest_id"@, SqlType::Varchar), ("id"@, SqlType::Varchar), ("name"@, SqlType::Varchar), ("affiliation"@, SqlType::Varchar)]),
    {
        let t = table_schema("Candidate", &[("event_id", SqlType::Varchar), ("election_identifier", SqlType::Varchar), ("contest_id", SqlType::Varchar), ("id", SqlType::Varchar), ("name", SqlType::Varchar), ("affiliation", SqlType::Varchar)]);
        assert(column_pairs(t.columns@) =~= seq![("event_id"@, SqlType::Varchar), ("election_identifier"@, SqlType::Varchar), ("contest_id"@, SqlType::Varchar), ("id"@, SqlType::Varchar), ("name"@, SqlType::Varchar), ("affiliation"@, SqlType::Varchar)]);
        t.create_statement()
    }

    fn postgres_drop() -> (r: String)
        ensures
            r@ == drop_table_sql("Candidate"@),
    {
        let t = table_schema("Candidate", &[("event_id", SqlType::Varchar), ("election_identifier", SqlType::Varchar), ("contest_id", SqlType::Varchar), ("id", SqlType::Varchar), ("name", SqlType::Varchar), ("affiliation", SqlType::Varchar)]);
        t.drop_statement()
    }
}

/// A polling place of a district.
#[derive(Clone, Debug)]
pub struct PollingPlace {
    pub event_id: String,
    pub district_id: String,
    pub id: String,
    pub name: String,
    pub lat: String,
    pub long: String,
}

impl PostGresObj for PollingPlace {
    fn postgres_create() -> (r: String)
        ensures
            r@ == create_table_sql("PollingPlace"@, seq![("event_id"@, SqlType::Varchar), ("district_id"@, SqlType::Varchar), ("id"@, SqlType::Varchar), ("name"@, SqlType::Varchar), ("lat"@, SqlType::Varchar), ("long"@, SqlType::Varchar)]),
    {
        let t = table_schema("PollingPlace", &[("event_id", SqlType::Varchar), ("district_id", SqlType::Varchar), ("id", SqlType::Varchar), ("name", SqlType::Varchar), ("lat", SqlType::Varchar), ("long", SqlType::Varchar)]);
        assert(column_pairs(t.columns@) =~= seq![("event_id"@, SqlType::Varchar), ("district_id"@, SqlType::Varchar), ("id"@, SqlType::Varchar), ("name"@, SqlType::Varchar), ("lat"@, SqlType::Varchar), ("long"@, SqlType::Varchar)]);
        t.create_statement()
    }

    fn postgres_drop() -> (r: String)
        ensures
            r@ == drop_table_sql("PollingPlace"@),
    {
        let t = table_schema("PollingPlace", &[("event_id", SqlType::Varchar), ("district_id", SqlType::Varchar), ("id", SqlType::Varchar), ("name", SqlType::Varchar), ("lat", SqlType::Varchar), ("long", SqlType::Varchar)]);
        t.drop_statement()
    }
}

/// First-preference votes of a candidate at a polling place.
#[derive(Clone, Debug)]
pub struct PrimaryVote {
    pub timestamp: String,
    pub event_id: String,
    pub contest_id: String,
    pub polling_place_id: String,
    pub candidate_id: String,
    pub votes: i32,
}

impl PostGresObj for PrimaryVote {
    fn postgres_create() -> (r: String)
        ensures
            r@ == create_table_sql("PrimaryVote"@, seq![("timestamp"@, SqlType::Varchar), ("event_id"@, SqlType::Varchar), ("contest_id"@, SqlType::Varchar), ("polling_place_id"@, SqlType::Varchar), ("candidate_id"@, SqlType::Varchar), ("votes"@, SqlType::Integer)]),
    {
        let t = table_schema("PrimaryVote", &[("timestamp", SqlType::Varchar), ("event_id", SqlType::Varchar), ("contest_id", SqlType::Varchar), ("polling_place_id", SqlType::Varchar), ("candidate_id", SqlType::Varchar), ("votes", SqlType::Integer)]);
        assert(column_pairs(t.columns@) =~= seq![("timestamp"@, SqlType::Varchar), ("event_id"@, SqlType::Varchar), ("contest_id"@, SqlType::Varchar), ("polling_place_id"@, SqlType::Varchar), ("candidate_id"@, SqlType::Varchar), ("votes"@, SqlType::Integer)]);
        t.create_statement()
    }

    fn postgres_drop() -> (r: String)
        ensures
            r@ == drop_table_sql("PrimaryVote"@),
    {
        let t = table_schema("PrimaryVote", &[("timestamp", SqlType::Varchar), ("event_id", SqlType::Varchar), ("contest_id", SqlType::Varchar), ("polling_place_id", SqlType::Varchar), ("candidate_id", SqlType::Varchar), ("votes", SqlType::Integer)]);
        t.drop_statement()
    }
}

/// Two-candidate-preferred votes of a candidate at a polling place.
#[derive(Clone, Debug)]
pub struct TwoCandidatePreferredVote {
    pub timestamp: String,
    pub event_id: String,
    pub contest_id: String,
    pub polling_place_id: String,
    pub candidate_id: String,
    pub votes: i32,
}

impl PostGresObj for TwoCandidatePreferredVote {
    fn postgres_create() -> (r: String)
        ensures
            r@ == create_table_sql("TwoCandidatePreferredVote"@, seq![("timestamp"@, SqlType::Varchar), ("event_id"@, SqlType::Varchar), ("contest_id"@, SqlType::Varchar), ("polling_place_id"@, SqlType::Varchar), ("candidate_id"@, SqlType::Varchar), ("votes"@, SqlType::Integer)]),
    {
        let t = table_schema("TwoCandidatePreferredVote", &[("timestamp", SqlType::Varchar), ("event_id", SqlType::Varchar), ("contest_id", SqlType::Varchar), ("polling_place_id", SqlType::Varchar), ("candidate_id", SqlType::Varchar), ("votes", SqlType::Integer)]);
        assert(column_pairs(t.columns@) =~= seq![("timestamp"@, SqlType::Varchar), ("event_id"@, SqlType::Varchar), ("contest_id"@, SqlType::Varchar), ("polling_place_id"@, SqlType::Varchar), ("candidate_id"@, SqlType::Varchar), ("votes"@, SqlType::Integer)]);
        t.create_statement()
    }

    fn postgres_drop() -> (r: String)
        ensures
            r@ == drop_table_sql("TwoCandidatePreferredVote"@),
    {
        let t = table_schema("TwoCandidatePreferredVote", &[("timestamp", SqlType::Varchar), ("event_id", SqlType::Varchar), ("contest_id", SqlType::Varchar), ("polling_place_id", SqlType::Varchar), ("candidate_id", SqlType::Varchar), ("votes", SqlType::Integer)]);
        t.drop_statement()
    }
}

/// The statements that recreate the vote tables: each is dropped, then created.
pub fn create_tables() -> (r: Vec<String>)
    ensures
        r@.len() == 4,
        r@[0]@ == drop_table_sql("PrimaryVote"@),
        r@[1]@ == create_table_sql("PrimaryVote"@, seq![("timestamp"@, SqlType::Varchar), ("event_id"@, SqlType::Varchar), ("contest_id"@, SqlType::Varchar), ("polling_place_id"@, SqlType::Varchar), ("candidate_id"@, SqlType::Varchar), ("votes"@, SqlType::Integer)]),
        r@[2]@ == drop_table_sql("TwoCandidatePreferredVote"@),
        r@[3]@ == create_table_sql("TwoCandidatePreferredVote"@, seq![("timestamp"@, SqlType::Varchar), ("event_id"@, SqlType::Varchar), ("contest_id"@, SqlType::Varchar), ("polling_place_id"@, SqlType::Varchar), ("candidate_id"@, SqlType::Varchar), ("votes"@, SqlType::Integer)]),
{
    let mut v: Vec<String> = Vec::new();
    v.push(PrimaryVote::postgres_drop());
    v.push(PrimaryVote::postgres_create());
    v.push(TwoCandidatePreferredVote::postgres_drop());
    v.push(TwoCandidatePreferredVote::postgres_create());
    v
}

/// Lexicographic order of texts by character, the order `sort` puts listings in.
pub open spec fn lex_le(a: Seq<char>, b: Seq<char>) -> bool
    decreases a.len(),
{
    if a.len() == 0 {
        true
    } else if b.len() == 0 {
        false
    } else if (a[0] as int) < (b[0] as int) {
        true
    } else if (a[0] as int) > (b[0] as int) {
        false
    } else {
        lex_le(a.drop_first(), b.drop_first())
    }
}

proof fn lemma_lex_total(a: Seq<char>, b: Seq<char>)
    ensures
        lex_le(a, b) || lex_le(b, a),
    decreases a.len(),
{
    if a.len() > 0 && b.len() > 0 && a[0] == b[0] {
        lemma_lex_total(a.drop_first(), b.drop_first());
    }
}

proof fn lemma_lex_trans(a: Seq<char>, b: Seq<char>, c: Seq<char>)
    requires
        lex_le(a, b),
        lex_le(b, c),
    ensures
        lex_le(a, c),
    decreases a.len(),
{
    if a.len() > 0 && b.len() > 0 && c.len() > 0 && a[0] == b[0] && b[0] == c[0] {
        lemma_lex_trans(a.drop_first(), b.drop_first(), c.drop_first());
    }
}

/// Whether `a` comes no later than `b` in lexicographic order.
pub fn lex_less_eq(a: &str, b: &str) -> (r: bool)
    ensures
        r == lex_le(a@, b@),
{
    let x = crate::text::chars_of(a);
    let y = crate::text::chars_of(b);
    let mut i: usize = 0;
    assert(a@.skip(0) =~= a@);
    assert(b@.skip(0) =~= b@);
    while i < x.len() && i < y.len()
        invariant
            i <= x@.len(),
            i <= y@.len(),
            x@ == a@,
            y@ == b@,
            lex_le(a@, b@) == lex_le(a@.skip(i as int), b@.skip(i as int)),
        decreases x@.len() - i,
    {
        assert(a@.skip(i as int)[0] == x@[i as int]);
        assert(b@.skip(i as int)[0] == y@[i as int]);
        if x[i] < y[i] {
            return true;
        }
        if x[i] > y[i] {
            return false;
        }
        assert(a@.skip(i as int).drop_first() =~= a@.skip(i + 1));
        assert(b@.skip(i as int).drop_first() =~= b@.skip(i + 1));
        i = i + 1;
    }
    i == x.len()
}

/// The last listing in sorted order, the newest feed archive; `None` for an empty listing.
pub fn latest_listing(files: &Vec<String>) -> (r: Option<String>)
    ensures
        match r {
            None => files@.len() == 0,
            Some(m) => (exists|i: int| 0 <= i < files@.len() && files@[i]@ == m@) && forall|i: int|
                0 <= i < files@.len() ==> lex_le(#[trigger] files@[i]@, m@),
        },
{
    if files.len() == 0 {
        return None;
    }
    let mut best: usize = 0;
    let n = files.len();
    let mut i: usize = 1;
    proof {
        lemma_lex_total(files@[0]@, files@[0]@);
    }
    while i < n
        invariant
            n == files@.len(),
            1 <= i <= n,
            best < n,
            forall|j: int| 0 <= j < i ==> lex_le(#[trigger] files@[j]@, files@[best as int]@),
        decreases n - i,
    {
        if !lex_less_eq(files[i].as_str(), files[best].as_str()) {
            proof {
                lemma_lex_total(files@[i as int]@, files@[best as int]@);
                assert forall|j: int| 0 <= j < i + 1 implies lex_le(#[trigger] files@[j]@, files@[i as int]@) by {
                    if j < i {
                        lemma_lex_trans(files@[j]@, files@[best as int]@, files@[i as int]@);
                    } else {
                        lemma_lex_total(files@[i as int]@, files@[i as int]@);
                    }
                }
            }
            best = i;
        }
        i = i + 1;
    }
    Some(files[best].clone())
}

proof fn lemma_view_attr_of_child(a: XmlElement, b: XmlElement, child: Seq<char>, attr: Seq<char>)
    requires
        a@ == b@,
    ensures
        attr_of_child(a, child, attr) == attr_of_child(b, child, attr),
        grandchild_text(a, child, attr) == grandchild_text(b, child, attr),
{
    lemma_view_child(a, b, child);
    if a.child_named(child) is Some {
        lemma_view_child(a.child_named(child).unwrap(), b.child_named(child).unwrap(), attr);
    }
}

proof fn lemma_view_vote_row(lead: Seq<Seq<char>>, pp1: XmlElement, pp2: XmlElement, c1: XmlElement, c2: XmlElement)
    requires
        pp1@ == pp2@,
        c1@ == c2@,
    ensures
        vote_row(lead, pp1, c1) == vote_row(lead, pp2, c2),
{
    lemma_view_attr_of_child(pp1, pp2, "PollingPlaceIdentifier"@, "Id"@);
    lemma_view_attr_of_child(c1, c2, "CandidateIdentifier"@, "Id"@);
    lemma_view_child(c1, c2, "Votes"@);
    if c1.child_named("Votes"@) is Some {
        lemma_view_child(c1.child_named("Votes"@).unwrap(), c2.child_named("Votes"@).unwrap(), "x"@);
    }
}

proof fn lemma_view_vote_rows(lead: Seq<Seq<char>>, pp1: XmlElement, pp2: XmlElement, s1: XmlElement, s2: XmlElement)
    requires
        pp1@ == pp2@,
        s1@ == s2@,
    ensures
        vote_rows(lead, pp1, s1) == vote_rows(lead, pp2, s2),
{
    lemma_view_child(s1, s2, "Candidate"@);
    let c1 = s1.children_named("Candidate"@);
    let c2 = s2.children_named("Candidate"@);
    let i1 = vote_row_items(lead, pp1, c1);
    let i2 = vote_row_items(lead, pp2, c2);
    assert forall|k: int| 0 <= k < i1.len() implies i1[k] == i2[k] by {
        lemma_view_vote_row(lead, pp1, pp2, c1[k], c2[k]);
    }
    assert(i1 =~= i2);
}

proof fn lemma_view_polling_place_votes(light: bool, eid: Seq<char>, cid: Seq<char>, a: XmlElement, b: XmlElement)
    requires
        a@ == b@,
    ensures
        polling_place_votes(light, eid, cid, a) == polling_place_votes(light, eid, cid, b),
{
    lemma_view_child(a, b, "FirstPreferences"@);
    lemma_view_child(a, b, "TwoCandidatePreferred"@);
    if a.child_named("FirstPreferences"@) is Some {
        let f1 = a.child_named("FirstPreferences"@).unwrap();
        let f2 = b.child_named("FirstPreferences"@).unwrap();
        lemma_view_child(f1, f2, "Updated"@);
        lemma_view_vote_rows(seq![updated_of(f1), eid, cid], a, b, f1, f2);
        lemma_view_vote_rows(seq![eid, cid], a, b, f1, f2);
    }
    if a.child_named("TwoCandidatePreferred"@) is Some {
        let t1 = a.child_named("TwoCandidatePreferred"@).unwrap();
        let t2 = b.child_named("TwoCandidatePreferred"@).unwrap();
        lemma_view_child(t1, t2, "Updated"@);
        lemma_view_vote_rows(seq![updated_of(t1), eid, cid], a, b, t1, t2);
    }
}

proof fn lemma_view_contest_votes(light: bool, eid: Seq<char>, a: XmlElement, b: XmlElement)
    requires
        a@ == b@,
    ensures
        contest_votes(light, eid, a) == contest_votes(light, eid, b),
{
    lemma_view_attr_of_child(a, b, "ContestIdentifier"@, "Id"@);
    lemma_view_child(a, b, "PollingPlaces"@);
    if a.child_named("PollingPlaces"@) is Some && attr_of_child(a, "ContestIdentifier"@, "Id"@) is Some {
        let cid = attr_of_child(a, "ContestIdentifier"@, "Id"@).unwrap();
        let p1 = a.child_named("PollingPlaces"@).unwrap();
        let p2 = b.child_named("PollingPlaces"@).unwrap();
        lemma_view_child(p1, p2, "PollingPlace"@);
        let s1 = p1.children_named("PollingPlace"@);
        let s2 = p2.children_named("PollingPlace"@);
        let i1 = polling_place_items(light, eid, cid, s1);
        let i2 = polling_place_items(light, eid, cid, s2);
        assert forall|k: int| 0 <= k < i1.len() implies i1[k] == i2[k] by {
            lemma_view_polling_place_votes(light, eid, cid, s1[k], s2[k]);
        }
        assert(i1 =~= i2);
    }
}

proof fn lemma_view_election_votes(light: bool, eid: Seq<char>, a: XmlElement, b: XmlElement)
    requires
        a@ == b@,
    ensures
        election_votes(light, eid, a) == election_votes(light, eid, b),
{
    lemma_view_child(a, b, "House"@);
    if a.child_named("House"@) is Some {
        let h1 = a.child_named("House"@).unwrap();
        let h2 = b.child_named("House"@).unwrap();
        lemma_view_child(h1, h2, "Contests"@);
        if h1.child_named("Contests"@) is Some {
            let c1 = h1.child_named("Contests"@).unwrap();
            let c2 = h2.child_named("Contests"@).unwrap();
            lemma_view_child(c1, c2, "Contest"@);
            let s1 = c1.children_named("Contest"@);
            let s2 = c2.children_named("Contest"@);
            let i1 = contest_items(light, eid, s1);
            let i2 = contest_items(light, eid, s2);
            assert forall|k: int| 0 <= k < i1.len() implies i1[k] == i2[k] by {
                lemma_view_contest_votes(light, eid, s1[k], s2[k]);
            }
            assert(i1 =~= i2);
        }
    }
}

proof fn lemma_view_feed_votes(light: bool, eid: Seq<char>, a: XmlElement, b: XmlElement)
    requires
        a@ == b@,
    ensures
        feed_votes(light, eid, a) == feed_votes(light, eid, b),
{
    lemma_view_child(a, b, "Results"@);
    if a.child_named("Results"@) is Some {
        let r1 = a.child_named("Results"@).unwrap();
        let r2 = b.child_named("Results"@).unwrap();
        lemma_view_child(r1, r2, "Election"@);
        let s1 = r1.children_named("Election"@);
        let s2 = r2.children_named("Election"@);
        let i1 = election_items(light, eid, s1);
        let i2 = election_items(light, eid, s2);
        assert forall|k: int| 0 <= k < i1.len() implies i1[k] == i2[k] by {
            lemma_view_election_votes(light, eid, s1[k], s2[k]);
        }
        assert(i1 =~= i2);
    }
}

proof fn lemma_view_coordinate(a: XmlElement, b: XmlElement, which: Seq<char>)
    requires
        a@ == b@,
    ensures
        coordinate_of(a, which) == coordinate_of(b, which),
{
    lemma_view_child(a, b, "PhysicalLocation"@);
    if a.child_named("PhysicalLocation"@) is Some {
        let l1 = a.child_named("PhysicalLocation"@).unwrap();
        let l2 = b.child_named("PhysicalLocation"@).unwrap();
        lemma_view_child(l1, l2, "Address"@);
        if l1.child_named("Address"@) is Some {
            let d1 = l1.child_named("Address"@).unwrap();
            let d2 = l2.child_named("Address"@).unwrap();
            lemma_view_child(d1, d2, "PostalServiceElements"@);
            if d1.child_named("PostalServiceElements"@) is Some {
                lemma_view_child(
                    d1.child_named("PostalServiceElements"@).unwrap(),
                    d2.child_named("PostalServiceElements"@).unwrap(),
                    which,
                );
            }
        }
    }
}

proof fn lemma_view_district_rows(eid: Seq<char>, a: XmlElement, b: XmlElement)
    requires
        a@ == b@,
    ensures
        district_rows(eid, a) == district_rows(eid, b),
{
    lemma_view_attr_of_child(a, b, "PollingDistrictIdentifier"@, "Id"@);
    lemma_view_child(a, b, "PollingPlaces"@);
    if a.child_named("PollingPlaces"@) is Some && attr_of_child(a, "PollingDistrictIdentifier"@, "Id"@) is Some {
        let did = attr_of_child(a, "PollingDistrictIdentifier"@, "Id"@).unwrap();
        let p1 = a.child_named("PollingPlaces"@).unwrap();
        let p2 = b.child_named("PollingPlaces"@).unwrap();
        lemma_view_child(p1, p2, "PollingPlace"@);
        let s1 = p1.children_named("PollingPlace"@);
        let s2 = p2.children_named("PollingPlace"@);
        let i1 = polling_place_row_items(eid, did, s1);
        let i2 = polling_place_row_items(eid, did, s2);
        assert forall|k: int| 0 <= k < i1.len() implies i1[k] == i2[k] by {
            lemma_view_attr_of_child(s1[k], s2[k], "PollingPlaceIdentifier"@, "Id"@);
            lemma_view_attr_of_child(s1[k], s2[k], "PollingPlaceIdentifier"@, "Name"@);
            lemma_view_coordinate(s1[k], s2[k], "AddressLatitude"@);
            lemma_view_coordinate(s1[k], s2[k], "AddressLongitude"@);
        }
        assert(i1 =~= i2);
    }
}

proof fn lemma_view_polling_districts(eid: Seq<char>, a: XmlElement, b: XmlElement)
    requires
        a@ == b@,
    ensures
        polling_districts_statement(eid, a) == polling_districts_statement(eid, b),
{
    lemma_view_child(a, b, "PollingDistrictList"@);
    if a.child_named("PollingDistrictList"@) is Some {
        let l1 = a.child_named("PollingDistrictList"@).unwrap();
        let l2 = b.child_named("PollingDistrictList"@).unwrap();
        lemma_view_child(l1, l2, "PollingDistrict"@);
        let s1 = l1.children_named("PollingDistrict"@);
        let s2 = l2.children_named("PollingDistrict"@);
        let i1 = district_items(eid, s1);
        let i2 = district_items(eid, s2);
        assert forall|k: int| 0 <= k < i1.len() implies i1[k] == i2[k] by {
            lemma_view_district_rows(eid, s1[k], s2[k]);
        }
        assert(i1 =~= i2);
    }
}

proof fn lemma_view_event_election(eid: Seq<char>, a: XmlElement, b: XmlElement)
    requires
        a@ == b@,
    ensures
        event_election_statements(eid, a) == event_election_statements(eid, b),
{
    lemma_view_attr_of_child(a, b, "ElectionIdentifier"@, "Id"@);
    lemma_view_attr_of_child(a, b, "ElectionIdentifier"@, "ElectionName"@);
    lemma_view_attr_of_child(a, b, "ElectionIdentifier"@, "ElectionCategory"@);
    lemma_view_attr_of_child(a, b, "Date"@, "SingleDate"@);
    lemma_view_child(a, b, "Contest"@);
    if attr_of_child(a, "ElectionIdentifier"@, "Id"@) is Some {
        let id = attr_of_child(a, "ElectionIdentifier"@, "Id"@).unwrap();
        let s1 = a.children_named("Contest"@);
        let s2 = b.children_named("Contest"@);
        let i1 = event_contest_items(eid, id, s1);
        let i2 = event_contest_items(eid, id, s2);
        assert forall|k: int| 0 <= k < i1.len() implies i1[k] == i2[k] by {
            lemma_view_attr_of_child(s1[k], s2[k], "ContestIdentifier"@, "Id"@);
            lemma_view_attr_of_child(s1[k], s2[k], "ContestIdentifier"@, "ContestName"@);
            lemma_view_attr_of_child(s1[k], s2[k], "ContestIdentifier"@, "ShortCode"@);
        }
        assert(i1 =~= i2);
    }
}

proof fn lemma_view_event(eid: Seq<char>, a: XmlElement, b: XmlElement)
    requires
        a@ == b@,
    ensures
        event_statements(eid, a) == event_statements(eid, b),
{
    lemma_view_child(a, b, "TransactionId"@);
    lemma_view_child(a, b, "ElectionEvent"@);
    if a.child_named("ElectionEvent"@) is Some {
        let e1 = a.child_named("ElectionEvent"@).unwrap();
        let e2 = b.child_named("ElectionEvent"@).unwrap();
        lemma_view_attr_of_child(e1, e2, "EventIdentifier"@, "EventName"@);
        lemma_view_child(e1, e2, "Election"@);
        let s1 = e1.children_named("Election"@);
        let s2 = e2.children_named("Election"@);
        let i1 = event_election_items(eid, s1);
        let i2 = event_election_items(eid, s2);
        assert forall|k: int| 0 <= k < i1.len() implies i1[k] == i2[k] by {
            lemma_view_event_election(eid, s1[k], s2[k]);
        }
        assert(i1 =~= i2);
    }
}

proof fn lemma_view_candidate(eid: Seq<char>, elid: Seq<char>, cid: Seq<char>, a: XmlElement, b: XmlElement)
    requires
        a@ == b@,
    ensures
        candidate_statement(eid, elid, cid, a) == candidate_statement(eid, elid, cid, b),
{
    lemma_view_attr_of_child(a, b, "CandidateIdentifier"@, "Id"@);
    lemma_view_attr_of_child(a, b, "CandidateIdentifier"@, "CandidateName"@);
    lemma_view_child(a, b, "Affiliation"@);
    if a.child_named("Affiliation"@) is Some {
        lemma_view_attr_of_child(
            a.child_named("Affiliation"@).unwrap(),
            b.child_named("Affiliation"@).unwrap(),
            "AffiliationIdentifier"@,
            "ShortCode"@,
        );
    }
}

proof fn lemma_view_candidate_contest(eid: Seq<char>, elid: Seq<char>, a: XmlElement, b: XmlElement)
    requires
        a@ == b@,
    ensures
        candidate_contest_statements(eid, elid, a) == candidate_contest_statements(eid, elid, b),
{
    lemma_view_attr_of_child(a, b, "ContestIdentifier"@, "Id"@);
    lemma_view_child(a, b, "Candidate"@);
    if attr_of_child(a, "ContestIdentifier"@, "Id"@) is Some {
        let cid = attr_of_child(a, "ContestIdentifier"@, "Id"@).unwrap();
        let s1 = a.children_named("Candidate"@);
        let s2 = b.children_named("Candidate"@);
        let i1 = candidate_items(eid, elid, cid, s1);
        let i2 = candidate_items(eid, elid, cid, s2);
        assert forall|k: int| 0 <= k < i1.len() implies i1[k] == i2[k] by {
            lemma_view_candidate(eid, elid, cid, s1[k], s2[k]);
        }
        assert(i1 =~= i2);
    }
}

proof fn lemma_view_candidate_election(eid: Seq<char>, a: XmlElement, b: XmlElement)
    requires
        a@ == b@,
    ensures
        candidate_election_statements(eid, a) == candidate_election_statements(eid, b),
{
    lemma_view_attr_of_child(a, b, "ElectionIdentifier"@, "Id"@);
    lemma_view_attr_of_child(a, b, "ElectionIdentifier"@, "ElectionName"@);
    lemma_view_attr_of_child(a, b, "ElectionIdentifier"@, "ElectionCategory"@);
    lemma_view_child(a, b, "Contest"@);
    if attr_of_child(a, "ElectionIdentifier"@, "Id"@) is Some {
        let id = attr_of_child(a, "ElectionIdentifier"@, "Id"@).unwrap();
        let s1 = a.children_named("Contest"@);
        let s2 = b.children_named("Contest"@);
        let i1 = candidate_contest_items(eid, id, s1);
        let i2 = candidate_contest_items(eid, id, s2);
        assert forall|k: int| 0 <= k < i1.len() implies i1[k] == i2[k] by {
            lemma_view_candidate_contest(eid, id, s1[k], s2[k]);
        }
        assert(i1 =~= i2);
    }
}

proof fn lemma_view_candidates(eid: Seq<char>, a: XmlElement, b: XmlElement)
    requires
        a@ == b@,
    ensures
        candidate_statements(eid, a) == candidate_statements(eid, b),
{
    lemma_view_child(a, b, "CandidateList"@);
    if a.child_named("CandidateList"@) is Some {
        let l1 = a.child_named("CandidateList"@).unwrap();
        let l2 = b.child_named("CandidateList"@).unwrap();
        lemma_view_child(l1, l2, "Election"@);
        let s1 = l1.children_named("Election"@);
        let s2 = l2.children_named("Election"@);
        let i1 = candidate_election_items(eid, s1);
        let i2 = candidate_election_items(eid, s2);
        assert forall|k: int| 0 <= k < i1.len() implies i1[k] == i2[k] by {
            lemma_view_candidate_election(eid, s1[k], s2[k]);
        }
        assert(i1 =~= i2);
    }
}

/// The statements of every feed document depend on the document's value
/// alone: two trees with the same value give the same statements (so the
/// `exists` in `loaded` picks out one answer).
pub proof fn law_statements_depend_on_the_document(eid: Seq<char>, a: XmlElement, b: XmlElement)
    requires
        a@ == b@,
    ensures
        feed_votes(true, eid, a) == feed_votes(true, eid, b),
        feed_votes(false, eid, a) == feed_votes(false, eid, b),
        polling_districts_statement(eid, a) == polling_districts_statement(eid, b),
        event_statements(eid, a) == event_statements(eid, b),
        candidate_statements(eid, a) == candidate_statements(eid, b),
{
    lemma_view_feed_votes(true, eid, a, b);
    lemma_view_feed_votes(false, eid, a, b);
    lemma_view_polling_districts(eid, a, b);
    lemma_view_event(eid, a, b);
    lemma_view_candidates(eid, a, b);
}

/// A text, or the empty text when it is absent.
pub open spec fn or_empty(o: Option<Seq<char>>) -> Seq<char> {
    match o {
        Some(t) => t,
        None => Seq::empty(),
    }
}

/// The short code a candidate's affiliation is stored with: the empty text
/// for a candidate without an affiliation.
pub open spec fn affiliation_code(c: XmlElement) -> Seq<char> {
    match c.child_named("Affiliation"@) {
        Some(a) => attr_of_child(a, "AffiliationIdentifier"@, "ShortCode"@).unwrap(),
        None => Seq::empty(),
    }
}

/// A row of votes holds the leading values, then the polling place's
/// identifier, the candidate's identifier and the candidate's votes, each
/// `$$`-quoted.
pub proof fn law_vote_row_content(lead: Seq<Seq<char>>, pp: XmlElement, cand: XmlElement)
    requires
        vote_row(lead, pp, cand) is Some,
    ensures
        vote_row(lead, pp, cand) == Some(
            value_tuple(
                lead + seq![
                    attr_of_child(pp, "PollingPlaceIdentifier"@, "Id"@).unwrap(),
                    attr_of_child(cand, "CandidateIdentifier"@, "Id"@).unwrap(),
                    signed_decimal(
                        parsed_integer(cand.child_named("Votes"@).unwrap().text@, i32::MIN as int, i32::MAX as int).unwrap(),
                    ),
                ],
            ),
        ),
{
}

/// A polling place of the light feed gives two statements: its
/// first-preference rows, each stamped with the `FirstPreferences` time,
/// then its two-candidate-preferred rows, each stamped with the
/// `TwoCandidatePreferred` time. Of the preload feed it gives one statement
/// of five-column first-preference rows.
pub proof fn law_polling_place_statements(eid: Seq<char>, cid: Seq<char>, pp: XmlElement)
    ensures
        polling_place_votes(true, eid, cid, pp) matches Some(v) ==> {
            let fp = pp.child_named("FirstPreferences"@).unwrap();
            let tcp = pp.child_named("TwoCandidatePreferred"@).unwrap();
            &&& v.len() == 2
            &&& v[0] == PRIMARY_VOTE_INSERT@ + join(vote_rows(seq![updated_of(fp), eid, cid], pp, fp).unwrap(), ", "@)
            &&& v[1] == TWO_CANDIDATE_VOTE_INSERT@ + join(
                vote_rows(seq![updated_of(tcp), eid, cid], pp, tcp).unwrap(),
                ", "@,
            )
        },
        polling_place_votes(false, eid, cid, pp) matches Some(v) ==> {
            let fp = pp.child_named("FirstPreferences"@).unwrap();
            &&& v.len() == 1
            &&& v[0] == PRELOAD_PRIMARY_VOTE_INSERT@ + join(vote_rows(seq![eid, cid], pp, fp).unwrap(), ", "@)
        },
{
}

/// An event document gives the event's statement first, then the
/// statements of each election in order: the election's, then one per
/// contest, whose short code is stored as the empty text when absent.
pub proof fn law_event_document_statements(eid: Seq<char>, root: XmlElement)
    requires
        event_statements(eid, root) is Some,
    ensures
        ({
            let s = event_statements(eid, root).unwrap();
            let ev = root.child_named("ElectionEvent"@).unwrap();
            &&& s.len() >= 1
            &&& s[0] == ELECTION_EVENT_INSERT@ + value_tuple(
                seq![
                    eid,
                    child_text_of(root, "TransactionId"@).unwrap(),
                    grandchild_text(ev, "EventIdentifier"@, "EventName"@).unwrap(),
                ],
            )
            &&& s.skip(1) == concat_present(event_election_items(eid, ev.children_named("Election"@))).unwrap()
        }),
        forall|election_id: Seq<char>, c: XmlElement|
            #[trigger] event_contest_statement(eid, election_id, c) is Some ==> event_contest_statement(
                eid,
                election_id,
                c,
            ) == Some(
                CONTEST_INSERT@ + value_tuple(
                    seq![
                        eid,
                        election_id,
                        attr_of_child(c, "ContestIdentifier"@, "Id"@).unwrap(),
                        or_empty(attr_of_child(c, "ContestIdentifier"@, "ShortCode"@)),
                        grandchild_text(c, "ContestIdentifier"@, "ContestName"@).unwrap(),
                    ],
                ),
            ),
{
    let s = event_statements(eid, root).unwrap();
    let ev = root.child_named("ElectionEvent"@).unwrap();
    let rest = concat_present(event_election_items(eid, ev.children_named("Election"@))).unwrap();
    let head = ELECTION_EVENT_INSERT@ + value_tuple(
        seq![eid, child_text_of(root, "TransactionId"@).unwrap(), grandchild_text(ev, "EventIdentifier"@, "EventName"@).unwrap()],
    );
    assert(s == seq![head] + rest);
    assert(s.skip(1) =~= rest);
    assert forall|election_id: Seq<char>, c: XmlElement|
        #[trigger] event_contest_statement(eid, election_id, c) is Some implies event_contest_statement(
            eid,
            election_id,
            c,
        ) == Some(
            CONTEST_INSERT@ + value_tuple(
                seq![
                    eid,
                    election_id,
                    attr_of_child(c, "ContestIdentifier"@, "Id"@).unwrap(),
                    or_empty(attr_of_child(c, "ContestIdentifier"@, "ShortCode"@)),
                    grandchild_text(c, "ContestIdentifier"@, "ContestName"@).unwrap(),
                ],
            ),
        ) by {}
}

/// A contest of a candidate list gives one statement per candidate, in
/// order; each stores the candidate's affiliation short code, or the empty
/// text for a candidate without an affiliation.
pub proof fn law_one_statement_per_candidate(eid: Seq<char>, election_id: Seq<char>, contest: XmlElement)
    requires
        candidate_contest_statements(eid, election_id, contest) is Some,
    ensures
        ({
            let v = candidate_contest_statements(eid, election_id, contest).unwrap();
            let cands = contest.children_named("Candidate"@);
            let cid = attr_of_child(contest, "ContestIdentifier"@, "Id"@).unwrap();
            &&& v.len() == cands.len()
            &&& forall|k: int|
                0 <= k < cands.len() ==> Some(#[trigger] v[k]) == candidate_statement(eid, election_id, cid, cands[k])
        }),
        forall|contest_id: Seq<char>, c: XmlElement|
            #[trigger] candidate_statement(eid, election_id, contest_id, c) is Some ==> candidate_statement(
                eid,
                election_id,
                contest_id,
                c,
            ) == Some(
                CANDIDATE_INSERT@ + value_tuple(
                    seq![
                        eid,
                        election_id,
                        contest_id,
                        attr_of_child(c, "CandidateIdentifier"@, "Id"@).unwrap(),
                        grandchild_text(c, "CandidateIdentifier"@, "CandidateName"@).unwrap(),
                        affiliation_code(c),
                    ],
                ),
            ),
{
    let cands = contest.children_named("Candidate"@);
    let cid = attr_of_child(contest, "ContestIdentifier"@, "Id"@).unwrap();
    let items = candidate_items(eid, election_id, cid, cands);
    lemma_all_present_items(items);
    let v = candidate_contest_statements(eid, election_id, contest).unwrap();
    assert forall|k: int| 0 <= k < cands.len() implies Some(#[trigger] v[k]) == candidate_statement(
        eid,
        election_id,
        cid,
        cands[k],
    ) by {
        assert(items[k] == Some(v[k]));
    }
    assert forall|contest_id: Seq<char>, c: XmlElement|
        #[trigger] candidate_statement(eid, election_id, contest_id, c) is Some implies candidate_statement(
            eid,
            election_id,
            contest_id,
            c,
        ) == Some(
            CANDIDATE_INSERT@ + value_tuple(
                seq![
                    eid,
                    election_id,
                    contest_id,
                    attr_of_child(c, "CandidateIdentifier"@, "Id"@).unwrap(),
                    grandchild_text(c, "CandidateIdentifier"@, "CandidateName"@).unwrap(),
                    affiliation_code(c),
                ],
            ),
        ) by {
    }
}

/// A polling districts document gives one statement holding a row for
/// every polling place of every district, district by district: each
/// district's rows are one per `PollingPlace` child, in order.
pub proof fn law_polling_districts_rows(eid: Seq<char>, district: XmlElement)
    requires
        district_rows(eid, district) is Some,
    ensures
        ({
            let did = attr_of_child(district, "PollingDistrictIdentifier"@, "Id"@).unwrap();
            let pps = district.child_named("PollingPlaces"@).unwrap().children_named("PollingPlace"@);
            let rows = all_present(polling_place_row_items(eid, did, pps)).unwrap();
            &&& district_rows(eid, district) == Some(join(rows, ", "@))
            &&& rows.len() == pps.len()
            &&& forall|k: int| 0 <= k < pps.len() ==> Some(#[trigger] rows[k]) == polling_place_row(eid, did, pps[k])
        }),
{
    let did = attr_of_child(district, "PollingDistrictIdentifier"@, "Id"@).unwrap();
    let pps = district.child_named("PollingPlaces"@).unwrap().children_named("PollingPlace"@);
    let items = polling_place_row_items(eid, did, pps);
    lemma_all_present_items(items);
    let rows = all_present(items).unwrap();
    assert forall|k: int| 0 <= k < pps.len() implies Some(#[trigger] rows[k]) == polling_place_row(eid, did, pps[k]) by {
        assert(items[k] == Some(rows[k]));
    }
}

/// The statements of a House contest are those of each of its polling
/// places in turn: of the light feed two per polling place, of the
/// preload feed one, the `k`-th group being the `k`-th polling place's.
pub proof fn law_contest_statements(light: bool, eid: Seq<char>, contest: XmlElement)
    requires
        contest_votes(light, eid, contest) is Some,
    ensures
        ({
            let cid = attr_of_child(contest, "ContestIdentifier"@, "Id"@).unwrap();
            let pps = contest.child_named("PollingPlaces"@).unwrap().children_named("PollingPlace"@);
            let v = contest_votes(light, eid, contest).unwrap();
            let w: int = if light { 2 } else { 1 };
            &&& v.len() == w * pps.len()
            &&& forall|k: int|
                0 <= k < pps.len() ==> polling_place_votes(light, eid, cid, #[trigger] pps[k]) == Some(
                    v.subrange(w * k, w * k + w),
                )
        }),
{
    let cid = attr_of_child(contest, "ContestIdentifier"@, "Id"@).unwrap();
    let pps = contest.child_named("PollingPlaces"@).unwrap().children_named("PollingPlace"@);
    let items = polling_place_items(light, eid, cid, pps);
    let v = contest_votes(light, eid, contest).unwrap();
    let w: int = if light { 2 } else { 1 };
    lemma_concat_present_parts(items);
    assert forall|i: int| 0 <= i < items.len() implies (#[trigger] items[i]) is Some && items[i].unwrap().len() == w by {
        law_polling_place_statements(eid, cid, pps[i]);
    }
    lemma_present_len_uniform(items, w, items.len() as int);
    assert(items.take(items.len() as int) =~= items);
    assert forall|k: int| 0 <= k < pps.len() implies polling_place_votes(light, eid, cid, #[trigger] pps[k]) == Some(
        v.subrange(w * k, w * k + w),
    ) by {
        lemma_present_len_uniform(items, w, k);
        lemma_present_len_uniform(items, w, k + 1);
        assert(w * (k + 1) == w * k + w) by (nonlinear_arith);
        assert(items[k] is Some);
    }
}

/// The statements of a House election are those of each of its contests
/// in turn, and the statements of a results feed those of each of its
/// elections in turn: group `k` fills the positions after the groups
/// before it.
pub proof fn law_election_and_feed_statements(light: bool, eid: Seq<char>, election: XmlElement, root: XmlElement)
    ensures
        election_votes(light, eid, election) is Some && election.child_named("House"@) is Some ==> {
            let cs = election.child_named("House"@).unwrap().child_named("Contests"@).unwrap().children_named(
                "Contest"@,
            );
            let items = contest_items(light, eid, cs);
            let v = election_votes(light, eid, election).unwrap();
            &&& v.len() == present_len(items)
            &&& forall|k: int|
                0 <= k < cs.len() ==> contest_votes(light, eid, #[trigger] cs[k]) == Some(
                    v.subrange(present_len(items.take(k)), present_len(items.take(k + 1))),
                )
        },
        feed_votes(light, eid, root) is Some ==> {
            let es = root.child_named("Results"@).unwrap().children_named("Election"@);
            let items = election_items(light, eid, es);
            let v = feed_votes(light, eid, root).unwrap();
            &&& v.len() == present_len(items)
            &&& forall|k: int|
                0 <= k < es.len() ==> election_votes(light, eid, #[trigger] es[k]) == Some(
                    v.subrange(present_len(items.take(k)), present_len(items.take(k + 1))),
                )
        },
{
    if election_votes(light, eid, election) is Some && election.child_named("House"@) is Some {
        let cs = election.child_named("House"@).unwrap().child_named("Contests"@).unwrap().children_named("Contest"@);
        let items = contest_items(light, eid, cs);
        lemma_concat_present_parts(items);
        assert forall|k: int| 0 <= k < cs.len() implies contest_votes(light, eid, #[trigger] cs[k]) == Some(
            election_votes(light, eid, election).unwrap().subrange(present_len(items.take(k)), present_len(items.take(k + 1))),
        ) by {
            assert(items[k] is Some);
        }
    }
    if feed_votes(light, eid, root) is Some {
        let es = root.child_named("Results"@).unwrap().children_named("Election"@);
        let items = election_items(light, eid, es);
        lemma_concat_present_parts(items);
        assert forall|k: int| 0 <= k < es.len() implies election_votes(light, eid, #[trigger] es[k]) == Some(
            feed_votes(light, eid, root).unwrap().subrange(present_len(items.take(k)), present_len(items.take(k + 1))),
        ) by {
            assert(items[k] is Some);
        }
    }
}

/// A polling place row holds, in the order of the columns (event_id,
/// district_id, id, name, lat, long): the event, the district, the place's
/// `Id` and `Name`, then the latitude and the longitude of its physical
/// address.
pub proof fn law_polling_place_row(eid: Seq<char>, did: Seq<char>, pp: XmlElement)
    requires
        polling_place_row(eid, did, pp) is Some,
    ensures
        POLLING_PLACE_INSERT@ == "INSERT INTO aec.pollingplace (event_id, district_id, id, name, lat, long) VALUES "@,
        ({
            let postal = pp.child_named("PhysicalLocation"@).unwrap().child_named("Address"@).unwrap().child_named(
                "PostalServiceElements"@,
            ).unwrap();
            polling_place_row(eid, did, pp) == Some(
                value_tuple(
                    seq![
                        eid,
                        did,
                        pp.child_named("PollingPlaceIdentifier"@).unwrap().attr_value("Id"@).unwrap(),
                        pp.child_named("PollingPlaceIdentifier"@).unwrap().attr_value("Name"@).unwrap(),
                        postal.child_named("AddressLatitude"@).unwrap().text@,
                        postal.child_named("AddressLongitude"@).unwrap().text@,
                    ],
                ),
            )
        }),
{
}

/// The polling districts statement holds the rows of each district in
/// turn, one group per `PollingDistrict`, in order.
pub proof fn law_polling_districts_statement(eid: Seq<char>, root: XmlElement)
    requires
        polling_districts_statement(eid, root) is Some,
    ensures
        ({
            let ds = root.child_named("PollingDistrictList"@).unwrap().children_named("PollingDistrict"@);
            let groups = all_present(district_items(eid, ds)).unwrap();
            &&& polling_districts_statement(eid, root) == Some(POLLING_PLACE_INSERT@ + join(groups, ", "@))
            &&& groups.len() == ds.len()
            &&& forall|k: int| 0 <= k < ds.len() ==> Some(#[trigger] groups[k]) == district_rows(eid, ds[k])
        }),
{
    let ds = root.child_named("PollingDistrictList"@).unwrap().children_named("PollingDistrict"@);
    let items = district_items(eid, ds);
    lemma_all_present_items(items);
    let groups = all_present(items).unwrap();
    assert forall|k: int| 0 <= k < ds.len() implies Some(#[trigger] groups[k]) == district_rows(eid, ds[k]) by {
        assert(items[k] == Some(groups[k]));
    }
}

/// The number of `Candidate` children of the contests.
pub open spec fn candidate_total(contests: Seq<XmlElement>) -> int
    decreases contests.len(),
{
    if contests.len() == 0 {
        0
    } else {
        candidate_total(contests.drop_last()) + contests.last().children_named("Candidate"@).len()
    }
}

proof fn lemma_candidate_offsets(eid: Seq<char>, id: Seq<char>, cs: Seq<XmlElement>, k: int)
    requires
        0 <= k <= cs.len(),
        forall|i: int|
            0 <= i < cs.len() ==> (#[trigger] candidate_contest_items(eid, id, cs)[i]) is Some,
    ensures
        present_len(candidate_contest_items(eid, id, cs).take(k)) == candidate_total(cs.take(k)),
    decreases k,
{
    let items = candidate_contest_items(eid, id, cs);
    if k > 0 {
        lemma_candidate_offsets(eid, id, cs, k - 1);
        assert(items.take(k).drop_last() =~= items.take(k - 1));
        assert(cs.take(k).drop_last() =~= cs.take(k - 1));
        assert(items[k - 1] is Some);
        law_one_statement_per_candidate(eid, id, cs[k - 1]);
    }
}

/// The candidate statements of an election are those of each of its
/// contests in turn: as many as the contests have candidates, contest
/// `k`'s filling the positions after the candidates of the contests before
/// it.
pub proof fn law_election_candidates(eid: Seq<char>, election: XmlElement)
    requires
        candidate_election_statements(eid, election) is Some,
    ensures
        ({
            let id = attr_of_child(election, "ElectionIdentifier"@, "Id"@).unwrap();
            let cs = election.children_named("Contest"@);
            let v = candidate_election_statements(eid, election).unwrap();
            &&& v.len() == candidate_total(cs)
            &&& forall|k: int|
                0 <= k < cs.len() ==> candidate_contest_statements(eid, id, #[trigger] cs[k]) == Some(
                    v.subrange(candidate_total(cs.take(k)), candidate_total(cs.take(k + 1))),
                )
        }),
{
    let id = attr_of_child(election, "ElectionIdentifier"@, "Id"@).unwrap();
    let cs = election.children_named("Contest"@);
    let items = candidate_contest_items(eid, id, cs);
    lemma_concat_present_parts(items);
    assert forall|i: int| 0 <= i < cs.len() implies (#[trigger] candidate_contest_items(eid, id, cs)[i]) is Some by {
        assert(items[i] is Some);
    }
    lemma_candidate_offsets(eid, id, cs, cs.len() as int);
    assert(items.take(cs.len() as int) =~= items);
    assert(cs.take(cs.len() as int) =~= cs);
    assert forall|k: int| 0 <= k < cs.len() implies candidate_contest_statements(eid, id, #[trigger] cs[k]) == Some(
        candidate_election_statements(eid, election).unwrap().subrange(candidate_total(cs.take(k)), candidate_total(cs.take(k + 1))),
    ) by {
        lemma_candidate_offsets(eid, id, cs, k);
        lemma_candidate_offsets(eid, id, cs, k + 1);
        assert(items[k] is Some);
    }
}

/// The statements of a candidate list are those of each of its elections
/// in turn.
pub proof fn law_candidate_list(eid: Seq<char>, root: XmlElement)
    requires
        candidate_statements(eid, root) is Some,
    ensures
        ({
            let es = root.child_named("CandidateList"@).unwrap().children_named("Election"@);
            let items = candidate_election_items(eid, es);
            let v = candidate_statements(eid, root).unwrap();
            &&& v.len() == present_len(items)
            &&& forall|k: int|
                0 <= k < es.len() ==> candidate_election_statements(eid, #[trigger] es[k]) == Some(
                    v.subrange(present_len(items.take(k)), present_len(items.take(k + 1))),
                )
        }),
{
    let es = root.child_named("CandidateList"@).unwrap().children_named("Election"@);
    let items = candidate_election_items(eid, es);
    lemma_concat_present_parts(items);
    assert forall|k: int| 0 <= k < es.len() implies candidate_election_statements(eid, #[trigger] es[k]) == Some(
        candidate_statements(eid, root).unwrap().subrange(present_len(items.take(k)), present_len(items.take(k + 1))),
    ) by {
        assert(items[k] is Some);
    }
}

/// An election of an event document gives its own statement, then one
/// statement per contest in order; and the event document gives, after
/// the event's statement, the groups of its elections in turn.
pub proof fn law_event_election_statements(eid: Seq<char>, election: XmlElement, root: XmlElement)
    ensures
        event_election_statements(eid, election) is Some ==> {
            let id = attr_of_child(election, "ElectionIdentifier"@, "Id"@).unwrap();
            let cs = election.children_named("Contest"@);
            let v = event_election_statements(eid, election).unwrap();
            &&& v.len() == 1 + cs.len()
            &&& v[0] == ELECTION_INSERT@ + value_tuple(
                seq![
                    eid,
                    id,
                    grandchild_text(election, "ElectionIdentifier"@, "ElectionName"@).unwrap(),
                    grandchild_text(election, "ElectionIdentifier"@, "ElectionCategory"@).unwrap(),
                    grandchild_text(election, "Date"@, "SingleDate"@).unwrap(),
                ],
            )
            &&& forall|k: int|
                0 <= k < cs.len() ==> event_contest_statement(eid, id, #[trigger] cs[k]) == Some(v[1 + k])
        },
        event_statements(eid, root) is Some ==> {
            let es = root.child_named("ElectionEvent"@).unwrap().children_named("Election"@);
            let items = event_election_items(eid, es);
            let v = event_statements(eid, root).unwrap();
            &&& v.len() == 1 + present_len(items)
            &&& forall|k: int|
                0 <= k < es.len() ==> event_election_statements(eid, #[trigger] es[k]) == Some(
                    v.subrange(1 + present_len(items.take(k)), 1 + present_len(items.take(k + 1))),
                )
        },
{
    if event_election_statements(eid, election) is Some {
        let id = attr_of_child(election, "ElectionIdentifier"@, "Id"@).unwrap();
        let cs = election.children_named("Contest"@);
        let items = event_contest_items(eid, id, cs);
        lemma_all_present_items(items);
        let v = event_election_statements(eid, election).unwrap();
        let rest = all_present(items).unwrap();
        assert(v == seq![v[0]] + rest);
        assert forall|k: int| 0 <= k < cs.len() implies event_contest_statement(eid, id, #[trigger] cs[k]) == Some(v[1 + k]) by {
            assert(items[k] == Some(rest[k]));
        }
    }
    if event_statements(eid, root) is Some {
        let es = root.child_named("ElectionEvent"@).unwrap().children_named("Election"@);
        let items = event_election_items(eid, es);
        lemma_concat_present_parts(items);
        let v = event_statements(eid, root).unwrap();
        let rest = concat_present(items).unwrap();
        assert(v == seq![v[0]] + rest);
        assert forall|k: int| 0 <= k < es.len() implies event_election_statements(eid, #[trigger] es[k]) == Some(
            v.subrange(1 + present_len(items.take(k)), 1 + present_len(items.take(k + 1))),
        ) by {
            assert(items[k] is Some);
            let a = present_len(items.take(k));
            let b = present_len(items.take(k + 1));
            lemma_present_len_mono(items, k, k + 1);
            lemma_present_len_mono(items, k + 1, items.len() as int);
            assert(items.take(items.len() as int) =~= items);
            assert(v.subrange(1 + a, 1 + b) =~= rest.subrange(a, b));
        }
    }
}

} // verus!
