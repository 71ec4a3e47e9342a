//! Results media feed.
use crate::eml_schema::{
    accepts_candidate_identifier, accepts_managing_authority, parse_u32_or, reads_candidate_identifier,
    reads_election_identifier, reads_event_identifier, reads_managing_authority, u32_or,
    CandidateIdentifierStructure, ContestIdentifierStructure, ElectionIdentifierStructure,
    EventIdentifierStructure, ManagingAuthorityStructure, reads_contest_identifier,
};
use crate::eml_schema::xs::u32_of;
use crate::text::parse_u32;
use crate::xml::{child_text_of, opt_view, XmlElement};
use vstd::prelude::*;

verus! {

/// A results media feed message.
pub struct ResultsMediaFeed {
    pub id: String,
    pub created: String,
    pub managing_authority: Option<ManagingAuthorityStructure<()>>,
    pub message_language: Option<String>,
    pub cycle: Option<CycleStructure>,
    pub results: ResultsStructure,
}

/// The count cycle a message belongs to.
pub struct CycleStructure {
    pub created: String,
    pub guid: String,
}

/// The results of an event, election by election.
pub struct ResultsStructure {
    pub updated: Option<String>,
    pub phase: String,
    pub event_identifier: EventIdentifierStructure,
    pub election: Vec<ElectionStructure>,
}

/// The results of one election.
pub struct ElectionStructure {
    pub updated: Option<String>,
    pub election_identifier: ElectionIdentifierStructure,
    pub election_type: ElectionType,
}

/// Which chamber (or a referendum) an election's results are for.
pub enum ElectionType {
    House(HouseMediaFeedStructure),
    Senate(SenateMediaFeedStructure),
    Referendum(ReferendumMediaFeedStructure),
    Other,
}

/// House of Representatives results, contest by contest.
pub struct HouseMediaFeedStructure {
    pub contests: Vec<HouseContestsStructure>,
}

/// The results of one House contest.
pub struct HouseContestsStructure {
    pub updated: Option<String>,
    pub declared: Option<String>,
    pub projected: Option<String>,
    pub contest_identifier: ContestIdentifierStructure,
    pub enrolment: u32,
    pub first_prefs: HouseFirstPreferencesStructure,
    pub tcp: Option<TwoCandidatePreferredStructure>,
}

/// First-preference counts of a House contest.
pub struct HouseFirstPreferencesStructure {
    pub updated: Option<String>,
    pub polling_places_returned: Option<u32>,
    pub polling_places_expected: Option<u32>,
    pub candidates: Vec<HouseCandidateResultsStructure>,
    pub ghosts: Vec<HouseCandidateResultsStructure>,
    pub formal: HouseRawTotal,
    pub informal: HouseRawTotal,
    pub total: HouseRawTotal,
}

/// Two-candidate-preferred counts of a House contest.
pub struct TwoCandidatePreferredStructure {
    pub updated: Option<String>,
    pub polling_places_returned: Option<u32>,
    pub polling_places_expected: Option<u32>,
    pub candidates: Vec<HouseCandidateResultsStructure>,
}

/// A vote total and its breakdown by vote type.
pub struct HouseRawTotal {
    pub votes: u32,
    pub matched_historic: Option<u32>,
    pub votes_by_type: Vec<VotesByTypeStructure>,
}

/// The votes of one vote type.
pub struct VotesByTypeStructure {
    pub votes_by_type_enum: String,
    pub votes: String,
    pub historic: Option<String>,
    pub percentage: Option<String>,
    pub swing: Option<String>,
    pub matched_historic: Option<String>,
}

/// One candidate's votes.
pub struct HouseCandidateResultsStructure {
    pub candidate_identifier: CandidateIdentifierStructure,
    pub ballot_position: Option<String>,
    pub elected: Option<String>,
    pub votes: u32,
    pub matched_historic: Option<u32>,
    pub votes_by_type: Vec<VotesByTypeStructure>,
}

/// Senate results; their content is not read.
pub struct SenateMediaFeedStructure {}

/// Referendum results; their content is not read.
pub struct ReferendumMediaFeedStructure {}

/// A counter attribute: the number it holds (0 where it holds none), `None` without the attribute.
pub open spec fn counter_of(attr: Option<Seq<char>>, v: Option<u32>) -> bool {
    match attr {
        Some(t) => v == Some(u32_or(t, 0)),
        None => v is None,
    }
}

fn counter_from(attr: Option<&str>) -> (r: Option<u32>)
    ensures
        counter_of(
            match attr {
                Some(t) => Some(t@),
                None => None,
            },
            r,
        ),
{
    match attr {
        Some(t) => Some(parse_u32_or(t, 0)),
        None => None,
    }
}

impl CycleStructure {
    pub fn from_element(value: &XmlElement) -> (r: Option<CycleStructure>)
        ensures
            r is Some <==> value.attr_value("Created"@) is Some,
            r matches Some(x) ==> Some(x.created@) == value.attr_value("Created"@) && x.guid@ == value.text@,
    {
        match value.attr_string("Created") {
            Some(created) => Some(CycleStructure { created, guid: value.text() }),
            None => None,
        }
    }
}

pub open spec fn reads_votes_by_type(x: VotesByTypeStructure, e: XmlElement) -> bool {
    &&& x.votes@ == e.text@
    &&& Some(x.votes_by_type_enum@) == e.attr_value("Type"@)
    &&& opt_view(x.historic) == e.attr_value("Historic"@)
    &&& opt_view(x.percentage) == e.attr_value("Percentage"@)
    &&& opt_view(x.swing) == e.attr_value("Swing"@)
    &&& opt_view(x.matched_historic) == e.attr_value("MatchedHistoric"@)
}

impl VotesByTypeStructure {
    pub fn from_element(value: &XmlElement) -> (r: Option<VotesByTypeStructure>)
        ensures
            r is Some <==> value.attr_value("Type"@) is Some,
            r matches Some(x) ==> reads_votes_by_type(x, *value),
    {
        let votes_by_type_enum = match value.attr_string("Type") {
            Some(t) => t,
            None => return None,
        };
        Some(VotesByTypeStructure {
            votes: value.text(),
            votes_by_type_enum,
            historic: value.attr_string("Historic"),
            percentage: value.attr_string("Percentage"),
            swing: value.attr_string("Swing"),
            matched_historic: value.attr_string("MatchedHistoric"),
        })
    }
}

/// The `VotesByType` child exists and each of its `Votes` children has a `Type`.
pub open spec fn accepts_votes_breakdown(e: XmlElement) -> bool {
    &&& e.child_named("VotesByType"@) matches Some(v)
    &&& forall|k: int|
        0 <= k < v.children_named("Votes"@).len() ==> (#[trigger] v.children_named("Votes"@)[k]).attr_value(
            "Type"@,
        ) is Some
}

pub open spec fn reads_votes_breakdown(x: Seq<VotesByTypeStructure>, e: XmlElement) -> bool {
    let vs = e.child_named("VotesByType"@).unwrap().children_named("Votes"@);
    &&& x.len() == vs.len()
    &&& forall|k: int| 0 <= k < vs.len() ==> reads_votes_by_type(#[trigger] x[k], vs[k])
}

/// The vote-type breakdown under an element's `VotesByType` child.
pub fn read_votes_breakdown(value: &XmlElement) -> (r: Option<Vec<VotesByTypeStructure>>)
    ensures
        r is Some <==> accepts_votes_breakdown(*value),
        r matches Some(x) ==> reads_votes_breakdown(x@, *value),
{
    let holder = match value.get_child_ignore_ns("VotesByType") {
        Some(v) => v,
        None => return None,
    };
    let vs = holder.get_children_ignore_ns("Votes");
    let ghost spec_vs = holder.children_named("Votes"@);
    let mut out: Vec<VotesByTypeStructure> = Vec::new();
    let n = vs.len();
    let mut i: usize = 0;
    while i < n
        invariant
            value.child_named("VotesByType"@) == Some(*holder),
            spec_vs == holder.children_named("Votes"@),
            n == vs@.len(),
            spec_vs.len() == n,
            forall|k: int| 0 <= k < n ==> *vs@[k] == #[trigger] spec_vs[k],
            i <= n,
            out@.len() == i,
            forall|k: int| 0 <= k < i ==> (#[trigger] spec_vs[k]).attr_value("Type"@) is Some,
            forall|k: int| 0 <= k < i ==> reads_votes_by_type(#[trigger] out@[k], spec_vs[k]),
        decreases n - i,
    {
        match VotesByTypeStructure::from_element(vs[i]) {
            Some(v) => out.push(v),
            None => {
                assert(!accepts_votes_breakdown(*value)) by {
                    if accepts_votes_breakdown(*value) {
                        assert(spec_vs[i as int].attr_value("Type"@) is Some);
                    }
                }
                return None;
            },
        }
        i = i + 1;
    }
    Some(out)
}

pub open spec fn reads_raw_total(x: HouseRawTotal, e: XmlElement) -> bool {
    &&& x.votes == u32_or(e.text@, 0)
    &&& counter_of(e.attr_value("MatchedHistoric"@), x.matched_historic)
    &&& reads_votes_breakdown(x.votes_by_type@, e)
}

impl HouseRawTotal {
    pub fn from_element(value: &XmlElement) -> (r: Option<HouseRawTotal>)
        ensures
            r is Some <==> accepts_votes_breakdown(*value),
            r matches Some(x) ==> reads_raw_total(x, *value),
    {
        let votes_by_type = match read_votes_breakdown(value) {
            Some(v) => v,
            None => return None,
        };
        Some(HouseRawTotal {
            votes: parse_u32_or(value.text.as_str(), 0),
            matched_historic: counter_from(value.attr("MatchedHistoric")),
            votes_by_type,
        })
    }
}

pub open spec fn accepts_candidate_results(e: XmlElement) -> bool {
    &&& e.child_named("CandidateIdentifier"@) matches Some(i)
    &&& accepts_candidate_identifier(i)
    &&& e.child_named("Votes"@) matches Some(v)
    &&& u32_of(v.text@) is Some
    &&& accepts_votes_breakdown(e)
}

/// `elected` holds the text of `BallotPosition`, the same text as
/// `ballot_position`.
pub open spec fn reads_candidate_results(x: HouseCandidateResultsStructure, e: XmlElement) -> bool {
    let v = e.child_named("Votes"@).unwrap();
    &&& reads_candidate_identifier(x.candidate_identifier, e.child_named("CandidateIdentifier"@).unwrap())
    &&& opt_view(x.ballot_position) == child_text_of(e, "BallotPosition"@)
    &&& opt_view(x.elected) == child_text_of(e, "BallotPosition"@)
    &&& u32_of(v.text@) == Some(x.votes as int)
    &&& counter_of(v.attr_value("MatchedHistoric"@), x.matched_historic)
    &&& reads_votes_breakdown(x.votes_by_type@, e)
}

impl HouseCandidateResultsStructure {
    pub fn from_element(value: &XmlElement) -> (r: Option<HouseCandidateResultsStructure>)
        ensures
            r is Some <==> accepts_candidate_results(*value),
            r matches Some(x) ==> reads_candidate_results(x, *value),
    {
        let candidate_identifier = match value.get_child_ignore_ns("CandidateIdentifier") {
            Some(i) => match CandidateIdentifierStructure::from_element(i) {
                Some(c) => c,
                None => return None,
            },
            None => return None,
        };
        let votes_element = match value.get_child_ignore_ns("Votes") {
            Some(v) => v,
            None => return None,
        };
        let votes = match parse_u32(votes_element.text.as_str()) {
            Some(v) => v,
            None => return None,
        };
        let votes_by_type = match read_votes_breakdown(value) {
            Some(v) => v,
            None => return None,
        };
        Some(HouseCandidateResultsStructure {
            candidate_identifier,
            ballot_position: value.child_text("BallotPosition"),
            elected: value.child_text("BallotPosition"),
            votes,
            matched_historic: counter_from(votes_element.attr("MatchedHistoric")),
            votes_by_type,
        })
    }
}

/// Every child called `name` is a readable candidate result.
pub open spec fn accepts_candidate_results_list(e: XmlElement, name: Seq<char>) -> bool {
    forall|k: int|
        0 <= k < e.children_named(name).len() ==> accepts_candidate_results(
            #[trigger] e.children_named(name)[k],
        )
}

pub open spec fn reads_candidate_results_list(x: Seq<HouseCandidateResultsStructure>, e: XmlElement, name: Seq<char>) -> bool {
    let cs = e.children_named(name);
    &&& x.len() == cs.len()
    &&& forall|k: int| 0 <= k < cs.len() ==> reads_candidate_results(#[trigger] x[k], cs[k])
}

/// The candidate results of the children called `name`.
pub fn read_candidate_results(value: &XmlElement, name: &str) -> (r: Option<Vec<HouseCandidateResultsStructure>>)
    ensures
        r is Some <==> accepts_candidate_results_list(*value, name@),
        r matches Some(x) ==> reads_candidate_results_list(x@, *value, name@),
{
    let cs = value.get_children_ignore_ns(name);
    let ghost spec_cs = value.children_named(name@);
    let mut out: Vec<HouseCandidateResultsStructure> = Vec::new();
    let n = cs.len();
    let mut i: usize = 0;
    while i < n
        invariant
            spec_cs == value.children_named(name@),
            n == cs@.len(),
            spec_cs.len() == n,
            forall|k: int| 0 <= k < n ==> *cs@[k] == #[trigger] spec_cs[k],
            i <= n,
            out@.len() == i,
            forall|k: int| 0 <= k < i ==> accepts_candidate_results(#[trigger] spec_cs[k]),
            forall|k: int| 0 <= k < i ==> reads_candidate_results(#[trigger] out@[k], spec_cs[k]),
        decreases n - i,
    {
        match HouseCandidateResultsStructure::from_element(cs[i]) {
            Some(c) => out.push(c),
            None => {
                assert(!accepts_candidate_results(spec_cs[i as int]));
                return None;
            },
        }
        i = i + 1;
    }
    Some(out)
}

pub open spec fn accepts_first_preferences(e: XmlElement) -> bool {
    &&& accepts_candidate_results_list(e, "Candidate"@)
    &&& accepts_candidate_results_list(e, "Ghost"@)
    &&& e.child_named("Formal"@) matches Some(f) && accepts_votes_breakdown(f)
    &&& e.child_named("Informal"@) matches Some(i) && accepts_votes_breakdown(i)
    &&& e.child_named("Total"@) matches Some(t) && accepts_votes_breakdown(t)
}

pub open spec fn reads_first_preferences(x: HouseFirstPreferencesStructure, e: XmlElement) -> bool {
    &&& opt_view(x.updated) == e.attr_value("Updated"@)
    &&& counter_of(e.attr_value("PollingPlacesReturned"@), x.polling_places_returned)
    &&& counter_of(e.attr_value("PollingPlacesExpected"@), x.polling_places_expected)
    &&& reads_candidate_results_list(x.candidates@, e, "Candidate"@)
    &&& reads_candidate_results_list(x.ghosts@, e, "Ghost"@)
    &&& reads_raw_total(x.formal, e.child_named("Formal"@).unwrap())
    &&& reads_raw_total(x.informal, e.child_named("Informal"@).unwrap())
    &&& reads_raw_total(x.total, e.child_named("Total"@).unwrap())
}

fn child_raw_total(value: &XmlElement, name: &str) -> (r: Option<HouseRawTotal>)
    ensures
        r is Some <==> (value.child_named(name@) matches Some(c) && accepts_votes_breakdown(c)),
        r matches Some(x) ==> reads_raw_total(x, value.child_named(name@).unwrap()),
{
    match value.get_child_ignore_ns(name) {
        Some(c) => HouseRawTotal::from_element(c),
        None => None,
    }
}

impl HouseFirstPreferencesStructure {
    pub fn from_element(value: &XmlElement) -> (r: Option<HouseFirstPreferencesStructure>)
        ensures
            r is Some <==> accepts_first_preferences(*value),
            r matches Some(x) ==> reads_first_preferences(x, *value),
    {
        let candidates = match read_candidate_results(value, "Candidate") {
            Some(c) => c,
            None => return None,
        };
        let ghosts = match read_candidate_results(value, "Ghost") {
            Some(c) => c,
            None => return None,
        };
        let formal = match child_raw_total(value, "Formal") {
            Some(t) => t,
            None => return None,
        };
        let informal = match child_raw_total(value, "Informal") {
            Some(t) => t,
            None => return None,
        };
        let total = match child_raw_total(value, "Total") {
            Some(t) => t,
            None => return None,
        };
        Some(HouseFirstPreferencesStructure {
            updated: value.attr_string("Updated"),
            polling_places_returned: counter_from(value.attr("PollingPlacesReturned")),
            polling_places_expected: counter_from(value.attr("PollingPlacesExpected")),
            candidates,
            ghosts,
            formal,
            informal,
            total,
        })
    }
}

pub open spec fn reads_two_candidate_preferred(x: TwoCandidatePreferredStructure, e: XmlElement) -> bool {
    &&& opt_view(x.updated) == e.attr_value("Updated"@)
    &&& counter_of(e.attr_value("PollingPlacesReturned"@), x.polling_places_returned)
    &&& counter_of(e.attr_value("PollingPlacesExpected"@), x.polling_places_expected)
    &&& reads_candidate_results_list(x.candidates@, e, "Candidate"@)
}

impl TwoCandidatePreferredStructure {
    pub fn from_element(value: &XmlElement) -> (r: Option<TwoCandidatePreferredStructure>)
        ensures
            r is Some <==> accepts_candidate_results_list(*value, "Candidate"@),
            r matches Some(x) ==> reads_two_candidate_preferred(x, *value),
    {
        let candidates = match read_candidate_results(value, "Candidate") {
            Some(c) => c,
            None => return None,
        };
        Some(TwoCandidatePreferredStructure {
            updated: value.attr_string("Updated"),
            polling_places_returned: counter_from(value.attr("PollingPlacesReturned")),
            polling_places_expected: counter_from(value.attr("PollingPlacesExpected")),
            candidates,
        })
    }
}

pub open spec fn accepts_house_contest(e: XmlElement) -> bool {
    &&& e.child_named("ContestIdentifier"@) matches Some(i) && i.attr_value("Id"@) is Some
    &&& e.child_named("Enrolment"@) is Some
    &&& e.child_named("FirstPreferences"@) matches Some(f) && accepts_first_preferences(f)
    &&& (e.child_named("TwoCandidatePreferred"@) matches Some(t) ==> accepts_candidate_results_list(t, "Candidate"@))
}

pub open spec fn reads_house_contest(x: HouseContestsStructure, e: XmlElement) -> bool {
    &&& opt_view(x.updated) == e.attr_value("Updated"@)
    &&& opt_view(x.declared) == e.attr_value("Declared"@)
    &&& opt_view(x.projected) == e.attr_value("Projected"@)
    &&& reads_contest_identifier(x.contest_identifier, e.child_named("ContestIdentifier"@).unwrap())
    &&& x.enrolment == u32_or(e.child_named("Enrolment"@).unwrap().text@, 0)
    &&& reads_first_preferences(x.first_prefs, e.child_named("FirstPreferences"@).unwrap())
    &&& match e.child_named("TwoCandidatePreferred"@) {
        Some(t) => x.tcp matches Some(xt) && reads_two_candidate_preferred(xt, t),
        None => x.tcp is None,
    }
}

impl HouseContestsStructure {
    pub fn from_element(value: &XmlElement) -> (r: Option<HouseContestsStructure>)
        ensures
            r is Some <==> accepts_house_contest(*value),
            r matches Some(x) ==> reads_house_contest(x, *value),
    {
        let contest_identifier = match value.get_child_ignore_ns("ContestIdentifier") {
            Some(i) => match ContestIdentifierStructure::from_element(i) {
                Some(c) => c,
                None => return None,
            },
            None => return None,
        };
        let enrolment = match value.get_child_ignore_ns("Enrolment") {
            Some(e) => parse_u32_or(e.text.as_str(), 0),
            None => return None,
        };
        let first_prefs = match value.get_child_ignore_ns("FirstPreferences") {
            Some(f) => match HouseFirstPreferencesStructure::from_element(f) {
                Some(x) => x,
                None => return None,
            },
            None => return None,
        };
        let tcp = match value.get_child_ignore_ns("TwoCandidatePreferred") {
            Some(t) => match TwoCandidatePreferredStructure::from_element(t) {
                Some(x) => Some(x),
                None => return None,
            },
            None => None,
        };
        Some(HouseContestsStructure {
            updated: value.attr_string("Updated"),
            declared: value.attr_string("Declared"),
            projected: value.attr_string("Projected"),
            contest_identifier,
            enrolment,
            first_prefs,
            tcp,
        })
    }
}

pub open spec fn accepts_house_feed(e: XmlElement) -> bool {
    &&& e.child_named("Contests"@) matches Some(c)
    &&& forall|k: int|
        0 <= k < c.children_named("Contest"@).len() ==> accepts_house_contest(
            #[trigger] c.children_named("Contest"@)[k],
        )
}

pub open spec fn reads_house_feed(x: HouseMediaFeedStructure, e: XmlElement) -> bool {
    let cs = e.child_named("Contests"@).unwrap().children_named("Contest"@);
    &&& x.contests@.len() == cs.len()
    &&& forall|k: int| 0 <= k < cs.len() ==> reads_house_contest(#[trigger] x.contests@[k], cs[k])
}

impl HouseMediaFeedStructure {
    pub fn from_element(value: &XmlElement) -> (r: Option<HouseMediaFeedStructure>)
        ensures
            r is Some <==> accepts_house_feed(*value),
            r matches Some(x) ==> reads_house_feed(x, *value),
    {
        let holder = match value.get_child_ignore_ns("Contests") {
            Some(c) => c,
            None => return None,
        };
        let cs = holder.get_children_ignore_ns("Contest");
        let ghost spec_cs = holder.children_named("Contest"@);
        let mut contests: Vec<HouseContestsStructure> = Vec::new();
        let n = cs.len();
        let mut i: usize = 0;
        while i < n
            invariant
                value.child_named("Contests"@) == Some(*holder),
                spec_cs == holder.children_named("Contest"@),
                n == cs@.len(),
                spec_cs.len() == n,
                forall|k: int| 0 <= k < n ==> *cs@[k] == #[trigger] spec_cs[k],
                i <= n,
                contests@.len() == i,
                forall|k: int| 0 <= k < i ==> accepts_house_contest(#[trigger] spec_cs[k]),
                forall|k: int| 0 <= k < i ==> reads_house_contest(#[trigger] contests@[k], spec_cs[k]),
            decreases n - i,
        {
            match HouseContestsStructure::from_element(cs[i]) {
                Some(c) => contests.push(c),
                None => {
                    assert(!accepts_house_feed(*value)) by {
                        if accepts_house_feed(*value) {
                            let c = value.child_named("Contests"@).unwrap();
                            assert(accepts_house_contest(c.children_named("Contest"@)[i as int]));
                        }
                    }
                    return None;
                },
            }
            i = i + 1;
        }
        Some(HouseMediaFeedStructure { contests })
    }
}

impl SenateMediaFeedStructure {
    pub fn from_element(value: &XmlElement) -> (r: SenateMediaFeedStructure) {
        SenateMediaFeedStructure {  }
    }
}

impl ReferendumMediaFeedStructure {
    pub fn from_element(value: &XmlElement) -> (r: ReferendumMediaFeedStructure) {
        ReferendumMediaFeedStructure {  }
    }
}

pub open spec fn accepts_election_results(e: XmlElement) -> bool {
    &&& (e.child_named("House"@) matches Some(h) ==> accepts_house_feed(h))
    &&& e.child_named("ElectionIdentifier"@) matches Some(i) && i.attr_value("Id"@) is Some
}

pub open spec fn reads_election_results(x: ElectionStructure, e: XmlElement) -> bool {
    &&& opt_view(x.updated) == e.attr_value("Updated"@)
    &&& reads_election_identifier(x.election_identifier, e.child_named("ElectionIdentifier"@).unwrap())
    &&& match e.child_named("House"@) {
        Some(h) => x.election_type matches ElectionType::House(hf) && reads_house_feed(hf, h),
        None => if e.child_named("Senate"@) is Some {
            x.election_type is Senate
        } else if e.child_named("Referendum"@) is Some {
            x.election_type is Referendum
        } else {
            x.election_type is Other
        },
    }
}

impl ElectionStructure {
    pub fn from_element(value: &XmlElement) -> (r: Option<ElectionStructure>)
        ensures
            r is Some <==> accepts_election_results(*value),
            r matches Some(x) ==> reads_election_results(x, *value),
    {
        let election_type = if let Some(h) = value.get_child_ignore_ns("House") {
            match HouseMediaFeedStructure::from_element(h) {
                Some(x) => ElectionType::House(x),
                None => return None,
            }
        } else if let Some(s) = value.get_child_ignore_ns("Senate") {
            ElectionType::Senate(SenateMediaFeedStructure::from_element(s))
        } else if let Some(r) = value.get_child_ignore_ns("Referendum") {
            ElectionType::Referendum(ReferendumMediaFeedStructure::from_element(r))
        } else {
            ElectionType::Other
        };
        let election_identifier = match value.get_child_ignore_ns("ElectionIdentifier") {
            Some(i) => match ElectionIdentifierStructure::from_element(i) {
                Some(x) => x,
                None => return None,
            },
            None => return None,
        };
        Some(ElectionStructure { updated: value.attr_string("Updated"), election_identifier, election_type })
    }
}

pub open spec fn accepts_results(e: XmlElement) -> bool {
    &&& e.child_named("EventIdentifier"@) is Some
    &&& forall|k: int|
        0 <= k < e.children_named("Election"@).len() ==> accepts_election_results(
            #[trigger] e.children_named("Election"@)[k],
        )
}

pub open spec fn reads_results(x: ResultsStructure, e: XmlElement) -> bool {
    let es = e.children_named("Election"@);
    &&& opt_view(x.updated) == e.attr_value("Updated"@)
    &&& x.phase@ == (match e.attr_value("Phase"@) {
        Some(p) => p,
        None => Seq::empty(),
    })
    &&& reads_event_identifier(x.event_identifier, e.child_named("EventIdentifier"@).unwrap())
    &&& x.election@.len() == es.len()
    &&& forall|k: int| 0 <= k < es.len() ==> reads_election_results(#[trigger] x.election@[k], es[k])
}

impl ResultsStructure {
    pub fn from_element(value: &XmlElement) -> (r: Option<ResultsStructure>)
        ensures
            r is Some <==> accepts_results(*value),
            r matches Some(x) ==> reads_results(x, *value),
    {
        let event_identifier = match value.get_child_ignore_ns("EventIdentifier") {
            Some(i) => EventIdentifierStructure::from_element(i),
            None => return None,
        };
        let es = value.get_children_ignore_ns("Election");
        let ghost spec_es = value.children_named("Election"@);
        let mut election: Vec<ElectionStructure> = Vec::new();
        let n = es.len();
        let mut i: usize = 0;
        while i < n
            invariant
                spec_es == value.children_named("Election"@),
                n == es@.len(),
                spec_es.len() == n,
                forall|k: int| 0 <= k < n ==> *es@[k] == #[trigger] spec_es[k],
                i <= n,
                election@.len() == i,
                forall|k: int| 0 <= k < i ==> accepts_election_results(#[trigger] spec_es[k]),
                forall|k: int| 0 <= k < i ==> reads_election_results(#[trigger] election@[k], spec_es[k]),
            decreases n - i,
        {
            match ElectionStructure::from_element(es[i]) {
                Some(x) => election.push(x),
                None => {
                    assert(!accepts_election_results(spec_es[i as int]));
                    return None;
                },
            }
            i = i + 1;
        }
        let phase = match value.attr_string("Phase") {
            Some(p) => p,
            None => String::new(),
        };
        Some(ResultsStructure { updated: value.attr_string("Updated"), phase, event_identifier, election })
    }
}

pub open spec fn accepts_results_feed(e: XmlElement) -> bool {
    &&& e.attr_value("Id"@) is Some
    &&& e.attr_value("Created"@) is Some
    &&& (e.child_named("ManagingAuthority"@) matches Some(m) ==> accepts_managing_authority(m))
    &&& (e.child_named("Cycle"@) matches Some(c) ==> c.attr_value("Created"@) is Some)
    &&& e.child_named("Results"@) matches Some(r) && accepts_results(r)
}

pub open spec fn reads_results_feed(x: ResultsMediaFeed, e: XmlElement) -> bool {
    &&& Some(x.id@) == e.attr_value("Id"@)
    &&& Some(x.created@) == e.attr_value("Created"@)
    &&& match e.child_named("ManagingAuthority"@) {
        Some(m) => x.managing_authority matches Some(xm) && reads_managing_authority(xm, m),
        None => x.managing_authority is None,
    }
    &&& opt_view(x.message_language) == child_text_of(e, "MessageLanguage"@)
    &&& match e.child_named("Cycle"@) {
        Some(c) => x.cycle matches Some(xc) && Some(xc.created@) == c.attr_value("Created"@) && xc.guid@ == c.text@,
        None => x.cycle is None,
    }
    &&& reads_results(x.results, e.child_named("Results"@).unwrap())
}

impl ResultsMediaFeed {
    pub fn from_element(value: &XmlElement) -> (r: Option<ResultsMediaFeed>)
        ensures
            r is Some <==> accepts_results_feed(*value),
            r matches Some(x) ==> reads_results_feed(x, *value),
    {
        let id = match value.attr_string("Id") {
            Some(v) => v,
            None => return None,
        };
        let created = match value.attr_string("Created") {
            Some(v) => v,
            None => return None,
        };
        let managing_authority = match value.get_child_ignore_ns("ManagingAuthority") {
            Some(m) => match ManagingAuthorityStructure::<()>::from_element(m) {
                Some(x) => Some(x),
                None => return None,
            },
            None => None,
        };
        let cycle = match value.get_child_ignore_ns("Cycle") {
            Some(c) => match CycleStructure::from_element(c) {
                Some(x) => Some(x),
                None => return None,
            },
            None => None,
        };
        let results = match value.get_child_ignore_ns("Results") {
            Some(r) => match ResultsStructure::from_element(r) {
                Some(x) => x,
                None => return None,
            },
            None => return None,
        };
        Some(ResultsMediaFeed {
            id,
            created,
            managing_authority,
            message_language: value.child_text("MessageLanguage"),
            cycle,
            results,
        })
    }
}

} // verus!
