//! Candidate list (EML 230).
use crate::eml_schema::{
    accepts_affiliation, accepts_candidate, reads_affiliation, reads_candidate,
    reads_contest_identifier, reads_election_identifier, reads_event_identifier, AffiliationStructure,
    CandidateStructure, ContestIdentifierStructure, ElectionIdentifierStructure,
    EventIdentifierStructure,
};
use crate::xml::XmlElement;
use vstd::prelude::*;

verus! {

/// The candidates of every contest of every election of an event.
#[derive(Clone)]
pub struct CandidateList {
    pub event_identifier: EventIdentifierStructure,
    pub elections: Vec<Election>,
}

/// An election and its contests.
#[derive(Clone)]
pub struct Election {
    pub election_identifier: ElectionIdentifierStructure,
    pub contests: Vec<Contest>,
}

/// A contest, its candidates and the affiliations listed with it.
#[derive(Clone)]
pub struct Contest {
    pub contest_identifier: ContestIdentifierStructure,
    pub candidates: Vec<CandidateStructure>,
    pub affiliations: Vec<AffiliationStructure>,
}

pub open spec fn accepts_contest(e: XmlElement) -> bool {
    &&& e.child_named("ContestIdentifier"@) matches Some(i)
    &&& i.attr_value("Id"@) is Some
    &&& forall|k: int|
        0 <= k < e.children_named("Candidate"@).len() ==> accepts_candidate(
            #[trigger] e.children_named("Candidate"@)[k],
        )
    &&& forall|k: int|
        0 <= k < e.children_named("Affiliation"@).len() ==> accepts_affiliation(
            #[trigger] e.children_named("Affiliation"@)[k],
        )
}

pub open spec fn reads_contest(x: Contest, e: XmlElement) -> bool {
    let cs = e.children_named("Candidate"@);
    let afs = e.children_named("Affiliation"@);
    &&& reads_contest_identifier(x.contest_identifier, e.child_named("ContestIdentifier"@).unwrap())
    &&& x.candidates@.len() == cs.len()
    &&& forall|k: int| 0 <= k < cs.len() ==> reads_candidate(#[trigger] x.candidates@[k], cs[k])
    &&& x.affiliations@.len() == afs.len()
    &&& forall|k: int| 0 <= k < afs.len() ==> reads_affiliation(#[trigger] x.affiliations@[k], afs[k])
}

impl Contest {
    pub fn from_element(value: &XmlElement) -> (r: Option<Contest>)
        ensures
            r is Some <==> accepts_contest(*value),
            r matches Some(x) ==> reads_contest(x, *value),
    {
        let contest_identifier = match value.get_child_ignore_ns("ContestIdentifier") {
            Some(i) => match ContestIdentifierStructure::from_element(i) {
                Some(c) => c,
                None => return None,
            },
            None => return None,
        };
        let cs = value.get_children_ignore_ns("Candidate");
        let ghost spec_cs = value.children_named("Candidate"@);
        let mut candidates: Vec<CandidateStructure> = Vec::new();
        let n = cs.len();
        let mut i: usize = 0;
        while i < n
            invariant
                spec_cs == value.children_named("Candidate"@),
                n == cs@.len(),
                spec_cs.len() == n,
                forall|k: int| 0 <= k < n ==> *cs@[k] == #[trigger] spec_cs[k],
                i <= n,
                candidates@.len() == i,
                forall|k: int| 0 <= k < i ==> accepts_candidate(#[trigger] spec_cs[k]),
                forall|k: int| 0 <= k < i ==> reads_candidate(#[trigger] candidates@[k], spec_cs[k]),
            decreases n - i,
        {
            match CandidateStructure::from_element(cs[i]) {
                Some(c) => candidates.push(c),
                None => {
                    assert(!accepts_candidate(spec_cs[i as int]));
                    return None;
                },
            }
            i = i + 1;
        }
        let afs = value.get_children_ignore_ns("Affiliation");
        let ghost spec_afs = value.children_named("Affiliation"@);
        let mut affiliations: Vec<AffiliationStructure> = Vec::new();
        let m = afs.len();
        let mut j: usize = 0;
        while j < m
            invariant
                spec_afs == value.children_named("Affiliation"@),
                m == afs@.len(),
                spec_afs.len() == m,
                forall|k: int| 0 <= k < m ==> *afs@[k] == #[trigger] spec_afs[k],
                j <= m,
                affiliations@.len() == j,
                forall|k: int| 0 <= k < j ==> accepts_affiliation(#[trigger] spec_afs[k]),
                forall|k: int| 0 <= k < j ==> reads_affiliation(#[trigger] affiliations@[k], spec_afs[k]),
            decreases m - j,
        {
            match AffiliationStructure::from_element(afs[j]) {
                Some(a) => affiliations.push(a),
                None => {
                    assert(!accepts_affiliation(spec_afs[j as int]));
                    return None;
                },
            }
            j = j + 1;
        }
        Some(Contest { contest_identifier, candidates, affiliations })
    }
}

pub open spec fn accepts_election(e: XmlElement) -> bool {
    &&& e.child_named("ElectionIdentifier"@) matches Some(i)
    &&& i.attr_value("Id"@) is Some
    &&& forall|k: int|
        0 <= k < e.children_named("Contest"@).len() ==> accepts_contest(
            #[trigger] e.children_named("Contest"@)[k],
        )
}

pub open spec fn reads_election(x: Election, e: XmlElement) -> bool {
    let cs = e.children_named("Contest"@);
    &&& reads_election_identifier(x.election_identifier, e.child_named("ElectionIdentifier"@).unwrap())
    &&& x.contests@.len() == cs.len()
    &&& forall|k: int| 0 <= k < cs.len() ==> reads_contest(#[trigger] x.contests@[k], cs[k])
}

impl Election {
    pub fn from_element(value: &XmlElement) -> (r: Option<Election>)
        ensures
            r is Some <==> accepts_election(*value),
            r matches Some(x) ==> reads_election(x, *value),
    {
        let election_identifier = match value.get_child_ignore_ns("ElectionIdentifier") {
            Some(i) => match ElectionIdentifierStructure::from_element(i) {
                Some(c) => c,
                None => return None,
            },
            None => return None,
        };
        let cs = value.get_children_ignore_ns("Contest");
        let ghost spec_cs = value.children_named("Contest"@);
        let mut contests: Vec<Contest> = Vec::new();
        let n = cs.len();
        let mut i: usize = 0;
        while i < n
            invariant
                spec_cs == value.children_named("Contest"@),
                n == cs@.len(),
                spec_cs.len() == n,
                forall|k: int| 0 <= k < n ==> *cs@[k] == #[trigger] spec_cs[k],
                i <= n,
                contests@.len() == i,
                forall|k: int| 0 <= k < i ==> accepts_contest(#[trigger] spec_cs[k]),
                forall|k: int| 0 <= k < i ==> reads_contest(#[trigger] contests@[k], spec_cs[k]),
            decreases n - i,
        {
            match Contest::from_element(cs[i]) {
                Some(c) => contests.push(c),
                None => {
                    assert(!accepts_contest(spec_cs[i as int]));
                    return None;
                },
            }
            i = i + 1;
        }
        Some(Election { election_identifier, contests })
    }
}

pub open spec fn accepts_candidate_list(e: XmlElement) -> bool {
    &&& e.child_named("EventIdentifier"@) is Some
    &&& forall|k: int|
        0 <= k < e.children_named("Election"@).len() ==> accepts_election(
            #[trigger] e.children_named("Election"@)[k],
        )
}

pub open spec fn reads_candidate_list(x: CandidateList, e: XmlElement) -> bool {
    let es = e.children_named("Election"@);
    &&& reads_event_identifier(x.event_identifier, e.child_named("EventIdentifier"@).unwrap())
    &&& x.elections@.len() == es.len()
    &&& forall|k: int| 0 <= k < es.len() ==> reads_election(#[trigger] x.elections@[k], es[k])
}

impl CandidateList {
    pub fn from_element(value: &XmlElement) -> (r: Option<CandidateList>)
        ensures
            r is Some <==> accepts_candidate_list(*value),
            r matches Some(x) ==> reads_candidate_list(x, *value),
    {
        let event_identifier = match value.get_child_ignore_ns("EventIdentifier") {
            Some(i) => EventIdentifierStructure::from_element(i),
            None => return None,
        };
        let es = value.get_children_ignore_ns("Election");
        let ghost spec_es = value.children_named("Election"@);
        let mut elections: Vec<Election> = Vec::new();
        let n = es.len();
        let mut i: usize = 0;
        while i < n
            invariant
                spec_es == value.children_named("Election"@),
                n == es@.len(),
                spec_es.len() == n,
                forall|k: int| 0 <= k < n ==> *es@[k] == #[trigger] spec_es[k],
                i <= n,
                elections@.len() == i,
                forall|k: int| 0 <= k < i ==> accepts_election(#[trigger] spec_es[k]),
                forall|k: int| 0 <= k < i ==> reads_election(#[trigger] elections@[k], spec_es[k]),
            decreases n - i,
        {
            match Election::from_element(es[i]) {
                Some(c) => elections.push(c),
                None => {
                    assert(!accepts_election(spec_es[i as int]));
                    return None;
                },
            }
            i = i + 1;
        }
        Some(CandidateList { event_identifier, elections })
    }
}

} // verus!
