//! Election event (EML 110).
use crate::aec_parser::AuthorityAddressStructure;
use crate::eml_schema::xs::u32_of;
use crate::eml_schema::{
    accepts_date_range, accepts_managing_authority, reads_area, reads_contest_identifier,
    reads_date_range, reads_election_identifier, reads_event_identifier, reads_managing_authority,
    voting_method_of, AreaStructure, ComplexDateRangeStructure, ContestIdentifierStructure,
    ElectionIdentifierStructure, EventIdentifierStructure, ManagingAuthorityStructure,
    PositionStructure, VotingMethodType,
};
use crate::text::parse_u32;
use crate::xml::{lemma_view_child, XmlElement};
use vstd::prelude::*;

verus! {

/// An election event: its identity, managing authority and elections.
#[derive(Clone)]
pub struct ElectionEvent {
    pub event_identifier: EventIdentifierStructure,
    pub managing_authority: Option<ManagingAuthorityStructure<AuthorityAddressStructure>>,
    pub elections: Vec<Election>,
}

/// An election of an event: its identity, date and contests.
#[derive(Clone)]
pub struct Election {
    pub election_identifier: ElectionIdentifierStructure,
    pub date: Option<ComplexDateRangeStructure>,
    pub contests: Vec<Contest>,
}

/// A contest of an election.
#[derive(Clone)]
pub struct Contest {
    pub contest_identifier: ContestIdentifierStructure,
    pub area: Option<AreaStructure>,
    pub position: Option<PositionStructure>,
    pub voting_method: Vec<VotingMethodType>,
    pub max_votes: u32,
    pub number_of_positions: u32,
}

/// The `u32` in the text of the child `name`.
pub open spec fn child_u32(e: XmlElement, name: Seq<char>) -> Option<int> {
    match e.child_named(name) {
        Some(c) => u32_of(c.text@),
        None => None,
    }
}

fn child_u32_value(e: &XmlElement, name: &str) -> (r: Option<u32>)
    ensures
        match r {
            Some(v) => child_u32(*e, name@) == Some(v as int),
            None => child_u32(*e, name@) is None,
        },
{
    match e.get_child_ignore_ns(name) {
        Some(c) => parse_u32(c.text.as_str()),
        None => None,
    }
}

pub open spec fn accepts_contest(e: XmlElement) -> bool {
    &&& e.child_named("ContestIdentifier"@) matches Some(i)
    &&& i.attr_value("Id"@) is Some
    &&& child_u32(e, "MaxVotes"@) is Some
    &&& child_u32(e, "NumberOfPositions"@) is Some
}

pub open spec fn reads_contest(x: Contest, e: XmlElement) -> bool {
    let vm = e.children_named("VotingMethod"@);
    &&& reads_contest_identifier(x.contest_identifier, e.child_named("ContestIdentifier"@).unwrap())
    &&& match e.child_named("Area"@) {
        Some(a) => x.area matches Some(xa) && reads_area(xa, a),
        None => x.area is None,
    }
    &&& match e.child_named("Position"@) {
        Some(p) => x.position matches Some(xp) && xp.text@ == p.text@,
        None => x.position is None,
    }
    &&& x.voting_method@.len() == vm.len()
    &&& forall|k: int| 0 <= k < vm.len() ==> #[trigger] x.voting_method@[k] == voting_method_of(vm[k].text@)
    &&& child_u32(e, "MaxVotes"@) == Some(x.max_votes as int)
    &&& child_u32(e, "NumberOfPositions"@) == Some(x.number_of_positions as int)
}

impl Contest {
    pub fn from_element(value: &XmlElement) -> (r: Option<Contest>)
        ensures
            r is Some <==> accepts_contest(*value),
            r matches Some(x) ==> reads_contest(x, *value),
    {
        let contest_identifier = match value.get_child_ignore_ns("ContestIdentifier") {
            Some(i) => match ContestIdentifierStructure::from_element(i) {
                Some(c) => c,
                None => return None,
            },
            None => return None,
        };
        let area = match value.get_child_ignore_ns("Area") {
            Some(a) => Some(AreaStructure::from_element(a)),
            None => None,
        };
        let position = match value.get_child_ignore_ns("Position") {
            Some(p) => Some(PositionStructure::from_element(p)),
            None => None,
        };
        let vm = value.get_children_ignore_ns("VotingMethod");
        let ghost spec_vm = value.children_named("VotingMethod"@);
        let mut voting_method: Vec<VotingMethodType> = Vec::new();
        let n = vm.len();
        let mut i: usize = 0;
        while i < n
            invariant
                n == vm@.len(),
                spec_vm.len() == n,
                forall|k: int| 0 <= k < n ==> *vm@[k] == #[trigger] spec_vm[k],
                i <= n,
                voting_method@.len() == i,
                forall|k: int| 0 <= k < i ==> #[trigger] voting_method@[k] == voting_method_of(spec_vm[k].text@),
            decreases n - i,
        {
            voting_method.push(VotingMethodType::from_element(vm[i]));
            i = i + 1;
        }
        let max_votes = match child_u32_value(value, "MaxVotes") {
            Some(v) => v,
            None => return None,
        };
        let number_of_positions = match child_u32_value(value, "NumberOfPositions") {
            Some(v) => v,
            None => return None,
        };
        Some(Contest { contest_identifier, area, position, voting_method, max_votes, number_of_positions })
    }
}

pub open spec fn accepts_election(e: XmlElement) -> bool {
    &&& e.child_named("ElectionIdentifier"@) matches Some(i)
    &&& i.attr_value("Id"@) is Some
    &&& (e.child_named("Date"@) matches Some(d) ==> accepts_date_range(d))
    &&& forall|k: int|
        0 <= k < e.children_named("Contest"@).len() ==> accepts_contest(
            #[trigger] e.children_named("Contest"@)[k],
        )
}

pub open spec fn reads_election(x: Election, e: XmlElement) -> bool {
    let cs = e.children_named("Contest"@);
    &&& reads_election_identifier(x.election_identifier, e.child_named("ElectionIdentifier"@).unwrap())
    &&& match e.child_named("Date"@) {
        Some(d) => x.date matches Some(xd) && reads_date_range(xd, d),
        None => x.date is None,
    }
    &&& x.contests@.len() == cs.len()
    &&& forall|k: int| 0 <= k < cs.len() ==> reads_contest(#[trigger] x.contests@[k], cs[k])
}

impl Election {
    pub fn from_element(value: &XmlElement) -> (r: Option<Election>)
        ensures
            r is Some <==> accepts_election(*value),
            r matches Some(x) ==> reads_election(x, *value),
    {
        let election_identifier = match value.get_child_ignore_ns("ElectionIdentifier") {
            Some(i) => match ElectionIdentifierStructure::from_element(i) {
                Some(c) => c,
                None => return None,
            },
            None => return None,
        };
        let date = match value.get_child_ignore_ns("Date") {
            Some(d) => match ComplexDateRangeStructure::from_element(d) {
                Some(x) => Some(x),
                None => return None,
            },
            None => None,
        };
        let cs = value.get_children_ignore_ns("Contest");
        let ghost spec_cs = value.children_named("Contest"@);
        let mut contests: Vec<Contest> = Vec::new();
        let n = cs.len();
        let mut i: usize = 0;
        while i < n
            invariant
                spec_cs == value.children_named("Contest"@),
                n == cs@.len(),
                spec_cs.len() == n,
                forall|k: int| 0 <= k < n ==> *cs@[k] == #[trigger] spec_cs[k],
                i <= n,
                contests@.len() == i,
                forall|k: int| 0 <= k < i ==> accepts_contest(#[trigger] spec_cs[k]),
                forall|k: int| 0 <= k < i ==> reads_contest(#[trigger] contests@[k], spec_cs[k]),
            decreases n - i,
        {
            match Contest::from_element(cs[i]) {
                Some(c) => contests.push(c),
                None => {
                    assert(!accepts_contest(spec_cs[i as int]));
                    return None;
                },
            }
            i = i + 1;
        }
        Some(Election { election_identifier, date, contests })
    }
}

pub open spec fn accepts_election_event(e: XmlElement) -> bool {
    &&& e.child_named("EventIdentifier"@) is Some
    &&& (e.child_named("ManagingAuthority"@) matches Some(m) ==> accepts_managing_authority(m))
    &&& forall|k: int|
        0 <= k < e.children_named("Election"@).len() ==> accepts_election(
            #[trigger] e.children_named("Election"@)[k],
        )
}

pub open spec fn reads_election_event(x: ElectionEvent, e: XmlElement) -> bool {
    let es = e.children_named("Election"@);
    &&& reads_event_identifier(x.event_identifier, e.child_named("EventIdentifier"@).unwrap())
    &&& match e.child_named("ManagingAuthority"@) {
        Some(m) => x.managing_authority matches Some(xm) && reads_managing_authority(xm, m),
        None => x.managing_authority is None,
    }
    &&& x.elections@.len() == es.len()
    &&& forall|k: int| 0 <= k < es.len() ==> reads_election(#[trigger] x.elections@[k], es[k])
}

impl ElectionEvent {
    pub fn from_element(value: &XmlElement) -> (r: Option<ElectionEvent>)
        ensures
            r is Some <==> accepts_election_event(*value),
            r matches Some(x) ==> reads_election_event(x, *value),
    {
        let event_identifier = match value.get_child_ignore_ns("EventIdentifier") {
            Some(i) => EventIdentifierStructure::from_element(i),
            None => return None,
        };
        let managing_authority = match value.get_child_ignore_ns("ManagingAuthority") {
            Some(m) => match ManagingAuthorityStructure::<AuthorityAddressStructure>::from_element(m) {
                Some(x) => Some(x),
                None => return None,
            },
            None => None,
        };
        let es = value.get_children_ignore_ns("Election");
        let ghost spec_es = value.children_named("Election"@);
        let mut elections: Vec<Election> = Vec::new();
        let n = es.len();
        let mut i: usize = 0;
        while i < n
            invariant
                spec_es == value.children_named("Election"@),
                n == es@.len(),
                spec_es.len() == n,
                forall|k: int| 0 <= k < n ==> *es@[k] == #[trigger] spec_es[k],
                i <= n,
                elections@.len() == i,
                forall|k: int| 0 <= k < i ==> accepts_election(#[trigger] spec_es[k]),
                forall|k: int| 0 <= k < i ==> reads_election(#[trigger] elections@[k], spec_es[k]),
            decreases n - i,
        {
            match Election::from_element(es[i]) {
                Some(c) => elections.push(c),
                None => {
                    assert(!accepts_election(spec_es[i as int]));
                    return None;
                },
            }
            i = i + 1;
        }
        Some(ElectionEvent { event_identifier, managing_authority, elections })
    }
}

proof fn lemma_view_unwrap_child(a: XmlElement, b: XmlElement, name: Seq<char>)
    requires
        a@ == b@,
    ensures
        a.child_named(name).unwrap()@ == b.child_named(name).unwrap()@,
        a.child_named(name) is Some <==> b.child_named(name) is Some,
{
    lemma_view_child(a, b, name);
}

proof fn lemma_view_contest(x: Contest, a: XmlElement, b: XmlElement)
    requires
        a@ == b@,
    ensures
        accepts_contest(a) == accepts_contest(b),
        reads_contest(x, a) == reads_contest(x, b),
{
    lemma_view_unwrap_child(a, b, "ContestIdentifier"@);
    let i1 = a.child_named("ContestIdentifier"@).unwrap();
    let i2 = b.child_named("ContestIdentifier"@).unwrap();
    lemma_view_child(i1, i2, "Id"@);
    lemma_view_child(i1, i2, "ShortCode"@);
    lemma_view_child(i1, i2, "ContestName"@);
    lemma_view_unwrap_child(a, b, "Area"@);
    let r1 = a.child_named("Area"@).unwrap();
    let r2 = b.child_named("Area"@).unwrap();
    lemma_view_child(r1, r2, "Id"@);
    lemma_view_child(r1, r2, "DisplayOrder"@);
    lemma_view_child(r1, r2, "Type"@);
    lemma_view_unwrap_child(a, b, "Position"@);
    lemma_view_child(a.child_named("Position"@).unwrap(), b.child_named("Position"@).unwrap(), "x"@);
    lemma_view_child(a, b, "VotingMethod"@);
    let v1 = a.children_named("VotingMethod"@);
    let v2 = b.children_named("VotingMethod"@);
    assert forall|k: int| 0 <= k < v1.len() implies v1[k].text@ == v2[k].text@ by {
        lemma_view_child(v1[k], v2[k], "x"@);
    }
    lemma_view_unwrap_child(a, b, "MaxVotes"@);
    lemma_view_child(a.child_named("MaxVotes"@).unwrap(), b.child_named("MaxVotes"@).unwrap(), "x"@);
    lemma_view_unwrap_child(a, b, "NumberOfPositions"@);
    lemma_view_child(
        a.child_named("NumberOfPositions"@).unwrap(),
        b.child_named("NumberOfPositions"@).unwrap(),
        "x"@,
    );
    assert(child_u32(a, "MaxVotes"@) == child_u32(b, "MaxVotes"@));
    assert(child_u32(a, "NumberOfPositions"@) == child_u32(b, "NumberOfPositions"@));
}

proof fn lemma_view_election(x: Election, a: XmlElement, b: XmlElement)
    requires
        a@ == b@,
    ensures
        accepts_election(a) == accepts_election(b),
        reads_election(x, a) == reads_election(x, b),
{
    lemma_view_unwrap_child(a, b, "ElectionIdentifier"@);
    let i1 = a.child_named("ElectionIdentifier"@).unwrap();
    let i2 = b.child_named("ElectionIdentifier"@).unwrap();
    lemma_view_child(i1, i2, "Id"@);
    lemma_view_child(i1, i2, "ElectionName"@);
    lemma_view_child(i1, i2, "ElectionCategory"@);
    lemma_view_unwrap_child(a, b, "Date"@);
    let d1 = a.child_named("Date"@).unwrap();
    let d2 = b.child_named("Date"@).unwrap();
    lemma_view_child(d1, d2, "Type"@);
    lemma_view_child(d1, d2, "SingleDate"@);
    lemma_view_child(d1, d2, "End"@);
    lemma_view_child(d1, d2, "Start"@);
    lemma_view_child(a, b, "Contest"@);
    let c1 = a.children_named("Contest"@);
    let c2 = b.children_named("Contest"@);
    assert forall|k: int| 0 <= k < c1.len() implies accepts_contest(c1[k]) == accepts_contest(c2[k]) by {
        lemma_view_contest(x.contests@[0], c1[k], c2[k]);
    }
    assert forall|k: int| 0 <= k < c1.len() implies reads_contest(x.contests@[k], c1[k]) == reads_contest(
        x.contests@[k],
        c2[k],
    ) by {
        lemma_view_contest(x.contests@[k], c1[k], c2[k]);
    }
    assert(accepts_election(a) == accepts_election(b));
    assert(reads_election(x, a) == reads_election(x, b));
}

/// Reading an election event depends on the element's value alone: two
/// elements with the same value are accepted alike and read into the same
/// events.
pub proof fn law_event_reading_depends_on_the_value(x: ElectionEvent, a: XmlElement, b: XmlElement)
    requires
        a@ == b@,
    ensures
        accepts_election_event(a) == accepts_election_event(b),
        reads_election_event(x, a) == reads_election_event(x, b),
{
    lemma_view_unwrap_child(a, b, "EventIdentifier"@);
    let i1 = a.child_named("EventIdentifier"@).unwrap();
    let i2 = b.child_named("EventIdentifier"@).unwrap();
    lemma_view_child(i1, i2, "Id"@);
    lemma_view_child(i1, i2, "EventName"@);
    lemma_view_unwrap_child(a, b, "ManagingAuthority"@);
    let m1 = a.child_named("ManagingAuthority"@).unwrap();
    let m2 = b.child_named("ManagingAuthority"@).unwrap();
    lemma_view_unwrap_child(m1, m2, "AuthorityIdentifier"@);
    let u1 = m1.child_named("AuthorityIdentifier"@).unwrap();
    let u2 = m2.child_named("AuthorityIdentifier"@).unwrap();
    lemma_view_child(u1, u2, "Id"@);
    lemma_view_child(a, b, "Election"@);
    let e1 = a.children_named("Election"@);
    let e2 = b.children_named("Election"@);
    assert forall|k: int| 0 <= k < e1.len() implies accepts_election(e1[k]) == accepts_election(e2[k]) by {
        lemma_view_election(x.elections@[0], e1[k], e2[k]);
    }
    assert forall|k: int| 0 <= k < e1.len() implies reads_election(x.elections@[k], e1[k]) == reads_election(
        x.elections@[k],
        e2[k],
    ) by {
        lemma_view_election(x.elections@[k], e1[k], e2[k]);
    }
    assert(accepts_election_event(a) == accepts_election_event(b));
    assert(reads_election_event(x, a) == reads_election_event(x, b));
}

} // verus!
