//! The venues and elections of an ECQ results document.
use crate::qld_election::{CandidateSectionType, CountRoundCouncillorType, CountRoundPartiesType};
use vstd::prelude::*;

verus! {

/// The polling venues (`<venues>`).
#[derive(Clone, Debug, Default)]
pub struct Venues {
    pub count: Option<u16>,
    pub booths: Vec<Booth>,
}

/// A polling venue and the districts it serves.
#[derive(Clone, Debug, Default)]
pub struct Booth {
    pub id: String,
    pub name: String,
    pub building_name: Option<String>,
    pub street_no: Option<String>,
    pub street_name: Option<String>,
    pub locality: Option<String>,
    pub state: Option<String>,
    pub postcode: Option<u16>,
    /// The latitude, as the decimal text of the feed's float.
    pub lat: Option<String>,
    /// The longitude, as the decimal text of the feed's float.
    pub long: Option<String>,
    /// Whether the venue was abolished (`@abolished`, `YES` or `NO`).
    pub abolished: bool,
    pub districts: Vec<BoothDistrict>,
}

/// A district a venue serves, in one election.
#[derive(Clone, Debug, Default)]
pub struct BoothDistrict {
    pub district_name: String,
    pub election: String,
    pub joint_type: Option<String>,
}

#[derive(Clone, Debug, Default)]
pub struct Election {
    pub id: u32,
    pub election_name: String,
    pub event_type: String,
    pub election_day: String,
    pub gen_date: String,
    pub parties: Parties,
    pub districts: Districts,
}

#[derive(Clone, Debug, Default)]
pub struct Parties {
    pub count_rounds: Vec<CountRoundPartiesType>,
}

#[derive(Clone, Debug, Default)]
pub struct Districts {
    pub count: u16,
    pub districts: Vec<District>,
}

/// A district (or division) of an election, its candidates and its count
/// rounds.
#[derive(Clone, Debug, Default)]
pub struct District {
    pub district_name: String,
    pub enrolment: u16,
    pub last_updated: String,
    pub final_count: Option<String>,
    pub number: u8,
    pub voting_method: String,
    pub voting_system: String,
    /// The share of the roll counted, as the decimal text of the feed's float.
    pub percent_counted: Option<String>,
    pub num_elected: u16,
    pub candidates: CandidateSectionType,
    pub count_rounds: Vec<CountRoundCouncillorType>,
}

} // verus!
