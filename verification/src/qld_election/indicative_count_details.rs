//! The indicative two-candidate count of a booth.
use crate::qld_election::CountPercentageSection;
use vstd::prelude::*;

verus! {

#[derive(Clone, Debug, Default)]
pub struct IndicativeCountDetails {
    pub selected_candidate: Vec<SelectedCandidate>,
    pub other_candidate: Vec<OtherCandidate>,
}

#[derive(Clone, Debug, Default)]
pub struct SelectedCandidate {
    pub ballot_name: String,
    pub ballot_order_num: u8,
    pub primary_votes: u8,
    pub after_preferences: CountPercentageSection,
}

#[derive(Clone, Debug, Default)]
pub struct OtherCandidate {
    pub ballot_name: String,
    pub ballot_order_num: u8,
    /// At most two preference counts.
    pub after_preferences: Vec<PreferenceCount>,
    pub exhausted: u32,
}

#[derive(Clone, Debug, Default)]
pub struct PreferenceCount {
    pub count: u32,
    pub ballot_name: String,
    pub ballot_order_number: u8,
}

} // verus!
