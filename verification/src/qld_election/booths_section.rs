//! One booth's results in a councillor count round.
use crate::qld_election::indicative_count_details::IndicativeCountDetails;
use crate::qld_election::{
    PreferenceDistributionSummary, PrimaryVoteResponseResultsSection, PrimaryVoteResultsSection,
    TwoCandidateVotesSection,
};
use vstd::prelude::*;

verus! {

#[derive(Clone, Debug, Default)]
pub struct Booth {
    /// The booth's identifier in the feed (`@id`).
    pub id: String,
    pub booth_name: String,
    /// Whether the booth's results are in (`@in`, `YES` or `NO`).
    pub result_in: bool,
    pub type_code: String,
    pub type_description: String,
    pub last_updated: Option<String>,
    pub votes: u32,
    pub ballots: u32,
    pub formal_votes: u32,
    pub formal_ballots: u32,
    pub informal_votes: u32,
    pub informal_ballots: u32,
    pub primary_vote_results: PrimaryVoteResultsSection,
    pub two_candidate_votes: TwoCandidateVotesSection,
    pub primary_vote_response_results: PrimaryVoteResponseResultsSection,
    pub indicative_count_details: IndicativeCountDetails,
    pub preference_redis_summary: PreferenceDistributionSummary,
}

} // verus!
