use election::aec_parser::results::{ElectionType, ResultsMediaFeed};
use election::xml_source::parse_xml;

const FEED: &str = "<MediaFeed xmlns=\"urn:x\" Id=\"F1\" Created=\"2022-05-21T20:00:00\"><Cycle Created=\"c\"/><Results Phase=\"Preload\" Updated=\"u\"><EventIdentifier Id=\"27966\"><EventName>2022 Federal Election</EventName></EventIdentifier><Election><ElectionIdentifier Id=\"H\"><ElectionName>House</ElectionName></ElectionIdentifier><House><Contests><Contest Declared=\"no\"><ContestIdentifier Id=\"101\"/><Enrolment>1000</Enrolment><FirstPreferences PollingPlacesReturned=\"3\"><Candidate><CandidateIdentifier Id=\"7\"><CandidateName>SMITH, Jo</CandidateName></CandidateIdentifier><BallotPosition>1</BallotPosition><Votes MatchedHistoric=\"4\">250</Votes><VotesByType><Votes Type=\"Ordinary\" Percentage=\"50\">200</Votes><Votes Type=\"Postal\">50</Votes></VotesByType></Candidate><Formal><Votes>250</Votes><VotesByType/></Formal><Informal><VotesByType/></Informal><Total><VotesByType/></Total></FirstPreferences></Contest></Contests></House></Election><Election><ElectionIdentifier Id=\"S\"/><Senate/></Election></Results></MediaFeed>";

#[test]
fn results_feed_reads_house_contests() {
    let root = parse_xml(FEED).unwrap();
    let feed = ResultsMediaFeed::from_element(&root).unwrap();
    assert_eq!(feed.id, "F1");
    assert_eq!(feed.cycle.as_ref().unwrap().created, "c");
    assert_eq!(feed.results.phase, "Preload");
    assert_eq!(feed.results.event_identifier.id, Some("27966".to_string()));
    assert_eq!(feed.results.election.len(), 2);
    match &feed.results.election[0].election_type {
        ElectionType::House(h) => {
            assert_eq!(h.contests.len(), 1);
            let c = &h.contests[0];
            assert_eq!(c.declared, Some("no".to_string()));
            assert_eq!(c.contest_identifier.id, "101");
            assert_eq!(c.enrolment, 1000);
            assert_eq!(c.first_prefs.polling_places_returned, Some(3));
            assert_eq!(c.first_prefs.polling_places_expected, None);
            let cand = &c.first_prefs.candidates[0];
            assert_eq!(cand.candidate_identifier.id, 7);
            assert_eq!(cand.votes, 250);
            assert_eq!(cand.matched_historic, Some(4));
            assert_eq!(cand.elected, Some("1".to_string()));
            assert_eq!(cand.votes_by_type.len(), 2);
            assert_eq!(cand.votes_by_type[0].votes, "200");
            assert_eq!(cand.votes_by_type[0].percentage, Some("50".to_string()));
            assert_eq!(c.first_prefs.formal.votes, 0);
            assert!(c.tcp.is_none());
        }
        _ => panic!("the first election is a House election"),
    }
    assert!(matches!(feed.results.election[1].election_type, ElectionType::Senate(_)));
}

#[test]
fn results_feed_rejects_a_candidate_without_numeric_votes() {
    let bad = FEED.replace("MatchedHistoric=\"4\">250</Votes>", "MatchedHistoric=\"4\">many</Votes>");
    let root = parse_xml(&bad).unwrap();
    assert!(ResultsMediaFeed::from_element(&root).is_none());
    let no_id = FEED.replace(" Id=\"F1\"", "");
    assert!(ResultsMediaFeed::from_element(&parse_xml(&no_id).unwrap()).is_none());
}
