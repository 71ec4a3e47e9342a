use election::archive::FeedError;
use election::federal_election::{
    create_tables, entry_name, latest_listing, lex_less_eq, read_aec_light, read_eml_110_event_xml, read_eml_230_candidates,
    read_results_preload, LIGHT_RESULTS_ENTRY,
};
use election::preload::{get_event_identifier, parse_event_preload};
use std::io::Write;

fn zip_with(name: &str, body: &str) -> Vec<u8> {
    let mut w = zip::ZipWriter::new(std::io::Cursor::new(Vec::new()));
    w.start_file(name, zip::write::SimpleFileOptions::default()).unwrap();
    w.write_all(body.as_bytes()).unwrap();
    w.finish().unwrap().into_inner()
}

const LIGHT: &str = "<?xml version=\"1.0\" encoding=\"utf-8\"?>\n<MediaFeed xmlns=\"urn:x\"><Results><Election><House><Contests><Contest><ContestIdentifier Id=\"C1\"/><PollingPlaces><PollingPlace><PollingPlaceIdentifier Id=\"P1\"/><FirstPreferences Updated=\"T1\"><Candidate><CandidateIdentifier Id=\"K1\"/><Votes>10</Votes></Candidate><Candidate><CandidateIdentifier Id=\"K2\"/><Votes>-3</Votes></Candidate></FirstPreferences><TwoCandidatePreferred Updated=\"T2\"><Candidate><CandidateIdentifier Id=\"K1\"/><Votes>7</Votes></Candidate></TwoCandidatePreferred></PollingPlace></PollingPlaces></Contest></Contests></House></Election><Election><Senate/></Election></Results></MediaFeed>";

#[test]
fn light_feed_statements() {
    let name = entry_name(LIGHT_RESULTS_ENTRY, "E9");
    assert_eq!(name, "xml/aec-mediafeed-results-detailed-light-E9.xml");
    let bytes = zip_with(&name, LIGHT);
    let got = read_aec_light("E9", &bytes).unwrap();
    assert_eq!(
        got,
        vec![
            "INSERT INTO aec.primaryvote (timestamp, event_id, contest_id, polling_place_id, candidate_id, votes) VALUES ($$T1$$, $$E9$$, $$C1$$, $$P1$$, $$K1$$, $$10$$), ($$T1$$, $$E9$$, $$C1$$, $$P1$$, $$K2$$, $$-3$$)".to_string(),
            "INSERT INTO aec.twocandidatepreferredvote (timestamp, event_id, contest_id, polling_place_id, candidate_id, votes) VALUES ($$T2$$, $$E9$$, $$C1$$, $$P1$$, $$K1$$, $$7$$)".to_string(),
        ]
    );
}

#[test]
fn preload_feed_statements_have_no_timestamp() {
    let bytes = zip_with("xml/aec-mediafeed-results-detailed-preload-E9.xml", LIGHT);
    let got = read_results_preload("E9", &bytes).unwrap();
    assert_eq!(
        got,
        vec!["INSERT INTO aec.primaryvote (event_id, contest_id, polling_place_id, candidate_id, votes) VALUES ($$E9$$, $$C1$$, $$P1$$, $$K1$$, $$10$$), ($$E9$$, $$C1$$, $$P1$$, $$K2$$, $$-3$$)".to_string()]
    );
}

#[test]
fn feed_errors() {
    let wrong_entry = zip_with("xml/other.xml", LIGHT);
    assert_eq!(read_aec_light("E9", &wrong_entry), Err(FeedError::MissingEntry));
    let bad_xml = zip_with("xml/aec-mediafeed-results-detailed-light-E9.xml", "first line\n<a><b></a>");
    assert_eq!(read_aec_light("E9", &bad_xml), Err(FeedError::InvalidXml));
    let bad_votes = zip_with(
        "xml/aec-mediafeed-results-detailed-light-E9.xml",
        &LIGHT.replace("<Votes>10</Votes>", "<Votes>ten</Votes>"),
    );
    assert_eq!(read_aec_light("E9", &bad_votes), Err(FeedError::Malformed));
    let no_results = zip_with("xml/aec-mediafeed-results-detailed-light-E9.xml", "x\n<MediaFeed xmlns=\"urn:x\"/>");
    assert_eq!(read_aec_light("E9", &no_results), Err(FeedError::Malformed));
}

#[test]
fn skipped_candidate_list_reads_nothing() {
    assert_eq!(read_eml_230_candidates("29581", b"not a zip"), Ok(Vec::new()));
    assert_eq!(read_eml_230_candidates("1", b"not a zip"), Err(FeedError::MissingEntry));
}

#[test]
fn vote_tables_are_dropped_then_created() {
    assert_eq!(
        create_tables(),
        vec![
            "DROP TABLE PrimaryVote;".to_string(),
            "CREATE TABLE PrimaryVote (timestamp VARCHAR, event_id VARCHAR, contest_id VARCHAR, polling_place_id VARCHAR, candidate_id VARCHAR, votes INTEGER);".to_string(),
            "DROP TABLE TwoCandidatePreferredVote;".to_string(),
            "CREATE TABLE TwoCandidatePreferredVote (timestamp VARCHAR, event_id VARCHAR, contest_id VARCHAR, polling_place_id VARCHAR, candidate_id VARCHAR, votes INTEGER);".to_string(),
        ]
    );
}

#[test]
fn latest_listing_is_the_greatest_name() {
    let files = vec!["b-2.zip".to_string(), "b-10.zip".to_string(), "a-9.zip".to_string()];
    assert_eq!(latest_listing(&files), Some("b-2.zip".to_string()));
    assert_eq!(latest_listing(&Vec::new()), None);
    assert!(lex_less_eq("ab", "abc"));
    assert!(!lex_less_eq("b", "abc"));
    assert!(lex_less_eq("", ""));
}

const EVENT: &str = "<?xml version=\"1.0\"?>\n<EML xmlns=\"urn:oasis:names:tc:evs:schema:eml\"><ElectionEvent><EventIdentifier Id=\"E9\"><EventName>Federal Election</EventName></EventIdentifier></ElectionEvent></EML>";

#[test]
fn event_identifier_reads_the_event_name() {
    let bytes = zip_with("xml/eml-110-event-E9.xml", EVENT);
    assert_eq!(get_event_identifier("E9", &bytes), Ok(("E9".to_string(), "Federal Election".to_string())));
    let unnamed = zip_with("xml/eml-110-event-E9.xml", &EVENT.replace("<EventName>Federal Election</EventName>", ""));
    assert_eq!(get_event_identifier("E9", &unnamed), Err(FeedError::Malformed));
    assert_eq!(get_event_identifier("E8", &bytes), Err(FeedError::MissingEntry));
}

#[test]
fn event_preload_reads_the_eml_event() {
    let event = parse_event_preload(EVENT).ok().unwrap();
    assert_eq!(event.event_identifier.id, Some("E9".to_string()));
    assert_eq!(event.event_identifier.event_name, Some("Federal Election".to_string()));
    assert_eq!(event.elections.len(), 0);
    let other_ns = EVENT.replace("urn:oasis:names:tc:evs:schema:eml", "urn:other");
    assert!(matches!(parse_event_preload(&other_ns), Err(FeedError::Malformed)));
    assert!(matches!(parse_event_preload("one line only"), Err(FeedError::InvalidXml)));
}

const EVENT_DOC: &str = "<?xml version=\"1.0\"?>\n<EML xmlns=\"urn:e\"><TransactionId>T1</TransactionId><ElectionEvent><EventIdentifier Id=\"E\"><EventName>Ev</EventName></EventIdentifier><Election><ElectionIdentifier Id=\"H\"><ElectionName>House</ElectionName><ElectionCategory>Cat</ElectionCategory></ElectionIdentifier><Date><SingleDate>2022</SingleDate></Date><Contest><ContestIdentifier Id=\"C1\"><ContestName>Adelaide</ContestName></ContestIdentifier></Contest><Contest><ContestIdentifier Id=\"C2\" ShortCode=\"BAR\"><ContestName>Barker</ContestName></ContestIdentifier></Contest></Election></ElectionEvent></EML>";

#[test]
fn event_document_statements_in_order() {
    let bytes = zip_with("xml/eml-110-event-E.xml", EVENT_DOC);
    assert_eq!(
        read_eml_110_event_xml("E", &bytes).unwrap(),
        vec![
            "INSERT INTO aec.electionevent (election_id, transaction_id, name) VALUES ($$E$$, $$T1$$, $$Ev$$)".to_string(),
            "INSERT INTO aec.election (event_id, identifier, name, category, date) VALUES ($$E$$, $$H$$, $$House$$, $$Cat$$, $$2022$$)".to_string(),
            "INSERT INTO aec.contest (event_id, identifier, id, shortcode, name) VALUES ($$E$$, $$H$$, $$C1$$, $$$$, $$Adelaide$$)".to_string(),
            "INSERT INTO aec.contest (event_id, identifier, id, shortcode, name) VALUES ($$E$$, $$H$$, $$C2$$, $$BAR$$, $$Barker$$)".to_string(),
        ]
    );
    let no_date = zip_with("xml/eml-110-event-E.xml", &EVENT_DOC.replace("<Date><SingleDate>2022</SingleDate></Date>", ""));
    assert_eq!(read_eml_110_event_xml("E", &no_date), Err(FeedError::Malformed));
}

const CANDIDATES_DOC: &str = "<?xml version=\"1.0\"?>\n<EML xmlns=\"urn:e\"><CandidateList><Election><ElectionIdentifier Id=\"H\"><ElectionName>House</ElectionName><ElectionCategory>Cat</ElectionCategory></ElectionIdentifier><Contest><ContestIdentifier Id=\"C1\"/><Candidate><CandidateIdentifier Id=\"7\"><CandidateName>Smith</CandidateName></CandidateIdentifier><Affiliation><AffiliationIdentifier ShortCode=\"ALP\"/></Affiliation></Candidate><Candidate><CandidateIdentifier Id=\"8\"><CandidateName>Jones</CandidateName></CandidateIdentifier></Candidate></Contest></Election></CandidateList></EML>";

#[test]
fn one_statement_per_candidate() {
    let bytes = zip_with("xml/eml-230-candidates-E.xml", CANDIDATES_DOC);
    assert_eq!(
        read_eml_230_candidates("E", &bytes).unwrap(),
        vec![
            "INSERT INTO aec.candidate (event_id, election_identifier, contest_id, id, name, affiliation) VALUES ($$E$$, $$H$$, $$C1$$, $$7$$, $$Smith$$, $$ALP$$)".to_string(),
            "INSERT INTO aec.candidate (event_id, election_identifier, contest_id, id, name, affiliation) VALUES ($$E$$, $$H$$, $$C1$$, $$8$$, $$Jones$$, $$$$)".to_string(),
        ]
    );
    let no_code = zip_with("xml/eml-230-candidates-E.xml", &CANDIDATES_DOC.replace(" ShortCode=\"ALP\"", ""));
    assert_eq!(read_eml_230_candidates("E", &no_code), Err(FeedError::Malformed));
}
