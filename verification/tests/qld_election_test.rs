use election::qld_election::booths_section::Booth as ResultBooth;
use election::qld_election::candidate_section_type::Candidate;
use election::qld_election::ecq_types::{Booth, BoothDistrict, District, Districts, Election};
use election::qld_election::{
    count_statements, parse_yes_no, read_results_text, result_statements, setup_info_statements,
    BoothsSection, CandidateResult, CandidateSectionType, CountRoundCouncillorType, ECQResults,
    PrimaryVoteResultsSection,
};
use election::sql::SerialiseDB;
use std::io::Write;

fn candidate() -> Candidate {
    Candidate {
        ballot_order: 2,
        ballot_name: "SMITH, Jo".to_string(),
        party_code: Some("ALP".to_string()),
        party: Some("Labor".to_string()),
        sitting: None,
        surname: Some("Smith".to_string()),
        given_names: None,
    }
}

fn round(name: &str, booth: &str, count: u32) -> CountRoundCouncillorType {
    CountRoundCouncillorType {
        count_name: name.to_string(),
        booth_results: BoothsSection {
            count: 1,
            booths: vec![ResultBooth {
                id: booth.to_string(),
                primary_vote_results: PrimaryVoteResultsSection {
                    candidate_results: vec![CandidateResult {
                        ballot_order: 2,
                        ballot_name: "SMITH, Jo".to_string(),
                        count,
                        percentage: "50".to_string(),
                    }],
                },
                ..Default::default()
            }],
        },
        ..Default::default()
    }
}

fn district() -> District {
    District {
        district_name: "Aurukun".to_string(),
        enrolment: 900,
        last_updated: "2020".to_string(),
        final_count: Some("YES".to_string()),
        number: 3,
        voting_method: "OPV".to_string(),
        voting_system: "FPTP".to_string(),
        percent_counted: Some("45.5".to_string()),
        num_elected: 1,
        candidates: CandidateSectionType { count: 1, candidates: vec![candidate()] },
        count_rounds: vec![round("Unofficial Preliminary Count", "B1", 42), round("Final Count", "B2", 7)],
    }
}

fn results() -> ECQResults {
    let first = Election {
        id: 5,
        election_name: "State".to_string(),
        event_type: "General".to_string(),
        election_day: "2020-10-31".to_string(),
        gen_date: "2020-11-01T00:00".to_string(),
        districts: Districts { count: 1, districts: vec![district()] },
        ..Default::default()
    };
    let second = Election {
        id: 6,
        election_name: "By".to_string(),
        event_type: "ByElection".to_string(),
        election_day: "2021-01-01".to_string(),
        gen_date: "g".to_string(),
        districts: Districts { count: 1, districts: vec![district()] },
        ..Default::default()
    };
    let venue = Booth {
        id: "V1".to_string(),
        name: "Hall".to_string(),
        building_name: None,
        street_no: Some("1".to_string()),
        street_name: None,
        locality: Some("Town".to_string()),
        state: Some("QLD".to_string()),
        postcode: Some(4000),
        lat: Some("-27.5".to_string()),
        long: None,
        abolished: false,
        districts: vec![
            BoothDistrict { district_name: "Aurukun".to_string(), election: "State".to_string(), joint_type: None },
            BoothDistrict {
                district_name: "Div 4".to_string(),
                election: "Aurukun Councillor By-Election".to_string(),
                joint_type: None,
            },
            BoothDistrict {
                district_name: "Div 5".to_string(),
                election: "2024 Ipswich City Council Councillor By-election - Division 4".to_string(),
                joint_type: None,
            },
        ],
    };
    ECQResults {
        remarks: String::new(),
        gen_date: "2020-11-01".to_string(),
        venues: election::qld_election::ecq_types::Venues { count: Some(1), booths: vec![venue] },
        elections: vec![first, second],
    }
}

const SETUP: [&str; 12] = [
    "DELETE FROM elections",
    "DELETE FROM booth_district",
    "DELETE FROM candidate_district",
    "DELETE FROM candidates;",
    "DELETE FROM booths",
    "DELETE FROM districts",
    "INSERT INTO aec.elections(date, gen_date, name, event_type, state, ec_id) VALUES($$2020-10-31$$, $$2020-11-01T00:00$$, $$State$$, $$General$$, $$QLD$$, $$5$$);",
    "INSERT INTO aec.elections(date, gen_date, name, event_type, state, ec_id) VALUES($$2021-01-01$$, $$g$$, $$By$$, $$ByElection$$, $$QLD$$, $$6$$);",
    "INSERT INTO aec.districts(election_id, district_name, enrolment, last_updated, final_count, number, voting_method, voting_system, percent_counted, num_elected) VALUES((SELECT id FROM elections WHERE elections.date LIKE $$2020-10-31$$ AND elections.name LIKE $$State$$),$$Aurukun$$, $$900$$, $$2020$$, $$YES$$, $$3$$, $$OPV$$, $$FPTP$$, $$45.5$$, $$1$$);",
    "INSERT INTO aec.candidates(name, party_name, party_code, sitting, surname, given_names) VALUES($$SMITH, Jo$$, $$Labor$$, $$ALP$$, NULL, $$Smith$$, $$$$);",
    "INSERT INTO aec.candidate_district (candidate_id, district_id, ballot_order) VALUES ((SELECT candidates.id FROM candidates WHERE candidates.name LIKE $$SMITH, Jo$$ AND candidates.party_name LIKE $$Labor$$), (SELECT districts.id FROM districts WHERE districts.district_name LIKE $$Aurukun$$), $$2$$);",
    "INSERT INTO aec.booths (ec_id, name, building_name, street_no, street_name, locality, state, postcode, lat, long, abolished)VALUES ($$V1$$, $$Hall$$, $$$$, $$1$$, $$$$, $$Town$$, $$QLD$$, $$4000$$, $$-27.5$$, $$0$$, $$false$$);",
];

const BOOTH_LINK: &str = "INSERT INTO aec.booth_district (booth_id, district_id) VALUES ((SELECT booths.id FROM booths WHERE booths.name LIKE $$Hall$$ AND booths.building_name LIKE $$$$),(SELECT districts.id FROM districts WHERE districts.district_name LIKE $$Aurukun$$));";

const COUNT: [&str; 2] = [
    "DELETE FROM unof_prelim_count",
    "INSERT INTO aec.unof_prelim_count (candidate_id, booth_id, vote_count) VALUES ((SELECT candidate_id FROM candidate_district cd JOIN candidates c ON cd.candidate_id = c.id JOIN districts d ON cd.district_id = d.id WHERE c.name LIKE $$SMITH, Jo$$ AND d.district_name LIKE $$Aurukun$$),(SELECT booths.id FROM booths WHERE booths.ec_id LIKE $$B1$$),42)",
];

#[test]
fn setup_statements_store_elections_first_election_districts_and_venues() {
    let got = setup_info_statements(&results());
    let mut expected: Vec<String> = SETUP.iter().map(|s| s.to_string()).collect();
    expected.push(BOOTH_LINK.to_string());
    assert_eq!(got, expected);
}

#[test]
fn count_statements_store_only_the_preliminary_round() {
    let got = count_statements(&results());
    assert_eq!(got, COUNT.iter().map(|s| s.to_string()).collect::<Vec<String>>());
}

#[test]
fn result_statements_are_setup_then_count() {
    let r = results();
    let mut expected = setup_info_statements(&r);
    expected.extend(count_statements(&r));
    assert_eq!(result_statements(&r), expected);
    assert_eq!(result_statements(&r).len(), 15);
}

#[test]
fn venue_serving_only_skipped_by_elections_is_not_linked() {
    let mut r = results();
    r.venues.booths[0].districts.remove(0);
    let got = setup_info_statements(&r);
    assert_eq!(got.len(), 12);
    assert_eq!(got[11], SETUP[11]);
}

#[test]
fn yes_no_flags() {
    assert_eq!(parse_yes_no("YES"), Some(true));
    assert_eq!(parse_yes_no("NO"), Some(false));
    assert_eq!(parse_yes_no("yes"), None);
    assert_eq!(parse_yes_no(""), None);
}

#[test]
fn candidate_insert_statement() {
    let c = Candidate {
        party: Some("Labor Party".to_string()),
        party_code: Some("ALP".to_string()),
        sitting: Some("NO".to_string()),
        surname: Some("Holmes".to_string()),
        given_names: Some("Chloe G".to_string()),
        ballot_name: "HOLMES, Chloe".to_string(),
        ballot_order: 4,
    };
    assert_eq!(
        c.insert(),
        "INSERT INTO candidates (ballot_order, ballot_name, party_code, party, sitting, surname, given_names) VALUES ($$4$$, $$HOLMES, Chloe$$, $$ALP$$, $$Labor Party$$, $$NO$$, $$Holmes$$, $$Chloe G$$)"
    );
    assert_eq!(
        candidate().insert(),
        "INSERT INTO candidates (ballot_order, ballot_name, party_code, party, sitting, surname, given_names) VALUES ($$2$$, $$SMITH, Jo$$, $$ALP$$, $$Labor$$, $$$$, $$Smith$$, $$$$)"
    );
}

fn zip_with(name: &str, body: &str) -> Vec<u8> {
    let mut w = zip::ZipWriter::new(std::io::Cursor::new(Vec::new()));
    w.start_file(name, zip::write::SimpleFileOptions::default()).unwrap();
    w.write_all(body.as_bytes()).unwrap();
    w.finish().unwrap().into_inner()
}

#[test]
fn results_text_comes_from_the_results_entry() {
    let bytes = zip_with("publicResults.xml", "<ecq/>");
    assert_eq!(read_results_text(&bytes), Some("<ecq/>".to_string()));
    let other = zip_with("other.xml", "<ecq/>");
    assert_eq!(read_results_text(&other), None);
    assert_eq!(read_results_text(b"not a zip"), None);
}

#[test]
fn setup_statement_count() {
    // six clearing statements, two elections, one district with one
    // candidate (1 + 2), one venue with one link kept (1 + 1)
    assert_eq!(setup_info_statements(&results()).len(), 6 + 2 + 3 + 2);
}

#[test]
fn no_preliminary_round_stores_no_count() {
    let mut r = results();
    for round in r.elections[0].districts.districts[0].count_rounds.iter_mut() {
        round.count_name = "Final Count".to_string();
    }
    assert_eq!(count_statements(&r), vec!["DELETE FROM unof_prelim_count".to_string()]);
}
