//! Election data feeds: an XML element model, EML / AEC media feed schema
//! extraction, and the SQL statements the feeds are loaded with.
use vstd::prelude::*;

pub mod aec_parser;
pub mod archive;
pub mod database;
pub mod db_derive;
pub mod election_models;
pub mod election_server;
pub mod eml_schema;
pub mod federal_election;
pub mod preload;
pub mod qld_election;
pub mod sql;
pub mod text;
pub mod xml;
pub mod xml_source;

verus! {

/// Entry point of the AEC preload path; it does nothing yet.
pub fn aec() {
}

} // verus!
