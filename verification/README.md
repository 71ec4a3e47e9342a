# election

Loads Australian election results into Postgres. The library (`src/`) is
verified with Verus; `app/` is the program around it (downloads, FTP,
database connection, serde forms of the documents).

Library modules:

- `xml`, `xml_source`: an XML element model, namespace-blind child lookups,
  and the conversion from minidom's parsed tree.
- `eml_schema`, `aec_parser`: the EML and AEC media feed records read from
  elements.
- `archive`, `federal_election`, `preload`: reading feed documents out of zip
  archives and the SQL statements that load them.
- `qld_election`: the ECQ results document and the statements that load it.
- `sql`, `db_derive`, `election_models`: table schemas, INSERT statements, and
  what the `PostGresObj` / `SerialiseDB` derives compute.
- `text`, `election_server`, `database`: decimal texts and parsing, joins,
  directory listings, link records.

Run the tests with the library's test files under `tests/`.
