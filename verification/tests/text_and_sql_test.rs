use election::election_models::{drop_tables, generate_tables};
use election::election_server::{listing_name, listing_names};
use election::sql::{dollar_quote, insert_statement, table_schema, value_tuple_text, SqlType};
use election::text::{
    decimal_string, join_strings, parse_i32, parse_integer, parse_u32, signed_decimal_string, strip_first_line,
};

#[test]
fn decimal_texts() {
    assert_eq!(decimal_string(0), "0");
    assert_eq!(decimal_string(4000), "4000");
    assert_eq!(decimal_string(u64::MAX), "18446744073709551615");
    assert_eq!(signed_decimal_string(-3), "-3");
    assert_eq!(signed_decimal_string(i64::MIN), "-9223372036854775808");
}

#[test]
fn decimal_text_reads_back() {
    for n in [0i64, 7, 42, 2147483647, -1, -2147483648] {
        assert_eq!(parse_i32(&signed_decimal_string(n)), Some(n as i32));
    }
    for n in [0u64, 9, 10, 4294967295] {
        assert_eq!(parse_u32(&decimal_string(n)), Some(n as u32));
    }
}

#[test]
fn integers_parse_as_rust_does() {
    assert_eq!(parse_i32("+12"), Some(12));
    assert_eq!(parse_i32("-0"), Some(0));
    assert_eq!(parse_i32("2147483648"), None);
    assert_eq!(parse_i32(""), None);
    assert_eq!(parse_i32("-"), None);
    assert_eq!(parse_i32("1 "), None);
    assert_eq!(parse_u32("-1"), None);
    assert_eq!(parse_u32("007"), Some(7));
    assert_eq!(parse_integer("-5", -10, 10), Some(-5));
    assert_eq!(parse_integer("11", -10, 10), None);
}

#[test]
fn first_line_is_dropped() {
    assert_eq!(strip_first_line("<?xml?>\n<a/>\nb"), "<a/>\nb");
    assert_eq!(strip_first_line("no break"), "");
    assert_eq!(strip_first_line("\n"), "");
}

#[test]
fn joins_and_quotes() {
    let v = vec!["a".to_string(), "b".to_string(), "".to_string()];
    assert_eq!(join_strings(&v, ", "), "a, b, ");
    assert_eq!(join_strings(&Vec::new(), ", "), "");
    assert_eq!(dollar_quote("x"), "$$x$$");
    assert_eq!(value_tuple_text(&v), "($$a$$, $$b$$, $$$$)");
    let cols = vec!["c1".to_string(), "c2".to_string()];
    let vals = vec!["1".to_string(), "two".to_string()];
    assert_eq!(insert_statement("t", &cols, &vals), "INSERT INTO t (c1, c2) VALUES ($$1$$, $$two$$)");
}

#[test]
fn schema_statements() {
    let t = table_schema("T", &[("a", SqlType::Integer), ("b", SqlType::Varchar), ("c", SqlType::Unknown)]);
    assert_eq!(t.create_statement(), "CREATE TABLE T (a INTEGER, b VARCHAR, c Unknown);");
    assert_eq!(t.drop_statement(), "DROP TABLE T;");
    let empty = table_schema("E", &[]);
    assert_eq!(empty.create_statement(), "CREATE TABLE E ();");
}

#[test]
fn election_model_tables() {
    assert_eq!(
        generate_tables(),
        vec![
            "CREATE TABLE ElectionEvent (id INTEGER, name VARCHAR);".to_string(),
            "CREATE TABLE Election (id VARCHAR, election_event_id INTEGER, name VARCHAR, category VARCHAR);".to_string(),
        ]
    );
    assert_eq!(drop_tables(), vec!["DROP TABLE ElectionEvent;".to_string(), "DROP TABLE Election;".to_string()]);
}

#[test]
fn listing_rows_give_their_last_field() {
    assert_eq!(listing_name("-r--r--r-- 1 ftp ftp 12345 Jan 01 00:00 27966"), "27966");
    assert_eq!(listing_name("plain"), "plain");
    assert_eq!(listing_name("ends with space "), "");
    assert_eq!(listing_name(""), "");
    let rows = vec!["a b".to_string(), "c".to_string()];
    assert_eq!(listing_names(&rows), vec!["b".to_string(), "c".to_string()]);
}
