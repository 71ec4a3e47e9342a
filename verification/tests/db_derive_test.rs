use election::db_derive::{
    derive_generate_election_xml, derive_generate_postgres, get_attr_str, DbArg, DbArgValue, DbAttribute,
    DeriveError, FieldDef, FieldType, StructDef, ValueExpr,
};

fn db(args: Vec<(&str, DbArgValue)>) -> DbAttribute {
    DbAttribute {
        path: "db".to_string(),
        args: Some(args.into_iter().map(|(k, v)| DbArg::Assign(k.to_string(), v)).collect()),
    }
}

fn lit(s: &str) -> DbArgValue {
    DbArgValue::Str(s.to_string())
}

fn field(ident: &str, ty: &[&str], attrs: Vec<DbAttribute>) -> FieldDef {
    FieldDef {
        ident: ident.to_string(),
        ty: FieldType::Path(ty.iter().map(|s| s.to_string()).collect()),
        attrs,
    }
}

#[test]
fn table_name_attribute_names_the_table() {
    let def = StructDef {
        ident: "TestStruct".to_string(),
        attrs: vec![db(vec![("table_name", lit("tests"))])],
        fields: Some(vec![field("test", &["String"], vec![])]),
    };
    let t = derive_generate_election_xml(&def).ok().unwrap();
    assert_eq!(t.query, "INSERT INTO tests (test) VALUES ($${}$$)");
    assert_eq!(t.values.len(), 1);
    assert!(matches!(&t.values[0], ValueExpr::Field(f) if f == "test"));
}

#[test]
fn other_db_arguments_are_ignored() {
    let def = StructDef {
        ident: "TestStructMultipleAttr".to_string(),
        attrs: vec![db(vec![("table_name", lit("tests")), ("insert", lit("aa"))])],
        fields: Some(vec![field("test", &["String"], vec![])]),
    };
    let t = derive_generate_election_xml(&def).ok().unwrap();
    assert_eq!(t.query, "INSERT INTO tests (test) VALUES ($${}$$)");
    assert_eq!(get_attr_str(&def.attrs, "insert"), Some("aa".to_string()));
    assert_eq!(get_attr_str(&def.attrs, "missing"), None);
}

#[test]
fn column_name_and_null_value() {
    let def = StructDef {
        ident: "TestStructNoTest".to_string(),
        attrs: vec![],
        fields: Some(vec![
            field("test", &["String"], vec![]),
            field(
                "test2",
                &["Option"],
                vec![db(vec![
                    ("column_name", lit("tests_column")),
                    ("null_value", DbArgValue::Expr("\"null\".to_string()".to_string())),
                ])],
            ),
        ]),
    };
    let t = derive_generate_election_xml(&def).ok().unwrap();
    assert_eq!(t.query, "INSERT INTO TestStructNoTest (test, tests_column) VALUES ($${}$$, $${}$$)");
    assert!(matches!(&t.values[1], ValueExpr::FieldOr(f, DbArgValue::Expr(e)) if f == "test2" && e == "\"null\".to_string()"));
}

#[test]
fn option_without_null_value_is_refused() {
    let def = StructDef {
        ident: "S".to_string(),
        attrs: vec![],
        fields: Some(vec![field("x", &["std", "option", "Option"], vec![])]),
    };
    assert!(matches!(derive_generate_election_xml(&def), Err(DeriveError::MissingNullValue)));
}

#[test]
fn only_named_structs_derive() {
    let def = StructDef { ident: "E".to_string(), attrs: vec![], fields: None };
    assert!(matches!(derive_generate_election_xml(&def), Err(DeriveError::NotNamedStruct)));
    assert!(matches!(derive_generate_postgres(&def), Err(DeriveError::NotNamedStruct)));
}

#[test]
fn postgres_column_types() {
    let def = StructDef {
        ident: "C".to_string(),
        attrs: vec![],
        fields: Some(vec![
            field("a", &["i32"], vec![]),
            field("b", &["String"], vec![]),
            field("c", &["xs", "Str"], vec![]),
            FieldDef { ident: "d".to_string(), ty: FieldType::Other, attrs: vec![] },
        ]),
    };
    let t = derive_generate_postgres(&def).ok().unwrap();
    assert_eq!(t.create_statement(), "CREATE TABLE C (a INTEGER, b VARCHAR, c Unknown, d Unknown);");
    assert_eq!(t.drop_statement(), "DROP TABLE C;");
    let bad = StructDef {
        ident: "D".to_string(),
        attrs: vec![],
        fields: Some(vec![field("a", &["i32"], vec![]), field("n", &["u8"], vec![])]),
    };
    assert!(matches!(derive_generate_postgres(&bad), Err(DeriveError::UnsupportedType)));
}

#[test]
fn candidate_template() {
    let opt = |name: &str| {
        field(name, &["Option"], vec![db(vec![("null_value", DbArgValue::Expr("\"\".to_string()".to_string()))])])
    };
    let def = StructDef {
        ident: "Candidate".to_string(),
        attrs: vec![db(vec![("table_name", lit("candidates"))])],
        fields: Some(vec![
            field("ballot_order", &["xs", "UnsignedShort"], vec![]),
            field("ballot_name", &["xs", "Str"], vec![]),
            opt("party_code"),
            opt("party"),
            opt("sitting"),
            opt("surname"),
            opt("given_names"),
        ]),
    };
    let t = derive_generate_election_xml(&def).ok().unwrap();
    assert_eq!(
        t.query,
        "INSERT INTO candidates (ballot_order, ballot_name, party_code, party, sitting, surname, given_names) VALUES ($${}$$, $${}$$, $${}$$, $${}$$, $${}$$, $${}$$, $${}$$)"
    );
    assert_eq!(t.values.len(), 7);
}

fn fill(template: &str, values: &[String]) -> String {
    let mut out = String::new();
    let mut rest = template;
    let mut k = 0;
    while let Some(i) = rest.find("{}") {
        out.push_str(&rest[..i]);
        out.push_str(&values[k]);
        k += 1;
        rest = &rest[i + 2..];
    }
    out.push_str(rest);
    out
}

#[test]
fn filled_template_is_the_insert_statement() {
    let def = StructDef {
        ident: "TestStructNoTest".to_string(),
        attrs: vec![db(vec![("table_name", lit("tests"))])],
        fields: Some(vec![field("test", &["String"], vec![]), field("n", &["i32"], vec![])]),
    };
    let t = derive_generate_election_xml(&def).ok().unwrap();
    let values = vec!["a b".to_string(), "7".to_string()];
    let columns = vec!["test".to_string(), "n".to_string()];
    assert_eq!(fill(&t.query, &values), election::sql::insert_statement("tests", &columns, &values));
    assert_eq!(fill(&t.query, &values), "INSERT INTO tests (test, n) VALUES ($$a b$$, $$7$$)");
}

#[test]
fn only_the_first_db_attribute_is_read() {
    let attrs = vec![
        DbAttribute { path: "serde".to_string(), args: None },
        db(vec![("table_name", lit("first"))]),
        db(vec![("table_name", lit("second")), ("other", lit("x"))]),
    ];
    assert_eq!(get_attr_str(&attrs, "table_name"), Some("first".to_string()));
    assert_eq!(get_attr_str(&attrs, "other"), None);
    let expr = vec![db(vec![("table_name", DbArgValue::Expr("name()".to_string()))])];
    assert_eq!(get_attr_str(&expr, "table_name"), None);
}
