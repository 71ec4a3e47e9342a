use election::db_derive::{derive_generate_postgres, FieldDef, FieldType, StructDef};
use election::sql::PostGresObj;

struct A {
    id: i32,
}

struct B {
    id: i32,
    name: String,
}

fn field(ident: &str, ty: &str) -> FieldDef {
    FieldDef { ident: ident.to_string(), ty: FieldType::Path(vec![ty.to_string()]), attrs: Vec::new() }
}

fn def_a() -> StructDef {
    StructDef { ident: "A".to_string(), attrs: Vec::new(), fields: Some(vec![field("id", "i32")]) }
}

fn def_b() -> StructDef {
    StructDef {
        ident: "B".to_string(),
        attrs: Vec::new(),
        fields: Some(vec![field("id", "i32"), field("name", "String")]),
    }
}

impl PostGresObj for A {
    fn postgres_create() -> String {
        derive_generate_postgres(&def_a()).unwrap().create_statement()
    }
    fn postgres_drop() -> String {
        derive_generate_postgres(&def_a()).unwrap().drop_statement()
    }
}

impl PostGresObj for B {
    fn postgres_create() -> String {
        derive_generate_postgres(&def_b()).unwrap().create_statement()
    }
    fn postgres_drop() -> String {
        derive_generate_postgres(&def_b()).unwrap().drop_statement()
    }
}

#[test]
fn create() {
    let a = A { id: 4 };
    let b = B {
        id: 12,
        name: "Stradsadasdasd".to_string(),
    };
    assert_eq!(a.id, 4);
    assert_eq!((b.id, b.name.as_str()), (12, "Stradsadasdasd"));
    assert_eq!("CREATE TABLE A (id INTEGER);", A::postgres_create());
    assert_eq!(
        "CREATE TABLE B (id INTEGER, name VARCHAR);",
        B::postgres_create()
    );
}

#[test]
fn drop() {
    let a = A { id: 4 };
    let b = B {
        id: 12,
        name: "Stradsadasdasd".to_string(),
    };
    assert_eq!(a.id, 4);
    assert_eq!((b.id, b.name.as_str()), (12, "Stradsadasdasd"));
    assert_eq!("DROP TABLE A;", A::postgres_drop());
    assert_eq!("DROP TABLE B;", B::postgres_drop());
}
