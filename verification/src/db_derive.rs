//! What the `PostGresObj` and `SerialiseDB` derives compute from a struct
//! definition: table and column names from `#[db(..)]` attributes, column
//! types, the value each column takes, and the statements they generate.
use crate::sql::{column_pairs, dollar_quoted, dollar_quoted_all, insert_sql, Column, SqlType, TableSchema};
use crate::text::{join, join_strings, views_of};
use crate::xml::str_equal;
use vstd::prelude::*;

verus! {

/// The right-hand side of a `key = value` argument of `#[db(..)]`.
pub enum DbArgValue {
    /// A string literal.
    Str(String),
    /// Any other expression, by its source text.
    Expr(String),
}

/// One comma-separated argument of `#[db(..)]`.
pub enum DbArg {
    /// `key = value`, where the left-hand side is a single identifier.
    Assign(String, DbArgValue),
    /// Any other expression.
    Other,
}

/// An attribute on a struct or field: its path, and its arguments when they
/// parse as comma-separated expressions.
pub struct DbAttribute {
    pub path: String,
    pub args: Option<Vec<DbArg>>,
}

/// A field's type as written.
pub enum FieldType {
    /// A path type, by its segments.
    Path(Vec<String>),
    /// Any other type.
    Other,
}

pub struct FieldDef {
    pub ident: String,
    pub ty: FieldType,
    pub attrs: Vec<DbAttribute>,
}

/// A struct given to a derive; `fields` is `None` when it is not a struct
/// with named fields.
pub struct StructDef {
    pub ident: String,
    pub attrs: Vec<DbAttribute>,
    pub fields: Option<Vec<FieldDef>>,
}

/// Why a derive rejects its input.
#[derive(PartialEq, Eq, Structural, Clone, Copy, Debug)]
pub enum DeriveError {
    /// Only structs with named fields can be derived.
    NotNamedStruct,
    /// A field's single-segment type is neither `i32` nor `String`.
    UnsupportedType,
    /// An `Option` field has no `null_value` in its `#[db(..)]` attribute.
    MissingNullValue,
}

/// The first attribute whose path is `db`.
pub open spec fn first_db_attr(attrs: Seq<DbAttribute>) -> Option<DbAttribute>
    decreases attrs.len(),
{
    if attrs.len() == 0 {
        None
    } else if attrs[0].path@ == "db"@ {
        Some(attrs[0])
    } else {
        first_db_attr(attrs.drop_first())
    }
}

/// The value of the first `key = value` argument whose key is `term`.
pub open spec fn assigned_value(args: Seq<DbArg>, term: Seq<char>) -> Option<DbArgValue>
    decreases args.len(),
{
    if args.len() == 0 {
        None
    } else {
        match args[0] {
            DbArg::Assign(k, v) => if k@ == term {
                Some(v)
            } else {
                assigned_value(args.drop_first(), term)
            },
            DbArg::Other => assigned_value(args.drop_first(), term),
        }
    }
}

/// The value given to `term` in the first `#[db(..)]` attribute.
pub open spec fn db_attr_value(attrs: Seq<DbAttribute>, term: Seq<char>) -> Option<DbArgValue> {
    match first_db_attr(attrs) {
        Some(a) => match a.args {
            Some(args) => assigned_value(args@, term),
            None => None,
        },
        None => None,
    }
}

/// The string literal given to `term` in the first `#[db(..)]` attribute.
pub open spec fn db_attr_str(attrs: Seq<DbAttribute>, term: Seq<char>) -> Option<Seq<char>> {
    match db_attr_value(attrs, term) {
        Some(DbArgValue::Str(s)) => Some(s@),
        _ => None,
    }
}

fn find_db_attr(attrs: &Vec<DbAttribute>) -> (r: Option<&DbAttribute>)
    ensures
        match r {
            Some(a) => first_db_attr(attrs@) == Some(*a),
            None => first_db_attr(attrs@) is None,
        },
{
    let n = attrs.len();
    let mut i: usize = 0;
    assert(attrs@.skip(0) =~= attrs@);
    while i < n
        invariant
            n == attrs@.len(),
            i <= n,
            first_db_attr(attrs@) == first_db_attr(attrs@.skip(i as int)),
        decreases n - i,
    {
        assert(attrs@.skip(i as int)[0] == attrs@[i as int]);
        if str_equal(attrs[i].path.as_str(), "db") {
            return Some(&attrs[i]);
        }
        assert(attrs@.skip(i as int).drop_first() =~= attrs@.skip(i + 1));
        i = i + 1;
    }
    assert(attrs@.skip(i as int).len() == 0);
    None
}

fn find_assigned<'a>(args: &'a Vec<DbArg>, term: &str) -> (r: Option<&'a DbArgValue>)
    ensures
        match r {
            Some(v) => assigned_value(args@, term@) == Some(*v),
            None => assigned_value(args@, term@) is None,
        },
{
    let n = args.len();
    let mut i: usize = 0;
    assert(args@.skip(0) =~= args@);
    while i < n
        invariant
            n == args@.len(),
            i <= n,
            assigned_value(args@, term@) == assigned_value(args@.skip(i as int), term@),
        decreases n - i,
    {
        assert(args@.skip(i as int)[0] == args@[i as int]);
        assert(args@.skip(i as int).drop_first() =~= args@.skip(i + 1));
        match &args[i] {
            DbArg::Assign(k, v) => {
                if str_equal(k.as_str(), term) {
                    return Some(v);
                }
            },
            DbArg::Other => {},
        }
        i = i + 1;
    }
    assert(args@.skip(i as int).len() == 0);
    None
}

/// The value given to `search_term` in the first `#[db(..)]` attribute, if any.
pub fn get_attr_value<'a>(attrs: &'a Vec<DbAttribute>, search_term: &str) -> (r: Option<&'a DbArgValue>)
    ensures
        match r {
            Some(v) => db_attr_value(attrs@, search_term@) == Some(*v),
            None => db_attr_value(attrs@, search_term@) is None,
        },
{
    match find_db_attr(attrs) {
        Some(a) => match &a.args {
            Some(args) => find_assigned(args, search_term),
            None => None,
        },
        None => None,
    }
}

/// The string literal given to `search_term` in the first `#[db(..)]` attribute, if any.
pub fn get_attr_str(attrs: &Vec<DbAttribute>, search_term: &str) -> (r: Option<String>)
    ensures
        match r {
            Some(s) => db_attr_str(attrs@, search_term@) == Some(s@),
            None => db_attr_str(attrs@, search_term@) is None,
        },
{
    match get_attr_value(attrs, search_term) {
        Some(DbArgValue::Str(s)) => Some(s.clone()),
        _ => None,
    }
}

pub open spec fn table_name_of(def: StructDef) -> Seq<char> {
    match db_attr_str(def.attrs@, "table_name"@) {
        Some(t) => t,
        None => def.ident@,
    }
}

/// The table a struct is stored in: its `table_name`, else the struct's name.
pub fn determine_table_name(input: &StructDef) -> (r: String)
    ensures
        r@ == table_name_of(*input),
{
    match get_attr_str(&input.attrs, "table_name") {
        Some(t) => t,
        None => input.ident.clone(),
    }
}

pub open spec fn column_name_of(field: FieldDef) -> Seq<char> {
    match db_attr_str(field.attrs@, "column_name"@) {
        Some(c) => c,
        None => field.ident@,
    }
}

/// The column a field is stored in: its `column_name`, else the field's name.
pub fn determine_column_name(field: &FieldDef) -> (r: String)
    ensures
        r@ == column_name_of(*field),
{
    match get_attr_str(&field.attrs, "column_name") {
        Some(c) => c,
        None => field.ident.clone(),
    }
}

/// The names of the fields, in order.
pub fn determine_table_columns(fields: &Vec<FieldDef>) -> (r: Vec<String>)
    ensures
        r@.len() == fields@.len(),
        forall|i: int| 0 <= i < r@.len() ==> (#[trigger] r@[i])@ == fields@[i].ident@,
{
    let mut out: Vec<String> = Vec::new();
    let n = fields.len();
    let mut i: usize = 0;
    while i < n
        invariant
            n == fields@.len(),
            i <= n,
            out@.len() == i,
            forall|j: int| 0 <= j < i ==> (#[trigger] out@[j])@ == fields@[j].ident@,
        decreases n - i,
    {
        out.push(fields[i].ident.clone());
        i = i + 1;
    }
    out
}

/// Whether a type is written as a path whose last segment is `Option`.
pub open spec fn is_option_type(ty: FieldType) -> bool {
    match ty {
        FieldType::Path(segs) => segs@.len() > 0 && segs@.last()@ == "Option"@,
        FieldType::Other => false,
    }
}

fn option_type(ty: &FieldType) -> (r: bool)
    ensures
        r == is_option_type(*ty),
{
    match ty {
        FieldType::Path(segs) => {
            let n = segs.len();
            if n == 0 {
                false
            } else {
                str_equal(segs[n - 1].as_str(), "Option")
            }
        },
        FieldType::Other => false,
    }
}

/// The value a column takes for a row: the field itself, or, for an `Option`
/// field, its content or else the `null_value` expression.
pub enum ValueExpr {
    Field(String),
    FieldOr(String, DbArgValue),
}

pub open spec fn value_expr_of(field: FieldDef) -> Option<ValueExpr> {
    if is_option_type(field.ty) {
        match db_attr_value(field.attrs@, "null_value"@) {
            Some(v) => Some(ValueExpr::FieldOr(field.ident, v)),
            None => None,
        }
    } else {
        Some(ValueExpr::Field(field.ident))
    }
}

fn clone_arg_value(v: &DbArgValue) -> (r: DbArgValue)
    ensures
        r == *v,
{
    match v {
        DbArgValue::Str(s) => DbArgValue::Str(s.clone()),
        DbArgValue::Expr(s) => DbArgValue::Expr(s.clone()),
    }
}

/// Whether the `SerialiseDB` derive can give a field a value: any field
/// but an `Option` one without a `null_value` (on which the derive stops).
pub fn has_value_expr(field: &FieldDef) -> (r: bool)
    ensures
        r == (value_expr_of(*field) is Some),
{
    if option_type(&field.ty) {
        get_attr_value(&field.attrs, "null_value").is_some()
    } else {
        true
    }
}

/// The value expression of a field: the field itself, or, for an `Option`
/// field, its content or else its `null_value`. An `Option` field without a
/// `null_value` has none; `requires` leaves it out.
pub fn determine_value_expr(field: &FieldDef) -> (r: ValueExpr)
    requires
        !is_option_type(field.ty) || db_attr_value(field.attrs@, "null_value"@) is Some,
    ensures
        Some(r) == value_expr_of(*field),
{
    if option_type(&field.ty) {
        match get_attr_value(&field.attrs, "null_value") {
            Some(v) => ValueExpr::FieldOr(field.ident.clone(), clone_arg_value(v)),
            None => ValueExpr::Field(field.ident.clone()),
        }
    } else {
        ValueExpr::Field(field.ident.clone())
    }
}

/// A column of an INSERT: the column's name and the value it takes.
pub struct TableField {
    pub column: String,
    pub value_expr: ValueExpr,
}

/// The column and value of every field; `None` when a field has no value expression.
pub fn determine_fields(fields: &Vec<FieldDef>) -> (r: Option<Vec<TableField>>)
    ensures
        match r {
            Some(tf) => tf@.len() == fields@.len() && forall|i: int|
                0 <= i < tf@.len() ==> (#[trigger] tf@[i]).column@ == column_name_of(fields@[i])
                    && Some(tf@[i].value_expr) == value_expr_of(fields@[i]),
            None => exists|i: int| 0 <= i < fields@.len() && value_expr_of(#[trigger] fields@[i]) is None,
        },
{
    let mut out: Vec<TableField> = Vec::new();
    let n = fields.len();
    let mut i: usize = 0;
    while i < n
        invariant
            n == fields@.len(),
            i <= n,
            out@.len() == i,
            forall|j: int|
                0 <= j < i ==> (#[trigger] out@[j]).column@ == column_name_of(fields@[j])
                    && Some(out@[j].value_expr) == value_expr_of(fields@[j]),
        decreases n - i,
    {
        let column = determine_column_name(&fields[i]);
        if !has_value_expr(&fields[i]) {
            return None;
        }
        let value_expr = determine_value_expr(&fields[i]);
        out.push(TableField { column, value_expr });
        i = i + 1;
    }
    Some(out)
}

/// The column type the `PostGresObj` derive gives a field type: `i32` is
/// INTEGER, `String` is VARCHAR, any other single-segment path is refused,
/// and anything else is "Unknown".
pub open spec fn sql_type_of(ty: FieldType) -> Option<SqlType> {
    match ty {
        FieldType::Path(segs) => if segs@.len() == 1 {
            if segs@[0]@ == "i32"@ {
                Some(SqlType::Integer)
            } else if segs@[0]@ == "String"@ {
                Some(SqlType::Varchar)
            } else {
                None
            }
        } else {
            Some(SqlType::Unknown)
        },
        FieldType::Other => Some(SqlType::Unknown),
    }
}

pub fn column_type(ty: &FieldType) -> (r: Option<SqlType>)
    ensures
        r == sql_type_of(*ty),
{
    match ty {
        FieldType::Path(segs) => {
            if segs.len() == 1 {
                if str_equal(segs[0].as_str(), "i32") {
                    Some(SqlType::Integer)
                } else if str_equal(segs[0].as_str(), "String") {
                    Some(SqlType::Varchar)
                } else {
                    None
                }
            } else {
                Some(SqlType::Unknown)
            }
        },
        FieldType::Other => Some(SqlType::Unknown),
    }
}

/// The columns the `PostGresObj` derive gives the fields: each field's name
/// with its column type (INTEGER for `i32`, VARCHAR for `String`).
pub open spec fn derived_columns(fields: Seq<FieldDef>) -> Seq<(Seq<char>, SqlType)> {
    fields.map_values(|f: FieldDef| (f.ident@, sql_type_of(f.ty).unwrap()))
}

/// The table the `PostGresObj` derive describes for a struct: the struct's
/// name, and one column per field with the field's name and column type.
/// Where the derive rejects its input the result is the error:
/// `NotNamedStruct` where it emits "Only structs with named fields can
/// derive `PostGresObj`", and `UnsupportedType` where it stops (panics with
/// "Unable to parse <type> in object <struct>") on a one-segment field type
/// other than `i32` or `String`.
pub fn derive_generate_postgres(input: &StructDef) -> (r: Result<TableSchema, DeriveError>)
    ensures
        match input.fields {
            None => r == Err::<TableSchema, DeriveError>(DeriveError::NotNamedStruct),
            Some(fields) => match r {
                Ok(t) => t.name@ == input.ident@ && t.columns@.len() == fields@.len() && (forall|i: int|
                    0 <= i < fields@.len() ==> (#[trigger] t.columns@[i]).name@ == fields@[i].ident@
                        && Some(t.columns@[i].sql_type) == sql_type_of(fields@[i].ty))
                    && column_pairs(t.columns@) == derived_columns(fields@),
                Err(e) => e == DeriveError::UnsupportedType && exists|i: int|
                    0 <= i < fields@.len() && sql_type_of(#[trigger] fields@[i].ty) is None,
            },
        },
{
    match &input.fields {
        None => Err(DeriveError::NotNamedStruct),
        Some(fields) => {
            let mut columns: Vec<Column> = Vec::new();
            let n = fields.len();
            let mut i: usize = 0;
            while i < n
                invariant
                    input.fields == Some(*fields),
                    n == fields@.len(),
                    i <= n,
                    columns@.len() == i,
                    forall|j: int|
                        0 <= j < i ==> (#[trigger] columns@[j]).name@ == fields@[j].ident@
                            && Some(columns@[j].sql_type) == sql_type_of(fields@[j].ty),
                decreases n - i,
            {
                match column_type(&fields[i].ty) {
                    Some(t) => columns.push(Column { name: fields[i].ident.clone(), sql_type: t }),
                    None => {
                        return Err(DeriveError::UnsupportedType);
                    },
                }
                i = i + 1;
            }
            let t = TableSchema { name: input.ident.clone(), columns };
            assert(column_pairs(t.columns@) =~= derived_columns(fields@));
            Ok(t)
        },
    }
}

/// The statement template the `SerialiseDB` derive emits: one `$${}$$`
/// placeholder per column.
pub open spec fn insert_template(table: Seq<char>, columns: Seq<Seq<char>>) -> Seq<char> {
    "INSERT INTO "@ + table + " ("@ + join(columns, ", "@) + ") VALUES ("@ + join(
        Seq::new(columns.len(), |i: int| "$${}$$"@),
        ", "@,
    ) + ")"@
}

/// What the `SerialiseDB` derive generates: the statement template and the
/// value filled into each placeholder, in order.
pub struct InsertTemplate {
    pub query: String,
    pub values: Vec<ValueExpr>,
}

/// The INSERT template and value expressions the `SerialiseDB` derive
/// generates for a struct. Where the derive rejects its input the result
/// is the error: `NotNamedStruct` where it emits "Only structs with named
/// fields can derive `SerialiseDB`", and `MissingNullValue` where it stops
/// (panics) on an `Option` field without a `null_value`.
pub fn derive_generate_election_xml(input: &StructDef) -> (r: Result<InsertTemplate, DeriveError>)
    ensures
        match input.fields {
            None => r == Err::<InsertTemplate, DeriveError>(DeriveError::NotNamedStruct),
            Some(fields) => match r {
                Ok(t) => t.query@ == insert_template(
                    table_name_of(*input),
                    fields@.map_values(|f: FieldDef| column_name_of(f)),
                ) && t.values@.len() == fields@.len() && forall|i: int|
                    0 <= i < fields@.len() ==> Some(#[trigger] t.values@[i]) == value_expr_of(fields@[i]),
                Err(e) => e == DeriveError::MissingNullValue && exists|i: int|
                    0 <= i < fields@.len() && value_expr_of(#[trigger] fields@[i]) is None,
            },
        },
{
    match &input.fields {
        None => Err(DeriveError::NotNamedStruct),
        Some(fields) => {
            let table_name = determine_table_name(input);
            match determine_fields(fields) {
                None => Err(DeriveError::MissingNullValue),
                Some(table_fields) => {
                    let mut columns: Vec<String> = Vec::new();
                    let mut holes: Vec<String> = Vec::new();
                    let mut values: Vec<ValueExpr> = Vec::new();
                    let n = table_fields.len();
                    let ghost names = fields@.map_values(|f: FieldDef| column_name_of(f));
                    let mut i: usize = 0;
                    let mut tf = table_fields;
                    while i < n
                        invariant
                            n == fields@.len(),
                            names == fields@.map_values(|f: FieldDef| column_name_of(f)),
                            tf@.len() == n,
                            i <= n,
                            forall|j: int|
                                0 <= j < n ==> (#[trigger] tf@[j]).column@ == column_name_of(fields@[j])
                                    && Some(tf@[j].value_expr) == value_expr_of(fields@[j]),
                            columns@.len() == i,
                            holes@.len() == i,
                            values@.len() == i,
                            forall|j: int| 0 <= j < i ==> (#[trigger] columns@[j])@ == names[j],
                            forall|j: int| 0 <= j < i ==> (#[trigger] holes@[j])@ == "$${}$$"@,
                            forall|j: int| 0 <= j < i ==> Some(#[trigger] values@[j]) == value_expr_of(fields@[j]),
                        decreases n - i,
                    {
                        columns.push(tf[i].column.clone());
                        holes.push("$${}$$".to_owned());
                        let v = match &tf[i].value_expr {
                            ValueExpr::Field(f) => ValueExpr::Field(f.clone()),
                            ValueExpr::FieldOr(f, d) => ValueExpr::FieldOr(f.clone(), clone_arg_value(d)),
                        };
                        values.push(v);
                        i = i + 1;
                    }
                    assert(views_of(columns@) =~= names);
                    assert(views_of(holes@) =~= Seq::new(names.len(), |i: int| "$${}$$"@));
                    let cols = join_strings(&columns, ", ");
                    let brackets = join_strings(&holes, ", ");
                    let mut query = "INSERT INTO ".to_owned();
                    query.append(table_name.as_str());
                    query.append(" (");
                    query.append(cols.as_str());
                    query.append(") VALUES (");
                    query.append(brackets.as_str());
                    query.append(")");
                    Ok(InsertTemplate { query, values })
                },
            }
        },
    }
}

/// What `format!` makes of a template whose braces all stand in `{}`
/// holes: each hole is replaced by the next value, in order.
pub open spec fn fill_holes(t: Seq<char>, vals: Seq<Seq<char>>) -> Seq<char>
    decreases t.len(),
{
    if t.len() == 0 {
        Seq::empty()
    } else if t.len() >= 2 && t[0] == '{' && t[1] == '}' {
        (if vals.len() > 0 {
            vals[0]
        } else {
            Seq::empty()
        }) + fill_holes(t.skip(2), vals.skip(1))
    } else {
        seq![t[0]] + fill_holes(t.skip(1), vals)
    }
}

/// A text without braces.
pub open spec fn brace_free(s: Seq<char>) -> bool {
    forall|i: int| 0 <= i < s.len() ==> s[i] != '{' && s[i] != '}'
}

proof fn lemma_fill_plain(a: Seq<char>, b: Seq<char>, vals: Seq<Seq<char>>)
    requires
        brace_free(a),
    ensures
        fill_holes(a + b, vals) == a + fill_holes(b, vals),
    decreases a.len(),
{
    if a.len() > 0 {
        let ab = a + b;
        assert(ab[0] == a[0]);
        assert(ab.skip(1) =~= a.skip(1) + b);
        lemma_fill_plain(a.skip(1), b, vals);
        assert(a =~= seq![a[0]] + a.skip(1));
        assert(fill_holes(ab, vals) == seq![a[0]] + fill_holes(ab.skip(1), vals));
        assert(fill_holes(ab, vals) =~= a + fill_holes(b, vals));
    } else {
        assert(a + b =~= b);
    }
}

proof fn lemma_fill_hole(b: Seq<char>, vals: Seq<Seq<char>>)
    requires
        vals.len() > 0,
    ensures
        fill_holes("$${}$$"@ + b, vals) == dollar_quoted(vals[0]) + fill_holes(b, vals.skip(1)),
{
    reveal_strlit("$${}$$");
    reveal_strlit("$$");
    let t = "$${}$$"@ + b;
    let rest = seq!['{', '}', '$', '$'] + b;
    assert(t =~= "$$"@ + rest);
    lemma_fill_plain("$$"@, rest, vals);
    assert(rest.skip(2) =~= "$$"@ + b);
    lemma_fill_plain("$$"@, b, vals.skip(1));
    assert(fill_holes(rest, vals) == vals[0] + fill_holes(rest.skip(2), vals.skip(1)));
    assert(fill_holes(t, vals) =~= dollar_quoted(vals[0]) + fill_holes(b, vals.skip(1)));
}

/// `n` holes quoted with `$$`.
pub open spec fn quoted_holes(n: nat) -> Seq<Seq<char>> {
    Seq::new(n, |i: int| "$${}$$"@)
}

proof fn lemma_fill_holes_list(k: nat, tail: Seq<char>, vals: Seq<Seq<char>>)
    requires
        k <= vals.len(),
    ensures
        fill_holes(join(quoted_holes(k), ", "@) + tail, vals) == join(dollar_quoted_all(vals.take(k as int)), ", "@)
            + fill_holes(tail, vals.skip(k as int)),
    decreases k,
{
    reveal_strlit(", ");
    let sep = ", "@;
    assert(brace_free(sep));
    if k == 0 {
        assert(join(quoted_holes(0), sep) =~= Seq::<char>::empty());
        assert(join(quoted_holes(0), sep) + tail =~= tail);
        assert(dollar_quoted_all(vals.take(0)) =~= Seq::<Seq<char>>::empty());
        assert(vals.skip(0) =~= vals);
        assert(join(dollar_quoted_all(vals.take(0)), sep) + fill_holes(tail, vals.skip(0)) =~= fill_holes(tail, vals));
    } else if k == 1 {
        assert(quoted_holes(1) =~= seq!["$${}$$"@]);
        assert(join(quoted_holes(1), sep) == "$${}$$"@);
        lemma_fill_hole(tail, vals);
        assert(dollar_quoted_all(vals.take(1)) =~= seq![dollar_quoted(vals[0])]);
        assert(vals.skip(1) == vals.skip(k as int));
    } else {
        let km = (k - 1) as nat;
        let rest = sep + ("$${}$$"@ + tail);
        assert(quoted_holes(k).drop_last() =~= quoted_holes(km));
        assert(join(quoted_holes(k), sep) == join(quoted_holes(km), sep) + sep + "$${}$$"@);
        assert(join(quoted_holes(k), sep) + tail =~= join(quoted_holes(km), sep) + rest);
        lemma_fill_holes_list(km, rest, vals);
        let v2 = vals.skip(km as int);
        lemma_fill_plain(sep, "$${}$$"@ + tail, v2);
        lemma_fill_hole(tail, v2);
        assert(v2[0] == vals[km as int]);
        assert(v2.skip(1) =~= vals.skip(k as int));
        let q = dollar_quoted_all(vals.take(k as int));
        assert(q.drop_last() =~= dollar_quoted_all(vals.take(km as int)));
        assert(q.last() == dollar_quoted(vals[km as int]));
        assert(join(q, sep) == join(q.drop_last(), sep) + sep + q.last());
        assert(fill_holes(join(quoted_holes(k), sep) + tail, vals) =~= join(q, sep) + fill_holes(tail, vals.skip(k as int)));
    }
}

/// Formatting the template the `SerialiseDB` derive generates with the
/// texts of a row's values gives the INSERT statement of that row: the
/// derived `insert` stores each value, `$$`-quoted, in its column.
pub proof fn law_filled_template_is_insert(table: Seq<char>, columns: Seq<Seq<char>>, vals: Seq<Seq<char>>)
    requires
        brace_free(table),
        forall|i: int| 0 <= i < columns.len() ==> brace_free(#[trigger] columns[i]),
        vals.len() == columns.len(),
    ensures
        fill_holes(insert_template(table, columns), vals) == insert_sql(table, columns, vals),
{
    reveal_strlit("INSERT INTO ");
    reveal_strlit(" (");
    reveal_strlit(", ");
    reveal_strlit(") VALUES (");
    reveal_strlit(") VALUES ");
    reveal_strlit("(");
    reveal_strlit(")");
    let sep = ", "@;
    let n = columns.len();
    lemma_join_brace_free(columns, sep);
    let head = "INSERT INTO "@ + table + " ("@ + join(columns, sep) + ") VALUES "@;
    let prefix = head + "("@;
    lemma_brace_free_add("INSERT INTO "@, table);
    lemma_brace_free_add("INSERT INTO "@ + table, " ("@);
    lemma_brace_free_add("INSERT INTO "@ + table + " ("@, join(columns, sep));
    lemma_brace_free_add("INSERT INTO "@ + table + " ("@ + join(columns, sep), ") VALUES "@);
    lemma_brace_free_add(head, "("@);
    let holes = join(quoted_holes(n), sep);
    assert(Seq::new(n, |i: int| "$${}$$"@) =~= quoted_holes(n));
    assert(insert_template(table, columns) =~= prefix + (holes + ")"@));
    lemma_fill_plain(prefix, holes + ")"@, vals);
    lemma_fill_holes_list(n, ")"@, vals);
    assert(vals.take(n as int) =~= vals);
    lemma_fill_plain(")"@, Seq::empty(), vals.skip(n as int));
    assert(")"@ + Seq::<char>::empty() =~= ")"@);
    assert(fill_holes(insert_template(table, columns), vals) =~= insert_sql(table, columns, vals));
}

proof fn lemma_brace_free_add(a: Seq<char>, b: Seq<char>)
    requires
        brace_free(a),
        brace_free(b),
    ensures
        brace_free(a + b),
{
    assert forall|i: int| 0 <= i < (a + b).len() implies (a + b)[i] != '{' && (a + b)[i] != '}' by {
        if i < a.len() {
            assert((a + b)[i] == a[i]);
        } else {
            assert((a + b)[i] == b[i - a.len()]);
        }
    }
}

proof fn lemma_join_brace_free(parts: Seq<Seq<char>>, sep: Seq<char>)
    requires
        brace_free(sep),
        forall|i: int| 0 <= i < parts.len() ==> brace_free(#[trigger] parts[i]),
    ensures
        brace_free(join(parts, sep)),
    decreases parts.len(),
{
    if parts.len() == 1 {
        assert(brace_free(parts[0]));
    } else if parts.len() > 1 {
        let init = parts.drop_last();
        assert forall|i: int| 0 <= i < init.len() implies brace_free(#[trigger] init[i]) by {
            assert(init[i] == parts[i]);
        }
        lemma_join_brace_free(init, sep);
        assert(brace_free(parts.last()));
        lemma_brace_free_add(join(init, sep), sep);
        lemma_brace_free_add(join(init, sep) + sep, parts.last());
    }
}

proof fn lemma_first_db_attr_prefix(attrs: Seq<DbAttribute>, extra: Seq<DbAttribute>)
    requires
        first_db_attr(attrs) is Some,
    ensures
        first_db_attr(attrs + extra) == first_db_attr(attrs),
    decreases attrs.len(),
{
    let all = attrs + extra;
    assert(all[0] == attrs[0]);
    if attrs[0].path@ != "db"@ {
        assert(all.drop_first() =~= attrs.drop_first() + extra);
        lemma_first_db_attr_prefix(attrs.drop_first(), extra);
    }
}

/// A `#[db(..)]` value comes from the first `db` attribute alone: `db`
/// attributes after it are not read, and only a string literal there gives
/// a text.
pub proof fn law_attr_from_first_db_attribute(attrs: Seq<DbAttribute>, extra: Seq<DbAttribute>, term: Seq<char>)
    requires
        first_db_attr(attrs) is Some,
    ensures
        db_attr_value(attrs + extra, term) == db_attr_value(attrs, term),
        db_attr_str(attrs + extra, term) == db_attr_str(attrs, term),
        db_attr_value(attrs, term) matches Some(DbArgValue::Expr(_)) ==> db_attr_str(attrs, term) is None,
        db_attr_value(attrs, term) matches Some(DbArgValue::Str(v)) ==> db_attr_str(attrs, term) == Some(v@),
{
    lemma_first_db_attr_prefix(attrs, extra);
}

} // verus!
