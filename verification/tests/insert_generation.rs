use ormx_core::attrs::{FieldAttr, TableAttr};
use ormx_core::field::{build_field, DefaultType, FieldSpec};
use ormx_core::insert::{describe_insert, insert_sql, FetchMode};
use ormx_core::strfmt::bindings;
use ormx_core::table::{build_table, TableSpec};

fn plain_field(name: &str) -> FieldSpec {
    build_field(name.to_string(), "i64".to_string(), vec![]).unwrap()
}

fn field_with(name: &str, ty: &str, attrs: Vec<FieldAttr>) -> FieldSpec {
    build_field(name.to_string(), ty.to_string(), attrs).unwrap()
}

fn users_table() -> TableSpec {
    // Scenario: table `users` with fields id (no explicit default),
    // name (no default), created_at (default = insert).
    build_table(
        "User".to_string(),
        vec![
            TableAttr::TableName("users".to_string()),
            TableAttr::Insertable(None),
        ],
        vec![
            plain_field("id"),
            field_with("name", "String", vec![]),
            field_with(
                "created_at",
                "NaiveDateTime",
                vec![FieldAttr::DefaultAttr(Some("insert".to_string()))],
            ),
        ],
    )
    .unwrap()
}

#[test]
fn users_scenario_full_statement() {
    let t = users_table();
    let ins = t.insertable_fields();
    let defs = t.default_fields();
    assert_eq!(
        ins.iter().map(|f| f.field.clone()).collect::<Vec<_>>(),
        vec!["name".to_string()]
    );
    assert_eq!(
        defs.iter().map(|f| f.field.clone()).collect::<Vec<_>>(),
        vec!["id".to_string(), "created_at".to_string()]
    );
    let sql = insert_sql(&t, &ins);
    assert_eq!(sql, "INSERT INTO users (name) VALUES ($1) RETURNING id, created_at");

    let d = describe_insert(&t).unwrap();
    assert_eq!(d.sql, sql);
    assert_eq!(d.fetch_mode, FetchMode::FetchOne);
    assert_eq!(d.insert_ident, "InsertUser");
    assert_eq!(d.table_ident, "User");
}

#[test]
fn tags_scenario_only_id_is_returned() {
    // Scenario: table `tags` with fields id and label only.
    let t = build_table(
        "Tag".to_string(),
        vec![
            TableAttr::TableName("tags".to_string()),
            TableAttr::Insertable(None),
        ],
        vec![plain_field("id"), field_with("label", "String", vec![])],
    )
    .unwrap();
    let d = describe_insert(&t).unwrap();
    assert_eq!(d.sql, "INSERT INTO tags (label) VALUES ($1) RETURNING id");
    assert_eq!(d.fetch_mode, FetchMode::FetchOne);
}

#[test]
fn no_insertable_config_generates_nothing() {
    let t = build_table(
        "User".to_string(),
        vec![TableAttr::TableName("users".to_string())],
        vec![plain_field("id"), plain_field("name")],
    )
    .unwrap();
    assert!(describe_insert(&t).is_none());
}

#[test]
fn id_never_insertable_always_read_back() {
    let t = users_table();
    let ins = t.insertable_fields();
    let defs = t.default_fields();
    assert!(ins.iter().all(|f| f.field != "id"));
    assert!(defs.iter().any(|f| f.field == "id"));
}

#[test]
fn column_and_placeholder_counts_match() {
    let t = build_table(
        "Person".to_string(),
        vec![
            TableAttr::TableName("people".to_string()),
            TableAttr::Insertable(None),
        ],
        vec![
            plain_field("id"),
            plain_field("first_name"),
            plain_field("last_name"),
            plain_field("age"),
        ],
    )
    .unwrap();
    let ins = t.insertable_fields();
    assert_eq!(ins.len(), 3);
    let d = describe_insert(&t).unwrap();
    assert_eq!(d.insert_fields.len(), ins.len());
    assert_eq!(
        d.sql,
        "INSERT INTO people (first_name, last_name, age) VALUES ($1, $2, $3) RETURNING id"
    );
}

#[test]
fn placeholders_are_one_based_and_decimal() {
    let b = bindings(12);
    assert_eq!(b.len(), 12);
    assert_eq!(b[0], "$1");
    assert_eq!(b[9], "$10");
    assert_eq!(b[11], "$12");
}

#[test]
fn empty_insertable_field_list_is_legal() {
    // A table whose only field is the id takes no caller-supplied
    // columns at all.
    let t = build_table(
        "Marker".to_string(),
        vec![
            TableAttr::TableName("markers".to_string()),
            TableAttr::Insertable(None),
        ],
        vec![plain_field("id")],
    )
    .unwrap();
    let d = describe_insert(&t).unwrap();
    assert_eq!(d.sql, "INSERT INTO markers () VALUES () RETURNING id");
    assert_eq!(d.insert_fields.len(), 0);
    assert_eq!(d.fetch_mode, FetchMode::FetchOne);
}

#[test]
fn no_default_fields_means_fire_and_discard() {
    // Built tables always hold a default id, so assemble the model by
    // hand to reach the no-defaults edge: no RETURNING, execute mode.
    let f = plain_field("payload");
    let id = plain_field("key");
    let t = TableSpec {
        ident: "Event".to_string(),
        table: "events".to_string(),
        reserved_table_name: false,
        id: id.clone(),
        id_index: 0,
        insertable: Some(ormx_core::table::InsertableCfg {
            ident: "InsertEvent".to_string(),
        }),
        fields: vec![id, f],
        deletable: false,
    };
    let d = describe_insert(&t).unwrap();
    assert_eq!(d.sql, "INSERT INTO events (key, payload) VALUES ($1, $2)");
    assert!(!d.sql.contains("RETURNING"));
    assert_eq!(d.fetch_mode, FetchMode::Execute);
    assert_eq!(d.generated_fields.len(), 0);
}

#[test]
fn generated_record_mirrors_default_fields() {
    let t = users_table();
    let d = describe_insert(&t).unwrap();
    assert_eq!(d.generated_fields.len(), 2);
    assert_eq!(d.generated_fields[0].field, "id");
    assert_eq!(d.generated_fields[0].ty, "i64");
    assert_eq!(d.generated_fields[1].field, "created_at");
    assert_eq!(d.generated_fields[1].ty, "NaiveDateTime");
}

#[test]
fn custom_type_field_gets_cast_hint_in_returning() {
    let t = build_table(
        "Doc".to_string(),
        vec![
            TableAttr::TableName("docs".to_string()),
            TableAttr::Insertable(None),
        ],
        vec![
            plain_field("id"),
            field_with("body", "String", vec![]),
            field_with(
                "status",
                "Status",
                vec![
                    FieldAttr::CustomType,
                    FieldAttr::Column("status_col".to_string()),
                    FieldAttr::DefaultAttr(Some("insert".to_string())),
                ],
            ),
        ],
    )
    .unwrap();
    let d = describe_insert(&t).unwrap();
    assert_eq!(
        d.sql,
        "INSERT INTO docs (body) VALUES ($1) RETURNING id, status_col AS \"status: _\""
    );
}

#[test]
fn bound_params_carry_by_ref_and_cast_flags() {
    let t = build_table(
        "Doc".to_string(),
        vec![
            TableAttr::TableName("docs".to_string()),
            TableAttr::Insertable(None),
        ],
        vec![
            plain_field("id"),
            field_with("body", "String", vec![FieldAttr::ByRef]),
            field_with("kind", "Kind", vec![FieldAttr::CustomType]),
        ],
    )
    .unwrap();
    let d = describe_insert(&t).unwrap();
    assert_eq!(d.insert_fields.len(), 2);
    assert_eq!(d.insert_fields[0].field, "body");
    assert!(d.insert_fields[0].by_ref);
    assert!(!d.insert_fields[0].custom_type);
    assert_eq!(d.insert_fields[1].field, "kind");
    assert!(!d.insert_fields[1].by_ref);
    assert!(d.insert_fields[1].custom_type);
}

#[test]
fn reserved_table_name_is_used_verbatim_in_sql() {
    // Scenario: the reserved name draws an advisory, yet the SQL still
    // uses it as the literal table identifier.
    let t = build_table(
        "Odd".to_string(),
        vec![
            TableAttr::TableName("SELECT".to_string()),
            TableAttr::Insertable(None),
        ],
        vec![plain_field("id"), plain_field("x")],
    )
    .unwrap();
    let d = describe_insert(&t).unwrap();
    assert_eq!(d.sql, "INSERT INTO SELECT (x) VALUES ($1) RETURNING id");
    assert_eq!(ormx_core::table::advisories(&t).len(), 1);
}

#[test]
fn default_always_fields_are_read_back_but_never_bound() {
    let t = build_table(
        "Row".to_string(),
        vec![
            TableAttr::TableName("rows".to_string()),
            TableAttr::Insertable(None),
        ],
        vec![
            plain_field("id"),
            plain_field("val"),
            field_with(
                "revision",
                "i32",
                vec![FieldAttr::DefaultAttr(Some("always".to_string()))],
            ),
        ],
    )
    .unwrap();
    assert_eq!(t.fields[2].default, Some(DefaultType::Always));
    let d = describe_insert(&t).unwrap();
    assert_eq!(d.sql, "INSERT INTO rows (val) VALUES ($1) RETURNING id, revision");
}
