use ormx_core::attrs::{Advisory, AttrKind, BuildError, FieldAttr, TableAttr};
use ormx_core::field::{build_field, DefaultType, FieldSpec};
use ormx_core::reserved::is_reserved;
use ormx_core::table::{advisories, build_table};

fn plain_field(name: &str) -> FieldSpec {
    build_field(name.to_string(), "i64".to_string(), vec![]).unwrap()
}

fn field_with(name: &str, attrs: Vec<FieldAttr>) -> FieldSpec {
    build_field(name.to_string(), "i64".to_string(), attrs).unwrap()
}

#[test]
fn field_defaults_to_its_own_name_as_column() {
    let f = plain_field("email");
    assert_eq!(f.field, "email");
    assert_eq!(f.column_name, "email");
    assert!(f.default.is_none());
    assert!(!f.custom_type);
    assert!(!f.by_ref);
}

#[test]
fn field_column_override_is_used() {
    let f = field_with("email", vec![FieldAttr::Column("email_addr".to_string())]);
    assert_eq!(f.column_name, "email_addr");
    assert_eq!(f.field, "email");
}

#[test]
fn default_argument_insert_and_always() {
    let f = field_with(
        "created_at",
        vec![FieldAttr::DefaultAttr(Some("insert".to_string()))],
    );
    assert_eq!(f.default, Some(DefaultType::Insert));
    let g = field_with(
        "row_version",
        vec![FieldAttr::DefaultAttr(Some("always".to_string()))],
    );
    assert_eq!(g.default, Some(DefaultType::Always));
    let h = field_with("stamp", vec![FieldAttr::DefaultAttr(None)]);
    assert_eq!(h.default, Some(DefaultType::Insert));
}

#[test]
fn invalid_default_argument_is_a_hard_error() {
    let r = build_field(
        "created_at".to_string(),
        "i64".to_string(),
        vec![FieldAttr::DefaultAttr(Some("sometimes".to_string()))],
    );
    match r {
        Err(BuildError::InvalidDefaultArg(v)) => assert_eq!(v, "sometimes"),
        other => panic!("expected InvalidDefaultArg, got {:?}", other.is_ok()),
    }
}

#[test]
fn duplicate_field_attribute_is_a_hard_error() {
    let r = build_field(
        "x".to_string(),
        "i64".to_string(),
        vec![FieldAttr::CustomType, FieldAttr::CustomType],
    );
    match r {
        Err(BuildError::DuplicateAttr(k)) => assert_eq!(k, AttrKind::CustomType),
        other => panic!("expected DuplicateAttr, got {:?}", other.is_ok()),
    }
}

#[test]
fn setter_without_name_is_synthesized() {
    let f = field_with("name", vec![FieldAttr::Setter(None)]);
    assert_eq!(f.set, Some("set_name".to_string()));
    let g = field_with("name", vec![FieldAttr::Setter(Some("rename".to_string()))]);
    assert_eq!(g.set, Some("rename".to_string()));
}

#[test]
fn insert_attrs_accumulate_in_order() {
    let f = field_with(
        "data",
        vec![
            FieldAttr::InsertAttr("serde(default)".to_string()),
            FieldAttr::InsertAttr("doc(hidden)".to_string()),
        ],
    );
    assert_eq!(
        f.insert_attrs,
        vec!["serde(default)".to_string(), "doc(hidden)".to_string()]
    );
}

#[test]
fn reserved_column_name_is_flagged_not_rejected() {
    // `user` uppercases to the reserved word USER
    let f = plain_field("user");
    assert!(f.reserved_ident);
    let g = plain_field("username");
    assert!(!g.reserved_ident);
}

#[test]
fn reserved_check_uppercases_its_input() {
    assert!(is_reserved("select"));
    assert!(is_reserved("SELECT"));
    assert!(is_reserved("Table"));
    assert!(!is_reserved("tags"));
}

#[test]
fn id_with_no_default_becomes_always_default() {
    let t = build_table(
        "User".to_string(),
        vec![TableAttr::TableName("users".to_string())],
        vec![plain_field("id"), plain_field("name")],
    )
    .unwrap();
    assert_eq!(t.id.default, Some(DefaultType::Always));
    assert_eq!(t.id.field, "id");
    assert_eq!(t.id_index, 0);
    assert_eq!(t.fields[0].default, Some(DefaultType::Always));
}

#[test]
fn id_with_explicit_always_default_is_kept() {
    let t = build_table(
        "User".to_string(),
        vec![TableAttr::TableName("users".to_string())],
        vec![
            field_with("id", vec![FieldAttr::DefaultAttr(Some("always".to_string()))]),
            plain_field("name"),
        ],
    )
    .unwrap();
    assert_eq!(t.id.default, Some(DefaultType::Always));
}

#[test]
fn id_with_insert_default_is_rejected() {
    let r = build_table(
        "User".to_string(),
        vec![TableAttr::TableName("users".to_string())],
        vec![
            field_with("id", vec![FieldAttr::DefaultAttr(Some("insert".to_string()))]),
            plain_field("name"),
        ],
    );
    assert!(matches!(r, Err(BuildError::IdDefaultConflict)));
}

#[test]
fn custom_id_attribute_names_the_id_field() {
    let t = build_table(
        "User".to_string(),
        vec![
            TableAttr::TableName("users".to_string()),
            TableAttr::Id("user_id".to_string()),
        ],
        vec![plain_field("user_id"), plain_field("name")],
    )
    .unwrap();
    assert_eq!(t.id.field, "user_id");
    assert_eq!(t.id.default, Some(DefaultType::Always));
}

#[test]
fn missing_id_field_is_a_hard_error() {
    let r = build_table(
        "User".to_string(),
        vec![TableAttr::TableName("users".to_string())],
        vec![plain_field("name")],
    );
    assert!(matches!(r, Err(BuildError::IdFieldMissing)));
}

#[test]
fn missing_table_attribute_is_a_hard_error() {
    // Scenario: a struct without a `table` attribute fails and nothing
    // is generated for it.
    let r = build_table(
        "User".to_string(),
        vec![],
        vec![plain_field("id"), plain_field("name")],
    );
    assert!(matches!(r, Err(BuildError::MissingTableAttr)));
}

#[test]
fn duplicate_table_attribute_is_a_hard_error() {
    let r = build_table(
        "User".to_string(),
        vec![
            TableAttr::TableName("users".to_string()),
            TableAttr::TableName("people".to_string()),
        ],
        vec![plain_field("id")],
    );
    match r {
        Err(BuildError::DuplicateAttr(k)) => assert_eq!(k, AttrKind::TableName),
        _ => panic!("expected DuplicateAttr"),
    }
}

#[test]
fn insert_default_with_setter_is_legal() {
    // Scenario: default("insert") plus a setter builds fine; setters
    // are only forbidden on always-default fields.
    let t = build_table(
        "User".to_string(),
        vec![TableAttr::TableName("users".to_string())],
        vec![
            plain_field("id"),
            field_with(
                "visits",
                vec![
                    FieldAttr::DefaultAttr(Some("insert".to_string())),
                    FieldAttr::Setter(None),
                ],
            ),
        ],
    );
    assert!(t.is_ok());
}

#[test]
fn always_default_with_setter_is_rejected() {
    // Scenario: default("always") plus a setter is a hard error at
    // that field.
    let r = build_table(
        "User".to_string(),
        vec![TableAttr::TableName("users".to_string())],
        vec![
            plain_field("id"),
            field_with(
                "row_version",
                vec![
                    FieldAttr::DefaultAttr(Some("always".to_string())),
                    FieldAttr::Setter(None),
                ],
            ),
        ],
    );
    match r {
        Err(BuildError::AlwaysDefaultWithSetter(name)) => assert_eq!(name, "row_version"),
        _ => panic!("expected AlwaysDefaultWithSetter"),
    }
}

#[test]
fn setter_on_forced_id_is_rejected_too() {
    // The scan runs over the forced id as well.
    let r = build_table(
        "User".to_string(),
        vec![TableAttr::TableName("users".to_string())],
        vec![field_with("id", vec![FieldAttr::Setter(None)]), plain_field("name")],
    );
    assert!(matches!(r, Err(BuildError::AlwaysDefaultWithSetter(_))));
}

#[test]
fn reserved_table_name_gives_one_advisory_and_succeeds() {
    // Scenario: table name SELECT builds, with exactly one advisory.
    let t = build_table(
        "Odd".to_string(),
        vec![TableAttr::TableName("SELECT".to_string())],
        vec![plain_field("id")],
    )
    .unwrap();
    assert!(t.reserved_table_name);
    let advs = advisories(&t);
    assert_eq!(advs.len(), 1);
    match &advs[0] {
        Advisory::ReservedTableName(n) => assert_eq!(n, "SELECT"),
        _ => panic!("expected a table-name advisory"),
    }
}

#[test]
fn reserved_column_gives_an_advisory_in_field_order() {
    let t = build_table(
        "Acc".to_string(),
        vec![TableAttr::TableName("accounts".to_string())],
        vec![plain_field("id"), plain_field("user"), plain_field("name")],
    )
    .unwrap();
    let advs = advisories(&t);
    assert_eq!(advs.len(), 1);
    match &advs[0] {
        Advisory::ReservedColumn(n) => assert_eq!(n, "user"),
        _ => panic!("expected a column advisory"),
    }
}

#[test]
fn deletable_and_insertable_flags_pass_through() {
    let t = build_table(
        "User".to_string(),
        vec![
            TableAttr::TableName("users".to_string()),
            TableAttr::Deletable,
            TableAttr::Insertable(None),
        ],
        vec![plain_field("id")],
    )
    .unwrap();
    assert!(t.deletable);
    assert_eq!(t.insertable.as_ref().unwrap().ident, "InsertUser");

    let u = build_table(
        "User".to_string(),
        vec![
            TableAttr::TableName("users".to_string()),
            TableAttr::Insertable(Some("NewUser".to_string())),
        ],
        vec![plain_field("id")],
    )
    .unwrap();
    assert!(!u.deletable);
    assert_eq!(u.insertable.as_ref().unwrap().ident, "NewUser");
}

#[test]
fn error_messages_match_the_reported_texts() {
    let r = build_table(
        "User".to_string(),
        vec![],
        vec![plain_field("id")],
    );
    match r {
        Err(e) => assert_eq!(e.message(), "missing required attribute: table"),
        Ok(_) => panic!("expected a hard error"),
    }

    let dup = build_field(
        "x".to_string(),
        "i64".to_string(),
        vec![FieldAttr::CustomType, FieldAttr::CustomType],
    );
    match dup {
        Err(e) => assert_eq!(e.message(), "duplicate attribute: custom_type"),
        Ok(_) => panic!("expected a hard error"),
    }
}

#[test]
fn advisory_messages_are_warning_texts() {
    let t = build_table(
        "Odd".to_string(),
        vec![TableAttr::TableName("SELECT".to_string())],
        vec![plain_field("id")],
    )
    .unwrap();
    let advs = advisories(&t);
    assert!(advs[0].message().contains("reserved keyword"));
}
