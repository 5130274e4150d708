use exd_export::schema::{array_keys, field_names, latest_name, parse_field_names, Field, FieldKind, FieldName, Schema};

fn named(name: &str, kind: FieldKind, count: Option<u32>) -> Field {
    Field { name: Some(name.to_string()), pending_name: None, kind, count }
}

#[test]
fn default_kind_is_scalar() {
    assert_eq!(FieldKind::default(), FieldKind::Scalar);
}

#[test]
fn latest_name_prefers_pending() {
    let f = Field {
        name: Some("Old".to_string()),
        pending_name: Some("New".to_string()),
        kind: FieldKind::Scalar,
        count: None,
    };
    assert_eq!(latest_name(&f), "New");
    let f = Field { name: Some("Old".to_string()), pending_name: None, kind: FieldKind::Scalar, count: None };
    assert_eq!(latest_name(&f), "Old");
    let f = Field { name: None, pending_name: None, kind: FieldKind::Scalar, count: None };
    assert_eq!(latest_name(&f), "Unknown");
}

#[test]
fn array_keys_count_three_in_order() {
    let f = named("Tag", FieldKind::Array, Some(3));
    assert_eq!(array_keys(&f), vec!["0".to_string(), "1".to_string(), "2".to_string()]);
}

#[test]
fn array_keys_absent_count_is_empty() {
    let f = named("Tag", FieldKind::Array, None);
    assert_eq!(array_keys(&f), Vec::<String>::new());
}

#[test]
fn leading_descriptor_is_row_id() {
    let names = parse_field_names(&vec![named("Name", FieldKind::Scalar, None)]);
    assert_eq!(names[0], FieldName::Simple("#".to_string()));
    assert_eq!(names.len(), 2);
    assert_eq!(names[1], FieldName::Simple("Name".to_string()));
}

#[test]
fn unnamed_field_becomes_positional_col() {
    let fields = vec![
        named("First", FieldKind::Scalar, None),
        Field { name: None, pending_name: None, kind: FieldKind::Scalar, count: None },
        Field { name: Some("Unknown".to_string()), pending_name: None, kind: FieldKind::Scalar, count: None },
    ];
    let names = parse_field_names(&fields);
    // 1-based output positions: First at 1, the unnamed field at 2, the
    // explicitly Unknown-named field at 3.
    assert_eq!(names[2], FieldName::Simple("col_2".to_string()));
    assert_eq!(names[3], FieldName::Simple("col_3".to_string()));
    // The same schema resolves to the same names again.
    assert_eq!(parse_field_names(&fields), names);
}

#[test]
fn array_field_expands_with_keys() {
    let fields = vec![named("Tag", FieldKind::Array, Some(2))];
    let names = parse_field_names(&fields);
    assert_eq!(
        names[1],
        FieldName::Array("Tag".to_string(), vec!["0".to_string(), "1".to_string()])
    );
}

#[test]
fn pending_fields_supersede_stable_fields() {
    let schema = Schema {
        fields: vec![named("StableA", FieldKind::Scalar, None), named("StableB", FieldKind::Scalar, None)],
        pending_fields: Some(vec![named("PendingOnly", FieldKind::Scalar, None)]),
    };
    let names = field_names(&schema);
    assert_eq!(names.len(), 2);
    assert_eq!(names[1], FieldName::Simple("PendingOnly".to_string()));
    for n in &names {
        if let FieldName::Simple(s) = n {
            assert!(!s.starts_with("Stable"));
        }
    }
}

#[test]
fn no_pending_fields_uses_stable_fields() {
    let schema = Schema {
        fields: vec![named("OnlyStable", FieldKind::Scalar, None)],
        pending_fields: None,
    };
    let names = field_names(&schema);
    assert_eq!(names[1], FieldName::Simple("OnlyStable".to_string()));
}

#[test]
fn pending_name_override_applies_per_field() {
    let fields = vec![Field {
        name: Some("Old".to_string()),
        pending_name: Some("New".to_string()),
        kind: FieldKind::Icon,
        count: None,
    }];
    let names = parse_field_names(&fields);
    assert_eq!(names[1], FieldName::Simple("New".to_string()));
}
