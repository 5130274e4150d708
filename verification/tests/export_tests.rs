use exd_export::schema::{Field, FieldKind, Schema};
use exd_export::scheduler::{export_sheet, ExportError};
use exd_export::serializer::{CellValue, RecordValue, SheetRow};
use rayon::iter::{IntoParallelIterator, ParallelIterator};
use std::sync::atomic::{AtomicUsize, Ordering};

fn named(name: &str, kind: FieldKind, count: Option<u32>) -> Field {
    Field { name: Some(name.to_string()), pending_name: None, kind, count }
}

fn two_column_schema() -> Schema {
    Schema {
        fields: vec![named("Name", FieldKind::Scalar, None), named("Tag", FieldKind::Array, Some(2))],
        pending_fields: None,
    }
}

fn row(id: u32, name: &str, tags: [&str; 2]) -> SheetRow {
    SheetRow {
        row_id: id,
        subrow_id: 0,
        cells: vec![
            CellValue::Rendered(name.to_string()),
            CellValue::Rendered(tags[0].to_string()),
            CellValue::Rendered(tags[1].to_string()),
        ],
    }
}

#[test]
fn end_to_end_two_rows() {
    let schema = Some(two_column_schema());
    let rows = vec![row(1, "Foo", ["a", "b"]), row(2, "Bar", ["c", "d"])];
    let out = export_sheet(&schema, false, &rows).unwrap();

    assert_eq!(
        out.header,
        vec!["#".to_string(), "Name".to_string(), "Tag.0".to_string(), "Tag.1".to_string()]
    );
    assert_eq!(
        out.body.csv_rows,
        vec![
            vec!["1".to_string(), "Foo".to_string(), "a".to_string(), "b".to_string()],
            vec!["2".to_string(), "Bar".to_string(), "c".to_string(), "d".to_string()],
        ]
    );

    assert_eq!(out.body.json_rows.len(), 2);
    let (key, body) = &out.body.json_rows[0];
    assert_eq!(key, "1");
    assert!(body.entries.iter().all(|e| e.0 != "#"));
    assert_eq!(body.entries[0], ("Name".to_string(), RecordValue::Single("Foo".to_string())));
    assert_eq!(
        body.entries[1],
        (
            "Tag".to_string(),
            RecordValue::Group(vec![
                ("0".to_string(), "a".to_string()),
                ("1".to_string(), "b".to_string()),
            ])
        )
    );
    let (key, body) = &out.body.json_rows[1];
    assert_eq!(key, "2");
    assert_eq!(body.entries[0], ("Name".to_string(), RecordValue::Single("Bar".to_string())));
    assert_eq!(
        body.entries[1],
        (
            "Tag".to_string(),
            RecordValue::Group(vec![
                ("0".to_string(), "c".to_string()),
                ("1".to_string(), "d".to_string()),
            ])
        )
    );
}

#[test]
fn subrow_sheet_keys_by_dotted_id() {
    let schema = Some(Schema { fields: vec![named("V", FieldKind::Scalar, None)], pending_fields: None });
    let rows = vec![SheetRow { row_id: 3, subrow_id: 1, cells: vec![CellValue::U8(9)] }];
    let out = export_sheet(&schema, true, &rows).unwrap();
    assert_eq!(out.body.json_rows[0].0, "3.1");
    assert_eq!(out.body.csv_rows[0][0], "3.1");
}

#[test]
fn missing_schema_fails_with_schema_not_found() {
    let rows = vec![row(1, "Foo", ["a", "b"])];
    let r = export_sheet(&None, false, &rows);
    assert!(matches!(r, Err(ExportError::SchemaNotFound)));
}

#[test]
fn failing_task_does_not_disturb_siblings() {
    let n: usize = 16;
    let failing: usize = 5;
    let progress = AtomicUsize::new(0);

    let results: Vec<_> = (0..n)
        .into_par_iter()
        .map(|k| {
            let schema = if k == failing { None } else { Some(two_column_schema()) };
            let rows = vec![row(k as u32, "Foo", ["a", "b"])];
            let outcome = export_sheet(&schema, false, &rows);
            progress.fetch_add(1, Ordering::SeqCst);
            outcome
        })
        .collect();

    assert_eq!(progress.load(Ordering::SeqCst), n);
    for (k, outcome) in results.iter().enumerate() {
        if k == failing {
            assert!(matches!(outcome, Err(ExportError::SchemaNotFound)));
        } else {
            let out = outcome.as_ref().unwrap();
            assert_eq!(out.header.len(), 4);
            assert_eq!(out.body.csv_rows.len(), 1);
            assert_eq!(out.body.csv_rows[0][0], k.to_string());
            assert_eq!(out.body.json_rows[0].0, k.to_string());
        }
    }
}
