use exd_export::output::{csv_path, flattened_width, header_names, json_path, output_base_name};
use exd_export::schema::FieldName;
use exd_export::scheduler::{
    filter_sheets, is_language_enabled, language_code, plan_tasks, selector_matches, ExportConfig,
    ExportError, ExportTask, Language, SheetEntry,
};

fn config(raw: &[&str], translated: &[&str], languages: &[&str]) -> ExportConfig {
    ExportConfig {
        raw_sheets: raw.iter().map(|s| s.to_string()).collect(),
        translated_sheets: translated.iter().map(|s| s.to_string()).collect(),
        languages: languages.iter().map(|s| s.to_string()).collect(),
    }
}

#[test]
fn language_codes_exact() {
    assert_eq!(language_code(&Language::English), "en");
    assert_eq!(language_code(&Language::German), "de");
    assert_eq!(language_code(&Language::French), "fr");
    assert_eq!(language_code(&Language::Japanese), "ja");
    assert_eq!(language_code(&Language::Korean), "kr");
    assert_eq!(language_code(&Language::ChineseSimplified), "chs");
    assert_eq!(language_code(&Language::ChineseTraditional), "cht");
    assert_eq!(language_code(&Language::Unspecified), "??");
}

#[test]
fn language_allow_list() {
    let all = config(&[], &[], &[]);
    assert!(is_language_enabled("en", &all));
    let wild = config(&[], &[], &["*"]);
    assert!(is_language_enabled("ja", &wild));
    let some = config(&[], &[], &["en", "de"]);
    assert!(is_language_enabled("de", &some));
    assert!(!is_language_enabled("fr", &some));
}

#[test]
fn selector_wildcard_and_membership() {
    let star = vec!["*".to_string()];
    assert!(selector_matches(&star, "anything"));
    let listed = vec!["item".to_string(), "action".to_string()];
    assert!(selector_matches(&listed, "action"));
    assert!(!selector_matches(&listed, "status"));
    // Two entries, one of them "*": no wildcard, plain membership.
    let two = vec!["*".to_string(), "item".to_string()];
    assert!(selector_matches(&two, "item"));
    assert!(!selector_matches(&two, "status"));
}

#[test]
fn denylisted_namespaces_are_dropped() {
    let names = vec![
        "action".to_string(),
        "quest/001".to_string(),
        "custom/000/test".to_string(),
        "item".to_string(),
        "transport/route".to_string(),
    ];
    assert_eq!(filter_sheets(&names), vec!["action".to_string(), "item".to_string()]);
}

#[test]
fn single_language_sheet_plans_one_raw_task() {
    let entries = vec![SheetEntry { name: "item".to_string(), languages: vec![Language::Unspecified] }];
    let tasks = plan_tasks(&entries, &config(&["*"], &["*"], &[]));
    assert_eq!(
        tasks,
        vec![ExportTask { language: Language::Unspecified, sheet: "item".to_string(), suffix: None }]
    );
}

#[test]
fn raw_task_requires_raw_selector_match() {
    let entries = vec![SheetEntry { name: "item".to_string(), languages: vec![Language::English] }];
    let tasks = plan_tasks(&entries, &config(&["other"], &["*"], &[]));
    assert_eq!(tasks, Vec::<ExportTask>::new());
}

#[test]
fn multi_language_sheet_plans_suffixed_tasks() {
    let entries = vec![SheetEntry {
        name: "action".to_string(),
        languages: vec![Language::English, Language::German],
    }];
    let tasks = plan_tasks(&entries, &config(&["*"], &["*"], &[]));
    let expect = |l: Language, code: &str| ExportTask {
        language: l,
        sheet: "action".to_string(),
        suffix: Some(code.to_string()),
    };
    assert_eq!(
        tasks,
        vec![
            expect(Language::English, "en"),
            expect(Language::German, "de"),
            expect(Language::French, "fr"),
            expect(Language::Japanese, "ja"),
        ]
    );
}

#[test]
fn allow_list_restricts_translated_tasks() {
    let entries = vec![SheetEntry {
        name: "action".to_string(),
        languages: vec![Language::English, Language::German],
    }];
    let tasks = plan_tasks(&entries, &config(&["*"], &["*"], &["en", "ja"]));
    assert_eq!(tasks.len(), 2);
    assert_eq!(tasks[0].language, Language::English);
    assert_eq!(tasks[1].language, Language::Japanese);
}

#[test]
fn translated_selector_gates_multi_language_sheets() {
    let entries = vec![SheetEntry {
        name: "action".to_string(),
        languages: vec![Language::English, Language::German],
    }];
    let tasks = plan_tasks(&entries, &config(&["*"], &["status"], &[]));
    assert_eq!(tasks, Vec::<ExportTask>::new());
}

#[test]
fn header_flattens_array_descriptors() {
    let names = vec![
        FieldName::Simple("#".to_string()),
        FieldName::Simple("Name".to_string()),
        FieldName::Array("Tag".to_string(), vec!["0".to_string(), "1".to_string()]),
    ];
    assert_eq!(
        header_names(&names),
        vec!["#".to_string(), "Name".to_string(), "Tag.0".to_string(), "Tag.1".to_string()]
    );
}

#[test]
fn output_paths_are_deterministic() {
    assert_eq!(output_base_name(&"item".to_string(), &None), "output/item");
    assert_eq!(output_base_name(&"item".to_string(), &Some("en".to_string())), "output/item.en");
    assert_eq!(csv_path(&"item".to_string(), &None), "output/item.csv");
    assert_eq!(json_path(&"item".to_string(), &Some("de".to_string())), "output/item.de.json");
}

#[test]
fn error_labels() {
    assert_eq!(ExportError::SchemaNotFound.label(), "schema not found");
    assert_eq!(ExportError::SchemaMalformed.label(), "schema malformed");
    assert_eq!(ExportError::DataSourceError.label(), "data source error");
    assert_eq!(ExportError::OutputIoError.label(), "output write error");
}

#[test]
fn flattened_width_counts_covered_columns() {
    let names = vec![
        FieldName::Simple("#".to_string()),
        FieldName::Simple("Name".to_string()),
        FieldName::Array("Tag".to_string(), vec!["0".to_string(), "1".to_string()]),
        FieldName::Array("Empty".to_string(), vec![]),
    ];
    // The synthetic row-id column consumes no data column.
    assert_eq!(flattened_width(&names), 3);
}
