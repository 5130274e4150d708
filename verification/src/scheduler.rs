//! Export planning: which (language, sheet) pairs to export, and the
//! per-task pipeline from a loaded schema and fetched rows to the
//! serialized sheet output.
//!
//! The caller lists the available sheets and, per sheet, its supported
//! languages; the planner filters out non-exportable namespaces and
//! builds the complete task list. A sheet supporting exactly one language
//! becomes a single suffix-free "raw" task; any other sheet becomes one
//! task per enabled target language, each suffixed with its language
//! code. Tasks are independent: the caller may run them in any order or
//! in parallel, as long as each task holds the data source exclusively
//! from setting its language through reading its rows.

use vstd::prelude::*;

use crate::schema::Schema;
use crate::schema::FieldName;
use crate::schema::field_names;
use crate::schema::spec_schema_names;
use crate::schema::views_of;
use crate::serializer::SheetRow;
use crate::serializer::SheetOutput;
use crate::serializer::serialize_sheet;
use crate::serializer::spec_sheet_csv;
use crate::serializer::spec_sheet_json;
use crate::serializer::csv_views;
use crate::serializer::json_views;
use crate::serializer::string_views;
use crate::output::header_names;
use crate::output::spec_header;
use crate::text::str_eq;
use crate::text::str_starts_with;
use crate::text::spec_starts_with;

verus! {

/// A supported content language. `Unspecified` stands for the data
/// source's untranslated / unknown language tag.
#[derive(Debug, Clone, Copy, PartialEq, Eq, Structural)]
pub enum Language {
    English,
    German,
    French,
    Japanese,
    Korean,
    ChineseSimplified,
    ChineseTraditional,
    Unspecified,
}

/// The short code of a language; unknown languages map to `??`.
pub open spec fn spec_language_code(language: Language) -> Seq<char> {
    match language {
        Language::English => "en"@,
        Language::German => "de"@,
        Language::French => "fr"@,
        Language::Japanese => "ja"@,
        Language::Korean => "kr"@,
        Language::ChineseSimplified => "chs"@,
        Language::ChineseTraditional => "cht"@,
        Language::Unspecified => "??"@,
    }
}

/// The short code of a language.
pub fn language_code(language: &Language) -> (r: &'static str)
    ensures
        r@ == spec_language_code(*language),
{
    match language {
        Language::English => "en",
        Language::German => "de",
        Language::French => "fr",
        Language::Japanese => "ja",
        Language::Korean => "kr",
        Language::ChineseSimplified => "chs",
        Language::ChineseTraditional => "cht",
        Language::Unspecified => "??",
    }
}

/// The export configuration: the sheets selected for raw export, the
/// sheets selected for translated export (each list either explicit names
/// or the single wildcard `*`), and the enabled language codes (empty or
/// the single wildcard `*` meaning all).
#[derive(Debug, Clone, PartialEq, Eq)]
pub struct ExportConfig {
    pub raw_sheets: Vec<String>,
    pub translated_sheets: Vec<String>,
    pub languages: Vec<String>,
}

/// Whether a list of strings holds the given one.
pub open spec fn spec_contains_str(v: Seq<Seq<char>>, s: Seq<char>) -> bool {
    exists|i: int| 0 <= i < v.len() && v[i] == s
}

/// Whether a list of strings holds the given one.
pub fn contains_str(v: &Vec<String>, s: &str) -> (r: bool)
    ensures
        r == spec_contains_str(string_views(v@), s@),
{
    let mut i: usize = 0;
    while i < v.len()
        invariant
            i <= v@.len(),
            forall|j: int| 0 <= j < i as int ==> string_views(v@)[j] != s@,
        decreases v@.len() - i,
    {
        if str_eq(v[i].as_str(), s) {
            proof {
                assert(string_views(v@)[i as int] == s@);
            }
            return true;
        }
        i = i + 1;
    }
    false
}

/// Whether a language code is enabled: every code is when the list is
/// empty or the single wildcard `*`, otherwise the code must be listed.
pub open spec fn spec_language_enabled(languages: Seq<Seq<char>>, code: Seq<char>) -> bool {
    ||| languages.len() == 0
    ||| (languages.len() == 1 && languages[0] == "*"@)
    ||| spec_contains_str(languages, code)
}

/// Whether a language code is enabled by the configuration.
pub fn is_language_enabled(code: &str, config: &ExportConfig) -> (r: bool)
    ensures
        r == spec_language_enabled(string_views(config.languages@), code@),
{
    if config.languages.len() == 0 {
        true
    } else if config.languages.len() == 1 && str_eq(config.languages[0].as_str(), "*") {
        proof {
            assert(string_views(config.languages@)[0] == config.languages@[0]@);
        }
        true
    } else {
        contains_str(&config.languages, code)
    }
}

/// Whether a sheet selector matches a sheet: the single wildcard `*`
/// matches everything, otherwise the sheet must be listed.
pub open spec fn spec_selector_matches(selector: Seq<Seq<char>>, name: Seq<char>) -> bool {
    ||| (selector.len() == 1 && selector[0] == "*"@)
    ||| spec_contains_str(selector, name)
}

/// Whether a sheet selector matches a sheet.
pub fn selector_matches(selector: &Vec<String>, name: &str) -> (r: bool)
    ensures
        r == spec_selector_matches(string_views(selector@), name@),
{
    if selector.len() == 1 && str_eq(selector[0].as_str(), "*") {
        proof {
            assert(string_views(selector@)[0] == selector@[0]@);
        }
        true
    } else {
        contains_str(selector, name)
    }
}

/// Whether a sheet lies in a non-exportable namespace.
pub open spec fn spec_denied_sheet(name: Seq<char>) -> bool {
    ||| spec_starts_with(name, "custom/"@)
    ||| spec_starts_with(name, "quest/"@)
    ||| spec_starts_with(name, "cut_scene/"@)
    ||| spec_starts_with(name, "dungeon/"@)
    ||| spec_starts_with(name, "raid/"@)
    ||| spec_starts_with(name, "shop/"@)
    ||| spec_starts_with(name, "story/"@)
    ||| spec_starts_with(name, "guild_order/"@)
    ||| spec_starts_with(name, "content/"@)
    ||| spec_starts_with(name, "opening/"@)
    ||| spec_starts_with(name, "warp/"@)
    ||| spec_starts_with(name, "system/"@)
    ||| spec_starts_with(name, "leve/"@)
    ||| spec_starts_with(name, "transport/"@)
}

/// Whether a sheet lies in a non-exportable namespace.
pub fn denied_sheet(name: &str) -> (r: bool)
    ensures
        r == spec_denied_sheet(name@),
{
    str_starts_with(name, "custom/") || str_starts_with(name, "quest/") || str_starts_with(
        name,
        "cut_scene/",
    ) || str_starts_with(name, "dungeon/") || str_starts_with(name, "raid/") || str_starts_with(
        name,
        "shop/",
    ) || str_starts_with(name, "story/") || str_starts_with(name, "guild_order/")
        || str_starts_with(name, "content/") || str_starts_with(name, "opening/")
        || str_starts_with(name, "warp/") || str_starts_with(name, "system/") || str_starts_with(
        name,
        "leve/",
    ) || str_starts_with(name, "transport/")
}

/// The exportable subset of a sheet list, in order.
pub open spec fn spec_filter_sheets(names: Seq<String>) -> Seq<String>
    decreases names.len(),
{
    if names.len() == 0 {
        Seq::empty()
    } else if spec_denied_sheet(names[0]@) {
        spec_filter_sheets(names.drop_first())
    } else {
        seq![names[0]] + spec_filter_sheets(names.drop_first())
    }
}

/// Drops every sheet that lies in a non-exportable namespace.
pub fn filter_sheets(names: &Vec<String>) -> (r: Vec<String>)
    ensures
        r@ == spec_filter_sheets(names@),
{
    let mut out: Vec<String> = Vec::new();
    let mut i: usize = 0;
    proof {
        assert(names@.skip(0) =~= names@);
    }
    while i < names.len()
        invariant
            i <= names@.len(),
            out@ + spec_filter_sheets(names@.skip(i as int)) =~= spec_filter_sheets(names@),
        decreases names@.len() - i,
    {
        proof {
            assert(names@.skip(i as int)[0] == names@[i as int]);
            assert(names@.skip(i as int).drop_first() =~= names@.skip(i as int + 1));
        }
        if !denied_sheet(names[i].as_str()) {
            out.push(names[i].clone());
        }
        i = i + 1;
    }
    proof {
        assert(spec_filter_sheets(names@.skip(i as int)) =~= Seq::<String>::empty());
        assert(out@ =~= spec_filter_sheets(names@));
    }
    out
}

/// One sheet as the planner sees it: its name and the languages the data
/// source supports for it.
#[derive(Debug, Clone, PartialEq, Eq)]
pub struct SheetEntry {
    pub name: String,
    pub languages: Vec<Language>,
}

/// One planned export: a language, a sheet, and the optional output
/// suffix (the language code, for translated exports).
#[derive(Debug, Clone, PartialEq, Eq)]
pub struct ExportTask {
    pub language: Language,
    pub sheet: String,
    pub suffix: Option<String>,
}

/// Ghost mirror of `ExportTask`.
pub struct TaskView {
    pub language: Language,
    pub sheet: Seq<char>,
    pub suffix: Option<Seq<char>>,
}

impl View for ExportTask {
    type V = TaskView;

    open spec fn view(&self) -> TaskView {
        TaskView {
            language: self.language,
            sheet: self.sheet@,
            suffix: match self.suffix {
                Some(s) => Some(s@),
                None => None,
            },
        }
    }
}

/// The views of a task list.
pub open spec fn task_views(v: Seq<ExportTask>) -> Seq<TaskView> {
    v.map_values(|t: ExportTask| t@)
}

/// The translated-export task for one target language, when its code is
/// enabled: the task carries the code as its output suffix.
pub open spec fn spec_lang_task(
    language: Language,
    sheet: Seq<char>,
    languages: Seq<Seq<char>>,
) -> Seq<TaskView> {
    if spec_language_enabled(languages, spec_language_code(language)) {
        seq![
            TaskView { language, sheet, suffix: Some(spec_language_code(language)) },
        ]
    } else {
        Seq::empty()
    }
}

/// The translated-export tasks of one sheet: one per enabled target
/// language, in the fixed target order.
pub open spec fn spec_lang_tasks(sheet: Seq<char>, languages: Seq<Seq<char>>) -> Seq<TaskView> {
    spec_lang_task(Language::English, sheet, languages) + spec_lang_task(
        Language::German,
        sheet,
        languages,
    ) + spec_lang_task(Language::French, sheet, languages) + spec_lang_task(
        Language::Japanese,
        sheet,
        languages,
    )
}

/// The tasks of one sheet: a sheet with exactly one supported language is
/// a raw export (a single suffix-free task in that language, when the raw
/// selector matches); any other sheet is a translated export (one task
/// per enabled target language, when the translated selector matches).
pub open spec fn spec_sheet_tasks(
    entry: SheetEntry,
    raw: Seq<Seq<char>>,
    translated: Seq<Seq<char>>,
    languages: Seq<Seq<char>>,
) -> Seq<TaskView> {
    if entry.languages@.len() == 1 {
        if spec_selector_matches(raw, entry.name@) {
            seq![
                TaskView { language: entry.languages@[0], sheet: entry.name@, suffix: None },
            ]
        } else {
            Seq::empty()
        }
    } else {
        if spec_selector_matches(translated, entry.name@) {
            spec_lang_tasks(entry.name@, languages)
        } else {
            Seq::empty()
        }
    }
}

/// The complete task plan over a sheet list, in sheet order.
pub open spec fn spec_plan(
    entries: Seq<SheetEntry>,
    raw: Seq<Seq<char>>,
    translated: Seq<Seq<char>>,
    languages: Seq<Seq<char>>,
) -> Seq<TaskView>
    decreases entries.len(),
{
    if entries.len() == 0 {
        Seq::empty()
    } else {
        spec_sheet_tasks(entries[0], raw, translated, languages) + spec_plan(
            entries.drop_first(),
            raw,
            translated,
            languages,
        )
    }
}

/// Builds the translated-export task for one target language, when its
/// code passes the language allow-list.
fn maybe_lang_task(language: Language, sheet: &String, config: &ExportConfig) -> (r: Option<
    ExportTask,
>)
    ensures
        match r {
            Some(t) => spec_lang_task(language, sheet@, string_views(config.languages@)) == seq![
                t@,
            ],
            None => spec_lang_task(language, sheet@, string_views(config.languages@))
                == Seq::<TaskView>::empty(),
        },
{
    let code = language_code(&language);
    if is_language_enabled(code, config) {
        Some(
            ExportTask {
                language,
                sheet: sheet.clone(),
                suffix: Some(String::from_str(code)),
            },
        )
    } else {
        None
    }
}

/// Plans the complete export task list for the given sheets.
pub fn plan_tasks(entries: &Vec<SheetEntry>, config: &ExportConfig) -> (r: Vec<ExportTask>)
    ensures
        task_views(r@) == spec_plan(
            entries@,
            string_views(config.raw_sheets@),
            string_views(config.translated_sheets@),
            string_views(config.languages@),
        ),
{
    let ghost raw = string_views(config.raw_sheets@);
    let ghost translated = string_views(config.translated_sheets@);
    let ghost languages = string_views(config.languages@);
    let mut tasks: Vec<ExportTask> = Vec::new();
    let mut i: usize = 0;
    proof {
        assert(entries@.skip(0) =~= entries@);
        assert(task_views(tasks@) =~= Seq::<TaskView>::empty());
    }
    while i < entries.len()
        invariant
            i <= entries@.len(),
            task_views(tasks@) + spec_plan(entries@.skip(i as int), raw, translated, languages)
                =~= spec_plan(entries@, raw, translated, languages),
        decreases entries@.len() - i,
    {
        proof {
            assert(entries@.skip(i as int)[0] == entries@[i as int]);
            assert(entries@.skip(i as int).drop_first() =~= entries@.skip(i as int + 1));
        }
        let entry = &entries[i];
        let ghost tasks0 = task_views(tasks@);
        if entry.languages.len() == 1 {
            if selector_matches(&config.raw_sheets, entry.name.as_str()) {
                let task = ExportTask {
                    language: entry.languages[0],
                    sheet: entry.name.clone(),
                    suffix: None,
                };
                tasks.push(task);
                proof {
                    lemma_task_views_push(tasks@.drop_last(), tasks@.last());
                }
            }
        } else {
            if selector_matches(&config.translated_sheets, entry.name.as_str()) {
                push_maybe(&mut tasks, maybe_lang_task(Language::English, &entry.name, config));
                push_maybe(&mut tasks, maybe_lang_task(Language::German, &entry.name, config));
                push_maybe(&mut tasks, maybe_lang_task(Language::French, &entry.name, config));
                push_maybe(&mut tasks, maybe_lang_task(Language::Japanese, &entry.name, config));
                proof {
                    assert(task_views(tasks@) =~= tasks0 + spec_lang_tasks(
                        entries@[i as int].name@,
                        languages,
                    ));
                }
            }
        }
        proof {
            assert(task_views(tasks@) =~= tasks0 + spec_sheet_tasks(
                entries@[i as int],
                raw,
                translated,
                languages,
            ));
        }
        i = i + 1;
    }
    proof {
        assert(spec_plan(entries@.skip(i as int), raw, translated, languages) =~= Seq::<
            TaskView,
        >::empty());
        assert(task_views(tasks@) =~= spec_plan(entries@, raw, translated, languages));
    }
    tasks
}

proof fn lemma_task_views_push(v: Seq<ExportTask>, t: ExportTask)
    ensures
        task_views(v.push(t)) =~= task_views(v).push(t@),
{
}

/// Appends a planned task, when there is one.
fn push_maybe(tasks: &mut Vec<ExportTask>, task: Option<ExportTask>)
    ensures
        task_views(final(tasks)@) == match task {
            Some(t) => task_views(old(tasks)@).push(t@),
            None => task_views(old(tasks)@),
        },
{
    let ghost tasks0 = tasks@;
    match task {
        Some(t) => {
            tasks.push(t);
            proof {
                lemma_task_views_push(tasks0, tasks@.last());
            }
        },
        None => {},
    }
}

/// Why one export task failed.
#[derive(Debug, Clone, Copy, PartialEq, Eq, Structural)]
pub enum ExportError {
    SchemaNotFound,
    SchemaMalformed,
    DataSourceError,
    OutputIoError,
}

/// The short description of an export error.
pub open spec fn spec_error_label(e: ExportError) -> Seq<char> {
    match e {
        ExportError::SchemaNotFound => "schema not found"@,
        ExportError::SchemaMalformed => "schema malformed"@,
        ExportError::DataSourceError => "data source error"@,
        ExportError::OutputIoError => "output write error"@,
    }
}

impl ExportError {
    /// The short description of the error, for reporting.
    pub fn label(&self) -> (r: &'static str)
        ensures
            r@ == spec_error_label(*self),
    {
        match self {
            ExportError::SchemaNotFound => "schema not found",
            ExportError::SchemaMalformed => "schema malformed",
            ExportError::DataSourceError => "data source error",
            ExportError::OutputIoError => "output write error",
        }
    }
}

/// The fully serialized output of one export task.
#[derive(Debug)]
pub struct SheetExport {
    pub header: Vec<String>,
    pub body: SheetOutput,
}

/// Runs the serialization pipeline of one task on plain values: resolves
/// the schema's descriptors and serializes every row. Fails exactly when
/// no schema was found for the sheet; the caller turns its own read and
/// write failures into the other error kinds.
pub fn export_sheet(schema: &Option<Schema>, has_subrows: bool, rows: &Vec<SheetRow>) -> (r: Result<
    SheetExport,
    ExportError,
>)
    requires
        forall|i: int| 0 <= i < rows@.len() ==> (#[trigger] rows@[i]).cells@.len() < usize::MAX,
    ensures
        match *schema {
            None => r == Result::<SheetExport, ExportError>::Err(ExportError::SchemaNotFound),
            Some(s) => match r {
                Ok(out) => {
                    &&& string_views(out.header@) == spec_header(spec_schema_names(s))
                    &&& csv_views(out.body.csv_rows@) == spec_sheet_csv(
                        spec_schema_names(s),
                        has_subrows,
                        rows@,
                    )
                    &&& json_views(out.body.json_rows@) == spec_sheet_json(
                        spec_schema_names(s),
                        has_subrows,
                        rows@,
                    )
                },
                Err(_) => false,
            },
        },
{
    match schema {
        None => Err(ExportError::SchemaNotFound),
        Some(s) => {
            let names: Vec<FieldName> = field_names(s);
            proof {
                assert(views_of(names@).len() >= 1);
                assert(names@.len() == views_of(names@).len());
            }
            let header = header_names(&names);
            let body = serialize_sheet(&names, has_subrows, rows);
            Ok(SheetExport { header, body })
        },
    }
}

} // verus!
