//! Row serialization: zipping resolved field descriptors against a row's
//! offset-sorted cell values to build one ordered output record per row.
//!
//! The caller fetches a row's cells from the data source in ascending
//! column-offset order and converts each to a plain typed value; string
//! cells arrive as decoded rich-text event sequences. The walk below
//! consumes cells with a running cursor, in descriptor order: a simple
//! descriptor takes one cell, an array descriptor takes one cell per
//! sub-key. A row shorter than the descriptor list is tolerated: a simple
//! descriptor past the last cell stops the walk, an array descriptor
//! yields the sub-columns still covered.

use vstd::prelude::*;

use crate::formatter::TextEvent;
use crate::formatter::fmt_run;
use crate::formatter::format_string;
use crate::numfmt::dec_int;
use crate::numfmt::dec_nat;
use crate::numfmt::i64_to_string;
use crate::numfmt::u64_to_string;
use crate::schema::FieldName;
use crate::schema::FieldNameView;
use crate::schema::spec_col_name;
use crate::schema::col_name;
use crate::schema::views_of;
use crate::text::spec_starts_with;
use crate::text::str_starts_with;

verus! {

/// One typed cell value read from the data source, in the form the
/// library works on. String cells carry their decoded rich-text events;
/// `Rendered` carries text the caller has already made final (used for
/// value types the library does not model, such as floating-point cells).
#[derive(Debug, Clone, PartialEq, Eq)]
pub enum CellValue {
    Bool(bool),
    I8(i8),
    I16(i16),
    I32(i32),
    I64(i64),
    U8(u8),
    U16(u16),
    U32(u32),
    U64(u64),
    Text(Vec<TextEvent>),
    Rendered(String),
}

/// The canonical textual form of one cell: decimal for numbers, `true` /
/// `false` for booleans, the formatted markup for rich-text cells, and
/// the given text for pre-rendered cells.
pub open spec fn cell_string(c: CellValue) -> Seq<char> {
    match c {
        CellValue::Bool(v) => if v {
            "true"@
        } else {
            "false"@
        },
        CellValue::I8(v) => dec_int(v as int),
        CellValue::I16(v) => dec_int(v as int),
        CellValue::I32(v) => dec_int(v as int),
        CellValue::I64(v) => dec_int(v as int),
        CellValue::U8(v) => dec_nat(v as nat),
        CellValue::U16(v) => dec_nat(v as nat),
        CellValue::U32(v) => dec_nat(v as nat),
        CellValue::U64(v) => dec_nat(v as nat),
        CellValue::Text(events) => fmt_run(events@).buffer,
        CellValue::Rendered(s) => s@,
    }
}

/// Converts one cell to its canonical textual form.
pub fn field_to_string(field: &CellValue) -> (r: String)
    ensures
        r@ == cell_string(*field),
{
    match field {
        CellValue::Bool(v) => if *v {
            String::from_str("true")
        } else {
            String::from_str("false")
        },
        CellValue::I8(v) => i64_to_string(*v as i64),
        CellValue::I16(v) => i64_to_string(*v as i64),
        CellValue::I32(v) => i64_to_string(*v as i64),
        CellValue::I64(v) => i64_to_string(*v),
        CellValue::U8(v) => u64_to_string(*v as u64),
        CellValue::U16(v) => u64_to_string(*v as u64),
        CellValue::U32(v) => u64_to_string(*v as u64),
        CellValue::U64(v) => u64_to_string(*v),
        CellValue::Text(events) => format_string(events),
        CellValue::Rendered(s) => s.clone(),
    }
}

/// The row identifier string: `<rowId>.<subrowId>` on a sheet with
/// subrows, plain `<rowId>` otherwise.
pub open spec fn spec_row_id(has_subrows: bool, row_id: nat, subrow_id: nat) -> Seq<char> {
    if has_subrows {
        dec_nat(row_id) + "."@ + dec_nat(subrow_id)
    } else {
        dec_nat(row_id)
    }
}

/// Formats a row identifier.
pub fn format_row_id(has_subrows: bool, row_id: u32, subrow_id: u16) -> (r: String)
    ensures
        r@ == spec_row_id(has_subrows, row_id as nat, subrow_id as nat),
{
    if has_subrows {
        proof {
            reveal_strlit(".");
        }
        u64_to_string(row_id as u64).concat(".").concat(u64_to_string(subrow_id as u64).as_str())
    } else {
        u64_to_string(row_id as u64)
    }
}

/// Whether a resolved name still carries the unknown placeholder pattern:
/// a semantically empty name the schema declared syntactically.
pub open spec fn placeholder_pattern(name: Seq<char>) -> bool {
    spec_starts_with(name, "Unknown"@)
}

/// The name actually emitted for a field at 1-based output position
/// `pos`: placeholder-patterned names are rewritten to `col_<pos>`.
pub open spec fn out_name(name: Seq<char>, pos: nat) -> Seq<char> {
    if placeholder_pattern(name) {
        spec_col_name(pos)
    } else {
        name
    }
}

/// Rewrites a placeholder-patterned name to its positional `col_<pos>`
/// name; any other name passes through unchanged.
pub fn emit_name(name: &String, pos: usize) -> (r: String)
    ensures
        r@ == out_name(name@, pos as nat),
{
    if str_starts_with(name.as_str(), "Unknown") {
        col_name(pos)
    } else {
        name.clone()
    }
}

/// One value of an output record: a single cell's text, or a named group
/// of sub-key/text pairs produced by an array descriptor.
#[derive(Debug, Clone, PartialEq, Eq)]
pub enum RecordValue {
    Single(String),
    Group(Vec<(String, String)>),
}

/// Ghost mirror of `RecordValue`.
pub enum RecordValueView {
    Single(Seq<char>),
    Group(Seq<(Seq<char>, Seq<char>)>),
}

/// The views of a sequence of string pairs.
pub open spec fn pair_views(pairs: Seq<(String, String)>) -> Seq<(Seq<char>, Seq<char>)> {
    pairs.map_values(|p: (String, String)| (p.0@, p.1@))
}

impl View for RecordValue {
    type V = RecordValueView;

    open spec fn view(&self) -> RecordValueView {
        match self {
            RecordValue::Single(s) => RecordValueView::Single(s@),
            RecordValue::Group(pairs) => RecordValueView::Group(pair_views(pairs@)),
        }
    }
}

impl RecordValue {
    /// An equal-view copy of the value.
    pub fn duplicate(&self) -> (r: Self)
        ensures
            r@ == self@,
    {
        match self {
            RecordValue::Single(s) => RecordValue::Single(s.clone()),
            RecordValue::Group(pairs) => {
                let mut out: Vec<(String, String)> = Vec::new();
                let mut i: usize = 0;
                while i < pairs.len()
                    invariant
                        i <= pairs@.len(),
                        pair_views(out@) =~= pair_views(pairs@).take(i as int),
                    decreases pairs@.len() - i,
                {
                    let pair = &pairs[i];
                    out.push((pair.0.clone(), pair.1.clone()));
                    proof {
                        assert(pair_views(out@) =~= pair_views(pairs@).take(i as int + 1));
                    }
                    i = i + 1;
                }
                proof {
                    assert(pair_views(out@) =~= pair_views(pairs@));
                }
                RecordValue::Group(out)
            },
        }
    }
}

/// One exported row: an ordered list of name/value entries.
#[derive(Debug, Clone, PartialEq, Eq)]
pub struct Record {
    pub entries: Vec<(String, RecordValue)>,
}

/// The view of a record: its entries over character sequences.
pub type RecordView = Seq<(Seq<char>, RecordValueView)>;

impl View for Record {
    type V = RecordView;

    open spec fn view(&self) -> RecordView {
        self.entries@.map_values(|e: (String, RecordValue)| (e.0@, e.1@))
    }
}

/// How many cells an array descriptor starting at `cursor` covers: one
/// per sub-key, bounded by the cells still available.
pub open spec fn group_len(keys_len: int, cells_len: int, cursor: int) -> int {
    let avail: int = if cells_len - cursor > 0 {
        cells_len - cursor
    } else {
        0
    };
    if keys_len <= avail {
        keys_len
    } else {
        avail
    }
}

/// The sub-key/text pairs of an array descriptor starting at `cursor`.
pub open spec fn spec_group(keys: Seq<Seq<char>>, cells: Seq<CellValue>, cursor: int) -> Seq<
    (Seq<char>, Seq<char>),
> {
    Seq::new(
        group_len(keys.len() as int, cells.len() as int, cursor) as nat,
        |j: int| (keys[j], cell_string(cells[cursor + j])),
    )
}

/// The record entries produced by walking the descriptors `ds` (the
/// leading row-id descriptor already removed) against `cells` from
/// position `cursor`. A simple descriptor past the last cell ends the
/// walk; an array descriptor emits the sub-columns still covered and the
/// walk goes on.
pub open spec fn spec_row_entries(
    ds: Seq<FieldNameView>,
    cells: Seq<CellValue>,
    cursor: int,
) -> RecordView
    decreases ds.len(),
{
    if ds.len() == 0 {
        Seq::empty()
    } else {
        match ds[0] {
            FieldNameView::Simple(name) => if cursor >= cells.len() {
                Seq::empty()
            } else {
                seq![
                    (
                        out_name(name, (cursor + 1) as nat),
                        RecordValueView::Single(cell_string(cells[cursor])),
                    ),
                ] + spec_row_entries(ds.drop_first(), cells, cursor + 1)
            },
            FieldNameView::Array(name, keys) => seq![
                (
                    out_name(name, (cursor + 1) as nat),
                    RecordValueView::Group(spec_group(keys, cells, cursor)),
                ),
            ] + spec_row_entries(
                ds.drop_first(),
                cells,
                cursor + group_len(keys.len() as int, cells.len() as int, cursor),
            ),
        }
    }
}

/// The cursor position after the walk: how many cells the descriptors
/// consume in all.
pub open spec fn spec_final_cursor(ds: Seq<FieldNameView>, cells_len: int, cursor: int) -> int
    decreases ds.len(),
{
    if ds.len() == 0 {
        cursor
    } else {
        match ds[0] {
            FieldNameView::Simple(_) => if cursor >= cells_len {
                cursor
            } else {
                spec_final_cursor(ds.drop_first(), cells_len, cursor + 1)
            },
            FieldNameView::Array(_, keys) => spec_final_cursor(
                ds.drop_first(),
                cells_len,
                cursor + group_len(keys.len() as int, cells_len, cursor),
            ),
        }
    }
}

/// The full record of one row: the row id under the leading descriptor's
/// name (when that descriptor is simple, as it always is for resolved
/// schemas), then the walked entries.
pub open spec fn spec_record(ds: Seq<FieldNameView>, id: Seq<char>, cells: Seq<CellValue>) -> RecordView
    recommends
        ds.len() >= 1,
{
    let head: RecordView = match ds[0] {
        FieldNameView::Simple(name) => seq![(name, RecordValueView::Single(id))],
        FieldNameView::Array(_, _) => Seq::empty(),
    };
    head + spec_row_entries(ds.drop_first(), cells, 0)
}

/// The canonical textual forms of a sequence of cells.
pub open spec fn cell_strings(cells: Seq<CellValue>) -> Seq<Seq<char>> {
    cells.map_values(|c: CellValue| cell_string(c))
}

/// The textual cells of one CSV data row: the row id, then every consumed
/// cell's text in consumption order.
pub open spec fn spec_csv_row(ds: Seq<FieldNameView>, id: Seq<char>, cells: Seq<CellValue>) -> Seq<
    Seq<char>,
>
    recommends
        ds.len() >= 1,
{
    seq![id] + cell_strings(cells.take(spec_final_cursor(ds.drop_first(), cells.len() as int, 0)))
}

/// The views of a sequence of strings.
pub open spec fn string_views(v: Seq<String>) -> Seq<Seq<char>> {
    v.map_values(|s: String| s@)
}

pub(crate) proof fn lemma_string_views_push(v: Seq<String>, s: String)
    ensures
        string_views(v.push(s)) =~= string_views(v).push(s@),
{
}

proof fn lemma_cell_strings_take_succ(cells: Seq<CellValue>, i: int)
    requires
        0 <= i < cells.len(),
    ensures
        cell_strings(cells.take(i + 1)) =~= cell_strings(cells.take(i)).push(cell_string(cells[i])),
{
    assert(cells.take(i + 1) =~= cells.take(i).push(cells[i]));
}

/// Serializes one row: walks the descriptors against the row's cells and
/// returns the CSV data row and the ordered output record.
pub fn serialize_row(names: &Vec<FieldName>, id: &String, cells: &Vec<CellValue>) -> (r: (
    Vec<String>,
    Record,
))
    requires
        names@.len() >= 1,
        cells@.len() < usize::MAX,
    ensures
        string_views(r.0@) == spec_csv_row(views_of(names@), id@, cells@),
        r.1@ == spec_record(views_of(names@), id@, cells@),
{
    let ghost ds = views_of(names@);
    let mut csv: Vec<String> = Vec::new();
    csv.push(id.clone());
    let mut entries: Vec<(String, RecordValue)> = Vec::new();
    match &names[0] {
        FieldName::Simple(id_name) => {
            entries.push((id_name.clone(), RecordValue::Single(id.clone())));
        },
        FieldName::Array(_, _) => {},
    }
    let mut cursor: usize = 0;
    let mut k: usize = 1;
    proof {
        assert(ds[0] == names@[0]@);
        assert(ds.drop_first() =~= ds.skip(1));
    }
    while k < names.len()
        invariant
            1 <= k <= names@.len(),
            cursor <= cells@.len(),
            entries@.map_values(|e: (String, RecordValue)| (e.0@, e.1@)) + spec_row_entries(
                ds.skip(k as int),
                cells@,
                cursor as int,
            ) =~= spec_record(ds, id@, cells@),
            string_views(csv@) =~= seq![id@] + cell_strings(cells@.take(cursor as int)),
            spec_final_cursor(ds.skip(k as int), cells@.len() as int, cursor as int)
                == spec_final_cursor(ds.skip(1), cells@.len() as int, 0),
        decreases names@.len() - k,
    {
        proof {
            assert(ds.skip(k as int)[0] == names@[k as int]@);
            assert(ds.skip(k as int).drop_first() =~= ds.skip(k as int + 1));
        }
        match &names[k] {
            FieldName::Simple(name) => {
                if cursor >= cells.len() {
                    proof {
                        assert(spec_row_entries(ds.skip(k as int), cells@, cursor as int)
                            =~= Seq::<(Seq<char>, RecordValueView)>::empty());
                    }
                    break ;
                }
                let ghost csv0 = csv@;
                let text = field_to_string(&cells[cursor]);
                csv.push(text.clone());
                proof {
                    lemma_string_views_push(csv0, text);
                    lemma_cell_strings_take_succ(cells@, cursor as int);
                    assert(string_views(csv@) =~= seq![id@] + cell_strings(
                        cells@.take(cursor as int + 1),
                    ));
                }
                let emitted = emit_name(name, cursor + 1);
                entries.push((emitted, RecordValue::Single(text)));
                cursor = cursor + 1;
            },
            FieldName::Array(name, keys) => {
                let start_pos = cursor + 1;
                let ghost c0 = cursor as int;
                let ghost key_views = keys@.map_values(|s: String| s@);
                let mut group: Vec<(String, String)> = Vec::new();
                let mut j: usize = 0;
                while j < keys.len() && cursor < cells.len()
                    invariant
                        j <= keys@.len(),
                        cursor as int == c0 + j,
                        cursor <= cells@.len(),
                        j <= group_len(key_views.len() as int, cells@.len() as int, c0),
                        pair_views(group@) =~= spec_group(key_views, cells@, c0).take(j as int),
                        string_views(csv@) =~= seq![id@] + cell_strings(cells@.take(cursor as int)),
                    decreases keys@.len() - j,
                {
                    let ghost csv0 = csv@;
                    let text = field_to_string(&cells[cursor]);
                    csv.push(text.clone());
                    proof {
                        lemma_string_views_push(csv0, text);
                        lemma_cell_strings_take_succ(cells@, cursor as int);
                        assert(string_views(csv@) =~= seq![id@] + cell_strings(
                            cells@.take(cursor as int + 1),
                        ));
                    }
                    group.push((keys[j].clone(), text));
                    cursor = cursor + 1;
                    j = j + 1;
                }
                proof {
                    assert(j as int == group_len(key_views.len() as int, cells@.len() as int, c0));
                    assert(pair_views(group@) =~= spec_group(key_views, cells@, c0));
                }
                let emitted = emit_name(name, start_pos);
                entries.push((emitted, RecordValue::Group(group)));
            },
        }
        k = k + 1;
    }
    proof {
        if k == names@.len() {
            assert(spec_row_entries(ds.skip(k as int), cells@, cursor as int) =~= Seq::<
                (Seq<char>, RecordValueView),
            >::empty());
        }
        assert(string_views(csv@) =~= spec_csv_row(ds, id@, cells@));
    }
    (csv, Record { entries })
}

/// The record body kept for JSON output: every entry whose name is not
/// `#`, in order.
pub open spec fn spec_json_body(entries: RecordView) -> RecordView
    decreases entries.len(),
{
    if entries.len() == 0 {
        Seq::empty()
    } else if entries[0].0 == "#"@ {
        spec_json_body(entries.drop_first())
    } else {
        seq![entries[0]] + spec_json_body(entries.drop_first())
    }
}

/// The value of the first `#` entry of a record, when there is one.
pub open spec fn spec_json_key(entries: RecordView) -> Option<RecordValueView>
    decreases entries.len(),
{
    if entries.len() == 0 {
        Option::None
    } else if entries[0].0 == "#"@ {
        Option::Some(entries[0].1)
    } else {
        spec_json_key(entries.drop_first())
    }
}

/// The JSON form of one record: the row-id string found under `#` as the
/// object key, and the remaining entries as the body. A record with no
/// single-valued `#` entry yields nothing.
pub open spec fn spec_record_for_json(entries: RecordView) -> Option<(Seq<char>, RecordView)> {
    match spec_json_key(entries) {
        Option::Some(RecordValueView::Single(id)) => Option::Some((id, spec_json_body(entries))),
        _ => Option::None,
    }
}

/// The view of an optional keyed record.
pub open spec fn opt_kv_view(r: Option<(String, Record)>) -> Option<(Seq<char>, RecordView)> {
    match r {
        Option::Some(kv) => Option::Some((kv.0@, kv.1@)),
        Option::None => Option::None,
    }
}

/// Splits a record for JSON output: the row-id string (the value of its
/// `#` entry) becomes the object key, and every `#` entry is removed from
/// the body. Returns nothing when the record has no single-valued `#`
/// entry; such a row is left out of the JSON object.
pub fn record_for_json(record: &Record) -> (r: Option<(String, Record)>)
    ensures
        opt_kv_view(r) == spec_record_for_json(record@),
{
    let ghost ev = record@;
    let mut body: Vec<(String, RecordValue)> = Vec::new();
    let mut key: Option<RecordValue> = Option::None;
    let mut i: usize = 0;
    proof {
        assert(ev.skip(0) =~= ev);
        assert(body@.map_values(|e: (String, RecordValue)| (e.0@, e.1@)) =~= Seq::<
            (Seq<char>, RecordValueView),
        >::empty());
    }
    while i < record.entries.len()
        invariant
            i <= record.entries@.len(),
            body@.map_values(|e: (String, RecordValue)| (e.0@, e.1@)) + spec_json_body(
                ev.skip(i as int),
            ) =~= spec_json_body(ev),
            spec_json_key(ev) == match key {
                Option::Some(v) => Option::Some(v@),
                Option::None => spec_json_key(ev.skip(i as int)),
            },
        decreases record.entries@.len() - i,
    {
        proof {
            let here = record.entries@[i as int];
            assert(ev.skip(i as int)[0] == (here.0@, here.1@));
            assert(ev.skip(i as int).drop_first() =~= ev.skip(i as int + 1));
        }
        let entry = &record.entries[i];
        if crate::text::str_eq(entry.0.as_str(), "#") {
            if key.is_none() {
                key = Option::Some(entry.1.duplicate());
            }
        } else {
            body.push((entry.0.clone(), entry.1.duplicate()));
        }
        i = i + 1;
    }
    proof {
        assert(spec_json_body(ev.skip(i as int)) =~= Seq::<(Seq<char>, RecordValueView)>::empty());
        assert(body@.map_values(|e: (String, RecordValue)| (e.0@, e.1@)) =~= spec_json_body(ev));
    }
    match key {
        Option::Some(RecordValue::Single(id)) => Option::Some((id, Record { entries: body })),
        Option::Some(RecordValue::Group(_)) => Option::None,
        Option::None => Option::None,
    }
}

/// No entry kept for the JSON body is named `#`.
pub proof fn lemma_json_body_no_hash(entries: RecordView, j: int)
    requires
        0 <= j < spec_json_body(entries).len(),
    ensures
        spec_json_body(entries)[j].0 != "#"@,
    decreases entries.len(),
{
    if entries.len() > 0 {
        if entries[0].0 == "#"@ {
            lemma_json_body_no_hash(entries.drop_first(), j);
        } else if j > 0 {
            lemma_json_body_no_hash(entries.drop_first(), j - 1);
        }
    }
}

/// A record built from resolved descriptors (whose leading descriptor is
/// the simple `#` row-id column) splits into exactly its row id as the
/// key and the walked entries, minus any `#`-named ones, as the body.
pub proof fn lemma_row_key_is_id(ds: Seq<FieldNameView>, id: Seq<char>, cells: Seq<CellValue>)
    requires
        ds.len() >= 1,
        ds[0] == FieldNameView::Simple("#"@),
    ensures
        spec_record_for_json(spec_record(ds, id, cells)) == Option::Some(
            (id, spec_json_body(spec_record(ds, id, cells))),
        ),
{
    let entries = spec_record(ds, id, cells);
    assert(entries[0] == ("#"@, RecordValueView::Single(id)));
}

/// One row as handed in by the caller: its identifiers and its cells in
/// ascending column-offset order.
#[derive(Debug, Clone, PartialEq, Eq)]
pub struct SheetRow {
    pub row_id: u32,
    pub subrow_id: u16,
    pub cells: Vec<CellValue>,
}

/// The record of one row: its formatted row id under the leading
/// descriptor, then the walked entries.
pub open spec fn spec_row_record(ds: Seq<FieldNameView>, has_subrows: bool, row: SheetRow) -> RecordView {
    spec_record(ds, spec_row_id(has_subrows, row.row_id as nat, row.subrow_id as nat), row.cells@)
}

/// The CSV data rows of a sheet, one per row in source order.
pub open spec fn spec_sheet_csv(ds: Seq<FieldNameView>, has_subrows: bool, rows: Seq<SheetRow>) -> Seq<
    Seq<Seq<char>>,
> {
    Seq::new(
        rows.len(),
        |i: int|
            spec_csv_row(
                ds,
                spec_row_id(has_subrows, rows[i].row_id as nat, rows[i].subrow_id as nat),
                rows[i].cells@,
            ),
    )
}

/// The JSON rows of a sheet: one keyed record per row that has a
/// single-valued `#` entry, in source order.
pub open spec fn spec_sheet_json(ds: Seq<FieldNameView>, has_subrows: bool, rows: Seq<SheetRow>) -> Seq<
    (Seq<char>, RecordView),
>
    decreases rows.len(),
{
    if rows.len() == 0 {
        Seq::empty()
    } else {
        let prev = spec_sheet_json(ds, has_subrows, rows.drop_last());
        match spec_record_for_json(spec_row_record(ds, has_subrows, rows.last())) {
            Option::Some(kv) => prev.push(kv),
            Option::None => prev,
        }
    }
}

/// The views of a sequence of keyed records.
pub open spec fn json_views(v: Seq<(String, Record)>) -> Seq<(Seq<char>, RecordView)> {
    v.map_values(|p: (String, Record)| (p.0@, p.1@))
}

/// The views of a sequence of CSV rows.
pub open spec fn csv_views(v: Seq<Vec<String>>) -> Seq<Seq<Seq<char>>> {
    v.map_values(|r: Vec<String>| string_views(r@))
}

/// The serialized output of one sheet: the CSV data rows and the keyed
/// JSON rows, both in source row order.
#[derive(Debug)]
pub struct SheetOutput {
    pub csv_rows: Vec<Vec<String>>,
    pub json_rows: Vec<(String, Record)>,
}

/// Serializes every row of a sheet against its resolved descriptors.
pub fn serialize_sheet(names: &Vec<FieldName>, has_subrows: bool, rows: &Vec<SheetRow>) -> (r:
    SheetOutput)
    requires
        names@.len() >= 1,
        forall|i: int| 0 <= i < rows@.len() ==> (#[trigger] rows@[i]).cells@.len() < usize::MAX,
    ensures
        csv_views(r.csv_rows@) == spec_sheet_csv(views_of(names@), has_subrows, rows@),
        json_views(r.json_rows@) == spec_sheet_json(views_of(names@), has_subrows, rows@),
{
    let ghost ds = views_of(names@);
    let mut csv_rows: Vec<Vec<String>> = Vec::new();
    let mut json_rows: Vec<(String, Record)> = Vec::new();
    let mut i: usize = 0;
    while i < rows.len()
        invariant
            i <= rows@.len(),
            csv_views(csv_rows@) =~= spec_sheet_csv(ds, has_subrows, rows@).take(i as int),
            json_views(json_rows@) =~= spec_sheet_json(ds, has_subrows, rows@.take(i as int)),
        decreases rows@.len() - i,
    {
        let row = &rows[i];
        let id = format_row_id(has_subrows, row.row_id, row.subrow_id);
        let (csv, record) = serialize_row(names, &id, &row.cells);
        let ghost csv_rows0 = csv_rows@;
        csv_rows.push(csv);
        proof {
            assert(csv_views(csv_rows0.push(csv_rows@[csv_rows@.len() - 1])) =~= csv_views(
                csv_rows0,
            ).push(string_views(csv_rows@[csv_rows@.len() - 1]@)));
            assert(csv_views(csv_rows@) =~= spec_sheet_csv(ds, has_subrows, rows@).take(
                i as int + 1,
            ));
        }
        let ghost json_rows0 = json_rows@;
        let kv = record_for_json(&record);
        match kv {
            Option::Some(kv) => {
                json_rows.push(kv);
            },
            Option::None => {},
        }
        proof {
            assert(rows@.take(i as int + 1).drop_last() =~= rows@.take(i as int));
            assert(rows@.take(i as int + 1).last() == rows@[i as int]);
            if json_rows@.len() > json_rows0.len() {
                assert(json_views(json_rows0.push(json_rows@[json_rows@.len() - 1])) =~= json_views(
                    json_rows0,
                ).push(
                    (json_rows@[json_rows@.len() - 1].0@, json_rows@[json_rows@.len() - 1].1@),
                ));
            }
            assert(json_views(json_rows@) =~= spec_sheet_json(
                ds,
                has_subrows,
                rows@.take(i as int + 1),
            ));
        }
        i = i + 1;
    }
    proof {
        assert(spec_sheet_csv(ds, has_subrows, rows@).take(i as int) =~= spec_sheet_csv(
            ds,
            has_subrows,
            rows@,
        ));
        assert(rows@.take(i as int) =~= rows@);
    }
    SheetOutput { csv_rows, json_rows }
}

} // verus!
