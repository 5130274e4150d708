//! Schema-driven field-name resolution.
//!
//! A sheet's schema declares fields in the same order as the physical
//! column layout. Each declared field contributes one output descriptor:
//! a single named column, or an array of named sub-columns. The first
//! descriptor of every sheet is the synthetic row-id column `#`, which is
//! never consumed from the data source.

use vstd::prelude::*;

use crate::numfmt::dec_nat;
use crate::numfmt::u64_to_string;

verus! {

/// The declared kind of a schema field. Every kind except `Array` maps to
/// a single output column.
#[derive(Debug, Clone, Copy, PartialEq, Eq, Structural)]
pub enum FieldKind {
    Scalar,
    Array,
    Icon,
    ModelId,
    Color,
    Link,
}

impl Default for FieldKind {
    /// A field without a declared kind is a scalar.
    fn default() -> (r: Self)
        ensures
            r == FieldKind::Scalar,
    {
        FieldKind::Scalar
    }
}

/// One declared schema field: an optional stable name, an optional
/// forward-looking name override, a kind, and (for arrays) the number of
/// sub-elements.
#[derive(Debug, Clone, PartialEq, Eq)]
pub struct Field {
    pub name: Option<String>,
    pub pending_name: Option<String>,
    pub kind: FieldKind,
    pub count: Option<u32>,
}

/// A sheet's schema: the stable field list and an optional pending
/// revision. When `pending_fields` is present it entirely supersedes
/// `fields` for name resolution.
#[derive(Debug, Clone, PartialEq, Eq)]
pub struct Schema {
    pub fields: Vec<Field>,
    pub pending_fields: Option<Vec<Field>>,
}

/// One resolved output descriptor: either a single named column, or a
/// named group of sub-columns keyed by the strings of `0..count`.
#[derive(Debug, Clone, PartialEq, Eq)]
pub enum FieldName {
    Simple(String),
    Array(String, Vec<String>),
}

/// Ghost mirror of `FieldName`, over sequences of characters.
pub enum FieldNameView {
    Simple(Seq<char>),
    Array(Seq<char>, Seq<Seq<char>>),
}

impl View for FieldName {
    type V = FieldNameView;

    open spec fn view(&self) -> FieldNameView {
        match self {
            FieldName::Simple(name) => FieldNameView::Simple(name@),
            FieldName::Array(name, keys) => FieldNameView::Array(
                name@,
                keys@.map_values(|k: String| k@),
            ),
        }
    }
}

/// The views of a sequence of descriptors.
pub open spec fn views_of(names: Seq<FieldName>) -> Seq<FieldNameView> {
    names.map_values(|n: FieldName| n@)
}

/// The effective declared name of a field: the pending override if
/// present, else the stable name, else the unknown placeholder.
pub open spec fn spec_latest_name(f: Field) -> Seq<char> {
    match f.pending_name {
        Some(pending) => pending@,
        None => match f.name {
            Some(name) => name@,
            None => "Unknown"@,
        },
    }
}

/// The sub-keys contributed by an array field: the decimal strings of
/// `0..count`, empty when no count is declared.
pub open spec fn spec_array_keys(count: Option<u32>) -> Seq<Seq<char>> {
    match count {
        Some(c) => Seq::new(c as nat, |i: int| dec_nat(i as nat)),
        None => Seq::empty(),
    }
}

/// The synthesized positional name for an undocumented column at 1-based
/// output position `pos`.
pub open spec fn spec_col_name(pos: nat) -> Seq<char> {
    "col_"@ + dec_nat(pos)
}

/// The resolved output name of a field standing at 1-based output
/// position `pos`: the effective declared name, with the unknown
/// placeholder replaced by a positional name.
pub open spec fn spec_resolved_name(f: Field, pos: nat) -> Seq<char> {
    if spec_latest_name(f) == "Unknown"@ {
        spec_col_name(pos)
    } else {
        spec_latest_name(f)
    }
}

/// The descriptor contributed by a field at 1-based output position `pos`.
pub open spec fn spec_descriptor(f: Field, pos: nat) -> FieldNameView {
    match f.kind {
        FieldKind::Array => FieldNameView::Array(
            spec_resolved_name(f, pos),
            spec_array_keys(f.count),
        ),
        _ => FieldNameView::Simple(spec_resolved_name(f, pos)),
    }
}

/// The full descriptor list for a field list: the synthetic row-id column
/// `#`, then one descriptor per declared field, in declared order.
pub open spec fn spec_field_names(fields: Seq<Field>) -> Seq<FieldNameView> {
    seq![FieldNameView::Simple("#"@)] + Seq::new(
        fields.len(),
        |i: int| spec_descriptor(fields[i], (i + 1) as nat),
    )
}

/// The descriptor list of a whole schema: resolved from the pending field
/// list when one is present, else from the stable list.
pub open spec fn spec_schema_names(schema: Schema) -> Seq<FieldNameView> {
    match schema.pending_fields {
        Some(pending) => spec_field_names(pending@),
        None => spec_field_names(schema.fields@),
    }
}

/// The effective declared name of a field.
pub fn latest_name(field: &Field) -> (r: String)
    ensures
        r@ == spec_latest_name(*field),
{
    if let Some(pending) = &field.pending_name {
        pending.clone()
    } else if let Some(name) = &field.name {
        name.clone()
    } else {
        String::from_str("Unknown")
    }
}

/// The sub-keys for an array field: the decimal strings of `0..count`.
pub fn array_keys(field: &Field) -> (r: Vec<String>)
    ensures
        r@.map_values(|k: String| k@) == spec_array_keys(field.count),
{
    let mut keys: Vec<String> = Vec::new();
    match &field.count {
        Some(count) => {
            let c: u32 = *count;
            let mut i: u32 = 0;
            while i < c
                invariant
                    i <= c,
                    keys@.len() == i as nat,
                    forall|j: int| 0 <= j < i as int ==> keys@[j]@ == dec_nat(j as nat),
                decreases c - i,
            {
                keys.push(u64_to_string(i as u64));
                i = i + 1;
            }
            proof {
                assert(keys@.map_values(|k: String| k@) =~= spec_array_keys(field.count));
            }
        },
        None => {
            proof {
                assert(keys@.map_values(|k: String| k@) =~= spec_array_keys(field.count));
            }
        },
    }
    keys
}

/// The synthesized `col_<pos>` name for an undocumented column.
pub(crate) fn col_name(pos: usize) -> (r: String)
    ensures
        r@ == spec_col_name(pos as nat),
{
    let digits = u64_to_string(pos as u64);
    String::from_str("col_").concat(digits.as_str())
}

/// Resolves a declared field list into the ordered output descriptors:
/// the synthetic `#` row-id column first, then one descriptor per field,
/// each with its effective name (placeholder names replaced by a
/// positional `col_<n>` name, `n` the 1-based output position).
pub fn parse_field_names(fields: &Vec<Field>) -> (r: Vec<FieldName>)
    ensures
        views_of(r@) == spec_field_names(fields@),
{
    let mut names: Vec<FieldName> = Vec::new();
    names.push(FieldName::Simple(String::from_str("#")));
    let unknown = String::from_str("Unknown");

    let mut i: usize = 0;
    while i < fields.len()
        invariant
            i <= fields@.len(),
            names@.len() == i + 1,
            unknown@ == "Unknown"@,
            views_of(names@) =~= spec_field_names(fields@).take(i + 1),
        decreases fields@.len() - i,
    {
        let n = latest_name(&fields[i]);
        let resolved = if n == unknown {
            col_name(names.len())
        } else {
            n
        };
        match fields[i].kind {
            FieldKind::Array => {
                let arr_keys = array_keys(&fields[i]);
                names.push(FieldName::Array(resolved, arr_keys));
            },
            _ => {
                names.push(FieldName::Simple(resolved));
            },
        }
        proof {
            assert(views_of(names@) =~= spec_field_names(fields@).take(i + 2));
        }
        i = i + 1;
    }
    proof {
        assert(spec_field_names(fields@).take(i + 1) =~= spec_field_names(fields@));
    }
    names
}

/// Resolves a whole schema into its ordered output descriptors, using the
/// pending field list exclusively when one is present.
pub fn field_names(schema: &Schema) -> (r: Vec<FieldName>)
    ensures
        views_of(r@) == spec_schema_names(*schema),
{
    match &schema.pending_fields {
        Some(pending) => parse_field_names(pending),
        None => parse_field_names(&schema.fields),
    }
}

/// A pending field list entirely supersedes the stable one: two schemas
/// with the same pending list resolve to the same descriptors, whatever
/// their stable `fields` hold.
pub proof fn lemma_pending_supersedes(a: Schema, b: Schema)
    requires
        a.pending_fields is Some,
        a.pending_fields == b.pending_fields,
    ensures
        spec_schema_names(a) == spec_schema_names(b),
{
}

/// A field whose effective name is the unknown placeholder resolves to
/// `col_<n>`, where `n` is its 1-based output position.
pub proof fn lemma_placeholder_positional(fields: Seq<Field>, i: int)
    requires
        0 <= i < fields.len(),
        spec_latest_name(fields[i]) == "Unknown"@,
    ensures
        spec_field_names(fields)[i + 1] == spec_descriptor(fields[i], (i + 1) as nat),
        spec_resolved_name(fields[i], (i + 1) as nat) == spec_col_name((i + 1) as nat),
{
}

} // verus!
