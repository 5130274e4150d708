//! Output naming: the flattened CSV header row and the deterministic
//! output file paths.

use vstd::prelude::*;

use crate::schema::Field;
use crate::schema::FieldName;
use crate::schema::FieldNameView;
use crate::schema::spec_field_names;
use crate::schema::views_of;
use crate::serializer::string_views;

verus! {

/// The header name of one sub-column of an array descriptor.
pub open spec fn spec_dotted(name: Seq<char>, key: Seq<char>) -> Seq<char> {
    name + "."@ + key
}

/// The flattened header names of a descriptor list: a simple descriptor
/// contributes its name, an array descriptor one `name.key` entry per
/// sub-key, in order.
pub open spec fn spec_header(ds: Seq<FieldNameView>) -> Seq<Seq<char>>
    decreases ds.len(),
{
    if ds.len() == 0 {
        Seq::empty()
    } else {
        match ds[0] {
            FieldNameView::Simple(name) => seq![name] + spec_header(ds.drop_first()),
            FieldNameView::Array(name, keys) => Seq::new(
                keys.len(),
                |j: int| spec_dotted(name, keys[j]),
            ) + spec_header(ds.drop_first()),
        }
    }
}

/// How many header names one descriptor contributes: one for a simple
/// descriptor, one per sub-key for an array descriptor.
pub open spec fn width_of(d: FieldNameView) -> nat {
    match d {
        FieldNameView::Simple(_) => 1,
        FieldNameView::Array(_, keys) => keys.len(),
    }
}

/// The header names contributed by a whole descriptor list.
pub open spec fn total_width(ds: Seq<FieldNameView>) -> nat
    decreases ds.len(),
{
    if ds.len() == 0 {
        0
    } else {
        width_of(ds[0]) + total_width(ds.drop_first())
    }
}

/// The header holds exactly one name per covered column: its length is
/// the sum of the descriptor widths.
pub proof fn lemma_header_len(ds: Seq<FieldNameView>)
    ensures
        spec_header(ds).len() == total_width(ds),
    decreases ds.len(),
{
    if ds.len() > 0 {
        lemma_header_len(ds.drop_first());
    }
}

/// For a resolved schema the emitted header has `1 + sum` names: one for
/// the synthetic row-id column, plus, over the field descriptors, one per
/// simple descriptor and one per array sub-key.
pub proof fn lemma_schema_header_count(fields: Seq<Field>)
    ensures
        spec_header(spec_field_names(fields)).len() == 1 + total_width(
            spec_field_names(fields).drop_first(),
        ),
{
    let ds = spec_field_names(fields);
    lemma_header_len(ds);
    assert(ds[0] == FieldNameView::Simple("#"@));
}

/// Builds the flattened header row for a descriptor list.
pub fn header_names(names: &Vec<FieldName>) -> (r: Vec<String>)
    ensures
        string_views(r@) == spec_header(views_of(names@)),
{
    let ghost ds = views_of(names@);
    let mut out: Vec<String> = Vec::new();
    let mut k: usize = 0;
    proof {
        assert(ds.skip(0) =~= ds);
        assert(string_views(out@) =~= Seq::<Seq<char>>::empty());
    }
    while k < names.len()
        invariant
            k <= names@.len(),
            string_views(out@) + spec_header(ds.skip(k as int)) =~= spec_header(ds),
        decreases names@.len() - k,
    {
        proof {
            assert(ds.skip(k as int)[0] == names@[k as int]@);
            assert(ds.skip(k as int).drop_first() =~= ds.skip(k as int + 1));
        }
        match &names[k] {
            FieldName::Simple(name) => {
                out.push(name.clone());
            },
            FieldName::Array(name, keys) => {
                let ghost h0 = string_views(out@);
                let ghost key_views = keys@.map_values(|s: String| s@);
                let mut j: usize = 0;
                while j < keys.len()
                    invariant
                        j <= keys@.len(),
                        string_views(out@) =~= h0 + Seq::new(
                            j as nat,
                            |t: int| spec_dotted(name@, key_views[t]),
                        ),
                    decreases keys@.len() - j,
                {
                    let ghost out0 = out@;
                    let dotted = name.clone().concat(".").concat(keys[j].as_str());
                    out.push(dotted);
                    proof {
                        crate::serializer::lemma_string_views_push(out0, out@.last());
                        assert(out@.last()@ == spec_dotted(name@, key_views[j as int]));
                        assert(string_views(out@) =~= h0 + Seq::new(
                            (j + 1) as nat,
                            |t: int| spec_dotted(name@, key_views[t]),
                        ));
                    }
                    j = j + 1;
                }
                proof {
                    assert(Seq::new(keys@.len(), |t: int| spec_dotted(name@, key_views[t]))
                        =~= Seq::new(key_views.len(), |t: int| spec_dotted(name@, key_views[t])));
                }
            },
        }
        proof {
            assert(string_views(out@) + spec_header(ds.skip(k as int + 1)) =~= spec_header(ds));
        }
        k = k + 1;
    }
    proof {
        assert(spec_header(ds.skip(k as int)) =~= Seq::<Seq<char>>::empty());
        assert(string_views(out@) =~= spec_header(ds));
    }
    out
}

/// How many data-source columns a resolved descriptor list covers: the
/// sum of the field descriptor widths. The leading row-id descriptor is
/// synthetic and consumes no column.
pub open spec fn data_width(ds: Seq<FieldNameView>) -> nat {
    total_width(ds.skip(1))
}

/// Counts the data-source columns the descriptors cover, saturating at
/// `usize::MAX`. A caller need fetch no more columns per row than this.
pub fn flattened_width(names: &Vec<FieldName>) -> (r: usize)
    requires
        names@.len() >= 1,
    ensures
        data_width(views_of(names@)) <= usize::MAX ==> r as nat == data_width(views_of(names@)),
        data_width(views_of(names@)) > usize::MAX ==> r == usize::MAX,
{
    let ghost ds = views_of(names@);
    let mut acc: usize = 0;
    let mut k: usize = 1;
    while k < names.len()
        invariant
            1 <= k <= names@.len(),
            acc < usize::MAX ==> acc as nat + total_width(ds.skip(k as int)) == data_width(ds),
            acc == usize::MAX ==> data_width(ds) >= usize::MAX,
        decreases names@.len() - k,
    {
        proof {
            assert(ds.skip(k as int)[0] == names@[k as int]@);
            assert(ds.skip(k as int).drop_first() =~= ds.skip(k as int + 1));
        }
        let w: usize = match &names[k] {
            FieldName::Simple(_) => 1,
            FieldName::Array(_, keys) => keys.len(),
        };
        proof {
            assert(w as nat == width_of(ds[k as int]));
        }
        if acc > usize::MAX - w {
            acc = usize::MAX;
        } else {
            acc = acc + w;
        }
        k = k + 1;
    }
    proof {
        if k >= names@.len() {
            assert(ds.skip(k as int) =~= Seq::<FieldNameView>::empty());
        }
    }
    acc
}

/// The view of an optional string.
pub open spec fn opt_str_view(o: Option<String>) -> Option<Seq<char>> {
    match o {
        Some(s) => Some(s@),
        None => None,
    }
}

/// The base output path of a sheet: `output/<sheet>`, with `.<suffix>`
/// appended when a suffix is given.
pub open spec fn spec_base_name(sheet: Seq<char>, suffix: Option<Seq<char>>) -> Seq<char> {
    match suffix {
        Some(sfx) => "output/"@ + sheet + "."@ + sfx,
        None => "output/"@ + sheet,
    }
}

/// Builds the base output path of a sheet.
pub fn output_base_name(sheet_name: &String, suffix: &Option<String>) -> (r: String)
    ensures
        r@ == spec_base_name(sheet_name@, opt_str_view(*suffix)),
{
    let base = String::from_str("output/").concat(sheet_name.as_str());
    match suffix {
        Some(sfx) => base.concat(".").concat(sfx.as_str()),
        None => base,
    }
}

/// The CSV output path of a sheet.
pub fn csv_path(sheet_name: &String, suffix: &Option<String>) -> (r: String)
    ensures
        r@ == spec_base_name(sheet_name@, opt_str_view(*suffix)) + ".csv"@,
{
    output_base_name(sheet_name, suffix).concat(".csv")
}

/// The JSON output path of a sheet.
pub fn json_path(sheet_name: &String, suffix: &Option<String>) -> (r: String)
    ensures
        r@ == spec_base_name(sheet_name@, opt_str_view(*suffix)) + ".json"@,
{
    output_base_name(sheet_name, suffix).concat(".json")
}

} // verus!
