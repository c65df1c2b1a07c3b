//! Inferring a dataset definition from CSV records.
use vstd::prelude::*;
use vstd::string::StringExecFns;

use crate::dataset::{Column, DatasetSchema, FieldType, Schema};
use crate::sample::{
    absorb, check_field_type, columns_view, find_column, key_index, record_view, CsvColumnTypes,
    Record,
};

verus! {

/// The column types inferred from `records`, read in order from no columns.
pub open spec fn inferred_types(records: Seq<Record>) -> Seq<(Seq<char>, FieldType)>
    decreases records.len(),
{
    if records.len() == 0 {
        Seq::empty()
    } else {
        absorb(inferred_types(records.drop_last()), record_view(records.last()@))
    }
}

/// Infer the type of every column of `records`.
pub fn infer_column_types(records: &Vec<Record>) -> (r: CsvColumnTypes)
    ensures
        columns_view(r@) == inferred_types(records@),
{
    let mut cols: CsvColumnTypes = Vec::new();
    let mut i: usize = 0;
    proof {
        assert(columns_view(cols@) =~= inferred_types(records@.subrange(0, 0)));
    }
    while i < records.len()
        invariant
            i <= records@.len(),
            columns_view(cols@) == inferred_types(records@.subrange(0, i as int)),
        decreases records@.len() - i,
    {
        proof {
            assert(records@.subrange(0, i + 1).drop_last() =~= records@.subrange(0, i as int));
        }
        let _ = check_field_type(&records[i], &mut cols);
        i = i + 1;
    }
    proof {
        assert(records@.subrange(0, records@.len() as int) =~= records@);
    }
    cols
}

/// The column type name that the command-line tool gives an inferred type:
/// text, floats and integers as `STRING`, `DOUBLE` and `LONG`, anything else
/// (or no type at all) as `STRING`.
pub open spec fn header_type_name(t: Option<FieldType>) -> Seq<char> {
    match t {
        Some(FieldType::TFloat) => "DOUBLE"@,
        Some(FieldType::TInteger) => "LONG"@,
        _ => "STRING"@,
    }
}

/// The type inferred for column `k`, if any.
pub open spec fn type_of_column(cols: Seq<(Seq<char>, FieldType)>, k: Seq<char>) -> Option<FieldType> {
    let i = key_index(cols, k);
    if i >= 0 {
        Some(cols[i].1)
    } else {
        None
    }
}

/// One column per header, in header order, typed by [`header_type_name`].
pub fn columns_for_headers(headers: &Vec<String>, cols: &CsvColumnTypes) -> (r: Vec<Column>)
    ensures
        r@.len() == headers@.len(),
        forall|i: int|
            0 <= i < headers@.len() ==> (#[trigger] r@[i]).name@ == headers@[i]@
                && r@[i].column_type@ == header_type_name(
                type_of_column(columns_view(cols@), headers@[i]@),
            ),
{
    let mut out: Vec<Column> = Vec::new();
    let mut i: usize = 0;
    while i < headers.len()
        invariant
            i <= headers@.len(),
            out@.len() == i,
            forall|j: int|
                0 <= j < i ==> (#[trigger] out@[j]).name@ == headers@[j]@
                    && out@[j].column_type@ == header_type_name(
                    type_of_column(columns_view(cols@), headers@[j]@),
                ),
        decreases headers@.len() - i,
    {
        let typ = match find_column(cols, &headers[i]) {
            Some(j) => Some(cols[j].1),
            None => None,
        };
        let column_type = match typ {
            Some(FieldType::TFloat) => String::from_str("DOUBLE"),
            Some(FieldType::TInteger) => String::from_str("LONG"),
            _ => String::from_str("STRING"),
        };
        out.push(Column { column_type, name: headers[i].clone() });
        i = i + 1;
    }
    out
}

/// A dataset definition with no rows whose columns are inferred from
/// `records` and named and ordered by `headers`; without a description,
/// `fallback_description` is used.
pub fn inferred_dataset_schema(
    name: String,
    description: Option<String>,
    fallback_description: &str,
    headers: &Vec<String>,
    records: &Vec<Record>,
) -> (r: DatasetSchema)
    ensures
        r.name == name,
        r.description@ == match description {
            Some(d) => d@,
            None => fallback_description@,
        },
        r.rows == 0,
        r.schema.columns@.len() == headers@.len(),
        forall|i: int|
            0 <= i < headers@.len() ==> (#[trigger] r.schema.columns@[i]).name@ == headers@[i]@
                && r.schema.columns@[i].column_type@ == header_type_name(
                type_of_column(inferred_types(records@), headers@[i]@),
            ),
{
    let cols = infer_column_types(records);
    let columns = columns_for_headers(headers, &cols);
    let description = match description {
        Some(d) => d,
        None => String::from_str(fallback_description),
    };
    DatasetSchema { name, description, rows: 0, schema: Schema { columns } }
}

/// Whether two schemas have the same columns, in the same order.
pub fn dataset_schema(ds: &Schema, domo_schema: &Schema) -> (r: bool)
    ensures
        r == (ds.columns@.len() == domo_schema.columns@.len() && forall|i: int|
            0 <= i < ds.columns@.len() ==> (#[trigger] ds.columns@[i]).name@
                == domo_schema.columns@[i].name@ && ds.columns@[i].column_type@
                == domo_schema.columns@[i].column_type@),
{
    if ds.columns.len() != domo_schema.columns.len() {
        return false;
    }
    let mut i: usize = 0;
    while i < ds.columns.len()
        invariant
            ds.columns@.len() == domo_schema.columns@.len(),
            i <= ds.columns@.len(),
            forall|j: int|
                0 <= j < i ==> (#[trigger] ds.columns@[j]).name@ == domo_schema.columns@[j].name@
                    && ds.columns@[j].column_type@ == domo_schema.columns@[j].column_type@,
        decreases ds.columns@.len() - i,
    {
        if ds.columns[i].name != domo_schema.columns[i].name || ds.columns[i].column_type
            != domo_schema.columns[i].column_type {
            return false;
        }
        i = i + 1;
    }
    true
}

} // verus!
