//! Dataset records and column type inference.
use vstd::prelude::*;
use vstd::string::StringExecFns;

use crate::directory::Owner;
use crate::text::text_is;

verus! {

/// A dataset, as the dataset API describes it.
#[derive(Clone, Debug)]
pub struct Dataset {
    pub id: String,
    pub name: Option<String>,
    pub description: Option<String>,
    pub columns: Option<i32>,
    pub rows: Option<i32>,
    pub schema: Option<Schema>,
    pub created_at: Option<String>,
    pub updated_at: Option<String>,
    pub data_current_at: Option<String>,
    pub pdp_enabled: Option<bool>,
    pub owner: Option<Owner>,
    pub policies: Option<Vec<Policy>>,
}

/// The definition of a dataset to create.
#[derive(Clone, Debug)]
pub struct DatasetSchema {
    pub name: String,
    pub description: String,
    pub rows: u32,
    pub schema: Schema,
}

/// The columns of a dataset, in order.
#[derive(Clone, Debug)]
pub struct Schema {
    pub columns: Vec<Column>,
}

/// A column: its type name (such as `"LONG"`) and its name.
#[derive(Clone, Debug)]
pub struct Column {
    pub column_type: String,
    pub name: String,
}

/// Metadata of one column of a query result.
#[derive(Clone, Debug)]
pub struct DataQueryMetadata {
    pub data_type: String,
    pub data_source_id: String,
    pub max_length: i32,
    pub min_length: i32,
    pub period_index: i32,
}

/// A personalized data permission policy of a dataset.
#[derive(Clone, Debug)]
pub struct Policy {
    pub id: usize,
    pub name: String,
    pub policy_type: String,
    pub user_ids: Vec<usize>,
    pub group_ids: Vec<usize>,
    pub filters: Vec<Filter>,
}

/// One row filter of a [`Policy`].
#[derive(Clone, Debug)]
pub struct Filter {
    pub column: String,
    pub not: bool,
    pub operator: String,
    pub values: Vec<String>,
}

/// The column types the server knows.
#[derive(Clone, Copy, Debug, PartialEq, Eq, Structural)]
pub enum DomoDataType {
    STRING,
    LONG,
    DECIMAL,
    DOUBLE,
    DATETIME,
    DATE,
}

/// The type inferred for a column from sample values. `TNull` is the most
/// specific type, `TUnknown` (bytes that are not text) the least.
#[derive(Clone, Copy, Debug, PartialEq, Eq, Structural)]
pub enum FieldType {
    TUnknown,
    TNull,
    TUnicode,
    TFloat,
    TInteger,
    TDate,
    TDateTime,
}

/// The server's column type for an inferred type.
pub open spec fn domo_type_of(t: FieldType) -> DomoDataType {
    match t {
        FieldType::TNull | FieldType::TUnknown | FieldType::TUnicode => DomoDataType::STRING,
        FieldType::TInteger => DomoDataType::LONG,
        FieldType::TFloat => DomoDataType::DECIMAL,
        FieldType::TDateTime => DomoDataType::DATETIME,
        FieldType::TDate => DomoDataType::DATE,
    }
}

/// The name under which the server knows a column type.
pub open spec fn domo_type_name(d: DomoDataType) -> Seq<char> {
    match d {
        DomoDataType::STRING => "STRING"@,
        DomoDataType::LONG => "LONG"@,
        DomoDataType::DECIMAL => "DECIMAL"@,
        DomoDataType::DOUBLE => "DOUBLE"@,
        DomoDataType::DATETIME => "DATETIME"@,
        DomoDataType::DATE => "DATE"@,
    }
}

/// The least type that covers both `a` and `b`: a type covers itself; null
/// covers nothing else and is covered by everything; unknown covers
/// everything; an integer degrades to a float, a date-time to a date, and
/// any other mix of kinds to text.
pub open spec fn merged(a: FieldType, b: FieldType) -> FieldType {
    if a == b {
        a
    } else if a == FieldType::TNull {
        b
    } else if b == FieldType::TNull {
        a
    } else if a == FieldType::TUnknown || b == FieldType::TUnknown {
        FieldType::TUnknown
    } else if is_numeric(a) && is_numeric(b) {
        FieldType::TFloat
    } else if is_temporal(a) && is_temporal(b) {
        FieldType::TDate
    } else {
        FieldType::TUnicode
    }
}

pub open spec fn is_numeric(t: FieldType) -> bool {
    t == FieldType::TInteger || t == FieldType::TFloat
}

pub open spec fn is_temporal(t: FieldType) -> bool {
    t == FieldType::TDate || t == FieldType::TDateTime
}

impl DomoDataType {
    /// The server's column type for an inferred type.
    pub fn from_fieldtype(typ: FieldType) -> (r: DomoDataType)
        ensures
            r == domo_type_of(typ),
    {
        match typ {
            FieldType::TNull | FieldType::TUnknown | FieldType::TUnicode => DomoDataType::STRING,
            FieldType::TInteger => DomoDataType::LONG,
            FieldType::TFloat => DomoDataType::DECIMAL,
            FieldType::TDateTime => DomoDataType::DATETIME,
            FieldType::TDate => DomoDataType::DATE,
        }
    }

    /// The type's name, such as `"LONG"`.
    pub fn to_string(&self) -> (r: String)
        ensures
            r@ == domo_type_name(*self),
    {
        match self {
            DomoDataType::STRING => String::from_str("STRING"),
            DomoDataType::LONG => String::from_str("LONG"),
            DomoDataType::DECIMAL => String::from_str("DECIMAL"),
            DomoDataType::DOUBLE => String::from_str("DOUBLE"),
            DomoDataType::DATETIME => String::from_str("DATETIME"),
            DomoDataType::DATE => String::from_str("DATE"),
        }
    }
}

impl FieldType {
    /// Relax this type so that it also covers `other`.
    pub fn merge(&mut self, other: FieldType)
        ensures
            *final(self) == merged(*old(self), other),
    {
        *self = match (*self, other) {
            (FieldType::TUnicode, FieldType::TUnicode) => FieldType::TUnicode,
            (FieldType::TFloat, FieldType::TFloat) => FieldType::TFloat,
            (FieldType::TInteger, FieldType::TInteger) => FieldType::TInteger,
            (FieldType::TDate, FieldType::TDate) => FieldType::TDate,
            (FieldType::TDateTime, FieldType::TDateTime) => FieldType::TDateTime,
            (FieldType::TNull, any) | (any, FieldType::TNull) => any,
            (FieldType::TUnknown, _) | (_, FieldType::TUnknown) => FieldType::TUnknown,
            (FieldType::TFloat, FieldType::TInteger) | (FieldType::TInteger, FieldType::TFloat) => {
                FieldType::TFloat
            },
            (FieldType::TDateTime, FieldType::TDate) | (FieldType::TDate, FieldType::TDateTime) => {
                FieldType::TDate
            },
            _ => FieldType::TUnicode,
        };
    }

    pub fn is_number(self) -> (r: bool)
        ensures
            r == is_numeric(self),
    {
        self == FieldType::TFloat || self == FieldType::TInteger
    }

    pub fn is_null(self) -> (r: bool)
        ensures
            r == (self == FieldType::TNull),
    {
        self == FieldType::TNull
    }

    /// The most specific type, from which inference starts.
    pub fn default() -> (r: FieldType)
        ensures
            r == FieldType::TNull,
    {
        FieldType::TNull
    }
}

impl Schema {
    /// The columns for inferred column types, one per entry and in the same
    /// order; each column is named after its entry and typed after
    /// [`DomoDataType::from_fieldtype`].
    pub fn from_hashmap(cols: &Vec<(String, FieldType)>) -> (r: Schema)
        ensures
            r.columns@.len() == cols@.len(),
            forall|i: int|
                0 <= i < cols@.len() ==> (#[trigger] r.columns@[i]).name@ == cols@[i].0@
                    && r.columns@[i].column_type@ == domo_type_name(domo_type_of(cols@[i].1)),
    {
        let mut columns: Vec<Column> = Vec::new();
        let mut i: usize = 0;
        while i < cols.len()
            invariant
                i <= cols@.len(),
                columns@.len() == i,
                forall|j: int|
                    0 <= j < i ==> (#[trigger] columns@[j]).name@ == cols@[j].0@
                        && columns@[j].column_type@ == domo_type_name(domo_type_of(cols@[j].1)),
            decreases cols@.len() - i,
        {
            let typ_str = DomoDataType::from_fieldtype(cols[i].1).to_string();
            let name = cols[i].0.clone();
            columns.push(Column { column_type: typ_str, name });
            i = i + 1;
        }
        Schema { columns }
    }
}

impl DatasetSchema {
    /// A dataset definition with no rows and the columns of
    /// [`Schema::from_hashmap`].
    pub fn from_hashmap(name: String, description: String, col_schema: &Vec<(String, FieldType)>) -> (r:
        DatasetSchema)
        ensures
            r.name == name,
            r.description == description,
            r.rows == 0,
            r.schema.columns@.len() == col_schema@.len(),
            forall|i: int|
                0 <= i < col_schema@.len() ==> (#[trigger] r.schema.columns@[i]).name@
                    == col_schema@[i].0@ && r.schema.columns@[i].column_type@ == domo_type_name(
                    domo_type_of(col_schema@[i].1),
                ),
    {
        DatasetSchema { name, description, rows: 0, schema: Schema::from_hashmap(col_schema) }
    }
}

/// The Rust integer type names.
pub open spec fn integer_type_names() -> Seq<Seq<char>> {
    seq![
        "isize"@,
        "usize"@,
        "i8"@,
        "i16"@,
        "i32"@,
        "i64"@,
        "i128"@,
        "u8"@,
        "u16"@,
        "u32"@,
        "u64"@,
        "u128"@,
    ]
}

/// The Rust floating-point type names.
pub open spec fn float_type_names() -> Seq<Seq<char>> {
    seq!["f32"@, "f64"@]
}

/// The column type for a field of the named Rust type: `LONG` for the
/// integer types, `DOUBLE` for the floating-point types, else `STRING`.
pub open spec fn column_type_for(s: Seq<char>) -> Seq<char> {
    if integer_type_names().contains(s) {
        "LONG"@
    } else if float_type_names().contains(s) {
        "DOUBLE"@
    } else {
        "STRING"@
    }
}

fn is_one_of(s: &str, names: &Vec<&str>) -> (r: bool)
    ensures
        r == names@.map_values(|n: &str| n@).contains(s@),
{
    let ghost views = names@.map_values(|n: &str| n@);
    let mut i: usize = 0;
    while i < names.len()
        invariant
            i <= names@.len(),
            views == names@.map_values(|n: &str| n@),
            forall|j: int| 0 <= j < i ==> views[j] != s@,
        decreases names@.len() - i,
    {
        if text_is(s, names[i]) {
            proof {
                assert(views[i as int] == s@);
            }
            return true;
        }
        i = i + 1;
    }
    false
}

/// The column type for a field of the Rust type named `s`.
pub fn map_type_to_domo_type(s: String) -> (r: String)
    ensures
        r@ == column_type_for(s@),
{
    let integers: Vec<&str> = vec![
        "isize",
        "usize",
        "i8",
        "i16",
        "i32",
        "i64",
        "i128",
        "u8",
        "u16",
        "u32",
        "u64",
        "u128",
    ];
    let floats: Vec<&str> = vec!["f32", "f64"];
    proof {
        assert(integers@.map_values(|n: &str| n@) =~= integer_type_names());
        assert(floats@.map_values(|n: &str| n@) =~= float_type_names());
    }
    if is_one_of(s.as_str(), &integers) {
        String::from_str("LONG")
    } else if is_one_of(s.as_str(), &floats) {
        String::from_str("DOUBLE")
    } else {
        String::from_str("STRING")
    }
}

} // verus!
