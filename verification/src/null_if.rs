//! Turning listed strings into NULL when loading into nullable columns.
use vstd::prelude::*;
use crate::schema::DataType;
use crate::text::{contains_str, views};

verus! {

impl DataType {
    /// A copy of the type.
    pub fn duplicate(&self) -> (t: DataType)
        ensures
            t == *self,
        decreases self,
    {
        match self {
            DataType::String => DataType::String,
            DataType::UInt64 => DataType::UInt64,
            DataType::Boolean => DataType::Boolean,
            DataType::Nullable(b) => DataType::Nullable(Box::new((**b).duplicate())),
            DataType::Array(b) => DataType::Array(Box::new((**b).duplicate())),
            DataType::Other(n) => DataType::Other(n.clone()),
        }
    }
}

/// A column of a data block: its name and type.
#[derive(Debug)]
pub struct DataField {
    pub name: String,
    pub data_type: DataType,
}

/// Whether values of type `src` loaded into a column of type `dest` go
/// through the NULL check: strings, possibly nullable, into a nullable
/// column.
pub open spec fn need_transform(src: DataType, dest: DataType) -> bool {
    &&& dest is Nullable
    &&& (src == DataType::String || src == DataType::Nullable(Box::new(DataType::String)))
}

pub fn column_need_transform(src_type: &DataType, dest_type: &DataType) -> (r: bool)
    ensures
        r == need_transform(*src_type, *dest_type),
{
    dest_type.is_nullable() && match src_type {
        DataType::String => true,
        DataType::Nullable(b) => match &**b {
            DataType::String => true,
            _ => false,
        },
        _ => false,
    }
}

/// The type a column has after the check: strings become nullable strings.
pub open spec fn after_null_if(t: DataType) -> DataType {
    if t == DataType::String {
        DataType::Nullable(Box::new(DataType::String))
    } else {
        t
    }
}

/// The schema after the check: the same columns, strings made nullable.
pub fn new_schema(fields: &Vec<DataField>) -> (r: Vec<DataField>)
    ensures
        r@.len() == fields@.len(),
        forall|i: int|
            0 <= i < r@.len() ==> #[trigger] r@[i].name == fields@[i].name && r@[i].data_type
                == after_null_if(fields@[i].data_type),
{
    let mut out: Vec<DataField> = Vec::new();
    let mut i: usize = 0;
    while i < fields.len()
        invariant
            i <= fields@.len(),
            out@.len() == i,
            forall|k: int|
                0 <= k < i ==> #[trigger] out@[k].name == fields@[k].name && out@[k].data_type
                    == after_null_if(fields@[k].data_type),
        decreases fields.len() - i,
    {
        let f = &fields[i];
        let t = match &f.data_type {
            DataType::String => DataType::Nullable(Box::new(DataType::String)),
            other => other.duplicate(),
        };
        assert(t == after_null_if(f.data_type));
        let ghost before = out@;
        out.push(DataField { name: f.name.clone(), data_type: t });
        assert(out@[i as int].data_type == after_null_if(fields@[i as int].data_type));
        assert(forall|k: int| 0 <= k < i ==> out@[k] == before[k]);
        i = i + 1;
    }
    out
}

/// How a selected column is loaded: by its position, its type and name,
/// and whether it goes through the NULL check.
#[derive(Debug)]
pub struct ColumnLoad {
    pub index: usize,
    pub data_type: DataType,
    pub name: String,
    pub null_if: bool,
}

/// How each selected column is loaded into the column of the same position,
/// as far as both schemas go.
pub fn null_if_plan(select_fields: &Vec<DataField>, insert_fields: &Vec<DataField>) -> (r: Vec<
    ColumnLoad,
>)
    ensures
        r@.len() == (if select_fields@.len() <= insert_fields@.len() {
            select_fields@.len()
        } else {
            insert_fields@.len()
        }),
        forall|i: int|
            0 <= i < r@.len() ==> {
                let c = #[trigger] r@[i];
                &&& c.index == i
                &&& c.data_type == select_fields@[i].data_type
                &&& c.name == select_fields@[i].name
                &&& c.null_if == need_transform(
                    select_fields@[i].data_type,
                    insert_fields@[i].data_type,
                )
            },
{
    let mut out: Vec<ColumnLoad> = Vec::new();
    let mut i: usize = 0;
    while i < select_fields.len() && i < insert_fields.len()
        invariant
            i <= select_fields@.len(),
            i <= insert_fields@.len(),
            out@.len() == i,
            forall|k: int|
                0 <= k < i ==> {
                    let c = #[trigger] out@[k];
                    &&& c.index == k
                    &&& c.data_type == select_fields@[k].data_type
                    &&& c.name == select_fields@[k].name
                    &&& c.null_if == need_transform(
                        select_fields@[k].data_type,
                        insert_fields@[k].data_type,
                    )
                },
        decreases select_fields.len() - i,
    {
        let from = &select_fields[i];
        let to = &insert_fields[i];
        let null_if = column_need_transform(&from.data_type, &to.data_type);
        out.push(
            ColumnLoad {
                index: i,
                data_type: from.data_type.duplicate(),
                name: from.name.clone(),
                null_if,
            },
        );
        i = i + 1;
    }
    out
}

/// A value after the check: NULL when it is one of the listed strings.
pub open spec fn null_if_value(v: Option<String>, list: Seq<String>) -> Option<String> {
    match v {
        Some(s) => if views(list).contains(s@) {
            None
        } else {
            Some(s)
        },
        None => None,
    }
}

/// The check changes nothing when applied a second time, and a NULL stays
/// NULL.
pub proof fn lemma_null_if_idempotent(v: Option<String>, list: Seq<String>)
    ensures
        null_if_value(null_if_value(v, list), list) == null_if_value(v, list),
        v is None ==> null_if_value(v, list) is None,
{
}

/// A column of string values after the check.
pub fn null_if_column(values: &Vec<Option<String>>, list: &Vec<String>) -> (r: Vec<Option<String>>)
    ensures
        r@.len() == values@.len(),
        forall|i: int| 0 <= i < r@.len() ==> #[trigger] r@[i] == null_if_value(values@[i], list@),
{
    let mut out: Vec<Option<String>> = Vec::new();
    let mut i: usize = 0;
    while i < values.len()
        invariant
            i <= values@.len(),
            out@.len() == i,
            forall|k: int| 0 <= k < i ==> #[trigger] out@[k] == null_if_value(values@[k], list@),
        decreases values.len() - i,
    {
        let v = match &values[i] {
            Some(s) => if contains_str(list, s.as_str()) {
                None
            } else {
                Some(s.clone())
            },
            None => None,
        };
        out.push(v);
        i = i + 1;
    }
    out
}

} // verus!
