//! The type of a variable, e.g., a function argument. Examples: INT64: {type_kind="INT64"} ARRAY: {type_kind="ARRAY", array_element_type="STRING"} STRUCT>: {type_kind="STRUCT", struct_type={fields=[ {name="x", type={type_kind="STRING"}}, {name="y", type={type_kind="ARRAY", array_element_type="DATE"}} ]}}
use vstd::prelude::*;

use crate::model::standard_sql_field::StandardSqlField;
use crate::model::standard_sql_struct_type::StandardSqlStructType;

verus! {

/// The type of a variable in standard SQL.
#[derive(Debug)]
pub struct StandardSqlDataType {
    /// The fields of this struct, in order, if type_kind = "STRUCT".
    pub struct_type: Option<StandardSqlStructType>,
    /// Required. The top level type of this field. Can be any standard SQL data type (e.g., "INT64", "DATE", "ARRAY").
    pub type_kind: TypeKind,
    /// The type of the array's elements, if type_kind = "ARRAY".
    pub array_element_type: Option<Box<StandardSqlDataType>>,
    /// The type of the range's elements, if type_kind = "RANGE".
    pub range_element_type: Option<Box<StandardSqlDataType>>,
}

/// Required. The top level type of this field. Can be any standard SQL data type (e.g., "INT64", "DATE", "ARRAY").
#[derive(Debug)]
pub enum TypeKind {
    /// Invalid type.
    TypeKindUnspecified,
    /// Encoded as a string in decimal format.
    Int64,
    /// Encoded as a boolean "false" or "true".
    Bool,
    /// Encoded as a number, or string "NaN", "Infinity" or "-Infinity".
    Float64,
    /// Encoded as a string value.
    String,
    /// Encoded as a base64 string per RFC 4648, section 4.
    Byte,
    /// Encoded as an RFC 3339 timestamp with mandatory "Z" time zone string: 1985-04-12T23:20:50.52Z
    Timestamp,
    /// Encoded as RFC 3339 full-date format string: 1985-04-12
    Date,
    /// Encoded as RFC 3339 partial-time format string: 23:20:50.52
    Time,
    /// Encoded as RFC 3339 full-date "T" partial-time: 1985-04-12T23:20:50.52
    Datetime,
    /// Encoded as WKT
    Geography,
    /// Encoded as a decimal string.
    Numeric,
    /// Encoded as a decimal string.
    Bignumeric,
    /// Encoded as a list with types matching Type.array_type.
    Array,
    /// Encoded as a list with fields of type Type.struct_type[i]. List is used because a JSON object cannot have duplicate field names.
    Struct,
    /// Encoded as a string representation of a JSON value.
    Json,
    /// Encoded as a string, e.g. "1-2 3 4:5:6.789".
    Interval,
    /// Encoded as a range value with its element type in range_element_type.
    Range,
    /// Forward-compatibility catch-all: any type kind not yet modelled here
    /// (e.g. a future BigQuery standard SQL type) is read as this instead of
    /// failing the whole read. Consumers should treat it as an unmappable
    /// type and skip it.
    Unknown,
}

impl Clone for TypeKind {
    fn clone(&self) -> (r: Self)
        ensures
            r == *self,
    {
        match self {
            TypeKind::TypeKindUnspecified => TypeKind::TypeKindUnspecified,
            TypeKind::Int64 => TypeKind::Int64,
            TypeKind::Bool => TypeKind::Bool,
            TypeKind::Float64 => TypeKind::Float64,
            TypeKind::String => TypeKind::String,
            TypeKind::Byte => TypeKind::Byte,
            TypeKind::Timestamp => TypeKind::Timestamp,
            TypeKind::Date => TypeKind::Date,
            TypeKind::Time => TypeKind::Time,
            TypeKind::Datetime => TypeKind::Datetime,
            TypeKind::Geography => TypeKind::Geography,
            TypeKind::Numeric => TypeKind::Numeric,
            TypeKind::Bignumeric => TypeKind::Bignumeric,
            TypeKind::Array => TypeKind::Array,
            TypeKind::Struct => TypeKind::Struct,
            TypeKind::Json => TypeKind::Json,
            TypeKind::Interval => TypeKind::Interval,
            TypeKind::Range => TypeKind::Range,
            TypeKind::Unknown => TypeKind::Unknown,
        }
    }
}

/// `a` and `b` describe the same type: same kind, and the same struct,
/// array element and range element types, compared in the same way.
pub open spec fn same_data_type(a: StandardSqlDataType, b: StandardSqlDataType) -> bool
    decreases a,
{
    &&& a.type_kind == b.type_kind
    &&& match (a.struct_type, b.struct_type) {
        (Some(x), Some(y)) => same_struct_type(x, y),
        (None, None) => true,
        _ => false,
    }
    &&& match (a.array_element_type, b.array_element_type) {
        (Some(x), Some(y)) => same_data_type(*x, *y),
        (None, None) => true,
        _ => false,
    }
    &&& match (a.range_element_type, b.range_element_type) {
        (Some(x), Some(y)) => same_data_type(*x, *y),
        (None, None) => true,
        _ => false,
    }
}

/// `a` and `b` have the same fields, in the same order.
pub open spec fn same_struct_type(a: StandardSqlStructType, b: StandardSqlStructType) -> bool
    decreases a,
{
    match (a.fields, b.fields) {
        (Some(x), Some(y)) => {
            &&& x@.len() == y@.len()
            &&& forall|i: int| 0 <= i < x@.len() ==> same_field(#[trigger] x@[i], y@[i])
        },
        (None, None) => true,
        _ => false,
    }
}

/// `a` and `b` have the same name and the same type.
pub open spec fn same_field(a: StandardSqlField, b: StandardSqlField) -> bool
    decreases a,
{
    &&& a.name == b.name
    &&& match (a.field_type, b.field_type) {
        (Some(x), Some(y)) => same_data_type(x, y),
        (None, None) => true,
        _ => false,
    }
}

/// A copy of an optional string.
fn clone_name(name: &Option<String>) -> (r: Option<String>)
    ensures
        r == *name,
{
    match name {
        Some(n) => Some(n.clone()),
        None => None,
    }
}

/// A deep copy of a data type.
fn clone_data_type(t: &StandardSqlDataType) -> (r: StandardSqlDataType)
    ensures
        same_data_type(*t, r),
    decreases t,
{
    let struct_type = match &t.struct_type {
        Some(st) => Some(clone_struct_type(st)),
        None => None,
    };
    let array_element_type = match &t.array_element_type {
        Some(e) => Some(Box::new(clone_data_type(&**e))),
        None => None,
    };
    let range_element_type = match &t.range_element_type {
        Some(e) => Some(Box::new(clone_data_type(&**e))),
        None => None,
    };
    StandardSqlDataType {
        struct_type,
        type_kind: t.type_kind.clone(),
        array_element_type,
        range_element_type,
    }
}

/// A deep copy of a struct type.
fn clone_struct_type(s: &StandardSqlStructType) -> (r: StandardSqlStructType)
    ensures
        same_struct_type(*s, r),
    decreases s,
{
    match &s.fields {
        Some(fields) => {
            let mut out: Vec<StandardSqlField> = Vec::new();
            for i in 0..fields.len()
                invariant
                    s.fields == Some(*fields),
                    out@.len() == i,
                    forall|j: int| 0 <= j < i ==> same_field(#[trigger] fields@[j], out@[j]),
            {
                proof {
                    broadcast use vstd::std_specs::vec::axiom_vec_decreases_to_view;

                    assert(decreases_to!(*s => s.fields));
                    assert(decreases_to!(s.fields => s.fields->0));
                    assert(s.fields->0 == *fields);
                    assert(decreases_to!(*fields => fields@));
                    assert(decreases_to!(fields@ => fields@[i as int]));
                    assert(decreases_to!(*s => fields@[i as int]));
                }
                out.push(clone_field(&fields[i]));
            }
            StandardSqlStructType { fields: Some(out) }
        },
        None => StandardSqlStructType { fields: None },
    }
}

/// A deep copy of a field.
fn clone_field(f: &StandardSqlField) -> (r: StandardSqlField)
    ensures
        same_field(*f, r),
    decreases f,
{
    let field_type = match &f.field_type {
        Some(t) => Some(clone_data_type(t)),
        None => None,
    };
    StandardSqlField { name: clone_name(&f.name), field_type }
}

impl Clone for StandardSqlDataType {
    /// A deep copy: the same type, field by field.
    fn clone(&self) -> (r: Self)
        ensures
            same_data_type(*self, r),
    {
        clone_data_type(self)
    }
}

impl Clone for StandardSqlStructType {
    /// A deep copy: the same fields, in the same order.
    fn clone(&self) -> (r: Self)
        ensures
            same_struct_type(*self, r),
    {
        clone_struct_type(self)
    }
}

impl Clone for StandardSqlField {
    /// A deep copy: the same name and type.
    fn clone(&self) -> (r: Self)
        ensures
            same_field(*self, r),
    {
        clone_field(self)
    }
}

} // verus!
