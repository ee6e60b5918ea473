//! The typed value model: what a database cell is once decoded, which kind a
//! declared column type maps to, and how a value renders as a JSON scalar.

use vstd::prelude::*;

verus! {

/// The semantic kind that a driver-reported column type name stands for.
#[derive(Debug, Clone, Copy, PartialEq, Eq, Structural)]
pub enum ValueKind {
    Int64,
    Int32,
    Float,
    Bool,
    Text,
    Timestamp,
    Unsupported,
}

/// A decoded cell.
///
/// `Float` holds the IEEE-754 binary64 bit pattern of the number, so that the
/// value is carried exactly.
#[derive(Debug, Clone, PartialEq, Eq)]
pub enum DbValue {
    Int(i64),
    Int32(i32),
    Float(u64),
    Bool(bool),
    String(String),
    Timestamp(String),
    Unsupported,
    Null,
}

/// The mathematical content of a [`DbValue`].
pub enum DbValueView {
    Int(i64),
    Int32(i32),
    Float(u64),
    Bool(bool),
    String(Seq<char>),
    Timestamp(Seq<char>),
    Unsupported,
    Null,
}

impl View for DbValue {
    type V = DbValueView;

    open spec fn view(&self) -> DbValueView {
        match self {
            DbValue::Int(v) => DbValueView::Int(*v),
            DbValue::Int32(v) => DbValueView::Int32(*v),
            DbValue::Float(bits) => DbValueView::Float(*bits),
            DbValue::Bool(b) => DbValueView::Bool(*b),
            DbValue::String(s) => DbValueView::String(s@),
            DbValue::Timestamp(s) => DbValueView::Timestamp(s@),
            DbValue::Unsupported => DbValueView::Unsupported,
            DbValue::Null => DbValueView::Null,
        }
    }
}

/// A JSON-safe scalar. `Double` holds a binary64 bit pattern.
#[derive(Debug, Clone, PartialEq, Eq)]
pub enum JsonScalar {
    Null,
    Bool(bool),
    Integer(i64),
    Double(u64),
    Text(String),
}

/// The mathematical content of a [`JsonScalar`].
pub enum JsonScalarView {
    Null,
    Bool(bool),
    Integer(int),
    Double(u64),
    Text(Seq<char>),
}

impl View for JsonScalar {
    type V = JsonScalarView;

    open spec fn view(&self) -> JsonScalarView {
        match self {
            JsonScalar::Null => JsonScalarView::Null,
            JsonScalar::Bool(b) => JsonScalarView::Bool(*b),
            JsonScalar::Integer(v) => JsonScalarView::Integer(*v as int),
            JsonScalar::Double(bits) => JsonScalarView::Double(*bits),
            JsonScalar::Text(s) => JsonScalarView::Text(s@),
        }
    }
}

/// The dispatch table from declared type names to kinds. The match is
/// case-sensitive; a name outside the table is `Unsupported`.
pub open spec fn kind_of(declared_type: Seq<char>) -> ValueKind {
    if declared_type == "INT8"@ || declared_type == "INTEGER"@ || declared_type == "BIGINT"@ {
        ValueKind::Int64
    } else if declared_type == "INT4"@ {
        ValueKind::Int32
    } else if declared_type == "FLOAT4"@ || declared_type == "FLOAT8"@ || declared_type == "NUMERIC"@
        || declared_type == "DECIMAL"@ {
        ValueKind::Float
    } else if declared_type == "BOOL"@ {
        ValueKind::Bool
    } else if declared_type == "VARCHAR"@ || declared_type == "TEXT"@ || declared_type == "CHAR"@ {
        ValueKind::Text
    } else if declared_type == "TIMESTAMP"@ || declared_type == "TIMESTAMPTZ"@ {
        ValueKind::Timestamp
    } else {
        ValueKind::Unsupported
    }
}

/// Whether `declared_type` is one of the aliases that the dispatch table lists.
pub open spec fn is_alias(declared_type: Seq<char>) -> bool {
    ||| declared_type == "INT8"@
    ||| declared_type == "INTEGER"@
    ||| declared_type == "BIGINT"@
    ||| declared_type == "INT4"@
    ||| declared_type == "FLOAT4"@
    ||| declared_type == "FLOAT8"@
    ||| declared_type == "NUMERIC"@
    ||| declared_type == "DECIMAL"@
    ||| declared_type == "BOOL"@
    ||| declared_type == "VARCHAR"@
    ||| declared_type == "TEXT"@
    ||| declared_type == "CHAR"@
    ||| declared_type == "TIMESTAMP"@
    ||| declared_type == "TIMESTAMPTZ"@
}

/// The kind of a value; `Null` is of no kind.
pub open spec fn variant_kind(value: DbValueView) -> Option<ValueKind> {
    match value {
        DbValueView::Int(_) => Some(ValueKind::Int64),
        DbValueView::Int32(_) => Some(ValueKind::Int32),
        DbValueView::Float(_) => Some(ValueKind::Float),
        DbValueView::Bool(_) => Some(ValueKind::Bool),
        DbValueView::String(_) => Some(ValueKind::Text),
        DbValueView::Timestamp(_) => Some(ValueKind::Timestamp),
        DbValueView::Unsupported => Some(ValueKind::Unsupported),
        DbValueView::Null => None,
    }
}

/// How a value renders as a JSON scalar: integers as numbers with their exact
/// value, floats as numbers, booleans and strings as themselves, timestamps as
/// the string the driver gave, and both `Null` and `Unsupported` as null.
pub open spec fn json_of(value: DbValueView) -> JsonScalarView {
    match value {
        DbValueView::Int(v) => JsonScalarView::Integer(v as int),
        DbValueView::Int32(v) => JsonScalarView::Integer(v as int),
        DbValueView::Float(bits) => JsonScalarView::Double(bits),
        DbValueView::Bool(b) => JsonScalarView::Bool(b),
        DbValueView::String(s) => JsonScalarView::Text(s),
        DbValueView::Timestamp(s) => JsonScalarView::Text(s),
        DbValueView::Unsupported => JsonScalarView::Null,
        DbValueView::Null => JsonScalarView::Null,
    }
}

/// Looks a declared type name up in the dispatch table.
pub fn classify(declared_type: &str) -> (kind: ValueKind)
    ensures
        kind == kind_of(declared_type@),
{
    if declared_type.eq("INT8") || declared_type.eq("INTEGER") || declared_type.eq("BIGINT") {
        ValueKind::Int64
    } else if declared_type.eq("INT4") {
        ValueKind::Int32
    } else if declared_type.eq("FLOAT4") || declared_type.eq("FLOAT8") || declared_type.eq("NUMERIC")
        || declared_type.eq("DECIMAL") {
        ValueKind::Float
    } else if declared_type.eq("BOOL") {
        ValueKind::Bool
    } else if declared_type.eq("VARCHAR") || declared_type.eq("TEXT") || declared_type.eq("CHAR") {
        ValueKind::Text
    } else if declared_type.eq("TIMESTAMP") || declared_type.eq("TIMESTAMPTZ") {
        ValueKind::Timestamp
    } else {
        ValueKind::Unsupported
    }
}

impl DbValue {
    /// Renders the value as a JSON scalar.
    pub fn to_json(&self) -> (json: JsonScalar)
        ensures
            json@ == json_of(self@),
    {
        match self {
            DbValue::Int(v) => JsonScalar::Integer(*v),
            DbValue::Int32(v) => JsonScalar::Integer(i64::from(*v)),
            DbValue::Float(bits) => JsonScalar::Double(*bits),
            DbValue::Bool(b) => JsonScalar::Bool(*b),
            DbValue::String(s) => JsonScalar::Text(s.clone()),
            DbValue::Timestamp(s) => JsonScalar::Text(s.clone()),
            DbValue::Unsupported => JsonScalar::Null,
            DbValue::Null => JsonScalar::Null,
        }
    }
}

} // verus!
