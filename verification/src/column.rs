//! The column decoder: from a cell as the driver hands it over to a typed
//! value, by the column's declared type.

use crate::value::{classify, kind_of, DbValue, DbValueView, ValueKind};
use vstd::prelude::*;

verus! {

/// One cell of a fetched row, as plain values: the column's name, its declared
/// type name, and what a typed read of the cell gives for each type the
/// decoder may ask for. A read that fails, as it does on SQL NULL or on a type
/// that does not fit, is `None`. `float_bits` is the binary64 bit pattern of
/// the number read.
#[derive(Debug, Clone, PartialEq, Eq)]
pub struct RawCell {
    pub name: String,
    pub declared_type: String,
    pub int64: Option<i64>,
    pub int32: Option<i32>,
    pub float_bits: Option<u64>,
    pub boolean: Option<bool>,
    pub text: Option<String>,
}

/// The mathematical content of a [`RawCell`].
pub struct RawCellView {
    pub name: Seq<char>,
    pub declared_type: Seq<char>,
    pub int64: Option<i64>,
    pub int32: Option<i32>,
    pub float_bits: Option<u64>,
    pub boolean: Option<bool>,
    pub text: Option<Seq<char>>,
}

impl View for RawCell {
    type V = RawCellView;

    open spec fn view(&self) -> RawCellView {
        RawCellView {
            name: self.name@,
            declared_type: self.declared_type@,
            int64: self.int64,
            int32: self.int32,
            float_bits: self.float_bits,
            boolean: self.boolean,
            text: match self.text {
                Some(s) => Some(s@),
                None => None,
            },
        }
    }
}

/// A decoded cell with its place in the row: zero-based index, column name,
/// declared type name and typed value.
#[derive(Debug, Clone, PartialEq, Eq)]
pub struct ColumnValue {
    pub index: usize,
    pub name: String,
    pub declared_type: String,
    pub value: DbValue,
}

/// The mathematical content of a [`ColumnValue`].
pub struct ColumnValueView {
    pub index: usize,
    pub name: Seq<char>,
    pub declared_type: Seq<char>,
    pub value: DbValueView,
}

impl View for ColumnValue {
    type V = ColumnValueView;

    open spec fn view(&self) -> ColumnValueView {
        ColumnValueView {
            index: self.index,
            name: self.name@,
            declared_type: self.declared_type@,
            value: self.value@,
        }
    }
}

/// The views of a row of cells, in order.
pub open spec fn cell_views(row: Seq<RawCell>) -> Seq<RawCellView> {
    Seq::new(row.len(), |i: int| row[i]@)
}

/// The views of a row of decoded columns, in order.
pub open spec fn column_views(row: Seq<ColumnValue>) -> Seq<ColumnValueView> {
    Seq::new(row.len(), |i: int| row[i]@)
}

/// The views of a sequence of decoded rows, in order.
pub open spec fn row_views(rows: Seq<Vec<ColumnValue>>) -> Seq<Seq<ColumnValueView>> {
    Seq::new(rows.len(), |i: int| column_views(rows[i]@))
}

/// The typed value of a cell: the read that its declared type calls for, or
/// `Null` where that read failed; `Unsupported` for a type outside the table.
pub open spec fn decoded_value(cell: RawCellView) -> DbValueView {
    match kind_of(cell.declared_type) {
        ValueKind::Int64 => match cell.int64 {
            Some(v) => DbValueView::Int(v),
            None => DbValueView::Null,
        },
        ValueKind::Int32 => match cell.int32 {
            Some(v) => DbValueView::Int32(v),
            None => DbValueView::Null,
        },
        ValueKind::Float => match cell.float_bits {
            Some(bits) => DbValueView::Float(bits),
            None => DbValueView::Null,
        },
        ValueKind::Bool => match cell.boolean {
            Some(b) => DbValueView::Bool(b),
            None => DbValueView::Null,
        },
        ValueKind::Text => match cell.text {
            Some(s) => DbValueView::String(s),
            None => DbValueView::Null,
        },
        ValueKind::Timestamp => match cell.text {
            Some(s) => DbValueView::Timestamp(s),
            None => DbValueView::Null,
        },
        ValueKind::Unsupported => DbValueView::Unsupported,
    }
}

/// What decoding the cell at `index` gives.
pub open spec fn column_info(cell: RawCellView, index: usize) -> ColumnValueView {
    ColumnValueView {
        index,
        name: cell.name,
        declared_type: cell.declared_type,
        value: decoded_value(cell),
    }
}

/// What decoding a whole row gives: each cell decoded at its own index.
pub open spec fn decoded_row(row: Seq<RawCellView>) -> Seq<ColumnValueView> {
    Seq::new(row.len(), |i: int| column_info(row[i], i as usize))
}

/// Decodes the cell at `idx` of `row`. A failed typed read never fails the
/// decoding: it gives `Null`.
pub fn get_column_info(row: &Vec<RawCell>, idx: usize) -> (info: ColumnValue)
    requires
        idx < row.len(),
    ensures
        info@ == column_info(row[idx as int]@, idx),
{
    let cell = &row[idx];
    let value = match classify(cell.declared_type.as_str()) {
        ValueKind::Int64 => match cell.int64 {
            Some(v) => DbValue::Int(v),
            None => DbValue::Null,
        },
        ValueKind::Int32 => match cell.int32 {
            Some(v) => DbValue::Int32(v),
            None => DbValue::Null,
        },
        ValueKind::Float => match cell.float_bits {
            Some(bits) => DbValue::Float(bits),
            None => DbValue::Null,
        },
        ValueKind::Bool => match cell.boolean {
            Some(b) => DbValue::Bool(b),
            None => DbValue::Null,
        },
        ValueKind::Text => match &cell.text {
            Some(s) => DbValue::String(s.clone()),
            None => DbValue::Null,
        },
        ValueKind::Timestamp => match &cell.text {
            Some(s) => DbValue::Timestamp(s.clone()),
            None => DbValue::Null,
        },
        ValueKind::Unsupported => DbValue::Unsupported,
    };
    ColumnValue {
        index: idx,
        name: cell.name.clone(),
        declared_type: cell.declared_type.clone(),
        value,
    }
}

/// Decodes every cell of `row`, in order.
pub fn decode_row(row: &Vec<RawCell>) -> (decoded: Vec<ColumnValue>)
    ensures
        column_views(decoded@) == decoded_row(cell_views(row@)),
{
    let mut decoded: Vec<ColumnValue> = Vec::new();
    let mut i: usize = 0;
    while i < row.len()
        invariant
            i <= row.len(),
            decoded.len() == i,
            forall|j: int| 0 <= j < i ==> (#[trigger] decoded[j])@ == column_info(row[j]@, j as usize),
        decreases row.len() - i,
    {
        let info = get_column_info(row, i);
        decoded.push(info);
        i += 1;
    }
    assert(column_views(decoded@) =~= decoded_row(cell_views(row@)));
    decoded
}

} // verus!
