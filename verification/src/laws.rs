//! What holds of the library as a whole, proved over the same specification
//! functions that the contracts of its functions use.

use crate::column::{column_info, decoded_row, decoded_value, RawCellView};
use crate::executor::{
    begun, entered, resumed, step_well_formed, well_formed, EventView, ExecutionView, Phase,
    RequestView, Stage, StepView, MAX_ROWS,
};
use crate::pool::DBPool;
use crate::registry::{
    attached, first_match, first_match_from, lemma_first_match_from, resolved, DbErrorView,
    DescriptorView, ResolutionView,
};
use crate::value::{
    is_alias, json_of, kind_of, variant_kind, DbValueView, JsonScalarView, ValueKind,
};
use vstd::prelude::*;

verus! {

/// The length, first and last character of a string: enough to tell the
/// names of the dispatch table apart.
spec fn mark(s: Seq<char>) -> (nat, char, char) {
    (s.len(), s.first(), s.last())
}

proof fn lemma_alias_marks()
    ensures
        mark("INT8"@) == (4nat, 'I', '8'),
        mark("INTEGER"@) == (7nat, 'I', 'R'),
        mark("BIGINT"@) == (6nat, 'B', 'T'),
        mark("INT4"@) == (4nat, 'I', '4'),
        mark("FLOAT4"@) == (6nat, 'F', '4'),
        mark("FLOAT8"@) == (6nat, 'F', '8'),
        mark("NUMERIC"@) == (7nat, 'N', 'C'),
        mark("DECIMAL"@) == (7nat, 'D', 'L'),
        mark("BOOL"@) == (4nat, 'B', 'L'),
        mark("VARCHAR"@) == (7nat, 'V', 'R'),
        mark("TEXT"@) == (4nat, 'T', 'T'),
        mark("CHAR"@) == (4nat, 'C', 'R'),
        mark("TIMESTAMP"@) == (9nat, 'T', 'P'),
        mark("TIMESTAMPTZ"@) == (11nat, 'T', 'Z'),
{
    reveal_strlit("INT8");
    reveal_strlit("INTEGER");
    reveal_strlit("BIGINT");
    reveal_strlit("INT4");
    reveal_strlit("FLOAT4");
    reveal_strlit("FLOAT8");
    reveal_strlit("NUMERIC");
    reveal_strlit("DECIMAL");
    reveal_strlit("BOOL");
    reveal_strlit("VARCHAR");
    reveal_strlit("TEXT");
    reveal_strlit("CHAR");
    reveal_strlit("TIMESTAMP");
    reveal_strlit("TIMESTAMPTZ");
}

/// Every alias of the dispatch table maps to the kind of its group.
pub proof fn lemma_alias_kinds()
    ensures
        kind_of("INT8"@) == ValueKind::Int64,
        kind_of("INTEGER"@) == ValueKind::Int64,
        kind_of("BIGINT"@) == ValueKind::Int64,
        kind_of("INT4"@) == ValueKind::Int32,
        kind_of("FLOAT4"@) == ValueKind::Float,
        kind_of("FLOAT8"@) == ValueKind::Float,
        kind_of("NUMERIC"@) == ValueKind::Float,
        kind_of("DECIMAL"@) == ValueKind::Float,
        kind_of("BOOL"@) == ValueKind::Bool,
        kind_of("VARCHAR"@) == ValueKind::Text,
        kind_of("TEXT"@) == ValueKind::Text,
        kind_of("CHAR"@) == ValueKind::Text,
        kind_of("TIMESTAMP"@) == ValueKind::Timestamp,
        kind_of("TIMESTAMPTZ"@) == ValueKind::Timestamp,
{
    lemma_alias_marks();
}

/// A type name is given a kind other than `Unsupported` exactly when it is
/// one of the table's aliases.
pub proof fn lemma_unsupported_outside_the_table(declared_type: Seq<char>)
    ensures
        is_alias(declared_type) <==> kind_of(declared_type) != ValueKind::Unsupported,
{
}

/// Whether `c` is a lower-case ASCII letter.
pub open spec fn is_lower_case(c: char) -> bool {
    'a' <= c <= 'z'
}

/// Whether no character of `s` is a lower-case ASCII letter.
spec fn has_no_lower_case(s: Seq<char>) -> bool {
    forall|i: int| 0 <= i < s.len() ==> !is_lower_case(#[trigger] s[i])
}

proof fn lemma_aliases_have_no_lower_case()
    ensures
        has_no_lower_case("INT8"@),
        has_no_lower_case("INTEGER"@),
        has_no_lower_case("BIGINT"@),
        has_no_lower_case("INT4"@),
        has_no_lower_case("FLOAT4"@),
        has_no_lower_case("FLOAT8"@),
        has_no_lower_case("NUMERIC"@),
        has_no_lower_case("DECIMAL"@),
        has_no_lower_case("BOOL"@),
        has_no_lower_case("VARCHAR"@),
        has_no_lower_case("TEXT"@),
        has_no_lower_case("CHAR"@),
        has_no_lower_case("TIMESTAMP"@),
        has_no_lower_case("TIMESTAMPTZ"@),
{
    reveal_strlit("INT8");
    reveal_strlit("INTEGER");
    reveal_strlit("BIGINT");
    reveal_strlit("INT4");
    reveal_strlit("FLOAT4");
    reveal_strlit("FLOAT8");
    reveal_strlit("NUMERIC");
    reveal_strlit("DECIMAL");
    reveal_strlit("BOOL");
    reveal_strlit("VARCHAR");
    reveal_strlit("TEXT");
    reveal_strlit("CHAR");
    reveal_strlit("TIMESTAMP");
    reveal_strlit("TIMESTAMPTZ");
}

/// The match on type names is case-sensitive: a name that holds a lower-case
/// letter is outside the table.
pub proof fn lemma_lower_case_is_unsupported(declared_type: Seq<char>, at: int)
    requires
        0 <= at < declared_type.len(),
        is_lower_case(declared_type[at]),
    ensures
        kind_of(declared_type) == ValueKind::Unsupported,
{
    lemma_aliases_have_no_lower_case();
}

/// `Null` and `Unsupported` render alike, as JSON null, and nothing else
/// renders as null.
pub proof fn lemma_null_and_unsupported_render_alike(value: DbValueView)
    ensures
        json_of(DbValueView::Null) == JsonScalarView::Null,
        json_of(DbValueView::Unsupported) == JsonScalarView::Null,
        json_of(value) == JsonScalarView::Null <==> (value == DbValueView::Null || value
            == DbValueView::Unsupported),
{
}

/// Whether the typed read that the declared type of `cell` calls for
/// succeeded. A type outside the table calls for no read.
pub open spec fn read_succeeded(cell: RawCellView) -> bool {
    match kind_of(cell.declared_type) {
        ValueKind::Int64 => cell.int64.is_some(),
        ValueKind::Int32 => cell.int32.is_some(),
        ValueKind::Float => cell.float_bits.is_some(),
        ValueKind::Bool => cell.boolean.is_some(),
        ValueKind::Text => cell.text.is_some(),
        ValueKind::Timestamp => cell.text.is_some(),
        ValueKind::Unsupported => true,
    }
}

/// A cell decodes to a value of the kind that its declared type maps to if
/// the typed read succeeded, and to `Null` if it failed.
pub proof fn lemma_decoded_kind(cell: RawCellView)
    ensures
        read_succeeded(cell) ==> variant_kind(decoded_value(cell)) == Some(
            kind_of(cell.declared_type),
        ),
        !read_succeeded(cell) ==> decoded_value(cell) == DbValueView::Null,
        !is_alias(cell.declared_type) ==> decoded_value(cell) == DbValueView::Unsupported,
{
}

/// Decoding a row never fails and treats each cell on its own: the row comes
/// out as long as it went in, and replacing one cell changes the decoded
/// value at that index only.
pub proof fn lemma_cells_decode_independently(row: Seq<RawCellView>, at: int, other: RawCellView)
    requires
        0 <= at < row.len(),
    ensures
        decoded_row(row).len() == row.len(),
        decoded_row(row.update(at, other)).len() == row.len(),
        forall|j: int|
            0 <= j < row.len() && j != at ==> decoded_row(row.update(at, other))[j]
                == decoded_row(row)[j],
        decoded_row(row.update(at, other))[at] == column_info(other, at as usize),
{
}

/// While rows are fetched, a row is kept whatever its cells hold: the
/// execution goes on, or moves to the count once the cap is reached. No row
/// ends the execution with a driver error.
pub proof fn lemma_rows_never_fail(
    descriptors: Seq<DescriptorView>,
    run: ExecutionView,
    cells: Seq<RawCellView>,
    closed: bool,
)
    requires
        run.phase == Phase::Fetching,
        well_formed(run),
    ensures
        ({
            let kept = ExecutionView { rows: run.rows.push(decoded_row(cells)), ..run };
            let step = resumed(descriptors, run, EventView::Row(cells), closed).1;
            if run.rows.len() + 1 < MAX_ROWS {
                step == StepView::Next(kept, RequestView::NextRow)
            } else {
                step == entered(descriptors, kept, Stage::Count, closed)
            }
        }),
        resumed(descriptors, run, EventView::Row(cells), closed).0 == descriptors,
{
}

/// The lookup finds the first descriptor with the id, and finds none exactly
/// when no descriptor has it.
pub proof fn lemma_first_match(descriptors: Seq<DescriptorView>, id: Seq<char>)
    ensures
        match first_match(descriptors, id) {
            Some(i) => {
                &&& 0 <= i < descriptors.len()
                &&& descriptors[i].id == id
                &&& forall|j: int| 0 <= j < i ==> (#[trigger] descriptors[j]).id != id
            },
            None => forall|j: int|
                0 <= j < descriptors.len() ==> (#[trigger] descriptors[j]).id != id,
        },
{
    lemma_first_match_from(descriptors, id, 0);
}

/// Offering a pool changes no id and no URL, so every id resolves to the same
/// descriptor before and after.
pub proof fn lemma_attach_keeps_matches(
    descriptors: Seq<DescriptorView>,
    id: Seq<char>,
    pool: DBPool,
    other: Seq<char>,
)
    ensures
        attached(descriptors, id, pool).len() == descriptors.len(),
        first_match(attached(descriptors, id, pool), other) == first_match(descriptors, other),
        forall|j: int|
            0 <= j < descriptors.len() ==> {
                &&& (#[trigger] attached(descriptors, id, pool)[j]).id == descriptors[j].id
                &&& attached(descriptors, id, pool)[j].url == descriptors[j].url
            },
{
    lemma_first_match(descriptors, id);
    let after = attached(descriptors, id, pool);
    assert forall|j: int| 0 <= j < descriptors.len() implies (#[trigger] after[j]).id
        == descriptors[j].id && after[j].url == descriptors[j].url by {}
    lemma_same_ids_same_match(descriptors, after, other, 0);
}

/// Two registries with the same ids, index by index, resolve every id to the
/// same index.
pub proof fn lemma_same_ids_same_match(
    left: Seq<DescriptorView>,
    right: Seq<DescriptorView>,
    id: Seq<char>,
    from: int,
)
    requires
        0 <= from,
        left.len() == right.len(),
        forall|j: int| 0 <= j < left.len() ==> (#[trigger] left[j]).id == right[j].id,
    ensures
        first_match_from(left, id, from) == first_match_from(right, id, from),
    decreases left.len() - from,
{
    if from < left.len() {
        assert(left[from].id == right[from].id);
        if left[from].id != id {
            lemma_same_ids_same_match(left, right, id, from + 1);
        }
    }
}

/// A descriptor gets its pool once. After a pool has been offered for an id
/// that some descriptor has, resolving that id never asks for a connection
/// again, and a second pool offered for the same id changes nothing: the
/// registry holds the pool that was there first.
pub proof fn lemma_connect_once(
    descriptors: Seq<DescriptorView>,
    id: Seq<char>,
    first: DBPool,
    second: DBPool,
    closed: bool,
)
    ensures
        attached(attached(descriptors, id, first), id, second) == attached(descriptors, id, first),
        first_match(descriptors, id).is_some() ==> !(resolved(
            attached(descriptors, id, first),
            id,
            closed,
        ) matches Ok(ResolutionView::MustConnect { .. })),
        first_match(descriptors, id) matches Some(i) ==> attached(
            descriptors,
            id,
            first,
        )[i].connection == (match descriptors[i].connection {
            Some(pool) => Some(pool),
            None => Some(first),
        }),
{
    lemma_first_match(descriptors, id);
    lemma_attach_keeps_matches(descriptors, id, first, id);
}

/// The registry only grows: resuming an execution removes no descriptor,
/// changes no id and no URL, and never takes away or replaces a pool that a
/// descriptor already has.
pub proof fn lemma_registry_only_grows(
    descriptors: Seq<DescriptorView>,
    run: ExecutionView,
    event: EventView,
    closed: bool,
)
    ensures
        ({
            let after = resumed(descriptors, run, event, closed).0;
            &&& descriptors.len() <= after.len() <= descriptors.len() + 1
            &&& forall|j: int|
                0 <= j < descriptors.len() ==> {
                    &&& (#[trigger] after[j]).id == descriptors[j].id
                    &&& after[j].url == descriptors[j].url
                    &&& descriptors[j].connection.is_some() ==> after[j].connection
                        == descriptors[j].connection
                }
        }),
{
    match (run.phase, event) {
        (Phase::Connecting(_), EventView::Connected(pool)) => {
            lemma_first_match(descriptors, run.connection_id);
        },
        _ => {},
    }
}

/// An id that no descriptor has resolves to `ConnectionNotFound`, and an
/// execution against it in a registry that holds descriptors ends at once
/// with that error: it makes no request.
pub proof fn lemma_missing_id_is_not_found(
    descriptors: Seq<DescriptorView>,
    id: Seq<char>,
    sql: Seq<char>,
    closed: bool,
)
    requires
        forall|j: int| 0 <= j < descriptors.len() ==> (#[trigger] descriptors[j]).id != id,
    ensures
        first_match(descriptors, id).is_none(),
        resolved(descriptors, id, closed) == Err::<ResolutionView, DbErrorView>(
            DbErrorView::ConnectionNotFound,
        ),
        descriptors.len() > 0 ==> begun(descriptors, id, sql, closed) == StepView::Done(
            Err(DbErrorView::ConnectionNotFound),
        ),
{
    lemma_first_match(descriptors, id);
}

/// A pool that reports itself closed fails the resolution with `PoolClosed`.
/// Entering either stage then ends the execution with that error: no
/// connection is asked for, and the registry is left as it is.
pub proof fn lemma_closed_pool_fails_fast(
    descriptors: Seq<DescriptorView>,
    run: ExecutionView,
    stage: Stage,
)
    requires
        first_match(descriptors, run.connection_id) matches Some(i) && descriptors[i].connection
            matches Some(DBPool::PostgresCon(_)),
    ensures
        resolved(descriptors, run.connection_id, true) == Err::<ResolutionView, DbErrorView>(
            DbErrorView::PoolClosed,
        ),
        entered(descriptors, run, stage, true) == StepView::Done(Err(DbErrorView::PoolClosed)),
        begun(descriptors, run.connection_id, run.sql, true) == StepView::Done(
            Err(DbErrorView::PoolClosed),
        ),
        resumed(descriptors, run, EventView::EndOfRows, true).0 == descriptors,
{
    lemma_first_match(descriptors, run.connection_id);
}

/// The row cap holds at every step: a well-formed execution stays well formed
/// however it is resumed, and a result never holds more than `MAX_ROWS` rows.
pub proof fn lemma_row_cap(
    descriptors: Seq<DescriptorView>,
    run: ExecutionView,
    event: EventView,
    closed: bool,
)
    requires
        well_formed(run),
    ensures
        step_well_formed(resumed(descriptors, run, event, closed).1),
        step_well_formed(begun(descriptors, run.connection_id, run.sql, closed)),
{
}

/// The total that a result reports is the one the counting statement gave,
/// whatever the number of rows kept.
pub proof fn lemma_total_is_reported(
    descriptors: Seq<DescriptorView>,
    run: ExecutionView,
    total: i64,
    closed: bool,
)
    requires
        run.phase == Phase::Counting,
    ensures
        resumed(descriptors, run, EventView::Total(total), closed).1 matches StepView::Done(
            Ok(result),
        ) && result.size.total == total && result.data == run.rows && result.sql == run.sql
            && result.connection_id == run.connection_id,
{
}

} // verus!
