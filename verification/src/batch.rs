//! Record batches as the limit reads them, and the cut that keeps the first
//! rows of one.
//!
//! The batches are arrow's. Verus sees nothing inside one, so what a batch
//! holds is named here and the calls into arrow are stated over those names;
//! the statements are believed, not proved.

use vstd::prelude::*;
use vstd::math::min;
use vstd::pervasive::unreached;
use arrow::datatypes::DataType;
use arrow::datatypes::Schema;
use arrow::datatypes::SchemaRef;
use arrow::error::ArrowError;
use arrow::record_batch::RecordBatch;
use crate::column::column_cells;
use crate::column::column_type;
use crate::column::is_native;
use crate::column::limit;
use crate::column::native;
use crate::column::Column;

verus! {

/// Arrow's record batch: columns of equal length under a schema.
#[verifier::external_type_specification]
#[verifier::external_body]
pub struct ExRecordBatch(RecordBatch);

/// Arrow's schema: the named, typed fields of a batch.
#[verifier::external_type_specification]
#[verifier::external_body]
pub struct ExSchema(Schema);

/// Arrow's error: what an input stream fails with. It is carried through
/// and never looked into.
#[verifier::external_type_specification]
#[verifier::external_body]
pub struct ExArrowError(ArrowError);

/// The schema that a batch declares.
pub uninterp spec fn batch_schema(batch: RecordBatch) -> Schema;

/// The columns of a batch, in order.
pub uninterp spec fn batch_columns(batch: RecordBatch) -> Seq<Column>;

/// The data types of a schema's fields, in order.
pub uninterp spec fn schema_types(schema: Schema) -> Seq<DataType>;

/// Whether columns can stand under a schema: there is at least one, there
/// are as many as the schema has fields, all are equally long, and each has
/// the data type of its field.
pub open spec fn fits(schema: Schema, columns: Seq<Column>) -> bool {
    &&& columns.len() > 0
    &&& schema_types(schema).len() == columns.len()
    &&& forall|i: int|
        0 <= i < columns.len() ==> {
            &&& (#[trigger] column_cells(columns[i])).len() == column_cells(columns[0]).len()
            &&& column_type(columns[i]) == schema_types(schema)[i]
        }
}

/// Whether every column is the array that arrow builds for its data type,
/// so that arrow can cut it.
pub open spec fn all_native(columns: Seq<Column>) -> bool {
    forall|i: int| 0 <= i < columns.len() ==> native(#[trigger] columns[i])
}

/// Whether a batch keeps the invariant of record batches: its columns stand
/// under its schema, and each is the array that arrow builds for its data
/// type.
pub open spec fn well_formed(batch: RecordBatch) -> bool {
    &&& fits(batch_schema(batch), batch_columns(batch))
    &&& all_native(batch_columns(batch))
}

/// The number of rows of a batch: the length of its first column.
pub open spec fn batch_rows(batch: RecordBatch) -> nat {
    column_cells(batch_columns(batch)[0]).len()
}

/// Whether `short` is `long` cut to its first `n` rows: the same schema, the
/// same columns with the same data types, and of each column the first `n`
/// values, or all of them where there are fewer.
pub open spec fn is_truncation(short: RecordBatch, long: RecordBatch, n: nat) -> bool {
    &&& well_formed(short)
    &&& batch_schema(short) == batch_schema(long)
    &&& batch_columns(short).len() == batch_columns(long).len()
    &&& batch_rows(short) == min(batch_rows(long) as int, n as int)
    &&& forall|i: int|
        0 <= i < batch_columns(long).len() ==> {
            &&& column_type(#[trigger] batch_columns(short)[i]) == column_type(
                batch_columns(long)[i],
            )
            &&& column_cells(batch_columns(short)[i]) == column_cells(batch_columns(long)[i]).take(
                min(batch_rows(long) as int, n as int),
            )
        }
}

/// Whether two batches hold the same: the same schema and, column by column,
/// the same data type and the same values.
pub open spec fn same_content(a: RecordBatch, b: RecordBatch) -> bool {
    &&& batch_schema(a) == batch_schema(b)
    &&& batch_columns(a).len() == batch_columns(b).len()
    &&& forall|i: int|
        0 <= i < batch_columns(b).len() ==> {
            &&& column_type(#[trigger] batch_columns(a)[i]) == column_type(batch_columns(b)[i])
            &&& column_cells(batch_columns(a)[i]) == column_cells(batch_columns(b)[i])
        }
}

/// `RecordBatch::num_columns`: the number of columns of the batch.
#[verifier::external_body]
fn num_columns(batch: &RecordBatch) -> (n: usize)
    ensures
        n == batch_columns(*batch).len(),
{
    batch.num_columns()
}

/// `RecordBatch::num_rows`: the length of the first column. Arrow indexes
/// that column without a check, so a batch without columns is left out.
#[verifier::external_body]
pub(crate) fn num_rows(batch: &RecordBatch) -> (n: usize)
    requires
        batch_columns(*batch).len() > 0,
    ensures
        n == column_cells(batch_columns(*batch)[0]).len(),
{
    batch.num_rows()
}

/// `RecordBatch::column`: the column at `index`, which must be one of the
/// batch's. The pointer is copied, the array is shared.
#[verifier::external_body]
fn column(batch: &RecordBatch, index: usize) -> (c: Column)
    requires
        index < batch_columns(*batch).len(),
    ensures
        c == batch_columns(*batch)[index as int],
{
    Column { inner: batch.column(index).clone() }
}

/// `RecordBatch::schema`: the schema of the batch, shared.
#[verifier::external_body]
fn schema(batch: &RecordBatch) -> (s: SchemaRef)
    ensures
        *s == batch_schema(*batch),
{
    batch.schema()
}

/// `RecordBatch::try_new`: a batch of the given schema and columns. Arrow
/// makes it exactly when there is a column, the schema has as many fields as
/// there are columns, every column is as long as the first and every column
/// has the data type of its field; otherwise it returns an error.
#[verifier::external_body]
fn try_new(schema: SchemaRef, columns: Vec<Column>) -> (r: Result<RecordBatch, ArrowError>)
    ensures
        r is Ok <==> {
            &&& columns@.len() > 0
            &&& schema_types(*schema).len() == columns@.len()
            &&& forall|i: int|
                0 <= i < columns@.len() ==> {
                    &&& (#[trigger] column_cells(columns@[i])).len() == column_cells(
                        columns@[0],
                    ).len()
                    &&& column_type(columns@[i]) == schema_types(*schema)[i]
                }
        },
        r matches Ok(batch) ==> batch_schema(batch) == *schema && batch_columns(batch)
            == columns@,
{
    RecordBatch::try_new(schema, columns.into_iter().map(|c| c.inner).collect())
}

/// Tests whether a batch has a column, and with it a number of rows.
pub fn has_columns(batch: &RecordBatch) -> (yes: bool)
    ensures
        yes == (batch_columns(*batch).len() > 0),
{
    num_columns(batch) > 0
}

/// Tests whether a batch keeps the invariant of record batches: its columns
/// are held against its schema as arrow does when it makes a batch, and each
/// is held against the array that arrow builds for its data type.
pub fn is_well_formed(batch: &RecordBatch) -> (ok: bool)
    ensures
        ok == well_formed(*batch),
{
    let count = num_columns(batch);
    let mut columns: Vec<Column> = Vec::new();
    let mut natives = true;
    let mut i: usize = 0;
    while i < count
        invariant
            count == batch_columns(*batch).len(),
            i <= count,
            columns@ == batch_columns(*batch).take(i as int),
            natives == all_native(columns@),
        decreases count - i,
    {
        let next = column(batch, i);
        let ghost before = columns@;
        let next_native = is_native(&next);
        columns.push(next);
        proof {
            assert(columns@ =~= batch_columns(*batch).take(i + 1));
            assert(columns@[i as int] == next);
            assert forall|j: int| 0 <= j < before.len() implies columns@[j] == before[j] by {}
            if all_native(before) && next_native {
                assert(all_native(columns@));
            } else if !next_native {
                assert(!all_native(columns@));
            } else {
                let bad = choose|j: int| 0 <= j < before.len() && !native(#[trigger] before[j]);
                assert(columns@[bad] == before[bad]);
            }
        }
        natives = natives && next_native;
        i += 1;
    }
    assert(columns@ =~= batch_columns(*batch));
    let rebuilt = try_new(schema(batch), columns);
    assert(rebuilt is Ok <==> fits(batch_schema(*batch), batch_columns(*batch)));
    rebuilt.is_ok() && natives
}

/// Truncates a batch to at most `n` rows: the result has the schema of
/// `batch` and, of every column, the first `n` values, or all of them where
/// the batch has no more than `n` rows.
pub fn truncate_batch(batch: &RecordBatch, n: usize) -> (out: RecordBatch)
    requires
        well_formed(*batch),
    ensures
        is_truncation(out, *batch, n as nat),
        n >= batch_rows(*batch) ==> same_content(out, *batch),
{
    let count = num_columns(batch);
    let ghost rows = batch_rows(*batch);
    let ghost keep = min(rows as int, n as int);
    let mut limited_columns: Vec<Column> = Vec::new();
    let mut i: usize = 0;
    while i < count
        invariant
            well_formed(*batch),
            count == batch_columns(*batch).len(),
            rows == batch_rows(*batch),
            keep == min(rows as int, n as int),
            i <= count,
            limited_columns@.len() == i,
            forall|j: int|
                0 <= j < i ==> {
                    &&& native(limited_columns@[j])
                    &&& column_type(#[trigger] limited_columns@[j]) == column_type(
                        batch_columns(*batch)[j],
                    )
                    &&& column_cells(limited_columns@[j]) == column_cells(
                        batch_columns(*batch)[j],
                    ).take(keep)
                },
        decreases count - i,
    {
        let whole = column(batch, i);
        assert(column_cells(batch_columns(*batch)[i as int]).len() == rows);
        assert(native(batch_columns(*batch)[i as int]));
        let cut = limit(&whole, n);
        limited_columns.push(cut);
        i += 1;
    }
    assert forall|j: int| 0 <= j < limited_columns@.len() implies {
        &&& (#[trigger] column_cells(limited_columns@[j])).len() == column_cells(
            limited_columns@[0],
        ).len()
        &&& column_type(limited_columns@[j]) == schema_types(batch_schema(*batch))[j]
    } by {
        assert(column_cells(batch_columns(*batch)[j]).len() == rows);
        assert(column_cells(batch_columns(*batch)[0]).len() == rows);
        assert(column_cells(limited_columns@[j]).len() == keep);
        assert(column_cells(limited_columns@[0]).len() == keep);
    }
    match try_new(schema(batch), limited_columns) {
        Ok(out) => {
            proof {
                assert(column_cells(batch_columns(out)[0]).len() == keep);
                assert forall|j: int| 0 <= j < batch_columns(out).len() implies native(
                    #[trigger] batch_columns(out)[j],
                ) by {
                    assert(column_type(batch_columns(out)[j]) == column_type(
                        batch_columns(*batch)[j],
                    ));
                }
                if n >= rows {
                    lemma_truncation_to_all_rows(out, *batch, n as nat);
                }
            }
            out
        },
        Err(_) => unreached(),
    }
}

/// Cutting a batch to as many rows as it has, or to more, changes nothing
/// of what it holds.
pub proof fn lemma_truncation_to_all_rows(short: RecordBatch, long: RecordBatch, n: nat)
    requires
        well_formed(long),
        is_truncation(short, long, n),
        n >= batch_rows(long),
    ensures
        same_content(short, long),
        batch_rows(short) == batch_rows(long),
{
    let rows = batch_rows(long);
    assert forall|i: int| 0 <= i < batch_columns(long).len() implies {
        &&& column_type(#[trigger] batch_columns(short)[i]) == column_type(batch_columns(long)[i])
        &&& column_cells(batch_columns(short)[i]) == column_cells(batch_columns(long)[i])
    } by {
        let cells = column_cells(batch_columns(long)[i]);
        assert(cells.len() == rows);
        assert(cells.take(rows as int) =~= cells);
    }
}

} // verus!
