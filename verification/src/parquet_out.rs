//! Encoding collected rows as a Parquet file held in memory: a fixed
//! three-field schema, exactly one row group, all rows written in one bulk
//! operation. The Parquet library is an external collaborator; what it
//! encodes for a given schema and row-group contents is named, not restated.

use vstd::prelude::*;

use parquet::data_type::{ByteArray, ByteArrayType, Int64Type};
use parquet::errors::ParquetError;

use crate::record::{row_view, BedRecord};

verus! {

#[verifier::external_type_specification]
#[verifier::external_body]
pub struct ExParquetError(parquet::errors::ParquetError);

/// A Parquet file writer over an in-memory buffer. The writer itself comes
/// from the Parquet library; Verus sees it only through the named functions
/// below. (`SerializedFileWriter` is generic over an `std::io::Write` sink,
/// a trait Verus refuses in a type declaration, so the writer sits in a
/// private field of this struct instead.)
#[verifier::external_body]
pub struct RowWriter {
    inner: parquet::file::writer::SerializedFileWriter<Vec<u8>>,
}

/// The row groups a file writer holds so far, oldest first: each group is a
/// sequence of rows, each row a reference sequence name and two positions.
pub uninterp spec fn writer_groups(w: RowWriter) -> Seq<Seq<(Seq<char>, int, int)>>;

/// The schema text a file writer was opened with: an attribute of the
/// writer's history. No contract ever equates two independently opened
/// writers, so each keeps the text of its own opening.
pub uninterp spec fn writer_schema_text(w: RowWriter) -> Seq<char>;

/// Whether a file writer was opened with the library's default writer
/// properties (no compression, default encodings).
pub uninterp spec fn writer_made_default(w: RowWriter) -> bool;

/// The bytes of the finished Parquet file that a default-properties writer
/// produces for a given schema text and sequence of row groups.
pub uninterp spec fn parquet_bytes_of(
    schema: Seq<char>,
    groups: Seq<Seq<(Seq<char>, int, int)>>,
) -> Seq<u8>;

/// One row group assembled from three parallel columns, row by row.
pub open spec fn rows_of_columns(
    names: Seq<Seq<char>>,
    starts: Seq<int>,
    ends: Seq<int>,
) -> Seq<(Seq<char>, int, int)> {
    Seq::new(names.len(), |i: int| (names[i], starts[i], ends[i]))
}

/// The mathematical content of a row sequence.
pub open spec fn rows_view(rows: Seq<BedRecord>) -> Seq<(Seq<char>, int, int)> {
    rows.map_values(|b: BedRecord| row_view(b))
}

/// Whether a row's positions fit the signed 64-bit output columns.
pub open spec fn row_fits(b: BedRecord) -> bool {
    b.start_position <= i64::MAX as u64 && b.end_position <= i64::MAX as u64
}

/// Whether every row of a sequence fits the output columns.
pub open spec fn all_rows_fit(rows: Seq<BedRecord>) -> bool {
    forall|i: int| 0 <= i < rows.len() ==> row_fits(rows[i])
}

/// Whether a row's mathematical content fits the signed 64-bit output
/// columns.
pub open spec fn row_tuple_fits(t: (Seq<char>, int, int)) -> bool {
    t.1 <= i64::MAX && t.2 <= i64::MAX
}

/// Whether every row of a mathematical row sequence fits the output columns.
pub open spec fn all_row_tuples_fit(s: Seq<(Seq<char>, int, int)>) -> bool {
    forall|i: int| 0 <= i < s.len() ==> row_tuple_fits(#[trigger] s[i])
}

/// A row's content fits exactly when the row does: the two statements of the
/// overflow bound agree.
pub proof fn lemma_rows_fit_view(rows: Seq<BedRecord>)
    ensures
        all_rows_fit(rows) <==> all_row_tuples_fit(rows_view(rows)),
{
    if all_rows_fit(rows) {
        assert forall|i: int| 0 <= i < rows_view(rows).len() implies row_tuple_fits(
            #[trigger] rows_view(rows)[i],
        ) by {
            assert(row_fits(rows[i]));
            assert(rows_view(rows)[i] == row_view(rows[i]));
        }
    }
    if all_row_tuples_fit(rows_view(rows)) {
        assert forall|i: int| 0 <= i < rows.len() implies row_fits(#[trigger] rows[i]) by {
            assert(row_tuple_fits(rows_view(rows)[i]));
            assert(rows_view(rows)[i] == row_view(rows[i]));
        }
    }
}

/// The schema of every output file: three required fields, the name as a
/// UTF-8 byte string and both positions as 64-bit integers.
pub open spec fn bed_schema_text() -> Seq<char> {
    "message schema { REQUIRED BYTE_ARRAY reference_sequence_name (UTF8); REQUIRED INT64 start_position; REQUIRED INT64 end_position; }"@
}

/// The constant schema text, as a value the writer can be opened with.
pub fn bed_schema_message() -> (r: &'static str)
    ensures
        r@ == bed_schema_text(),
{
    "message schema { REQUIRED BYTE_ARRAY reference_sequence_name (UTF8); REQUIRED INT64 start_position; REQUIRED INT64 end_position; }"
}

/// What can go wrong while encoding rows into a Parquet file. Under the
/// constant schema the contracts rule the two Parquet-side variants out; the
/// encoder still surfaces them rather than swallow a failure, should an
/// assumption about the writer not hold.
#[derive(Debug)]
pub enum WriteError {
    /// A position does not fit the signed 64-bit output column.
    PositionOverflow,
    /// The schema text failed to parse, or the writer could not be opened
    /// over it: a build-time defect when the constant schema is used.
    Schema(parquet::errors::ParquetError),
    /// The row group could not be written or the file footer not finalized.
    Write(parquet::errors::ParquetError),
}

/// Relies on `parquet::schema::parser::parse_message_type`,
/// `WriterProperties::builder` and `SerializedFileWriter::new`: opens a file
/// writer over a fresh in-memory buffer, bound to the parsed schema, with the
/// default writer properties, holding no row groups yet. The constant schema
/// text parses, and opening a writer only writes the magic bytes into the
/// in-memory buffer, which cannot fail: with that text the call succeeds.
#[verifier::external_body]
fn new_row_writer(schema: &str) -> (r: Result<RowWriter, parquet::errors::ParquetError>)
    ensures
        r is Ok ==> writer_schema_text(r->Ok_0) == schema@
            && writer_groups(r->Ok_0) == Seq::<Seq<(Seq<char>, int, int)>>::empty()
            && writer_made_default(r->Ok_0),
        schema@ == bed_schema_text() ==> r is Ok,
{
    let parsed = std::sync::Arc::new(parquet::schema::parser::parse_message_type(schema)?);
    let props = std::sync::Arc::new(parquet::file::properties::WriterProperties::builder().build());
    let inner = parquet::file::writer::SerializedFileWriter::new(Vec::new(), parsed, props)?;
    Ok(RowWriter { inner })
}

/// Relies on `SerializedFileWriter::next_row_group`,
/// `SerializedRowGroupWriter::{next_column, close}` and
/// `SerializedColumnWriter::{typed, close}` with
/// `ColumnWriterImpl::write_batch`: appends exactly one row group whose row
/// `i` is `(names[i], starts[i], ends[i])`, the three columns written as
/// required fields in row order; the schema and properties of the writer are
/// untouched. `typed` panics when a column's physical type does not match,
/// so the writer is required to have been opened with the constant schema:
/// its columns are then a byte array and two 64-bit integers, in this order.
/// Under that schema every writer this crate can hand over holds no open row
/// group, every column access matches, and each step only appends to the
/// in-memory buffer: the call succeeds.
#[verifier::external_body]
fn write_row_group(
    w: &mut RowWriter,
    names: &Vec<String>,
    starts: &Vec<i64>,
    ends: &Vec<i64>,
) -> (r: Result<(), parquet::errors::ParquetError>)
    requires
        names@.len() == starts@.len(),
        starts@.len() == ends@.len(),
        writer_schema_text(*old(w)) == bed_schema_text(),
    ensures
        r is Ok,
        r is Ok ==> writer_groups(*final(w)) == writer_groups(*old(w)).push(
            rows_of_columns(
                names.deep_view(),
                starts@.map_values(|v: i64| v as int),
                ends@.map_values(|v: i64| v as int),
            ),
        ) && writer_schema_text(*final(w)) == writer_schema_text(*old(w))
            && writer_made_default(*final(w)) == writer_made_default(*old(w)),
{
    let missing = || ParquetError::General("missing column".into());
    let mut rg = w.inner.next_row_group()?;
    let name_bytes: Vec<ByteArray> = names.iter().map(|s| s.as_str().into()).collect();
    let mut col = rg.next_column()?.ok_or_else(missing)?;
    col.typed::<ByteArrayType>().write_batch(&name_bytes, None, None)?;
    col.close()?;
    for values in [starts, ends] {
        let mut col = rg.next_column()?.ok_or_else(missing)?;
        col.typed::<Int64Type>().write_batch(values, None, None)?;
        col.close()?;
    }
    rg.close()?;
    Ok(())
}

/// Relies on `SerializedFileWriter::into_inner`: writes the file footer and
/// hands back the buffer. For a writer opened with the default properties,
/// the finished bytes are a function of its schema text and row groups alone:
/// the footer holds no clock, no randomness, and a creator string that is a
/// constant of the library version. Finalizing fails only over a still-open
/// row group, and no writer this crate can hand over under the constant
/// schema has one: with that schema the call succeeds.
#[verifier::external_body]
fn finish_writer(w: RowWriter) -> (r: Result<Vec<u8>, parquet::errors::ParquetError>)
    ensures
        r is Ok && writer_made_default(w) ==> r->Ok_0@ == parquet_bytes_of(
            writer_schema_text(w),
            writer_groups(w),
        ),
        writer_schema_text(w) == bed_schema_text() ==> r is Ok,
{
    w.inner.into_inner()
}

/// Encodes the rows as a single-row-group Parquet file under the constant
/// three-field schema that every output file declares. Exactly when some
/// row's position does not fit a signed 64-bit column, the result is
/// `PositionOverflow` and nothing is encoded; on every other input the call
/// succeeds and the returned bytes are the file the default-properties
/// writer produces for the constant schema and this one row group.
pub fn write_a_records_in_parquet(records: &Vec<BedRecord>) -> (r: Result<Vec<u8>, WriteError>)
    ensures
        all_rows_fit(records@) ==> r is Ok,
        r is Ok ==> all_rows_fit(records@)
            && r->Ok_0@ == parquet_bytes_of(bed_schema_text(), seq![rows_view(records@)]),
        r is Err ==> r == Err::<Vec<u8>, WriteError>(WriteError::PositionOverflow)
            && !all_rows_fit(records@),
{
    let schema = bed_schema_message();
    let mut names: Vec<String> = Vec::new();
    let mut starts: Vec<i64> = Vec::new();
    let mut ends: Vec<i64> = Vec::new();
    let mut i: usize = 0;
    while i < records.len()
        invariant
            i <= records@.len(),
            names@.len() == i,
            starts@.len() == i,
            ends@.len() == i,
            forall|j: int| 0 <= j < i ==> row_fits(#[trigger] records@[j]),
            forall|j: int| 0 <= j < i ==> #[trigger] names@[j]@
                == records@[j].reference_sequence_name@,
            forall|j: int| 0 <= j < i ==> #[trigger] starts@[j] as int
                == records@[j].start_position as int,
            forall|j: int| 0 <= j < i ==> #[trigger] ends@[j] as int
                == records@[j].end_position as int,
        decreases records@.len() - i,
    {
        let rec = &records[i];
        if rec.start_position > i64::MAX as u64 || rec.end_position > i64::MAX as u64 {
            return Err(WriteError::PositionOverflow);
        }
        names.push(rec.reference_sequence_name.clone());
        starts.push(rec.start_position as i64);
        ends.push(rec.end_position as i64);
        i = i + 1;
    }
    let mut w = match new_row_writer(schema) {
        Ok(w) => w,
        Err(e) => return Err(WriteError::Schema(e)),
    };
    match write_row_group(&mut w, &names, &starts, &ends) {
        Ok(()) => {},
        Err(e) => return Err(WriteError::Write(e)),
    }
    proof {
        assert(rows_of_columns(
            names.deep_view(),
            starts@.map_values(|v: i64| v as int),
            ends@.map_values(|v: i64| v as int),
        ) =~= rows_view(records@));
        assert(writer_groups(w) =~= seq![rows_view(records@)]);
    }
    match finish_writer(w) {
        Ok(bytes) => Ok(bytes),
        Err(e) => Err(WriteError::Write(e)),
    }
}

} // verus!
