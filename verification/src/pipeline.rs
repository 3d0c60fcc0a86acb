//! The whole conversion on in-memory bytes: parse, collect, encode.

use vstd::prelude::*;

use crate::bed_input::{bed_records_of, parsed_view, read_bed_records};
use crate::collect::{
    collect_rows, collected, count_dropped, lemma_collected_all_well_formed,
    lemma_collected_count, some_count,
};
use crate::parquet_out::{
    all_row_tuples_fit, bed_schema_text, lemma_rows_fit_view, parquet_bytes_of, rows_view,
    write_a_records_in_parquet, WriteError,
};
use crate::record::IntervalRecord;

verus! {

/// The rows the conversion keeps for a given input: the well-formed records
/// the BED reader finds, in input order.
pub open spec fn spec_rows_of(data: Seq<u8>) -> Seq<(Seq<char>, int, int)> {
    collected(bed_records_of(data))
}

/// Runs the conversion on the input bytes and returns the bytes of the
/// output file. Malformed input lines are dropped, never fatal; the output
/// holds exactly the well-formed records, in input order, in one row group
/// under the constant schema. The conversion succeeds on every input whose
/// kept positions fit a signed 64-bit column — in particular on any mix of
/// well-formed and malformed lines, and on empty input; exactly when a kept
/// position does not fit, the result is `PositionOverflow`, the only error.
pub fn run(data: &[u8]) -> (r: Result<Vec<u8>, WriteError>)
    ensures
        all_row_tuples_fit(spec_rows_of(data@)) ==> r is Ok,
        r is Ok ==> r->Ok_0@ == parquet_bytes_of(bed_schema_text(), seq![spec_rows_of(data@)]),
        r is Err ==> r == Err::<Vec<u8>, WriteError>(WriteError::PositionOverflow)
            && !all_row_tuples_fit(spec_rows_of(data@)),
        data@.len() == 0 && r is Ok ==> r->Ok_0@ == parquet_bytes_of(
            bed_schema_text(),
            seq![Seq::<(Seq<char>, int, int)>::empty()],
        ),
{
    let parsed = read_bed_records(data);
    let rows = collect_rows(&parsed);
    proof {
        assert(rows_view(rows@) == spec_rows_of(data@));
        if data@.len() == 0 {
            assert(parsed@.map_values(|o: Option<IntervalRecord>| parsed_view(o)).len() == 0);
            assert(spec_rows_of(data@) =~= Seq::<(Seq<char>, int, int)>::empty());
        }
        lemma_rows_fit_view(rows@);
    }
    write_a_records_in_parquet(&rows)
}

/// The number of input lines the conversion drops for a given input: the
/// records the reader attempted but could not turn into rows. This makes the
/// drop policy observable to callers at run time, beside the laws that state
/// it: dropped lines plus kept rows equal the records the reader attempted.
pub fn dropped_line_count(data: &[u8]) -> (n: usize)
    ensures
        n as int == bed_records_of(data@).len() - some_count(bed_records_of(data@)),
{
    let parsed = read_bed_records(data);
    count_dropped(&parsed)
}

/// LAW (round trip, kept rows): for an input all of whose records the reader
/// finds well-formed, the conversion keeps every record — the rows are
/// identical in count, order, name and positions to what the reader found;
/// no re-basing or reordering happens on the way to the output file.
pub proof fn lemma_well_formed_input_kept(data: Seq<u8>)
    requires
        forall|i: int| 0 <= i < bed_records_of(data).len()
            ==> #[trigger] bed_records_of(data)[i] is Some,
    ensures
        spec_rows_of(data).len() == bed_records_of(data).len(),
        forall|i: int| 0 <= i < bed_records_of(data).len()
            ==> #[trigger] spec_rows_of(data)[i] == bed_records_of(data)[i]->Some_0,
{
    lemma_collected_all_well_formed(bed_records_of(data));
}

/// LAW (drop policy): the conversion keeps exactly as many rows as the
/// reader found well-formed records, however many malformed lines stand
/// between them; the kept rows are the well-formed records in input order.
pub proof fn lemma_malformed_dropped(data: Seq<u8>)
    ensures
        spec_rows_of(data).len() == some_count(bed_records_of(data)),
{
    lemma_collected_count(bed_records_of(data));
}

/// LAW (idempotence): what the conversion writes is a function of the input
/// bytes alone. Two runs over equal inputs keep the same rows and, when both
/// succeed, produce byte-for-byte identical output files.
pub proof fn lemma_conversion_deterministic(data1: Seq<u8>, data2: Seq<u8>)
    requires
        data1 == data2,
    ensures
        spec_rows_of(data1) == spec_rows_of(data2),
        parquet_bytes_of(bed_schema_text(), seq![spec_rows_of(data1)]) == parquet_bytes_of(
            bed_schema_text(),
            seq![spec_rows_of(data2)],
        ),
{
}

} // verus!
