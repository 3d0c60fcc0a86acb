//! The canonical row entity and the mapping from parsed interval records.

use vstd::prelude::*;

verus! {

/// One successfully parsed interval record, as plain values: the reference
/// sequence name and the feature start and end positions in the parser's
/// native 1-based encoding.
pub struct IntervalRecord {
    pub reference_sequence_name: String,
    pub start_position: usize,
    pub end_position: usize,
}

impl IntervalRecord {
    pub fn new(reference_sequence_name: String, start_position: usize, end_position: usize) -> (r:
        Self)
        ensures
            r.reference_sequence_name == reference_sequence_name,
            r.start_position == start_position,
            r.end_position == end_position,
    {
        IntervalRecord {
            reference_sequence_name,
            start_position,
            end_position,
        }
    }
}

impl Clone for IntervalRecord {
    fn clone(&self) -> (res: Self)
        ensures
            res == *self,
    {
        IntervalRecord {
            reference_sequence_name: self.reference_sequence_name.clone(),
            start_position: self.start_position,
            end_position: self.end_position,
        }
    }
}

/// The mathematical content of an interval record: its name as a character
/// sequence and its two positions as unbounded integers.
pub open spec fn interval_view(r: IntervalRecord) -> (Seq<char>, int, int) {
    (r.reference_sequence_name@, r.start_position as int, r.end_position as int)
}

/// The canonical row written to the columnar file: one row per record, with
/// the positions widened to unsigned 64-bit integers.
#[derive(Debug)]
pub struct BedRecord {
    pub reference_sequence_name: String,
    pub start_position: u64,
    pub end_position: u64,
}

/// The mathematical content of a row, in the same shape as `interval_view`.
pub open spec fn row_view(b: BedRecord) -> (Seq<char>, int, int) {
    (b.reference_sequence_name@, b.start_position as int, b.end_position as int)
}

impl BedRecord {
    pub fn new(reference_sequence_name: String, start_position: u64, end_position: u64) -> (r: Self)
        ensures
            r.reference_sequence_name == reference_sequence_name,
            r.start_position == start_position,
            r.end_position == end_position,
    {
        BedRecord {
            reference_sequence_name,
            start_position,
            end_position,
        }
    }
}

impl PartialEq for BedRecord {
    fn eq(&self, other: &Self) -> (r: bool) {
        self.reference_sequence_name == other.reference_sequence_name
            && self.start_position == other.start_position
            && self.end_position == other.end_position
    }
}

impl vstd::std_specs::cmp::PartialEqSpecImpl for BedRecord {
    open spec fn obeys_eq_spec() -> bool {
        true
    }

    open spec fn eq_spec(&self, other: &Self) -> bool {
        self.reference_sequence_name@ == other.reference_sequence_name@
            && self.start_position == other.start_position
            && self.end_position == other.end_position
    }
}

/// Maps one parsed interval record to the canonical row. The name is carried
/// over verbatim and each position is widened by a single numeric conversion;
/// no re-basing of positions happens here.
pub fn convert_noodles_record_to_bedrecord(record: IntervalRecord) -> (r: BedRecord)
    ensures
        r.reference_sequence_name == record.reference_sequence_name,
        r.start_position == record.start_position as u64,
        r.end_position == record.end_position as u64,
        row_view(r) == interval_view(record),
{
    BedRecord::new(
        record.reference_sequence_name,
        record.start_position as u64,
        record.end_position as u64,
    )
}

} // verus!
