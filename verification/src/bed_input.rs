//! Reading BED3+ records out of in-memory bytes, through the `noodles_bed`
//! parser. The parser is an external collaborator: what it finds in a given
//! byte sequence is named, not restated.

use vstd::prelude::*;

use noodles_bed::io::Reader as BedReader;
use noodles_bed::Record as BedSourceRecord;

use crate::record::{interval_view, IntervalRecord};

verus! {

/// What the BED reader finds in `data`: one entry per record read, in input
/// order. A `Some` entry carries the reference sequence name and the feature
/// start and end positions (1-based, as the parser exposes them) of a
/// well-formed record; a `None` entry stands for a malformed line that the
/// reader consumed but could not turn into a record.
pub uninterp spec fn bed_records_of(data: Seq<u8>) -> Seq<Option<(Seq<char>, int, int)>>;

/// The mathematical content of one parse outcome.
pub open spec fn parsed_view(r: Option<IntervalRecord>) -> Option<(Seq<char>, int, int)> {
    match r {
        Some(rec) => Some(interval_view(rec)),
        None => None,
    }
}

/// Relies on `noodles_bed::io::Reader::read_record` (which returns the number
/// of bytes read, zero at end of input) and on the accessors of
/// `noodles_bed::Record<3>`: `reference_sequence_name`, `feature_start` and
/// `feature_end`. A record whose read fails, whose name is not UTF-8, or
/// whose positions do not parse becomes a `None` entry; comment lines are
/// skipped by the reader itself. Empty input holds no records.
#[verifier::external_body]
pub fn read_bed_records(data: &[u8]) -> (r: Vec<Option<IntervalRecord>>)
    ensures
        r@.map_values(|o: Option<IntervalRecord>| parsed_view(o)) == bed_records_of(data@),
        data@.len() == 0 ==> r@.len() == 0,
{
    let mut reader = BedReader::<3, _>::new(data);
    let mut out: Vec<Option<IntervalRecord>> = Vec::new();
    let mut rec = BedSourceRecord::<3>::default();
    loop {
        let item = match reader.read_record(&mut rec) {
            Ok(0) => break,
            Err(_) => None,
            Ok(_) => match (String::from_utf8(rec.reference_sequence_name().to_vec()), rec.feature_start(), rec.feature_end()) {
                (Ok(name), Ok(s), Some(Ok(e))) => Some(IntervalRecord::new(name, usize::from(s), usize::from(e))),
                _ => None,
            },
        };
        out.push(item);
    }
    out
}

} // verus!
