//! Gathering the successfully parsed records into rows, in input order,
//! dropping the malformed ones.

use vstd::prelude::*;

use crate::bed_input::parsed_view;
use crate::record::{convert_noodles_record_to_bedrecord, row_view, BedRecord, IntervalRecord};

verus! {

/// The rows kept from a sequence of parse outcomes: the payloads of the
/// `Some` entries, in order. This is the best-effort collection policy: a
/// malformed line is dropped, it does not abort the run.
pub open spec fn collected(s: Seq<Option<(Seq<char>, int, int)>>) -> Seq<(Seq<char>, int, int)>
    decreases s.len(),
{
    if s.len() == 0 {
        Seq::empty()
    } else {
        let rest = collected(s.drop_last());
        match s.last() {
            Some(t) => rest.push(t),
            None => rest,
        }
    }
}

/// How many entries of a parse-outcome sequence are well-formed.
pub open spec fn some_count(s: Seq<Option<(Seq<char>, int, int)>>) -> int
    decreases s.len(),
{
    if s.len() == 0 {
        0
    } else {
        some_count(s.drop_last()) + if s.last() is Some { 1int } else { 0int }
    }
}

/// Applies the row mapper to every well-formed parse outcome and keeps the
/// results in input order; malformed entries are silently dropped.
pub fn collect_rows(parsed: &Vec<Option<IntervalRecord>>) -> (rows: Vec<BedRecord>)
    ensures
        rows@.map_values(|b: BedRecord| row_view(b))
            == collected(parsed@.map_values(|o: Option<IntervalRecord>| parsed_view(o))),
{
    let ghost all = parsed@.map_values(|o: Option<IntervalRecord>| parsed_view(o));
    let mut rows: Vec<BedRecord> = Vec::new();
    let mut i: usize = 0;
    while i < parsed.len()
        invariant
            i <= parsed@.len(),
            all == parsed@.map_values(|o: Option<IntervalRecord>| parsed_view(o)),
            rows@.map_values(|b: BedRecord| row_view(b)) == collected(all.take(i as int)),
        decreases parsed@.len() - i,
    {
        proof {
            assert(all.take(i + 1).drop_last() =~= all.take(i as int));
            assert(all.take(i + 1).last() == all[i as int]);
        }
        match &parsed[i] {
            Some(rec) => {
                let row = convert_noodles_record_to_bedrecord(rec.clone());
                rows.push(row);
            },
            None => {},
        }
        i = i + 1;
    }
    proof {
        assert(all.take(parsed@.len() as int) =~= all);
    }
    rows
}

/// Counts the entries a parse-outcome sequence drops: the malformed ones.
/// This makes the drop policy observable at run time — dropped entries plus
/// kept rows are exactly the entries the reader produced.
pub fn count_dropped(parsed: &Vec<Option<IntervalRecord>>) -> (n: usize)
    ensures
        n as int == parsed@.len() - some_count(
            parsed@.map_values(|o: Option<IntervalRecord>| parsed_view(o)),
        ),
{
    let ghost all = parsed@.map_values(|o: Option<IntervalRecord>| parsed_view(o));
    let mut n: usize = 0;
    let mut i: usize = 0;
    while i < parsed.len()
        invariant
            i <= parsed@.len(),
            n <= i,
            all == parsed@.map_values(|o: Option<IntervalRecord>| parsed_view(o)),
            n as int == i - some_count(all.take(i as int)),
        decreases parsed@.len() - i,
    {
        proof {
            assert(all.take(i + 1).drop_last() =~= all.take(i as int));
            assert(all.take(i + 1).last() == all[i as int]);
        }
        match &parsed[i] {
            Some(_) => {},
            None => {
                n = n + 1;
            },
        }
        i = i + 1;
    }
    proof {
        assert(all.take(parsed@.len() as int) =~= all);
    }
    n
}

/// LAW (drop policy, count): the number of rows kept from a sequence of parse
/// outcomes equals exactly the number of its well-formed entries, however the
/// malformed ones are interleaved.
pub proof fn lemma_collected_count(s: Seq<Option<(Seq<char>, int, int)>>)
    ensures
        collected(s).len() == some_count(s),
    decreases s.len(),
{
    if s.len() > 0 {
        lemma_collected_count(s.drop_last());
    }
}

/// LAW (order and content of well-formed input): when every entry of a parse
/// outcome sequence is well-formed, the collected rows are exactly those
/// entries' payloads, in the same order — nothing is dropped, reordered or
/// changed.
pub proof fn lemma_collected_all_well_formed(s: Seq<Option<(Seq<char>, int, int)>>)
    requires
        forall|i: int| 0 <= i < s.len() ==> s[i] is Some,
    ensures
        collected(s).len() == s.len(),
        forall|i: int| 0 <= i < s.len() ==> collected(s)[i] == s[i]->Some_0,
    decreases s.len(),
{
    if s.len() > 0 {
        lemma_collected_all_well_formed(s.drop_last());
        assert(s.last() is Some);
        assert(forall|i: int| 0 <= i < s.len() - 1 ==> s.drop_last()[i] == s[i]);
    }
}

} // verus!
