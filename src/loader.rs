use vstd::prelude::*;

use crate::id_field::{id_of, parse_id};
use crate::record::{copy_row, fields_view, make_row, records_view, rows_view, RowModel, TransferRow};

verus! {

/// Why a data record of the input is not loaded.
#[derive(Clone, Copy, Debug, PartialEq, Eq, Structural)]
pub enum SkipReason {
    /// The record has fewer than five fields.
    TooFewFields,
    /// The second field is not a decimal integer in the range of `i32`.
    BadId,
}

/// The number of fields that a loadable record has at least.
pub const RECORD_FIELDS: usize = 5;

/// The row that a record of text fields gives, if it is loadable:
/// `url, id, federation, form_federation, transfer_date` in that order;
/// fields after the fifth are ignored.
pub open spec fn row_of_fields(f: Seq<Seq<char>>) -> Option<RowModel> {
    if f.len() < 5 {
        None
    } else {
        match id_of(f[1]) {
            Some(id) => Some((f[0], id, f[2], f[3], f[4])),
            None => None,
        }
    }
}

/// The rows that a sequence of records gives, in order, skipping the
/// records that are not loadable.
pub open spec fn rows_to_load(records: Seq<Seq<Seq<char>>>) -> Seq<RowModel>
    decreases records.len(),
{
    if records.len() == 0 {
        Seq::empty()
    } else {
        let rest = rows_to_load(records.drop_last());
        match row_of_fields(records.last()) {
            Some(r) => rest.push(r),
            None => rest,
        }
    }
}

/// Decides what a record of text fields becomes: a row, or the reason why it
/// is skipped.
pub fn classify_record(fields: &Vec<String>) -> (r: Result<TransferRow, SkipReason>)
    ensures
        match r {
            Ok(row) => row_of_fields(fields_view(fields@)) == Some(row@),
            Err(SkipReason::TooFewFields) => fields@.len() < 5,
            Err(SkipReason::BadId) => fields@.len() >= 5 && id_of(fields@[1]@) is None,
        },
        r is Ok <==> row_of_fields(fields_view(fields@)) is Some,
{
    if fields.len() < RECORD_FIELDS {
        return Err(SkipReason::TooFewFields);
    }
    match parse_id(fields[1].as_str()) {
        Some(id) => {
            let row = make_row(
                fields[0].as_str(),
                id,
                fields[2].as_str(),
                fields[3].as_str(),
                fields[4].as_str(),
            );
            Ok(row)
        },
        None => Err(SkipReason::BadId),
    }
}

/// The rows to insert for a sequence of records, in order, and the number of
/// records skipped.
pub fn rows_to_insert(records: &Vec<Vec<String>>) -> (r: (Vec<TransferRow>, usize))
    ensures
        rows_view(r.0@) == rows_to_load(records_view(records@)),
        r.0@.len() + r.1 == records@.len(),
{
    let mut rows: Vec<TransferRow> = Vec::new();
    let mut skipped: usize = 0;
    let mut i: usize = 0;
    while i < records.len()
        invariant
            i <= records@.len(),
            rows_view(rows@) == rows_to_load(records_view(records@.subrange(0, i as int))),
            rows@.len() + skipped == i,
        decreases records@.len() - i,
    {
        let ghost before = records@.subrange(0, i as int);
        let ghost after = records@.subrange(0, i + 1);
        assert(records_view(after).drop_last() =~= records_view(before));
        assert(records_view(after).last() == fields_view(records@[i as int]@));
        match classify_record(&records[i]) {
            Ok(row) => {
                rows.push(row);
                assert(rows_view(rows@) =~= rows_to_load(records_view(before)).push(row@));
            },
            Err(_) => {
                skipped = skipped + 1;
            },
        }
        i = i + 1;
    }
    assert(records@.subrange(0, records@.len() as int) =~= records@);
    (rows, skipped)
}

/// The rows of two runs of records, one after the other, are the rows of the
/// first run followed by those of the second.
pub proof fn lemma_rows_to_load_concat(a: Seq<Seq<Seq<char>>>, b: Seq<Seq<Seq<char>>>)
    ensures
        rows_to_load(a + b) == rows_to_load(a) + rows_to_load(b),
    decreases b.len(),
{
    if b.len() == 0 {
        assert(a + b =~= a);
        assert(rows_to_load(a) + rows_to_load(b) =~= rows_to_load(a));
    } else {
        lemma_rows_to_load_concat(a, b.drop_last());
        assert((a + b).drop_last() =~= a + b.drop_last());
        assert((a + b).last() == b.last());
        match row_of_fields(b.last()) {
            Some(r) => {
                assert(rows_to_load(a) + rows_to_load(b.drop_last()).push(r) =~= (rows_to_load(a)
                    + rows_to_load(b.drop_last())).push(r));
            },
            None => {},
        }
    }
}

/// Records that are all loadable give exactly one row each.
pub proof fn law_loadable_records_give_one_row_each(records: Seq<Seq<Seq<char>>>)
    requires
        forall|i: int| 0 <= i < records.len() ==> (#[trigger] row_of_fields(records[i])) is Some,
    ensures
        rows_to_load(records).len() == records.len(),
    decreases records.len(),
{
    if records.len() > 0 {
        let rest = records.drop_last();
        assert forall|i: int| 0 <= i < rest.len() implies (#[trigger] row_of_fields(
            rest[i],
        )) is Some by {
            assert(rest[i] == records[i]);
        }
        law_loadable_records_give_one_row_each(rest);
        assert(row_of_fields(records[records.len() - 1]) is Some);
    }
}

proof fn lemma_skipped_record_between(
    before: Seq<Seq<Seq<char>>>,
    bad: Seq<Seq<char>>,
    after: Seq<Seq<Seq<char>>>,
)
    requires
        row_of_fields(bad) is None,
    ensures
        rows_to_load(before.push(bad) + after) == rows_to_load(before) + rows_to_load(after),
{
    lemma_rows_to_load_concat(before.push(bad), after);
    assert(before.push(bad).drop_last() =~= before);
}

/// A record with fewer than five fields is skipped, and the records after it
/// load as if it were not there.
pub proof fn law_short_record_skipped(
    before: Seq<Seq<Seq<char>>>,
    bad: Seq<Seq<char>>,
    after: Seq<Seq<Seq<char>>>,
)
    requires
        bad.len() < 5,
    ensures
        rows_to_load(before.push(bad) + after) == rows_to_load(before) + rows_to_load(after),
{
    lemma_skipped_record_between(before, bad, after);
}

/// A record whose id field is not a decimal integer in the range of `i32` is
/// skipped, and the records after it load as if it were not there.
pub proof fn law_bad_id_record_skipped(
    before: Seq<Seq<Seq<char>>>,
    bad: Seq<Seq<char>>,
    after: Seq<Seq<Seq<char>>>,
)
    requires
        bad.len() >= 5,
        id_of(bad[1]) is None,
    ensures
        rows_to_load(before.push(bad) + after) == rows_to_load(before) + rows_to_load(after),
{
    lemma_skipped_record_between(before, bad, after);
}

} // verus!
