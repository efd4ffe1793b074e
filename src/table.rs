use vstd::prelude::*;

use crate::loader::{rows_to_insert, rows_to_load};
use crate::record::{copy_row, make_row, opt_row_view, records_view, rows_view, RowModel, TransferRow};

verus! {

/// The first row whose id is `id`, as a lookup by id reads it.
pub open spec fn find_by_id(rows: Seq<RowModel>, id: i32) -> Option<RowModel>
    decreases rows.len(),
{
    if rows.len() == 0 {
        None
    } else if rows[0].1 == id {
        Some(rows[0])
    } else {
        find_by_id(rows.drop_first(), id)
    }
}

/// The rows after every row whose id is `id` takes the four new values.
pub open spec fn update_rows(
    rows: Seq<RowModel>,
    id: i32,
    url: Seq<char>,
    federation: Seq<char>,
    form_fed: Seq<char>,
    transfer_date: Seq<char>,
) -> Seq<RowModel> {
    rows.map_values(
        |r: RowModel|
            if r.1 == id {
                (url, id, federation, form_fed, transfer_date)
            } else {
                r
            },
    )
}

/// The rows after every row whose id is `id` is removed.
pub open spec fn delete_rows(rows: Seq<RowModel>, id: i32) -> Seq<RowModel> {
    rows.filter(other_id(id))
}

/// Whether a row's id differs from `id`.
pub open spec fn other_id(id: i32) -> spec_fn(RowModel) -> bool {
    |r: RowModel| r.1 != id
}

/// The table after a load of the records into a table that held `before`:
/// the earlier rows are gone and the loadable records' rows take their place.
pub open spec fn load_result(before: Seq<RowModel>, records: Seq<Seq<Seq<char>>>) -> Seq<RowModel> {
    rows_to_load(records)
}

/// A row that a lookup by id finds has that id.
pub proof fn lemma_found_row_has_id(rows: Seq<RowModel>, id: i32)
    ensures
        find_by_id(rows, id) matches Some(r) ==> r.1 == id,
    decreases rows.len(),
{
    if rows.len() > 0 {
        lemma_found_row_has_id(rows.drop_first(), id);
    }
}

/// The first of the rows whose id is `id`, or `None` when there is none.
pub fn first_with_id(rows: &Vec<TransferRow>, id: i32) -> (r: Option<TransferRow>)
    ensures
        opt_row_view(r) == find_by_id(rows_view(rows@), id),
        r matches Some(row) ==> row.1 == id,
{
    proof {
        lemma_found_row_has_id(rows_view(rows@), id);
    }
    let ghost all = rows_view(rows@);
    let mut i: usize = 0;
    assert(all.subrange(0, all.len() as int) =~= all);
    while i < rows.len()
        invariant
            i <= rows@.len(),
            all == rows_view(rows@),
            find_by_id(all, id) == find_by_id(all.subrange(i as int, all.len() as int), id),
        decreases rows@.len() - i,
    {
        let ghost rest = all.subrange(i as int, all.len() as int);
        assert(rest.drop_first() =~= all.subrange(i + 1, all.len() as int));
        if rows[i].1 == id {
            return Some(copy_row(&rows[i]));
        }
        i = i + 1;
    }
    None
}

/// A `chess_transfers` table held in memory, rows in insertion order.
pub struct TransferTable {
    rows: Vec<TransferRow>,
}

impl View for TransferTable {
    type V = Seq<RowModel>;

    closed spec fn view(&self) -> Seq<RowModel> {
        rows_view(self.rows@)
    }
}

impl TransferTable {
    /// An empty table.
    pub fn new() -> (r: TransferTable)
        ensures
            r@ == Seq::<RowModel>::empty(),
    {
        let r = TransferTable { rows: Vec::new() };
        assert(r@ =~= Seq::<RowModel>::empty());
        r
    }

    /// The number of rows.
    pub fn len(&self) -> (r: usize)
        ensures
            r == self@.len(),
    {
        self.rows.len()
    }

    /// Appends a row.
    pub fn insert_record(
        &mut self,
        url: &str,
        id: i32,
        federation: &str,
        form_fed: &str,
        transfer_date: &str,
    )
        ensures
            final(self)@ == old(self)@.push((url@, id, federation@, form_fed@, transfer_date@)),
    {
        let row = make_row(url, id, federation, form_fed, transfer_date);
        self.rows.push(row);
        assert(self@ =~= old(self)@.push((url@, id, federation@, form_fed@, transfer_date@)));
    }

    /// Every row, in order.
    pub fn read_records(&self) -> (r: Vec<TransferRow>)
        ensures
            rows_view(r@) == self@,
    {
        let mut out: Vec<TransferRow> = Vec::new();
        let mut i: usize = 0;
        while i < self.rows.len()
            invariant
                i <= self.rows@.len(),
                rows_view(out@) =~= self@.subrange(0, i as int),
            decreases self.rows@.len() - i,
        {
            let row = copy_row(&self.rows[i]);
            let ghost prev = out@;
            out.push(row);
            assert(rows_view(out@) =~= rows_view(prev).push(self@[i as int]));
            assert(rows_view(out@) =~= self@.subrange(0, i + 1));
            i = i + 1;
        }
        assert(self@.subrange(0, self@.len() as int) =~= self@);
        out
    }

    /// The first row whose id is `id`, or `None` when there is none.
    pub fn read_record_by_id(&self, id: i32) -> (r: Option<TransferRow>)
        ensures
            opt_row_view(r) == find_by_id(self@, id),
    {
        first_with_id(&self.rows, id)
    }

    /// Gives the four new values to every row whose id is `id`; a missing id
    /// changes nothing.
    pub fn update_record(
        &mut self,
        id: i32,
        new_url: &str,
        new_federation: &str,
        new_form: &str,
        new_transfer_date: &str,
    )
        ensures
            final(self)@ == update_rows(
                old(self)@,
                id,
                new_url@,
                new_federation@,
                new_form@,
                new_transfer_date@,
            ),
    {
        let ghost target = update_rows(
            old(self)@,
            id,
            new_url@,
            new_federation@,
            new_form@,
            new_transfer_date@,
        );
        let mut i: usize = 0;
        while i < self.rows.len()
            invariant
                i <= self.rows@.len(),
                self.rows@.len() == old(self).rows@.len(),
                target.len() == self@.len(),
                target == update_rows(
                    old(self)@,
                    id,
                    new_url@,
                    new_federation@,
                    new_form@,
                    new_transfer_date@,
                ),
                forall|k: int| 0 <= k < i ==> #[trigger] self.rows@[k]@ == target[k],
                forall|k: int| i <= k < self.rows@.len() ==> #[trigger] self.rows@[k] == old(self).rows@[k],
            decreases self.rows@.len() - i,
        {
            if self.rows[i].1 == id {
                let row = make_row(new_url, id, new_federation, new_form, new_transfer_date);
                self.rows.set(i, row);
            }
            assert(self.rows@[i as int]@ == target[i as int]);
            i = i + 1;
        }
        assert(self@ =~= target);
    }

    /// Removes every row whose id is `id`; a missing id changes nothing.
    pub fn delete_record(&mut self, id: i32)
        ensures
            final(self)@ == delete_rows(old(self)@, id),
    {
        let mut kept: Vec<TransferRow> = Vec::new();
        let mut i: usize = 0;
        while i < self.rows.len()
            invariant
                i <= self.rows@.len(),
                rows_view(kept@) == delete_rows(self@.subrange(0, i as int), id),
            decreases self.rows@.len() - i,
        {
            let ghost before = self@.subrange(0, i as int);
            assert(self@.subrange(0, i + 1) =~= before.push(self@[i as int]));
            proof {
                before.lemma_filter_push(self@[i as int], other_id(id));
            }
            if self.rows[i].1 != id {
                kept.push(copy_row(&self.rows[i]));
                assert(rows_view(kept@) =~= delete_rows(before, id).push(self@[i as int]));
            }
            i = i + 1;
        }
        assert(self@.subrange(0, self@.len() as int) =~= self@);
        self.rows = kept;
    }

    /// Replaces every row by the rows that the records give, skipping the
    /// records that are not loadable; returns the number of rows loaded.
    pub fn load_records(&mut self, records: &Vec<Vec<String>>) -> (r: usize)
        ensures
            final(self)@ == load_result(old(self)@, records_view(records@)),
            r == final(self)@.len(),
    {
        let (rows, _skipped) = rows_to_insert(records);
        self.rows = rows;
        self.rows.len()
    }
}

/// A lookup by id finds nothing exactly when no row has that id.
pub proof fn lemma_find_none_iff_absent(rows: Seq<RowModel>, id: i32)
    ensures
        find_by_id(rows, id) is None <==> forall|i: int| 0 <= i < rows.len() ==> (#[trigger] rows[i]).1
            != id,
    decreases rows.len(),
{
    if rows.len() > 0 {
        lemma_find_none_iff_absent(rows.drop_first(), id);
        if find_by_id(rows, id) is None {
            assert forall|i: int| 0 <= i < rows.len() implies (#[trigger] rows[i]).1 != id by {
                if i > 0 {
                    assert(rows[i] == rows.drop_first()[i - 1]);
                }
            }
        }
    }
}

proof fn lemma_find_after_push(rows: Seq<RowModel>, x: RowModel, id: i32)
    ensures
        find_by_id(rows.push(x), id) == (if find_by_id(rows, id) is Some {
            find_by_id(rows, id)
        } else if x.1 == id {
            Some(x)
        } else {
            None
        }),
    decreases rows.len(),
{
    if rows.len() == 0 {
        assert(rows.push(x).drop_first() =~= Seq::<RowModel>::empty());
    } else {
        assert(rows.push(x).drop_first() =~= rows.drop_first().push(x));
        lemma_find_after_push(rows.drop_first(), x, id);
    }
}

/// A row inserted under an id that no row has yet is what a lookup by that id
/// then reads, field for field.
pub proof fn law_insert_then_read_back(rows: Seq<RowModel>, row: RowModel)
    requires
        find_by_id(rows, row.1) is None,
    ensures
        find_by_id(rows.push(row), row.1) == Some(row),
{
    lemma_find_after_push(rows, row, row.1);
}

/// An update keeps the number of rows; afterwards a lookup of the updated id
/// reads the new values exactly when the id was there before, and a lookup
/// of any other id reads what it read before.
pub proof fn law_update_then_read_back(
    rows: Seq<RowModel>,
    id: i32,
    url: Seq<char>,
    federation: Seq<char>,
    form_fed: Seq<char>,
    transfer_date: Seq<char>,
    other: i32,
)
    requires
        other != id,
    ensures
        update_rows(rows, id, url, federation, form_fed, transfer_date).len() == rows.len(),
        find_by_id(update_rows(rows, id, url, federation, form_fed, transfer_date), id) == (if find_by_id(
            rows,
            id,
        ) is Some {
            Some((url, id, federation, form_fed, transfer_date))
        } else {
            None
        }),
        find_by_id(update_rows(rows, id, url, federation, form_fed, transfer_date), other)
            == find_by_id(rows, other),
    decreases rows.len(),
{
    let u = update_rows(rows, id, url, federation, form_fed, transfer_date);
    if rows.len() > 0 {
        assert(u.drop_first() =~= update_rows(
            rows.drop_first(),
            id,
            url,
            federation,
            form_fed,
            transfer_date,
        ));
        law_update_then_read_back(
            rows.drop_first(),
            id,
            url,
            federation,
            form_fed,
            transfer_date,
            other,
        );
    }
}

/// After a delete, a lookup of the deleted id finds nothing.
pub proof fn law_delete_then_read_back(rows: Seq<RowModel>, id: i32)
    ensures
        find_by_id(delete_rows(rows, id), id) is None,
{
    let d = delete_rows(rows, id);
    assert forall|i: int| 0 <= i < d.len() implies (#[trigger] d[i]).1 != id by {
        rows.lemma_filter_pred(other_id(id), i);
    }
    lemma_find_none_iff_absent(d, id);
}

/// Loading records gives the same table whatever it held before, so a
/// second load of the same records leaves as many rows as the first.
pub proof fn law_reload_replaces(before: Seq<RowModel>, records: Seq<Seq<Seq<char>>>)
    ensures
        load_result(before, records) == load_result(load_result(before, records), records),
        load_result(before, records).len() == rows_to_load(records).len(),
{
}

} // verus!
