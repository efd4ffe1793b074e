use vstd::prelude::*;

verus! {

/// One row of the `chess_transfers` table:
/// `(url, id, federation, form_federation, transfer_date)`.
pub type TransferRow = (String, i32, String, String, String);

/// The value of a row: its text fields as character sequences.
pub type RowModel = (Seq<char>, i32, Seq<char>, Seq<char>, Seq<char>);

/// The values of a sequence of rows.
pub open spec fn rows_view(v: Seq<TransferRow>) -> Seq<RowModel> {
    v.map_values(|r: TransferRow| r@)
}

/// The values of an optional row.
pub open spec fn opt_row_view(r: Option<TransferRow>) -> Option<RowModel> {
    match r {
        Some(row) => Some(row@),
        None => None,
    }
}

/// The text of each field of a record.
pub open spec fn fields_view(f: Seq<String>) -> Seq<Seq<char>> {
    f.map_values(|s: String| s@)
}

/// The text of each field of each record.
pub open spec fn records_view(r: Seq<Vec<String>>) -> Seq<Seq<Seq<char>>> {
    r.map_values(|f: Vec<String>| fields_view(f@))
}

/// Builds a row from its five values.
pub fn make_row(url: &str, id: i32, federation: &str, form_fed: &str, transfer_date: &str) -> (r:
    TransferRow)
    ensures
        r@ == (url@, id, federation@, form_fed@, transfer_date@),
{
    (url.to_owned(), id, federation.to_owned(), form_fed.to_owned(), transfer_date.to_owned())
}

/// A copy of a row.
pub fn copy_row(row: &TransferRow) -> (r: TransferRow)
    ensures
        r@ == row@,
{
    (row.0.clone(), row.1, row.2.clone(), row.3.clone(), row.4.clone())
}

} // verus!
