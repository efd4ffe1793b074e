use vstd::prelude::*;

use crate::record::records_view;

verus! {

#[verifier::external_type_specification]
#[verifier::external_body]
pub struct ExCsvError(csv::Error);

/// The data records of CSV text, each as its fields, in order: the first
/// record is a header and is left out, and records may have any number of
/// fields.
pub uninterp spec fn csv_records_of(data: Seq<u8>) -> Seq<Seq<Seq<char>>>;

/// Relies on csv::ReaderBuilder (`has_headers(true)`, `flexible(true)`) and
/// csv::Reader::records: on success, the data records after the header row,
/// each as its fields; what it reads depends on the bytes alone.
#[verifier::external_body]
pub(crate) fn read_csv_records(data: &[u8]) -> (r: Result<Vec<Vec<String>>, csv::Error>)
    ensures
        r matches Ok(v) ==> records_view(v@) == csv_records_of(data@),
{
    csv::ReaderBuilder::new()
        .has_headers(true)
        .flexible(true)
        .from_reader(data)
        .records()
        .map(|rec| rec.map(|fields| fields.iter().map(String::from).collect()))
        .collect()
}

} // verus!
