use vstd::prelude::*;

pub mod csv_input;
pub mod id_field;
pub mod loader;
pub mod record;
pub mod store;
pub mod table;

pub use store::{
    connect_db, create_table, delete_record, insert_record, load_csv_to_db, read_record_by_id,
    read_records, update_record, LoadError, LoadReport,
};

verus! {

} // verus!
