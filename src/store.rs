use vstd::prelude::*;

use crate::csv_input::{csv_records_of, read_csv_records};
use crate::loader::{rows_to_insert, rows_to_load};
use crate::record::TransferRow;
use crate::table::first_with_id;

verus! {

#[verifier::external_type_specification]
#[verifier::external_body]
pub struct ExConnection(rusqlite::Connection);

#[verifier::external_type_specification]
#[verifier::external_body]
pub struct ExSqlError(rusqlite::Error);

/// A value bound to a parameter of an SQL statement.
#[derive(Clone, Debug, PartialEq, Eq)]
pub enum SqlArg {
    Int(i32),
    Text(String),
}

/// The value of a statement argument.
pub enum SqlValue {
    Int(i32),
    Text(Seq<char>),
}

impl View for SqlArg {
    type V = SqlValue;

    open spec fn view(&self) -> SqlValue {
        match self {
            SqlArg::Int(v) => SqlValue::Int(*v),
            SqlArg::Text(t) => SqlValue::Text(t@),
        }
    }
}

/// The values of a sequence of statement arguments.
pub open spec fn args_view(a: Seq<SqlArg>) -> Seq<SqlValue> {
    a.map_values(|x: SqlArg| x@)
}

/// The arguments of the insert statement: the row's five values in column
/// order.
pub fn insert_args(url: &str, id: i32, federation: &str, form_fed: &str, transfer_date: &str) -> (r:
    Vec<SqlArg>)
    ensures
        args_view(r@) == seq![
            SqlValue::Text(url@),
            SqlValue::Int(id),
            SqlValue::Text(federation@),
            SqlValue::Text(form_fed@),
            SqlValue::Text(transfer_date@),
        ],
{
    let mut r: Vec<SqlArg> = Vec::new();
    r.push(SqlArg::Text(url.to_owned()));
    r.push(SqlArg::Int(id));
    r.push(SqlArg::Text(federation.to_owned()));
    r.push(SqlArg::Text(form_fed.to_owned()));
    r.push(SqlArg::Text(transfer_date.to_owned()));
    assert(args_view(r@) =~= seq![
        SqlValue::Text(url@),
        SqlValue::Int(id),
        SqlValue::Text(federation@),
        SqlValue::Text(form_fed@),
        SqlValue::Text(transfer_date@),
    ]);
    r
}

/// The arguments of the update statement: the four new values, then the id
/// that selects the rows.
pub fn update_args(
    id: i32,
    new_url: &str,
    new_federation: &str,
    new_form: &str,
    new_transfer_date: &str,
) -> (r: Vec<SqlArg>)
    ensures
        args_view(r@) == seq![
            SqlValue::Text(new_url@),
            SqlValue::Text(new_federation@),
            SqlValue::Text(new_form@),
            SqlValue::Text(new_transfer_date@),
            SqlValue::Int(id),
        ],
{
    let mut r: Vec<SqlArg> = Vec::new();
    r.push(SqlArg::Text(new_url.to_owned()));
    r.push(SqlArg::Text(new_federation.to_owned()));
    r.push(SqlArg::Text(new_form.to_owned()));
    r.push(SqlArg::Text(new_transfer_date.to_owned()));
    r.push(SqlArg::Int(id));
    assert(args_view(r@) =~= seq![
        SqlValue::Text(new_url@),
        SqlValue::Text(new_federation@),
        SqlValue::Text(new_form@),
        SqlValue::Text(new_transfer_date@),
        SqlValue::Int(id),
    ]);
    r
}

/// The arguments of a statement that selects rows by id: the id alone.
pub fn id_args(id: i32) -> (r: Vec<SqlArg>)
    ensures
        args_view(r@) == seq![SqlValue::Int(id)],
{
    let mut r: Vec<SqlArg> = Vec::new();
    r.push(SqlArg::Int(id));
    assert(args_view(r@) =~= seq![SqlValue::Int(id)]);
    r
}

/// Why a bulk load stopped.
#[derive(Debug)]
pub enum LoadError {
    /// A statement on the store failed.
    Store(rusqlite::Error),
    /// The CSV text could not be read.
    Csv(csv::Error),
}

/// What a bulk load did.
#[derive(Clone, Copy, Debug, PartialEq, Eq, Structural)]
pub struct LoadReport {
    /// The number of rows inserted.
    pub loaded: usize,
    /// The number of data records skipped as not loadable.
    pub skipped: usize,
}

/// Relies on rusqlite::Connection::open: opens, or creates, the store file.
#[verifier::external_body]
fn open_connection(path: &str) -> (r: Result<rusqlite::Connection, rusqlite::Error>) {
    rusqlite::Connection::open(path)
}

/// Relies on rusqlite::Connection::execute: runs one statement with the
/// arguments bound to its parameters in order, and returns the number of
/// rows it changed.
#[verifier::external_body]
fn execute_sql(conn: &rusqlite::Connection, sql: &str, args: &Vec<SqlArg>) -> (r: Result<
    usize,
    rusqlite::Error,
>) {
    conn.execute(
        sql,
        rusqlite::params_from_iter(
            args.iter().map(
                |a| match a {
                    SqlArg::Int(v) => rusqlite::types::Value::Integer(*v as i64),
                    SqlArg::Text(t) => rusqlite::types::Value::Text(t.clone()),
                },
            ),
        ),
    )
}

/// Relies on rusqlite::Connection::prepare, Statement::query_map and
/// Row::get: runs one query with the arguments bound in order and reads
/// every result row as its five columns.
#[verifier::external_body]
fn query_rows(conn: &rusqlite::Connection, sql: &str, args: &Vec<SqlArg>) -> (r: Result<
    Vec<TransferRow>,
    rusqlite::Error,
>) {
    let mut stmt = conn.prepare(sql)?;
    let values = args.iter().map(
        |a| match a {
            SqlArg::Int(v) => rusqlite::types::Value::Integer(*v as i64),
            SqlArg::Text(t) => rusqlite::types::Value::Text(t.clone()),
        },
    );
    let rows = stmt.query_map(
        rusqlite::params_from_iter(values),
        |row| Ok((row.get(0)?, row.get(1)?, row.get(2)?, row.get(3)?, row.get(4)?)),
    )?;
    rows.collect()
}

/// Opens the store at `database_conn`, creating the file if it is missing.
pub fn connect_db(database_conn: &str) -> (r: Result<rusqlite::Connection, rusqlite::Error>) {
    open_connection(database_conn)
}

/// Creates the `chess_transfers` table unless it exists.
pub fn create_table(conn: &rusqlite::Connection) -> (r: Result<(), rusqlite::Error>) {
    let args: Vec<SqlArg> = Vec::new();
    match execute_sql(
        conn,
        "CREATE TABLE IF NOT EXISTS chess_transfers (url TEXT NOT NULL, ID INTEGER, Federation VARCHAR(10), Form_Fed VARCHAR(10), TransferDate VARCHAR(30))",
        &args,
    ) {
        Ok(_) => Ok(()),
        Err(e) => Err(e),
    }
}

/// Appends a row to the table.
pub fn insert_record(
    conn: &rusqlite::Connection,
    url: &str,
    id: i32,
    federation: &str,
    form_fed: &str,
    transfer_date: &str,
) -> (r: Result<(), rusqlite::Error>) {
    let args = insert_args(url, id, federation, form_fed, transfer_date);
    match execute_sql(
        conn,
        "INSERT INTO chess_transfers (url, ID, Federation, Form_Fed, TransferDate) VALUES (?, ?, ?, ?, ?)",
        &args,
    ) {
        Ok(_) => Ok(()),
        Err(e) => Err(e),
    }
}

/// Every row of the table, in the order the store returns them.
pub fn read_records(conn: &rusqlite::Connection) -> (r: Result<Vec<TransferRow>, rusqlite::Error>) {
    let args: Vec<SqlArg> = Vec::new();
    query_rows(
        conn,
        "SELECT url, ID, Federation, Form_Fed, TransferDate FROM chess_transfers",
        &args,
    )
}

/// The first row that the store returns for `id`: `Ok(None)` when no row
/// has that id, which is no error.
pub fn read_record_by_id(conn: &rusqlite::Connection, id: i32) -> (r: Result<
    Option<TransferRow>,
    rusqlite::Error,
>)
    ensures
        r matches Ok(Some(row)) ==> row.1 == id,
{
    let args = id_args(id);
    match query_rows(
        conn,
        "SELECT url, ID, Federation, Form_Fed, TransferDate FROM chess_transfers WHERE ID = ?",
        &args,
    ) {
        Ok(rows) => Ok(first_with_id(&rows, id)),
        Err(e) => Err(e),
    }
}

/// Gives the four new values to every row whose id is `id`; a missing id
/// is no error.
pub fn update_record(
    conn: &rusqlite::Connection,
    id: i32,
    new_url: &str,
    new_federation: &str,
    new_form: &str,
    new_transfer_date: &str,
) -> (r: Result<(), rusqlite::Error>) {
    let args = update_args(id, new_url, new_federation, new_form, new_transfer_date);
    match execute_sql(
        conn,
        "UPDATE chess_transfers SET url = ?, Federation = ?, Form_Fed = ?, TransferDate = ? WHERE ID = ?",
        &args,
    ) {
        Ok(_) => Ok(()),
        Err(e) => Err(e),
    }
}

/// Removes every row whose id is `id`; a missing id is no error.
pub fn delete_record(conn: &rusqlite::Connection, id: i32) -> (r: Result<(), rusqlite::Error>) {
    let args = id_args(id);
    match execute_sql(conn, "DELETE FROM chess_transfers WHERE ID = ?", &args) {
        Ok(_) => Ok(()),
        Err(e) => Err(e),
    }
}

/// Empties the table and fills it from CSV text with a header row: one row
/// per loadable data record, in order; records with fewer than five fields
/// or with an id that is not an `i32` are skipped. The table is created
/// first if it is missing. A failing statement stops the load, leaving the
/// rows inserted so far.
pub fn load_csv_to_db(conn: &rusqlite::Connection, csv_data: &[u8]) -> (r: Result<
    LoadReport,
    LoadError,
>)
    ensures
        r matches Ok(rep) ==> rep.loaded == rows_to_load(csv_records_of(csv_data@)).len()
            && rep.loaded + rep.skipped == csv_records_of(csv_data@).len(),
{
    match create_table(conn) {
        Ok(()) => {},
        Err(e) => return Err(LoadError::Store(e)),
    }
    let no_args: Vec<SqlArg> = Vec::new();
    match execute_sql(conn, "DELETE FROM chess_transfers", &no_args) {
        Ok(_) => {},
        Err(e) => return Err(LoadError::Store(e)),
    }
    let records = match read_csv_records(csv_data) {
        Ok(v) => v,
        Err(e) => return Err(LoadError::Csv(e)),
    };
    let (rows, skipped) = rows_to_insert(&records);
    let mut i: usize = 0;
    while i < rows.len()
        invariant
            i <= rows@.len(),
        decreases rows@.len() - i,
    {
        let row = &rows[i];
        match insert_record(conn, row.0.as_str(), row.1, row.2.as_str(), row.3.as_str(), row.4.as_str()) {
            Ok(()) => {},
            Err(e) => return Err(LoadError::Store(e)),
        }
        i = i + 1;
    }
    Ok(LoadReport { loaded: rows.len(), skipped })
}

} // verus!
