//! Statements, their parameters, and the rows that come back from the store.
//!
//! The relational engine is reached through a handful of trusted functions.
//! Everything around them works on plain values: a statement is its text and
//! its parameters, a row is a list of cells.

use vstd::prelude::*;
use rusqlite::Connection;

verus! {

/// One value that is handed to or read from the store.
#[derive(Debug, Clone)]
pub enum SqlValue {
    Null,
    Integer(i64),
    /// A cell whose value is not carried: a floating-point number, or text
    /// that is not UTF-8. Nothing in the schema holds either.
    Opaque,
    Text(String),
    Blob(Vec<u8>),
}

/// What a [`SqlValue`] holds, as mathematics.
pub enum Cell {
    Null,
    Integer(i64),
    Opaque,
    Text(Seq<char>),
    Blob(Seq<u8>),
}

impl View for SqlValue {
    type V = Cell;

    open spec fn view(&self) -> Cell {
        match *self {
            SqlValue::Null => Cell::Null,
            SqlValue::Integer(n) => Cell::Integer(n),
            SqlValue::Opaque => Cell::Opaque,
            SqlValue::Text(s) => Cell::Text(s@),
            SqlValue::Blob(b) => Cell::Blob(b@),
        }
    }
}

/// The cells of a list of values.
pub open spec fn cells_of(values: Seq<SqlValue>) -> Seq<Cell> {
    values.map_values(|v: SqlValue| v@)
}

/// The text of a statement together with its positional parameters.
#[derive(Debug)]
pub struct SqlStatement {
    pub sql: String,
    pub params: Vec<SqlValue>,
}

/// What a [`SqlStatement`] says, as mathematics.
pub struct StatementView {
    pub sql: Seq<char>,
    pub params: Seq<Cell>,
}

impl View for SqlStatement {
    type V = StatementView;

    open spec fn view(&self) -> StatementView {
        StatementView { sql: self.sql@, params: cells_of(self.params@) }
    }
}

/// A statement with one more piece of text at its end and, where one is
/// given, one more parameter.
pub open spec fn spec_clause(stmt: StatementView, text: Seq<char>, param: Option<Cell>) -> StatementView {
    StatementView {
        sql: stmt.sql + text,
        params: match param {
            Some(cell) => stmt.params.push(cell),
            None => stmt.params,
        },
    }
}

/// The cell of a parameter that may be absent.
pub open spec fn spec_cell_of(param: Option<SqlValue>) -> Option<Cell> {
    match param {
        Some(value) => Some(value@),
        None => None,
    }
}

impl SqlStatement {
    /// A statement without parameters.
    pub fn new(sql: &str) -> (stmt: SqlStatement)
        ensures
            stmt@ == (StatementView { sql: sql@, params: Seq::empty() }),
    {
        let stmt = SqlStatement { sql: String::from_str(sql), params: Vec::new() };
        assert(stmt@.params =~= Seq::<Cell>::empty());
        stmt
    }

    /// Adds a parameter to the end of the parameters; the text stays.
    pub fn bind(&mut self, value: SqlValue)
        ensures
            final(self)@ == (StatementView {
                sql: old(self)@.sql,
                params: old(self)@.params.push(value@),
            }),
    {
        self.params.push(value);
        assert(cells_of(self.params@) =~= cells_of(old(self).params@).push(value@));
    }

    /// Adds a piece of text to the end of the statement and, where one is
    /// given, the parameter that the text refers to.
    pub fn add(&mut self, text: &str, param: Option<SqlValue>)
        ensures
            final(self)@ == spec_clause(old(self)@, text@, spec_cell_of(param)),
    {
        self.sql.append(text);
        match param {
            Some(value) => {
                self.params.push(value);
                assert(cells_of(self.params@) =~= cells_of(old(self).params@).push(value@));
            },
            None => {},
        }
    }
}

/// Why the store did not do what it was asked.
#[derive(Debug, Clone)]
pub enum SqlFailure {
    /// The row that was asked for is not there.
    NotFound,
    /// The column with this index is missing from a row, or does not hold
    /// what was to be read from it.
    InvalidColumn(usize),
    /// Anything else, with the engine's message.
    Other(String),
}

/// `rusqlite::Connection`, a connection to the store. Nothing is known of
/// what is inside.
#[verifier::external_type_specification]
#[verifier::external_body]
pub struct ExConnection(rusqlite::Connection);

/// `rusqlite::Transaction`, a transaction on a connection.
#[verifier::external_type_specification]
#[verifier::external_body]
pub struct ExTransaction<'conn>(rusqlite::Transaction<'conn>);

/// `rusqlite::Error`, what the engine reports when it fails.
#[verifier::external_type_specification]
#[verifier::external_body]
pub struct ExSqlError(rusqlite::Error);

/// `rusqlite::types::Value`, a value in the form that the engine takes.
#[verifier::external_type_specification]
#[verifier::external_body]
pub struct ExBoundValue(rusqlite::types::Value);

/// One column of a row as it is read from the engine, part by part.
#[derive(Debug)]
pub struct RawCell {
    /// The engine reports the column as null.
    pub is_null: bool,
    /// The integer of the column, if it holds one.
    pub integer: Option<i64>,
    /// The text of the column, if it holds text that is UTF-8.
    pub text: Option<String>,
    /// The bytes of the column, if it holds bytes.
    pub blob: Option<Vec<u8>>,
}

/// Turns a parameter into `rusqlite::types::Value`, variant for variant. A
/// [`SqlValue::Opaque`] carries nothing and is bound as `Null`.
#[verifier::external_body]
fn bind_cell(value: &SqlValue) -> rusqlite::types::Value {
    match value {
        SqlValue::Null => rusqlite::types::Value::Null,
        SqlValue::Integer(n) => rusqlite::types::Value::Integer(*n),
        SqlValue::Opaque => rusqlite::types::Value::Null,
        SqlValue::Text(s) => rusqlite::types::Value::Text(s.clone()),
        SqlValue::Blob(b) => rusqlite::types::Value::Blob(b.clone()),
    }
}

/// Runs one statement with `rusqlite::Connection::execute` and gives the
/// number of rows that it changed. What comes back depends on the store.
#[verifier::external_body]
fn run_statement(conn: &Connection, sql: &str, params: &Vec<rusqlite::types::Value>) -> Result<
    usize,
    rusqlite::Error,
> {
    conn.execute(sql, rusqlite::params_from_iter(params.iter()))
}

/// Runs one query with `rusqlite::Connection::prepare` and
/// `rusqlite::Statement::query`, and hands out every row. Each column is
/// read with `rusqlite::Row::get_ref` and taken apart with the accessors of
/// `rusqlite::types::ValueRef`. What comes back depends on the store.
#[verifier::external_body]
fn fetch_rows(conn: &Connection, sql: &str, params: &Vec<rusqlite::types::Value>) -> Result<
    Vec<Vec<RawCell>>,
    rusqlite::Error,
> {
    let mut stmt = conn.prepare(sql)?;
    let width = stmt.column_count();
    let mut rows = stmt.query(rusqlite::params_from_iter(params.iter()))?;
    let mut table = Vec::new();
    while let Some(row) = rows.next()? {
        let mut cells = Vec::new();
        for idx in 0..width {
            let cell = row.get_ref(idx)?;
            let is_null = cell.data_type() == rusqlite::types::Type::Null;
            let (integer, blob) = (cell.as_i64().ok(), cell.as_blob().ok().map(Vec::from));
            cells.push(RawCell { is_null, integer, text: cell.as_str().ok().map(String::from), blob });
        }
        table.push(cells);
    }
    Ok(table)
}

/// The message of an engine error, as `rusqlite::Error` prints it.
#[verifier::external_body]
fn error_message(err: &rusqlite::Error) -> String {
    err.to_string()
}

/// Opens the store at `path` with `rusqlite::Connection::open`.
#[verifier::external_body]
fn open_connection(path: &str) -> Result<Connection, rusqlite::Error> {
    Connection::open(path)
}

/// Wraps an engine error. The engine never reports a missing row here: a
/// query that finds nothing gives no rows.
pub fn sql_failure(err: rusqlite::Error) -> (failure: SqlFailure)
    ensures
        failure is Other,
{
    SqlFailure::Other(error_message(&err))
}

/// Whether a failure says that the row asked for is not there.
pub fn is_sql_not_found(err: &SqlFailure) -> (missing: bool)
    ensures
        missing == (*err is NotFound),
{
    match err {
        SqlFailure::NotFound => true,
        _ => false,
    }
}

/// Opens the store at `path`.
pub fn open(path: &str) -> (res: Result<Connection, SqlFailure>)
    ensures
        res is Err ==> res->Err_0 is Other,
{
    match open_connection(path) {
        Ok(conn) => Ok(conn),
        Err(err) => Err(sql_failure(err)),
    }
}

/// The value that the parts of a column stand for. A column that holds
/// none of null, integer, text and bytes is opaque.
pub open spec fn spec_cell_value(raw: RawCell) -> SqlValue {
    match raw.integer {
        Some(n) => SqlValue::Integer(n),
        None => match raw.text {
            Some(s) => SqlValue::Text(s),
            None => match raw.blob {
                Some(b) => SqlValue::Blob(b),
                None => if raw.is_null {
                    SqlValue::Null
                } else {
                    SqlValue::Opaque
                },
            },
        },
    }
}

/// Puts the parts of a column together.
pub fn cell_value(raw: RawCell) -> (value: SqlValue)
    ensures
        value == spec_cell_value(raw),
{
    match raw.integer {
        Some(n) => SqlValue::Integer(n),
        None => match raw.text {
            Some(s) => SqlValue::Text(s),
            None => match raw.blob {
                Some(b) => SqlValue::Blob(b),
                None => {
                    if raw.is_null {
                        SqlValue::Null
                    } else {
                        SqlValue::Opaque
                    }
                },
            },
        },
    }
}

/// The same items in the opposite order.
fn turned<T>(mut list: Vec<T>) -> (out: Vec<T>)
    ensures
        out.len() == list.len(),
        forall|i: int| 0 <= i < out.len() ==> out[i] == #[trigger] list[list.len() - 1 - i],
{
    let ghost all = list@;
    let mut out: Vec<T> = Vec::new();
    while list.len() > 0
        invariant
            list@ == all.take(list.len() as int),
            out.len() + list.len() == all.len(),
            forall|i: int| 0 <= i < out.len() ==> out[i] == #[trigger] all[all.len() - 1 - i],
        decreases list.len(),
    {
        match list.pop() {
            Some(item) => {
                assert(item == all[all.len() - 1 - out.len()]);
                out.push(item);
                assert(list@ =~= all.take(list.len() as int));
            },
            None => {},
        }
    }
    out
}

/// The values that the columns of a row stand for.
pub open spec fn spec_row_values(raw: Seq<RawCell>) -> Seq<SqlValue> {
    raw.map_values(|cell: RawCell| spec_cell_value(cell))
}

/// Puts the columns of a row together, in their order.
pub fn row_values(raw: Vec<RawCell>) -> (row: Vec<SqlValue>)
    ensures
        row@ == spec_row_values(raw@),
{
    let mut back = turned(raw);
    let mut row: Vec<SqlValue> = Vec::new();
    while back.len() > 0
        invariant
            back.len() + row.len() == raw.len(),
            forall|i: int| 0 <= i < back.len() ==> back[i] == #[trigger] raw[raw.len() - 1 - i],
            forall|i: int| 0 <= i < row.len() ==> row[i] == spec_cell_value(#[trigger] raw[i]),
        decreases back.len(),
    {
        proof {
            let last = back.len() - 1;
            assert(back[last] == raw[raw.len() - 1 - last]);
        }
        match back.pop() {
            Some(cell) => {
                row.push(cell_value(cell));
            },
            None => {},
        }
    }
    assert(row@ =~= spec_row_values(raw@));
    row
}

/// Puts the rows of an answer together, in their order.
pub fn table_values(raw: Vec<Vec<RawCell>>) -> (rows: Vec<Vec<SqlValue>>)
    ensures
        rows.len() == raw.len(),
        forall|i: int| 0 <= i < rows.len() ==> (#[trigger] rows[i])@ == spec_row_values(raw[i]@),
{
    let mut back = turned(raw);
    let mut rows: Vec<Vec<SqlValue>> = Vec::new();
    while back.len() > 0
        invariant
            back.len() + rows.len() == raw.len(),
            forall|i: int| 0 <= i < back.len() ==> back[i] == #[trigger] raw[raw.len() - 1 - i],
            forall|i: int|
                0 <= i < rows.len() ==> (#[trigger] rows[i])@ == spec_row_values(raw[i]@),
        decreases back.len(),
    {
        proof {
            let last = back.len() - 1;
            assert(back[last] == raw[raw.len() - 1 - last]);
        }
        match back.pop() {
            Some(cells) => {
                rows.push(row_values(cells));
            },
            None => {},
        }
    }
    rows
}

/// Turns the parameters of a statement into the form that the engine takes.
fn bind_all(params: &Vec<SqlValue>) -> (bound: Vec<rusqlite::types::Value>)
    ensures
        bound.len() == params.len(),
{
    let mut bound: Vec<rusqlite::types::Value> = Vec::new();
    let mut i: usize = 0;
    while i < params.len()
        invariant
            i <= params.len(),
            bound.len() == i,
        decreases params.len() - i,
    {
        bound.push(bind_cell(&params[i]));
        i = i + 1;
    }
    bound
}

/// Runs a statement that changes the store.
pub fn execute(conn: &Connection, stmt: &SqlStatement) -> (res: Result<usize, SqlFailure>)
    ensures
        res is Err ==> res->Err_0 is Other,
{
    let bound = bind_all(&stmt.params);
    match run_statement(conn, stmt.sql.as_str(), &bound) {
        Ok(changed) => Ok(changed),
        Err(err) => Err(sql_failure(err)),
    }
}

/// Runs a query and gives every row it produced.
pub fn query(conn: &Connection, stmt: &SqlStatement) -> (res: Result<Vec<Vec<SqlValue>>, SqlFailure>)
    ensures
        res is Err ==> res->Err_0 is Other,
{
    let bound = bind_all(&stmt.params);
    match fetch_rows(conn, stmt.sql.as_str(), &bound) {
        Ok(raw) => Ok(table_values(raw)),
        Err(err) => Err(sql_failure(err)),
    }
}

/// The integer in column `idx` of a row.
pub open spec fn spec_cell_i64(row: Seq<SqlValue>, idx: usize) -> Result<i64, SqlFailure> {
    if idx < row.len() {
        match row[idx as int] {
            SqlValue::Integer(n) => Ok(n),
            _ => Err(SqlFailure::InvalidColumn(idx)),
        }
    } else {
        Err(SqlFailure::InvalidColumn(idx))
    }
}

/// The integer in column `idx` of a row, or `None` where the column is null.
pub open spec fn spec_cell_opt_i64(row: Seq<SqlValue>, idx: usize) -> Result<
    Option<i64>,
    SqlFailure,
> {
    if idx < row.len() {
        match row[idx as int] {
            SqlValue::Integer(n) => Ok(Some(n)),
            SqlValue::Null => Ok(None),
            _ => Err(SqlFailure::InvalidColumn(idx)),
        }
    } else {
        Err(SqlFailure::InvalidColumn(idx))
    }
}

/// The text in column `idx` of a row.
pub open spec fn spec_cell_text(row: Seq<SqlValue>, idx: usize) -> Result<String, SqlFailure> {
    if idx < row.len() {
        match row[idx as int] {
            SqlValue::Text(s) => Ok(s),
            _ => Err(SqlFailure::InvalidColumn(idx)),
        }
    } else {
        Err(SqlFailure::InvalidColumn(idx))
    }
}

/// Column `idx` read as a truth value: an integer, true unless it is zero.
pub open spec fn spec_cell_bool(row: Seq<SqlValue>, idx: usize) -> Result<bool, SqlFailure> {
    match spec_cell_i64(row, idx) {
        Ok(n) => Ok(n != 0),
        Err(failure) => Err(failure),
    }
}

/// Column `idx` read as a count: an integer that fits 32 unsigned bits.
pub open spec fn spec_cell_u32(row: Seq<SqlValue>, idx: usize) -> Result<u32, SqlFailure> {
    match spec_cell_i64(row, idx) {
        Ok(n) => if 0 <= n <= u32::MAX {
            Ok(n as u32)
        } else {
            Err(SqlFailure::InvalidColumn(idx))
        },
        Err(failure) => Err(failure),
    }
}

/// Reads column `idx` as an integer.
pub fn cell_i64(row: &Vec<SqlValue>, idx: usize) -> (res: Result<i64, SqlFailure>)
    ensures
        res == spec_cell_i64(row@, idx),
{
    if idx < row.len() {
        match &row[idx] {
            SqlValue::Integer(n) => Ok(*n),
            _ => Err(SqlFailure::InvalidColumn(idx)),
        }
    } else {
        Err(SqlFailure::InvalidColumn(idx))
    }
}

/// Reads column `idx` as an integer that may be null.
pub fn cell_opt_i64(row: &Vec<SqlValue>, idx: usize) -> (res: Result<Option<i64>, SqlFailure>)
    ensures
        res == spec_cell_opt_i64(row@, idx),
{
    if idx < row.len() {
        match &row[idx] {
            SqlValue::Integer(n) => Ok(Some(*n)),
            SqlValue::Null => Ok(None),
            _ => Err(SqlFailure::InvalidColumn(idx)),
        }
    } else {
        Err(SqlFailure::InvalidColumn(idx))
    }
}

/// Reads column `idx` as text.
pub fn cell_text(row: &Vec<SqlValue>, idx: usize) -> (res: Result<String, SqlFailure>)
    ensures
        res == spec_cell_text(row@, idx),
{
    if idx < row.len() {
        match &row[idx] {
            SqlValue::Text(s) => Ok(s.clone()),
            _ => Err(SqlFailure::InvalidColumn(idx)),
        }
    } else {
        Err(SqlFailure::InvalidColumn(idx))
    }
}

/// Reads column `idx` as a truth value.
pub fn cell_bool(row: &Vec<SqlValue>, idx: usize) -> (res: Result<bool, SqlFailure>)
    ensures
        res == spec_cell_bool(row@, idx),
{
    match cell_i64(row, idx) {
        Ok(n) => Ok(n != 0),
        Err(err) => Err(err),
    }
}

/// Reads column `idx` as a count of 32 bits.
pub fn cell_u32(row: &Vec<SqlValue>, idx: usize) -> (res: Result<u32, SqlFailure>)
    ensures
        res == spec_cell_u32(row@, idx),
{
    match cell_i64(row, idx) {
        Ok(n) => {
            if 0 <= n && n <= 0xffff_ffff {
                Ok(n as u32)
            } else {
                Err(SqlFailure::InvalidColumn(idx))
            }
        },
        Err(err) => Err(err),
    }
}

} // verus!
