//! The storage boundary: values exchanged with the embedded SQL engine, the
//! library's error type, the calls into the engine, and the reading of result
//! columns.
use vstd::prelude::*;

verus! {

#[verifier::external_type_specification]
#[verifier::external_body]
pub struct ExConnection(rusqlite::Connection);

#[verifier::external_type_specification]
#[verifier::external_body]
pub struct ExSqlError(rusqlite::Error);

#[verifier::external_type_specification]
#[verifier::external_body]
pub struct ExEngineValue(rusqlite::types::Value);

/// A value bound to a statement parameter or read from a result column.
#[derive(Debug)]
pub enum SqlValue {
    Null,
    Integer(i64),
    Text(String),
    Blob(Vec<u8>),
}

/// What a parameter value holds, as mathematical values.
pub enum SqlArg {
    Null,
    Integer(i64),
    Text(Seq<char>),
    Blob(Seq<u8>),
}

pub open spec fn arg_of(v: SqlValue) -> SqlArg {
    match v {
        SqlValue::Null => SqlArg::Null,
        SqlValue::Integer(i) => SqlArg::Integer(i),
        SqlValue::Text(t) => SqlArg::Text(t@),
        SqlValue::Blob(b) => SqlArg::Blob(b@),
    }
}

/// The parameters of a statement, as mathematical values.
pub open spec fn args_of(p: Seq<SqlValue>) -> Seq<SqlArg> {
    p.map_values(|v: SqlValue| arg_of(v))
}

/// A statement with its parameters, bound to its `?` marks in order.
pub struct SqlQuery {
    pub sql: String,
    pub params: Vec<SqlValue>,
}

/// Why a storage operation failed.
#[derive(Debug)]
pub enum StoreError {
    /// The engine refused the statement or the file could not be used.
    Sql(rusqlite::Error),
    /// A result row did not have the shape the statement asked for.
    BadRow,
    /// Note content was empty once white space was trimmed.
    EmptyContent,
    /// The local time zone has no single instant for a wall-clock time.
    NoLocalTime,
}

/// Relies on `rusqlite::Connection::open`: opens or creates the database
/// file at `path`.
#[verifier::external_body]
pub(crate) fn open_file(path: &str) -> (r: Result<rusqlite::Connection, rusqlite::Error>) {
    rusqlite::Connection::open(path)
}

/// Relies on `rusqlite::Connection::execute_batch`: runs every statement of
/// `sql` in turn.
#[verifier::external_body]
pub(crate) fn exec_batch(conn: &rusqlite::Connection, sql: &str) -> (r: Result<
    (),
    rusqlite::Error,
>) {
    conn.execute_batch(sql)
}

/// Relies on `rusqlite::Connection::last_insert_rowid`: the rowid of the most
/// recent successful insert on this connection.
#[verifier::external_body]
pub(crate) fn last_rowid(conn: &rusqlite::Connection) -> (r: i64) {
    conn.last_insert_rowid()
}

/// Relies on the variants of `rusqlite::types::Value`: the engine's value of
/// the same kind and content.
#[verifier::external_body]
fn to_engine(v: &SqlValue) -> (r: rusqlite::types::Value) {
    match v {
        SqlValue::Null => rusqlite::types::Value::Null,
        SqlValue::Integer(i) => rusqlite::types::Value::Integer(*i),
        SqlValue::Text(t) => rusqlite::types::Value::Text(t.clone()),
        SqlValue::Blob(b) => rusqlite::types::Value::Blob(b.clone()),
    }
}

/// Relies on the variants of `rusqlite::types::Value`: the library's value of
/// the same kind and content, or `None` for a floating-point value.
#[verifier::external_body]
fn from_engine(v: &rusqlite::types::Value) -> (r: Option<SqlValue>) {
    match v {
        rusqlite::types::Value::Null => Some(SqlValue::Null),
        rusqlite::types::Value::Integer(i) => Some(SqlValue::Integer(*i)),
        rusqlite::types::Value::Text(t) => Some(SqlValue::Text(t.clone())),
        rusqlite::types::Value::Blob(b) => Some(SqlValue::Blob(b.clone())),
        rusqlite::types::Value::Real(_) => None,
    }
}

/// Relies on `rusqlite::Connection::execute`: runs one statement with the
/// given parameters and returns the number of rows it changed.
#[verifier::external_body]
fn execute_with(conn: &rusqlite::Connection, sql: &str, params: &Vec<rusqlite::types::Value>) -> (r:
    Result<usize, rusqlite::Error>) {
    conn.execute(sql, rusqlite::params_from_iter(params.iter()))
}

/// Relies on `rusqlite::Connection::prepare` and `rusqlite::Statement::query_map`:
/// runs one query with the given parameters and returns its rows in the order
/// the engine produced them, each with every result column.
#[verifier::external_body]
fn query_with(conn: &rusqlite::Connection, sql: &str, params: &Vec<rusqlite::types::Value>) -> (r:
    Result<Vec<Vec<rusqlite::types::Value>>, rusqlite::Error>) {
    let mut stmt = conn.prepare(sql)?;
    let n = stmt.column_count();
    let rows = stmt.query_map(rusqlite::params_from_iter(params.iter()), |row| {
        (0..n).map(|i| row.get::<usize, rusqlite::types::Value>(i)).collect()
    })?;
    rows.collect()
}

fn bind_all(params: &Vec<SqlValue>) -> (r: Vec<rusqlite::types::Value>)
    ensures
        r@.len() == params@.len(),
{
    let mut out: Vec<rusqlite::types::Value> = Vec::new();
    let mut i: usize = 0;
    while i < params.len()
        invariant
            i <= params@.len(),
            out@.len() == i,
        decreases params@.len() - i,
    {
        out.push(to_engine(&params[i]));
        i = i + 1;
    }
    out
}

/// Runs a statement that returns no rows; on success, the number of rows it
/// changed.
pub fn run_exec(conn: &rusqlite::Connection, q: &SqlQuery) -> (r: Result<usize, StoreError>)
    ensures
        r matches Err(e) ==> e is Sql,
{
    let bound = bind_all(&q.params);
    match execute_with(conn, q.sql.as_str(), &bound) {
        Ok(n) => Ok(n),
        Err(e) => Err(StoreError::Sql(e)),
    }
}

/// Runs a query and returns its rows; a row holding a value the library does
/// not read (a floating-point number) fails the whole query.
pub fn run_query(conn: &rusqlite::Connection, q: &SqlQuery) -> (r: Result<
    Vec<Vec<SqlValue>>,
    StoreError,
>)
    ensures
        r matches Err(e) ==> (e is Sql || e is BadRow),
{
    let bound = bind_all(&q.params);
    let raw = match query_with(conn, q.sql.as_str(), &bound) {
        Ok(rows) => rows,
        Err(e) => {
            return Err(StoreError::Sql(e));
        },
    };
    let mut rows: Vec<Vec<SqlValue>> = Vec::new();
    let mut i: usize = 0;
    while i < raw.len()
        invariant
            i <= raw@.len(),
        decreases raw@.len() - i,
    {
        let cells = &raw[i];
        let mut row: Vec<SqlValue> = Vec::new();
        let mut j: usize = 0;
        while j < cells.len()
            invariant
                j <= cells@.len(),
            decreases cells@.len() - j,
        {
            match from_engine(&cells[j]) {
                Some(v) => row.push(v),
                None => {
                    return Err(StoreError::BadRow);
                },
            }
            j = j + 1;
        }
        rows.push(row);
        i = i + 1;
    }
    Ok(rows)
}

/// A query without parameters.
pub fn plain_query(sql: &str) -> (q: SqlQuery)
    ensures
        q.sql@ == sql@,
        q.params@.len() == 0,
{
    SqlQuery { sql: sql.to_string(), params: Vec::new() }
}

/// A query whose only parameter is `p`.
pub fn query1(sql: &str, p: SqlValue) -> (q: SqlQuery)
    ensures
        q.sql@ == sql@,
        q.params@ == seq![p],
{
    let mut params: Vec<SqlValue> = Vec::new();
    params.push(p);
    SqlQuery { sql: sql.to_string(), params }
}

/// A query whose parameters are `p1`, `p2` and `p3`.
pub fn query3(sql: &str, p1: SqlValue, p2: SqlValue, p3: SqlValue) -> (q: SqlQuery)
    ensures
        q.sql@ == sql@,
        q.params@ == seq![p1, p2, p3],
{
    let mut params: Vec<SqlValue> = Vec::new();
    params.push(p1);
    params.push(p2);
    params.push(p3);
    SqlQuery { sql: sql.to_string(), params }
}

/// A query whose parameters are `p1` and `p2`.
pub fn query2(sql: &str, p1: SqlValue, p2: SqlValue) -> (q: SqlQuery)
    ensures
        q.sql@ == sql@,
        q.params@ == seq![p1, p2],
{
    let mut params: Vec<SqlValue> = Vec::new();
    params.push(p1);
    params.push(p2);
    SqlQuery { sql: sql.to_string(), params }
}

/// The integer a column holds, if it holds one.
pub open spec fn int_of(v: SqlValue) -> Option<i64> {
    match v {
        SqlValue::Integer(i) => Some(i),
        _ => None,
    }
}

/// The text a column holds, if it holds one.
pub open spec fn text_of(v: SqlValue) -> Option<String> {
    match v {
        SqlValue::Text(t) => Some(t),
        _ => None,
    }
}

/// A nullable text column: `Some(None)` for NULL.
pub open spec fn opt_text_of(v: SqlValue) -> Option<Option<String>> {
    match v {
        SqlValue::Null => Some(None),
        SqlValue::Text(t) => Some(Some(t)),
        _ => None,
    }
}

/// A nullable integer column: `Some(None)` for NULL.
pub open spec fn opt_int_of(v: SqlValue) -> Option<Option<i64>> {
    match v {
        SqlValue::Null => Some(None),
        SqlValue::Integer(i) => Some(Some(i)),
        _ => None,
    }
}

/// A boolean column, stored as an integer: any non-zero value is true.
pub open spec fn bool_of(v: SqlValue) -> Option<bool> {
    match v {
        SqlValue::Integer(i) => Some(i != 0),
        _ => None,
    }
}

/// Column `i` of a row as an integer, where it holds one.
pub fn int_at(row: &Vec<SqlValue>, i: usize) -> (r: Option<i64>)
    ensures
        r == (if i < row@.len() { int_of(row@[i as int]) } else { None }),
{
    if i >= row.len() {
        return None;
    }
    match &row[i] {
        SqlValue::Integer(x) => Some(*x),
        _ => None,
    }
}

/// Column `i` of a row as text, where it holds text.
pub fn text_at(row: &Vec<SqlValue>, i: usize) -> (r: Option<String>)
    ensures
        r == (if i < row@.len() { text_of(row@[i as int]) } else { None }),
{
    if i >= row.len() {
        return None;
    }
    match &row[i] {
        SqlValue::Text(t) => Some(t.clone()),
        _ => None,
    }
}

/// Column `i` of a row as nullable text.
pub fn opt_text_at(row: &Vec<SqlValue>, i: usize) -> (r: Option<Option<String>>)
    ensures
        r == (if i < row@.len() { opt_text_of(row@[i as int]) } else { None }),
{
    if i >= row.len() {
        return None;
    }
    match &row[i] {
        SqlValue::Null => Some(None),
        SqlValue::Text(t) => Some(Some(t.clone())),
        _ => None,
    }
}

/// Column `i` of a row as a nullable integer.
pub fn opt_int_at(row: &Vec<SqlValue>, i: usize) -> (r: Option<Option<i64>>)
    ensures
        r == (if i < row@.len() { opt_int_of(row@[i as int]) } else { None }),
{
    if i >= row.len() {
        return None;
    }
    match &row[i] {
        SqlValue::Null => Some(None),
        SqlValue::Integer(x) => Some(Some(*x)),
        _ => None,
    }
}

/// Column `i` of a row as a flag stored as an integer.
pub fn bool_at(row: &Vec<SqlValue>, i: usize) -> (r: Option<bool>)
    ensures
        r == (if i < row@.len() { bool_of(row@[i as int]) } else { None }),
{
    if i >= row.len() {
        return None;
    }
    match &row[i] {
        SqlValue::Integer(x) => Some(*x != 0),
        _ => None,
    }
}

/// The single integer of a one-row, one-column result (a `COUNT(*)`).
pub open spec fn single_int(rows: Seq<Vec<SqlValue>>) -> Option<i64> {
    if rows.len() == 1 && rows[0]@.len() == 1 {
        int_of(rows[0]@[0])
    } else {
        None
    }
}

/// The count a one-row, one-column result holds.
pub fn read_single_int(rows: &Vec<Vec<SqlValue>>) -> (r: Result<i64, StoreError>)
    ensures
        single_int(rows@) matches Some(n) ==> (r matches Ok(m) && m == n),
        single_int(rows@) is None ==> (r matches Err(e) && e is BadRow),
{
    if rows.len() != 1 || rows[0].len() != 1 {
        return Err(StoreError::BadRow);
    }
    match int_at(&rows[0], 0) {
        Some(n) => Ok(n),
        None => Err(StoreError::BadRow),
    }
}

/// Whether a statement that changed `affected` rows found the row it aimed at.
pub fn existed(affected: usize) -> (r: bool)
    ensures
        r == (affected > 0),
{
    affected > 0
}

/// Opens a transaction on the connection.
pub fn begin(conn: &rusqlite::Connection) -> (r: Result<(), StoreError>)
    ensures
        r matches Err(e) ==> e is Sql,
{
    match exec_batch(conn, "BEGIN") {
        Ok(()) => Ok(()),
        Err(e) => Err(StoreError::Sql(e)),
    }
}

/// Ends the open transaction: commits it where the work succeeded, rolls it
/// back where it failed (returning the work's error) or where the commit
/// failed.
pub fn finish<T>(conn: &rusqlite::Connection, work: Result<T, StoreError>) -> (r: Result<T, StoreError>)
    ensures
        work is Err ==> r == work,
        r is Ok ==> r == work,
        work is Ok ==> (r matches Err(e) ==> e is Sql),
{
    match work {
        Ok(v) => match exec_batch(conn, "COMMIT") {
            Ok(()) => Ok(v),
            Err(e) => {
                let _ = exec_batch(conn, "ROLLBACK");
                Err(StoreError::Sql(e))
            },
        },
        Err(e) => {
            let _ = exec_batch(conn, "ROLLBACK");
            Err(e)
        },
    }
}

/// Runs a query that counts rows and returns the count.
pub fn run_count(conn: &rusqlite::Connection, q: &SqlQuery) -> (r: Result<i64, StoreError>)
    ensures
        r matches Err(e) ==> (e is Sql || e is BadRow),
{
    let rows = run_query(conn, q)?;
    read_single_int(&rows)
}

} // verus!
