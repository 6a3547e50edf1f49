//! Where the store lives, opening it, and creating its tables.
use vstd::prelude::*;
use crate::sql::{exec_batch, open_file, plain_query, run_count, StoreError};

verus! {


/// Relies on `dirs::home_dir`: the current user's home directory, where one
/// is known and is valid UTF-8, as text.
#[verifier::external_body]
fn home_dir_text() -> (r: Option<String>) {
    dirs::home_dir()?.into_os_string().into_string().ok()
}

/// The store's directory under a home directory.
pub open spec fn db_dir_under(home: Seq<char>) -> Seq<char> {
    home + "/.notectl"@
}

/// The store's file under a home directory.
pub open spec fn db_path_under(home: Seq<char>) -> Seq<char> {
    db_dir_under(home) + "/notes.db"@
}

/// The store's directory under the given home directory.
pub fn db_dir_in(home: &str) -> (r: String)
    ensures
        r@ == db_dir_under(home@),
{
    let mut p = home.to_string();
    p.append("/.notectl");
    p
}

/// The store's file under the given home directory.
pub fn db_path_in(home: &str) -> (r: String)
    ensures
        r@ == db_path_under(home@),
{
    let mut p = db_dir_in(home);
    p.append("/notes.db");
    p
}

/// The store's directory under the current user's home, where a home is known.
pub fn get_db_dir() -> (r: Option<String>)
    ensures
        r matches Some(p) ==> exists|h: Seq<char>| p@ == db_dir_under(h),
{
    match home_dir_text() {
        Some(h) => Some(db_dir_in(h.as_str())),
        None => None,
    }
}

/// The store's file under the current user's home, where a home is known.
pub fn get_db_path() -> (r: Option<String>)
    ensures
        r matches Some(p) ==> exists|h: Seq<char>| p@ == db_path_under(h),
{
    match home_dir_text() {
        Some(h) => Some(db_path_in(h.as_str())),
        None => None,
    }
}

/// Opens (or creates) the store's file at `path`, with write-ahead logging and
/// foreign-key enforcement switched on for the connection.
pub fn open_connection(path: &str) -> (r: Result<rusqlite::Connection, StoreError>)
    ensures
        r matches Err(e) ==> e is Sql,
{
    let conn = match open_file(path) {
        Ok(c) => c,
        Err(e) => {
            return Err(StoreError::Sql(e));
        },
    };
    match exec_batch(&conn, "PRAGMA journal_mode=WAL; PRAGMA foreign_keys=ON;") {
        Ok(()) => Ok(conn),
        Err(e) => Err(StoreError::Sql(e)),
    }
}

/// The statements that create the notes, tags, todos and templates tables
/// and the two indexes on tags, each only where it does not exist yet.
pub open spec fn schema_text() -> Seq<char> {
    "CREATE TABLE IF NOT EXISTS notes (id INTEGER PRIMARY KEY, content TEXT NOT NULL, created_at INTEGER NOT NULL, updated_at INTEGER NOT NULL, category TEXT, is_daily BOOLEAN DEFAULT 0);
        CREATE TABLE IF NOT EXISTS tags (note_id INTEGER NOT NULL, tag TEXT NOT NULL, FOREIGN KEY (note_id) REFERENCES notes(id) ON DELETE CASCADE);
        CREATE INDEX IF NOT EXISTS idx_tags_note_id ON tags(note_id);
        CREATE INDEX IF NOT EXISTS idx_tags_tag ON tags(tag);
        CREATE TABLE IF NOT EXISTS todos (id INTEGER PRIMARY KEY, task TEXT NOT NULL, completed BOOLEAN DEFAULT 0, priority TEXT DEFAULT 'medium', due_date INTEGER, created_at INTEGER NOT NULL);
        CREATE TABLE IF NOT EXISTS templates (name TEXT PRIMARY KEY, content TEXT NOT NULL);"@
}

/// The statement that creates the full-text index over note content.
pub open spec fn fts_create_text() -> Seq<char> {
    "CREATE VIRTUAL TABLE notes_fts USING fts5(content, content_rowid=id);"@
}

/// The schema batch, every statement of it `CREATE ... IF NOT EXISTS`.
pub fn schema_batch() -> (r: &'static str)
    ensures
        r@ == schema_text(),
{
    "CREATE TABLE IF NOT EXISTS notes (id INTEGER PRIMARY KEY, content TEXT NOT NULL, created_at INTEGER NOT NULL, updated_at INTEGER NOT NULL, category TEXT, is_daily BOOLEAN DEFAULT 0);
        CREATE TABLE IF NOT EXISTS tags (note_id INTEGER NOT NULL, tag TEXT NOT NULL, FOREIGN KEY (note_id) REFERENCES notes(id) ON DELETE CASCADE);
        CREATE INDEX IF NOT EXISTS idx_tags_note_id ON tags(note_id);
        CREATE INDEX IF NOT EXISTS idx_tags_tag ON tags(tag);
        CREATE TABLE IF NOT EXISTS todos (id INTEGER PRIMARY KEY, task TEXT NOT NULL, completed BOOLEAN DEFAULT 0, priority TEXT DEFAULT 'medium', due_date INTEGER, created_at INTEGER NOT NULL);
        CREATE TABLE IF NOT EXISTS templates (name TEXT PRIMARY KEY, content TEXT NOT NULL);"
}

/// The statement to run once the number of full-text tables named
/// `notes_fts` is known: the one that creates it where there is none, and
/// nothing otherwise.
pub fn fts_statement(table_count: i64) -> (r: Option<&'static str>)
    ensures
        r is Some <==> table_count == 0,
        r matches Some(t) ==> t@ == fts_create_text(),
{
    if table_count == 0 {
        Some("CREATE VIRTUAL TABLE notes_fts USING fts5(content, content_rowid=id);")
    } else {
        None
    }
}

/// Creates whatever of the schema is missing: the notes, tags, todos and
/// templates tables, the two indexes on tags, and the full-text index over
/// note content. Running it again on a complete store changes nothing.
pub fn initialize(conn: &rusqlite::Connection) -> (r: Result<(), StoreError>)
    ensures
        r matches Err(e) ==> (e is Sql || e is BadRow),
{
    if let Err(e) = exec_batch(conn, schema_batch()) {
        return Err(StoreError::Sql(e));
    }
    let fts_tables = run_count(
        conn,
        &plain_query("SELECT COUNT(*) FROM sqlite_master WHERE type = 'table' AND name = 'notes_fts'"),
    )?;
    if let Some(stmt) = fts_statement(fts_tables) {
        if let Err(e) = exec_batch(conn, stmt) {
            return Err(StoreError::Sql(e));
        }
    }
    Ok(())
}

} // verus!
