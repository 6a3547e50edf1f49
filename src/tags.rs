//! Tags: free-text labels attached to notes, many per note.
use vstd::prelude::*;
use crate::sql::{
    int_at, int_of, plain_query, query2, run_exec, run_query, text_at, text_of, SqlValue, StoreError,
};

verus! {

/// A tag and the number of tag rows that carry it.
#[derive(Debug)]
pub struct TagCount {
    pub tag: String,
    pub count: i64,
}

/// A row holds a tag and a count.
pub open spec fn tag_row_ok(row: Seq<SqlValue>) -> bool {
    row.len() >= 2 && text_of(row[0]) is Some && int_of(row[1]) is Some
}

/// The tag and count a well-formed row holds.
pub open spec fn tag_count_of_row(row: Seq<SqlValue>) -> TagCount {
    TagCount { tag: text_of(row[0]).unwrap(), count: int_of(row[1]).unwrap() }
}

/// Every row holds a tag and a count.
pub open spec fn tag_rows_ok(rows: Seq<Vec<SqlValue>>) -> bool {
    forall|i: int| 0 <= i < rows.len() ==> tag_row_ok(#[trigger] rows[i]@)
}

/// The tags and counts the rows hold, in row order; an error where a row
/// holds something else.
pub fn tag_counts_of_rows(rows: &Vec<Vec<SqlValue>>) -> (r: Result<Vec<TagCount>, StoreError>)
    ensures
        tag_rows_ok(rows@) ==> (r matches Ok(v) && v@.len() == rows@.len() && forall|i: int|
            0 <= i < rows@.len() ==> #[trigger] v@[i] == tag_count_of_row(rows@[i]@)),
        !tag_rows_ok(rows@) ==> (r matches Err(e) && e is BadRow),
{
    let mut out: Vec<TagCount> = Vec::new();
    let mut i: usize = 0;
    while i < rows.len()
        invariant
            i <= rows@.len(),
            out@.len() == i,
            forall|k: int| 0 <= k < i ==> tag_row_ok(#[trigger] rows@[k]@),
            forall|k: int| 0 <= k < i ==> #[trigger] out@[k] == tag_count_of_row(rows@[k]@),
        decreases rows@.len() - i,
    {
        match (text_at(&rows[i], 0), int_at(&rows[i], 1)) {
            (Some(tag), Some(count)) => out.push(TagCount { tag, count }),
            _ => {
                assert(!tag_row_ok(rows@[i as int]@));
                return Err(StoreError::BadRow);
            },
        }
        i = i + 1;
    }
    Ok(out)
}

/// Every distinct tag with the number of notes that carry it, most used
/// first.
pub fn list_all(conn: &rusqlite::Connection) -> (r: Result<Vec<TagCount>, StoreError>)
    ensures
        r matches Err(e) ==> (e is Sql || e is BadRow),
{
    let q = plain_query(
        "SELECT tag, COUNT(DISTINCT note_id) AS cnt FROM tags GROUP BY tag ORDER BY cnt DESC",
    );
    let rows = run_query(conn, &q)?;
    tag_counts_of_rows(&rows)
}

/// Replaces the tag `old_name` by `new_name` on every row that carries it and
/// returns how many rows changed. A note that carried both keeps two rows of
/// `new_name`: tags are not merged.
pub fn rename(conn: &rusqlite::Connection, old_name: &str, new_name: &str) -> (r: Result<
    usize,
    StoreError,
>)
    ensures
        r matches Err(e) ==> e is Sql,
{
    let q = query2(
        "UPDATE tags SET tag = ? WHERE tag = ?",
        SqlValue::Text(new_name.to_string()),
        SqlValue::Text(old_name.to_string()),
    );
    run_exec(conn, &q)
}

/// Attaches a tag to a note.
pub fn add_tag(conn: &rusqlite::Connection, note_id: i64, tag: &str) -> (r: Result<(), StoreError>)
    ensures
        r matches Err(e) ==> e is Sql,
{
    let q = query2(
        "INSERT INTO tags (note_id, tag) VALUES (?, ?)",
        SqlValue::Integer(note_id),
        SqlValue::Text(tag.to_string()),
    );
    run_exec(conn, &q)?;
    Ok(())
}

/// Detaches a tag from a note; returns how many rows were removed.
pub fn remove_tag(conn: &rusqlite::Connection, note_id: i64, tag: &str) -> (r: Result<
    usize,
    StoreError,
>)
    ensures
        r matches Err(e) ==> e is Sql,
{
    let q = query2(
        "DELETE FROM tags WHERE note_id = ? AND tag = ?",
        SqlValue::Integer(note_id),
        SqlValue::Text(tag.to_string()),
    );
    run_exec(conn, &q)
}

} // verus!
