//! Notes: their rows, their tags and their search-index entries.
use vstd::prelude::*;
use crate::clock::{end_of_day, now_timestamp, start_of_day, today, CivilDate};
use crate::sql::{
    arg_of, args_of, begin, bool_at, bool_of, existed, finish, int_at, int_of, last_rowid, opt_text_at,
    opt_text_of, plain_query, query1, query2, query3, run_count, run_exec, run_query, text_at, text_of, SqlArg,
    SqlQuery, SqlValue, StoreError,
};
use crate::text::{join_texts, joined, same_text, trim_text, trimmed, views};

verus! {

/// A stored note. Times are Unix timestamps in seconds; `tags` are the tag
/// rows that reference the note.
#[derive(Debug)]
pub struct Note {
    pub id: i64,
    pub content: String,
    pub created_at: i64,
    pub updated_at: i64,
    pub category: Option<String>,
    pub is_daily: bool,
    pub tags: Vec<String>,
}

/// The optional text of an argument, as a character sequence.
pub open spec fn opt_view(t: Option<&str>) -> Option<Seq<char>> {
    match t {
        Some(s) => Some(s@),
        None => None,
    }
}

/// The optional text of a stored value, as a character sequence.
pub open spec fn opt_view_string(t: Option<String>) -> Option<Seq<char>> {
    match t {
        Some(s) => Some(s@),
        None => None,
    }
}

/// `t` is one of `tags`.
pub open spec fn has_tag(tags: Seq<String>, t: Seq<char>) -> bool {
    exists|i: int| 0 <= i < tags.len() && tags[i]@ == t
}

/// A note meets the optional filters of a listing: created at or after
/// `since` and at or before `until`, in `category`, and carrying `tag`.
pub open spec fn note_matches(
    n: Note,
    tag: Option<Seq<char>>,
    category: Option<Seq<char>>,
    since: Option<i64>,
    until: Option<i64>,
) -> bool {
    &&& (since matches Some(s) ==> n.created_at >= s)
    &&& (until matches Some(u) ==> n.created_at <= u)
    &&& (category matches Some(c) ==> (n.category matches Some(x) && x@ == c))
    &&& (tag matches Some(t) ==> has_tag(n.tags@, t))
}

/// The test of a note against the optional filters.
pub open spec fn note_filter(
    tag: Option<Seq<char>>,
    category: Option<Seq<char>>,
    since: Option<i64>,
    until: Option<i64>,
) -> spec_fn(Note) -> bool {
    |n: Note| note_matches(n, tag, category, since, until)
}

/// Every note of `notes` meets the filters.
pub open spec fn all_notes_match(
    notes: Seq<Note>,
    tag: Option<Seq<char>>,
    category: Option<Seq<char>>,
    since: Option<i64>,
    until: Option<i64>,
) -> bool {
    forall|i: int|
        0 <= i < notes.len() ==> note_matches(#[trigger] notes[i], tag, category, since, until)
}

/// The first `limit` elements of `s`, or all of them where there are fewer.
pub open spec fn cap(s: Seq<Note>, limit: usize) -> Seq<Note> {
    if s.len() <= limit {
        s
    } else {
        s.subrange(0, limit as int)
    }
}

/// The notes of `notes` that meet the filters, in order, at most `limit`.
pub open spec fn selected(
    notes: Seq<Note>,
    limit: usize,
    tag: Option<Seq<char>>,
    category: Option<Seq<char>>,
    since: Option<i64>,
    until: Option<i64>,
) -> Seq<Note> {
    cap(notes.filter(note_filter(tag, category, since, until)), limit)
}

/// `notes` are the rows, one note per row in row order, each with its row's
/// fields (and the tags it was read with).
pub open spec fn rows_decode_to(rows: Seq<Vec<SqlValue>>, notes: Seq<Note>) -> bool {
    &&& notes.len() == rows.len()
    &&& forall|i: int|
        0 <= i < rows.len() ==> note_row_ok(rows[i]@) && #[trigger] notes[i] == note_of_row(
            rows[i]@,
            notes[i].tags,
        )
}

pub open spec fn since_cond() -> Seq<char> {
    "n.created_at >= ?"@
}

pub open spec fn category_cond() -> Seq<char> {
    "n.category = ?"@
}

pub open spec fn tag_cond() -> Seq<char> {
    "n.id IN (SELECT note_id FROM tags WHERE tag = ?)"@
}

/// The conditions of a listing, one for each filter that is present, in the
/// order time, category, tag.
pub open spec fn list_conds(has_tag: bool, has_category: bool, has_since: bool) -> Seq<Seq<char>> {
    (if has_since { seq![since_cond()] } else { Seq::empty() }) + (if has_category {
        seq![category_cond()]
    } else {
        Seq::empty()
    }) + (if has_tag { seq![tag_cond()] } else { Seq::empty() })
}

/// The parameters of a listing, matching its conditions, then the row limit.
pub open spec fn list_args(
    limit: i64,
    tag: Option<Seq<char>>,
    category: Option<Seq<char>>,
    since: Option<i64>,
) -> Seq<SqlArg> {
    (if let Some(s) = since { seq![SqlArg::Integer(s)] } else { Seq::empty() }) + (if let Some(
        c,
    ) = category {
        seq![SqlArg::Text(c)]
    } else {
        Seq::empty()
    }) + (if let Some(t) = tag { seq![SqlArg::Text(t)] } else { Seq::empty() }) + seq![
        SqlArg::Integer(limit),
    ]
}

/// A `WHERE` clause joining the conditions with `AND`, or nothing.
pub open spec fn where_text(conds: Seq<Seq<char>>) -> Seq<char> {
    if conds.len() == 0 {
        Seq::empty()
    } else {
        "WHERE "@ + joined(conds, " AND "@)
    }
}

pub open spec fn list_sql(conds: Seq<Seq<char>>) -> Seq<char> {
    "SELECT n.id, n.content, n.created_at, n.updated_at, n.category, n.is_daily FROM notes n "@
        + where_text(conds) + " ORDER BY n.created_at DESC LIMIT ?"@
}

/// A row limit as the engine's integer, saturated at its largest value.
pub open spec fn limit_arg(limit: usize) -> i64 {
    if limit > i64::MAX {
        i64::MAX
    } else {
        limit as i64
    }
}

pub fn where_clause(conds: &Vec<String>) -> (r: String)
    ensures
        r@ == where_text(views(conds@)),
{
    if conds.len() == 0 {
        String::new()
    } else {
        let mut w = "WHERE ".to_string();
        let j = join_texts(conds, " AND ");
        w.append(j.as_str());
        w
    }
}

/// The query of a listing: the notes that meet every filter that is present,
/// newest first, at most `limit` of them.
pub fn list_query(limit: usize, tag: Option<&str>, category: Option<&str>, since: Option<i64>) -> (q:
    SqlQuery)
    ensures
        q.sql@ == list_sql(list_conds(tag is Some, category is Some, since is Some)),
        args_of(q.params@) == list_args(
            limit_arg(limit),
            opt_view(tag),
            opt_view(category),
            since,
        ),
{
    let mut conds: Vec<String> = Vec::new();
    let mut params: Vec<SqlValue> = Vec::new();
    if let Some(s) = since {
        conds.push("n.created_at >= ?".to_string());
        params.push(SqlValue::Integer(s));
    }
    let ghost c1 = conds@;
    let ghost p1 = params@;
    if let Some(c) = category {
        conds.push("n.category = ?".to_string());
        params.push(SqlValue::Text(c.to_string()));
    }
    let ghost c2 = conds@;
    let ghost p2 = params@;
    if let Some(t) = tag {
        conds.push("n.id IN (SELECT note_id FROM tags WHERE tag = ?)".to_string());
        params.push(SqlValue::Text(t.to_string()));
    }
    let lim: i64 = if limit as u64 > i64::MAX as u64 {
        i64::MAX
    } else {
        limit as i64
    };
    assert(lim == limit_arg(limit));
    let ghost p3 = params@;
    params.push(SqlValue::Integer(lim));
    proof {
        let want = list_conds(tag is Some, category is Some, since is Some);
        assert(views(c1) =~= (if since is Some { seq![since_cond()] } else { Seq::empty() }));
        assert(views(c2) =~= views(c1) + (if category is Some {
            seq![category_cond()]
        } else {
            Seq::empty()
        }));
        assert(views(conds@) =~= views(c2) + (if tag is Some {
            seq![tag_cond()]
        } else {
            Seq::empty()
        }));
        assert(views(conds@) =~= want);
        assert(args_of(p1) =~= (if let Some(s) = since {
            seq![SqlArg::Integer(s)]
        } else {
            Seq::empty()
        }));
        assert(args_of(p2) =~= args_of(p1) + (if let Some(c) = opt_view(category) {
            seq![SqlArg::Text(c)]
        } else {
            Seq::empty()
        }));
        assert(args_of(p3) =~= args_of(p2) + (if let Some(t) = opt_view(tag) {
            seq![SqlArg::Text(t)]
        } else {
            Seq::empty()
        }));
        assert(args_of(params@) =~= args_of(p3) + seq![SqlArg::Integer(limit_arg(limit))]);
    }
    let w = where_clause(&conds);
    let mut sql =
        "SELECT n.id, n.content, n.created_at, n.updated_at, n.category, n.is_daily FROM notes n ".to_string();
    sql.append(w.as_str());
    sql.append(" ORDER BY n.created_at DESC LIMIT ?");
    SqlQuery { sql, params }
}

/// A row holds, in its first six columns, the id, content, two times,
/// optional category and daily flag of a note.
pub open spec fn note_row_ok(row: Seq<SqlValue>) -> bool {
    &&& row.len() >= 6
    &&& int_of(row[0]) is Some
    &&& text_of(row[1]) is Some
    &&& int_of(row[2]) is Some
    &&& int_of(row[3]) is Some
    &&& opt_text_of(row[4]) is Some
    &&& bool_of(row[5]) is Some
}

/// The note a well-formed row describes, with the given tags.
pub open spec fn note_of_row(row: Seq<SqlValue>, tags: Vec<String>) -> Note {
    Note {
        id: int_of(row[0]).unwrap(),
        content: text_of(row[1]).unwrap(),
        created_at: int_of(row[2]).unwrap(),
        updated_at: int_of(row[3]).unwrap(),
        category: opt_text_of(row[4]).unwrap(),
        is_daily: bool_of(row[5]).unwrap(),
        tags,
    }
}

/// The note a row describes, with the given tags; `None` where the row does
/// not have the shape of a note.
pub fn decode_note(row: &Vec<SqlValue>, tags: Vec<String>) -> (r: Option<Note>)
    ensures
        note_row_ok(row@) ==> r == Some(note_of_row(row@, tags)),
        !note_row_ok(row@) ==> r is None,
{
    let id = int_at(row, 0)?;
    let content = text_at(row, 1)?;
    let created_at = int_at(row, 2)?;
    let updated_at = int_at(row, 3)?;
    let category = opt_text_at(row, 4)?;
    let is_daily = bool_at(row, 5)?;
    Some(Note { id, content, created_at, updated_at, category, is_daily, tags })
}

/// Whether `t` is one of `tags`.
pub fn tags_contain(tags: &Vec<String>, t: &str) -> (r: bool)
    ensures
        r == has_tag(tags@, t@),
{
    let mut i: usize = 0;
    while i < tags.len()
        invariant
            i <= tags@.len(),
            forall|k: int| 0 <= k < i ==> tags@[k]@ != t@,
        decreases tags@.len() - i,
    {
        if same_text(tags[i].as_str(), t) {
            return true;
        }
        i = i + 1;
    }
    false
}

/// Whether a note meets the optional filters of a listing.
pub fn matches_filters(
    n: &Note,
    tag: Option<&str>,
    category: Option<&str>,
    since: Option<i64>,
    until: Option<i64>,
) -> (r: bool)
    ensures
        r == note_matches(*n, opt_view(tag), opt_view(category), since, until),
{
    if let Some(s) = since {
        if n.created_at < s {
            return false;
        }
    }
    if let Some(u) = until {
        if n.created_at > u {
            return false;
        }
    }
    if let Some(c) = category {
        match &n.category {
            Some(x) => {
                if !same_text(x.as_str(), c) {
                    return false;
                }
            },
            None => {
                return false;
            },
        }
    }
    if let Some(t) = tag {
        if !tags_contain(&n.tags, t) {
            return false;
        }
    }
    true
}

/// Keeps, in order, the notes that meet the filters, and at most `limit` of
/// them.
pub fn select_notes(
    notes: Vec<Note>,
    limit: usize,
    tag: Option<&str>,
    category: Option<&str>,
    since: Option<i64>,
    until: Option<i64>,
) -> (r: Vec<Note>)
    ensures
        r@ == selected(notes@, limit, opt_view(tag), opt_view(category), since, until),
{
    let ghost orig = notes@;
    let ghost p = note_filter(opt_view(tag), opt_view(category), since, until);
    let mut rest = notes;
    let mut out: Vec<Note> = Vec::new();
    let ghost k: int = 0;
    while rest.len() > 0 && out.len() < limit
        invariant
            0 <= k <= orig.len(),
            rest@ == orig.subrange(k, orig.len() as int),
            out@ == orig.subrange(0, k).filter(note_filter(opt_view(tag), opt_view(category), since, until)),
            out@.len() <= limit,
        decreases rest@.len(),
    {
        let n = rest.remove(0);
        proof {
            let sub = orig.subrange(0, k + 1);
            assert(sub.drop_last() =~= orig.subrange(0, k));
            assert(sub.last() == orig[k]);
            reveal(Seq::filter);
        }
        let keep = matches_filters(&n, tag, category, since, until);
        assert(keep == note_filter(opt_view(tag), opt_view(category), since, until)(orig[k]));
        if keep {
            out.push(n);
        }
        proof {
            k = k + 1;
            assert(rest@ =~= orig.subrange(k, orig.len() as int));
        }
    }
    proof {
        let f = note_filter(opt_view(tag), opt_view(category), since, until);
        assert(orig =~= orig.subrange(0, k) + orig.subrange(k, orig.len() as int));
        Seq::filter_distributes_over_add(
            orig.subrange(0, k),
            orig.subrange(k, orig.len() as int),
            f,
        );
        if k == orig.len() {
            assert(orig.subrange(k, orig.len() as int).filter(f).len() == 0) by {
                reveal(Seq::filter);
            }
            assert(orig.filter(f) =~= out@);
        } else {
            assert(out@.len() == limit);
            assert(orig.filter(f).subrange(0, limit as int) =~= out@);
        }
    }
    out
}

/// The tags of every row of a one-column text result.
pub fn decode_texts(rows: &Vec<Vec<SqlValue>>) -> (r: Option<Vec<String>>)
    ensures
        r matches Some(v) ==> (v@.len() == rows@.len() && forall|i: int|
            0 <= i < rows@.len() ==> rows@[i]@.len() >= 1 && text_of(rows@[i]@[0]) == Some(
                v@[i],
            )),
        r is None ==> exists|i: int|
            0 <= i < rows@.len() && (rows@[i]@.len() == 0 || text_of(rows@[i]@[0]) is None),
{
    let mut out: Vec<String> = Vec::new();
    let mut i: usize = 0;
    while i < rows.len()
        invariant
            i <= rows@.len(),
            out@.len() == i,
            forall|k: int| 0 <= k < i ==> rows@[k]@.len() >= 1,
            forall|k: int| 0 <= k < i ==> text_of(#[trigger] rows@[k]@[0]) == Some(out@[k]),
        decreases rows@.len() - i,
    {
        let row = &rows[i];
        match text_at(row, 0) {
            Some(t) => {
                assert(text_of(rows@[i as int]@[0]) == Some(t));
                out.push(t);
            },
            None => {
                return None;
            },
        }
        assert(rows@[i as int]@.len() >= 1);
        assert(text_of(rows@[i as int]@[0]) == Some(out@[i as int]));
        i = i + 1;
    }
    Some(out)
}

/// The tags stored for a note, in the order the engine returns them.
pub fn get_tags_for_note(conn: &rusqlite::Connection, note_id: i64) -> (r: Result<
    Vec<String>,
    StoreError,
>)
    ensures
        r matches Err(e) ==> (e is Sql || e is BadRow),
{
    let q = query1("SELECT tag FROM tags WHERE note_id = ?", SqlValue::Integer(note_id));
    let rows = run_query(conn, &q)?;
    match decode_texts(&rows) {
        Some(v) => Ok(v),
        None => Err(StoreError::BadRow),
    }
}

/// Decodes note rows in order, reading each note's tags from the store.
pub fn decode_notes(conn: &rusqlite::Connection, rows: &Vec<Vec<SqlValue>>) -> (r: Result<
    Vec<Note>,
    StoreError,
>)
    ensures
        r matches Ok(notes) ==> rows_decode_to(rows@, notes@),
        (exists|i: int| 0 <= i < rows@.len() && !note_row_ok(#[trigger] rows@[i]@)) ==> r is Err,
        r matches Err(e) ==> (e is Sql || e is BadRow),
{
    let mut notes: Vec<Note> = Vec::new();
    let mut i: usize = 0;
    while i < rows.len()
        invariant
            i <= rows@.len(),
            rows_decode_to(rows@.subrange(0, i as int), notes@),
        decreases rows@.len() - i,
    {
        let row = &rows[i];
        let id = match int_at(row, 0) {
            Some(id) => id,
            None => {
                return Err(StoreError::BadRow);
            },
        };
        let tags = get_tags_for_note(conn, id)?;
        match decode_note(row, tags) {
            Some(n) => {
                notes.push(n);
            },
            None => {
                return Err(StoreError::BadRow);
            },
        }
        proof {
            let pre = rows@.subrange(0, i as int);
            let post = rows@.subrange(0, i + 1);
            assert forall|k: int| 0 <= k < post.len() implies note_row_ok(post[k]@) && #[trigger] notes@[k]
                == note_of_row(post[k]@, notes@[k].tags) by {
                if k < i {
                    assert(post[k] == pre[k]);
                }
            }
        }
        i = i + 1;
    }
    assert(rows@.subrange(0, rows@.len() as int) =~= rows@);
    assert forall|k: int| 0 <= k < rows@.len() implies note_row_ok(#[trigger] rows@[k]@) by {
        assert(notes@[k] == note_of_row(rows@[k]@, notes@[k].tags));
    }
    Ok(notes)
}

/// Decodes note rows, reading each note's tags, and keeps in row order those
/// that meet the filters, at most `limit` of them.
pub(crate) fn collect_notes(
    conn: &rusqlite::Connection,
    rows: &Vec<Vec<SqlValue>>,
    limit: usize,
    tag: Option<&str>,
    category: Option<&str>,
    since: Option<i64>,
    until: Option<i64>,
) -> (r: Result<Vec<Note>, StoreError>)
    ensures
        r matches Ok(notes) ==> exists|d: Seq<Note>|
            #[trigger] rows_decode_to(rows@, d) && notes@ == selected(
                d,
                limit,
                opt_view(tag),
                opt_view(category),
                since,
                until,
            ),
        r matches Ok(notes) ==> notes@.len() <= limit && all_notes_match(
            notes@,
            opt_view(tag),
            opt_view(category),
            since,
            until,
        ),
        (exists|i: int| 0 <= i < rows@.len() && !note_row_ok(#[trigger] rows@[i]@)) ==> r is Err,
        r matches Err(e) ==> (e is Sql || e is BadRow),
{
    let decoded = decode_notes(conn, rows)?;
    let ghost d = decoded@;
    let out = select_notes(decoded, limit, tag, category, since, until);
    proof {
        let f = note_filter(opt_view(tag), opt_view(category), since, until);
        assert forall|i: int| 0 <= i < out@.len() implies note_matches(
            #[trigger] out@[i],
            opt_view(tag),
            opt_view(category),
            since,
            until,
        ) by {
            assert(f(d.filter(f)[i]));
        }
        assert(rows_decode_to(rows@, d));
    }
    Ok(out)
}

/// The newest notes that meet every filter that is present: created at or
/// after `since`, in `category`, carrying `tag`; at most `limit` of them.
pub fn list_since(
    conn: &rusqlite::Connection,
    limit: usize,
    tag: Option<&str>,
    category: Option<&str>,
    since: Option<i64>,
) -> (r: Result<Vec<Note>, StoreError>)
    ensures
        r matches Ok(notes) ==> notes@.len() <= limit && all_notes_match(
            notes@,
            opt_view(tag),
            opt_view(category),
            since,
            None,
        ),
        r matches Err(e) ==> (e is Sql || e is BadRow),
{
    let q = list_query(limit, tag, category, since);
    let rows = run_query(conn, &q)?;
    collect_notes(conn, &rows, limit, tag, category, since, None)
}

/// The newest notes that meet every filter that is present; with `today_only`,
/// only those created since the start of the local calendar day.
pub fn list(
    conn: &rusqlite::Connection,
    limit: usize,
    tag: Option<&str>,
    category: Option<&str>,
    today_only: bool,
) -> (r: Result<Vec<Note>, StoreError>)
    ensures
        r matches Ok(notes) ==> notes@.len() <= limit,
        r matches Ok(notes) ==> (!today_only ==> all_notes_match(
            notes@,
            opt_view(tag),
            opt_view(category),
            None,
            None,
        )),
        r matches Ok(notes) ==> (today_only ==> exists|s: i64|
            #[trigger] all_notes_match(notes@, opt_view(tag), opt_view(category), Some(s), None)),
        r matches Err(e) ==> (e is Sql || e is BadRow || e is NoLocalTime),
        r matches Err(e) && e is NoLocalTime ==> today_only,
{
    let since = if today_only {
        match start_of_day(today()) {
            Some(s) => Some(s),
            None => {
                return Err(StoreError::NoLocalTime);
            },
        }
    } else {
        None
    };
    let r = list_since(conn, limit, tag, category, since);
    proof {
        if today_only {
            if r is Ok {
                let notes = r->Ok_0;
                let s = since.unwrap();
                assert(all_notes_match(notes@, opt_view(tag), opt_view(category), Some(s), None));
            }
        }
    }
    r
}

/// The note that the rows read for `id` describe, with the given tags: `None`
/// where there is no row; an error where the first row is not a note of that
/// id.
pub fn note_of_rows(rows: &Vec<Vec<SqlValue>>, id: i64, tags: Vec<String>) -> (r: Result<
    Option<Note>,
    StoreError,
>)
    ensures
        rows@.len() == 0 ==> r matches Ok(None),
        rows@.len() > 0 && note_row_ok(rows@[0]@) && int_of(rows@[0]@[0]) == Some(id) ==> r
            == Ok::<Option<Note>, StoreError>(Some(note_of_row(rows@[0]@, tags))),
        rows@.len() > 0 && !(note_row_ok(rows@[0]@) && int_of(rows@[0]@[0]) == Some(id)) ==> (r matches Err(
            e,
        ) && e is BadRow),
{
    if rows.len() == 0 {
        return Ok(None);
    }
    match decode_note(&rows[0], tags) {
        Some(n) => {
            if n.id == id {
                Ok(Some(n))
            } else {
                Err(StoreError::BadRow)
            }
        },
        None => Err(StoreError::BadRow),
    }
}

/// The note with the given id, with its tags, or `None` where there is none.
pub fn get_by_id(conn: &rusqlite::Connection, id: i64) -> (r: Result<Option<Note>, StoreError>)
    ensures
        r matches Ok(Some(n)) ==> n.id == id,
        r matches Err(e) ==> (e is Sql || e is BadRow),
{
    let q = query1(
        "SELECT n.id, n.content, n.created_at, n.updated_at, n.category, n.is_daily FROM notes n WHERE n.id = ?",
        SqlValue::Integer(id),
    );
    let rows = run_query(conn, &q)?;
    if rows.len() == 0 {
        return note_of_rows(&rows, id, Vec::new());
    }
    let tags = get_tags_for_note(conn, id)?;
    note_of_rows(&rows, id, tags)
}

/// Whether a text is empty once white space is trimmed.
pub fn is_blank(s: &str) -> (r: bool)
    ensures
        r == (trimmed(s@).len() == 0),
{
    let t = trim_text(s);
    t.unicode_len() == 0
}

/// The statements that replace a note's search-index entry: the index cannot
/// edit an entry in place, so the old one is removed and the content inserted.
pub fn reindex_statements(id: i64, content: &str) -> (r: (SqlQuery, SqlQuery))
    ensures
        r.0.sql@ == "DELETE FROM notes_fts WHERE rowid = ?"@,
        args_of(r.0.params@) == seq![SqlArg::Integer(id)],
        r.1.sql@ == "INSERT INTO notes_fts (rowid, content) VALUES (?, ?)"@,
        args_of(r.1.params@) == seq![SqlArg::Integer(id), SqlArg::Text(content@)],
{
    let del = query1("DELETE FROM notes_fts WHERE rowid = ?", SqlValue::Integer(id));
    let ins = query2(
        "INSERT INTO notes_fts (rowid, content) VALUES (?, ?)",
        SqlValue::Integer(id),
        SqlValue::Text(content.to_string()),
    );
    assert(args_of(del.params@) =~= seq![SqlArg::Integer(id)]);
    assert(args_of(ins.params@) =~= seq![SqlArg::Integer(id), SqlArg::Text(content@)]);
    (del, ins)
}

/// Replaces the search-index entry of a note with `content`.
pub fn reindex(conn: &rusqlite::Connection, id: i64, content: &str) -> (r: Result<(), StoreError>)
    ensures
        r matches Err(e) ==> e is Sql,
{
    let (del, ins) = reindex_statements(id, content);
    run_exec(conn, &del)?;
    run_exec(conn, &ins)?;
    Ok(())
}

/// The values a new note is stored with: content, both times, category (NULL
/// where there is none) and daily flag as 1 or 0.
pub open spec fn note_insert_args(
    content: Seq<char>,
    now: i64,
    category: Option<Seq<char>>,
    is_daily: bool,
) -> Seq<SqlArg> {
    seq![
        SqlArg::Text(content),
        SqlArg::Integer(now),
        SqlArg::Integer(now),
        match category {
            Some(c) => SqlArg::Text(c),
            None => SqlArg::Null,
        },
        SqlArg::Integer(if is_daily { 1 } else { 0 }),
    ]
}

/// The statement that stores a new note, both times set to `now`.
pub fn insert_note_query(content: &str, now: i64, category: Option<&str>, is_daily: bool) -> (q:
    SqlQuery)
    ensures
        q.sql@
            == "INSERT INTO notes (content, created_at, updated_at, category, is_daily) VALUES (?, ?, ?, ?, ?)"@,
        args_of(q.params@) == note_insert_args(content@, now, opt_view(category), is_daily),
{
    let mut params: Vec<SqlValue> = Vec::new();
    params.push(SqlValue::Text(content.to_string()));
    params.push(SqlValue::Integer(now));
    params.push(SqlValue::Integer(now));
    match category {
        Some(c) => params.push(SqlValue::Text(c.to_string())),
        None => params.push(SqlValue::Null),
    }
    params.push(SqlValue::Integer(if is_daily { 1 } else { 0 }));
    assert(args_of(params@) =~= note_insert_args(content@, now, opt_view(category), is_daily));
    SqlQuery {
        sql: "INSERT INTO notes (content, created_at, updated_at, category, is_daily) VALUES (?, ?, ?, ?, ?)".to_string(),
        params,
    }
}

/// A note row that holds, after its id, the values a new note is stored with
/// decodes to a note with that content, category, daily flag and times, and
/// with the tags it is read with.
pub proof fn lemma_note_row_round_trip(
    row: Seq<SqlValue>,
    id: i64,
    tags: Vec<String>,
    content: Seq<char>,
    now: i64,
    category: Option<Seq<char>>,
    is_daily: bool,
)
    requires
        row.len() == 6,
        row[0] == SqlValue::Integer(id),
        args_of(row.subrange(1, 6)) == note_insert_args(content, now, category, is_daily),
    ensures
        note_row_ok(row),
        note_of_row(row, tags).id == id,
        note_of_row(row, tags).content@ == content,
        note_of_row(row, tags).created_at == now,
        note_of_row(row, tags).updated_at == now,
        opt_view_string(note_of_row(row, tags).category) == category,
        note_of_row(row, tags).is_daily == is_daily,
        note_of_row(row, tags).tags == tags,
{
    let a = args_of(row.subrange(1, 6));
    assert(a[0] == arg_of(row[1]));
    assert(a[1] == arg_of(row[2]));
    assert(a[2] == arg_of(row[3]));
    assert(a[3] == arg_of(row[4]));
    assert(a[4] == arg_of(row[5]));
}

/// The statement that attaches a tag to a note; the tag is stored trimmed.
pub fn insert_tag_query(note_id: i64, tag: &str) -> (q: SqlQuery)
    ensures
        q.sql@ == "INSERT INTO tags (note_id, tag) VALUES (?, ?)"@,
        args_of(q.params@) == seq![SqlArg::Integer(note_id), SqlArg::Text(trimmed(tag@))],
{
    let t = trim_text(tag);
    let q = query2("INSERT INTO tags (note_id, tag) VALUES (?, ?)", SqlValue::Integer(note_id), SqlValue::Text(t));
    assert(args_of(q.params@) =~= seq![SqlArg::Integer(note_id), SqlArg::Text(trimmed(tag@))]);
    q
}

fn add_rows(
    conn: &rusqlite::Connection,
    content: &str,
    tags: &[String],
    category: Option<&str>,
    is_daily: bool,
    now: i64,
) -> (r: Result<i64, StoreError>)
    ensures
        r matches Err(e) ==> e is Sql,
{
    let ins = insert_note_query(content, now, category, is_daily);
    run_exec(conn, &ins)?;
    let id = last_rowid(conn);
    reindex(conn, id, content)?;
    let mut i: usize = 0;
    while i < tags.len()
        invariant
            i <= tags@.len(),
        decreases tags@.len() - i,
    {
        let tq = insert_tag_query(id, tags[i].as_str());
        run_exec(conn, &tq)?;
        i = i + 1;
    }
    Ok(id)
}

/// Stores a new note with its search-index entry and its tags (each trimmed),
/// all in one transaction, and returns its id. Content that is empty once
/// trimmed is refused.
pub fn add(
    conn: &rusqlite::Connection,
    content: &str,
    tags: &[String],
    category: Option<&str>,
    is_daily: bool,
) -> (r: Result<i64, StoreError>)
    ensures
        trimmed(content@).len() == 0 <==> (r matches Err(e) && e is EmptyContent),
        r matches Err(e) ==> (e is EmptyContent || e is Sql),
{
    if is_blank(content) {
        return Err(StoreError::EmptyContent);
    }
    let now = now_timestamp();
    begin(conn)?;
    let work = add_rows(conn, content, tags, category, is_daily, now);
    finish(conn, work)
}

/// Stores new content for a note and, where the note existed, replaces its
/// search-index entry; returns whether it existed.
fn update_rows(conn: &rusqlite::Connection, id: i64, content: &str, now: i64) -> (r: Result<
    bool,
    StoreError,
>)
    ensures
        r matches Err(e) ==> e is Sql,
{
    let q = update_note_query(id, content, now);
    let affected = run_exec(conn, &q)?;
    let found = existed(affected);
    if found {
        reindex(conn, id, content)?;
    }
    Ok(found)
}

/// The statement that stores new content for a note and its update time.
pub fn update_note_query(id: i64, content: &str, now: i64) -> (q: SqlQuery)
    ensures
        q.sql@ == "UPDATE notes SET content = ?, updated_at = ? WHERE id = ?"@,
        args_of(q.params@) == seq![SqlArg::Text(content@), SqlArg::Integer(now), SqlArg::Integer(id)],
{
    let q = query3(
        "UPDATE notes SET content = ?, updated_at = ? WHERE id = ?",
        SqlValue::Text(content.to_string()),
        SqlValue::Integer(now),
        SqlValue::Integer(id),
    );
    assert(args_of(q.params@) =~= seq![
        SqlArg::Text(content@),
        SqlArg::Integer(now),
        SqlArg::Integer(id),
    ]);
    q
}

/// Replaces the content of a note and its search-index entry in one
/// transaction, refreshing its update time; returns whether the note existed.
/// Content that is empty once trimmed is refused.
pub fn update(conn: &rusqlite::Connection, id: i64, content: &str) -> (r: Result<bool, StoreError>)
    ensures
        trimmed(content@).len() == 0 <==> (r matches Err(e) && e is EmptyContent),
        r matches Err(e) ==> (e is EmptyContent || e is Sql),
{
    if is_blank(content) {
        return Err(StoreError::EmptyContent);
    }
    let now = now_timestamp();
    begin(conn)?;
    let work = update_rows(conn, id, content, now);
    finish(conn, work)
}

/// The statements that remove a note, in the order that never leaves an
/// index entry or a tag without its note: the index entry, the tags, the note.
pub fn delete_statements(id: i64) -> (r: (SqlQuery, SqlQuery, SqlQuery))
    ensures
        r.0.sql@ == "DELETE FROM notes_fts WHERE rowid = ?"@,
        r.1.sql@ == "DELETE FROM tags WHERE note_id = ?"@,
        r.2.sql@ == "DELETE FROM notes WHERE id = ?"@,
        args_of(r.0.params@) == seq![SqlArg::Integer(id)],
        args_of(r.1.params@) == seq![SqlArg::Integer(id)],
        args_of(r.2.params@) == seq![SqlArg::Integer(id)],
{
    let fts = query1("DELETE FROM notes_fts WHERE rowid = ?", SqlValue::Integer(id));
    let tags = query1("DELETE FROM tags WHERE note_id = ?", SqlValue::Integer(id));
    let note = query1("DELETE FROM notes WHERE id = ?", SqlValue::Integer(id));
    assert(args_of(fts.params@) =~= seq![SqlArg::Integer(id)]);
    assert(args_of(tags.params@) =~= seq![SqlArg::Integer(id)]);
    assert(args_of(note.params@) =~= seq![SqlArg::Integer(id)]);
    (fts, tags, note)
}

fn delete_rows(conn: &rusqlite::Connection, id: i64) -> (r: Result<bool, StoreError>)
    ensures
        r matches Err(e) ==> e is Sql,
{
    let (fts, tags, note) = delete_statements(id);
    run_exec(conn, &fts)?;
    run_exec(conn, &tags)?;
    let affected = run_exec(conn, &note)?;
    Ok(existed(affected))
}

/// Removes a note's search-index entry, its tags and the note itself, in that
/// order and in one transaction; returns whether the note existed.
pub fn delete(conn: &rusqlite::Connection, id: i64) -> (r: Result<bool, StoreError>)
    ensures
        r matches Err(e) ==> e is Sql,
{
    begin(conn)?;
    let work = delete_rows(conn, id);
    finish(conn, work)
}

/// The number of notes.
pub fn count_all(conn: &rusqlite::Connection) -> (r: Result<i64, StoreError>)
    ensures
        r matches Err(e) ==> (e is Sql || e is BadRow),
{
    let q = plain_query("SELECT COUNT(*) FROM notes");
    run_count(conn, &q)
}

/// The id and content that the rows of a daily-note lookup hold: `None`
/// where there is no row, an error where the first row holds no id and text.
pub fn daily_of_rows(rows: &Vec<Vec<SqlValue>>) -> (r: Result<Option<(i64, String)>, StoreError>)
    ensures
        rows@.len() == 0 ==> r matches Ok(None),
        rows@.len() > 0 ==> match (
            if rows@[0]@.len() > 0 { int_of(rows@[0]@[0]) } else { None },
            if rows@[0]@.len() > 1 { text_of(rows@[0]@[1]) } else { None },
        ) {
            (Some(id), Some(c)) => r == Ok::<Option<(i64, String)>, StoreError>(Some((id, c))),
            _ => r matches Err(e) && e is BadRow,
        },
{
    if rows.len() == 0 {
        return Ok(None);
    }
    match (int_at(&rows[0], 0), text_at(&rows[0], 1)) {
        (Some(id), Some(content)) => Ok(Some((id, content))),
        _ => Err(StoreError::BadRow),
    }
}

/// The statement that looks up a daily note created within `[start, end]`.
pub fn daily_query(start: i64, end: i64) -> (q: SqlQuery)
    ensures
        q.sql@
            == "SELECT id, content FROM notes WHERE is_daily = 1 AND created_at >= ? AND created_at <= ? LIMIT 1"@,
        args_of(q.params@) == seq![SqlArg::Integer(start), SqlArg::Integer(end)],
{
    let q = query2(
        "SELECT id, content FROM notes WHERE is_daily = 1 AND created_at >= ? AND created_at <= ? LIMIT 1",
        SqlValue::Integer(start),
        SqlValue::Integer(end),
    );
    assert(args_of(q.params@) =~= seq![SqlArg::Integer(start), SqlArg::Integer(end)]);
    q
}

/// The id and content of a daily note created within `[start, end]`, if any.
pub fn find_daily(conn: &rusqlite::Connection, start: i64, end: i64) -> (r: Result<
    Option<(i64, String)>,
    StoreError,
>)
    ensures
        r matches Err(e) ==> (e is Sql || e is BadRow),
{
    let q = daily_query(start, end);
    let rows = run_query(conn, &q)?;
    daily_of_rows(&rows)
}

/// The id and content of the daily note of a local calendar day, if any.
pub fn find_daily_on(conn: &rusqlite::Connection, d: CivilDate) -> (r: Result<
    Option<(i64, String)>,
    StoreError,
>)
    ensures
        r matches Err(e) ==> (e is Sql || e is BadRow || e is NoLocalTime),
{
    let start = match start_of_day(d) {
        Some(s) => s,
        None => {
            return Err(StoreError::NoLocalTime);
        },
    };
    let end = match end_of_day(d) {
        Some(e) => e,
        None => {
            return Err(StoreError::NoLocalTime);
        },
    };
    find_daily(conn, start, end)
}

/// What to do with the edited text of a day's note.
#[derive(Debug, Clone, Copy, PartialEq, Eq, Structural)]
pub enum DailyAction {
    /// The text is blank: store nothing.
    Refuse,
    /// Replace the content of the day's existing note.
    Update(i64),
    /// Store a new daily note.
    Create,
}

/// The action for the edited text of a day's note, given the id of the day's
/// note where one exists: blank text is refused, an existing note updated,
/// and otherwise a new one created.
pub fn daily_action(existing: Option<i64>, edited: &str) -> (r: DailyAction)
    ensures
        trimmed(edited@).len() == 0 ==> r == DailyAction::Refuse,
        trimmed(edited@).len() > 0 ==> r == match existing {
            Some(id) => DailyAction::Update(id),
            None => DailyAction::Create,
        },
{
    if is_blank(edited) {
        return DailyAction::Refuse;
    }
    match existing {
        Some(id) => DailyAction::Update(id),
        None => DailyAction::Create,
    }
}

} // verus!
