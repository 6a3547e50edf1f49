//! Selecting the notes of an export: by tag and by a range of creation days.
use vstd::prelude::*;
use crate::clock::{end_of_day, parse_date, parsed_ymd, start_of_day};
use crate::note::{
    all_notes_match, collect_notes, opt_view, tag_cond, where_clause, where_text, Note,
};
use crate::sql::{args_of, run_query, SqlArg, SqlQuery, SqlValue, StoreError};
use crate::text::views;

verus! {

pub open spec fn from_cond() -> Seq<char> {
    "n.created_at >= ?"@
}

pub open spec fn to_cond() -> Seq<char> {
    "n.created_at <= ?"@
}

/// The conditions of an export, in the order tag, start, end.
pub open spec fn export_conds(has_tag: bool, has_from: bool, has_to: bool) -> Seq<Seq<char>> {
    (if has_tag { seq![tag_cond()] } else { Seq::empty() }) + (if has_from {
        seq![from_cond()]
    } else {
        Seq::empty()
    }) + (if has_to { seq![to_cond()] } else { Seq::empty() })
}

pub open spec fn export_args(tag: Option<Seq<char>>, from: Option<i64>, to: Option<i64>) -> Seq<
    SqlArg,
> {
    (if let Some(t) = tag { seq![SqlArg::Text(t)] } else { Seq::empty() }) + (if let Some(f) = from {
        seq![SqlArg::Integer(f)]
    } else {
        Seq::empty()
    }) + (if let Some(t) = to { seq![SqlArg::Integer(t)] } else { Seq::empty() })
}

pub open spec fn export_sql(conds: Seq<Seq<char>>) -> Seq<char> {
    "SELECT n.id, n.content, n.created_at, n.updated_at, n.category, n.is_daily FROM notes n "@
        + where_text(conds) + " ORDER BY n.created_at DESC"@
}

/// The query of an export: every note carrying `tag` and created within
/// `[from, to]`, each bound only where present, newest first.
pub fn export_query(tag: Option<&str>, from: Option<i64>, to: Option<i64>) -> (q: SqlQuery)
    ensures
        q.sql@ == export_sql(export_conds(tag is Some, from is Some, to is Some)),
        args_of(q.params@) == export_args(opt_view(tag), from, to),
{
    let mut conds: Vec<String> = Vec::new();
    let mut params: Vec<SqlValue> = Vec::new();
    if let Some(t) = tag {
        conds.push("n.id IN (SELECT note_id FROM tags WHERE tag = ?)".to_string());
        params.push(SqlValue::Text(t.to_string()));
    }
    let ghost c1 = conds@;
    let ghost p1 = params@;
    if let Some(f) = from {
        conds.push("n.created_at >= ?".to_string());
        params.push(SqlValue::Integer(f));
    }
    let ghost c2 = conds@;
    let ghost p2 = params@;
    if let Some(t) = to {
        conds.push("n.created_at <= ?".to_string());
        params.push(SqlValue::Integer(t));
    }
    proof {
        assert(views(c1) =~= (if tag is Some { seq![tag_cond()] } else { Seq::empty() }));
        assert(views(c2) =~= views(c1) + (if from is Some {
            seq![from_cond()]
        } else {
            Seq::empty()
        }));
        assert(views(conds@) =~= views(c2) + (if to is Some {
            seq![to_cond()]
        } else {
            Seq::empty()
        }));
        assert(views(conds@) =~= export_conds(tag is Some, from is Some, to is Some));
        assert(args_of(p1) =~= (if let Some(t) = opt_view(tag) {
            seq![SqlArg::Text(t)]
        } else {
            Seq::empty()
        }));
        assert(args_of(p2) =~= args_of(p1) + (if let Some(f) = from {
            seq![SqlArg::Integer(f)]
        } else {
            Seq::empty()
        }));
        assert(args_of(params@) =~= args_of(p2) + (if let Some(t) = to {
            seq![SqlArg::Integer(t)]
        } else {
            Seq::empty()
        }));
    }
    let w = where_clause(&conds);
    let mut sql =
        "SELECT n.id, n.content, n.created_at, n.updated_at, n.category, n.is_daily FROM notes n ".to_string();
    sql.append(w.as_str());
    sql.append(" ORDER BY n.created_at DESC");
    SqlQuery { sql, params }
}

/// The first second of the local day a `YYYY-MM-DD` text names; `None` where
/// the text names no date or the day has no single first second.
pub fn day_start_of(text: Option<&str>) -> (r: Option<i64>)
    ensures
        text is None ==> r is None,
        text matches Some(s) && parsed_ymd(s@) is None ==> r is None,
{
    match text {
        Some(s) => match parse_date(s) {
            Some(d) => start_of_day(d),
            None => None,
        },
        None => None,
    }
}

/// The last second of the local day a `YYYY-MM-DD` text names; `None` where
/// the text names no date or the day has no single last second.
pub fn day_end_of(text: Option<&str>) -> (r: Option<i64>)
    ensures
        text is None ==> r is None,
        text matches Some(s) && parsed_ymd(s@) is None ==> r is None,
{
    match text {
        Some(s) => match parse_date(s) {
            Some(d) => end_of_day(d),
            None => None,
        },
        None => None,
    }
}

/// The notes of an export, newest first: those carrying `tag`, created on or
/// after the first second of the day `from` names and on or before the last
/// second of the day `to` names. A bound that names no date is left out.
pub fn fetch_export_notes(
    conn: &rusqlite::Connection,
    tag: Option<&str>,
    from: Option<&str>,
    to: Option<&str>,
) -> (r: Result<Vec<Note>, StoreError>)
    ensures
        r matches Ok(notes) ==> exists|start: Option<i64>, end: Option<i64>|
            (from is None ==> start is None) && (to is None ==> end is None) && (from matches Some(
                f,
            ) && parsed_ymd(f@) is None ==> start is None) && (to matches Some(t) && parsed_ymd(t@)
                is None ==> end is None) && #[trigger] all_notes_match(
                notes@,
                opt_view(tag),
                None,
                start,
                end,
            ),
        r matches Err(e) ==> (e is Sql || e is BadRow),
{
    let start = day_start_of(from);
    let end = day_end_of(to);
    let q = export_query(tag, start, end);
    let rows = run_query(conn, &q)?;
    let notes = collect_notes(conn, &rows, rows.len(), tag, None, start, end)?;
    assert(all_notes_match(notes@, opt_view(tag), None, start, end));
    Ok(notes)
}

} // verus!
