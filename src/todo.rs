//! Todos: tasks with a priority, an optional due time and a done flag.
use vstd::prelude::*;
use crate::clock::{end_of_day, now_timestamp, parse_date, parsed_ymd, start_of_day, today};
use crate::sql::{
    args_of, bool_at, existed, int_at, last_rowid, opt_int_at, plain_query, query1, query2, run_count,
    run_exec, run_query, text_at, SqlArg, SqlQuery, SqlValue, StoreError,
};
use crate::text::{lowercase_text, lowercased, same_text};

verus! {

broadcast use vstd::seq_lib::group_to_multiset_ensures;

/// How urgent a todo is.
#[derive(Debug, Clone, Copy, PartialEq, Eq, Structural)]
pub enum Priority {
    High,
    Medium,
    Low,
}

/// The priority a lower-cased input names: `high` or `h`, `low` or `l`, and
/// anything else medium.
pub open spec fn priority_of_lowered(s: Seq<char>) -> Priority {
    if s == "high"@ || s == "h"@ {
        Priority::High
    } else if s == "low"@ || s == "l"@ {
        Priority::Low
    } else {
        Priority::Medium
    }
}

/// The text a priority is stored as.
pub open spec fn priority_text(p: Priority) -> Seq<char> {
    match p {
        Priority::High => "high"@,
        Priority::Medium => "medium"@,
        Priority::Low => "low"@,
    }
}

/// The rank a stored priority text sorts by: high 0, medium 1, low 2, and 3
/// for any other text.
pub open spec fn rank_of(s: Seq<char>) -> u8 {
    if s == "high"@ {
        0
    } else if s == "medium"@ {
        1
    } else if s == "low"@ {
        2
    } else {
        3
    }
}

impl Priority {
    /// The priority an input names, whatever its case.
    pub fn normalize(input: &str) -> (p: Priority)
        ensures
            p == priority_of_lowered(lowercased(input@)),
    {
        let lower = lowercase_text(input);
        let l = lower.as_str();
        if same_text(l, "high") || same_text(l, "h") {
            Priority::High
        } else if same_text(l, "low") || same_text(l, "l") {
            Priority::Low
        } else {
            Priority::Medium
        }
    }

    /// The text the priority is stored as.
    pub fn as_str(&self) -> (r: &'static str)
        ensures
            r@ == priority_text(*self),
    {
        match self {
            Priority::High => "high",
            Priority::Medium => "medium",
            Priority::Low => "low",
        }
    }
}

/// The sorting rank of a stored priority text.
pub fn priority_rank(s: &str) -> (r: u8)
    ensures
        r == rank_of(s@),
{
    if same_text(s, "high") {
        0
    } else if same_text(s, "medium") {
        1
    } else if same_text(s, "low") {
        2
    } else {
        3
    }
}

/// A stored todo. Times are Unix timestamps in seconds.
#[derive(Debug)]
pub struct Todo {
    pub id: i64,
    pub task: String,
    pub completed: bool,
    pub priority: String,
    pub due_date: Option<i64>,
    pub created_at: i64,
}

/// Due times in listing order: earlier first, and none after every time.
pub open spec fn due_le(a: Option<i64>, b: Option<i64>) -> bool {
    match (a, b) {
        (Some(x), Some(y)) => x <= y,
        (Some(_), None) => true,
        (None, None) => true,
        (None, Some(_)) => false,
    }
}

/// `a` may be listed before `b`: a better priority rank, or the same rank
/// and a due time that is not later.
pub open spec fn todo_le(a: Todo, b: Todo) -> bool {
    rank_of(a.priority@) < rank_of(b.priority@) || (rank_of(a.priority@) == rank_of(b.priority@)
        && due_le(a.due_date, b.due_date))
}

/// Every todo may be listed before every later one.
pub open spec fn todos_sorted(s: Seq<Todo>) -> bool {
    forall|i: int, j: int| 0 <= i < j < s.len() ==> todo_le(#[trigger] s[i], #[trigger] s[j])
}

/// Whether `a` may be listed before `b`.
pub fn todo_le_exec(a: &Todo, b: &Todo) -> (r: bool)
    ensures
        r == todo_le(*a, *b),
{
    let ra = priority_rank(a.priority.as_str());
    let rb = priority_rank(b.priority.as_str());
    if ra != rb {
        return ra < rb;
    }
    match (a.due_date, b.due_date) {
        (Some(x), Some(y)) => x <= y,
        (Some(_), None) => true,
        (None, None) => true,
        (None, Some(_)) => false,
    }
}

/// Puts todos in listing order: by priority rank, then by due time with
/// todos that have none last. Todos that tie keep their order.
pub fn sort_todos(todos: Vec<Todo>) -> (r: Vec<Todo>)
    ensures
        todos_sorted(r@),
        r@.to_multiset() == todos@.to_multiset(),
{
    let ghost orig = todos@;
    let mut rest = todos;
    let mut out: Vec<Todo> = Vec::new();
    let ghost k: int = 0;
    while rest.len() > 0
        invariant
            0 <= k <= orig.len(),
            rest@ == orig.subrange(k, orig.len() as int),
            todos_sorted(out@),
            out@.to_multiset() == orig.subrange(0, k).to_multiset(),
        decreases rest@.len(),
    {
        let x = rest.remove(0);
        assert(x == orig[k]);
        let mut pos: usize = 0;
        while pos < out.len() && todo_le_exec(&out[pos], &x)
            invariant
                pos <= out@.len(),
                forall|j: int| 0 <= j < pos ==> todo_le(#[trigger] out@[j], x),
            decreases out@.len() - pos,
        {
            pos = pos + 1;
        }
        let ghost before = out@;
        out.insert(pos, x);
        proof {
            assert(out@ == before.insert(pos as int, x));
            assert forall|i: int, j: int| 0 <= i < j < out@.len() implies todo_le(
                #[trigger] out@[i],
                #[trigger] out@[j],
            ) by {
                if j < pos {
                } else if j == pos {
                } else if i < pos {
                    assert(todo_le(before[i], x));
                } else if i == pos {
                    assert(!todo_le(before[pos as int], x));
                } else {
                }
            }
            assert(out@.remove(pos as int) =~= before);
            assert(out@.contains(x));
            assert(out@.to_multiset().remove(x) == before.to_multiset());
            assert(out@.to_multiset() =~= before.to_multiset().insert(x));
            assert(orig.subrange(0, k + 1) =~= orig.subrange(0, k).push(orig[k]));
            k = k + 1;
            assert(rest@ =~= orig.subrange(k, orig.len() as int));
        }
    }
    assert(orig.subrange(0, orig.len() as int) =~= orig);
    out
}


/// The end of the local calendar day a due-date text names; `None` where the
/// text is not a `YYYY-MM-DD` date, or where the local time zone has no
/// single instant for that day's last second.
pub fn due_timestamp(due: Option<&str>) -> (r: Option<i64>)
    ensures
        due is None ==> r is None,
        due matches Some(s) && parsed_ymd(s@) is None ==> r is None,
{
    match due {
        Some(s) => match parse_date(s) {
            Some(d) => end_of_day(d),
            None => None,
        },
        None => None,
    }
}

/// The statement that stores a new todo, not done.
pub fn insert_todo_query(task: &str, priority: Priority, due: Option<i64>, now: i64) -> (q: SqlQuery)
    ensures
        q.sql@ == "INSERT INTO todos (task, priority, due_date, created_at) VALUES (?, ?, ?, ?)"@,
        args_of(q.params@) == seq![
            SqlArg::Text(task@),
            SqlArg::Text(priority_text(priority)),
            match due {
                Some(d) => SqlArg::Integer(d),
                None => SqlArg::Null,
            },
            SqlArg::Integer(now),
        ],
{
    let mut params: Vec<SqlValue> = Vec::new();
    params.push(SqlValue::Text(task.to_string()));
    params.push(SqlValue::Text(priority.as_str().to_string()));
    match due {
        Some(d) => params.push(SqlValue::Integer(d)),
        None => params.push(SqlValue::Null),
    }
    params.push(SqlValue::Integer(now));
    assert(args_of(params@) =~= seq![
        SqlArg::Text(task@),
        SqlArg::Text(priority_text(priority)),
        match due {
            Some(d) => SqlArg::Integer(d),
            None => SqlArg::Null,
        },
        SqlArg::Integer(now),
    ]);
    SqlQuery {
        sql: "INSERT INTO todos (task, priority, due_date, created_at) VALUES (?, ?, ?, ?)".to_string(),
        params,
    }
}

/// Stores a new todo and returns its id. The priority is normalized to high,
/// medium or low; a due date that cannot be read leaves the todo without one.
pub fn add(conn: &rusqlite::Connection, task: &str, priority: &str, due_date: Option<&str>) -> (r:
    Result<i64, StoreError>)
    ensures
        r matches Err(e) ==> e is Sql,
{
    let p = Priority::normalize(priority);
    let due = due_timestamp(due_date);
    let now = now_timestamp();
    let q = insert_todo_query(task, p, due, now);
    run_exec(conn, &q)?;
    Ok(last_rowid(conn))
}

/// A row holds the id, task, done flag, priority, optional due time and
/// creation time of a todo.
pub open spec fn todo_row_ok(row: Seq<SqlValue>) -> bool {
    &&& row.len() >= 6
    &&& crate::sql::int_of(row[0]) is Some
    &&& crate::sql::text_of(row[1]) is Some
    &&& crate::sql::bool_of(row[2]) is Some
    &&& crate::sql::text_of(row[3]) is Some
    &&& crate::sql::opt_int_of(row[4]) is Some
    &&& crate::sql::int_of(row[5]) is Some
}

/// The todo a well-formed row describes.
pub open spec fn todo_of_row(row: Seq<SqlValue>) -> Todo {
    Todo {
        id: crate::sql::int_of(row[0]).unwrap(),
        task: crate::sql::text_of(row[1]).unwrap(),
        completed: crate::sql::bool_of(row[2]).unwrap(),
        priority: crate::sql::text_of(row[3]).unwrap(),
        due_date: crate::sql::opt_int_of(row[4]).unwrap(),
        created_at: crate::sql::int_of(row[5]).unwrap(),
    }
}

/// The todo a row describes; `None` where it does not have that shape.
pub fn decode_todo(row: &Vec<SqlValue>) -> (r: Option<Todo>)
    ensures
        todo_row_ok(row@) ==> r == Some(todo_of_row(row@)),
        !todo_row_ok(row@) ==> r is None,
{
    let id = int_at(row, 0)?;
    let task = text_at(row, 1)?;
    let completed = bool_at(row, 2)?;
    let priority = text_at(row, 3)?;
    let due_date = opt_int_at(row, 4)?;
    let created_at = int_at(row, 5)?;
    Some(Todo { id, task, completed, priority, due_date, created_at })
}

/// The test that keeps a todo in a listing: any todo, or with `pending_only`
/// one not done.
pub open spec fn todo_kept(pending_only: bool) -> spec_fn(Todo) -> bool {
    |t: Todo| !(pending_only && t.completed)
}

/// The todos the rows describe, in row order.
pub open spec fn todos_of(rows: Seq<Vec<SqlValue>>) -> Seq<Todo> {
    rows.map_values(|r: Vec<SqlValue>| todo_of_row(r@))
}

/// Every row has the shape of a todo.
pub open spec fn todo_rows_ok(rows: Seq<Vec<SqlValue>>) -> bool {
    forall|i: int| 0 <= i < rows.len() ==> todo_row_ok(#[trigger] rows[i]@)
}

/// The todos a listing's rows describe, in row order, without the done ones
/// where `pending_only` is set.
pub open spec fn listed_todos(rows: Seq<Vec<SqlValue>>, pending_only: bool) -> Seq<Todo> {
    todos_of(rows).filter(todo_kept(pending_only))
}

/// Decodes the rows of a listing in order, leaving out the done todos where
/// `pending_only` is set; an error where a row is not a todo.
pub fn todos_of_rows(rows: &Vec<Vec<SqlValue>>, pending_only: bool) -> (r: Result<
    Vec<Todo>,
    StoreError,
>)
    ensures
        todo_rows_ok(rows@) ==> (r matches Ok(v) && v@ == listed_todos(rows@, pending_only)),
        !todo_rows_ok(rows@) ==> (r matches Err(e) && e is BadRow),
{
    let mut out: Vec<Todo> = Vec::new();
    let mut i: usize = 0;
    while i < rows.len()
        invariant
            i <= rows@.len(),
            todo_rows_ok(rows@.subrange(0, i as int)),
            out@ == listed_todos(rows@.subrange(0, i as int), pending_only),
        decreases rows@.len() - i,
    {
        let ghost pre = rows@.subrange(0, i as int);
        let ghost post = rows@.subrange(0, i + 1);
        match decode_todo(&rows[i]) {
            Some(t) => {
                proof {
                    assert(todos_of(post) =~= todos_of(pre).push(todo_of_row(rows@[i as int]@)));
                    assert(todos_of(post).drop_last() =~= todos_of(pre));
                    reveal(Seq::filter);
                }
                if !(pending_only && t.completed) {
                    out.push(t);
                }
                proof {
                    assert forall|k: int| 0 <= k < post.len() implies todo_row_ok(
                        #[trigger] post[k]@,
                    ) by {
                        if k < i {
                            assert(post[k] == pre[k]);
                        }
                    }
                }
            },
            None => {
                assert(!todo_rows_ok(rows@)) by {
                    assert(!todo_row_ok(rows@[i as int]@));
                }
                return Err(StoreError::BadRow);
            },
        }
        i = i + 1;
    }
    assert(rows@.subrange(0, rows@.len() as int) =~= rows@);
    Ok(out)
}

/// The todos, in listing order: by priority rank (high, medium, low, then any
/// other text), then by due time with todos that have none last. With
/// `pending_only`, only those not done.
pub fn list_todos(conn: &rusqlite::Connection, pending_only: bool) -> (r: Result<
    Vec<Todo>,
    StoreError,
>)
    ensures
        r matches Ok(v) ==> todos_sorted(v@),
        r matches Ok(v) ==> exists|rows: Seq<Vec<SqlValue>>|
            v@.to_multiset() == #[trigger] listed_todos(rows, pending_only).to_multiset(),
        r matches Ok(v) ==> (pending_only ==> forall|i: int|
            0 <= i < v@.len() ==> !(#[trigger] v@[i]).completed),
        r matches Err(e) ==> (e is Sql || e is BadRow),
{
    let q = if pending_only {
        plain_query(
            "SELECT id, task, completed, priority, due_date, created_at FROM todos WHERE completed = 0",
        )
    } else {
        plain_query("SELECT id, task, completed, priority, due_date, created_at FROM todos")
    };
    let rows = run_query(conn, &q)?;
    let todos = todos_of_rows(&rows, pending_only)?;
    let ghost unsorted = todos@;
    let sorted = sort_todos(todos);
    proof {
        let f = todo_kept(pending_only);
        if pending_only {
            assert forall|i: int| 0 <= i < sorted@.len() implies !(#[trigger] sorted@[i]).completed by {
                assert(sorted@.contains(sorted@[i]));
                assert(sorted@.to_multiset().count(sorted@[i]) > 0);
                assert(unsorted.to_multiset().count(sorted@[i]) > 0);
                assert(unsorted.contains(sorted@[i]));
                let j = choose|j: int| 0 <= j < unsorted.len() && unsorted[j] == sorted@[i];
                assert(f(todos_of(rows@).filter(f)[j]));
            }
        }
        assert(sorted@.to_multiset() == listed_todos(rows@, pending_only).to_multiset());
    }
    Ok(sorted)
}

/// Marks a todo done; returns whether it existed.
pub fn mark_done(conn: &rusqlite::Connection, id: i64) -> (r: Result<bool, StoreError>)
    ensures
        r matches Err(e) ==> e is Sql,
{
    let q = query1("UPDATE todos SET completed = 1 WHERE id = ?", SqlValue::Integer(id));
    let affected = run_exec(conn, &q)?;
    Ok(existed(affected))
}

/// Removes a todo; returns whether it existed.
pub fn delete(conn: &rusqlite::Connection, id: i64) -> (r: Result<bool, StoreError>)
    ensures
        r matches Err(e) ==> e is Sql,
{
    let q = query1("DELETE FROM todos WHERE id = ?", SqlValue::Integer(id));
    let affected = run_exec(conn, &q)?;
    Ok(existed(affected))
}

/// The pending count from the total and the done count, where both are
/// counts (not negative) and the done count is not above the total.
pub fn pending_from(total: i64, completed: i64) -> (r: Option<i64>)
    ensures
        0 <= completed <= total ==> r == Some((total - completed) as i64),
        !(0 <= completed <= total) ==> r is None,
{
    if 0 <= completed && completed <= total {
        Some(total - completed)
    } else {
        None
    }
}

/// The number of todos, of those done, and of those pending.
pub fn count_stats(conn: &rusqlite::Connection) -> (r: Result<(i64, i64, i64), StoreError>)
    ensures
        r matches Ok((t, c, p)) ==> 0 <= c <= t && p == t - c,
        r matches Err(e) ==> (e is Sql || e is BadRow),
{
    let total = run_count(conn, &plain_query("SELECT COUNT(*) FROM todos"))?;
    let completed = run_count(conn, &plain_query("SELECT COUNT(*) FROM todos WHERE completed = 1"))?;
    match pending_from(total, completed) {
        Some(p) => Ok((total, completed, p)),
        None => Err(StoreError::BadRow),
    }
}

/// The statement that counts the todos not done that fell due before `now`.
pub fn overdue_query(now: i64) -> (q: SqlQuery)
    ensures
        q.sql@
            == "SELECT COUNT(*) FROM todos WHERE completed = 0 AND due_date IS NOT NULL AND due_date < ?"@,
        args_of(q.params@) == seq![SqlArg::Integer(now)],
{
    let q = query1(
        "SELECT COUNT(*) FROM todos WHERE completed = 0 AND due_date IS NOT NULL AND due_date < ?",
        SqlValue::Integer(now),
    );
    assert(args_of(q.params@) =~= seq![SqlArg::Integer(now)]);
    q
}

/// The number of todos not done whose due time is before `now`.
pub fn count_overdue_at(conn: &rusqlite::Connection, now: i64) -> (r: Result<i64, StoreError>)
    ensures
        r matches Err(e) ==> (e is Sql || e is BadRow),
{
    run_count(conn, &overdue_query(now))
}

/// The number of todos not done whose due time has passed.
pub fn count_overdue(conn: &rusqlite::Connection) -> (r: Result<i64, StoreError>)
    ensures
        r matches Err(e) ==> (e is Sql || e is BadRow),
{
    count_overdue_at(conn, now_timestamp())
}

/// The statement that counts the todos not done whose due time lies in
/// `[start, end]`, both ends included.
pub fn due_between_query(start: i64, end: i64) -> (q: SqlQuery)
    ensures
        q.sql@
            == "SELECT COUNT(*) FROM todos WHERE completed = 0 AND due_date >= ? AND due_date <= ?"@,
        args_of(q.params@) == seq![SqlArg::Integer(start), SqlArg::Integer(end)],
{
    let q = query2(
        "SELECT COUNT(*) FROM todos WHERE completed = 0 AND due_date >= ? AND due_date <= ?",
        SqlValue::Integer(start),
        SqlValue::Integer(end),
    );
    assert(args_of(q.params@) =~= seq![SqlArg::Integer(start), SqlArg::Integer(end)]);
    q
}

/// The number of todos not done whose due time lies in `[start, end]`.
pub fn count_due_between(conn: &rusqlite::Connection, start: i64, end: i64) -> (r: Result<
    i64,
    StoreError,
>)
    ensures
        r matches Err(e) ==> (e is Sql || e is BadRow),
{
    run_count(conn, &due_between_query(start, end))
}

/// The number of todos not done that fall due within the local calendar day,
/// from its first second to its last, both included.
pub fn count_due_today(conn: &rusqlite::Connection) -> (r: Result<i64, StoreError>)
    ensures
        r matches Err(e) ==> (e is Sql || e is BadRow || e is NoLocalTime),
{
    let d = today();
    let start = match start_of_day(d) {
        Some(s) => s,
        None => {
            return Err(StoreError::NoLocalTime);
        },
    };
    let end = match end_of_day(d) {
        Some(e) => e,
        None => {
            return Err(StoreError::NoLocalTime);
        },
    };
    count_due_between(conn, start, end)
}

} // verus!
