//! Templates: named texts with `{name}` placeholders, and their rendering.
use vstd::prelude::*;
use crate::clock::{no_brace, now_stamps};
use crate::sql::{
    existed, plain_query, query1, query2, run_exec, run_query, text_at, text_of, SqlValue, StoreError,
};
use crate::text::{replace_text, replaced, same_text};

verus! {

/// A named template.
#[derive(Debug)]
pub struct Template {
    pub name: String,
    pub content: String,
}

/// Stores a template under its name, replacing one of the same name.
pub fn create(conn: &rusqlite::Connection, name: &str, content: &str) -> (r: Result<(), StoreError>)
    ensures
        r matches Err(e) ==> e is Sql,
{
    let q = query2(
        "INSERT OR REPLACE INTO templates (name, content) VALUES (?, ?)",
        SqlValue::Text(name.to_string()),
        SqlValue::Text(content.to_string()),
    );
    run_exec(conn, &q)?;
    Ok(())
}

/// A row holds a name and a content.
pub open spec fn template_row_ok(row: Seq<SqlValue>) -> bool {
    row.len() >= 2 && text_of(row[0]) is Some && text_of(row[1]) is Some
}

/// The template a well-formed row holds.
pub open spec fn template_of_row(row: Seq<SqlValue>) -> Template {
    Template { name: text_of(row[0]).unwrap(), content: text_of(row[1]).unwrap() }
}

/// Every row holds a template.
pub open spec fn template_rows_ok(rows: Seq<Vec<SqlValue>>) -> bool {
    forall|i: int| 0 <= i < rows.len() ==> template_row_ok(#[trigger] rows[i]@)
}

/// The template a row holds; `None` where it holds something else.
pub fn decode_template(row: &Vec<SqlValue>) -> (r: Option<Template>)
    ensures
        template_row_ok(row@) ==> r == Some(template_of_row(row@)),
        !template_row_ok(row@) ==> r is None,
{
    match (text_at(row, 0), text_at(row, 1)) {
        (Some(name), Some(content)) => Some(Template { name, content }),
        _ => None,
    }
}

/// The template that the rows read for `name` hold: `None` where there is no
/// row; an error where the first row is not a template of that name.
pub fn template_of_rows(rows: &Vec<Vec<SqlValue>>, name: &str) -> (r: Result<
    Option<Template>,
    StoreError,
>)
    ensures
        rows@.len() == 0 ==> r matches Ok(None),
        rows@.len() > 0 && template_row_ok(rows@[0]@) && template_of_row(rows@[0]@).name@ == name@
            ==> r == Ok::<Option<Template>, StoreError>(Some(template_of_row(rows@[0]@))),
        rows@.len() > 0 && !(template_row_ok(rows@[0]@) && template_of_row(rows@[0]@).name@
            == name@) ==> (r matches Err(e) && e is BadRow),
{
    if rows.len() == 0 {
        return Ok(None);
    }
    match decode_template(&rows[0]) {
        Some(t) => {
            if same_text(t.name.as_str(), name) {
                Ok(Some(t))
            } else {
                Err(StoreError::BadRow)
            }
        },
        None => Err(StoreError::BadRow),
    }
}

/// The template of the given name, or `None` where there is none.
pub fn get(conn: &rusqlite::Connection, name: &str) -> (r: Result<Option<Template>, StoreError>)
    ensures
        r matches Ok(Some(t)) ==> t.name@ == name@,
        r matches Err(e) ==> (e is Sql || e is BadRow),
{
    let q = query1("SELECT name, content FROM templates WHERE name = ?", SqlValue::Text(name.to_string()));
    let rows = run_query(conn, &q)?;
    template_of_rows(&rows, name)
}

/// The templates the rows hold, in row order; an error where a row holds
/// something else.
pub fn templates_of_rows(rows: &Vec<Vec<SqlValue>>) -> (r: Result<Vec<Template>, StoreError>)
    ensures
        template_rows_ok(rows@) ==> (r matches Ok(v) && v@.len() == rows@.len() && forall|i: int|
            0 <= i < rows@.len() ==> #[trigger] v@[i] == template_of_row(rows@[i]@)),
        !template_rows_ok(rows@) ==> (r matches Err(e) && e is BadRow),
{
    let mut out: Vec<Template> = Vec::new();
    let mut i: usize = 0;
    while i < rows.len()
        invariant
            i <= rows@.len(),
            out@.len() == i,
            forall|k: int| 0 <= k < i ==> template_row_ok(#[trigger] rows@[k]@),
            forall|k: int| 0 <= k < i ==> #[trigger] out@[k] == template_of_row(rows@[k]@),
        decreases rows@.len() - i,
    {
        match decode_template(&rows[i]) {
            Some(t) => out.push(t),
            None => {
                return Err(StoreError::BadRow);
            },
        }
        i = i + 1;
    }
    Ok(out)
}

/// Every template, by name.
pub fn list_all(conn: &rusqlite::Connection) -> (r: Result<Vec<Template>, StoreError>)
    ensures
        r matches Err(e) ==> (e is Sql || e is BadRow),
{
    let rows = run_query(conn, &plain_query("SELECT name, content FROM templates ORDER BY name"))?;
    templates_of_rows(&rows)
}

/// Removes a template; returns whether it existed.
pub fn delete(conn: &rusqlite::Connection, name: &str) -> (r: Result<bool, StoreError>)
    ensures
        r matches Err(e) ==> e is Sql,
{
    let q = query1("DELETE FROM templates WHERE name = ?", SqlValue::Text(name.to_string()));
    let affected = run_exec(conn, &q)?;
    Ok(existed(affected))
}

/// The placeholder of a variable: its name in braces.
pub open spec fn placeholder(key: Seq<char>) -> Seq<char> {
    "{"@ + key + "}"@
}

/// The variables as pairs of texts.
pub open spec fn var_views(vars: Seq<(&str, &str)>) -> Seq<(Seq<char>, Seq<char>)> {
    vars.map_values(|p: (&str, &str)| (p.0@, p.1@))
}

/// `s` with each variable's placeholder replaced by its value, the variables
/// taken in order.
pub open spec fn apply_vars(s: Seq<char>, vars: Seq<(Seq<char>, Seq<char>)>) -> Seq<char>
    decreases vars.len(),
{
    if vars.len() == 0 {
        s
    } else {
        replaced(apply_vars(s, vars.drop_last()), placeholder(vars.last().0), vars.last().1)
    }
}

/// A template rendered with the given date and time texts: `{date}`, then
/// `{time}`, then `{datetime}` replaced, then each variable's placeholder in
/// order. Placeholders without a value stay as written.
pub open spec fn rendered(
    content: Seq<char>,
    date: Seq<char>,
    time: Seq<char>,
    datetime: Seq<char>,
    vars: Seq<(Seq<char>, Seq<char>)>,
) -> Seq<char> {
    apply_vars(
        replaced(
            replaced(replaced(content, "{date}"@, date), "{time}"@, time),
            "{datetime}"@,
            datetime,
        ),
        vars,
    )
}

fn placeholder_of(key: &str) -> (r: String)
    ensures
        r@ == placeholder(key@),
{
    let mut p = "{".to_string();
    p.append(key);
    p.append("}");
    p
}

/// Renders a template with the given texts for the date, the time and the two
/// together, then with the caller's variables.
pub fn render_with(
    template_content: &str,
    date: &str,
    time: &str,
    datetime: &str,
    vars: &[(&str, &str)],
) -> (r: String)
    ensures
        r@ == rendered(template_content@, date@, time@, datetime@, var_views(vars@)),
{
    proof {
        reveal_strlit("{date}");
        reveal_strlit("{time}");
        reveal_strlit("{datetime}");
    }
    let s1 = replace_text(template_content, "{date}", date);
    let s2 = replace_text(s1.as_str(), "{time}", time);
    let mut acc = replace_text(s2.as_str(), "{datetime}", datetime);
    let ghost base = acc@;
    let mut i: usize = 0;
    while i < vars.len()
        invariant
            i <= vars@.len(),
            acc@ == apply_vars(base, var_views(vars@).subrange(0, i as int)),
        decreases vars@.len() - i,
    {
        let (key, value) = vars[i];
        let ph = placeholder_of(key);
        proof {
            reveal_strlit("{");
            reveal_strlit("}");
        }
        let next = replace_text(acc.as_str(), ph.as_str(), value);
        proof {
            let sub = var_views(vars@).subrange(0, i + 1);
            assert(sub.drop_last() =~= var_views(vars@).subrange(0, i as int));
            assert(sub.last() == (key@, value@));
        }
        acc = next;
        i = i + 1;
    }
    assert(var_views(vars@).subrange(0, vars@.len() as int) =~= var_views(vars@));
    acc
}

/// Renders a template with the local date (`YYYY-MM-DD`), time (`HH:MM`) and
/// both together of this moment, then with the caller's variables.
pub fn render(template_content: &str, vars: &[(&str, &str)]) -> (r: String)
    ensures
        exists|d: Seq<char>, t: Seq<char>, dt: Seq<char>|
            no_brace(d) && no_brace(t) && no_brace(dt) && r@ == #[trigger] rendered(
                template_content@,
                d,
                t,
                dt,
                var_views(vars@),
            ),
{
    let (date, time, datetime) = now_stamps();
    render_with(template_content, date.as_str(), time.as_str(), datetime.as_str(), vars)
}

} // verus!
