use notectl::db::{fts_statement, schema_batch};
use notectl::note::note_of_rows;
use notectl::note::select_notes;
use notectl::note::{daily_action, daily_of_rows, DailyAction};
use notectl::search::search_results;
use notectl::tags::tag_counts_of_rows;
use notectl::template::{template_of_rows, templates_of_rows};
use notectl::todo::todos_of_rows;
use notectl::db::{db_dir_in, db_path_in};
use notectl::note::{insert_tag_query, list_query, where_clause};
use notectl::search::{contains_all, filter_case_sensitive, fts_query, quote_term};
use notectl::sql::SqlValue;
use notectl::template::{render, render_with};
use notectl::text::{join_texts, replace_text, same_text, text_contains};
use notectl::todo::{due_timestamp, pending_from, priority_rank, sort_todos, Priority, Todo};
use notectl::note::Note;

fn s(v: &[&str]) -> Vec<String> {
    v.iter().map(|x| x.to_string()).collect()
}

fn note(id: i64, content: &str) -> Note {
    Note {
        id,
        content: content.to_string(),
        created_at: 0,
        updated_at: 0,
        category: None,
        is_daily: false,
        tags: Vec::new(),
    }
}

fn todo(id: i64, priority: &str, due: Option<i64>) -> Todo {
    Todo {
        id,
        task: format!("task {}", id),
        completed: false,
        priority: priority.to_string(),
        due_date: due,
        created_at: 0,
    }
}

#[test]
fn replace_every_occurrence() {
    assert_eq!(replace_text("a-b-c", "-", "+"), "a+b+c");
    assert_eq!(replace_text("aaa", "aa", "b"), "ba");
    assert_eq!(replace_text("none here", "{x}", "y"), "none here");
    assert_eq!(replace_text("", "{x}", "y"), "");
}

#[test]
fn substring_tests() {
    assert!(text_contains("hello world", "o w"));
    assert!(!text_contains("hello", "Hello"));
    assert!(text_contains("abc", ""));
    assert!(!text_contains("ab", "abc"));
    assert!(same_text("été", "été"));
    assert!(!same_text("a", "ab"));
}

#[test]
fn join_with_separator() {
    assert_eq!(join_texts(&s(&["a", "b", "c"]), ", "), "a, b, c");
    assert_eq!(join_texts(&s(&["only"]), ", "), "only");
    assert_eq!(join_texts(&Vec::new(), ", "), "");
}

#[test]
fn phrase_query_requires_every_term() {
    assert_eq!(fts_query(&s(&["alpha", "beta"])), "\"alpha\" AND \"beta\"");
    assert_eq!(fts_query(&s(&["one"])), "\"one\"");
}

#[test]
fn quotes_inside_a_term_are_doubled() {
    assert_eq!(quote_term("say \"hi\""), "\"say \"\"hi\"\"\"");
}

#[test]
fn case_sensitive_filter_keeps_only_full_matches() {
    let notes = vec![
        note(1, "alpha only"),
        note(2, "alpha and beta"),
        note(3, "Alpha and Beta"),
    ];
    let kept = filter_case_sensitive(notes, &s(&["alpha", "beta"]));
    let ids: Vec<i64> = kept.iter().map(|n| n.id).collect();
    assert_eq!(ids, vec![2]);
    assert!(contains_all("x alpha y beta", &s(&["beta", "alpha"])));
    assert!(!contains_all("x alpha y", &s(&["beta", "alpha"])));
}

#[test]
fn priority_normalization() {
    assert_eq!(Priority::normalize("HIGH"), Priority::High);
    assert_eq!(Priority::normalize("h"), Priority::High);
    assert_eq!(Priority::normalize("Low"), Priority::Low);
    assert_eq!(Priority::normalize("l"), Priority::Low);
    assert_eq!(Priority::normalize("urgent"), Priority::Medium);
    assert_eq!(Priority::normalize("medium"), Priority::Medium);
    assert_eq!(Priority::High.as_str(), "high");
    assert_eq!(Priority::Medium.as_str(), "medium");
    assert_eq!(Priority::Low.as_str(), "low");
}

#[test]
fn priority_ranks() {
    assert_eq!(priority_rank("high"), 0);
    assert_eq!(priority_rank("medium"), 1);
    assert_eq!(priority_rank("low"), 2);
    assert_eq!(priority_rank("other"), 3);
}

#[test]
fn todo_order_by_priority_then_due() {
    let today = 1_700_000_000;
    let yesterday = today - 86_400;
    let v = vec![
        todo(1, "low", Some(today)),
        todo(2, "high", None),
        todo(3, "medium", Some(yesterday)),
    ];
    let ids: Vec<i64> = sort_todos(v).iter().map(|t| t.id).collect();
    assert_eq!(ids, vec![2, 3, 1]);
}

#[test]
fn todo_order_within_priority() {
    let v = vec![
        todo(1, "high", None),
        todo(2, "high", Some(300)),
        todo(3, "high", Some(100)),
        todo(4, "weird", Some(1)),
        todo(5, "low", None),
    ];
    let ids: Vec<i64> = sort_todos(v).iter().map(|t| t.id).collect();
    assert_eq!(ids, vec![3, 2, 1, 5, 4]);
}

#[test]
fn todo_order_keeps_ties() {
    let v = vec![todo(1, "medium", Some(5)), todo(2, "medium", Some(5))];
    let ids: Vec<i64> = sort_todos(v).iter().map(|t| t.id).collect();
    assert_eq!(ids, vec![1, 2]);
}

#[test]
fn template_render_with_fixed_clock() {
    let out = render_with(
        "Hello {title} on {date}",
        "2024-01-02",
        "09:30",
        "2024-01-02 09:30",
        &[("title", "X")],
    );
    assert_eq!(out, "Hello X on 2024-01-02");
    let out = render_with("{datetime}|{time}|{missing}", "D", "T", "DT", &[]);
    assert_eq!(out, "DT|T|{missing}");
}

#[test]
fn template_render_uses_today() {
    let out = render("Hello {title} on {date}", &[("title", "X")]);
    assert!(out.starts_with("Hello X on "));
    assert!(!out.contains("{date}"));
    assert!(!out.contains("{title}"));
    assert_eq!(out.len(), "Hello X on ".len() + 10);
}

#[test]
fn list_query_composes_filters() {
    let q = list_query(10, Some("work"), Some("ideas"), Some(100));
    assert_eq!(
        q.sql,
        "SELECT n.id, n.content, n.created_at, n.updated_at, n.category, n.is_daily FROM notes n \
         WHERE n.created_at >= ? AND n.category = ? AND n.id IN (SELECT note_id FROM tags WHERE tag = ?) \
         ORDER BY n.created_at DESC LIMIT ?"
    );
    assert_eq!(q.params.len(), 4);
    assert!(matches!(q.params[0], SqlValue::Integer(100)));
    assert!(matches!(&q.params[1], SqlValue::Text(t) if t == "ideas"));
    assert!(matches!(&q.params[2], SqlValue::Text(t) if t == "work"));
    assert!(matches!(q.params[3], SqlValue::Integer(10)));
}

#[test]
fn list_query_without_filters() {
    let q = list_query(5, None, None, None);
    assert_eq!(
        q.sql,
        "SELECT n.id, n.content, n.created_at, n.updated_at, n.category, n.is_daily FROM notes n  ORDER BY n.created_at DESC LIMIT ?"
    );
    assert_eq!(q.params.len(), 1);
    let q = list_query(usize::MAX, None, None, None);
    assert!(matches!(q.params[0], SqlValue::Integer(i64::MAX)));
}

#[test]
fn where_clause_joins_with_and() {
    assert_eq!(where_clause(&s(&["a = ?", "b = ?"])), "WHERE a = ? AND b = ?");
    assert_eq!(where_clause(&Vec::new()), "");
}

#[test]
fn tag_rows_are_trimmed() {
    let q = insert_tag_query(7, "  work ");
    assert!(matches!(&q.params[1], SqlValue::Text(t) if t == "work"));
}

#[test]
fn store_paths() {
    assert_eq!(db_dir_in("/home/u"), "/home/u/.notectl");
    assert_eq!(db_path_in("/home/u"), "/home/u/.notectl/notes.db");
}

#[test]
fn pending_count() {
    assert_eq!(pending_from(5, 2), Some(3));
    assert_eq!(pending_from(0, 0), Some(0));
    assert_eq!(pending_from(2, 3), None);
    assert_eq!(pending_from(2, -1), None);
}

#[test]
fn due_dates() {
    assert_eq!(due_timestamp(None), None);
    assert_eq!(due_timestamp(Some("tomorrow")), None);
    assert_eq!(due_timestamp(Some("2024-02-30")), None);
    let a = due_timestamp(Some("2024-01-05")).unwrap();
    let b = due_timestamp(Some("2024-01-06")).unwrap();
    assert!(b > a);
    assert!(b - a >= 82_800 && b - a <= 90_000);
}

#[test]
fn delete_order_index_tags_note() {
    let (a, b, c) = notectl::note::delete_statements(9);
    assert_eq!(a.sql, "DELETE FROM notes_fts WHERE rowid = ?");
    assert_eq!(b.sql, "DELETE FROM tags WHERE note_id = ?");
    assert_eq!(c.sql, "DELETE FROM notes WHERE id = ?");
    assert!(matches!(c.params[0], SqlValue::Integer(9)));
}

#[test]
fn reindex_deletes_then_inserts() {
    let (d, i) = notectl::note::reindex_statements(4, "text");
    assert_eq!(d.sql, "DELETE FROM notes_fts WHERE rowid = ?");
    assert_eq!(i.sql, "INSERT INTO notes_fts (rowid, content) VALUES (?, ?)");
    assert!(matches!(&i.params[1], SqlValue::Text(t) if t == "text"));
}

fn note_at(id: i64, created_at: i64, category: Option<&str>, tags: &[&str]) -> Note {
    Note {
        id,
        content: format!("note {}", id),
        created_at,
        updated_at: created_at,
        category: category.map(|c| c.to_string()),
        is_daily: false,
        tags: s(tags),
    }
}

fn note_row(id: i64, content: &str) -> Vec<SqlValue> {
    vec![
        SqlValue::Integer(id),
        SqlValue::Text(content.to_string()),
        SqlValue::Integer(10),
        SqlValue::Integer(20),
        SqlValue::Null,
        SqlValue::Integer(1),
    ]
}

#[test]
fn select_keeps_matches_in_order_up_to_limit() {
    let notes = || {
        vec![
            note_at(1, 50, Some("a"), &["work"]),
            note_at(2, 40, None, &["work", "x"]),
            note_at(3, 30, Some("a"), &[]),
            note_at(4, 20, Some("a"), &["work"]),
        ]
    };
    let ids = |v: Vec<Note>| v.iter().map(|n| n.id).collect::<Vec<i64>>();
    assert_eq!(ids(select_notes(notes(), 10, Some("work"), None, None, None)), vec![1, 2, 4]);
    assert_eq!(ids(select_notes(notes(), 2, Some("work"), None, None, None)), vec![1, 2]);
    assert_eq!(ids(select_notes(notes(), 10, Some("work"), Some("a"), None, None)), vec![1, 4]);
    assert_eq!(ids(select_notes(notes(), 10, None, None, Some(30), Some(40))), vec![2, 3]);
    assert_eq!(ids(select_notes(notes(), 0, None, None, None, None)), Vec::<i64>::new());
}

#[test]
fn note_rows_decode() {
    assert!(note_of_rows(&Vec::new(), 3, Vec::new()).unwrap().is_none());
    let n = note_of_rows(&vec![note_row(3, "hi")], 3, s(&["t"])).unwrap().unwrap();
    assert_eq!((n.id, n.content.as_str(), n.created_at, n.updated_at), (3, "hi", 10, 20));
    assert!(n.is_daily && n.category.is_none());
    assert_eq!(n.tags, s(&["t"]));
    assert!(matches!(note_of_rows(&vec![note_row(4, "hi")], 3, Vec::new()), Err(notectl::sql::StoreError::BadRow)));
    let bad = vec![vec![SqlValue::Text("x".to_string())]];
    assert!(matches!(note_of_rows(&bad, 3, Vec::new()), Err(notectl::sql::StoreError::BadRow)));
}

fn todo_row(id: i64, completed: i64, priority: &str, due: Option<i64>) -> Vec<SqlValue> {
    vec![
        SqlValue::Integer(id),
        SqlValue::Text(format!("task {}", id)),
        SqlValue::Integer(completed),
        SqlValue::Text(priority.to_string()),
        match due {
            Some(d) => SqlValue::Integer(d),
            None => SqlValue::Null,
        },
        SqlValue::Integer(5),
    ]
}

#[test]
fn todo_rows_decode_and_filter() {
    let rows = vec![todo_row(1, 0, "low", Some(3)), todo_row(2, 1, "high", None), todo_row(3, 0, "x", None)];
    let all = todos_of_rows(&rows, false).unwrap();
    assert_eq!(all.iter().map(|t| t.id).collect::<Vec<_>>(), vec![1, 2, 3]);
    assert_eq!(all[0].due_date, Some(3));
    assert!(all[1].completed);
    assert_eq!(all[2].priority, "x");
    let pending = todos_of_rows(&rows, true).unwrap();
    assert_eq!(pending.iter().map(|t| t.id).collect::<Vec<_>>(), vec![1, 3]);
    let bad = vec![vec![SqlValue::Integer(1)]];
    assert!(matches!(todos_of_rows(&bad, false), Err(notectl::sql::StoreError::BadRow)));
}

#[test]
fn tag_and_template_rows_decode() {
    let rows = vec![vec![SqlValue::Text("work".to_string()), SqlValue::Integer(3)]];
    let counts = tag_counts_of_rows(&rows).unwrap();
    assert_eq!((counts[0].tag.as_str(), counts[0].count), ("work", 3));
    assert!(tag_counts_of_rows(&vec![vec![SqlValue::Null]]).is_err());
    let t = vec![vec![SqlValue::Text("a".to_string()), SqlValue::Text("body".to_string())]];
    assert_eq!(template_of_rows(&t, "a").unwrap().unwrap().content, "body");
    assert!(template_of_rows(&Vec::new(), "a").unwrap().is_none());
    assert!(template_of_rows(&t, "b").is_err());
    assert_eq!(templates_of_rows(&t).unwrap()[0].name, "a");
}

#[test]
fn daily_rows_and_action() {
    assert_eq!(daily_action(Some(4), "text"), DailyAction::Update(4));
    assert_eq!(daily_action(None, "text"), DailyAction::Create);
    assert_eq!(daily_action(Some(4), "  \n"), DailyAction::Refuse);
    assert!(daily_of_rows(&Vec::new()).unwrap().is_none());
    let rows = vec![vec![SqlValue::Integer(7), SqlValue::Text("d".to_string())]];
    assert_eq!(daily_of_rows(&rows).unwrap(), Some((7, "d".to_string())));
}

#[test]
fn schema_and_fts_statement() {
    assert_eq!(
        fts_statement(0),
        Some("CREATE VIRTUAL TABLE notes_fts USING fts5(content, content_rowid=id);")
    );
    assert_eq!(fts_statement(1), None);
    assert_eq!(schema_batch().matches("IF NOT EXISTS").count(), 6);
}

#[test]
fn row_change_counts() {
    assert!(notectl::sql::existed(1));
    assert!(!notectl::sql::existed(0));
}

#[test]
fn count_queries_bind_bounds() {
    let q = notectl::todo::due_between_query(10, 20);
    assert_eq!(q.sql, "SELECT COUNT(*) FROM todos WHERE completed = 0 AND due_date >= ? AND due_date <= ?");
    assert!(matches!(q.params[0], SqlValue::Integer(10)));
    assert!(matches!(q.params[1], SqlValue::Integer(20)));
    let q = notectl::search::tag_search_query("work");
    assert!(q.sql.contains("n.id IN (SELECT note_id FROM tags WHERE tag = ?)"));
}

#[test]
fn search_results_recheck_only_when_asked() {
    let notes = || vec![note(1, "Alpha"), note(2, "alpha")];
    assert_eq!(search_results(notes(), &s(&["alpha"]), false).len(), 2);
    let kept = search_results(notes(), &s(&["alpha"]), true);
    assert_eq!(kept.iter().map(|n| n.id).collect::<Vec<_>>(), vec![2]);
}
