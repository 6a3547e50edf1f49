use notectl::db::initialize;
use notectl::export::fetch_export_notes;
use notectl::note;
use notectl::search::{search_by_tag, search_notes};
use notectl::sql::StoreError;
use notectl::tags;
use notectl::template;
use notectl::todo;
use rusqlite::Connection;

fn open() -> Connection {
    let conn = Connection::open_in_memory().unwrap();
    conn.execute_batch("PRAGMA foreign_keys=ON;").unwrap();
    initialize(&conn).unwrap();
    conn
}

fn v(items: &[&str]) -> Vec<String> {
    items.iter().map(|x| x.to_string()).collect()
}

fn count(conn: &Connection, sql: &str) -> i64 {
    conn.query_row(sql, [], |r| r.get(0)).unwrap()
}

fn ids(notes: &[note::Note]) -> Vec<i64> {
    let mut out: Vec<i64> = notes.iter().map(|n| n.id).collect();
    out.sort();
    out
}

#[test]
fn add_then_get_round_trip() {
    let conn = open();
    let id = note::add(&conn, "buy milk", &v(&["home", " errands "]), Some("chores"), false).unwrap();
    let n = note::get_by_id(&conn, id).unwrap().unwrap();
    assert_eq!(n.id, id);
    assert_eq!(n.content, "buy milk");
    assert_eq!(n.category.as_deref(), Some("chores"));
    assert!(!n.is_daily);
    let mut tags = n.tags.clone();
    tags.sort();
    assert_eq!(tags, v(&["errands", "home"]));
    assert_eq!(n.created_at, n.updated_at);
}

#[test]
fn get_missing_note_is_none() {
    let conn = open();
    assert!(note::get_by_id(&conn, 42).unwrap().is_none());
}

#[test]
fn empty_content_is_refused() {
    let conn = open();
    assert!(matches!(note::add(&conn, "   \n", &[], None, false), Err(StoreError::EmptyContent)));
    assert_eq!(note::count_all(&conn).unwrap(), 0);
    let id = note::add(&conn, "x", &[], None, false).unwrap();
    assert!(matches!(note::update(&conn, id, " "), Err(StoreError::EmptyContent)));
}

#[test]
fn initialize_twice_is_harmless() {
    let conn = open();
    let before = count(&conn, "SELECT COUNT(*) FROM sqlite_master");
    initialize(&conn).unwrap();
    initialize(&conn).unwrap();
    let after = count(&conn, "SELECT COUNT(*) FROM sqlite_master");
    assert_eq!(before, after);
    assert_eq!(
        count(&conn, "SELECT COUNT(*) FROM sqlite_master WHERE type='table' AND name='notes_fts'"),
        1
    );
}

#[test]
fn search_requires_every_term() {
    let conn = open();
    let only_alpha = note::add(&conn, "alpha only here", &[], None, false).unwrap();
    let both = note::add(&conn, "alpha and beta together", &[], None, false).unwrap();
    let found = search_notes(&conn, &v(&["alpha", "beta"]), None, false).unwrap();
    assert_eq!(ids(&found), vec![both]);
    let found = search_notes(&conn, &v(&["alpha"]), None, false).unwrap();
    assert_eq!(ids(&found), vec![only_alpha, both]);
}

#[test]
fn search_without_terms_finds_nothing() {
    let conn = open();
    note::add(&conn, "something", &[], None, false).unwrap();
    assert!(search_notes(&conn, &Vec::new(), None, false).unwrap().is_empty());
}

#[test]
fn search_case_sensitive_rechecks_content() {
    let conn = open();
    let lower = note::add(&conn, "rust is fun", &[], None, false).unwrap();
    let upper = note::add(&conn, "Rust is fun", &[], None, false).unwrap();
    let any = search_notes(&conn, &v(&["rust"]), None, false).unwrap();
    assert_eq!(ids(&any), vec![lower, upper]);
    let exact = search_notes(&conn, &v(&["Rust"]), None, true).unwrap();
    assert_eq!(ids(&exact), vec![upper]);
}

#[test]
fn search_term_with_quote() {
    let conn = open();
    let id = note::add(&conn, "she said \"hello\" twice", &[], None, false).unwrap();
    let found = search_notes(&conn, &v(&["\"hello\""]), None, false).unwrap();
    assert_eq!(ids(&found), vec![id]);
}

#[test]
fn tag_search_ignores_content() {
    let conn = open();
    let a = note::add(&conn, "meeting notes", &v(&["work"]), None, false).unwrap();
    let b = note::add(&conn, "work work work", &v(&["home"]), None, false).unwrap();
    let c = note::add(&conn, "plan", &v(&["work", "q3"]), None, false).unwrap();
    let found = search_notes(&conn, &v(&["plan"]), Some("work"), false).unwrap();
    assert_eq!(ids(&found), vec![a, c]);
    let found = search_by_tag(&conn, "home").unwrap();
    assert_eq!(ids(&found), vec![b]);
}

#[test]
fn delete_removes_tags_and_index_entry() {
    let conn = open();
    let id = note::add(&conn, "zanzibar unique words", &v(&["t1", "t2"]), None, false).unwrap();
    assert_eq!(count(&conn, "SELECT COUNT(*) FROM tags"), 2);
    assert!(note::delete(&conn, id).unwrap());
    assert_eq!(count(&conn, "SELECT COUNT(*) FROM tags"), 0);
    assert_eq!(count(&conn, "SELECT COUNT(*) FROM notes_fts"), 0);
    assert!(search_notes(&conn, &v(&["zanzibar"]), None, false).unwrap().is_empty());
    assert!(!note::delete(&conn, id).unwrap());
}

#[test]
fn update_reindexes_content() {
    let conn = open();
    let id = note::add(&conn, "old words", &[], None, false).unwrap();
    assert!(note::update(&conn, id, "new words").unwrap());
    assert_eq!(note::get_by_id(&conn, id).unwrap().unwrap().content, "new words");
    assert!(search_notes(&conn, &v(&["old"]), None, false).unwrap().is_empty());
    assert_eq!(ids(&search_notes(&conn, &v(&["new"]), None, false).unwrap()), vec![id]);
    assert_eq!(count(&conn, "SELECT COUNT(*) FROM notes_fts"), 1);
    assert!(!note::update(&conn, id + 100, "whatever").unwrap());
}

#[test]
fn list_applies_filters_and_limit() {
    let conn = open();
    let a = note::add(&conn, "a", &v(&["work"]), Some("ideas"), false).unwrap();
    let b = note::add(&conn, "b", &v(&["work"]), None, false).unwrap();
    let c = note::add(&conn, "c", &[], Some("ideas"), false).unwrap();
    assert_eq!(ids(&note::list(&conn, 10, None, None, false).unwrap()), vec![a, b, c]);
    assert_eq!(ids(&note::list(&conn, 10, Some("work"), None, false).unwrap()), vec![a, b]);
    assert_eq!(ids(&note::list(&conn, 10, None, Some("ideas"), false).unwrap()), vec![a, c]);
    assert_eq!(ids(&note::list(&conn, 10, Some("work"), Some("ideas"), false).unwrap()), vec![a]);
    assert_eq!(note::list(&conn, 2, None, None, false).unwrap().len(), 2);
    assert_eq!(note::list(&conn, 0, None, None, false).unwrap().len(), 0);
    assert_eq!(note::list(&conn, 10, None, None, true).unwrap().len(), 3);
    assert!(note::list_since(&conn, 10, None, None, Some(i64::MAX)).unwrap().is_empty());
    assert_eq!(note::count_all(&conn).unwrap(), 3);
}

#[test]
fn rename_moves_counts() {
    let conn = open();
    note::add(&conn, "a", &v(&["work", "x"]), None, false).unwrap();
    note::add(&conn, "b", &v(&["work"]), None, false).unwrap();
    note::add(&conn, "c", &v(&["x"]), None, false).unwrap();
    let before = tags::list_all(&conn).unwrap();
    let work = before.iter().find(|t| t.tag == "work").unwrap().count;
    assert_eq!(work, 2);
    assert_eq!(tags::rename(&conn, "work", "job").unwrap(), 2);
    let after = tags::list_all(&conn).unwrap();
    assert!(after.iter().all(|t| t.tag != "work"));
    assert_eq!(after.iter().find(|t| t.tag == "job").unwrap().count, work);
    assert_eq!(after.iter().find(|t| t.tag == "x").unwrap().count, 2);
}

#[test]
fn rename_does_not_merge() {
    let conn = open();
    let id = note::add(&conn, "a", &v(&["work", "job"]), None, false).unwrap();
    tags::rename(&conn, "work", "job").unwrap();
    let n = note::get_by_id(&conn, id).unwrap().unwrap();
    assert_eq!(n.tags, v(&["job", "job"]));
}

#[test]
fn tag_counts_most_used_first() {
    let conn = open();
    note::add(&conn, "a", &v(&["rare"]), None, false).unwrap();
    note::add(&conn, "b", &v(&["common"]), None, false).unwrap();
    note::add(&conn, "c", &v(&["common"]), None, false).unwrap();
    let all = tags::list_all(&conn).unwrap();
    assert_eq!(all.len(), 2);
    assert_eq!(all[0].tag, "common");
    assert_eq!(all[0].count, 2);
    assert_eq!(all[1].count, 1);
}

#[test]
fn add_and_remove_single_tag() {
    let conn = open();
    let id = note::add(&conn, "a", &[], None, false).unwrap();
    tags::add_tag(&conn, id, "later").unwrap();
    assert_eq!(note::get_by_id(&conn, id).unwrap().unwrap().tags, v(&["later"]));
    assert_eq!(tags::remove_tag(&conn, id, "later").unwrap(), 1);
    assert_eq!(tags::remove_tag(&conn, id, "later").unwrap(), 0);
}

#[test]
fn todos_listed_by_priority_and_due() {
    let conn = open();
    let low = todo::add(&conn, "low one", "low", Some("2030-01-01")).unwrap();
    let high = todo::add(&conn, "high one", "H", None).unwrap();
    let mid = todo::add(&conn, "mid one", "whatever", Some("2029-12-31")).unwrap();
    let list = todo::list_todos(&conn, false).unwrap();
    let order: Vec<i64> = list.iter().map(|t| t.id).collect();
    assert_eq!(order, vec![high, mid, low]);
    assert_eq!(list[0].priority, "high");
    assert_eq!(list[1].priority, "medium");
    assert!(list[0].due_date.is_none());
}

#[test]
fn todo_unreadable_due_date_is_dropped() {
    let conn = open();
    let id = todo::add(&conn, "t", "low", Some("next week")).unwrap();
    let list = todo::list_todos(&conn, false).unwrap();
    assert_eq!(list[0].id, id);
    assert!(list[0].due_date.is_none());
}

#[test]
fn todo_done_delete_and_counts() {
    let conn = open();
    let a = todo::add(&conn, "a", "high", Some("2000-01-01")).unwrap();
    let b = todo::add(&conn, "b", "low", None).unwrap();
    assert_eq!(todo::count_overdue(&conn).unwrap(), 1);
    assert!(todo::mark_done(&conn, a).unwrap());
    assert!(!todo::mark_done(&conn, 999).unwrap());
    assert_eq!(todo::count_stats(&conn).unwrap(), (2, 1, 1));
    assert_eq!(todo::count_overdue(&conn).unwrap(), 0);
    let pending = todo::list_todos(&conn, true).unwrap();
    assert_eq!(pending.iter().map(|t| t.id).collect::<Vec<_>>(), vec![b]);
    assert!(todo::delete(&conn, b).unwrap());
    assert!(!todo::delete(&conn, b).unwrap());
    assert_eq!(todo::count_stats(&conn).unwrap(), (1, 1, 0));
}

#[test]
fn todo_due_today_counted() {
    let conn = open();
    let today = chrono::Local::now().date_naive().format("%Y-%m-%d").to_string();
    todo::add(&conn, "today", "medium", Some(&today)).unwrap();
    todo::add(&conn, "later", "medium", Some("2999-01-01")).unwrap();
    assert_eq!(todo::count_due_today(&conn).unwrap(), 1);
}

#[test]
fn templates_upsert_get_list_delete() {
    let conn = open();
    template::create(&conn, "b", "second").unwrap();
    template::create(&conn, "a", "first").unwrap();
    template::create(&conn, "a", "first again").unwrap();
    let t = template::get(&conn, "a").unwrap().unwrap();
    assert_eq!(t.content, "first again");
    assert!(template::get(&conn, "zzz").unwrap().is_none());
    let names: Vec<String> = template::list_all(&conn).unwrap().into_iter().map(|t| t.name).collect();
    assert_eq!(names, v(&["a", "b"]));
    assert!(template::delete(&conn, "a").unwrap());
    assert!(!template::delete(&conn, "a").unwrap());
}

#[test]
fn daily_note_lookup() {
    let conn = open();
    assert!(note::find_daily(&conn, 0, i64::MAX).unwrap().is_none());
    let id = note::add(&conn, "# Daily", &v(&["daily"]), None, true).unwrap();
    note::add(&conn, "not daily", &[], None, false).unwrap();
    let found = note::find_daily(&conn, 0, i64::MAX).unwrap().unwrap();
    assert_eq!(found, (id, "# Daily".to_string()));
    let d = notectl::clock::CivilDate { year: 1990, month: 1, day: 1 };
    assert!(note::find_daily_on(&conn, d).unwrap().is_none());
}

#[test]
fn export_selects_by_tag_and_dates() {
    let conn = open();
    let a = note::add(&conn, "a", &v(&["work"]), None, false).unwrap();
    let b = note::add(&conn, "b", &[], None, false).unwrap();
    assert_eq!(ids(&fetch_export_notes(&conn, None, None, None).unwrap()), vec![a, b]);
    assert_eq!(ids(&fetch_export_notes(&conn, Some("work"), None, None).unwrap()), vec![a]);
    assert!(fetch_export_notes(&conn, None, Some("2999-01-01"), None).unwrap().is_empty());
    assert!(fetch_export_notes(&conn, None, None, Some("1990-01-01")).unwrap().is_empty());
    assert_eq!(ids(&fetch_export_notes(&conn, None, Some("bad"), Some("bad")).unwrap()), vec![a, b]);
}

#[test]
fn tag_search_returns_each_note_once() {
    let conn = open();
    let id = note::add(&conn, "twice", &v(&["work", "work"]), None, false).unwrap();
    let found = search_notes(&conn, &[], Some("work"), false).unwrap();
    assert_eq!(ids(&found), vec![id]);
    let all = tags::list_all(&conn).unwrap();
    assert_eq!(all[0].count, 1);
}
