//! Search over notes: every term as a required phrase of the full-text
//! index, an optional exact case-sensitive re-check, and lookup by tag.
use vstd::prelude::*;
use crate::note::{all_notes_match, collect_notes, has_tag, note_matches, opt_view, Note};
use crate::sql::{args_of, query1, run_query, SqlArg, SqlQuery, SqlValue, StoreError};
use crate::text::{has_sub, join_texts, joined, replace_text, replaced, text_contains, views};

verus! {

broadcast use vstd::seq_lib::group_filter_ensures;

/// A term as a phrase of the full-text query language: in double quotes, with
/// each double quote inside it doubled.
pub open spec fn quoted(t: Seq<char>) -> Seq<char> {
    "\""@ + replaced(t, "\""@, "\"\""@) + "\""@
}

/// The full-text query that requires every term, as a phrase.
pub open spec fn phrase_query(terms: Seq<Seq<char>>) -> Seq<char> {
    joined(terms.map_values(|t: Seq<char>| quoted(t)), " AND "@)
}

/// Every term occurs in `content`, with case as written.
pub open spec fn has_all_terms(content: Seq<char>, terms: Seq<Seq<char>>) -> bool {
    forall|i: int| 0 <= i < terms.len() ==> has_sub(content, #[trigger] terms[i])
}

/// The test that a note's content holds every term.
pub open spec fn holds_terms(terms: Seq<Seq<char>>) -> spec_fn(Note) -> bool {
    |n: Note| has_all_terms(n.content@, terms)
}

/// The notes, in order, whose content holds every term with case as written.
pub open spec fn notes_with_terms(notes: Seq<Note>, terms: Seq<Seq<char>>) -> Seq<Note> {
    notes.filter(holds_terms(terms))
}

/// A term quoted as a phrase of the full-text query language.
pub fn quote_term(t: &str) -> (r: String)
    ensures
        r@ == quoted(t@),
{
    proof {
        reveal_strlit("\"");
    }
    let inner = replace_text(t, "\"", "\"\"");
    let mut r = "\"".to_string();
    r.append(inner.as_str());
    r.append("\"");
    r
}

/// The full-text query that requires every term, each as a quoted phrase,
/// joined with `AND`.
pub fn fts_query(terms: &[String]) -> (r: String)
    ensures
        r@ == phrase_query(views(terms@)),
{
    let mut quoted_terms: Vec<String> = Vec::new();
    let mut i: usize = 0;
    while i < terms.len()
        invariant
            i <= terms@.len(),
            quoted_terms@.len() == i,
            forall|k: int| 0 <= k < i ==> #[trigger] quoted_terms@[k]@ == quoted(terms@[k]@),
        decreases terms@.len() - i,
    {
        let q = quote_term(terms[i].as_str());
        quoted_terms.push(q);
        i = i + 1;
    }
    assert(views(quoted_terms@) =~= views(terms@).map_values(|t: Seq<char>| quoted(t)));
    join_texts(&quoted_terms, " AND ")
}

/// Whether `content` holds every term, with case as written.
pub fn contains_all(content: &str, terms: &[String]) -> (r: bool)
    ensures
        r == has_all_terms(content@, views(terms@)),
{
    let mut i: usize = 0;
    while i < terms.len()
        invariant
            i <= terms@.len(),
            forall|k: int| 0 <= k < i ==> has_sub(content@, #[trigger] views(terms@)[k]),
        decreases terms@.len() - i,
    {
        if !text_contains(content, terms[i].as_str()) {
            assert(!has_sub(content@, views(terms@)[i as int]));
            return false;
        }
        i = i + 1;
    }
    true
}

/// Keeps, in order, the notes whose content holds every term with case as
/// written.
pub fn filter_case_sensitive(notes: Vec<Note>, terms: &[String]) -> (r: Vec<Note>)
    ensures
        r@ == notes_with_terms(notes@, views(terms@)),
{
    let ghost orig = notes@;
    let mut rest = notes;
    let mut out: Vec<Note> = Vec::new();
    let ghost k: int = 0;
    while rest.len() > 0
        invariant
            0 <= k <= orig.len(),
            rest@ == orig.subrange(k, orig.len() as int),
            out@ == orig.subrange(0, k).filter(holds_terms(views(terms@))),
        decreases rest@.len(),
    {
        let n = rest.remove(0);
        proof {
            let sub = orig.subrange(0, k + 1);
            assert(n == orig[k]);
            assert(sub.drop_last() =~= orig.subrange(0, k));
            assert(sub.last() == orig[k]);
            reveal(Seq::filter);
            assert(sub.filter(holds_terms(views(terms@))) == (if holds_terms(views(terms@))(orig[k]) {
                orig.subrange(0, k).filter(holds_terms(views(terms@))).push(orig[k])
            } else {
                orig.subrange(0, k).filter(holds_terms(views(terms@)))
            }));
        }
        let keep = contains_all(n.content.as_str(), terms);
        assert(keep == holds_terms(views(terms@))(orig[k]));
        if keep {
            out.push(n);
        }
        proof {
            k = k + 1;
            assert(rest@ =~= orig.subrange(k, orig.len() as int));
        }
    }
    assert(orig.subrange(0, orig.len() as int) =~= orig);
    out
}

/// Every element kept by a filter is an element of the sequence it came from.
pub proof fn lemma_filter_from(s: Seq<Note>, pred: spec_fn(Note) -> bool)
    ensures
        forall|i: int| 0 <= i < s.filter(pred).len() ==> s.contains(#[trigger] s.filter(pred)[i]),
    decreases s.len(),
{
    reveal(Seq::filter);
    if s.len() > 0 {
        lemma_filter_from(s.drop_last(), pred);
        let sub = s.drop_last().filter(pred);
        assert forall|i: int| 0 <= i < s.filter(pred).len() implies s.contains(
            #[trigger] s.filter(pred)[i],
        ) by {
            if i < sub.len() {
                let x = sub[i];
                assert(s.drop_last().contains(x));
                let j = choose|j: int| 0 <= j < s.drop_last().len() && s.drop_last()[j] == x;
                assert(s[j] == x);
            } else {
                assert(s.filter(pred)[i] == s[s.len() - 1]);
            }
        }
    }
}

/// The case-sensitive re-check of a search is a conjunction of its terms: a
/// note is kept exactly when it was among the matches and its content holds
/// every term; one that lacks any term is dropped.
pub proof fn lemma_search_and(notes: Seq<Note>, terms: Seq<Seq<char>>, n: Note)
    ensures
        notes_with_terms(notes, terms).contains(n) <==> (notes.contains(n) && has_all_terms(
            n.content@,
            terms,
        )),
        (exists|i: int| 0 <= i < terms.len() && !has_sub(n.content@, terms[i]))
            ==> !notes_with_terms(notes, terms).contains(n),
{
    let pred = holds_terms(terms);
    lemma_filter_from(notes, pred);
    if notes.contains(n) && has_all_terms(n.content@, terms) {
        let j = choose|j: int| 0 <= j < notes.len() && notes[j] == n;
        assert(notes.filter(pred).contains(notes[j]));
    }
    if notes_with_terms(notes, terms).contains(n) {
        let j = choose|j: int|
            0 <= j < notes.filter(pred).len() && notes.filter(pred)[j] == n;
        assert(pred(notes.filter(pred)[j]));
    }
}

/// The statement that reads the notes carrying a tag, each once, newest first.
pub fn tag_search_query(tag: &str) -> (q: SqlQuery)
    ensures
        q.sql@ == "SELECT n.id, n.content, n.created_at, n.updated_at, n.category, n.is_daily FROM notes n WHERE n.id IN (SELECT note_id FROM tags WHERE tag = ?) ORDER BY n.created_at DESC"@,
        args_of(q.params@) == seq![SqlArg::Text(tag@)],
{
    let q = query1(
        "SELECT n.id, n.content, n.created_at, n.updated_at, n.category, n.is_daily FROM notes n WHERE n.id IN (SELECT note_id FROM tags WHERE tag = ?) ORDER BY n.created_at DESC",
        SqlValue::Text(tag.to_string()),
    );
    assert(args_of(q.params@) =~= seq![SqlArg::Text(tag@)]);
    q
}

/// The notes carrying `tag`, each once, newest first.
pub fn search_by_tag(conn: &rusqlite::Connection, tag: &str) -> (r: Result<Vec<Note>, StoreError>)
    ensures
        r matches Ok(notes) ==> all_notes_match(notes@, Some(tag@), None, None, None),
        r matches Err(e) ==> (e is Sql || e is BadRow),
{
    let q = tag_search_query(tag);
    let rows = run_query(conn, &q)?;
    collect_notes(conn, &rows, rows.len(), Some(tag), None, None, None)
}

/// The full-text search statement: notes whose index entry matches the query,
/// newest first.
pub open spec fn search_sql() -> Seq<char> {
    "SELECT n.id, n.content, n.created_at, n.updated_at, n.category, n.is_daily FROM notes n JOIN notes_fts ON notes_fts.rowid = n.id WHERE notes_fts MATCH ? ORDER BY n.created_at DESC"@
}

/// The full-text search statement for the terms, bound to their phrase query.
pub fn search_query(terms: &[String]) -> (q: SqlQuery)
    ensures
        q.sql@ == search_sql(),
        args_of(q.params@) == seq![SqlArg::Text(phrase_query(views(terms@)))],
{
    let fq = fts_query(terms);
    let q = query1(
        "SELECT n.id, n.content, n.created_at, n.updated_at, n.category, n.is_daily FROM notes n JOIN notes_fts ON notes_fts.rowid = n.id WHERE notes_fts MATCH ? ORDER BY n.created_at DESC",
        SqlValue::Text(fq),
    );
    assert(args_of(q.params@) =~= seq![SqlArg::Text(phrase_query(views(terms@)))]);
    q
}

/// The full-text matches, in order; with `case_sensitive`, only those whose
/// content holds every term with case as written.
pub fn search_results(notes: Vec<Note>, terms: &[String], case_sensitive: bool) -> (r: Vec<Note>)
    ensures
        case_sensitive ==> r@ == notes_with_terms(notes@, views(terms@)),
        !case_sensitive ==> r@ == notes@,
        case_sensitive ==> forall|i: int|
            0 <= i < r@.len() ==> has_all_terms(#[trigger] r@[i].content@, views(terms@)),
{
    if case_sensitive {
        let ghost orig = notes@;
        let kept = filter_case_sensitive(notes, terms);
        assert forall|i: int| 0 <= i < kept@.len() implies has_all_terms(
            #[trigger] kept@[i].content@,
            views(terms@),
        ) by {
            let pred = holds_terms(views(terms@));
            assert(pred(orig.filter(pred)[i]));
        }
        kept
    } else {
        notes
    }
}

/// Searches notes. With a tag, the notes carrying it, each once (the terms
/// are not used). Otherwise no terms find nothing, and terms find the notes
/// whose index entry holds every term as a phrase, newest first; with
/// `case_sensitive`, only those whose content holds every term with case as
/// written are kept.
pub fn search_notes(
    conn: &rusqlite::Connection,
    terms: &[String],
    tag: Option<&str>,
    case_sensitive: bool,
) -> (r: Result<Vec<Note>, StoreError>)
    ensures
        tag matches Some(t) ==> (r matches Ok(notes) ==> forall|i: int|
            0 <= i < notes@.len() ==> has_tag(#[trigger] notes@[i].tags@, t@)),
        tag is None && terms@.len() == 0 ==> (r matches Ok(notes) && notes@.len() == 0),
        tag is None && case_sensitive ==> (r matches Ok(notes) ==> forall|i: int|
            0 <= i < notes@.len() ==> has_all_terms(#[trigger] notes@[i].content@, views(terms@))),
        r matches Err(e) ==> (e is Sql || e is BadRow),
{
    if let Some(t) = tag {
        let r = search_by_tag(conn, t);
        proof {
            if r is Ok {
                let notes = r->Ok_0;
                assert forall|i: int| 0 <= i < notes@.len() implies has_tag(
                    #[trigger] notes@[i].tags@,
                    t@,
                ) by {
                    assert(note_matches(notes@[i], Some(t@), None, None, None));
                }
            }
        }
        return r;
    }
    if terms.len() == 0 {
        return Ok(Vec::new());
    }
    let q = search_query(terms);
    let rows = run_query(conn, &q)?;
    let notes = collect_notes(conn, &rows, rows.len(), None, None, None, None)?;
    Ok(search_results(notes, terms, case_sensitive))
}

} // verus!
