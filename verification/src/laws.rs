//! Properties of the page and the worker that span several operations.
use vstd::prelude::*;
use crate::client::{
    data_tag, first_values, listed_names, response_effect, run_query_effect, run_result_effect,
    select_sql, tables_request, ActionView,
};
use crate::protocol::{
    DownloadDbResponse, OpenOptions, RequestView, RunResultView, SQLiteRunResult, StatementView, WorkerError,
    WorkerResponse,
};
use crate::state::AppStateView;
use crate::client::first_cell;
use crate::text::{has_prefix, is_blank};
use crate::view::{after_first_colon, colon_free};
use crate::worker::{opened, run_access, uri_text, SQLiteWorker, Worker, MEM_VFS_NAME};
use crate::client::select_embedded_effect;
use crate::protocol::worker_error_text;

verus! {

/// Rows of a table come back to the table they were asked for: a result
/// tagged as the rows of `table` selects `table` and shows the first rows
/// in the batch (an empty grid when no statement returned rows), asks for
/// nothing more, and leaves the rest of the page alone.
pub proof fn lemma_data_result_selects_table(
    s: AppStateView,
    table: Seq<char>,
    items: Seq<StatementView>,
)
    ensures
        ({
            let (t, req) = run_result_effect(s, RunResultView { tag: data_tag(table), result: items });
            &&& req is None
            &&& t.selected_table == Some(table)
            &&& match first_values(items) {
                Some(v) => t.table_columns == v.columns && t.table_rows == v.rows,
                None => t.table_columns == Seq::<Seq<char>>::empty() && t.table_rows == Seq::<
                    Seq<Seq<char>>,
                >::empty(),
            }
            &&& t.tables == s.tables
            &&& t.query_columns == s.query_columns
            &&& t.query_rows == s.query_rows
            &&& t.query_error == s.query_error
            &&& t.db_filename == s.db_filename
            &&& t.db_loaded == s.db_loaded
            &&& t.error == s.error
        }),
{
    reveal_strlit("tables");
    reveal_strlit("data:");
    let tag = data_tag(table);
    assert(tag[0] == 'd');
    assert(tag != "tables"@);
    assert(tag.subrange(0, 5) =~= "data:"@);
    assert(has_prefix(tag, "data:"@));
    assert(tag.subrange(5, tag.len() as int) =~= table);
}

/// A result tagged `insert:TABLE` changes nothing on the page and asks for
/// the first 1000 rows of TABLE, under the tag that brings them back to
/// TABLE.
pub proof fn lemma_insert_result_refreshes_table(
    s: AppStateView,
    table: Seq<char>,
    items: Seq<StatementView>,
)
    ensures
        run_result_effect(s, RunResultView { tag: "insert:"@ + table, result: items }) == (
            s,
            Some(RequestView::Run { sql: select_sql(table, "1000"@), tag: data_tag(table) }),
        ),
{
    reveal_strlit("tables");
    reveal_strlit("data:");
    reveal_strlit("query");
    reveal_strlit("insert:");
    let tag = "insert:"@ + table;
    assert(tag[0] == 'i');
    assert(tag != "tables"@);
    assert(tag != "query"@);
    assert(!has_prefix(tag, "data:"@)) by {
        if has_prefix(tag, "data:"@) {
            assert(tag.subrange(0, 5)[0] == 'd');
        }
    }
    assert(tag.subrange(0, 7) =~= "insert:"@);
    assert(tag.subrange(7, tag.len() as int) =~= table);
}

/// A loaded database is listed: the page marks it loaded and asks for its
/// tables; when that request's result comes back, the page lists the names
/// it returned and shows no table.
pub proof fn lemma_load_lists_tables(
    s: AppStateView,
    load: WorkerResponse,
    reply: SQLiteRunResult,
)
    requires
        load matches WorkerResponse::LoadDb(Ok(())),
        tables_request() matches RequestView::Run { tag, .. } && reply@.tag == tag,
    ensures
        ({
            let (s1, a1) = response_effect(s, load);
            let (s2, a2) = response_effect(s1, WorkerResponse::Run(Ok(reply)));
            &&& s1.db_loaded && s1.error is None
            &&& a1 == Some(ActionView::Send(tables_request()))
            &&& s2.tables == listed_names(reply@.result)
            &&& s2.selected_table == s.selected_table
            &&& s2.table_columns == Seq::<Seq<char>>::empty()
            &&& s2.table_rows == Seq::<Seq<Seq<char>>>::empty()
            &&& s2.query_error is None
            &&& a2 is None
        }),
{
}

/// A failed request never touches the data on the page: only the error bar
/// (for open, load and download) or the query error (for run) changes, and
/// nothing more is asked.
pub proof fn lemma_failure_keeps_data(s: AppStateView, resp: WorkerResponse)
    requires
        match resp {
            WorkerResponse::Open(r) => r is Err,
            WorkerResponse::LoadDb(r) => r is Err,
            WorkerResponse::Run(r) => r is Err,
            WorkerResponse::DownloadDb(r) => r is Err,
            WorkerResponse::Ready => false,
        },
    ensures
        ({
            let (t, a) = response_effect(s, resp);
            &&& a is None
            &&& t.db_loaded == s.db_loaded
            &&& t.db_filename == s.db_filename
            &&& t.tables == s.tables
            &&& t.selected_table == s.selected_table
            &&& t.table_columns == s.table_columns
            &&& t.table_rows == s.table_rows
            &&& t.query_columns == s.query_columns
            &&& t.query_rows == s.query_rows
            &&& t.main_view == s.main_view
            &&& (resp is Run ==> t.error == s.error && t.query_error is Some)
            &&& (!(resp is Run) ==> t.query_error == s.query_error && t.error is Some)
        }),
{
}

/// A query shows what it returned: blank SQL sends nothing and changes
/// nothing; other SQL is sent as is under the tag `query`, and its result,
/// when it comes back, is what the query panel shows, with no error.
pub proof fn lemma_query_round_trip(s: AppStateView, sql: Seq<char>, reply: SQLiteRunResult)
    requires
        reply@.tag == "query"@,
    ensures
        is_blank(sql) ==> run_query_effect(s, Some(sql)) == (s, None::<RequestView>),
        !is_blank(sql) ==> ({
            let (s1, req) = run_query_effect(s, Some(sql));
            let (s2, a) = response_effect(s1, WorkerResponse::Run(Ok(reply)));
            &&& req == Some(RequestView::Run { sql, tag: "query"@ })
            &&& a is None
            &&& s2.query_error is None
            &&& match first_values(reply@.result) {
                Some(v) => s2.query_columns == v.columns && s2.query_rows == v.rows,
                None => s2.query_columns == Seq::<Seq<char>>::empty() && s2.query_rows == Seq::<
                    Seq<Seq<char>>,
                >::empty(),
            }
            &&& s2.tables == s.tables
            &&& s2.selected_table == s.selected_table
            &&& s2.table_columns == s.table_columns
            &&& s2.table_rows == s.table_rows
        }),
{
    reveal_strlit("tables");
    reveal_strlit("data:");
    reveal_strlit("query");
    let tag = "query"@;
    assert(tag != "tables"@);
    assert(!has_prefix(tag, "data:"@)) by {
        if has_prefix(tag, "data:"@) {
            assert(tag.subrange(0, 5)[0] == 'd');
        }
    }
}

/// A column's key gives its name back, as long as the table's name holds no
/// `:`.
pub proof fn lemma_column_key_label(table: Seq<char>, column: Seq<char>)
    requires
        colon_free(table),
    ensures
        after_first_colon(table + seq![':'] + column) == column,
    decreases table.len(),
{
    let key = table + seq![':'] + column;
    if table.len() == 0 {
        assert(key[0] == ':');
        assert(key.drop_first() =~= column);
    } else {
        assert(key[0] == table[0]);
        assert(key.drop_first() =~= table.drop_first() + seq![':'] + column);
        lemma_column_key_label(table.drop_first(), column);
    }
}

/// A worker that has opened nothing answers every request that needs a
/// database with `NotOpened`.
pub proof fn lemma_fresh_worker_not_opened<D>(w: Worker<D>)
    requires
        w.session is None,
    ensures
        run_access(w) == Err::<D, WorkerError>(WorkerError::NotOpened),
{
}

/// After a successful open, runs use the handle that the open produced.
pub proof fn lemma_open_then_run<D>(options: OpenOptions, db: D)
    ensures
        run_access(opened(options, db)) == Ok::<D, WorkerError>(db),
{
}

/// While a load is under way (or after it failed), runs are refused with
/// `InvalidState`; once the load's open succeeds, runs use the new handle,
/// on the file that was opened first.
pub proof fn lemma_load_replaces_handle<D>(options: OpenOptions, db: D)
    ensures
        run_access(Worker { session: Some(SQLiteWorker::<D> { open_options: options, db: None }) })
            == Err::<D, WorkerError>(WorkerError::InvalidState),
        run_access(Worker { session: Some(SQLiteWorker { open_options: options, db: Some(db) }) })
            == Ok::<D, WorkerError>(db),
{
}

/// The grid shows the rows of the first statement that returned rows, all
/// of them and nothing else: when statement `i` is the first one with
/// values, those values are what the batch yields.
pub proof fn lemma_first_values_is_first_with_rows(items: Seq<StatementView>, i: int)
    requires
        0 <= i < items.len(),
        items[i] matches StatementView::Step { values: Some(_), .. },
        forall|j: int|
            0 <= j < i ==> !(#[trigger] items[j] matches StatementView::Step { values: Some(_), .. }),
    ensures
        first_values(items) == items[i]->values,
    decreases i,
{
    if i > 0 {
        let rest = items.drop_first();
        assert forall|j: int| 0 <= j < i - 1 implies !(#[trigger] rest[j] matches StatementView::Step {
            values: Some(_),
            ..
        }) by {
            assert(rest[j] == items[j + 1]);
        }
        assert(!(items[0] matches StatementView::Step { values: Some(_), .. }));
        assert(rest[i - 1] == items[i]);
        lemma_first_values_is_first_with_rows(rest, i - 1);
    }
}

/// A batch in which no statement returned rows yields no values.
pub proof fn lemma_first_values_none(items: Seq<StatementView>)
    requires
        forall|j: int|
            0 <= j < items.len() ==> !(#[trigger] items[j] matches StatementView::Step {
                values: Some(_),
                ..
            }),
    ensures
        first_values(items) is None,
    decreases items.len(),
{
    if items.len() > 0 {
        let rest = items.drop_first();
        assert forall|j: int| 0 <= j < rest.len() implies !(#[trigger] rest[j] matches StatementView::Step {
            values: Some(_),
            ..
        }) by {
            assert(rest[j] == items[j + 1]);
        }
        assert(!(items[0] matches StatementView::Step { values: Some(_), .. }));
        lemma_first_values_none(rest);
    }
}

/// A query's reply is shown whole: when statement `i` of the reply is the
/// first that returned rows, the query grid shows exactly its columns and
/// all of its rows, and the query error is cleared.
pub proof fn lemma_query_shows_all_rows(s: AppStateView, reply: SQLiteRunResult, i: int)
    requires
        reply@.tag == "query"@,
        0 <= i < reply@.result.len(),
        reply@.result[i] matches StatementView::Step { values: Some(_), .. },
        forall|j: int|
            0 <= j < i ==> !(#[trigger] reply@.result[j] matches StatementView::Step {
                values: Some(_),
                ..
            }),
    ensures
        ({
            let (t, a) = response_effect(s, WorkerResponse::Run(Ok(reply)));
            let v = reply@.result[i]->values->0;
            &&& t.query_columns == v.columns
            &&& t.query_rows == v.rows
            &&& t.query_rows.len() == v.rows.len()
            &&& t.query_error is None
            &&& a is None
        }),
{
    reveal_strlit("tables");
    reveal_strlit("data:");
    reveal_strlit("query");
    let tag = "query"@;
    assert(tag != "tables"@);
    assert(!has_prefix(tag, "data:"@)) by {
        if has_prefix(tag, "data:"@) {
            assert(tag.subrange(0, 5)[0] == 'd');
        }
    }
    lemma_first_values_is_first_with_rows(reply@.result, i);
}

/// A table's rows are shown whole: when statement `i` of a reply tagged as
/// the rows of `table` is the first that returned rows, the browse grid
/// shows exactly its columns and all of its rows, as `table`.
pub proof fn lemma_table_shows_all_rows(
    s: AppStateView,
    table: Seq<char>,
    items: Seq<StatementView>,
    i: int,
)
    requires
        0 <= i < items.len(),
        items[i] matches StatementView::Step { values: Some(_), .. },
        forall|j: int|
            0 <= j < i ==> !(#[trigger] items[j] matches StatementView::Step { values: Some(_), .. }),
    ensures
        ({
            let (t, req) = run_result_effect(
                s,
                RunResultView { tag: "data:"@ + table, result: items },
            );
            let v = items[i]->values->0;
            &&& t.table_columns == v.columns
            &&& t.table_rows == v.rows
            &&& t.selected_table == Some(table)
            &&& req is None
        }),
{
    lemma_data_tag_text(table);
    lemma_data_result_selects_table(s, table, items);
    lemma_first_values_is_first_with_rows(items, i);
}

/// Each row of a listing that has a cell names one table: a listing made of
/// one statement whose rows all have a cell lists the first cell of every
/// row, in order, one name per row.
pub proof fn lemma_tables_one_name_per_row(s: AppStateView, reply: SQLiteRunResult)
    requires
        reply@.tag == "tables"@,
        reply@.result.len() == 1,
        reply@.result[0] matches StatementView::Step { values: Some(_), .. },
        forall|k: int|
            0 <= k < reply@.result[0]->values->0.rows.len() ==> (#[trigger] reply@.result[0]->values->0.rows[k]).len()
                > 0,
    ensures
        ({
            let (t, a) = response_effect(s, WorkerResponse::Run(Ok(reply)));
            let rows = reply@.result[0]->values->0.rows;
            &&& t.tables.len() == rows.len()
            &&& forall|k: int| 0 <= k < rows.len() ==> #[trigger] t.tables[k] == rows[k][0]
            &&& a is None
        }),
{
    let rows = reply@.result[0]->values->0.rows;
    lemma_names_of_full_rows(rows);
    let f = |st: StatementView| crate::client::statement_names(st);
    assert(reply@.result.map_values(f) =~= seq![f(reply@.result[0])]);
    seq![f(reply@.result[0])].lemma_flatten_singleton();
}

spec fn names_of_rows(rows: Seq<Seq<Seq<char>>>) -> Seq<Seq<char>> {
    rows.filter_map(|r: Seq<Seq<char>>| first_cell(r))
}

proof fn lemma_names_of_full_rows(rows: Seq<Seq<Seq<char>>>)
    requires
        forall|k: int| 0 <= k < rows.len() ==> (#[trigger] rows[k]).len() > 0,
    ensures
        names_of_rows(rows).len() == rows.len(),
        forall|k: int| 0 <= k < rows.len() ==> #[trigger] names_of_rows(rows)[k] == rows[k][0],
    decreases rows.len(),
{
    if rows.len() > 0 {
        let init = rows.drop_last();
        assert forall|k: int| 0 <= k < init.len() implies (#[trigger] init[k]).len() > 0 by {
            assert(init[k] == rows[k]);
        }
        lemma_names_of_full_rows(init);
        let f = |r: Seq<Seq<char>>| first_cell(r);
        assert(rows.filter_map(f) == init.filter_map(f) + seq![rows.last()[0]]);
        assert forall|k: int| 0 <= k < rows.len() implies #[trigger] names_of_rows(rows)[k]
            == rows[k][0] by {
            if k < init.len() {
                assert(init[k] == rows[k]);
            }
        }
    }
}

/// A row without a cell names nothing, and a row with one adds its first
/// cell at the end of the listing.
pub proof fn lemma_tables_row_step(rows: Seq<Seq<Seq<char>>>, row: Seq<Seq<char>>)
    ensures
        rows.push(row).filter_map(|r: Seq<Seq<char>>| first_cell(r)) == rows.filter_map(
            |r: Seq<Seq<char>>| first_cell(r),
        ) + (if row.len() > 0 {
            seq![row[0]]
        } else {
            Seq::empty()
        }),
{
    let f = |r: Seq<Seq<char>>| first_cell(r);
    assert(rows.push(row).drop_last() =~= rows);
    if row.len() == 0 {
        assert(rows.filter_map(f) + Seq::<Seq<char>>::empty() =~= rows.filter_map(f));
    }
}

/// The listing of a batch is the listing of its first statements followed
/// by the listing of the rest.
pub proof fn lemma_tables_concat(s: AppStateView, a: Seq<StatementView>, b: Seq<StatementView>)
    ensures
        run_result_effect(s, RunResultView { tag: "tables"@, result: a + b }).0.tables
            == run_result_effect(s, RunResultView { tag: "tables"@, result: a }).0.tables
            + run_result_effect(s, RunResultView { tag: "tables"@, result: b }).0.tables,
{
    let f = |st: StatementView| crate::client::statement_names(st);
    assert((a + b).map_values(f) =~= a.map_values(f) + b.map_values(f));
    vstd::seq_lib::lemma_flatten_concat(a.map_values(f), b.map_values(f));
}

/// An export is offered as it is: the page offers a file with the exported
/// name and every exported byte, and changes nothing.
pub proof fn lemma_download_offers_export(s: AppStateView, d: DownloadDbResponse)
    ensures
        ({
            let (t, a) = response_effect(s, WorkerResponse::DownloadDb(Ok(d)));
            &&& t == s
            &&& a matches Some(ActionView::Download { filename, data }) && filename == d.filename@
                && data == d.data@ && data.len() == d.data@.len()
        }),
{
}

/// Only a loaded database marks the page loaded: a successful open leaves
/// the page as it is, and no reply but a successful load turns an unloaded
/// page into a loaded one.
pub proof fn lemma_only_load_marks_loaded(s: AppStateView, resp: WorkerResponse)
    ensures
        response_effect(s, WorkerResponse::Open(Ok(()))) == (s, None::<ActionView>),
        !s.db_loaded && response_effect(s, resp).0.db_loaded ==> resp matches WorkerResponse::LoadDb(
            Ok(()),
        ),
{
}

/// The SQL that reads a table's rows names that table between double quotes
/// and ends with the limit asked for, whatever the table.
pub proof fn lemma_select_sql_text(table: Seq<char>, limit: Seq<char>)
    ensures
        ({
            let q = select_sql(table, limit);
            let p = "SELECT * FROM \""@;
            let m = "\" LIMIT "@;
            let (pl, tl, ml) = (p.len() as int, table.len() as int, m.len() as int);
            &&& q.len() == pl + tl + ml + limit.len()
            &&& q.subrange(0, pl) == p
            &&& q.subrange(pl, pl + tl) == table
            &&& q.subrange(pl + tl, pl + tl + ml) == m
            &&& q.subrange(q.len() - limit.len(), q.len() as int) == limit
        }),
{
    let q = select_sql(table, limit);
    let p = "SELECT * FROM \""@;
    let m = "\" LIMIT "@;
    let (pl, tl, ml) = (p.len() as int, table.len() as int, m.len() as int);
    assert(q.subrange(0, pl) =~= p);
    assert(q.subrange(pl, pl + tl) =~= table);
    assert(q.subrange(pl + tl, pl + tl + ml) =~= m);
    assert(q.subrange(q.len() - limit.len(), q.len() as int) =~= limit);
}

/// The tag of a table's rows is `data:` followed by the table's name.
pub proof fn lemma_data_tag_text(table: Seq<char>)
    ensures
        data_tag(table).len() == table.len() + 5,
        data_tag(table).subrange(0, 5) == "data:"@,
        data_tag(table).subrange(5, table.len() as int + 5) == table,
        data_tag(table) == "data:"@ + table,
{
    reveal_strlit("data:");
    assert(data_tag(table).subrange(0, 5) =~= "data:"@);
    assert(data_tag(table).subrange(5, table.len() as int + 5) =~= table);
}

/// Blank text is made of white space only: the empty text is blank, and a
/// text stays blank when a character is added exactly when that character
/// is white space.
pub proof fn lemma_blank_step(s: Seq<char>, c: char)
    ensures
        is_blank(Seq::<char>::empty()),
        is_blank(s.push(c)) == (is_blank(s) && crate::text::is_white_space(c)),
{
    if is_blank(s.push(c)) {
        assert forall|k: int| 0 <= k < s.len() implies crate::text::is_white_space(#[trigger] s[k]) by {
            assert(s.push(c)[k] == s[k]);
        }
        assert(s.push(c)[s.len() as int] == c);
    }
    if is_blank(s) && crate::text::is_white_space(c) {
        assert forall|k: int| 0 <= k < s.push(c).len() implies crate::text::is_white_space(
            #[trigger] s.push(c)[k],
        ) by {
            if k < s.len() {
                assert(s.push(c)[k] == s[k]);
            }
        }
    }
}

/// The URI of a file names the file between `file:` and `?vfs=memvfs`.
pub proof fn lemma_uri_text(filename: Seq<char>)
    ensures
        uri_text(filename).len() == filename.len() + 16,
        uri_text(filename).subrange(0, 5) == "file:"@,
        uri_text(filename).subrange(5, filename.len() as int + 5) == filename,
        uri_text(filename).subrange(filename.len() as int + 5, filename.len() as int + 16) == "?vfs=memvfs"@,
{
    reveal_strlit("file:");
    reveal_strlit("?vfs=");
    reveal_strlit("memvfs");
    reveal_strlit("?vfs=memvfs");
    let u = uri_text(filename);
    assert(MEM_VFS_NAME@ == "memvfs"@);
    assert(u.subrange(0, 5) =~= "file:"@);
    assert(u.subrange(5, filename.len() as int + 5) =~= filename);
    assert(u.subrange(filename.len() as int + 5, filename.len() as int + 16) =~= "?vfs=memvfs"@);
}

/// A failed request shows that failure's own text: in the error bar for an
/// open, load or download, as the query error for a run.
pub proof fn lemma_failure_shows_its_text(s: AppStateView, e: WorkerError)
    ensures
        response_effect(s, WorkerResponse::Open(Err(e))).0.error == Some(worker_error_text(e)),
        response_effect(s, WorkerResponse::LoadDb(Err(e))).0.error == Some(worker_error_text(e)),
        response_effect(s, WorkerResponse::DownloadDb(Err(e))).0.error == Some(
            worker_error_text(e),
        ),
        response_effect(s, WorkerResponse::Run(Err(e))).0.query_error == Some(
            worker_error_text(e),
        ),
{
}

/// The text of a failed load or download ends with the whole message that
/// came with it, after a fixed opening.
pub proof fn lemma_error_text_keeps_message(m: String)
    ensures
        ({
            let t = worker_error_text(WorkerError::LoadDb(m));
            &&& t.len() == 19 + m@.len()
            &&& t.subrange(0, 19) == "Failed to load db: "@
            &&& t.subrange(19, t.len() as int) == m@
        }),
        ({
            let t = worker_error_text(WorkerError::DownloadDb(m));
            &&& t.len() == 23 + m@.len()
            &&& t.subrange(0, 23) == "Failed to download db: "@
            &&& t.subrange(23, t.len() as int) == m@
        }),
{
    reveal_strlit("Failed to load db: ");
    reveal_strlit("Failed to download db: ");
    let t = worker_error_text(WorkerError::LoadDb(m));
    assert(t.subrange(0, 19) =~= "Failed to load db: "@);
    assert(t.subrange(19, t.len() as int) =~= m@);
    let u = worker_error_text(WorkerError::DownloadDb(m));
    assert(u.subrange(0, 23) =~= "Failed to download db: "@);
    assert(u.subrange(23, u.len() as int) =~= m@);
}

/// A key without `:` shows no column name.
pub proof fn lemma_label_without_colon(key: Seq<char>)
    requires
        colon_free(key),
    ensures
        after_first_colon(key) == Seq::<char>::empty(),
    decreases key.len(),
{
    if key.len() > 0 {
        assert(key[0] != ':');
        let rest = key.drop_first();
        assert forall|k: int| 0 <= k < rest.len() implies rest[k] != ':' by {
            assert(rest[k] == key[k + 1]);
        }
        lemma_label_without_colon(rest);
    }
}

/// Choosing a bundled database names it and forgets the previous
/// database's tables and table on display, and nothing else.
pub proof fn lemma_select_embedded_forgets_tables(s: AppStateView, name: Seq<char>)
    ensures
        ({
            let t = select_embedded_effect(s, name);
            &&& t.db_filename == Some(name)
            &&& t.tables.len() == 0
            &&& t.selected_table is None
            &&& t.table_columns.len() == 0
            &&& t.table_rows.len() == 0
            &&& t.db_loaded == s.db_loaded
            &&& t.query_columns == s.query_columns
            &&& t.query_rows == s.query_rows
            &&& t.query_error == s.query_error
            &&& t.error == s.error
            &&& t.main_view == s.main_view
        }),
{
}

} // verus!
