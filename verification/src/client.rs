//! How the page reacts to what the worker sends back, and the requests that
//! the page's own actions send.
use vstd::prelude::*;
use crate::protocol::{
    DownloadDbResponse, LoadDbOptions, OpenOptions, WorkerResponse, worker_error_text, RequestView, RunOptions, SQLiteRunResult, SQLiteStatementResult, SQLiteStatementValues,
    RunResultView, StatementView, ValuesView, WorkerRequest,
};
use crate::state::{AppState, AppStateView};
use crate::text::{concat, has_prefix, is_blank, str_equal, strip_prefix, trims_to_empty};

verus! {

// ---------------------------------------------------------------------------
// Specification
// ---------------------------------------------------------------------------

/// The statements of a batch, each by its view.
pub open spec fn statements_view(items: Seq<SQLiteStatementResult>) -> Seq<StatementView> {
    items.map_values(|r: SQLiteStatementResult| r@)
}

/// The first cell of a row, if it has one.
pub open spec fn first_cell(row: Seq<Seq<char>>) -> Option<Seq<char>> {
    if row.len() > 0 {
        Some(row[0])
    } else {
        None
    }
}

/// The names that one statement lists: the first cell of each of its rows
/// that has a cell, in order.
pub open spec fn statement_names(st: StatementView) -> Seq<Seq<char>> {
    match st {
        StatementView::Step { values: Some(v), .. } => v.rows.filter_map(
            |r: Seq<Seq<char>>| first_cell(r),
        ),
        _ => Seq::empty(),
    }
}

/// The names that a batch lists, statement after statement.
pub open spec fn listed_names(items: Seq<StatementView>) -> Seq<Seq<char>> {
    items.map_values(|st: StatementView| statement_names(st)).flatten()
}

/// The values of the first statement in the batch that returned any.
pub open spec fn first_values(items: Seq<StatementView>) -> Option<ValuesView>
    decreases items.len(),
{
    if items.len() == 0 {
        None
    } else {
        match items[0] {
            StatementView::Step { values: Some(v), .. } => Some(v),
            _ => first_values(items.drop_first()),
        }
    }
}

/// What follows `p` in `s` (for an `s` that starts with `p`).
pub open spec fn rest_after(s: Seq<char>, p: Seq<char>) -> Seq<char> {
    s.subrange(p.len() as int, s.len() as int)
}

/// The SQL that reads at most `limit` rows of a table.
pub open spec fn select_sql(table: Seq<char>, limit: Seq<char>) -> Seq<char> {
    "SELECT * FROM \""@ + table + "\" LIMIT "@ + limit
}

/// The tag under which a table's rows come back.
pub open spec fn data_tag(table: Seq<char>) -> Seq<char> {
    "data:"@ + table
}

/// The view of an optional request.
pub open spec fn opt_request_view(r: Option<WorkerRequest>) -> Option<RequestView> {
    match r {
        Some(q) => Some(q@),
        None => None,
    }
}

/// How the page takes a run result, by its tag:
/// `tables` lists the tables (first cell of each row) and empties the table
/// on display; `data:NAME` shows the first returned rows as table NAME (or
/// an empty table); `query` shows the first returned rows as the query's
/// result and clears the query error; `insert:NAME` asks for the rows of
/// NAME again; any other tag changes nothing.
pub open spec fn run_result_effect(s: AppStateView, r: RunResultView) -> (AppStateView, Option<
    RequestView,
>) {
    if r.tag == "tables"@ {
        (
            AppStateView {
                tables: listed_names(r.result),
                table_columns: seq![],
                table_rows: seq![],
                ..s
            },
            None,
        )
    } else if has_prefix(r.tag, "data:"@) {
        let name = rest_after(r.tag, "data:"@);
        match first_values(r.result) {
            Some(v) => (
                AppStateView {
                    selected_table: Some(name),
                    table_columns: v.columns,
                    table_rows: v.rows,
                    ..s
                },
                None,
            ),
            None => (
                AppStateView {
                    selected_table: Some(name),
                    table_columns: seq![],
                    table_rows: seq![],
                    ..s
                },
                None,
            ),
        }
    } else if r.tag == "query"@ {
        match first_values(r.result) {
            Some(v) => (
                AppStateView {
                    query_error: None,
                    query_columns: v.columns,
                    query_rows: v.rows,
                    ..s
                },
                None,
            ),
            None => (
                AppStateView { query_error: None, query_columns: seq![], query_rows: seq![], ..s },
                None,
            ),
        }
    } else if has_prefix(r.tag, "insert:"@) {
        let name = rest_after(r.tag, "insert:"@);
        (s, Some(RequestView::Run { sql: select_sql(name, "1000"@), tag: data_tag(name) }))
    } else {
        (s, None)
    }
}

// ---------------------------------------------------------------------------
// Helpers
// ---------------------------------------------------------------------------

proof fn lemma_listed_names_step(items: Seq<StatementView>, i: int)
    requires
        0 <= i < items.len(),
    ensures
        listed_names(items.take(i + 1)) == listed_names(items.take(i)) + statement_names(
            items[i],
        ),
{
    let f = |st: StatementView| statement_names(st);
    assert(items.take(i + 1).map_values(f) =~= items.take(i).map_values(f).push(f(items[i])));
    items.take(i).map_values(f).lemma_flatten_push(f(items[i]));
}

proof fn lemma_filter_map_step(rows: Seq<Seq<Seq<char>>>, j: int)
    requires
        0 <= j < rows.len(),
    ensures
        rows.take(j + 1).filter_map(|r: Seq<Seq<char>>| first_cell(r)) == rows.take(j).filter_map(
            |r: Seq<Seq<char>>| first_cell(r),
        ) + (if rows[j].len() > 0 {
            seq![rows[j][0]]
        } else {
            Seq::empty()
        }),
{
    let f = |r: Seq<Seq<char>>| first_cell(r);
    assert(rows.take(j + 1).drop_last() =~= rows.take(j));
    assert(rows.take(j + 1).last() == rows[j]);
    if rows[j].len() == 0 {
        assert(rows.take(j).filter_map(f) + Seq::<Seq<char>>::empty() =~= rows.take(j).filter_map(
            f,
        ));
    }
}

/// The names listed by a batch of statements.
fn collect_table_names(items: &Vec<SQLiteStatementResult>) -> (names: Vec<String>)
    ensures
        names.deep_view() == listed_names(statements_view(items@)),
{
    let ghost sv = statements_view(items@);
    let mut names: Vec<String> = Vec::new();
    let n = items.len();
    assert(sv.take(0).map_values(|st: StatementView| statement_names(st)) =~= Seq::empty());
    for i in 0..n
        invariant
            n == items@.len(),
            sv == statements_view(items@),
            names.deep_view() == listed_names(sv.take(i as int)),
    {
        proof {
            lemma_listed_names_step(sv, i as int);
        }
        match &items[i] {
            SQLiteStatementResult::Step(t) => match &t.values {
                Some(v) => {
                    let ghost before = names.deep_view();
                    let ghost rows = v@.rows;
                    let m = v.rows.len();
                    assert(rows.take(0).filter_map(|r: Seq<Seq<char>>| first_cell(r)) =~= Seq::<
                        Seq<char>,
                    >::empty());
                    assert(before + Seq::<Seq<char>>::empty() =~= before);
                    for j in 0..m
                        invariant
                            m == v.rows@.len(),
                            rows == v@.rows,
                            names.deep_view() == before + rows.take(j as int).filter_map(
                                |r: Seq<Seq<char>>| first_cell(r),
                            ),
                    {
                        proof {
                            lemma_filter_map_step(rows, j as int);
                        }
                        let row = &v.rows[j];
                        assert(rows[j as int] == row.deep_view());
                        if row.len() > 0 {
                            let ghost old_names = names.deep_view();
                            let cell = row[0].clone();
                            names.push(cell);
                            assert(names.deep_view() =~= old_names.push(row@[0]@));
                            assert(before + rows.take(j + 1).filter_map(
                                |r: Seq<Seq<char>>| first_cell(r),
                            ) =~= old_names.push(row@[0]@));
                        } else {
                            assert(before + rows.take(j + 1).filter_map(
                                |r: Seq<Seq<char>>| first_cell(r),
                            ) =~= names.deep_view());
                        }
                    }
                    assert(rows.take(m as int) =~= rows);
                },
                None => {
                    assert(listed_names(sv.take(i + 1)) =~= listed_names(sv.take(i as int)));
                },
            },
            SQLiteStatementResult::Finish => {
                assert(listed_names(sv.take(i + 1)) =~= listed_names(sv.take(i as int)));
            },
        }
    }
    assert(sv.take(n as int) =~= sv);
    names
}

/// The values of the first statement of the batch that returned any, moved
/// out of the batch.
fn take_first_values(items: Vec<SQLiteStatementResult>) -> (v: Option<SQLiteStatementValues>)
    ensures
        match v {
            Some(x) => first_values(statements_view(items@)) == Some(x@),
            None => first_values(statements_view(items@)) is None,
        },
{
    let ghost sv = statements_view(items@);
    let mut rest = items;
    let n = rest.len();
    assert(sv.subrange(0, n as int) =~= sv);
    for i in 0..n
        invariant
            n == rest@.len(),
            rest@ == items@,
            sv == statements_view(items@),
            first_values(sv) == first_values(sv.subrange(i as int, n as int)),
    {
        assert(sv.subrange(i as int, n as int)[0] == sv[i as int]);
        assert(sv.subrange(i as int, n as int).drop_first() =~= sv.subrange(i + 1, n as int));
        let has_values = match &rest[i] {
            SQLiteStatementResult::Step(t) => t.values.is_some(),
            SQLiteStatementResult::Finish => false,
        };
        if has_values {
            let ghost before = rest@;
            assert(sv[i as int] == before[i as int]@);
            let item = rest.remove(i);
            assert(item == before[i as int]);
            match item {
                SQLiteStatementResult::Step(t) => {
                    return t.values;
                },
                SQLiteStatementResult::Finish => {
                    return None;
                },
            }
        }
    }
    None
}

/// A `String` holding `s`.
fn owned(s: &str) -> (r: String)
    ensures
        r@ == s@,
{
    String::from_str(s)
}

/// The SQL that reads at most `limit` rows of `table`.
fn build_select_sql(table: &str, limit: &str) -> (sql: String)
    ensures
        sql@ == select_sql(table@, limit@),
{
    let mut sql = owned("SELECT * FROM \"");
    sql.append(table);
    sql.append("\" LIMIT ");
    sql.append(limit);
    sql
}

// ---------------------------------------------------------------------------
// Reactions
// ---------------------------------------------------------------------------

/// Takes a run result into the page state, and returns the request that it
/// calls for, if any.
pub fn handle_run_result(state: &mut AppState, result: SQLiteRunResult) -> (req: Option<
    WorkerRequest,
>)
    ensures
        (final(state)@, opt_request_view(req)) == run_result_effect(old(state)@, result@),
{
    let ghost r = result@;
    let SQLiteRunResult { tag, result: items } = result;
    assert(r.result == statements_view(items@));
    if str_equal(tag.as_str(), "tables") {
        let names = collect_table_names(&items);
        state.tables = names;
        state.table_columns = Vec::new();
        state.table_rows = Vec::new();
        None
    } else if let Some(name) = strip_prefix(tag.as_str(), "data:") {
        let name = owned(name);
        match take_first_values(items) {
            Some(v) => {
                state.table_columns = v.columns;
                state.table_rows = v.rows;
                state.selected_table = Some(name);
            },
            None => {
                state.selected_table = Some(name);
                state.table_columns = Vec::new();
                state.table_rows = Vec::new();
            },
        }
        None
    } else if str_equal(tag.as_str(), "query") {
        state.query_error = None;
        match take_first_values(items) {
            Some(v) => {
                state.query_columns = v.columns;
                state.query_rows = v.rows;
            },
            None => {
                state.query_columns = Vec::new();
                state.query_rows = Vec::new();
            },
        }
        None
    } else if let Some(name) = strip_prefix(tag.as_str(), "insert:") {
        let sql = build_select_sql(name, "1000");
        let data = concat("data:", name);
        Some(WorkerRequest::Run(RunOptions { sql, tag: data }))
    } else {
        None
    }
}

/// What the page does besides changing its state.
#[derive(Debug)]
pub enum ClientAction {
    /// Send a request to the worker.
    Send(WorkerRequest),
    /// Offer the exported database to the user as a download.
    Download(DownloadDbResponse),
}

/// An action by its content.
#[verifier::ext_equal]
pub enum ActionView {
    Send(RequestView),
    Download { filename: Seq<char>, data: Seq<u8> },
}

impl View for ClientAction {
    type V = ActionView;

    open spec fn view(&self) -> ActionView {
        match self {
            ClientAction::Send(r) => ActionView::Send(r@),
            ClientAction::Download(d) => ActionView::Download { filename: d.filename@, data: d.data@ },
        }
    }
}

/// The view of an optional action.
pub open spec fn opt_action_view(a: Option<ClientAction>) -> Option<ActionView> {
    match a {
        Some(x) => Some(x@),
        None => None,
    }
}

/// The SQL that lists the tables and views of a database by name.
pub open spec fn tables_sql() -> Seq<char> {
    "SELECT name FROM sqlite_master WHERE type='table' OR type='view' ORDER BY name"@
}

/// The request that asks for the list of tables.
pub open spec fn tables_request() -> RequestView {
    RequestView::Run { sql: tables_sql(), tag: "tables"@ }
}

/// How the page takes a reply of the worker: a failed open, load or
/// download shows its error in the page's error bar; a loaded database is
/// marked loaded, clears that bar and asks for its tables; a run result
/// clears the query error and is then taken as `run_result_effect` says; a
/// failed run shows its error as the query error; an export is offered as a
/// download.
pub open spec fn response_effect(s: AppStateView, resp: WorkerResponse) -> (AppStateView, Option<
    ActionView,
>) {
    match resp {
        WorkerResponse::Ready => (s, None),
        WorkerResponse::Open(Ok(())) => (s, None),
        WorkerResponse::Open(Err(e)) => (
            AppStateView { error: Some(worker_error_text(e)), ..s },
            None,
        ),
        WorkerResponse::LoadDb(Ok(())) => (
            AppStateView { db_loaded: true, error: None, ..s },
            Some(ActionView::Send(tables_request())),
        ),
        WorkerResponse::LoadDb(Err(e)) => (
            AppStateView { error: Some(worker_error_text(e)), ..s },
            None,
        ),
        WorkerResponse::Run(Ok(r)) => {
            let (t, req) = run_result_effect(AppStateView { query_error: None, ..s }, r@);
            (
                t,
                match req {
                    Some(q) => Some(ActionView::Send(q)),
                    None => None,
                },
            )
        },
        WorkerResponse::Run(Err(e)) => (
            AppStateView { query_error: Some(worker_error_text(e)), ..s },
            None,
        ),
        WorkerResponse::DownloadDb(Ok(d)) => (
            s,
            Some(ActionView::Download { filename: d.filename@, data: d.data@ }),
        ),
        WorkerResponse::DownloadDb(Err(e)) => (
            AppStateView { error: Some(worker_error_text(e)), ..s },
            None,
        ),
    }
}

/// Takes one reply of the worker (other than its start-up notice) into the
/// page state, and returns what the page must do next, if anything.
pub fn handle_response(state: &mut AppState, resp: WorkerResponse) -> (action: Option<ClientAction>)
    requires
        !(resp is Ready),
    ensures
        (final(state)@, opt_action_view(action)) == response_effect(old(state)@, resp),
{
    match resp {
        WorkerResponse::Ready => None,
        WorkerResponse::Open(result) => {
            if let Err(err) = result {
                state.error = Some(err.message());
            }
            None
        },
        WorkerResponse::LoadDb(result) => match result {
            Ok(()) => {
                state.db_loaded = true;
                state.error = None;
                let sql = owned(
                    "SELECT name FROM sqlite_master WHERE type='table' OR type='view' ORDER BY name",
                );
                let tag = owned("tables");
                Some(ClientAction::Send(WorkerRequest::Run(RunOptions { sql, tag })))
            },
            Err(err) => {
                state.error = Some(err.message());
                None
            },
        },
        WorkerResponse::Run(result) => match result {
            Ok(run_result) => {
                state.query_error = None;
                match handle_run_result(state, run_result) {
                    Some(req) => Some(ClientAction::Send(req)),
                    None => None,
                }
            },
            Err(err) => {
                state.query_error = Some(err.message());
                None
            },
        },
        WorkerResponse::DownloadDb(result) => match result {
            Ok(resp) => Some(ClientAction::Download(resp)),
            Err(err) => {
                state.error = Some(err.message());
                None
            },
        },
    }
}

/// The request that opens the worker's database file, `main.db`.
pub fn connect_db_request() -> (req: WorkerRequest)
    ensures
        req@ == (RequestView::Open { filename: "main.db"@ }),
{
    WorkerRequest::Open(OpenOptions { filename: owned("main.db") })
}

/// What running the editor's SQL does: nothing without an editor or when
/// the SQL is blank; otherwise the query's error and result are cleared and
/// the SQL is sent under the tag `query`.
pub open spec fn run_query_effect(s: AppStateView, sql: Option<Seq<char>>) -> (AppStateView, Option<
    RequestView,
>) {
    match sql {
        None => (s, None),
        Some(q) => if is_blank(q) {
            (s, None)
        } else {
            (
                AppStateView { query_error: None, query_columns: seq![], query_rows: seq![], ..s },
                Some(RequestView::Run { sql: q, tag: "query"@ }),
            )
        },
    }
}

/// Runs the SQL in the editor (`None` when there is no editor yet).
pub fn run_query(state: &mut AppState, sql: Option<String>) -> (req: Option<WorkerRequest>)
    ensures
        (final(state)@, opt_request_view(req)) == run_query_effect(
            old(state)@,
            sql.deep_view(),
        ),
{
    let sql = match sql {
        Some(q) => q,
        None => return None,
    };
    if trims_to_empty(sql.as_str()) {
        return None;
    }
    state.query_error = None;
    state.query_columns = Vec::new();
    state.query_rows = Vec::new();
    Some(WorkerRequest::Run(RunOptions { sql, tag: owned("query") }))
}

/// What choosing one of the bundled databases does to the page: its name
/// becomes the database's name and the tables and table on display are
/// cleared.
pub open spec fn select_embedded_effect(s: AppStateView, name: Seq<char>) -> AppStateView {
    AppStateView {
        db_filename: Some(name),
        tables: seq![],
        selected_table: None,
        table_columns: seq![],
        table_rows: seq![],
        ..s
    }
}

/// Chooses one of the bundled databases; returns the request that loads its
/// bytes into the worker.
pub fn select_embedded_db(state: &mut AppState, name: &str, data: Vec<u8>) -> (req: WorkerRequest)
    ensures
        final(state)@ == select_embedded_effect(old(state)@, name@),
        req@ == (RequestView::LoadDb { data: data@ }),
{
    state.db_filename = Some(owned(name));
    state.tables = Vec::new();
    state.selected_table = None;
    state.table_columns = Vec::new();
    state.table_rows = Vec::new();
    WorkerRequest::LoadDb(LoadDbOptions { data })
}

/// Records the name of a file that the user picked; its bytes are loaded
/// once they have been read.
pub fn choose_file(state: &mut AppState, filename: String)
    ensures
        final(state)@ == (AppStateView { db_filename: Some(filename@), ..old(state)@ }),
{
    state.db_filename = Some(filename);
}

/// The request that loads a database image into the worker.
pub fn load_db_request(data: Vec<u8>) -> (req: WorkerRequest)
    ensures
        req@ == (RequestView::LoadDb { data: data@ }),
{
    WorkerRequest::LoadDb(LoadDbOptions { data })
}

/// The request for the first 500 rows of a table, shown under its name.
pub fn table_data_request(table: &str) -> (req: WorkerRequest)
    ensures
        req@ == (RequestView::Run { sql: select_sql(table@, "500"@), tag: data_tag(table@) }),
{
    let sql = build_select_sql(table, "500");
    let tag = concat("data:", table);
    WorkerRequest::Run(RunOptions { sql, tag })
}

} // verus!
