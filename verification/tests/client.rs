use data_explorer::client::{
    choose_file, connect_db_request, handle_response, handle_run_result, load_db_request,
    run_query, select_embedded_db, table_data_request, ClientAction,
};
use data_explorer::protocol::{
    DownloadDbResponse, InnerError, SQLiteRunResult, SQLiteStatementResult, SQLiteStatementTable,
    SQLiteStatementValues, SQLitendError, WorkerError, WorkerRequest, WorkerResponse,
};
use data_explorer::state::{AppState, MainView};

fn s(x: &str) -> String {
    x.to_string()
}

fn strings(xs: &[&str]) -> Vec<String> {
    xs.iter().map(|x| x.to_string()).collect()
}

fn step(columns: &[&str], rows: &[&[&str]]) -> SQLiteStatementResult {
    SQLiteStatementResult::Step(SQLiteStatementTable {
        sql: s("SELECT 1"),
        values: Some(SQLiteStatementValues {
            columns: strings(columns),
            rows: rows.iter().map(|r| strings(r)).collect(),
        }),
    })
}

fn empty_step() -> SQLiteStatementResult {
    SQLiteStatementResult::Step(SQLiteStatementTable { sql: s("UPDATE t SET a = 1"), values: None })
}

fn run_result(tag: &str, result: Vec<SQLiteStatementResult>) -> SQLiteRunResult {
    SQLiteRunResult { tag: s(tag), result }
}

fn run_of(req: &WorkerRequest) -> (String, String) {
    match req {
        WorkerRequest::Run(o) => (o.sql.clone(), o.tag.clone()),
        other => panic!("not a run request: {other:?}"),
    }
}

fn loaded_state() -> AppState {
    let mut st = AppState::default();
    st.db_loaded = true;
    st.db_filename = Some(s("qa.sqlite"));
    st.tables = strings(&["a", "b"]);
    st.selected_table = Some(s("a"));
    st.table_columns = strings(&["x"]);
    st.table_rows = vec![strings(&["1"])];
    st
}

#[test]
fn default_state_is_empty() {
    let st = AppState::default();
    assert!(!st.db_loaded);
    assert_eq!(st.db_filename, None);
    assert!(st.tables.is_empty());
    assert_eq!(st.main_view, MainView::Browse);
    assert_eq!(MainView::default(), MainView::Browse);
    assert_eq!(st.error, None);
    assert_eq!(st.query_error, None);
}

#[test]
fn tables_result_lists_first_cells() {
    let mut st = loaded_state();
    let res = run_result(
        "tables",
        vec![
            SQLiteStatementResult::Finish,
            step(&["name"], &[&["albums"], &[], &["songs", "extra"]]),
            empty_step(),
            step(&["name"], &[&["v_top"]]),
        ],
    );
    let req = handle_run_result(&mut st, res);
    assert!(req.is_none());
    assert_eq!(st.tables, strings(&["albums", "songs", "v_top"]));
    assert!(st.table_columns.is_empty());
    assert!(st.table_rows.is_empty());
    assert_eq!(st.selected_table, Some(s("a")));
}

#[test]
fn data_result_selects_table() {
    let mut st = loaded_state();
    let res = run_result(
        "data:songs",
        vec![empty_step(), step(&["id", "title"], &[&["1", "Intro"]]), step(&["z"], &[&["9"]])],
    );
    assert!(handle_run_result(&mut st, res).is_none());
    assert_eq!(st.selected_table, Some(s("songs")));
    assert_eq!(st.table_columns, strings(&["id", "title"]));
    assert_eq!(st.table_rows, vec![strings(&["1", "Intro"])]);
    assert_eq!(st.tables, strings(&["a", "b"]));
}

#[test]
fn data_result_without_rows_shows_empty_table() {
    let mut st = loaded_state();
    let res = run_result("data:empty", vec![SQLiteStatementResult::Finish]);
    assert!(handle_run_result(&mut st, res).is_none());
    assert_eq!(st.selected_table, Some(s("empty")));
    assert!(st.table_columns.is_empty());
    assert!(st.table_rows.is_empty());
}

#[test]
fn query_result_fills_query_grid() {
    let mut st = loaded_state();
    st.query_error = Some(s("old"));
    let res = run_result("query", vec![step(&["n"], &[&["3"]])]);
    assert!(handle_run_result(&mut st, res).is_none());
    assert_eq!(st.query_error, None);
    assert_eq!(st.query_columns, strings(&["n"]));
    assert_eq!(st.query_rows, vec![strings(&["3"])]);

    let res = run_result("query", vec![empty_step()]);
    assert!(handle_run_result(&mut st, res).is_none());
    assert!(st.query_columns.is_empty());
    assert!(st.query_rows.is_empty());
}

#[test]
fn insert_result_asks_for_rows_again() {
    let mut st = loaded_state();
    let req = handle_run_result(&mut st, run_result("insert:songs", vec![])).unwrap();
    assert_eq!(
        run_of(&req),
        (s("SELECT * FROM \"songs\" LIMIT 1000"), s("data:songs"))
    );
    assert_eq!(st.tables, strings(&["a", "b"]));
    assert_eq!(st.selected_table, Some(s("a")));
}

#[test]
fn unknown_tag_changes_nothing() {
    let mut st = loaded_state();
    let req = handle_run_result(&mut st, run_result("other", vec![step(&["q"], &[&["1"]])]));
    assert!(req.is_none());
    assert_eq!(st.tables, strings(&["a", "b"]));
    assert_eq!(st.table_columns, strings(&["x"]));
    assert!(st.query_columns.is_empty());
}

#[test]
fn data_round_trip_law() {
    let mut st = loaded_state();
    let req = table_data_request("t:1");
    let (sql, tag) = run_of(&req);
    assert_eq!(sql, "SELECT * FROM \"t:1\" LIMIT 500");
    assert_eq!(tag, "data:t:1");
    handle_run_result(&mut st, run_result(&tag, vec![step(&["c"], &[&["v"]])]));
    assert_eq!(st.selected_table, Some(s("t:1")));
    assert_eq!(st.table_columns, strings(&["c"]));
}

#[test]
fn insert_then_data_round_trip() {
    let mut st = loaded_state();
    let req = handle_run_result(&mut st, run_result("insert:songs", vec![])).unwrap();
    let (_, tag) = run_of(&req);
    handle_run_result(&mut st, run_result(&tag, vec![step(&["id"], &[&["7"]])]));
    assert_eq!(st.selected_table, Some(s("songs")));
    assert_eq!(st.table_rows, vec![strings(&["7"])]);
}

#[test]
fn load_ok_marks_loaded_and_lists_tables() {
    let mut st = AppState::default();
    st.error = Some(s("earlier failure"));
    let action = handle_response(&mut st, WorkerResponse::LoadDb(Ok(()))).unwrap();
    assert!(st.db_loaded);
    assert_eq!(st.error, None);
    let req = match action {
        ClientAction::Send(r) => r,
        other => panic!("unexpected {other:?}"),
    };
    let (sql, tag) = run_of(&req);
    assert_eq!(
        sql,
        "SELECT name FROM sqlite_master WHERE type='table' OR type='view' ORDER BY name"
    );
    assert_eq!(tag, "tables");
    let reply = run_result(&tag, vec![step(&["name"], &[&["t1"], &["t2"]])]);
    assert!(handle_response(&mut st, WorkerResponse::Run(Ok(reply))).is_none());
    assert_eq!(st.tables, strings(&["t1", "t2"]));
}

#[test]
fn run_ok_clears_query_error_for_every_tag() {
    let mut st = loaded_state();
    st.query_error = Some(s("bad sql"));
    let reply = run_result("data:b", vec![]);
    assert!(handle_response(&mut st, WorkerResponse::Run(Ok(reply))).is_none());
    assert_eq!(st.query_error, None);
    assert_eq!(st.selected_table, Some(s("b")));
}

#[test]
fn run_ok_insert_sends_follow_up() {
    let mut st = loaded_state();
    let reply = run_result("insert:a", vec![]);
    match handle_response(&mut st, WorkerResponse::Run(Ok(reply))) {
        Some(ClientAction::Send(req)) => {
            assert_eq!(run_of(&req).1, "data:a");
        }
        other => panic!("unexpected {other:?}"),
    }
}

#[test]
fn failures_show_messages() {
    let mut st = loaded_state();
    assert!(handle_response(&mut st, WorkerResponse::Open(Err(WorkerError::NotOpened))).is_none());
    assert_eq!(st.error, Some(s("DB is not opened")));
    assert!(handle_response(
        &mut st,
        WorkerResponse::LoadDb(Err(WorkerError::LoadDb(s("bad image"))))
    )
    .is_none());
    assert_eq!(st.error, Some(s("Failed to load db: bad image")));
    assert!(handle_response(
        &mut st,
        WorkerResponse::DownloadDb(Err(WorkerError::DownloadDb(s("missing"))))
    )
    .is_none());
    assert_eq!(st.error, Some(s("Failed to download db: missing")));
    assert!(handle_response(&mut st, WorkerResponse::Run(Err(WorkerError::InvalidState))).is_none());
    assert_eq!(st.query_error, Some(s("Execute sqlite with invalid state")));
    // the data on the page stays
    assert_eq!(st.tables, strings(&["a", "b"]));
    assert_eq!(st.table_rows, vec![strings(&["1"])]);
    assert!(st.db_loaded);
}

#[test]
fn open_ok_changes_nothing() {
    let mut st = loaded_state();
    assert!(handle_response(&mut st, WorkerResponse::Open(Ok(()))).is_none());
    assert_eq!(st.error, None);
    assert_eq!(st.tables, strings(&["a", "b"]));
}

#[test]
fn sqlite_error_message_is_shown() {
    let mut st = loaded_state();
    let err = WorkerError::SQLite(SQLitendError::Prepare(InnerError { code: 1, message: s("near \"x\"") }));
    handle_response(&mut st, WorkerResponse::Run(Err(err)));
    let expected = format!(
        "An error occurred while preparing stmt: {:#?}",
        InnerError { code: 1, message: s("near \"x\"") }
    );
    assert_eq!(st.query_error, Some(expected));
}

#[test]
fn download_ok_is_offered() {
    let mut st = loaded_state();
    let resp = DownloadDbResponse { filename: s("main.db"), data: vec![1, 2, 3] };
    match handle_response(&mut st, WorkerResponse::DownloadDb(Ok(resp))) {
        Some(ClientAction::Download(d)) => {
            assert_eq!(d.filename, "main.db");
            assert_eq!(d.data, vec![1, 2, 3]);
        }
        other => panic!("unexpected {other:?}"),
    }
    assert_eq!(st.error, None);
}

#[test]
fn run_query_sends_non_blank_sql() {
    let mut st = loaded_state();
    st.query_error = Some(s("e"));
    st.query_columns = strings(&["old"]);
    st.query_rows = vec![strings(&["1"])];
    let req = run_query(&mut st, Some(s("SELECT 1;"))).unwrap();
    assert_eq!(run_of(&req), (s("SELECT 1;"), s("query")));
    assert_eq!(st.query_error, None);
    assert!(st.query_columns.is_empty());
    assert!(st.query_rows.is_empty());
}

#[test]
fn run_query_ignores_blank_sql() {
    let mut st = loaded_state();
    st.query_error = Some(s("e"));
    assert!(run_query(&mut st, Some(s(" \t\n\u{3000}\u{a0}"))).is_none());
    assert!(run_query(&mut st, Some(s(""))).is_none());
    assert!(run_query(&mut st, None).is_none());
    assert_eq!(st.query_error, Some(s("e")));
    // a non-whitespace character makes it a query
    assert!(run_query(&mut st, Some(s(" \u{200b} "))).is_some());
}

#[test]
fn query_round_trip_law() {
    let mut st = loaded_state();
    let req = run_query(&mut st, Some(s("SELECT 2"))).unwrap();
    let (_, tag) = run_of(&req);
    let reply = run_result(&tag, vec![step(&["2"], &[&["2"]])]);
    handle_response(&mut st, WorkerResponse::Run(Ok(reply)));
    assert_eq!(st.query_columns, strings(&["2"]));
    assert_eq!(st.query_rows, vec![strings(&["2"])]);
    assert_eq!(st.table_columns, strings(&["x"]));
}

#[test]
fn select_embedded_db_resets_tables() {
    let mut st = loaded_state();
    let req = select_embedded_db(&mut st, "qa.sqlite", vec![9, 8]);
    assert_eq!(st.db_filename, Some(s("qa.sqlite")));
    assert!(st.tables.is_empty());
    assert_eq!(st.selected_table, None);
    assert!(st.table_columns.is_empty());
    assert!(st.table_rows.is_empty());
    assert!(st.db_loaded);
    match req {
        WorkerRequest::LoadDb(o) => assert_eq!(o.data, vec![9, 8]),
        other => panic!("unexpected {other:?}"),
    }
}

#[test]
fn other_requests() {
    match connect_db_request() {
        WorkerRequest::Open(o) => assert_eq!(o.filename, "main.db"),
        other => panic!("unexpected {other:?}"),
    }
    match load_db_request(vec![4]) {
        WorkerRequest::LoadDb(o) => assert_eq!(o.data, vec![4]),
        other => panic!("unexpected {other:?}"),
    }
    let mut st = AppState::default();
    choose_file(&mut st, s("mine.db"));
    assert_eq!(st.db_filename, Some(s("mine.db")));
}
