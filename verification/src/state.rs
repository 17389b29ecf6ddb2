//! The page's state: the loaded database, its tables, the table on display
//! and the last query's result.
use vstd::prelude::*;

verus! {

/// Which of the two panels the page shows.
#[derive(Clone, Copy, PartialEq, Eq, Debug, Structural)]
pub enum MainView {
    Browse,
    Query,
}

impl Default for MainView {
    fn default() -> (v: Self)
        ensures
            v == MainView::Browse,
    {
        MainView::Browse
    }
}

/// Everything the page shows.
#[derive(Debug)]
pub struct AppState {
    pub db_loaded: bool,
    pub db_filename: Option<String>,
    pub tables: Vec<String>,
    pub selected_table: Option<String>,
    pub table_columns: Vec<String>,
    pub table_rows: Vec<Vec<String>>,
    pub query_columns: Vec<String>,
    pub query_rows: Vec<Vec<String>>,
    pub query_error: Option<String>,
    pub main_view: MainView,
    pub error: Option<String>,
}

/// The page state with every text as a character sequence.
#[verifier::ext_equal]
pub struct AppStateView {
    pub db_loaded: bool,
    pub db_filename: Option<Seq<char>>,
    pub tables: Seq<Seq<char>>,
    pub selected_table: Option<Seq<char>>,
    pub table_columns: Seq<Seq<char>>,
    pub table_rows: Seq<Seq<Seq<char>>>,
    pub query_columns: Seq<Seq<char>>,
    pub query_rows: Seq<Seq<Seq<char>>>,
    pub query_error: Option<Seq<char>>,
    pub main_view: MainView,
    pub error: Option<Seq<char>>,
}

impl View for AppState {
    type V = AppStateView;

    open spec fn view(&self) -> AppStateView {
        AppStateView {
            db_loaded: self.db_loaded,
            db_filename: self.db_filename.deep_view(),
            tables: self.tables.deep_view(),
            selected_table: self.selected_table.deep_view(),
            table_columns: self.table_columns.deep_view(),
            table_rows: self.table_rows.deep_view(),
            query_columns: self.query_columns.deep_view(),
            query_rows: self.query_rows.deep_view(),
            query_error: self.query_error.deep_view(),
            main_view: self.main_view,
            error: self.error.deep_view(),
        }
    }
}

/// The state of a page that has just started: nothing loaded, the browse
/// panel shown.
pub open spec fn initial_state() -> AppStateView {
    AppStateView {
        db_loaded: false,
        db_filename: None,
        tables: seq![],
        selected_table: None,
        table_columns: seq![],
        table_rows: seq![],
        query_columns: seq![],
        query_rows: seq![],
        query_error: None,
        main_view: MainView::Browse,
        error: None,
    }
}

impl Default for AppState {
    fn default() -> (s: Self)
        ensures
            s@ == initial_state(),
    {
        AppState {
            db_loaded: false,
            db_filename: None,
            tables: Vec::new(),
            selected_table: None,
            table_columns: Vec::new(),
            table_rows: Vec::new(),
            query_columns: Vec::new(),
            query_rows: Vec::new(),
            query_error: None,
            main_view: MainView::Browse,
            error: None,
        }
    }
}

} // verus!
