//! The messages that the page and the database worker exchange, and the
//! text with which each worker error is shown.
use vstd::prelude::*;
use crate::text::{concat, i32_text, int_decimal};

verus! {

/// A code and message reported by SQLite.
#[derive(Debug)]
pub struct InnerError {
    pub code: i32,
    pub message: String,
}

/// Failures of the SQLite layer.
#[derive(Debug)]
pub enum SQLitendError {
    ToCStr,
    OpenDb(InnerError),
    Prepare(InnerError),
    Step(InnerError),
    GetColumnName(String),
    Utf8Text,
    UnsupportColumnType(i32),
}

/// Failures that the worker reports for a request.
#[derive(Debug)]
pub enum WorkerError {
    SQLite(SQLitendError),
    NotOpened,
    InvalidState,
    LoadDb(String),
    DownloadDb(String),
    Unexpected,
}

/// The database file that the worker exported.
#[derive(Debug)]
pub struct DownloadDbResponse {
    pub filename: String,
    pub data: Vec<u8>,
}

/// Which database file the worker opens.
#[derive(Debug)]
pub struct OpenOptions {
    pub filename: String,
}

/// A database image to load in place of the open one.
#[derive(Debug)]
pub struct LoadDbOptions {
    pub data: Vec<u8>,
}

/// SQL to run, and the tag under which its result comes back.
#[derive(Debug)]
pub struct RunOptions {
    pub sql: String,
    pub tag: String,
}

/// A request from the page to the worker.
#[derive(Debug)]
pub enum WorkerRequest {
    Open(OpenOptions),
    Run(RunOptions),
    LoadDb(LoadDbOptions),
    DownloadDb,
}

/// The result of running a batch of statements.
#[derive(Debug)]
pub struct SQLiteRunResult {
    pub tag: String,
    pub result: Vec<SQLiteStatementResult>,
}

/// What one statement produced.
#[derive(Clone, Debug)]
pub enum SQLiteStatementResult {
    Finish,
    Step(SQLiteStatementTable),
}

/// A statement and the rows it returned, if any.
#[derive(Clone, Debug)]
pub struct SQLiteStatementTable {
    pub sql: String,
    pub values: Option<SQLiteStatementValues>,
}

/// Column names and rows of cells, all as text.
#[derive(Clone, Debug)]
pub struct SQLiteStatementValues {
    pub columns: Vec<String>,
    pub rows: Vec<Vec<String>>,
}

/// A reply of the worker; `Ready` announces that it has started.
#[derive(Debug)]
pub enum WorkerResponse {
    Ready,
    Open(Result<(), WorkerError>),
    Run(Result<SQLiteRunResult, WorkerError>),
    LoadDb(Result<(), WorkerError>),
    DownloadDb(Result<DownloadDbResponse, WorkerError>),
}

// ---------------------------------------------------------------------------
// Mathematical views
// ---------------------------------------------------------------------------

/// Columns and rows as character sequences.
#[verifier::ext_equal]
pub struct ValuesView {
    pub columns: Seq<Seq<char>>,
    pub rows: Seq<Seq<Seq<char>>>,
}

/// One statement's result.
#[verifier::ext_equal]
pub enum StatementView {
    Finish,
    Step { sql: Seq<char>, values: Option<ValuesView> },
}

/// A run result: its tag and the statements' results in order.
#[verifier::ext_equal]
pub struct RunResultView {
    pub tag: Seq<char>,
    pub result: Seq<StatementView>,
}

/// A request.
#[verifier::ext_equal]
pub enum RequestView {
    Open { filename: Seq<char> },
    Run { sql: Seq<char>, tag: Seq<char> },
    LoadDb { data: Seq<u8> },
    DownloadDb,
}

impl View for SQLiteStatementValues {
    type V = ValuesView;

    open spec fn view(&self) -> ValuesView {
        ValuesView { columns: self.columns.deep_view(), rows: self.rows.deep_view() }
    }
}

impl View for SQLiteStatementResult {
    type V = StatementView;

    open spec fn view(&self) -> StatementView {
        match self {
            SQLiteStatementResult::Finish => StatementView::Finish,
            SQLiteStatementResult::Step(t) => StatementView::Step {
                sql: t.sql@,
                values: match t.values {
                    Some(v) => Some(v@),
                    None => None,
                },
            },
        }
    }
}

impl View for SQLiteRunResult {
    type V = RunResultView;

    open spec fn view(&self) -> RunResultView {
        RunResultView {
            tag: self.tag@,
            result: self.result@.map_values(|r: SQLiteStatementResult| r@),
        }
    }
}

impl View for WorkerRequest {
    type V = RequestView;

    open spec fn view(&self) -> RequestView {
        match self {
            WorkerRequest::Open(o) => RequestView::Open { filename: o.filename@ },
            WorkerRequest::Run(r) => RequestView::Run { sql: r.sql@, tag: r.tag@ },
            WorkerRequest::LoadDb(l) => RequestView::LoadDb { data: l.data@ },
            WorkerRequest::DownloadDb => RequestView::DownloadDb,
        }
    }
}

// ---------------------------------------------------------------------------
// Error text
// ---------------------------------------------------------------------------

/// What `{:#?}` prints for an `InnerError` with these fields: the text of
/// std's pretty `Debug` output for the derived impl, whose exact layout std
/// does not promise.
pub uninterp spec fn inner_error_pretty(code: int, message: Seq<char>) -> Seq<char>;

/// Formats an `InnerError` with `format!("{:#?}", ..)`, that is with the
/// `Debug` impl that std's derive wrote and std's pretty formatter. The
/// contract only names the result as a function of the two fields; the
/// layout itself is left unsaid because std does not promise it.
#[verifier::external_body]
pub(crate) fn inner_error_pretty_text(e: &InnerError) -> (s: String)
    ensures
        s@ == inner_error_pretty(e.code as int, e.message@),
{
    format!("{:#?}", e)
}

/// The text shown for a failure of the SQLite layer, given the rendering
/// `detail` of the SQLite code and message that it carries (if it carries
/// one; otherwise `detail` is not used).
pub open spec fn sqlite_error_text_with(e: SQLitendError, detail: Seq<char>) -> Seq<char> {
    match e {
        SQLitendError::ToCStr => "An error occurred while converting a string to a CString"@,
        SQLitendError::OpenDb(_) => "An error occurred while opening the DB: "@ + detail,
        SQLitendError::Prepare(_) => "An error occurred while preparing stmt: "@ + detail,
        SQLitendError::Step(_) => "An error occurred while stepping to the next line: "@ + detail,
        SQLitendError::GetColumnName(s) => "An error occurred while getting column name: "@ + s@,
        SQLitendError::Utf8Text => "The text is not a utf8 string"@,
        SQLitendError::UnsupportColumnType(t) => "The column type is not support: "@ + int_decimal(
            t as int,
        ),
    }
}

/// How the SQLite code and message carried by an error are rendered: with
/// `{:#?}`. Errors that carry none render nothing.
pub open spec fn sqlite_error_detail(e: SQLitendError) -> Seq<char> {
    match e {
        SQLitendError::OpenDb(i) => inner_error_pretty(i.code as int, i.message@),
        SQLitendError::Prepare(i) => inner_error_pretty(i.code as int, i.message@),
        SQLitendError::Step(i) => inner_error_pretty(i.code as int, i.message@),
        _ => Seq::empty(),
    }
}

/// The text shown for a failure of the SQLite layer.
pub open spec fn sqlite_error_text(e: SQLitendError) -> Seq<char> {
    sqlite_error_text_with(e, sqlite_error_detail(e))
}

/// The text shown for a worker error.
pub open spec fn worker_error_text(e: WorkerError) -> Seq<char> {
    match e {
        WorkerError::SQLite(s) => sqlite_error_text(s),
        WorkerError::NotOpened => "DB is not opened"@,
        WorkerError::InvalidState => "Execute sqlite with invalid state"@,
        WorkerError::LoadDb(m) => "Failed to load db: "@ + m@,
        WorkerError::DownloadDb(m) => "Failed to download db: "@ + m@,
        WorkerError::Unexpected => "Unexpected error"@,
    }
}

impl SQLitendError {
    /// The error's message, given the rendering `detail` of the SQLite code
    /// and message that it carries (not used when it carries none).
    pub fn describe(&self, detail: &str) -> (text: String)
        ensures
            text@ == sqlite_error_text_with(*self, detail@),
    {
        match self {
            SQLitendError::ToCStr => String::from_str(
                "An error occurred while converting a string to a CString",
            ),
            SQLitendError::OpenDb(_) => concat("An error occurred while opening the DB: ", detail),
            SQLitendError::Prepare(_) => concat("An error occurred while preparing stmt: ", detail),
            SQLitendError::Step(_) => concat(
                "An error occurred while stepping to the next line: ",
                detail,
            ),
            SQLitendError::GetColumnName(s) => concat(
                "An error occurred while getting column name: ",
                s.as_str(),
            ),
            SQLitendError::Utf8Text => String::from_str("The text is not a utf8 string"),
            SQLitendError::UnsupportColumnType(t) => {
                let d = i32_text(*t);
                concat("The column type is not support: ", d.as_str())
            },
        }
    }

    /// The error's message.
    pub fn message(&self) -> (text: String)
        ensures
            text@ == sqlite_error_text(*self),
    {
        let detail = match self {
            SQLitendError::OpenDb(i) => inner_error_pretty_text(i),
            SQLitendError::Prepare(i) => inner_error_pretty_text(i),
            SQLitendError::Step(i) => inner_error_pretty_text(i),
            _ => String::new(),
        };
        self.describe(detail.as_str())
    }
}

impl WorkerError {
    /// The error's message, as the page shows it.
    pub fn message(&self) -> (text: String)
        ensures
            text@ == worker_error_text(*self),
    {
        match self {
            WorkerError::SQLite(s) => s.message(),
            WorkerError::NotOpened => String::from_str("DB is not opened"),
            WorkerError::InvalidState => String::from_str("Execute sqlite with invalid state"),
            WorkerError::LoadDb(m) => concat("Failed to load db: ", m.as_str()),
            WorkerError::DownloadDb(m) => concat("Failed to download db: ", m.as_str()),
            WorkerError::Unexpected => String::from_str("Unexpected error"),
        }
    }
}

} // verus!
