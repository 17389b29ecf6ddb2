//! The database worker's bookkeeping: which file it opened, whether a
//! database handle is open, and how the outcome of each SQLite or file
//! system step becomes the reply to a request.
//!
//! The handle type `D` is whatever the SQLite binding hands out; the steps
//! that touch SQLite or the in-memory file system are performed by the
//! caller between the calls below, which decide everything else.
use vstd::prelude::*;
use crate::import::{check_import_db, import_check, import_error_text};
use crate::protocol::{
    DownloadDbResponse, OpenOptions, SQLiteRunResult, SQLiteStatementResult, SQLitendError,
    WorkerError,
};
use crate::text::concat3;

verus! {

/// Name of the in-memory file system that holds the worker's databases.
pub const MEM_VFS_NAME: &'static str = "memvfs";

/// The URI under which SQLite opens `filename` in the in-memory file system.
pub open spec fn uri_text(filename: Seq<char>) -> Seq<char> {
    "file:"@ + filename + "?vfs="@ + MEM_VFS_NAME@
}

/// The URI under which SQLite opens `filename` in the in-memory file system.
pub fn uri(filename: &str) -> (u: String)
    ensures
        u@ == uri_text(filename@),
{
    let mut u = concat3("file:", filename, "?vfs=");
    u.append(MEM_VFS_NAME);
    u
}

/// An opened database file: the options it was opened with and the handle,
/// absent while a new image is being loaded or after a load failed.
pub struct SQLiteWorker<D> {
    pub open_options: OpenOptions,
    pub db: Option<D>,
}

/// The worker's state: nothing until a database has been opened.
pub struct Worker<D> {
    pub session: Option<SQLiteWorker<D>>,
}

/// What a request that needs the open database gets from a worker: the
/// handle, or why there is none.
pub open spec fn run_access<D>(w: Worker<D>) -> Result<D, WorkerError> {
    match w.session {
        None => Err(WorkerError::NotOpened),
        Some(s) => match s.db {
            None => Err(WorkerError::InvalidState),
            Some(d) => Ok(d),
        },
    }
}

/// The worker after a successful open with `options`.
pub open spec fn opened<D>(options: OpenOptions, db: D) -> Worker<D> {
    Worker { session: Some(SQLiteWorker { open_options: options, db: Some(db) }) }
}

/// A plan for loading an image: the file to replace and the page size that
/// the image's header announces.
#[derive(Debug)]
pub struct LoadPlan {
    pub filename: String,
    pub page_size: usize,
}

impl<D> Worker<D> {
    /// A worker that has opened nothing.
    pub fn new() -> (w: Self)
        ensures
            w.session is None,
    {
        Worker { session: None }
    }

    /// Takes the outcome of opening `options.filename` (at
    /// `uri(&options.filename)`): on success the worker holds that file and
    /// its handle and replies `Ok`; on failure it is unchanged and replies
    /// with the SQLite error.
    pub fn finish_open(&mut self, options: OpenOptions, outcome: Result<D, SQLitendError>) -> (r:
        Result<(), WorkerError>)
        ensures
            match outcome {
                Ok(db) => r is Ok && *final(self) == opened(options, db),
                Err(e) => r == Err::<(), WorkerError>(WorkerError::SQLite(e)) && *final(self)
                    == *old(self),
            },
    {
        match outcome {
            Ok(db) => {
                self.session = Some(SQLiteWorker { open_options: options, db: Some(db) });
                Ok(())
            },
            Err(e) => Err(WorkerError::SQLite(e)),
        }
    }

    /// The handle that a run request uses, or the reply when there is none:
    /// `NotOpened` before any open, `InvalidState` while no handle is open.
    pub fn run_target(&self) -> (r: Result<&D, WorkerError>)
        ensures
            match r {
                Ok(d) => run_access(*self) == Ok::<D, WorkerError>(*d),
                Err(e) => run_access(*self) == Err::<D, WorkerError>(e),
            },
    {
        match &self.session {
            None => Err(WorkerError::NotOpened),
            Some(s) => match &s.db {
                None => Err(WorkerError::InvalidState),
                Some(d) => Ok(d),
            },
        }
    }

    /// First step of loading an image. An image that fails the import check
    /// is refused with `LoadDb` and the check's message, before anything
    /// else; then a worker that opened nothing replies `NotOpened`.
    /// Otherwise the open handle is dropped, and the plan names the opened
    /// file and the image's page size; the caller then deletes that file,
    /// imports the image under its name, and hands the outcome to
    /// `import_outcome`.
    pub fn begin_load(&mut self, data: &[u8]) -> (r: Result<LoadPlan, WorkerError>)
        ensures
            match import_check(data@) {
                Err(e) => *final(self) == *old(self) && (r matches Err(WorkerError::LoadDb(m)) && m@
                    == import_error_text(e)),
                Ok(page_size) => match old(self).session {
                    None => *final(self) == *old(self) && r == Err::<LoadPlan, WorkerError>(
                        WorkerError::NotOpened,
                    ),
                    Some(s) => *final(self) == (Worker {
                        session: Some(SQLiteWorker::<D> { open_options: s.open_options, db: None }),
                    }) && (r matches Ok(plan) && plan.filename@ == s.open_options.filename@
                        && plan.page_size == page_size),
                },
            },
    {
        let page_size = match check_import_db(data) {
            Ok(p) => p,
            Err(e) => return Err(WorkerError::LoadDb(e.message())),
        };
        match self.session.take() {
            None => Err(WorkerError::NotOpened),
            Some(s) => {
                let filename = s.open_options.filename.clone();
                self.session = Some(SQLiteWorker { open_options: s.open_options, db: None });
                Ok(LoadPlan { filename, page_size })
            },
        }
    }

    /// Last step of loading an image: takes the outcome of opening the
    /// imported file. On success the new handle becomes the open one and the
    /// reply is `Ok`; on failure no handle stays open and the reply is the
    /// SQLite error.
    pub fn finish_load(&mut self, outcome: Result<D, SQLitendError>) -> (r: Result<(), WorkerError>)
        ensures
            match outcome {
                Ok(db) => r is Ok && *final(self) == (match old(self).session {
                    None => *old(self),
                    Some(s) => Worker {
                        session: Some(SQLiteWorker { open_options: s.open_options, db: Some(db) }),
                    },
                }),
                Err(e) => r == Err::<(), WorkerError>(WorkerError::SQLite(e)) && *final(self)
                    == *old(self),
            },
    {
        match outcome {
            Ok(db) => {
                match self.session.take() {
                    None => {},
                    Some(s) => {
                        self.session = Some(SQLiteWorker { open_options: s.open_options, db: Some(db) });
                    },
                }
                Ok(())
            },
            Err(e) => Err(WorkerError::SQLite(e)),
        }
    }

    /// The file that a download request exports, or `NotOpened`.
    pub fn download_target(&self) -> (r: Result<String, WorkerError>)
        ensures
            match self.session {
                None => r == Err::<String, WorkerError>(WorkerError::NotOpened),
                Some(s) => r matches Ok(f) && f@ == s.open_options.filename@,
            },
    {
        match &self.session {
            None => Err(WorkerError::NotOpened),
            Some(s) => Ok(s.open_options.filename.clone()),
        }
    }
}

/// Middle step of loading an image: takes the outcome of importing it (the
/// import's error as text). A failed import is replied to with `LoadDb` and
/// that text; otherwise the imported file is to be opened at the returned URI.
pub fn import_outcome(filename: &str, outcome: Result<(), String>) -> (r: Result<String, WorkerError>)
    ensures
        match outcome {
            Ok(()) => r matches Ok(u) && u@ == uri_text(filename@),
            Err(m) => r == Err::<String, WorkerError>(WorkerError::LoadDb(m)),
        },
{
    match outcome {
        Ok(()) => Ok(uri(filename)),
        Err(m) => Err(WorkerError::LoadDb(m)),
    }
}

/// The reply to a run request, from the outcome of preparing and stepping
/// its statements: the results under the request's tag, or the SQLite error.
pub fn run_outcome(tag: String, outcome: Result<Vec<SQLiteStatementResult>, SQLitendError>) -> (r:
    Result<SQLiteRunResult, WorkerError>)
    ensures
        match outcome {
            Ok(v) => r matches Ok(res) && res.tag == tag && res.result == v,
            Err(e) => r == Err::<SQLiteRunResult, WorkerError>(WorkerError::SQLite(e)),
        },
{
    match outcome {
        Ok(result) => Ok(SQLiteRunResult { tag, result }),
        Err(e) => Err(WorkerError::SQLite(e)),
    }
}

/// The reply to a download request, from the outcome of exporting `filename`
/// (the export's error as text): the file's name and bytes, or `DownloadDb`
/// with that text.
pub fn download_outcome(filename: String, outcome: Result<Vec<u8>, String>) -> (r: Result<
    DownloadDbResponse,
    WorkerError,
>)
    ensures
        match outcome {
            Ok(data) => r matches Ok(d) && d.filename == filename && d.data == data,
            Err(m) => r == Err::<DownloadDbResponse, WorkerError>(WorkerError::DownloadDb(m)),
        },
{
    match outcome {
        Ok(data) => Ok(DownloadDbResponse { filename, data }),
        Err(m) => Err(WorkerError::DownloadDb(m)),
    }
}

} // verus!
