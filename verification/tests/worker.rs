use data_explorer::import::ImportCheckError;
use data_explorer::protocol::{InnerError, OpenOptions, SQLitendError, WorkerError};
use data_explorer::worker::{download_outcome, import_outcome, run_outcome, uri, Worker};

fn image(len: usize, page: [u8; 2]) -> Vec<u8> {
    let mut v = vec![0u8; len];
    v[..16].copy_from_slice(b"SQLite format 3\0");
    v[16] = page[0];
    v[17] = page[1];
    v
}

fn opened_worker() -> Worker<u32> {
    let mut w = Worker::new();
    let r = w.finish_open(OpenOptions { filename: "main.db".to_string() }, Ok(7));
    assert!(r.is_ok());
    w
}

fn load_error_text(r: Result<data_explorer::worker::LoadPlan, WorkerError>) -> String {
    match r {
        Err(e) => e.message(),
        Ok(p) => panic!("unexpected plan {p:?}"),
    }
}

#[test]
fn uri_names_memvfs() {
    assert_eq!(uri("main.db"), "file:main.db?vfs=memvfs");
    assert_eq!(uri(""), "file:?vfs=memvfs");
}

#[test]
fn fresh_worker_is_not_opened() {
    let w: Worker<u32> = Worker::new();
    assert!(matches!(w.run_target(), Err(WorkerError::NotOpened)));
    assert!(matches!(w.download_target(), Err(WorkerError::NotOpened)));
    let mut w: Worker<u32> = Worker::new();
    assert!(matches!(w.begin_load(&image(1024, [4, 0])), Err(WorkerError::NotOpened)));
}

#[test]
fn open_then_run_uses_handle() {
    let w = opened_worker();
    assert_eq!(w.run_target().ok().copied(), Some(7));
    assert_eq!(w.download_target().unwrap(), "main.db");
}

#[test]
fn failed_open_keeps_worker() {
    let mut w = opened_worker();
    let r = w.finish_open(
        OpenOptions { filename: "other.db".to_string() },
        Err(SQLitendError::OpenDb(InnerError { code: 14, message: "cannot open".to_string() })),
    );
    assert!(matches!(r, Err(WorkerError::SQLite(SQLitendError::OpenDb(_)))));
    assert_eq!(w.run_target().ok().copied(), Some(7));
    assert_eq!(w.download_target().unwrap(), "main.db");

    let mut fresh: Worker<u32> = Worker::new();
    let r = fresh.finish_open(OpenOptions { filename: "x".to_string() }, Err(SQLitendError::ToCStr));
    assert!(r.is_err());
    assert!(matches!(fresh.run_target(), Err(WorkerError::NotOpened)));
}

#[test]
fn load_checks_image_first() {
    let mut w = opened_worker();
    assert_eq!(
        load_error_text(w.begin_load(&[0u8; 100])),
        "Failed to load db: Byte array size is invalid for an SQLite db."
    );
    assert_eq!(
        load_error_text(w.begin_load(&vec![0u8; 1000])),
        "Failed to load db: Byte array size is invalid for an SQLite db."
    );
    let mut bad = image(512, [2, 0]);
    bad[3] = b'X';
    assert_eq!(
        load_error_text(w.begin_load(&bad)),
        "Failed to load db: Input does not contain an SQLite database header."
    );
    // refused images leave the open handle alone
    assert_eq!(w.run_target().ok().copied(), Some(7));
    // an image check failure wins over a missing database
    let mut fresh: Worker<u32> = Worker::new();
    assert!(matches!(fresh.begin_load(&[1u8; 3]), Err(WorkerError::LoadDb(_))));
}

#[test]
fn load_plan_and_page_size() {
    let mut w = opened_worker();
    let plan = w.begin_load(&image(4096, [16, 0])).unwrap();
    assert_eq!(plan.filename, "main.db");
    assert_eq!(plan.page_size, 4096);
    assert!(matches!(w.run_target(), Err(WorkerError::InvalidState)));
    let uri_text = import_outcome(&plan.filename, Ok(())).unwrap();
    assert_eq!(uri_text, "file:main.db?vfs=memvfs");
    assert!(w.finish_load(Ok(9)).is_ok());
    assert_eq!(w.run_target().ok().copied(), Some(9));
    assert_eq!(w.download_target().unwrap(), "main.db");

    let plan = w.begin_load(&image(65536, [0, 1])).unwrap();
    assert_eq!(plan.page_size, 65536);
    // the page size is not validated by the check
    let plan = w.begin_load(&image(512, [3, 0])).unwrap();
    assert_eq!(plan.page_size, 768);
}

#[test]
fn failed_load_leaves_no_handle() {
    let mut w = opened_worker();
    w.begin_load(&image(512, [2, 0])).unwrap();
    let r = import_outcome("main.db", Err("out of memory".to_string()));
    assert_eq!(r.unwrap_err().message(), "Failed to load db: out of memory");
    assert!(matches!(w.run_target(), Err(WorkerError::InvalidState)));
    let r = w.finish_load(Err(SQLitendError::Utf8Text));
    assert!(matches!(r, Err(WorkerError::SQLite(SQLitendError::Utf8Text))));
    assert!(matches!(w.run_target(), Err(WorkerError::InvalidState)));
}

#[test]
fn run_and_download_outcomes() {
    let r = run_outcome("tag".to_string(), Ok(vec![])).unwrap();
    assert_eq!(r.tag, "tag");
    assert!(r.result.is_empty());
    let r = run_outcome("tag".to_string(), Err(SQLitendError::GetColumnName("c".to_string())));
    assert_eq!(
        r.unwrap_err().message(),
        "An error occurred while getting column name: c"
    );
    let d = download_outcome("main.db".to_string(), Ok(vec![1, 2])).unwrap();
    assert_eq!(d.filename, "main.db");
    assert_eq!(d.data, vec![1, 2]);
    let e = download_outcome("main.db".to_string(), Err("no such file".to_string())).unwrap_err();
    assert_eq!(e.message(), "Failed to download db: no such file");
}

#[test]
fn import_error_messages() {
    assert_eq!(
        ImportCheckError::InvalidPageSize.message(),
        "Page size must be a power of two between 512 and 65536 inclusive"
    );
    assert_eq!(
        ImportCheckError::InvalidHeader.message(),
        "Input does not contain an SQLite database header."
    );
}

#[test]
fn error_messages() {
    let inner = || InnerError { code: -3, message: "tab\there".to_string() };
    let pretty = format!("{:#?}", inner());
    assert_eq!(
        WorkerError::SQLite(SQLitendError::OpenDb(inner())).message(),
        format!("An error occurred while opening the DB: {pretty}")
    );
    assert_eq!(
        SQLitendError::Step(inner()).message(),
        format!("An error occurred while stepping to the next line: {pretty}")
    );
    assert_eq!(
        SQLitendError::ToCStr.message(),
        "An error occurred while converting a string to a CString"
    );
    assert_eq!(SQLitendError::Utf8Text.message(), "The text is not a utf8 string");
    assert_eq!(
        SQLitendError::UnsupportColumnType(-42).message(),
        "The column type is not support: -42"
    );
    assert_eq!(
        SQLitendError::UnsupportColumnType(5).message(),
        "The column type is not support: 5"
    );
    assert_eq!(
        SQLitendError::Prepare(inner()).describe("X"),
        "An error occurred while preparing stmt: X"
    );
    assert_eq!(SQLitendError::Utf8Text.describe("X"), "The text is not a utf8 string");
    assert_eq!(WorkerError::NotOpened.message(), "DB is not opened");
    assert_eq!(WorkerError::InvalidState.message(), "Execute sqlite with invalid state");
    assert_eq!(WorkerError::Unexpected.message(), "Unexpected error");
}
