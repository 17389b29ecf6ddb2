//! The quick sanity check applied to a database image before it is imported
//! into the worker's in-memory file system.
use vstd::prelude::*;

verus! {

/// Why an image was refused by the import check.
#[derive(Clone, Copy, Debug, PartialEq, Eq, Structural)]
pub enum ImportCheckError {
    InvalidDbSize,
    InvalidHeader,
    InvalidPageSize,
}

/// The bytes of `"SQLite format 3"`, which every database file begins with.
pub open spec fn sqlite_magic() -> Seq<u8> {
    seq![83u8, 81u8, 76u8, 105u8, 116u8, 101u8, 32u8, 102u8, 111u8, 114u8, 109u8, 97u8, 116u8, 32u8, 51u8]
}

/// The page size that the header announces: the big-endian 16-bit number at
/// offset 16, where the value 1 stands for 65536.
pub open spec fn announced_page_size(bytes: Seq<u8>) -> int {
    let raw = bytes[16] as int * 256 + bytes[17] as int;
    if raw == 1 { 65536 } else { raw }
}

/// What the import check answers for an image: a size that is not a positive
/// multiple of 512 is refused first, then a missing header; otherwise the
/// announced page size is returned (it is not validated here).
pub open spec fn import_check(bytes: Seq<u8>) -> Result<usize, ImportCheckError> {
    if bytes.len() < 512 || bytes.len() % 512 != 0 {
        Err(ImportCheckError::InvalidDbSize)
    } else if bytes.subrange(0, 15) != sqlite_magic() {
        Err(ImportCheckError::InvalidHeader)
    } else {
        Ok(announced_page_size(bytes) as usize)
    }
}

/// Calls `rsqlite_vfs::check_import_db` (re-exported by sqlite-wasm-rs as
/// `utils::check_import_db`). Its source refuses a length under 512 or not a
/// multiple of 512, then bytes that do not start with `"SQLite format 3"`,
/// and otherwise returns the big-endian `u16` at offsets 16..18, with 1 read
/// as 65536. The contract states exactly that, through `import_check`.
#[verifier::external_body]
pub(crate) fn check_import_db(bytes: &[u8]) -> (r: Result<usize, ImportCheckError>)
    ensures
        r == import_check(bytes@),
{
    match rsqlite_vfs::check_import_db(bytes) {
        Ok(page_size) => Ok(page_size),
        Err(rsqlite_vfs::ImportDbError::InvalidDbSize) => Err(ImportCheckError::InvalidDbSize),
        Err(rsqlite_vfs::ImportDbError::InvalidHeader) => Err(ImportCheckError::InvalidHeader),
        Err(rsqlite_vfs::ImportDbError::InvalidPageSize) => Err(ImportCheckError::InvalidPageSize),
    }
}

/// The text that the check's error displays.
pub open spec fn import_error_text(e: ImportCheckError) -> Seq<char> {
    match e {
        ImportCheckError::InvalidDbSize => "Byte array size is invalid for an SQLite db."@,
        ImportCheckError::InvalidHeader => "Input does not contain an SQLite database header."@,
        ImportCheckError::InvalidPageSize => "Page size must be a power of two between 512 and 65536 inclusive"@,
    }
}

impl ImportCheckError {
    /// The error's message.
    pub fn message(&self) -> (text: String)
        ensures
            text@ == import_error_text(*self),
    {
        match self {
            ImportCheckError::InvalidDbSize => String::from_str("Byte array size is invalid for an SQLite db."),
            ImportCheckError::InvalidHeader => String::from_str("Input does not contain an SQLite database header."),
            ImportCheckError::InvalidPageSize => String::from_str(
                "Page size must be a power of two between 512 and 65536 inclusive",
            ),
        }
    }
}

} // verus!
