//! Verified core of a browser SQLite explorer: the messages exchanged between
//! the page and its database worker, the page state and how each worker reply
//! changes it, the worker's own bookkeeping, and the small pieces of text that
//! both sides build.
pub mod text;
pub mod import;
pub mod protocol;
pub mod state;
pub mod client;
pub mod worker;
pub mod view;
pub mod embedded;
pub mod laws;
