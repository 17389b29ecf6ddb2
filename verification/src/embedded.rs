//! The databases that ship with the page.
use vstd::prelude::*;
use crate::client::{select_embedded_db, select_embedded_effect};
use crate::protocol::{RequestView, WorkerRequest};
use crate::state::AppState;

verus! {

/// A bundled database: its file name and bytes.
pub struct EmbeddedDb {
    pub name: &'static str,
    pub data: &'static [u8],
}

impl EmbeddedDb {
    /// Chooses this database: the page forgets the previous one's tables and
    /// the returned request loads these bytes into the worker.
    pub fn select(&self, state: &mut AppState) -> (req: WorkerRequest)
        ensures
            final(state)@ == select_embedded_effect(old(state)@, self.name@),
            req@ == (RequestView::LoadDb { data: self.data@ }),
    {
        let bytes = vstd::slice::slice_to_vec(self.data);
        select_embedded_db(state, self.name, bytes)
    }
}

} // verus!
