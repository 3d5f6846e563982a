//! A backend that keeps the document in memory, for trying the store
//! without a persistence target.

use crate::db::{Database, DbError};
use crate::models::{DBState, DBStateView};
use vstd::prelude::*;

verus! {

/// A backend in memory: it holds what was last written.
pub struct MockDB {
    last_written_state: DBState,
}

impl MockDB {
    /// A backend that holds the empty document.
    pub fn new() -> (backend: Self)
        ensures
            backend.stored() == Some(DBStateView::empty()),
    {
        Self { last_written_state: DBState::new() }
    }
}

impl Database for MockDB {
    closed spec fn stored(&self) -> Option<DBStateView> {
        Some(self.last_written_state@)
    }

    /// Returns a copy of the document held; never fails.
    fn read_db(&self) -> (outcome: Result<DBState, DbError>)
        ensures
            outcome is Ok,
    {
        Ok(self.last_written_state.clone())
    }

    /// Holds a copy of `db_state` from now on; never fails.
    fn write_db(&mut self, db_state: &DBState) -> (outcome: Result<(), DbError>)
        ensures
            outcome is Ok,
    {
        self.last_written_state = db_state.clone();
        Ok(())
    }
}

} // verus!
