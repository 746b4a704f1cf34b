//! The account store's interface shape.  The SQLite-backed store
//! itself lives with the database driver, outside this crate.

use vstd::prelude::*;

verus! {

/// Input needed to create a new collection.
pub struct KollectionInput {
    /// Path to accounts database.
    pub accounts: Option<String>,
}

} // verus!
