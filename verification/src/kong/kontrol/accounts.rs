//! Accounts API endpoint controller.

use vstd::prelude::*;

verus! {

/// Accounts API endpoint handler.  The JSON and database plumbing of
/// account creation lives with the HTTP server, outside this crate; the
/// input validation it applies is [`crate::kdata::inputs::UserInput`].
pub struct CreateAccountKontroller;

} // verus!
