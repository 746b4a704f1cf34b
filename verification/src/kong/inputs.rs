//! `kong` user input management: data received as input from users,
//! from which other data types are created.

use crate::kdata::validate::ValidationError;
use vstd::prelude::*;

verus! {

/// User input management.
pub trait UserInput {
    /// What validating this input must return.
    spec fn spec_valid(&self) -> Result<(), ValidationError>;

    /// Validate user input.
    fn is_valid(&self) -> (r: Result<(), ValidationError>)
        ensures
            r == self.spec_valid(),
    ;
}

} // verus!
