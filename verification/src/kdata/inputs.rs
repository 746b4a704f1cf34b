//! Data that is received as input from users; other data types are
//! usually created from this input.

use crate::kdata::validate::{
    spec_email_valid, spec_password_valid, spec_username_valid, Validate, ValidationError,
};
use vstd::prelude::*;

verus! {

/// User input that can be validated before it is acted on.
pub trait UserInput {
    /// What validating this input must return.
    spec fn spec_valid(&self) -> Result<(), ValidationError>;

    /// Validate user input.
    fn is_valid(&self) -> (r: Result<(), ValidationError>)
        ensures
            r == self.spec_valid(),
    ;
}

/// Used when no user input is expected.
pub struct NoInput;

impl UserInput for NoInput {
    open spec fn spec_valid(&self) -> Result<(), ValidationError> {
        Ok(())
    }

    fn is_valid(&self) -> (r: Result<(), ValidationError>) {
        Ok(())
    }
}

/// Data used as input to create a new account.
#[derive(Clone)]
pub struct AccountCreationInput {
    /// Account's username
    pub username: String,
    /// Account email address
    pub email: Option<String>,
    /// Account master key
    pub password: String,
}

impl UserInput for AccountCreationInput {
    open spec fn spec_valid(&self) -> Result<(), ValidationError> {
        if !spec_username_valid(self.username@) {
            Err(ValidationError::Username)
        } else if !spec_password_valid(self.password@) {
            Err(ValidationError::Password)
        } else if self.email matches Some(e) && !spec_email_valid(e@) {
            Err(ValidationError::Email)
        } else {
            Ok(())
        }
    }

    fn is_valid(&self) -> (r: Result<(), ValidationError>) {
        if !Validate::username(self.username.as_str()) {
            return Err(ValidationError::Username);
        }

        if !Validate::password(self.password.as_str()) {
            return Err(ValidationError::Password);
        }

        if let Some(email) = &self.email {
            if !Validate::email(email.as_str()) {
                return Err(ValidationError::Email);
            }
        }

        Ok(())
    }
}

/// Account authentication input.
#[derive(Clone)]
pub struct AccountAuthInput {
    /// Account's username
    pub username: String,
    /// Account master key
    pub password: String,
}

impl UserInput for AccountAuthInput {
    open spec fn spec_valid(&self) -> Result<(), ValidationError> {
        if !spec_username_valid(self.username@) {
            Err(ValidationError::Username)
        } else if !spec_password_valid(self.password@) {
            Err(ValidationError::Password)
        } else {
            Ok(())
        }
    }

    fn is_valid(&self) -> (r: Result<(), ValidationError>) {
        if !Validate::username(self.username.as_str()) {
            return Err(ValidationError::Username);
        }

        if !Validate::password(self.password.as_str()) {
            return Err(ValidationError::Password);
        }

        Ok(())
    }
}

} // verus!
