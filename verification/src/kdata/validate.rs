//! User input data validation.

use crate::strutil::str_contains_char;
use vstd::prelude::*;
use vstd::string::{StrSliceExecFns, StringSliceAdditionalSpecFns};
use vstd::utf8::encode_utf8;

verus! {

/// ASCII letters and digits.
pub open spec fn spec_is_ascii_alphanumeric(c: char) -> bool {
    (48 <= c as u32 <= 57) || (65 <= c as u32 <= 90) || (97 <= c as u32 <= 122)
}

/// How many underscores the sequence holds.
pub open spec fn spec_underscore_count(s: Seq<char>) -> int
    decreases s.len(),
{
    if s.len() == 0 {
        0
    } else {
        spec_underscore_count(s.drop_last()) + if s.last() == '_' {
            1int
        } else {
            0
        }
    }
}

/// A valid (Twitter-style) username: non-empty, at most 15 bytes, no
/// leading underscore, only ASCII letters, digits and at most one
/// underscore.
pub open spec fn spec_username_valid(username: Seq<char>) -> bool {
    &&& username.len() > 0
    &&& encode_utf8(username).len() <= 15
    &&& username[0] != '_'
    &&& forall|i: int|
        0 <= i < username.len() ==> spec_is_ascii_alphanumeric(#[trigger] username[i])
            || username[i] == '_'
    &&& spec_underscore_count(username) <= 1
}

/// A loosely valid email address: non-empty and holding both an `'@'`
/// and a `'.'` somewhere.
pub open spec fn spec_email_valid(email: Seq<char>) -> bool {
    email.len() > 0 && email.contains('@') && email.contains('.')
}

/// A valid password: at least 10 bytes long.
pub open spec fn spec_password_valid(password: Seq<char>) -> bool {
    encode_utf8(password).len() >= 10
}

/// User input data validation.
pub struct Validate;

impl Validate {
    /// Validate username (using Twitter style usernames).
    pub fn username(username: &str) -> (r: bool)
        ensures
            r == spec_username_valid(username@),
    {
        // Username cannot be empty
        if username.is_empty() {
            return false;
        }

        // Username length cannot be greater than 15 bytes
        let username_bytes = username.as_bytes_vec();
        if username_bytes.len() > 15 {
            return false;
        }

        let n = username.unicode_len();
        let mut underscore_count: usize = 0;
        let mut i: usize = 0;

        while i < n
            invariant
                n == username@.len(),
                i <= n,
                i > 0 ==> username@[0] != '_',
                forall|j: int|
                    0 <= j < i ==> spec_is_ascii_alphanumeric(#[trigger] username@[j])
                        || username@[j] == '_',
                underscore_count == spec_underscore_count(username@.take(i as int)),
                underscore_count <= i,
            decreases n - i,
        {
            let c = username.get_char(i);

            // Username cannot start with an underscore (_)
            if i == 0 && c == '_' {
                return false;
            }

            // Username can only contain letters, numbers, and one underscore
            if c != '_' {
                let code = c as u32;
                if !((48 <= code && code <= 57) || (65 <= code && code <= 90) || (97 <= code
                    && code <= 122)) {
                    assert(!spec_is_ascii_alphanumeric(username@[i as int]));
                    return false;
                }
            } else {
                // Count underscores because username can have only one (_) underscore
                underscore_count = underscore_count + 1;
            }
            proof {
                assert(username@.take(i + 1).drop_last() =~= username@.take(i as int));
                assert(username@.take(i + 1).last() == username@[i as int]);
            }
            i = i + 1;
        }

        // Username can have only one (_) underscore
        proof {
            assert(username@.take(n as int) =~= username@);
        }
        if underscore_count > 1 {
            return false;
        }
        true
    }

    /// Validate an email address: it must hold an `'@'` and a `'.'`.
    pub fn email(email: &str) -> (r: bool)
        ensures
            r == spec_email_valid(email@),
    {
        // Email address cannot be empty
        if email.is_empty() {
            return false;
        }

        // Email address should contain @ and . symbols
        if !str_contains_char(email, '@') || !str_contains_char(email, '.') {
            return false;
        }
        true
    }

    /// Validate a password: it should be at least 10 characters long.
    pub fn password(password: &str) -> (r: bool)
        ensures
            r == spec_password_valid(password@),
    {
        let password_bytes = password.as_bytes_vec();
        password_bytes.len() >= 10
    }
}

/// The kinds of invalid user input.
#[derive(Clone, Copy, Debug, PartialEq, Eq, Structural)]
pub enum ValidationError {
    /// General input error
    Generic,
    /// Invalid username
    Username,
    /// Invalid email
    Email,
    /// Invalid password
    Password,
}

/// The human-readable description of each input error.
pub open spec fn spec_validation_message(e: ValidationError) -> Seq<char> {
    match e {
        ValidationError::Generic => "General input error"@,
        ValidationError::Username => "Invalid username"@,
        ValidationError::Email => "Invalid email"@,
        ValidationError::Password => "Invalid password"@,
    }
}

impl ValidationError {
    /// The human-readable description of this input error.
    pub fn message(&self) -> (r: &'static str)
        ensures
            r@ == spec_validation_message(*self),
    {
        match self {
            ValidationError::Generic => "General input error",
            ValidationError::Username => "Invalid username",
            ValidationError::Email => "Invalid email",
            ValidationError::Password => "Invalid password",
        }
    }
}

/// Information about the running node.
pub struct NodeInfo {
    /// Version of kong that is running on the node.
    pub version: String,
}

} // verus!
