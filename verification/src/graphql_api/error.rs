//! How a profile query or mutation is refused.

use vstd::prelude::*;

verus! {

/// The ways a field of a query or mutation can be refused.
#[derive(Clone, Copy, PartialEq, Eq, Structural, Debug)]
pub enum FieldError {
    /// The requested username is shorter or longer than the rule allows.
    UsernameLength,
    /// The requested username holds a character outside the allowed set.
    UsernameInvalidChars,
    /// The caller asked to view a profile at a display level narrower than
    /// its own trust grants.
    InvalidViewAs,
}

/// The wire code of each refusal.
pub open spec fn spec_field_error_code(e: FieldError) -> Seq<char> {
    match e {
        FieldError::UsernameLength => "username_length"@,
        FieldError::UsernameInvalidChars => "username_invalid_chars"@,
        FieldError::InvalidViewAs => "invalid_view_as"@,
    }
}

impl FieldError {
    /// The wire code of this refusal.
    pub fn code(&self) -> (r: &'static str)
        ensures
            r@ == spec_field_error_code(*self),
    {
        match self {
            FieldError::UsernameLength => "username_length",
            FieldError::UsernameInvalidChars => "username_invalid_chars",
            FieldError::InvalidViewAs => "invalid_view_as",
        }
    }
}

} // verus!
