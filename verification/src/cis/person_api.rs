//! The person API's lookup keys. The HTTP calls against the person API are
//! made by the program around the library with a path built by
//! [`crate::cis::client::user_path`].

use vstd::prelude::*;

verus! {

/// How a user is looked up on the person API.
#[derive(Clone, Copy, Debug)]
pub enum GetBy {
    UserId,
    PrimaryUsername,
}

/// The path segment of each lookup key.
pub open spec fn spec_get_by_str(b: GetBy) -> Seq<char> {
    match b {
        GetBy::UserId => "user_id/"@,
        GetBy::PrimaryUsername => "primary_username/"@,
    }
}

impl GetBy {
    /// The path segment this lookup key selects.
    pub fn as_str(self: &GetBy) -> (r: &'static str)
        ensures
            r@ == spec_get_by_str(*self),
    {
        match self {
            GetBy::UserId => "user_id/",
            GetBy::PrimaryUsername => "primary_username/",
        }
    }
}

} // verus!
