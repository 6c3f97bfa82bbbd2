//! The trust vocabulary of the service: how much a caller is trusted, which
//! display levels exist on profile fields, and the claims that arrive with an
//! authenticated request. Display levels are ordered from the widest audience
//! to the narrowest; a caller may view a profile at any level no higher than
//! its own trust.

use vstd::prelude::*;

verus! {

/// The trust a caller has earned, from anonymous to staff.
#[derive(Clone, Copy, PartialEq, Eq, Structural, Debug)]
pub enum Trust {
    Public,
    Authenticated,
    Vouched,
    Ndaed,
    Staff,
}

/// The groups-administration trust of a caller; most callers have none.
#[derive(Clone, Copy, PartialEq, Eq, Structural, Debug)]
pub enum GroupsTrust {
    Nothing,
    Creator,
    Admin,
}

/// The authentication-assurance level of a caller's session.
#[derive(Clone, Copy, PartialEq, Eq, Structural, Debug)]
pub enum AALevel {
    Unknown,
    Low,
    Medium,
    High,
    Maximum,
}

/// The audience a profile field is displayed to.
#[derive(Clone, Copy, PartialEq, Eq, Structural, Debug)]
pub enum Display {
    Public,
    Authenticated,
    Vouched,
    Ndaed,
    Staff,
    Private,
}

/// The position of a display level in the order from the widest audience
/// (`Public`) to the narrowest (`Private`).
pub open spec fn spec_display_rank(d: Display) -> int {
    match d {
        Display::Public => 0,
        Display::Authenticated => 1,
        Display::Vouched => 2,
        Display::Ndaed => 3,
        Display::Staff => 4,
        Display::Private => 5,
    }
}

/// The display level a trust level grants: a caller may view fields shown to
/// its own audience or a wider one.
pub open spec fn spec_trust_display(t: Trust) -> Display {
    match t {
        Trust::Public => Display::Public,
        Trust::Authenticated => Display::Authenticated,
        Trust::Vouched => Display::Vouched,
        Trust::Ndaed => Display::Ndaed,
        Trust::Staff => Display::Staff,
    }
}

impl Display {
    /// The position of this level in the audience order.
    pub fn rank(&self) -> (r: u8)
        ensures
            r == spec_display_rank(*self),
    {
        match self {
            Display::Public => 0,
            Display::Authenticated => 1,
            Display::Vouched => 2,
            Display::Ndaed => 3,
            Display::Staff => 4,
            Display::Private => 5,
        }
    }

    /// Whether this level's audience is at least as wide as `other`'s; the
    /// comparison behind "may view as".
    pub fn le(&self, other: &Display) -> (r: bool)
        ensures
            r == (spec_display_rank(*self) <= spec_display_rank(*other)),
    {
        self.rank() <= other.rank()
    }

    /// The level's name on the wire.
    pub fn as_str(&self) -> (r: &'static str)
        ensures
            r@ == spec_display_str(*self),
    {
        match self {
            Display::Public => "public",
            Display::Authenticated => "authenticated",
            Display::Vouched => "vouched",
            Display::Ndaed => "ndaed",
            Display::Staff => "staff",
            Display::Private => "private",
        }
    }
}

/// The wire name of each display level.
pub open spec fn spec_display_str(d: Display) -> Seq<char> {
    match d {
        Display::Public => "public"@,
        Display::Authenticated => "authenticated"@,
        Display::Vouched => "vouched"@,
        Display::Ndaed => "ndaed"@,
        Display::Staff => "staff"@,
        Display::Private => "private"@,
    }
}

impl Trust {
    /// The display level this trust grants, for filtering a profile.
    pub fn display(&self) -> (r: Display)
        ensures
            r == spec_trust_display(*self),
    {
        match self {
            Trust::Public => Display::Public,
            Trust::Authenticated => Display::Authenticated,
            Trust::Vouched => Display::Vouched,
            Trust::Ndaed => Display::Ndaed,
            Trust::Staff => Display::Staff,
        }
    }
}

/// The claims that arrive with an authenticated request: who the caller is
/// and how much it is trusted.
#[derive(Clone, Debug)]
pub struct ScopeAndUser {
    pub user_id: String,
    pub scope: Trust,
    pub groups_scope: GroupsTrust,
    pub aa_level: AALevel,
}

} // verus!
