//! Deriving a caller's scope from the group claims of its token. Reading the
//! token itself from a request header is left to the program around the
//! library; the decision which scope a set of groups earns is made here.

use vstd::prelude::*;

verus! {

/// The scope granted to a caller, as its wire name.
#[derive(Clone, Debug)]
pub struct Scope {
    pub scope: String,
}

/// The group claims carried by a caller's token.
#[derive(Clone, Debug)]
pub struct Groups {
    pub groups: Vec<String>,
}

/// The scope a set of groups earns: membership in the staff group gives
/// `staff`, otherwise the NDA group gives `ndaed`, otherwise the caller is
/// merely `authenticated`.
pub open spec fn spec_group_scope(groups: Seq<Seq<char>>) -> Seq<char> {
    if groups.contains("team_moco"@) {
        "staff"@
    } else if groups.contains("mozilliansorg_nda"@) {
        "ndaed"@
    } else {
        "authenticated"@
    }
}

/// Whether one of the names in `v` is `name`.
fn contains_group(v: &Vec<String>, name: &String) -> (r: bool)
    ensures
        r == v@.map_values(|s: String| s@).contains(name@),
{
    let ghost names = v@.map_values(|s: String| s@);
    let mut i: usize = 0;
    while i < v.len()
        invariant
            i <= v.len(),
            names == v@.map_values(|s: String| s@),
            forall|k: int| 0 <= k < i ==> names[k] != name@,
        decreases v.len() - i,
    {
        if v[i] == *name {
            assert(names[i as int] == name@);
            return true;
        }
        i = i + 1;
    }
    assert(forall|k: int| 0 <= k < names.len() ==> names[k] != name@);
    false
}

impl Scope {
    /// The scope the given group claims earn.
    pub fn from_groups(g: &Groups) -> (r: Scope)
        ensures
            r.scope@ == spec_group_scope(g.groups@.map_values(|s: String| s@)),
    {
        let staff_group = String::from_str("team_moco");
        let nda_group = String::from_str("mozilliansorg_nda");
        if contains_group(&g.groups, &staff_group) {
            Scope { scope: String::from_str("staff") }
        } else if contains_group(&g.groups, &nda_group) {
            Scope { scope: String::from_str("ndaed") }
        } else {
            Scope { scope: String::from_str("authenticated") }
        }
    }
}

/// The identity of the caller, as handed over by the authenticating proxy.
#[derive(Clone, Debug)]
pub struct UserId {
    pub user_id: String,
}

} // verus!
