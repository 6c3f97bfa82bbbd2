//! Inputs of a profile mutation.

use vstd::prelude::*;

verus! {

use vstd::string::StringExecFns;

/// One key-value entry of a mutation input.
#[derive(Clone, Debug)]
pub struct KeyValueInput {
    pub k: String,
    pub v: Option<String>,
}

impl Default for KeyValueInput {
    /// An entry with an empty key and no value.
    fn default() -> (r: KeyValueInput)
        ensures
            r.k@ == Seq::<char>::empty(),
            r.v is None,
    {
        KeyValueInput { k: String::new(), v: None }
    }
}

/// The storage key under which a username of the given kind is kept in the
/// usernames attribute.
pub fn create_usernames_key(typ: &str) -> (r: String)
    ensures
        r@ == "HACK#"@ + typ@,
{
    let mut out = String::from_str("HACK#");
    out.append(typ);
    out
}

} // verus!
