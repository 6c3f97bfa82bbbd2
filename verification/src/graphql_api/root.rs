//! The root of the query and mutation layer: which lookup key and display
//! filter a profile query uses, and the rule a new username must satisfy.

use vstd::prelude::*;

verus! {

use vstd::std_specs::iter::IteratorSpec;
use crate::cis::client::GetBy;
use crate::graphql_api::error::FieldError;
use crate::settings::DinoParkServices;
use crate::trust::Display;
use crate::trust::ScopeAndUser;
use crate::trust::spec_display_rank;
use crate::trust::spec_trust_display;

/// The profile query root: the client of the profile service and the
/// endpoints of the collaborating services.
pub struct Query<T> {
    pub cis_client: T,
    pub dinopark_settings: DinoParkServices,
}

/// The profile mutation root: the client of the profile service and the
/// endpoints of the collaborating services.
pub struct Mutation<T> {
    pub cis_client: T,
    pub dinopark_settings: DinoParkServices,
}

/// A character a username may hold: a lowercase ASCII letter, an ASCII
/// digit, a hyphen or an underscore.
pub open spec fn spec_allowed_username_char(c: char) -> bool {
    ||| 97 <= c as u32 && c as u32 <= 122
    ||| 48 <= c as u32 && c as u32 <= 57
    ||| c as u32 == 45
    ||| c as u32 == 95
}

/// A username must have between two and sixty-four characters.
pub open spec fn spec_username_len_ok(s: Seq<char>) -> bool {
    2 <= s.len() && s.len() <= 64
}

/// Every character of a username must be allowed.
pub open spec fn spec_username_chars_ok(s: Seq<char>) -> bool {
    forall|i: int| 0 <= i < s.len() ==> spec_allowed_username_char(s[i])
}

/// The username rule: the right length, out of the allowed characters.
pub open spec fn spec_valid_username(s: Seq<char>) -> bool {
    spec_username_len_ok(s) && spec_username_chars_ok(s)
}

/// Checks a requested username: its length first, then its characters.
pub fn valid_username(username: &str) -> (r: Result<(), FieldError>)
    ensures
        r is Ok <==> spec_valid_username(username@),
        !spec_username_len_ok(username@) ==> r == Err::<(), FieldError>(
            FieldError::UsernameLength,
        ),
        spec_username_len_ok(username@) && !spec_username_chars_ok(username@) ==> r == Err::<
            (),
            FieldError,
        >(FieldError::UsernameInvalidChars),
{
    broadcast use vstd::string::axiom_spec_iter;
    broadcast use vstd::string::next_postcondition;

    let ghost all = username@;
    let mut it = username.chars();
    let ghost mut processed: int = 0;
    let mut count: usize = 0;
    let mut chars_ok = true;
    loop
        invariant
            0 <= processed <= all.len(),
            it.obeys_prophetic_iter_laws(),
            it.remaining() == all.skip(processed),
            count == if processed > 65 { 65int } else { processed },
            chars_ok <==> (forall|k: int| 0 <= k < processed ==> spec_allowed_username_char(
                all[k],
            )),
        ensures
            processed == all.len(),
            count == if processed > 65 { 65int } else { processed },
            chars_ok <==> spec_username_chars_ok(all),
        decreases all.len() - processed,
    {
        match it.next() {
            Some(c) => {
                proof {
                    assert(all.skip(processed)[0] == all[processed]);
                    assert(all.skip(processed).drop_first() =~= all.skip(processed + 1));
                }
                let u = c as u32;
                let allowed = (97 <= u && u <= 122) || (48 <= u && u <= 57) || u == 45 || u == 95;
                chars_ok = chars_ok && allowed;
                if count < 65 {
                    count = count + 1;
                }
                proof {
                    processed = processed + 1;
                }
            },
            None => {
                proof {
                    assert(all.skip(processed).len() == 0);
                }
                break ;
            },
        }
    }
    if count < 2 || count > 64 {
        return Err(FieldError::UsernameLength);
    }
    if !chars_ok {
        return Err(FieldError::UsernameInvalidChars);
    }
    Ok(())
}

/// How a profile query is answered: which record to fetch, by which key, and
/// filtered to which audience.
#[derive(Clone, Debug)]
pub struct GetProfileParams {
    pub id: String,
    pub by: GetBy,
    pub filter: Display,
}

/// Chooses the lookup parameters of a profile query.
///
/// With a username, the profile is fetched by that username and filtered to
/// the requested view, provided the view's audience is no narrower than the
/// caller's own trust grants; a narrower request is refused. Without a
/// username, the caller asks for its own profile by user id and may view it
/// at any level, private by default.
pub fn get_profile_params(
    username: Option<String>,
    scope_and_user: &ScopeAndUser,
    view_as: Option<Display>,
) -> (r: Result<GetProfileParams, FieldError>)
    ensures
        match username {
            Some(u) => match view_as {
                Some(f) => {
                    if spec_display_rank(f) <= spec_display_rank(
                        spec_trust_display(scope_and_user.scope),
                    ) {
                        r matches Ok(p) && p.id@ == u@ && p.by is PrimaryUsername && p.filter == f
                    } else {
                        r == Err::<GetProfileParams, FieldError>(FieldError::InvalidViewAs)
                    }
                },
                None => r matches Ok(p) && p.id@ == u@ && p.by is PrimaryUsername && p.filter
                    == spec_trust_display(scope_and_user.scope),
            },
            None => r matches Ok(p) && p.id@ == scope_and_user.user_id@ && p.by is UserId
                && p.filter == (match view_as {
                Some(f) => f,
                None => Display::Private,
            }),
        },
{
    let scope: Display = scope_and_user.scope.display();
    match username {
        Some(username) => {
            let filter = match view_as {
                Some(filter) => {
                    if filter.le(&scope) {
                        filter
                    } else {
                        return Err(FieldError::InvalidViewAs);
                    }
                },
                None => scope,
            };
            Ok(GetProfileParams { id: username, by: GetBy::PrimaryUsername, filter })
        },
        None => Ok(
            GetProfileParams {
                id: scope_and_user.user_id.clone(),
                by: GetBy::UserId,
                filter: match view_as {
                    Some(f) => f,
                    None => Display::Private,
                },
            },
        ),
    }
}

} // verus!
