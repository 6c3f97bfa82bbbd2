use dino_park_fence::cis::client::GetBy;
use dino_park_fence::graphql_api::error::FieldError;
use dino_park_fence::graphql_api::input::create_usernames_key;
use dino_park_fence::graphql_api::input::KeyValueInput;
use dino_park_fence::graphql_api::root::get_profile_params;
use dino_park_fence::graphql_api::root::valid_username;
use dino_park_fence::trust::AALevel;
use dino_park_fence::trust::Display;
use dino_park_fence::trust::GroupsTrust;
use dino_park_fence::trust::ScopeAndUser;
use dino_park_fence::trust::Trust;

#[test]
fn test_get_filter_params_without_view_as() {
    let username = Some(String::from("user1"));
    let scope_and_user = ScopeAndUser {
        user_id: String::from("user2"),
        scope: Trust::Staff,
        groups_scope: GroupsTrust::Nothing,
        aa_level: AALevel::Low,
    };
    let params = get_profile_params(username, &scope_and_user, None).unwrap();
    assert!(match params.by {
        GetBy::PrimaryUsername => true,
        _ => false,
    });
    assert_eq!(params.id, "user1");
    assert_eq!(params.filter, Display::Staff);
}

#[test]
fn test_get_filter_params_with_view_as_pass() {
    let username = Some(String::from("user1"));
    let view_as = Some(Display::Ndaed);
    let scope_and_user = ScopeAndUser {
        user_id: String::from("user2"),
        scope: Trust::Staff,
        groups_scope: GroupsTrust::Nothing,
        aa_level: AALevel::Low,
    };
    let params = get_profile_params(username, &scope_and_user, view_as).unwrap();
    assert!(match params.by {
        GetBy::PrimaryUsername => true,
        _ => false,
    });
    assert_eq!(params.id, "user1");
    assert_eq!(params.filter, Display::Ndaed);
}

#[test]
fn test_get_filter_params_with_view_as_fail() {
    let username = Some(String::from("user1"));
    let view_as = Some(Display::Ndaed);
    let scope_and_user = ScopeAndUser {
        user_id: String::from("user2"),
        scope: Trust::Authenticated,
        groups_scope: GroupsTrust::Nothing,
        aa_level: AALevel::Low,
    };
    let params = get_profile_params(username, &scope_and_user, view_as);
    assert!(params.is_err());
}

#[test]
fn test_get_filter_params_self_without_view_as() {
    let scope_and_user = ScopeAndUser {
        user_id: String::from("user1"),
        scope: Trust::Staff,
        groups_scope: GroupsTrust::Nothing,
        aa_level: AALevel::Low,
    };
    let params = get_profile_params(None, &scope_and_user, None).unwrap();
    assert!(match params.by {
        GetBy::UserId => true,
        _ => false,
    });
    assert_eq!(params.id, "user1");
    assert_eq!(params.filter, Display::Private);
}

#[test]
fn test_get_filter_params_self_with_higher_view_as() {
    let view_as = Some(Display::Staff);
    let scope_and_user = ScopeAndUser {
        user_id: String::from("user1"),
        scope: Trust::Authenticated,
        groups_scope: GroupsTrust::Nothing,
        aa_level: AALevel::Low,
    };
    let params = get_profile_params(None, &scope_and_user, view_as).unwrap();
    assert!(match params.by {
        GetBy::UserId => true,
        _ => false,
    });
    assert_eq!(params.id, "user1");
    assert_eq!(params.filter, Display::Staff);
}

#[test]
fn test_username() {
    assert!(valid_username("r--lwqkc13jeqw314").is_ok());
    assert!(valid_username("--__--").is_ok());
    assert!(valid_username("r--A").is_err());
    assert!(valid_username("r--🦊").is_err());
    assert!(valid_username("").is_err());
    assert!(valid_username("a").is_err());
    assert!(valid_username("a".repeat(65).as_str()).is_err());
}

#[test]
fn username_errors_tell_length_and_characters_apart() {
    assert_eq!(valid_username("a"), Err(FieldError::UsernameLength));
    assert_eq!(valid_username(""), Err(FieldError::UsernameLength));
    assert_eq!(valid_username("a".repeat(64).as_str()), Ok(()));
    assert_eq!(valid_username("a".repeat(65).as_str()), Err(FieldError::UsernameLength));
    assert_eq!(valid_username("r--A"), Err(FieldError::UsernameInvalidChars));
    assert_eq!(valid_username("r 1"), Err(FieldError::UsernameInvalidChars));
    assert_eq!(valid_username("r--🦊"), Err(FieldError::UsernameInvalidChars));
    assert_eq!(valid_username("az09-_"), Ok(()));
}

#[test]
fn view_as_refusal_carries_its_code() {
    let scope_and_user = ScopeAndUser {
        user_id: String::from("user2"),
        scope: Trust::Public,
        groups_scope: GroupsTrust::Nothing,
        aa_level: AALevel::Low,
    };
    let params = get_profile_params(
        Some(String::from("user1")),
        &scope_and_user,
        Some(Display::Private),
    );
    assert_eq!(params.unwrap_err(), FieldError::InvalidViewAs);
    assert_eq!(FieldError::InvalidViewAs.code(), "invalid_view_as");
    assert_eq!(FieldError::UsernameLength.code(), "username_length");
    assert_eq!(FieldError::UsernameInvalidChars.code(), "username_invalid_chars");
}

#[test]
fn usernames_key_prefixes_the_kind() {
    assert_eq!(create_usernames_key("GITHUB"), "HACK#GITHUB");
    assert_eq!(create_usernames_key("BMOMAIL"), "HACK#BMOMAIL");
    assert_eq!(create_usernames_key(""), "HACK#");
}

#[test]
fn default_key_value_input_is_empty() {
    let kv = KeyValueInput::default();
    assert_eq!(kv.k, "");
    assert_eq!(kv.v, None);
}
