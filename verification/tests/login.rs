use matrix_commander::config::ProfileConfig;
use matrix_commander::error::Error;
use matrix_commander::login::{LoginFlow, LoginInputs, LoginType, RestoreOutcome};

#[test]
fn test_login_type_password_display_contains_password() {
    let lt = LoginType::Password("s3cr3t".to_string());
    let s = lt.to_string();
    assert!(
        s.contains("Password"),
        "expected 'Password' in Display string, got '{s}'"
    );
}

#[test]
fn test_login_type_sso_display_is_sso() {
    assert_eq!(LoginType::Sso.to_string(), "Sso");
}

#[test]
fn test_login_type_password_debug_contains_password() {
    let dbg = format!("{:?}", LoginType::Password("top_secret".to_string()));
    assert!(
        dbg.contains("Password"),
        "Debug should mention 'Password', got '{dbg}'"
    );
}

#[test]
fn test_login_type_sso_debug_contains_sso() {
    let dbg = format!("{:?}", LoginType::Sso);
    assert!(
        dbg.contains("Sso"),
        "Debug should mention 'Sso', got '{dbg}'"
    );
}

#[test]
fn test_login_type_password_display_reflects_the_variant() {
    let sso = LoginType::Sso.to_string();
    let pwd = LoginType::Password("x".to_string()).to_string();
    assert_ne!(
        sso, pwd,
        "Password and Sso must produce different Display strings"
    );
}

#[test]
fn login_type_password_display_quotes_and_escapes_the_password() {
    assert_eq!(
        LoginType::Password("a\"b".to_string()).to_string(),
        "Password(\"a\\\"b\")"
    );
    assert_eq!(
        LoginType::Password("s3cr3t".to_string()).to_string(),
        format!("{:?}", LoginType::Password("s3cr3t".to_string()))
    );
}

fn profile(user: &str, hs: Option<&str>, room: &str) -> ProfileConfig {
    ProfileConfig {
        user_id: user.to_string(),
        homeserver: hs.map(|h| h.to_string()),
        default_room: room.to_string(),
        dirs: None,
    }
}

#[test]
fn login_profile_name_defaults_to_default() {
    assert_eq!(LoginFlow::profile_name(None), "default");
    assert_eq!(LoginFlow::profile_name(Some("work".to_string())), "work");
}

#[test]
fn login_prefill_takes_missing_values_from_existing_profile() {
    let existing = profile("@alice:matrix.org", Some("https://matrix.org/"), "!r:matrix.org");
    let mut inputs = LoginInputs { homeserver: None, user_login: None, room_default: None };
    LoginFlow::prefill_from_profile(&mut inputs, &existing);
    assert_eq!(inputs.homeserver.as_deref(), Some("https://matrix.org/"));
    assert_eq!(inputs.user_login.as_deref(), Some("@alice:matrix.org"));
    assert_eq!(inputs.room_default.as_deref(), Some("!r:matrix.org"));
}

#[test]
fn login_prefill_keeps_given_values() {
    let existing = profile("@alice:matrix.org", None, "!r:matrix.org");
    let mut inputs = LoginInputs {
        homeserver: None,
        user_login: Some("@bob:example.org".to_string()),
        room_default: Some("!b:example.org".to_string()),
    };
    LoginFlow::prefill_from_profile(&mut inputs, &existing);
    assert_eq!(inputs.homeserver, None);
    assert_eq!(inputs.user_login.as_deref(), Some("@bob:example.org"));
    assert_eq!(inputs.room_default.as_deref(), Some("!b:example.org"));
}

#[test]
fn login_new_profile_has_empty_room_when_none_given() {
    let p = LoginFlow::new_profile("@a:b".to_string(), None, None);
    assert_eq!(p.default_room, "");
    assert!(p.dirs.is_none());
    let q = LoginFlow::new_profile("@a:b".to_string(), Some("https://b/".to_string()), Some("!x:b".to_string()));
    assert_eq!(q.default_room, "!x:b");
    assert_eq!(q.homeserver.as_deref(), Some("https://b/"));
}

#[test]
fn login_restore_result_follows_the_outcome() {
    assert!(LoginFlow::restore_result(RestoreOutcome::Restored).is_ok());
    assert!(matches!(
        LoginFlow::restore_result(RestoreOutcome::NoSession),
        Err(Error::NotLoggedIn)
    ));
    assert!(matches!(
        LoginFlow::restore_result(RestoreOutcome::Failed),
        Err(Error::RestoreLoginFailed)
    ));
}

#[test]
fn login_profile_homeserver_must_be_set_and_a_url() {
    assert_eq!(
        LoginFlow::profile_homeserver(Some("https://m.org".to_string())).unwrap(),
        "https://m.org/"
    );
    assert!(matches!(LoginFlow::profile_homeserver(None), Err(Error::HomeserverNotSet)));
    assert!(matches!(
        LoginFlow::profile_homeserver(Some("not a url".to_string())),
        Err(Error::HomeserverNotSet)
    ));
}

#[test]
fn login_is_refused_while_the_session_is_valid() {
    assert!(matches!(LoginFlow::login_gate(true), Err(Error::LoginFailed)));
    assert!(LoginFlow::login_gate(false).is_ok());
}
