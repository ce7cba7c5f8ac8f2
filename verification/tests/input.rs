use matrix_commander::input::{
    check_homeserver_input, check_password_input, check_room_input, check_username_input,
    full_user_id, homeserver_host_name, homeserver_parse_outcome, login_user_id, user_id_outcome,
};
use matrix_commander::login::password_shown;

#[test]
fn homeserver_input_is_trimmed_and_parsed_as_url() {
    assert_eq!(check_homeserver_input("  https://matrix.org \n").unwrap(), "https://matrix.org/");
    assert_eq!(check_homeserver_input("   ").unwrap_err(), "Error: Empty homeserver name is not allowed!");
    let e = check_homeserver_input("matrix.org").unwrap_err();
    assert!(e.starts_with("Error: The syntax is incorrect. Homeserver must be a valid URL! Start with 'http://' or 'https://'. Details: "));
    assert!(e.ends_with("relative URL without a base"));
}

#[test]
fn homeserver_outcome_formats_parser_errors() {
    assert_eq!(homeserver_parse_outcome(Ok("https://a/".to_string())).unwrap(), "https://a/");
    assert_eq!(
        homeserver_parse_outcome(Err("bad".to_string())).unwrap_err(),
        "Error: The syntax is incorrect. Homeserver must be a valid URL! Start with 'http://' or 'https://'. Details: bad"
    );
}

#[test]
fn username_input_is_checked() {
    assert_eq!(check_username_input(" @john:x.org\n").unwrap(), "@john:x.org");
    assert_eq!(check_username_input("\t").unwrap_err(), "Error: Empty username is not allowed!");
    assert_eq!(check_username_input("john").unwrap_err(), "Error: Invalid username format!");
}

#[test]
fn password_input_is_kept_untrimmed() {
    assert_eq!(check_password_input(" secret ".to_string()).unwrap(), " secret ");
    assert_eq!(check_password_input("  ".to_string()).unwrap_err(), "Error: Empty password is not allowed!");
}

#[test]
fn room_input_is_checked() {
    assert_eq!(check_room_input(" !r:x.org ").unwrap(), "!r:x.org");
    assert_eq!(check_room_input("").unwrap_err(), "Error: Empty name of default room is not allowed!");
    assert_eq!(
        check_room_input(" !a:b:c ").unwrap_err(),
        "Error: Invalid room name format for '!a:b:c'! Room name must start with '!' and contain exactly one ':'."
    );
}

#[test]
fn login_user_id_must_parse() {
    let hs = Some("https://matrix.org/".to_string());
    assert_eq!(login_user_id(Some("@alice:matrix.org".to_string()), None), Some("@alice:matrix.org".to_string()));
    assert_eq!(login_user_id(Some("@alice:matrix.org".to_string()), hs.clone()), Some("@alice:matrix.org".to_string()));
    assert_eq!(login_user_id(Some("alice".to_string()), None), None);
    assert_eq!(login_user_id(None, hs.clone()), None);
    assert_eq!(user_id_outcome("@x:y".to_string(), true), Some("@x:y".to_string()));
    assert_eq!(user_id_outcome("@x:y".to_string(), false), None);
}

#[test]
fn short_and_partial_user_names_are_completed_with_the_homeserver() {
    let hs = Some("https://example.com".to_string());
    assert_eq!(login_user_id(Some("john".to_string()), hs.clone()), Some("@john:example.com".to_string()));
    assert_eq!(login_user_id(Some("@john".to_string()), hs.clone()), Some("@john:example.com".to_string()));
    assert_eq!(login_user_id(Some("john:other.org".to_string()), hs.clone()), Some("@john:other.org".to_string()));
    assert_eq!(full_user_id("john", Some("example.com".to_string())), "@john:example.com");
    assert_eq!(full_user_id("@john", None), "@john");
    assert_eq!(full_user_id("", Some("example.com".to_string())), "");
    assert_eq!(full_user_id("@john:a.b", Some("example.com".to_string())), "@john:a.b");
}

#[test]
fn password_display_wraps_quoted_text() {
    assert_eq!(password_shown("\"pw\""), "Password(\"pw\")");
}

#[test]
fn homeserver_host_is_taken_from_the_url() {
    assert_eq!(homeserver_host_name(Some("https://matrix.example.org:8448/x".to_string())), Some("matrix.example.org".to_string()));
    assert_eq!(homeserver_host_name(Some("no url".to_string())), None);
    assert_eq!(homeserver_host_name(None), None);
}
