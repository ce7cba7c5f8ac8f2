use matrix_commander::options::{Listen, LogLevel, LoginCLI, Logout, Sync, Verify, Version};
use matrix_commander::output::Output;

#[test]
fn sync_parses_ignoring_case_and_white_space() {
    assert_eq!(Sync::from_str("OFF"), Ok(Sync::Off));
    assert_eq!(Sync::from_str("  Full \n"), Ok(Sync::Full));
    assert_eq!(Sync::from_str("partial"), Err(()));
    assert_eq!("off".parse::<Sync>(), Ok(Sync::Off));
    assert_eq!(Sync::from_lowercased("off"), Ok(Sync::Off));
    assert_eq!(Sync::from_lowercased("OFF"), Err(()));
}

#[test]
fn sync_predicates_and_names() {
    assert!(Sync::Off.is_off());
    assert!(!Sync::Off.is_full());
    assert!(Sync::default().is_full());
    assert_eq!(Sync::Off.to_string(), "Off");
    assert_eq!(Sync::Full.to_string(), "Full");
}

#[test]
fn version_parses_check() {
    assert_eq!(Version::from_str("Check"), Ok(Version::Check));
    assert_eq!(Version::from_str("now"), Err(()));
    assert_eq!(Version::default().to_string(), "Check");
}

#[test]
fn verify_parses_its_methods() {
    assert_eq!(Verify::from_str("none"), Ok(Verify::Unset));
    assert_eq!(Verify::from_str("Manual-Device"), Ok(Verify::ManualDevice));
    assert_eq!(Verify::from_str("manual-user"), Ok(Verify::ManualUser));
    assert_eq!(Verify::from_str(" EMOJI "), Ok(Verify::Emoji));
    assert_eq!(Verify::from_str("emoji-req"), Ok(Verify::EmojiReq));
    assert_eq!(Verify::from_str("manualdevice"), Err(()));
    assert!(Verify::default().is_none());
    assert!(Verify::ManualDevice.is_manual_device());
    assert!(Verify::ManualUser.is_manual_user());
    assert!(Verify::Emoji.is_emoji());
    assert!(Verify::EmojiReq.is_emoji_req());
    assert!(!Verify::Emoji.is_emoji_req());
    assert_eq!(Verify::Unset.to_string(), "None");
    assert_eq!(Verify::ManualDevice.to_string(), "ManualDevice");
}

#[test]
fn logout_parses_its_values() {
    assert_eq!(Logout::from_str("ME"), Ok(Logout::Me));
    assert_eq!(Logout::from_str("all"), Ok(Logout::All));
    assert_eq!(Logout::from_str("none"), Ok(Logout::Unset));
    assert_eq!(Logout::from_str("everyone"), Err(()));
    assert!(Logout::default().is_none());
    assert!(Logout::Me.is_me());
    assert!(Logout::All.is_all());
    assert_eq!(Logout::All.to_string(), "All");
}

#[test]
fn listen_parses_its_values() {
    assert_eq!(Listen::from_str("never"), Ok(Listen::Never));
    assert_eq!(Listen::from_str("Once"), Ok(Listen::Once));
    assert_eq!(Listen::from_str("forever"), Ok(Listen::Forever));
    assert_eq!(Listen::from_str("tail"), Ok(Listen::Tail));
    assert_eq!(Listen::from_str("ALL"), Ok(Listen::All));
    assert_eq!(Listen::from_str("sometimes"), Err(()));
    assert!(Listen::default().is_never());
    assert!(Listen::Once.is_once());
    assert!(Listen::Forever.is_forever());
    assert!(Listen::Tail.is_tail());
    assert!(Listen::All.is_all());
    assert_eq!(Listen::Forever.to_string(), "Forever");
}

#[test]
fn log_level_and_login_defaults() {
    assert!(LogLevel::default().is_none());
    assert!(!LogLevel::Debug.is_none());
    assert_eq!(LogLevel::Trace.to_string(), "Trace");
    assert_eq!(LogLevel::Unset.to_string(), "None");
    assert_eq!(LoginCLI::default(), LoginCLI::Unset);
}

#[test]
fn output_parses_all_spellings() {
    assert_eq!(Output::from_str("TEXT"), Ok(Output::Text));
    assert_eq!(Output::from_str("json"), Ok(Output::Json));
    for s in ["jsonmax", "json-max", "JSON_MAX"] {
        assert_eq!(Output::from_str(s), Ok(Output::JsonMax));
    }
    for s in ["jsonspec", "Json_Spec", "json-spec"] {
        assert_eq!(Output::from_str(s), Ok(Output::JsonSpec));
    }
    assert_eq!(Output::from_str(" json"), Err("Invalid output format"));
    assert_eq!("xml".parse::<Output>(), Err("Invalid output format"));
}

#[test]
fn output_display_parses_back() {
    for o in [Output::Text, Output::Json, Output::JsonMax, Output::JsonSpec] {
        assert_eq!(Output::from_str(&o.to_string()), Ok(o));
    }
    assert_eq!(Output::JsonMax.to_string(), "json-max");
    assert!(Output::default().is_text());
    assert!(Output::Json.is_json());
    assert!(Output::JsonMax.is_json_max());
    assert!(Output::JsonSpec.is_json_spec());
}
