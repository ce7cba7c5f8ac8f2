use matrix_commander::identifiers::{
    convert_to_full_room_aliases, is_valid_room_name, is_valid_username,
    replace_minus_with_default_room,
};

#[test]
fn test_is_valid_username_accepts_well_formed_ids() {
    assert!(is_valid_username("@alice:matrix.org"));
    assert!(is_valid_username("@bob:example.org"));
    assert!(is_valid_username("@user123:homeserver.io"));
    assert!(is_valid_username("@very.long.name:some.server.example.com"));
}

#[test]
fn test_is_valid_username_rejects_missing_at_sign() {
    assert!(!is_valid_username("alice:matrix.org"));
    assert!(!is_valid_username("bob:example.org"));
}

#[test]
fn test_is_valid_username_rejects_missing_colon() {
    assert!(!is_valid_username("@alice"));
    assert!(!is_valid_username("@bob"));
}

#[test]
fn test_is_valid_username_rejects_empty_string() {
    assert!(!is_valid_username(""));
}

#[test]
fn test_is_valid_username_rejects_bare_at_sign() {
    assert!(!is_valid_username("@"));
}

#[test]
fn test_is_valid_username_rejects_plain_text() {
    assert!(!is_valid_username("just_a_name"));
    assert!(!is_valid_username("not a matrix id"));
}

#[test]
fn test_is_valid_room_name_accepts_well_formed_ids() {
    assert!(is_valid_room_name("!roomid:matrix.org"));
    assert!(is_valid_room_name("!abc123:example.org"));
    assert!(is_valid_room_name("!aBcDeFgH:homeserver.io"));
}

#[test]
fn test_is_valid_room_name_rejects_missing_exclamation_mark() {
    assert!(!is_valid_room_name("roomid:matrix.org"));
    assert!(!is_valid_room_name("abc:example.org"));
}

#[test]
fn test_is_valid_room_name_rejects_missing_colon() {
    assert!(!is_valid_room_name("!roomid"));
    assert!(!is_valid_room_name("!nocolon"));
}

#[test]
fn test_is_valid_room_name_rejects_two_colons() {
    assert!(!is_valid_room_name("!room:id:extra"));
    assert!(!is_valid_room_name("!a:b:c"));
}

#[test]
fn test_is_valid_room_name_rejects_empty_string() {
    assert!(!is_valid_room_name(""));
}

#[test]
fn test_is_valid_room_name_rejects_plain_text() {
    assert!(!is_valid_room_name("just_a_room"));
    assert!(!is_valid_room_name("not a room id"));
}

#[test]
fn test_username_and_room_validators_are_independent() {
    assert!(is_valid_username("@alice:matrix.org"));
    assert!(!is_valid_room_name("@alice:matrix.org"));

    assert!(is_valid_room_name("!room:matrix.org"));
    assert!(!is_valid_username("!room:matrix.org"));
}

fn strings(v: &[&str]) -> Vec<String> {
    v.iter().map(|s| s.to_string()).collect()
}

#[test]
fn aliases_are_completed_and_blank_entries_dropped() {
    let mut v = strings(&["john", "#jane", " #bob:other.org ", "   ", "!room:x.org", "", "a b"]);
    convert_to_full_room_aliases(&mut v, "matrix.server.org");
    assert_eq!(
        v,
        strings(&[
            "#john:matrix.server.org",
            "#jane:matrix.server.org",
            "#bob:other.org",
            "!room:x.org",
            "#ab:matrix.server.org",
        ])
    );
}

#[test]
fn alias_conversion_is_idempotent() {
    let mut v = strings(&["john", "#jane:x.org", "\t!r:y \n"]);
    convert_to_full_room_aliases(&mut v, "h.org");
    let once = v.clone();
    convert_to_full_room_aliases(&mut v, "h.org");
    assert_eq!(v, once);
}

#[test]
fn alias_conversion_removes_unicode_white_space() {
    let mut v = strings(&["jo\u{3000}hn"]);
    convert_to_full_room_aliases(&mut v, "h.org");
    assert_eq!(v, strings(&["#john:h.org"]));
}

#[test]
fn minus_is_replaced_by_the_default_room() {
    let mut v = strings(&["!a:x", " - ", "!b:x", "-"]);
    replace_minus_with_default_room(&mut v, "!default:x");
    assert_eq!(v, strings(&["!a:x", "!b:x", "!default:x"]));
}

#[test]
fn minus_replacement_without_minus_changes_nothing() {
    let mut v = strings(&["!a:x", "--"]);
    replace_minus_with_default_room(&mut v, "!default:x");
    assert_eq!(v, strings(&["!a:x", "--"]));
    replace_minus_with_default_room(&mut v, "!default:x");
    assert_eq!(v, strings(&["!a:x", "--"]));
}

#[test]
fn minus_replacement_drops_a_default_room_that_is_itself_minus() {
    let mut v = strings(&["-"]);
    replace_minus_with_default_room(&mut v, " - ");
    assert!(v.is_empty());
}
