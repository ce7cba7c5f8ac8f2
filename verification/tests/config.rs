use matrix_commander::config::{MCRSConfig, ProfileConfig, ProfileError, ProfileMap};
use matrix_commander::settings::Directories;

fn profile(user: &str) -> ProfileConfig {
    ProfileConfig {
        user_id: user.to_string(),
        homeserver: Some("https://matrix.org/".to_string()),
        default_room: "!room:matrix.org".to_string(),
        dirs: None,
    }
}

fn config(names: &[(&str, &str)], default_profile: Option<&str>) -> MCRSConfig {
    let mut profiles = ProfileMap::new();
    for (n, u) in names {
        profiles.insert(n.to_string(), profile(u));
    }
    MCRSConfig {
        profiles,
        default_profile: default_profile.map(|d| d.to_string()),
        dirs: None,
    }
}

#[test]
fn profile_map_insert_get_remove() {
    let mut m = ProfileMap::new();
    assert_eq!(m.len(), 0);
    m.insert("alice".to_string(), profile("@alice:matrix.org"));
    m.insert("bob".to_string(), profile("@bob:example.org"));
    m.insert("alice".to_string(), profile("@alice2:matrix.org"));
    assert_eq!(m.len(), 2);
    assert!(m.contains_key("bob"));
    assert_eq!(m.get("alice").unwrap().user_id, "@alice2:matrix.org");
    assert!(m.get("carol").is_none());
    let (name, p) = m.remove_entry("bob").unwrap();
    assert_eq!(name, "bob");
    assert_eq!(p.user_id, "@bob:example.org");
    assert!(!m.contains_key("bob"));
    assert!(m.remove_entry("bob").is_none());
    assert_eq!(m.len(), 1);
}

#[test]
fn profile_map_from_entries_keeps_the_last_duplicate() {
    let m = ProfileMap::from_entries(vec![
        ("a".to_string(), profile("@1:x")),
        ("b".to_string(), profile("@2:x")),
        ("a".to_string(), profile("@3:x")),
    ]);
    assert_eq!(m.len(), 2);
    assert_eq!(m.get("a").unwrap().user_id, "@3:x");
    let entries = m.into_entries();
    assert_eq!(entries.len(), 2);
}

#[test]
fn single_profile_is_selected_without_default() {
    let c = config(&[("alice", "@alice:matrix.org")], None);
    let (name, p, dirs) = c.select_profile(None).unwrap();
    assert_eq!(name, "alice");
    assert_eq!(p.user_id, "@alice:matrix.org");
    assert!(dirs.is_none());
}

#[test]
fn default_profile_is_selected() {
    let c = config(&[("alice", "@alice:matrix.org"), ("bob", "@bob:example.org")], Some("bob"));
    let (name, p, _) = c.select_profile(None).unwrap();
    assert_eq!(name, "bob");
    assert_eq!(p.user_id, "@bob:example.org");
}

#[test]
fn profile_flag_overrides_default_profile() {
    let c = config(&[("alice", "@alice:matrix.org"), ("bob", "@bob:example.org")], Some("bob"));
    let (name, _, _) = c.select_profile(Some("alice".to_string())).unwrap();
    assert_eq!(name, "alice");
}

#[test]
fn missing_or_undecided_profile_is_an_error() {
    let c = config(&[("alice", "@a:x")], Some("nobody"));
    match c.select_profile(None) {
        Err(ProfileError::NotFound(n)) => assert_eq!(n, "nobody"),
        other => panic!("unexpected {:?}", other.map(|t| t.0)),
    }
    let c = config(&[("alice", "@a:x"), ("bob", "@b:x")], None);
    assert!(matches!(c.select_profile(None), Err(ProfileError::NotChosen)));
    let c = config(&[], None);
    assert!(matches!(c.select_profile(None), Err(ProfileError::NotChosen)));
}

#[test]
fn shared_dirs_come_with_the_selected_profile() {
    let mut c = config(&[("alice", "@a:x")], None);
    c.dirs = Some(Directories { cache: Some("/c".to_string()), data: None, logs: None });
    let (_, _, dirs) = c.select_profile(None).unwrap();
    assert_eq!(dirs.unwrap().cache.as_deref(), Some("/c"));
}

#[test]
fn upserted_profile_loads_back_and_becomes_default() {
    let mut c = MCRSConfig::empty();
    c.upsert_profile("work".to_string(), profile("@me:work.org"));
    assert_eq!(c.default_profile.as_deref(), Some("work"));
    c.upsert_profile("home".to_string(), profile("@me:home.org"));
    assert_eq!(c.default_profile.as_deref(), Some("work"));
    let (name, p, _) = c.select_profile(None).unwrap();
    assert_eq!(name, "work");
    assert_eq!(p.user_id, "@me:work.org");
}

#[test]
fn upsert_replaces_and_keeps_others() {
    let mut c = config(&[("alice", "@a:x"), ("bob", "@b:x")], Some("bob"));
    c.upsert_profile("alice".to_string(), profile("@a2:x"));
    assert_eq!(c.profiles.get("alice").unwrap().user_id, "@a2:x");
    assert_eq!(c.profiles.get("bob").unwrap().user_id, "@b:x");
    assert_eq!(c.profiles.len(), 2);
    assert_eq!(c.default_profile.as_deref(), Some("bob"));
}

#[test]
fn take_profile_finds_named_profile_only() {
    let c = config(&[("alice", "@a:x")], None);
    assert!(c.take_profile("bob").is_none());
    let c = config(&[("alice", "@a:x")], None);
    let (n, p, _) = c.take_profile("alice").unwrap();
    assert_eq!(n, "alice");
    assert_eq!(p.user_id, "@a:x");
}

#[test]
fn default_config_has_one_default_profile() {
    let c = MCRSConfig::default_config("@x:matrix.org".to_string(), Some("https://matrix.org/".to_string()));
    assert_eq!(c.profiles.len(), 1);
    let p = c.profiles.get("default").unwrap();
    assert_eq!(p.user_id, "@x:matrix.org");
    assert_eq!(p.default_room, "default");
    assert!(c.default_profile.is_none());
    assert!(c.dirs.is_none());
}
