use matrix_commander::settings::{
    config_paths, config_paths_in, profile_data_dir, resolve_directory_values, Directories,
    DirectoryValues, DirsError, Settings,
};
use matrix_commander::config::ProfileConfig;
use matrix_commander::paths::{Location, PathBase};
use std::path::{Path, PathBuf};

fn path_of(loc: &Location) -> PathBuf {
    let mut p = match &loc.base {
        PathBase::Text(t) => PathBuf::from(t),
        PathBase::Native(n) => n.clone(),
    };
    for part in &loc.parts {
        p = p.join(part);
    }
    p
}

fn text(s: &str) -> Location {
    Location::from_text(s.to_string())
}

#[test]
fn test_directories_merge_self_takes_priority_over_other() {
    let profile_dirs = Directories {
        cache: Some("/profile/cache".to_string()),
        data: None,
        logs: Some("/profile/logs".to_string()),
    };
    let global_dirs = Directories {
        cache: Some("/global/cache".to_string()),
        data: Some("/global/data".to_string()),
        logs: Some("/global/logs".to_string()),
    };

    let merged = profile_dirs.merge(global_dirs);

    assert_eq!(merged.cache, Some("/profile/cache".to_string()));
    assert_eq!(merged.logs, Some("/profile/logs".to_string()));
    assert_eq!(merged.data, Some("/global/data".to_string()));
}

#[test]
fn test_directories_merge_falls_back_to_other_when_all_none() {
    let merged = Directories {
        cache: None,
        data: None,
        logs: None,
    }
    .merge(Directories {
        cache: Some("/global/cache".to_string()),
        data: Some("/global/data".to_string()),
        logs: Some("/global/logs".to_string()),
    });

    assert_eq!(merged.cache, Some("/global/cache".to_string()));
    assert_eq!(merged.data, Some("/global/data".to_string()));
    assert_eq!(merged.logs, Some("/global/logs".to_string()));
}

#[test]
fn test_directories_merge_both_none_stays_none() {
    let merged = Directories::default().merge(Directories::default());

    assert!(merged.cache.is_none());
    assert!(merged.data.is_none());
    assert!(merged.logs.is_none());
}

#[test]
fn test_directories_merge_both_set_self_wins_for_every_field() {
    let merged = Directories {
        cache: Some("/p/cache".to_string()),
        data: Some("/p/data".to_string()),
        logs: Some("/p/logs".to_string()),
    }
    .merge(Directories {
        cache: Some("/g/cache".to_string()),
        data: Some("/g/data".to_string()),
        logs: Some("/g/logs".to_string()),
    });

    assert_eq!(merged.cache, Some("/p/cache".to_string()));
    assert_eq!(merged.data, Some("/p/data".to_string()));
    assert_eq!(merged.logs, Some("/p/logs".to_string()));
}

#[test]
fn merge_is_associative_on_examples() {
    let a = Directories { cache: Some("a".into()), data: None, logs: None };
    let b = Directories { cache: Some("b".into()), data: Some("b".into()), logs: None };
    let c = Directories { cache: None, data: Some("c".into()), logs: Some("c".into()) };
    let left = a.clone().merge(b.clone()).merge(c.clone());
    let right = a.merge(b.merge(c));
    assert_eq!(left.cache, right.cache);
    assert_eq!(left.data, right.data);
    assert_eq!(left.logs, right.logs);
    assert_eq!(left.logs, Some("c".to_string()));
}

#[test]
fn locations_join_their_parts_in_order() {
    let l = text("/data").child("profiles").child("x");
    assert_eq!(l.parts, vec!["profiles", "x"]);
    assert_eq!(l.base, PathBase::Text("/data".to_string()));
    assert_eq!(path_of(&l), Path::new("/data").join("profiles").join("x"));
    let n = Location::from_native(PathBuf::from("/nat")).child("mcrs");
    assert_eq!(n.base, PathBase::Native(PathBuf::from("/nat")));
    assert_eq!(path_of(&n), Path::new("/nat").join("mcrs"));
}

#[test]
fn profile_paths_lie_under_profiles_and_name() {
    let dirs = DirectoryValues {
        cache: text("/c"),
        data: text("/d"),
        logs: text("/c/logs"),
    };
    let p = ProfileConfig {
        user_id: "@u:m.org".to_string(),
        homeserver: None,
        default_room: "!r:m.org".to_string(),
        dirs: None,
    };
    let s = Settings::assemble("myprofile".to_string(), p, dirs);
    assert_eq!(path_of(&s.session_json), Path::new("/d").join("profiles").join("myprofile").join("session.json"));
    assert_eq!(path_of(&s.sqlite_dir), Path::new("/d").join("profiles").join("myprofile").join("sqlite"));
    assert_eq!(s.session_json.parts, vec!["profiles", "myprofile", "session.json"]);
    assert_eq!(profile_data_dir(&text("/d"), "myprofile"), text("/d").child("profiles").child("myprofile"));
}

#[test]
fn distinct_profiles_have_distinct_session_files() {
    let dirs = || DirectoryValues {
        cache: text("/c"),
        data: text("/d"),
        logs: text("/l"),
    };
    let p = || ProfileConfig {
        user_id: "@u:m.org".to_string(),
        homeserver: None,
        default_room: String::new(),
        dirs: None,
    };
    let alice = Settings::assemble("alice".to_string(), p(), dirs());
    let bob = Settings::assemble("bob".to_string(), p(), dirs());
    assert_ne!(alice.session_json, bob.session_json);
    assert_ne!(alice.sqlite_dir, bob.sqlite_dir);
}

#[test]
fn configured_directories_are_used_and_logs_default_below_cache() {
    let d = Directories {
        cache: Some("/tmp/mcrs-test/cache".to_string()),
        data: Some("/tmp/mcrs-test/data".to_string()),
        logs: None,
    };
    let v = d.values().unwrap();
    assert_eq!(v.cache, text("/tmp/mcrs-test/cache"));
    assert_eq!(v.data, text("/tmp/mcrs-test/data"));
    assert_eq!(v.logs, text("/tmp/mcrs-test/cache").child("logs"));
    assert_eq!(path_of(&v.logs), PathBuf::from("/tmp/mcrs-test/cache/logs"));
}

#[test]
fn unknown_variable_in_directory_is_an_expansion_error() {
    let d = Directories {
        cache: Some("${MCRS_SURELY_UNSET_VARIABLE_42}/x".to_string()),
        data: None,
        logs: None,
    };
    let e = d.values().unwrap_err();
    assert_eq!(e, DirsError::CacheExpansion);
    assert_eq!(e.message(), "unable to expand shell variables in dirs.cache");
}

#[test]
fn resolving_reports_the_first_failure_in_order() {
    let r = resolve_directory_values(None, None, Some(None), None, None);
    assert_eq!(r.unwrap_err(), DirsError::NoCacheDir);
    let r = resolve_directory_values(None, Some(PathBuf::from("/pc")), None, None, None);
    assert_eq!(r.unwrap_err(), DirsError::NoDataDir);
    let r = resolve_directory_values(
        None,
        Some(PathBuf::from("/pc")),
        None,
        Some(PathBuf::from("/pd")),
        Some(None),
    );
    assert_eq!(r.unwrap_err(), DirsError::LogsExpansion);
    let v = resolve_directory_values(None, Some(PathBuf::from("/pc")), None, Some(PathBuf::from("/pd")), None)
        .unwrap();
    assert_eq!(path_of(&v.cache), PathBuf::from("/pc/mcrs"));
    assert_eq!(path_of(&v.data), PathBuf::from("/pd/mcrs"));
    assert_eq!(path_of(&v.logs), PathBuf::from("/pc/mcrs/logs"));
    assert_eq!(v.logs.parts, vec!["mcrs", "logs"]);
    assert_eq!(DirsError::NoDataDir.message(), "no dirs.data value configured!");
    assert_eq!(DirsError::NoCacheDir.message(), "no dirs.cache value configured!");
}

#[test]
fn config_lives_in_mcrs_below_the_base() {
    let (dir, file) = config_paths_in(&text("/home/u/.config"));
    assert_eq!(path_of(&dir), PathBuf::from("/home/u/.config/mcrs"));
    assert_eq!(path_of(&file), PathBuf::from("/home/u/.config/mcrs/config.json"));
    let (dir2, file2) = config_paths(Some(PathBuf::from("/x"))).unwrap();
    assert_eq!(path_of(&dir2), PathBuf::from("/x/mcrs"));
    assert_eq!(path_of(&file2), PathBuf::from("/x/mcrs/config.json"));
}

#[test]
fn from_profile_moves_directory_settings_out_of_the_profile() {
    let p = ProfileConfig {
        user_id: "@u:m.org".to_string(),
        homeserver: Some("https://m.org/".to_string()),
        default_room: "!r:m.org".to_string(),
        dirs: Some(Directories {
            cache: Some("/tmp/mcrs-fp/cache".to_string()),
            data: None,
            logs: None,
        }),
    };
    let global = Directories {
        cache: Some("/tmp/ignored".to_string()),
        data: Some("/tmp/mcrs-fp/data".to_string()),
        logs: None,
    };
    let s = Settings::from_profile("work".to_string(), p, Some(global)).unwrap();
    assert!(s.profile.dirs.is_none());
    assert_eq!(s.dirs.cache, text("/tmp/mcrs-fp/cache"));
    assert_eq!(s.dirs.data, text("/tmp/mcrs-fp/data"));
    assert_eq!(path_of(&s.dirs.logs), PathBuf::from("/tmp/mcrs-fp/cache/logs"));
    assert_eq!(path_of(&s.session_json), PathBuf::from("/tmp/mcrs-fp/data/profiles/work/session.json"));
    assert_eq!(s.profile.user_id, "@u:m.org");
}
