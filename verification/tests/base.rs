use matrix_commander::base::{
    device_name, get_bin_name, get_pkg_name, get_pkg_repository, get_prog_without_ext,
    get_store_default_path, get_version, store_path_in,
};
use matrix_commander::error::Error;
use matrix_commander::paths::{Location, PathBase};

#[test]
fn device_name_is_mcrs() {
    assert_eq!(device_name(), "mcrs");
}

#[test]
fn recorded_values_win_over_fallbacks() {
    assert_eq!(get_version(Some("1.2.3")), "1.2.3");
    assert_eq!(get_version(None), "unknown version");
    assert_eq!(get_pkg_name(None), "matrix-commander");
    assert_eq!(get_bin_name(None), "matrix-commander-rs");
    assert_eq!(get_prog_without_ext(Some("mc")), "mc");
    assert_eq!(get_pkg_repository(None), "https://github.com/8go/matrix-commander-rs/");
}

#[test]
fn store_is_below_the_data_directory() {
    let data = Location::from_text("/data".to_string());
    assert_eq!(store_path_in(&data), data.child("store/"));
    if let Some(p) = get_store_default_path(None) {
        assert!(matches!(p.base, PathBase::Native(_)));
        assert_eq!(p.parts, vec!["store/"]);
    }
}

#[test]
fn error_messages() {
    assert_eq!(Error::LoginFailed.message(), "Login Failed");
    assert_eq!(Error::Custom("boom").message(), "boom");
    assert_eq!(Error::JoinedMembersFailed.message(), "JoinedMembersFailed");
    assert!(matches!(Error::custom::<()>("x"), Err(Error::Custom("x"))));
}
