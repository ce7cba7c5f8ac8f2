use vstd::prelude::*;
use std::path::PathBuf;
use crate::paths::{Location, native_location};

verus! {

/// Default directory, below the data directory, for the end-to-end encryption store.
pub const STORE_DIR_DEFAULT: &'static str = "store/";

/// Fallback version text when the build does not record a package version.
pub const VERSION: &'static str = "unknown version";

/// Fallback package name.
pub const PKG_NAME: &'static str = "matrix-commander";

/// Fallback binary name.
pub const BIN_NAME: &'static str = "matrix-commander-rs";

/// The binary name with underscores, as used in log filter directives.
pub const BIN_NAME_UNDERSCORE: &'static str = "matrix_commander_rs";

/// Fallback package repository.
pub const PKG_REPOSITORY: &'static str = "https://github.com/8go/matrix-commander-rs/";

/// Default timeout, in seconds, for calls to the Matrix server.
pub const TIMEOUT_DEFAULT: u64 = 60;

/// Where the README is downloaded from for `--readme`.
pub const URL_README: &'static str = "https://raw.githubusercontent.com/8go/matrix-commander-rs/main/README.md";

/// The device display name used when logging in.
pub const MCRS_DEVICE_NAME: &'static str = "mcrs";

/// The value recorded at build time, or the fallback when there is none.
pub open spec fn recorded_or(recorded: Option<&'static str>, fallback: &'static str) -> &'static str {
    match recorded {
        Some(v) => v,
        None => fallback,
    }
}

/// The device display name used when logging in.
pub fn device_name() -> (name: String)
    ensures
        name@ == MCRS_DEVICE_NAME@,
{
    MCRS_DEVICE_NAME.to_string()
}

/// The version number: the one recorded at build time if there is one,
/// otherwise [`VERSION`].
pub fn get_version(recorded: Option<&'static str>) -> (v: &'static str)
    ensures
        v == recorded_or(recorded, VERSION),
{
    match recorded {
        Some(v) => v,
        None => VERSION,
    }
}

/// The package name: the one recorded at build time if there is one,
/// otherwise [`PKG_NAME`].
pub fn get_pkg_name(recorded: Option<&'static str>) -> (v: &'static str)
    ensures
        v == recorded_or(recorded, PKG_NAME),
{
    match recorded {
        Some(v) => v,
        None => PKG_NAME,
    }
}

/// The binary name: the one recorded at build time if there is one,
/// otherwise [`BIN_NAME`].
pub fn get_bin_name(recorded: Option<&'static str>) -> (v: &'static str)
    ensures
        v == recorded_or(recorded, BIN_NAME),
{
    match recorded {
        Some(v) => v,
        None => BIN_NAME,
    }
}

/// The package repository: the one recorded at build time if there is one,
/// otherwise [`PKG_REPOSITORY`].
pub fn get_pkg_repository(recorded: Option<&'static str>) -> (v: &'static str)
    ensures
        v == recorded_or(recorded, PKG_REPOSITORY),
{
    match recorded {
        Some(v) => v,
        None => PKG_REPOSITORY,
    }
}

/// The program name without extension, which is the binary name.
pub fn get_prog_without_ext(recorded_bin_name: Option<&'static str>) -> (v: &'static str)
    ensures
        v == recorded_or(recorded_bin_name, BIN_NAME),
{
    get_bin_name(recorded_bin_name)
}

/// `directories::ProjectDirs::from_path` followed by `data_dir`: the
/// platform's data directory for a program of this name, if the platform
/// has a home directory. It depends on the environment, so nothing is
/// stated of it.
#[verifier::external_body]
fn project_data_dir(program: &str) -> Option<PathBuf> {
    directories::ProjectDirs::from_path(PathBuf::from(program)).map(|d| d.data_dir().to_path_buf())
}

/// The store directory inside a data directory.
pub fn store_path_in(data_dir: &Location) -> (r: Location)
    ensures
        r@ == data_dir@.child(STORE_DIR_DEFAULT@),
{
    data_dir.child(STORE_DIR_DEFAULT)
}

/// The default store directory: `store/` in the program's data directory;
/// `None` when the platform gives no data directory for the program.
pub fn get_store_default_path(recorded_bin_name: Option<&'static str>) -> (r: Option<Location>)
    ensures
        r matches Some(p) ==> exists|d: PathBuf| p@ == native_location(d, seq![STORE_DIR_DEFAULT@]),
{
    let program = get_prog_without_ext(recorded_bin_name);
    match project_data_dir(program) {
        Some(d) => {
            let ghost gd = d;
            let r = store_path_in(&Location::from_native(d));
            proof {
                assert(r@.parts =~= seq![STORE_DIR_DEFAULT@]);
                assert(r@ == native_location(gd, seq![STORE_DIR_DEFAULT@]));
            }
            Some(r)
        },
        None => None,
    }
}

} // verus!
