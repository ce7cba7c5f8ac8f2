use vstd::prelude::*;
use std::path::PathBuf;
use crate::paths::{Location, LocationView, text_location, native_location};
use crate::config::{ProfileConfig, opt_view};
use crate::text::starts_with_char;

verus! {

/// Directory settings of the configuration file; every one may be left out.
#[derive(Clone, Debug)]
pub struct Directories {
    pub cache: Option<String>,
    pub data: Option<String>,
    pub logs: Option<String>,
}

impl Default for Directories {
    fn default() -> (r: Directories)
        ensures
            r.cache is None,
            r.data is None,
            r.logs is None,
    {
        Directories { cache: None, data: None, logs: None }
    }
}

/// The first value if there is one, the second otherwise.
pub open spec fn or_else<T>(first: Option<T>, second: Option<T>) -> Option<T> {
    match first {
        Some(v) => Some(v),
        None => second,
    }
}

/// Directory settings of `first`, completed by those of `second`.
pub open spec fn merged(first: Directories, second: Directories) -> Directories {
    Directories {
        cache: or_else(first.cache, second.cache),
        data: or_else(first.data, second.data),
        logs: or_else(first.logs, second.logs),
    }
}

impl Directories {
    /// Merge two directory settings: every setting of `self` is kept, and
    /// the settings missing in `self` are taken from `other`.
    pub fn merge(self, other: Directories) -> (r: Directories)
        ensures
            r == merged(self, other),
    {
        Directories {
            cache: match self.cache {
                Some(c) => Some(c),
                None => other.cache,
            },
            data: match self.data {
                Some(d) => Some(d),
                None => other.data,
            },
            logs: match self.logs {
                Some(l) => Some(l),
                None => other.logs,
            },
        }
    }
}

/// The empty settings change nothing when merged on either side.
pub proof fn lemma_merge_identity(d: Directories, empty: Directories)
    requires
        empty.cache is None,
        empty.data is None,
        empty.logs is None,
    ensures
        merged(d, empty) == d,
        merged(empty, d) == d,
{
}

/// Merging is associative: completing in two steps or in one gives the same.
pub proof fn lemma_merge_associative(a: Directories, b: Directories, c: Directories)
    ensures
        merged(merged(a, b), c) == merged(a, merged(b, c)),
{
}

/// Merging settings with themselves changes nothing.
pub proof fn lemma_merge_idempotent(a: Directories)
    ensures
        merged(a, a) == a,
{
}

/// Resolved directories.
#[derive(Clone, Debug)]
pub struct DirectoryValues {
    pub cache: Location,
    pub data: Location,
    pub logs: Location,
}


/// Why directory settings could not be resolved.
#[derive(Clone, Copy, Debug, PartialEq, Eq, Structural)]
pub enum DirsError {
    /// Shell expansion of the configured cache directory failed.
    CacheExpansion,
    /// Shell expansion of the configured data directory failed.
    DataExpansion,
    /// Shell expansion of the configured log directory failed.
    LogsExpansion,
    /// No cache directory configured and the platform has none.
    NoCacheDir,
    /// No data directory configured and the platform has none.
    NoDataDir,
}

impl DirsError {
    /// The message reported for the error.
    pub fn message(&self) -> (r: &'static str)
        ensures
            r == dirs_error_message(*self),
    {
        match self {
            DirsError::CacheExpansion => "unable to expand shell variables in dirs.cache",
            DirsError::DataExpansion => "unable to expand shell variables in dirs.cache",
            DirsError::LogsExpansion => "unable to expand shell variables in dirs.cache",
            DirsError::NoCacheDir => "no dirs.cache value configured!",
            DirsError::NoDataDir => "no dirs.data value configured!",
        }
    }
}

/// The message of each directory error; every expansion failure is reported
/// with the same message.
pub open spec fn dirs_error_message(e: DirsError) -> &'static str {
    match e {
        DirsError::CacheExpansion => "unable to expand shell variables in dirs.cache",
        DirsError::DataExpansion => "unable to expand shell variables in dirs.cache",
        DirsError::LogsExpansion => "unable to expand shell variables in dirs.cache",
        DirsError::NoCacheDir => "no dirs.cache value configured!",
        DirsError::NoDataDir => "no dirs.data value configured!",
    }
}

/// The sub-directory of a platform directory that this program uses.
pub const PROGRAM_DIR: &'static str = "mcrs";

/// The sub-directory of the cache directory used for logs by default.
pub const LOGS_DIR: &'static str = "logs";

/// One directory resolved from its setting: a configured setting gives its
/// shell expansion (`None` when expansion failed), an absent one gives the
/// program's sub-directory of the platform directory (`None` when the
/// platform has none).
pub open spec fn resolved_dir(
    expanded: Option<Option<String>>,
    platform: Option<PathBuf>,
    expansion_error: DirsError,
    missing_error: DirsError,
) -> Result<LocationView, DirsError> {
    match expanded {
        Some(Some(p)) => Ok(text_location(p@)),
        Some(None) => Err(expansion_error),
        None => match platform {
            Some(d) => Ok(native_location(d, seq![PROGRAM_DIR@])),
            None => Err(missing_error),
        },
    }
}

/// Cache, data and log directories resolved in this order from their
/// settings; the first failure is reported. The log directory defaults to
/// `logs` inside the cache directory.
pub open spec fn resolved_dirs(
    cache_expanded: Option<Option<String>>,
    platform_cache: Option<PathBuf>,
    data_expanded: Option<Option<String>>,
    platform_data: Option<PathBuf>,
    logs_expanded: Option<Option<String>>,
) -> Result<(LocationView, LocationView, LocationView), DirsError> {
    match resolved_dir(cache_expanded, platform_cache, DirsError::CacheExpansion, DirsError::NoCacheDir) {
        Err(e) => Err(e),
        Ok(cache) => match resolved_dir(data_expanded, platform_data, DirsError::DataExpansion, DirsError::NoDataDir) {
            Err(e) => Err(e),
            Ok(data) => match logs_expanded {
                Some(Some(p)) => Ok((cache, data, text_location(p@))),
                Some(None) => Err(DirsError::LogsExpansion),
                None => Ok((cache, data, cache.child(LOGS_DIR@))),
            },
        },
    }
}

impl DirectoryValues {
    /// The three paths.
    pub open spec fn paths(&self) -> (LocationView, LocationView, LocationView) {
        (self.cache@, self.data@, self.logs@)
    }
}

fn resolve_dir(
    expanded: Option<Option<String>>,
    platform: Option<PathBuf>,
    expansion_error: DirsError,
    missing_error: DirsError,
) -> (r: Result<Location, DirsError>)
    ensures
        r.is_ok() == resolved_dir(expanded, platform, expansion_error, missing_error).is_ok(),
        r matches Ok(p) ==> resolved_dir(expanded, platform, expansion_error, missing_error) == Ok::<LocationView, DirsError>(p@),
        r matches Err(e) ==> resolved_dir(expanded, platform, expansion_error, missing_error) == Err::<LocationView, DirsError>(e),
{
    match expanded {
        Some(Some(p)) => Ok(Location::from_text(p)),
        Some(None) => Err(expansion_error),
        None => match platform {
            Some(d) => Ok(Location::from_native(d).child(PROGRAM_DIR)),
            None => Err(missing_error),
        },
    }
}

/// Resolve the three directories from what became of their settings (see
/// [`resolved_dirs`]).
pub fn resolve_directory_values(
    cache_expanded: Option<Option<String>>,
    platform_cache: Option<PathBuf>,
    data_expanded: Option<Option<String>>,
    platform_data: Option<PathBuf>,
    logs_expanded: Option<Option<String>>,
) -> (r: Result<DirectoryValues, DirsError>)
    ensures
        r.is_ok() == resolved_dirs(cache_expanded, platform_cache, data_expanded, platform_data, logs_expanded).is_ok(),
        r matches Ok(v) ==> resolved_dirs(cache_expanded, platform_cache, data_expanded, platform_data, logs_expanded) == Ok::<(LocationView, LocationView, LocationView), DirsError>(v.paths()),
        r matches Err(e) ==> resolved_dirs(cache_expanded, platform_cache, data_expanded, platform_data, logs_expanded) == Err::<(LocationView, LocationView, LocationView), DirsError>(e),
{
    let cache = match resolve_dir(cache_expanded, platform_cache, DirsError::CacheExpansion, DirsError::NoCacheDir) {
        Ok(c) => c,
        Err(e) => return Err(e),
    };
    let data = match resolve_dir(data_expanded, platform_data, DirsError::DataExpansion, DirsError::NoDataDir) {
        Ok(d) => d,
        Err(e) => return Err(e),
    };
    let logs = match logs_expanded {
        Some(Some(p)) => Location::from_text(p),
        Some(None) => return Err(DirsError::LogsExpansion),
        None => cache.child(LOGS_DIR),
    };
    Ok(DirectoryValues { cache, data, logs })
}

/// A path that shell expansion leaves alone: it holds no `$` and does not
/// start with `~`.
pub open spec fn needs_no_expansion(s: Seq<char>) -> bool {
    !s.contains('$') && !starts_with_char(s, '~')
}

/// `shellexpand::full`: the text with a leading `~` and `$VAR` / `${VAR}`
/// references expanded, or `None` when a referenced variable cannot be read.
/// What the expansion gives depends on the environment; only this is
/// stated: a text without `$` that does not start with `~` comes back
/// unchanged.
#[verifier::external_body]
fn expand_shell(s: &str) -> (r: Option<String>)
    ensures
        needs_no_expansion(s@) ==> opt_view(r) == Some(s@),
{
    match shellexpand::full(s) {
        Ok(expanded) => Some(expanded.into_owned()),
        Err(_) => None,
    }
}

/// `dirs::cache_dir`: the platform's cache directory, if it has one. The
/// outcome depends on the environment, so nothing is stated
/// of it.
#[verifier::external_body]
fn platform_cache_dir() -> Option<PathBuf> {
    dirs::cache_dir()
}

/// `dirs::data_dir`: the platform's data directory, if it has one. The
/// outcome depends on the environment, so nothing is stated
/// of it.
#[verifier::external_body]
fn platform_data_dir() -> Option<PathBuf> {
    dirs::data_dir()
}

/// `dirs::config_dir`: the platform's configuration directory, if it has
/// one. The outcome depends on the environment, so
/// nothing is stated of it.
#[verifier::external_body]
fn platform_config_dir() -> Option<PathBuf> {
    dirs::config_dir()
}

/// Shell-expand a configured directory, if one is configured.
fn expand_setting(setting: Option<String>) -> (r: Option<Option<String>>)
    ensures
        setting is None <==> r is None,
        setting matches Some(s) ==> (needs_no_expansion(s@) ==> (r matches Some(Some(t)) && t@ == s@)),
{
    match setting {
        Some(s) => Some(expand_shell(s.as_str())),
        None => None,
    }
}

/// A directory setting that is configured and needs no shell expansion.
pub open spec fn configured_plain(setting: Option<String>) -> bool {
    match setting {
        Some(p) => needs_no_expansion(p@),
        None => false,
    }
}

/// A directory setting that is left out or needs no shell expansion.
pub open spec fn unset_or_plain(setting: Option<String>) -> bool {
    match setting {
        Some(p) => needs_no_expansion(p@),
        None => true,
    }
}

/// Directory settings that resolve whatever the environment: cache and data
/// are configured, and no configured path needs shell expansion.
pub open spec fn resolvable_as_given(d: Directories) -> bool {
    configured_plain(d.cache) && configured_plain(d.data) && unset_or_plain(d.logs)
}

/// What resolving one configured or missing directory may give: a configured
/// path that needs no expansion is used as it is, a missing one is the
/// program's sub-directory of some platform directory.
pub open spec fn resolved_from(setting: Option<String>, value: LocationView) -> bool {
    match setting {
        Some(p) => needs_no_expansion(p@) ==> value == text_location(p@),
        None => value.base is Native && value.parts == seq![PROGRAM_DIR@],
    }
}

/// What resolving directory settings gives, whatever the environment:
/// success when they resolve as given; on success, configured paths that
/// need no expansion are kept, missing cache and data directories are the
/// `mcrs` sub-directory of a platform directory, and a missing log directory
/// is `logs` in the cache directory; an expansion error comes only from a
/// configured path that needs expansion, and a missing-directory error only
/// from a missing setting; settings configured with the same text resolve to
/// the same directory, and only the first of them can fail to expand.
pub open spec fn resolution_outcome(d: Directories, r: Result<DirectoryValues, DirsError>) -> bool {
    &&& resolvable_as_given(d) ==> r is Ok
    &&& match r {
        Ok(v) => {
            &&& resolved_from(d.cache, v.cache@)
            &&& resolved_from(d.data, v.data@)
            &&& match d.logs {
                Some(l) => needs_no_expansion(l@) ==> v.logs@ == text_location(l@),
                None => v.logs@ == v.cache@.child(LOGS_DIR@),
            }
        },
        Err(e) => match e {
            DirsError::CacheExpansion => d.cache is Some && !configured_plain(d.cache),
            DirsError::DataExpansion => d.data is Some && !configured_plain(d.data),
            DirsError::LogsExpansion => d.logs is Some && !unset_or_plain(d.logs),
            DirsError::NoCacheDir => d.cache is None,
            DirsError::NoDataDir => d.data is None,
        },
    }
    &&& same_setting(d.data, d.cache) ==> match r {
        Ok(v) => v.data@ == v.cache@,
        Err(e) => e != DirsError::DataExpansion,
    }
    &&& same_setting(d.logs, d.cache) ==> match r {
        Ok(v) => v.logs@ == v.cache@,
        Err(e) => e != DirsError::LogsExpansion,
    }
    &&& same_setting(d.logs, d.data) ==> match r {
        Ok(v) => v.logs@ == v.data@,
        Err(e) => e != DirsError::LogsExpansion,
    }
}

/// Two directory settings that are configured with the same text. Such
/// settings are expanded alike: one setting of the log, data or cache
/// directory is not shell expanded differently from another with the same
/// text.
pub open spec fn same_setting(a: Option<String>, b: Option<String>) -> bool {
    a is Some && opt_view(a) == opt_view(b)
}

/// Whether two settings are configured with the same text.
fn is_same_setting(a: &Option<String>, b: &Option<String>) -> (r: bool)
    ensures
        r == same_setting(*a, *b),
{
    match (a, b) {
        (Some(x), Some(y)) => crate::text::str_equal(x.as_str(), y.as_str()),
        _ => false,
    }
}

/// A copy of what expanding a setting gave.
fn copy_expansion(e: &Option<Option<String>>) -> (r: Option<Option<String>>)
    ensures
        r == *e,
{
    match e {
        Some(Some(t)) => Some(Some(t.clone())),
        Some(None) => Some(None),
        None => None,
    }
}

impl Directories {
    /// Resolve the settings into directories: configured ones are shell
    /// expanded, missing cache and data directories are taken from the
    /// platform (their `mcrs` sub-directory), and a missing log directory is
    /// `logs` inside the cache directory (see [`resolution_outcome`]). A
    /// setting with the same text as an earlier one is expanded once.
    pub fn values(self) -> (r: Result<DirectoryValues, DirsError>)
        ensures
            resolution_outcome(self, r),
    {
        let cache_configured = self.cache.is_some();
        let data_configured = self.data.is_some();
        let data_as_cache = is_same_setting(&self.data, &self.cache);
        let logs_as_cache = is_same_setting(&self.logs, &self.cache);
        let logs_as_data = is_same_setting(&self.logs, &self.data);
        let cache_expanded = expand_setting(self.cache);
        let platform_cache = if cache_configured { None } else { platform_cache_dir() };
        let data_expanded = if data_as_cache { copy_expansion(&cache_expanded) } else { expand_setting(self.data) };
        let platform_data = if data_configured { None } else { platform_data_dir() };
        let logs_expanded = if logs_as_cache {
            copy_expansion(&cache_expanded)
        } else if logs_as_data {
            copy_expansion(&data_expanded)
        } else {
            expand_setting(self.logs)
        };
        resolve_directory_values(cache_expanded, platform_cache, data_expanded, platform_data, logs_expanded)
    }
}

/// The directory, below the data directory, that holds the profiles.
pub const PROFILES_DIR: &'static str = "profiles";

/// The session file of a profile.
pub const SESSION_FILE: &'static str = "session.json";

/// The store directory of a profile.
pub const SQLITE_DIR: &'static str = "sqlite";

/// The configuration file, inside the program's configuration directory.
pub const CONFIG_FILE: &'static str = "config.json";

/// The directory of one profile's data: `profiles/<name>` below the data directory.
pub open spec fn profile_dir(data: LocationView, profile_name: Seq<char>) -> LocationView {
    data.child(PROFILES_DIR@).child(profile_name)
}

/// The directory of one profile's data: `profiles/<name>` below the data directory.
pub fn profile_data_dir(data: &Location, profile_name: &str) -> (r: Location)
    ensures
        r@ == profile_dir(data@, profile_name@),
{
    data.child(PROFILES_DIR).child(profile_name)
}

/// Directory settings, or none at all when they are left out.
pub open spec fn dirs_or_empty(d: Option<Directories>) -> Directories {
    match d {
        Some(x) => x,
        None => Directories { cache: None, data: None, logs: None },
    }
}

/// The directory settings that apply to a profile: its own, completed by the
/// shared ones.
pub open spec fn profile_directories(profile: ProfileConfig, global: Option<Directories>) -> Directories {
    merged(dirs_or_empty(profile.dirs), dirs_or_empty(global))
}

/// The directories of settings, or the error that stopped them.
pub open spec fn settings_dirs(r: Result<Settings, DirsError>) -> Result<DirectoryValues, DirsError> {
    match r {
        Ok(st) => Ok(st.dirs),
        Err(e) => Err(e),
    }
}

/// Everything a profile needs at run time: where its session and store
/// live, its name, its configuration and its directories.
#[derive(Clone, Debug)]
pub struct Settings {
    pub session_json: Location,
    pub sqlite_dir: Location,
    pub profile_name: String,
    pub profile: ProfileConfig,
    pub dirs: DirectoryValues,
}

impl Settings {
    /// The settings of a profile whose directories are resolved: the session
    /// file and the store lie in the profile's data directory.
    pub fn assemble(profile_name: String, profile: ProfileConfig, dirs: DirectoryValues) -> (r: Settings)
        ensures
            r.session_json@ == profile_dir(dirs.data@, profile_name@).child(SESSION_FILE@),
            r.sqlite_dir@ == profile_dir(dirs.data@, profile_name@).child(SQLITE_DIR@),
            r.profile_name == profile_name,
            r.profile == profile,
            r.dirs == dirs,
    {
        let dir = profile_data_dir(&dirs.data, profile_name.as_str());
        Settings {
            session_json: dir.child(SESSION_FILE),
            sqlite_dir: dir.child(SQLITE_DIR),
            profile_name,
            profile,
            dirs,
        }
    }

    /// The settings of a profile: its own directory settings, completed by
    /// the shared ones, are resolved (see [`Directories::values`]) and moved
    /// out of the profile. Creating the directories is left to the caller.
    pub fn from_profile(profile_name: String, profile: ProfileConfig, global_dirs: Option<Directories>) -> (r: Result<Settings, DirsError>)
        ensures
            resolution_outcome(profile_directories(profile, global_dirs), settings_dirs(r)),
            r matches Ok(st) ==> {
                &&& st.profile_name == profile_name
                &&& st.profile.user_id == profile.user_id
                &&& st.profile.homeserver == profile.homeserver
                &&& st.profile.default_room == profile.default_room
                &&& st.profile.dirs is None
                &&& st.session_json@ == profile_dir(st.dirs.data@, profile_name@).child(SESSION_FILE@)
                &&& st.sqlite_dir@ == profile_dir(st.dirs.data@, profile_name@).child(SQLITE_DIR@)
            },
    {
        let ProfileConfig { user_id, homeserver, default_room, dirs } = profile;
        let global = match global_dirs {
            Some(g) => g,
            None => Directories::default(),
        };
        let own = match dirs {
            Some(d) => d,
            None => Directories::default(),
        };
        let values = match own.merge(global).values() {
            Ok(v) => v,
            Err(e) => return Err(e),
        };
        let profile = ProfileConfig { user_id, homeserver, default_room, dirs: None };
        Ok(Settings::assemble(profile_name, profile, values))
    }
}

/// Different profiles keep their sessions and stores apart: two different
/// profile names give session files and stores that differ in the component
/// that names the profile.
pub proof fn lemma_profiles_have_distinct_paths(data: LocationView, a: Seq<char>, b: Seq<char>)
    requires
        a != b,
    ensures
        profile_dir(data, a).child(SESSION_FILE@) != profile_dir(data, b).child(SESSION_FILE@),
        profile_dir(data, a).child(SQLITE_DIR@) != profile_dir(data, b).child(SQLITE_DIR@),
{
    let k: int = data.parts.len() as int + 1;
    assert(profile_dir(data, a).child(SESSION_FILE@).parts[k] == a);
    assert(profile_dir(data, b).child(SESSION_FILE@).parts[k] == b);
    assert(profile_dir(data, a).child(SQLITE_DIR@).parts[k] == a);
    assert(profile_dir(data, b).child(SQLITE_DIR@).parts[k] == b);
}

/// Where the configuration lives below a configuration base directory:
/// the program's directory `mcrs` and the file `config.json` in it.
pub open spec fn config_locations(base: LocationView) -> (LocationView, LocationView) {
    (base.child(PROGRAM_DIR@), base.child(PROGRAM_DIR@).child(CONFIG_FILE@))
}

/// The configuration directory and file below a configuration base directory.
pub fn config_paths_in(base: &Location) -> (r: (Location, Location))
    ensures
        (r.0@, r.1@) == config_locations(base@),
{
    let dir = base.child(PROGRAM_DIR);
    let file = dir.child(CONFIG_FILE);
    (dir, file)
}

/// The configuration directory and file: below `XDG_CONFIG_HOME` when it is
/// set, otherwise below the platform's configuration directory; `None` when
/// neither is known.
pub fn config_paths(xdg_config_home: Option<PathBuf>) -> (r: Option<(Location, Location)>)
    ensures
        xdg_config_home matches Some(x) ==> r matches Some(p) && (p.0@, p.1@) == config_locations(native_location(x, Seq::<Seq<char>>::empty())),
        r matches Some(p) ==> exists|b: PathBuf| (p.0@, p.1@) == config_locations(native_location(b, Seq::<Seq<char>>::empty())),
{
    let base = match xdg_config_home {
        Some(x) => Some(x),
        None => platform_config_dir(),
    };
    match base {
        Some(b) => Some(config_paths_in(&Location::from_native(b))),
        None => None,
    }
}

} // verus!
