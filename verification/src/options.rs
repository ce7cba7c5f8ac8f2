use vstd::prelude::*;
use crate::text::{ascii_lowered, is_ascii_text, lowercase, str_equal, to_lowercase, trim, trimmed};

verus! {

/// Value of the `--sync` option.
#[derive(Clone, Copy, Debug, PartialEq, Eq, Structural)]
pub enum Sync {
    /// Turns syncing off for sending operations to improve performance.
    Off,
    /// Full syncing, the default.
    Full,
}

impl Default for Sync {
    fn default() -> (r: Sync)
        ensures
            r == Sync::Full,
    {
        Sync::Full
    }
}

/// The `--sync` value a trimmed, lowercased keyword names, if any.
pub open spec fn sync_keyword(t: Seq<char>) -> Option<Sync> {
    if t == "off"@ {
        Some(Sync::Off)
    } else if t == "full"@ {
        Some(Sync::Full)
    } else {
        None
    }
}

impl Sync {
    pub fn is_off(&self) -> (r: bool)
        ensures
            r == (*self == Sync::Off),
    {
        *self == Sync::Off
    }

    pub fn is_full(&self) -> (r: bool)
        ensures
            r == (*self == Sync::Full),
    {
        *self == Sync::Full
    }

    /// The value named by an already lowercased text, ignoring surrounding
    /// white space.
    pub fn from_lowercased(lowered: &str) -> (r: Result<Sync, ()>)
        ensures
            r == (match sync_keyword(trimmed(lowered@)) {
                Some(v) => Ok(v),
                None => Err(()),
            }),
    {
        let t = trim(lowered);
        if str_equal(t, "off") {
            Ok(Sync::Off)
        } else if str_equal(t, "full") {
            Ok(Sync::Full)
        } else {
            Err(())
        }
    }

    /// Parse a `--sync` value, ignoring case and surrounding white space.
    pub fn from_str(src: &str) -> (r: Result<Sync, ()>)
        ensures
            r == (match sync_keyword(trimmed(lowercase(src@))) {
                Some(v) => Ok(v),
                None => Err(()),
            }),
            is_ascii_text(src@) ==> r == (match sync_keyword(trimmed(ascii_lowered(src@))) {
                Some(v) => Ok(v),
                None => Err(()),
            }),
    {
        let lowered = to_lowercase(src);
        Sync::from_lowercased(lowered.as_str())
    }

    /// The variant's name, as the value is displayed.
    pub open spec fn name(&self) -> Seq<char> {
        match self {
            Sync::Off => "Off"@,
            Sync::Full => "Full"@,
        }
    }

    /// The variant's name, as the value is displayed.
    pub fn to_string(&self) -> (r: String)
        ensures
            r@ == self.name(),
    {
        match self {
            Sync::Off => "Off".to_string(),
            Sync::Full => "Full".to_string(),
        }
    }
}

impl std::str::FromStr for Sync {
    type Err = ();

    fn from_str(src: &str) -> (r: Result<Sync, ()>)
        ensures
            r == (match sync_keyword(trimmed(lowercase(src@))) {
                Some(v) => Ok(v),
                None => Err(()),
            }),
            is_ascii_text(src@) ==> r == (match sync_keyword(trimmed(ascii_lowered(src@))) {
                Some(v) => Ok(v),
                None => Err(()),
            }),
    {
        Sync::from_str(src)
    }
}

/// Value of the `--version` option.
#[derive(Clone, Copy, Debug, PartialEq, Eq, Structural)]
pub enum Version {
    /// Check whether a newer version is available.
    Check,
}

impl Default for Version {
    fn default() -> (r: Version)
        ensures
            r == Version::Check,
    {
        Version::Check
    }
}

/// The `Version` value a trimmed, lowercased keyword names, if any.
pub open spec fn version_keyword(t: Seq<char>) -> Option<Version> {
    if t == "check"@ {
        Some(Version::Check)
    } else {
        None
    }
}

impl Version {
    /// The value named by an already lowercased text, ignoring surrounding
    /// white space.
    pub fn from_lowercased(lowered: &str) -> (r: Result<Version, ()>)
        ensures
            r == (match version_keyword(trimmed(lowered@)) {
                Some(v) => Ok(v),
                None => Err(()),
            }),
    {
        let t = trim(lowered);
        if str_equal(t, "check") {
            Ok(Version::Check)
        } else {
            Err(())
        }
    }

    /// Parse a value, ignoring case and surrounding white space.
    pub fn from_str(src: &str) -> (r: Result<Version, ()>)
        ensures
            r == (match version_keyword(trimmed(lowercase(src@))) {
                Some(v) => Ok(v),
                None => Err(()),
            }),
            is_ascii_text(src@) ==> r == (match version_keyword(trimmed(ascii_lowered(src@))) {
                Some(v) => Ok(v),
                None => Err(()),
            }),
    {
        let lowered = to_lowercase(src);
        Version::from_lowercased(lowered.as_str())
    }

    /// The variant's name, as the value is displayed.
    pub open spec fn name(&self) -> Seq<char> {
        match self {
            Version::Check => "Check"@,
        }
    }

    /// The variant's name, as the value is displayed.
    pub fn to_string(&self) -> (r: String)
        ensures
            r@ == self.name(),
    {
        match self {
            Version::Check => "Check".to_string(),
        }
    }
}

impl std::str::FromStr for Version {
    type Err = ();

    fn from_str(src: &str) -> (r: Result<Version, ()>)
        ensures
            r == (match version_keyword(trimmed(lowercase(src@))) {
                Some(v) => Ok(v),
                None => Err(()),
            }),
            is_ascii_text(src@) ==> r == (match version_keyword(trimmed(ascii_lowered(src@))) {
                Some(v) => Ok(v),
                None => Err(()),
            }),
    {
        Version::from_str(src)
    }
}

/// Value of the `--verify` option.
#[derive(Clone, Copy, Debug, PartialEq, Eq, Structural)]
pub enum Verify {
    /// No verification, the default (displayed as `None`).
    Unset,
    /// Manual device verification.
    ManualDevice,
    /// Manual user verification.
    ManualUser,
    /// Emoji verification as the recipient.
    Emoji,
    /// Emoji verification as the initiator.
    EmojiReq,
}

impl Default for Verify {
    fn default() -> (r: Verify)
        ensures
            r == Verify::Unset,
    {
        Verify::Unset
    }
}

/// The `Verify` value a trimmed, lowercased keyword names, if any.
pub open spec fn verify_keyword(t: Seq<char>) -> Option<Verify> {
    if t == "none"@ {
        Some(Verify::Unset)
    } else if t == "manual-device"@ {
        Some(Verify::ManualDevice)
    } else if t == "manual-user"@ {
        Some(Verify::ManualUser)
    } else if t == "emoji"@ {
        Some(Verify::Emoji)
    } else if t == "emoji-req"@ {
        Some(Verify::EmojiReq)
    } else {
        None
    }
}

impl Verify {
    pub fn is_none(&self) -> (r: bool)
        ensures
            r == (*self == Verify::Unset),
    {
        *self == Verify::Unset
    }

    pub fn is_manual_device(&self) -> (r: bool)
        ensures
            r == (*self == Verify::ManualDevice),
    {
        *self == Verify::ManualDevice
    }

    pub fn is_manual_user(&self) -> (r: bool)
        ensures
            r == (*self == Verify::ManualUser),
    {
        *self == Verify::ManualUser
    }

    pub fn is_emoji(&self) -> (r: bool)
        ensures
            r == (*self == Verify::Emoji),
    {
        *self == Verify::Emoji
    }

    pub fn is_emoji_req(&self) -> (r: bool)
        ensures
            r == (*self == Verify::EmojiReq),
    {
        *self == Verify::EmojiReq
    }

    /// The value named by an already lowercased text, ignoring surrounding
    /// white space.
    pub fn from_lowercased(lowered: &str) -> (r: Result<Verify, ()>)
        ensures
            r == (match verify_keyword(trimmed(lowered@)) {
                Some(v) => Ok(v),
                None => Err(()),
            }),
    {
        let t = trim(lowered);
        if str_equal(t, "none") {
            Ok(Verify::Unset)
        } else if str_equal(t, "manual-device") {
            Ok(Verify::ManualDevice)
        } else if str_equal(t, "manual-user") {
            Ok(Verify::ManualUser)
        } else if str_equal(t, "emoji") {
            Ok(Verify::Emoji)
        } else if str_equal(t, "emoji-req") {
            Ok(Verify::EmojiReq)
        } else {
            Err(())
        }
    }

    /// Parse a value, ignoring case and surrounding white space.
    pub fn from_str(src: &str) -> (r: Result<Verify, ()>)
        ensures
            r == (match verify_keyword(trimmed(lowercase(src@))) {
                Some(v) => Ok(v),
                None => Err(()),
            }),
            is_ascii_text(src@) ==> r == (match verify_keyword(trimmed(ascii_lowered(src@))) {
                Some(v) => Ok(v),
                None => Err(()),
            }),
    {
        let lowered = to_lowercase(src);
        Verify::from_lowercased(lowered.as_str())
    }

    /// The variant's name, as the value is displayed.
    pub open spec fn name(&self) -> Seq<char> {
        match self {
            Verify::Unset => "None"@,
            Verify::ManualDevice => "ManualDevice"@,
            Verify::ManualUser => "ManualUser"@,
            Verify::Emoji => "Emoji"@,
            Verify::EmojiReq => "EmojiReq"@,
        }
    }

    /// The variant's name, as the value is displayed.
    pub fn to_string(&self) -> (r: String)
        ensures
            r@ == self.name(),
    {
        match self {
            Verify::Unset => "None".to_string(),
            Verify::ManualDevice => "ManualDevice".to_string(),
            Verify::ManualUser => "ManualUser".to_string(),
            Verify::Emoji => "Emoji".to_string(),
            Verify::EmojiReq => "EmojiReq".to_string(),
        }
    }
}

impl std::str::FromStr for Verify {
    type Err = ();

    fn from_str(src: &str) -> (r: Result<Verify, ()>)
        ensures
            r == (match verify_keyword(trimmed(lowercase(src@))) {
                Some(v) => Ok(v),
                None => Err(()),
            }),
            is_ascii_text(src@) ==> r == (match verify_keyword(trimmed(ascii_lowered(src@))) {
                Some(v) => Ok(v),
                None => Err(()),
            }),
    {
        Verify::from_str(src)
    }
}

/// Value of the `--logout` option.
#[derive(Clone, Copy, Debug, PartialEq, Eq, Structural)]
pub enum Logout {
    /// Log out nowhere, the default (displayed as `None`).
    Unset,
    /// Log out the device in use.
    Me,
    /// Log out all devices of the user.
    All,
}

impl Default for Logout {
    fn default() -> (r: Logout)
        ensures
            r == Logout::Unset,
    {
        Logout::Unset
    }
}

/// The `Logout` value a trimmed, lowercased keyword names, if any.
pub open spec fn logout_keyword(t: Seq<char>) -> Option<Logout> {
    if t == "none"@ {
        Some(Logout::Unset)
    } else if t == "me"@ {
        Some(Logout::Me)
    } else if t == "all"@ {
        Some(Logout::All)
    } else {
        None
    }
}

impl Logout {
    pub fn is_none(&self) -> (r: bool)
        ensures
            r == (*self == Logout::Unset),
    {
        *self == Logout::Unset
    }

    pub fn is_me(&self) -> (r: bool)
        ensures
            r == (*self == Logout::Me),
    {
        *self == Logout::Me
    }

    pub fn is_all(&self) -> (r: bool)
        ensures
            r == (*self == Logout::All),
    {
        *self == Logout::All
    }

    /// The value named by an already lowercased text, ignoring surrounding
    /// white space.
    pub fn from_lowercased(lowered: &str) -> (r: Result<Logout, ()>)
        ensures
            r == (match logout_keyword(trimmed(lowered@)) {
                Some(v) => Ok(v),
                None => Err(()),
            }),
    {
        let t = trim(lowered);
        if str_equal(t, "none") {
            Ok(Logout::Unset)
        } else if str_equal(t, "me") {
            Ok(Logout::Me)
        } else if str_equal(t, "all") {
            Ok(Logout::All)
        } else {
            Err(())
        }
    }

    /// Parse a value, ignoring case and surrounding white space.
    pub fn from_str(src: &str) -> (r: Result<Logout, ()>)
        ensures
            r == (match logout_keyword(trimmed(lowercase(src@))) {
                Some(v) => Ok(v),
                None => Err(()),
            }),
            is_ascii_text(src@) ==> r == (match logout_keyword(trimmed(ascii_lowered(src@))) {
                Some(v) => Ok(v),
                None => Err(()),
            }),
    {
        let lowered = to_lowercase(src);
        Logout::from_lowercased(lowered.as_str())
    }

    /// The variant's name, as the value is displayed.
    pub open spec fn name(&self) -> Seq<char> {
        match self {
            Logout::Unset => "None"@,
            Logout::Me => "Me"@,
            Logout::All => "All"@,
        }
    }

    /// The variant's name, as the value is displayed.
    pub fn to_string(&self) -> (r: String)
        ensures
            r@ == self.name(),
    {
        match self {
            Logout::Unset => "None".to_string(),
            Logout::Me => "Me".to_string(),
            Logout::All => "All".to_string(),
        }
    }
}

impl std::str::FromStr for Logout {
    type Err = ();

    fn from_str(src: &str) -> (r: Result<Logout, ()>)
        ensures
            r == (match logout_keyword(trimmed(lowercase(src@))) {
                Some(v) => Ok(v),
                None => Err(()),
            }),
            is_ascii_text(src@) ==> r == (match logout_keyword(trimmed(ascii_lowered(src@))) {
                Some(v) => Ok(v),
                None => Err(()),
            }),
    {
        Logout::from_str(src)
    }
}

/// Value of the `--listen` option.
#[derive(Clone, Copy, Debug, PartialEq, Eq, Structural)]
pub enum Listen {
    /// Do not listen, the default.
    Never,
    /// Listen once in all rooms, then continue.
    Once,
    /// Listen in all rooms until the process is stopped.
    Forever,
    /// Get the last messages of the given rooms, then continue.
    Tail,
    /// Get all messages of the given rooms, then continue.
    All,
}

impl Default for Listen {
    fn default() -> (r: Listen)
        ensures
            r == Listen::Never,
    {
        Listen::Never
    }
}

/// The `Listen` value a trimmed, lowercased keyword names, if any.
pub open spec fn listen_keyword(t: Seq<char>) -> Option<Listen> {
    if t == "never"@ {
        Some(Listen::Never)
    } else if t == "once"@ {
        Some(Listen::Once)
    } else if t == "forever"@ {
        Some(Listen::Forever)
    } else if t == "tail"@ {
        Some(Listen::Tail)
    } else if t == "all"@ {
        Some(Listen::All)
    } else {
        None
    }
}

impl Listen {
    pub fn is_never(&self) -> (r: bool)
        ensures
            r == (*self == Listen::Never),
    {
        *self == Listen::Never
    }

    pub fn is_once(&self) -> (r: bool)
        ensures
            r == (*self == Listen::Once),
    {
        *self == Listen::Once
    }

    pub fn is_forever(&self) -> (r: bool)
        ensures
            r == (*self == Listen::Forever),
    {
        *self == Listen::Forever
    }

    pub fn is_tail(&self) -> (r: bool)
        ensures
            r == (*self == Listen::Tail),
    {
        *self == Listen::Tail
    }

    pub fn is_all(&self) -> (r: bool)
        ensures
            r == (*self == Listen::All),
    {
        *self == Listen::All
    }

    /// The value named by an already lowercased text, ignoring surrounding
    /// white space.
    pub fn from_lowercased(lowered: &str) -> (r: Result<Listen, ()>)
        ensures
            r == (match listen_keyword(trimmed(lowered@)) {
                Some(v) => Ok(v),
                None => Err(()),
            }),
    {
        let t = trim(lowered);
        if str_equal(t, "never") {
            Ok(Listen::Never)
        } else if str_equal(t, "once") {
            Ok(Listen::Once)
        } else if str_equal(t, "forever") {
            Ok(Listen::Forever)
        } else if str_equal(t, "tail") {
            Ok(Listen::Tail)
        } else if str_equal(t, "all") {
            Ok(Listen::All)
        } else {
            Err(())
        }
    }

    /// Parse a value, ignoring case and surrounding white space.
    pub fn from_str(src: &str) -> (r: Result<Listen, ()>)
        ensures
            r == (match listen_keyword(trimmed(lowercase(src@))) {
                Some(v) => Ok(v),
                None => Err(()),
            }),
            is_ascii_text(src@) ==> r == (match listen_keyword(trimmed(ascii_lowered(src@))) {
                Some(v) => Ok(v),
                None => Err(()),
            }),
    {
        let lowered = to_lowercase(src);
        Listen::from_lowercased(lowered.as_str())
    }

    /// The variant's name, as the value is displayed.
    pub open spec fn name(&self) -> Seq<char> {
        match self {
            Listen::Never => "Never"@,
            Listen::Once => "Once"@,
            Listen::Forever => "Forever"@,
            Listen::Tail => "Tail"@,
            Listen::All => "All"@,
        }
    }

    /// The variant's name, as the value is displayed.
    pub fn to_string(&self) -> (r: String)
        ensures
            r@ == self.name(),
    {
        match self {
            Listen::Never => "Never".to_string(),
            Listen::Once => "Once".to_string(),
            Listen::Forever => "Forever".to_string(),
            Listen::Tail => "Tail".to_string(),
            Listen::All => "All".to_string(),
        }
    }
}

impl std::str::FromStr for Listen {
    type Err = ();

    fn from_str(src: &str) -> (r: Result<Listen, ()>)
        ensures
            r == (match listen_keyword(trimmed(lowercase(src@))) {
                Some(v) => Ok(v),
                None => Err(()),
            }),
            is_ascii_text(src@) ==> r == (match listen_keyword(trimmed(ascii_lowered(src@))) {
                Some(v) => Ok(v),
                None => Err(()),
            }),
    {
        Listen::from_str(src)
    }
}

/// Value of the `--log-level` option.
#[derive(Clone, Copy, Debug, PartialEq, Eq, Structural)]
pub enum LogLevel {
    /// Not set, the default (displayed as `None`).
    Unset,
    /// Print only errors.
    Error,
    /// Print warnings and errors.
    Warn,
    /// Print info, warnings and errors.
    Info,
    /// Print debug information and the rest.
    Debug,
    /// Print everything.
    Trace,
}

impl Default for LogLevel {
    fn default() -> (r: LogLevel)
        ensures
            r == LogLevel::Unset,
    {
        LogLevel::Unset
    }
}

impl LogLevel {
    pub fn is_none(&self) -> (r: bool)
        ensures
            r == (*self == LogLevel::Unset),
    {
        *self == LogLevel::Unset
    }

    /// The variant's name, as the value is displayed.
    pub open spec fn name(&self) -> Seq<char> {
        match self {
            LogLevel::Unset => "None"@,
            LogLevel::Error => "Error"@,
            LogLevel::Warn => "Warn"@,
            LogLevel::Info => "Info"@,
            LogLevel::Debug => "Debug"@,
            LogLevel::Trace => "Trace"@,
        }
    }

    /// The variant's name, as the value is displayed.
    pub fn to_string(&self) -> (r: String)
        ensures
            r@ == self.name(),
    {
        match self {
            LogLevel::Unset => "None".to_string(),
            LogLevel::Error => "Error".to_string(),
            LogLevel::Warn => "Warn".to_string(),
            LogLevel::Info => "Info".to_string(),
            LogLevel::Debug => "Debug".to_string(),
            LogLevel::Trace => "Trace".to_string(),
        }
    }
}

/// The level a `--log-level` keyword names (case ignored), as the option
/// documents its values: `none`, `error`, `warn`, `info`, `debug`, `trace`.
/// These are also the level names of a tracing filter directive.
pub open spec fn log_level_keyword(t: Seq<char>) -> Option<LogLevel> {
    if t == "none"@ {
        Some(LogLevel::Unset)
    } else if t == "error"@ {
        Some(LogLevel::Error)
    } else if t == "warn"@ {
        Some(LogLevel::Warn)
    } else if t == "info"@ {
        Some(LogLevel::Info)
    } else if t == "debug"@ {
        Some(LogLevel::Debug)
    } else if t == "trace"@ {
        Some(LogLevel::Trace)
    } else {
        None
    }
}

/// Every level is displayed by its own name: the displayed name, with case
/// ignored, is the keyword of that level and of no other.
pub proof fn lemma_log_level_shown_by_its_keyword(l: LogLevel)
    ensures
        is_ascii_text(l.name()),
        log_level_keyword(ascii_lowered(l.name())) == Some(l),
{
    reveal_strlit("None");
    reveal_strlit("Error");
    reveal_strlit("Warn");
    reveal_strlit("Info");
    reveal_strlit("Debug");
    reveal_strlit("Trace");
    reveal_strlit("none");
    reveal_strlit("error");
    reveal_strlit("warn");
    reveal_strlit("info");
    reveal_strlit("debug");
    reveal_strlit("trace");
    let n = l.name();
    let k = ascii_lowered(n);
    match l {
        LogLevel::Unset => {
            assert(n =~= seq!['N', 'o', 'n', 'e']);
            assert(k =~= "none"@);
        },
        LogLevel::Error => {
            assert(n =~= seq!['E', 'r', 'r', 'o', 'r']);
            assert(k =~= "error"@);
            assert(k[0] != "none"@[0]);
        },
        LogLevel::Warn => {
            assert(n =~= seq!['W', 'a', 'r', 'n']);
            assert(k =~= "warn"@);
            assert(k[0] != "none"@[0]);
            assert(k.len() != "error"@.len());
        },
        LogLevel::Info => {
            assert(n =~= seq!['I', 'n', 'f', 'o']);
            assert(k =~= "info"@);
            assert(k[0] != "none"@[0]);
            assert(k.len() != "error"@.len());
            assert(k[0] != "warn"@[0]);
        },
        LogLevel::Debug => {
            assert(n =~= seq!['D', 'e', 'b', 'u', 'g']);
            assert(k =~= "debug"@);
            assert(k.len() != "none"@.len());
            assert(k[0] != "error"@[0]);
            assert(k.len() != "warn"@.len());
            assert(k.len() != "info"@.len());
        },
        LogLevel::Trace => {
            assert(n =~= seq!['T', 'r', 'a', 'c', 'e']);
            assert(k =~= "trace"@);
            assert(k.len() != "none"@.len());
            assert(k[0] != "error"@[0]);
            assert(k.len() != "warn"@.len());
            assert(k.len() != "info"@.len());
            assert(k[0] != "debug"@[0]);
        },
    }
}

/// Value of the `--login` option.
#[derive(Clone, Copy, Debug, PartialEq, Eq, Structural)]
pub enum LoginCLI {
    /// Restore the stored session, the default (shown as `none`).
    Unset,
    /// Log in with a password.
    Password,
    /// Log in with single sign-on.
    Sso,
}

impl Default for LoginCLI {
    fn default() -> (r: LoginCLI)
        ensures
            r == LoginCLI::Unset,
    {
        LoginCLI::Unset
    }
}

impl LoginCLI {
}

} // verus!
