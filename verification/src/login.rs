use vstd::prelude::*;
use crate::config::ProfileConfig;
use crate::error::Error;
use crate::input::{parse_url, url_parse};

verus! {

/// How to log in.
#[derive(Debug)]
pub enum LoginType {
    /// With this password.
    Password(String),
    /// With single sign-on.
    Sso,
}

/// What `<str as Debug>::fmt` writes for a text: the text in double quotes,
/// with special characters escaped.
pub uninterp spec fn debug_quoted(s: Seq<char>) -> Seq<char>;

/// `<str as Debug>::fmt`, through `format!("{:?}", ..)`: the text quoted and
/// escaped as Rust's debug formatting does. Nothing is stated of the
/// escaping beyond its name, [`debug_quoted`].
#[verifier::external_body]
fn debug_string(s: &str) -> (r: String)
    ensures
        r@ == debug_quoted(s@),
{
    format!("{:?}", s)
}

impl LoginType {
    /// How the login type is displayed: its debug form, `Sso` or
    /// `Password("…")`.
    pub open spec fn shown(&self) -> Seq<char> {
        match self {
            LoginType::Password(p) => "Password("@ + debug_quoted(p@) + ")"@,
            LoginType::Sso => "Sso"@,
        }
    }

    /// How the login type is displayed.
    pub fn to_string(&self) -> (r: String)
        ensures
            r@ == self.shown(),
    {
        match self {
            LoginType::Password(p) => {
                let q = debug_string(p.as_str());
                password_shown(q.as_str())
            },
            LoginType::Sso => "Sso".to_string(),
        }
    }
}

/// How a password login is displayed, given its password in debug form.
pub fn password_shown(quoted: &str) -> (r: String)
    ensures
        r@ == "Password("@ + quoted@ + ")"@,
{
    let mut r = "Password(".to_string();
    r.append(quoted);
    r.append(")");
    r
}

/// A password login and a single sign-on login are displayed differently.
pub proof fn lemma_login_types_shown_differently(password: String)
    ensures
        LoginType::Password(password).shown() != LoginType::Sso.shown(),
{
    reveal_strlit("Password(");
    reveal_strlit("Sso");
    let p = LoginType::Password(password).shown();
    assert(p[0] == 'P');
    assert(LoginType::Sso.shown()[0] == 'S');
}

/// The login flows: restoring a stored session, logging in with a password,
/// and logging in with single sign-on.
pub struct LoginFlow;

/// What a password login knows before asking the user for the rest.
#[derive(Clone, Debug)]
pub struct LoginInputs {
    pub homeserver: Option<String>,
    pub user_login: Option<String>,
    pub room_default: Option<String>,
}

/// What restoring a stored session gave.
#[derive(Clone, Copy, Debug, PartialEq, Eq, Structural)]
pub enum RestoreOutcome {
    /// The session file was read and the session restored.
    Restored,
    /// There is no session file.
    NoSession,
    /// The session file could not be read or the session not restored.
    Failed,
}

/// The profile used when none is named.
pub const DEFAULT_PROFILE: &'static str = "default";

impl LoginFlow {
    /// The profile a login is for: the one named, or `default`.
    pub fn profile_name(profile: Option<String>) -> (r: String)
        ensures
            profile matches Some(p) ==> r == p,
            profile is None ==> r@ == DEFAULT_PROFILE@,
    {
        match profile {
            Some(p) => p,
            None => DEFAULT_PROFILE.to_string(),
        }
    }

    /// Complete the login inputs from an existing profile: a missing
    /// homeserver is taken from the profile when it has one, a missing user
    /// and a missing default room are taken from it. Given inputs are kept.
    pub fn prefill_from_profile(inputs: &mut LoginInputs, existing: &ProfileConfig)
        ensures
            final(inputs).homeserver == (match old(inputs).homeserver {
                Some(h) => Some(h),
                None => existing.homeserver,
            }),
            final(inputs).user_login == (match old(inputs).user_login {
                Some(u) => Some(u),
                None => Some(existing.user_id),
            }),
            final(inputs).room_default == (match old(inputs).room_default {
                Some(r) => Some(r),
                None => Some(existing.default_room),
            }),
    {
        if inputs.homeserver.is_none() {
            if let Some(hs) = &existing.homeserver {
                inputs.homeserver = Some(hs.clone());
            }
        }
        if inputs.user_login.is_none() {
            inputs.user_login = Some(existing.user_id.clone());
        }
        if inputs.room_default.is_none() {
            inputs.room_default = Some(existing.default_room.clone());
        }
    }

    /// The result of restoring a stored session: a restored session logs in,
    /// a missing session file means the user is not logged in, and a session
    /// that could not be restored is a failed restore.
    pub fn restore_result(outcome: RestoreOutcome) -> (r: Result<(), Error>)
        ensures
            outcome == RestoreOutcome::Restored ==> r is Ok,
            outcome == RestoreOutcome::NoSession ==> r == Err::<(), Error>(Error::NotLoggedIn),
            outcome == RestoreOutcome::Failed ==> r == Err::<(), Error>(Error::RestoreLoginFailed),
    {
        match outcome {
            RestoreOutcome::Restored => Ok(()),
            RestoreOutcome::NoSession => Err(Error::NotLoggedIn),
            RestoreOutcome::Failed => Err(Error::RestoreLoginFailed),
        }
    }

    /// The homeserver of a profile, in serialized URL form: a profile without
    /// a homeserver, or with one that is no URL, has the homeserver not set.
    pub fn profile_homeserver(homeserver: Option<String>) -> (r: Result<String, Error>)
        ensures
            match homeserver {
                None => r == Err::<String, Error>(Error::HomeserverNotSet),
                Some(h) => match url_parse(h@) {
                    Ok(u) => r matches Ok(t) && t@ == u,
                    Err(_) => r == Err::<String, Error>(Error::HomeserverNotSet),
                },
            },
    {
        match homeserver {
            None => Err(Error::HomeserverNotSet),
            Some(h) => match parse_url(h.as_str()) {
                Ok(u) => Ok(u),
                Err(_) => Err(Error::HomeserverNotSet),
            },
        }
    }

    /// A new login is refused while the stored session is still valid: the
    /// user has to log out first.
    pub fn login_gate(session_still_valid: bool) -> (r: Result<(), Error>)
        ensures
            session_still_valid ==> r == Err::<(), Error>(Error::LoginFailed),
            !session_still_valid ==> r is Ok,
    {
        if session_still_valid {
            Err(Error::LoginFailed)
        } else {
            Ok(())
        }
    }

    /// The profile a password login writes: the user, the homeserver, the
    /// default room (empty when none was given) and no directory settings.
    pub fn new_profile(user_id: String, homeserver: Option<String>, room_default: Option<String>) -> (r: ProfileConfig)
        ensures
            r.user_id == user_id,
            r.homeserver == homeserver,
            room_default matches Some(d) ==> r.default_room == d,
            room_default is None ==> r.default_room@ == Seq::<char>::empty(),
            r.dirs is None,
    {
        let default_room = match room_default {
            Some(d) => d,
            None => String::new(),
        };
        ProfileConfig { user_id, homeserver, default_room, dirs: None }
    }
}

} // verus!
