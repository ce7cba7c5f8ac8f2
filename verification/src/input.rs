use vstd::prelude::*;
use crate::identifiers::{is_valid_room_name, is_valid_username, valid_room_name, valid_username};
use crate::text::{blank, has_char, has_first_char, is_blank, push_char, starts_with_char, trim, trimmed};
use crate::config::opt_view;

verus! {

/// The views of a text result.
pub open spec fn text_result(r: Result<String, String>) -> Result<Seq<char>, Seq<char>> {
    match r {
        Ok(t) => Ok(t@),
        Err(m) => Err(m@),
    }
}

/// What `url::Url::parse` makes of a text: the serialized URL, or the
/// message of the parse error.
pub uninterp spec fn url_parse(s: Seq<char>) -> Result<Seq<char>, Seq<char>>;

/// `url::Url::parse`: the URL in its serialized form, or the error's
/// message. Nothing is stated of URL syntax beyond the name [`url_parse`].
#[verifier::external_body]
pub(crate) fn parse_url(s: &str) -> (r: Result<String, String>)
    ensures
        text_result(r) == url_parse(s@),
{
    match url::Url::parse(s) {
        Ok(u) => Ok(u.to_string()),
        Err(e) => Err(e.to_string()),
    }
}

/// The message for an empty homeserver.
pub const EMPTY_HOMESERVER: &'static str = "Error: Empty homeserver name is not allowed!";

/// The start of the message for a homeserver that is no URL.
pub const INVALID_HOMESERVER: &'static str =
    "Error: The syntax is incorrect. Homeserver must be a valid URL! Start with 'http://' or 'https://'. Details: ";

/// The message for an empty user name.
pub const EMPTY_USERNAME: &'static str = "Error: Empty username is not allowed!";

/// The message for a malformed user name.
pub const INVALID_USERNAME: &'static str = "Error: Invalid username format!";

/// The message for an empty password.
pub const EMPTY_PASSWORD: &'static str = "Error: Empty password is not allowed!";

/// The message for an empty default room.
pub const EMPTY_ROOM: &'static str = "Error: Empty name of default room is not allowed!";

/// The start of the message for a malformed default room.
pub const INVALID_ROOM_START: &'static str = "Error: Invalid room name format for '";

/// The end of the message for a malformed default room.
pub const INVALID_ROOM_END: &'static str =
    "'! Room name must start with '!' and contain exactly one ':'.";

/// The answer to the homeserver prompt: the trimmed input parsed as a URL,
/// or the reason it is refused.
pub open spec fn homeserver_answer(input: Seq<char>) -> Result<Seq<char>, Seq<char>> {
    let t = trimmed(input);
    if t.len() == 0 {
        Err(EMPTY_HOMESERVER@)
    } else {
        match url_parse(t) {
            Ok(u) => Ok(u),
            Err(e) => Err(INVALID_HOMESERVER@ + e),
        }
    }
}

/// Check a line typed at the homeserver prompt (see [`homeserver_answer`]).
pub fn check_homeserver_input(input: &str) -> (r: Result<String, String>)
    ensures
        text_result(r) == homeserver_answer(input@),
{
    let t = trim(input);
    if t.unicode_len() == 0 {
        return Err(EMPTY_HOMESERVER.to_string());
    }
    homeserver_parse_outcome(parse_url(t))
}

/// The answer to the homeserver prompt for a non-empty input, from what
/// parsing it as a URL gave: the URL, or the refusal with the parser's message.
pub fn homeserver_parse_outcome(parsed: Result<String, String>) -> (r: Result<String, String>)
    ensures
        text_result(r) == (match text_result(parsed) {
            Ok(u) => Ok::<Seq<char>, Seq<char>>(u),
            Err(e) => Err(INVALID_HOMESERVER@ + e),
        }),
{
    match parsed {
        Ok(u) => Ok(u),
        Err(e) => {
            let mut m = INVALID_HOMESERVER.to_string();
            m.append(e.as_str());
            Err(m)
        },
    }
}

/// The answer to the user-name prompt: the trimmed input when it has the
/// shape of a full user id, or the reason it is refused.
pub open spec fn username_answer(input: Seq<char>) -> Result<Seq<char>, Seq<char>> {
    let t = trimmed(input);
    if t.len() == 0 {
        Err(EMPTY_USERNAME@)
    } else if !valid_username(t) {
        Err(INVALID_USERNAME@)
    } else {
        Ok(t)
    }
}

/// Check a line typed at the user-name prompt (see [`username_answer`]).
pub fn check_username_input(input: &str) -> (r: Result<String, String>)
    ensures
        text_result(r) == username_answer(input@),
{
    let t = trim(input);
    if t.unicode_len() == 0 {
        Err(EMPTY_USERNAME.to_string())
    } else if !is_valid_username(t) {
        Err(INVALID_USERNAME.to_string())
    } else {
        Ok(t.to_string())
    }
}

/// Check a password typed at the password prompt: refused when it is only
/// white space, otherwise kept exactly as typed.
pub fn check_password_input(password: String) -> (r: Result<String, String>)
    ensures
        is_blank(password@) ==> text_result(r) == Err::<Seq<char>, Seq<char>>(EMPTY_PASSWORD@),
        !is_blank(password@) ==> r == Ok::<String, String>(password),
{
    if blank(password.as_str()) {
        Err(EMPTY_PASSWORD.to_string())
    } else {
        Ok(password)
    }
}

/// The answer to the default-room prompt: the trimmed input when it has
/// the shape of a room id, or the reason it is refused.
pub open spec fn room_answer(input: Seq<char>) -> Result<Seq<char>, Seq<char>> {
    let t = trimmed(input);
    if t.len() == 0 {
        Err(EMPTY_ROOM@)
    } else if !valid_room_name(t) {
        Err(INVALID_ROOM_START@ + t + INVALID_ROOM_END@)
    } else {
        Ok(t)
    }
}

/// Check a line typed at the default-room prompt (see [`room_answer`]).
pub fn check_room_input(input: &str) -> (r: Result<String, String>)
    ensures
        text_result(r) == room_answer(input@),
{
    let t = trim(input);
    if t.unicode_len() == 0 {
        Err(EMPTY_ROOM.to_string())
    } else if !is_valid_room_name(t) {
        let mut m = INVALID_ROOM_START.to_string();
        m.append(t);
        m.append(INVALID_ROOM_END);
        Err(m)
    } else {
        Ok(t.to_string())
    }
}

/// Whether `OwnedUserId`'s `FromStr` accepts a text as a Matrix user id.
pub uninterp spec fn matrix_user_id(s: Seq<char>) -> bool;

/// `<OwnedUserId as FromStr>::from_str` (from `matrix_sdk::ruma`): whether
/// the text parses as a Matrix user id. Nothing is stated of the user-id
/// grammar beyond the name [`matrix_user_id`].
#[verifier::external_body]
fn parses_as_user_id(s: &str) -> (r: bool)
    ensures
        r == matrix_user_id(s@),
{
    s.parse::<matrix_sdk::ruma::OwnedUserId>().is_ok()
}

/// The host of the URL a text parses to: `None` when the text is no URL or
/// the URL has no host.
pub uninterp spec fn url_host(s: Seq<char>) -> Option<Seq<char>>;

/// `url::Url::parse` followed by `Url::host_str`: the host of the URL, or
/// `None` when the text is no URL or the URL has no host. Nothing is stated
/// of URL syntax beyond the name [`url_host`].
#[verifier::external_body]
fn host_of_url(s: &str) -> (r: Option<String>)
    ensures
        opt_view(r) == url_host(s@),
{
    match url::Url::parse(s) {
        Ok(u) => u.host_str().map(|h| h.to_string()),
        Err(_) => None,
    }
}

/// The host of a homeserver URL, when one is given and it has a host.
pub open spec fn homeserver_host(homeserver: Option<String>) -> Option<Seq<char>> {
    match homeserver {
        Some(h) => url_host(h@),
        None => None,
    }
}

/// The host of a homeserver URL: `None` when no homeserver is given, it is
/// no URL, or it has no host.
pub fn homeserver_host_name(homeserver: Option<String>) -> (r: Option<String>)
    ensures
        opt_view(r) == homeserver_host(homeserver),
{
    match homeserver {
        Some(h) => host_of_url(h.as_str()),
        None => None,
    }
}

/// A user login completed to a user id: a leading `@` is added when it is
/// missing, and `:host` of the homeserver when the login has no colon and
/// the host is known. An empty login stays empty.
pub open spec fn completed_user_id(login: Seq<char>, host: Option<Seq<char>>) -> Seq<char> {
    if login.len() == 0 {
        login
    } else {
        let with_at = if starts_with_char(login, '@') { login } else { seq!['@'] + login };
        if with_at.contains(':') {
            with_at
        } else {
            match host {
                Some(h) => with_at + seq![':'] + h,
                None => with_at,
            }
        }
    }
}

/// Complete a user login to a user id: `john` and `@john` become
/// `@john:host`, a full user id is kept (see [`completed_user_id`]).
pub fn full_user_id(user_login: &str, homeserver_host: Option<String>) -> (r: String)
    ensures
        r@ == completed_user_id(user_login@, opt_view(homeserver_host)),
{
    if user_login.unicode_len() == 0 {
        return String::new();
    }
    let mut r = if has_first_char(user_login, '@') {
        user_login.to_string()
    } else {
        let mut t = String::new();
        push_char(&mut t, '@');
        t.append(user_login);
        assert(t@ =~= seq!['@'] + user_login@);
        t
    };
    if has_char(r.as_str(), ':') {
        r
    } else {
        match homeserver_host {
            Some(h) => {
                push_char(&mut r, ':');
                r.append(h.as_str());
                r
            },
            None => r,
        }
    }
}

/// The user id a password login uses: the given user login (empty when
/// none), completed with the homeserver's host (see
/// [`completed_user_id`]), when that parses as a Matrix user id; otherwise
/// `None`.
pub fn login_user_id(user_login: Option<String>, homeserver: Option<String>) -> (r: Option<String>)
    ensures
        ({
            let login = match user_login {
                Some(u) => u@,
                None => Seq::<char>::empty(),
            };
            let s = completed_user_id(login, homeserver_host(homeserver));
            &&& matrix_user_id(s) ==> (r matches Some(id) && id@ == s)
            &&& !matrix_user_id(s) ==> r is None
        }),
{
    let login = match user_login {
        Some(u) => u,
        None => String::new(),
    };
    let host = homeserver_host_name(homeserver);
    let s = full_user_id(login.as_str(), host);
    let accepted = parses_as_user_id(s.as_str());
    user_id_outcome(s, accepted)
}

/// The user id of a login, from whether it parsed as a Matrix user id.
pub fn user_id_outcome(user_id: String, accepted: bool) -> (r: Option<String>)
    ensures
        accepted ==> r == Some(user_id),
        !accepted ==> r is None,
{
    if accepted {
        Some(user_id)
    } else {
        None
    }
}

} // verus!
