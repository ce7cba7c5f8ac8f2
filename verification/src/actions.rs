use vstd::prelude::*;
use crate::config::ProfileConfig;
use crate::error::Error;
use crate::options::{Listen, LoginCLI, Logout, Verify};
use crate::text::{lemma_filter_push, views};

verus! {

/// Use the default room when no room was given.
pub fn set_rooms(rooms: &mut Vec<String>, default_room: &str)
    ensures
        old(rooms)@.len() == 0 ==> views(final(rooms)@) == seq![default_room@],
        old(rooms)@.len() > 0 ==> final(rooms)@ == old(rooms)@,
{
    if rooms.len() == 0 {
        rooms.push(default_room.to_string());
        assert(views(rooms@) =~= seq![default_room@]);
    }
}

/// Use the profile's own user when no user was given.
pub fn set_users(users: &mut Vec<String>, profile: &ProfileConfig)
    ensures
        old(users)@.len() == 0 ==> views(final(users)@) == seq![profile.user_id@],
        old(users)@.len() > 0 ==> final(users)@ == old(users)@,
{
    if users.len() == 0 {
        users.push(profile.user_id.clone());
        assert(views(users@) =~= seq![profile.user_id@]);
    }
}

/// The listening mode in effect: a positive `--tail` count means tail
/// listening whatever `--listen` says. The flag tells whether the two
/// contradicted each other (a count was given with a mode other than
/// never and tail).
pub fn effective_listen(listen: Listen, tail: u64) -> (r: (Listen, bool))
    ensures
        tail > 0 ==> r.0 == Listen::Tail,
        tail == 0 ==> r.0 == listen,
        r.1 == (tail > 0 && listen != Listen::Never && listen != Listen::Tail),
{
    if tail > 0 {
        let contradicting = !listen.is_never() && !listen.is_tail();
        (Listen::Tail, contradicting)
    } else {
        (listen, false)
    }
}

/// Visibility of a room to be created.
#[derive(Clone, Copy, Debug, PartialEq, Eq, Structural)]
pub enum RoomVisibility {
    Private,
    Public,
    /// A visibility this program does not know.
    Other,
}

/// Whether a new room is encrypted: private rooms (and rooms of unknown
/// visibility) are encrypted unless `--plain` says otherwise; public rooms
/// are plain unless `--plain false` is given.
pub fn encrypt_new_room(visibility: RoomVisibility, plain: Option<bool>) -> (r: bool)
    ensures
        r == match visibility {
            RoomVisibility::Public => !(match plain { Some(p) => p, None => true }),
            _ => !(match plain { Some(p) => p, None => false }),
        },
{
    match visibility {
        RoomVisibility::Private => !plain.unwrap_or(false),
        RoomVisibility::Public => !plain.unwrap_or(true),
        RoomVisibility::Other => !plain.unwrap_or(false),
    }
}

/// The message when `--verify` is used without a method.
pub const VERIFY_EMPTY: &'static str = "Argument --verify cannot be empty";

/// The message when an unsupported verification method is asked for.
pub const VERIFY_UNSUPPORTED: &'static str = "Used --verify option is currently not supported";

/// Whether the verification method can be carried out: every method but
/// `none` can.
pub fn check_verify(verify: Verify) -> (r: Result<(), Error>)
    ensures
        verify == Verify::Unset ==> r == Err::<(), Error>(Error::UnsupportedCliParameter(VERIFY_EMPTY)),
        verify != Verify::Unset ==> r is Ok,
{
    if verify.is_none() {
        return Err(Error::UnsupportedCliParameter(VERIFY_EMPTY));
    }
    if !verify.is_manual_device() && !verify.is_manual_user() && !verify.is_emoji() && !verify.is_emoji_req() {
        return Err(Error::UnsupportedCliParameter(VERIFY_UNSUPPORTED));
    }
    Ok(())
}

/// The files a `--file` list asks to send: every non-empty name, in order
/// (`-` stands for standard input).
pub fn file_arguments(files: &Vec<String>) -> (r: Vec<String>)
    ensures
        views(r@) == views(files@).filter(|s: Seq<char>| s.len() > 0),
{
    let ghost keep = |s: Seq<char>| s.len() > 0;
    let mut out: Vec<String> = Vec::new();
    let n = files.len();
    let mut i: usize = 0;
    while i < n
        invariant
            n == files@.len(),
            i <= n,
            keep == (|s: Seq<char>| s.len() > 0),
            views(out@) == views(files@.subrange(0, i as int)).filter(keep),
        decreases n - i,
    {
        let f = &files[i];
        proof {
            let pre = views(files@.subrange(0, i as int));
            assert(views(files@.subrange(0, i + 1)) =~= pre.push(f@));
            lemma_filter_push(pre, keep, f@);
        }
        if f.as_str().unicode_len() > 0 {
            let ghost before = views(out@);
            out.push(f.clone());
            assert(views(out@) =~= before.push(f@));
        }
        i = i + 1;
    }
    assert(files@.subrange(0, n as int) =~= files@);
    out
}

/// The label given to data piped in on standard input.
pub const STDIN_FILE_LABEL: &'static str = "file";

/// The label of piped data: the first `--file-name`, or `file`.
pub fn stdin_file_label(file_names: &Vec<String>) -> (r: String)
    ensures
        file_names@.len() > 0 ==> r@ == file_names@[0]@,
        file_names@.len() == 0 ==> r@ == STDIN_FILE_LABEL@,
{
    if file_names.len() > 0 {
        file_names[0].clone()
    } else {
        STDIN_FILE_LABEL.to_string()
    }
}


/// The actions asked for on the command line, as far as deciding whether the
/// homeserver is needed goes: each list option by the number of its values,
/// each optional value by whether it was given.
#[derive(Clone, Copy, Debug)]
pub struct ActionRequest {
    pub login: LoginCLI,
    pub whoami: bool,
    pub bootstrap: bool,
    pub verify: Verify,
    pub devices: bool,
    pub get_room_info: usize,
    pub rooms: bool,
    pub invited_rooms: bool,
    pub joined_rooms: bool,
    pub left_rooms: bool,
    pub room_get_visibility: usize,
    pub room_get_state: usize,
    pub joined_members: usize,
    pub room_resolve_alias: usize,
    pub get_avatar: bool,
    pub get_avatar_url: bool,
    pub get_display_name: bool,
    pub get_profile: bool,
    pub media_download: usize,
    pub media_mxc_to_http: usize,
    pub get_masterkey: bool,
    pub room_create: usize,
    pub room_dm_create: usize,
    pub room_leave: usize,
    pub room_forget: usize,
    pub room_invite: usize,
    pub room_join: usize,
    pub room_ban: usize,
    pub room_unban: usize,
    pub room_kick: usize,
    pub delete_device: usize,
    pub set_avatar: bool,
    pub set_avatar_url: bool,
    pub unset_avatar_url: bool,
    pub set_display_name: bool,
    pub room_enable_encryption: usize,
    pub media_upload: usize,
    pub media_delete: usize,
    pub message: usize,
    pub file: usize,
    pub listen: Listen,
    pub tail: u64,
    pub logout: Logout,
}

/// Whether the request holds an action that needs the homeserver: a login,
/// any get, set, send or listen action, or a logout. Without one the
/// program is done without connecting.
pub open spec fn needs_server(a: ActionRequest) -> bool {
    ||| a.login != LoginCLI::Unset
    ||| a.whoami
    ||| a.bootstrap
    ||| a.verify != Verify::Unset
    ||| a.devices
    ||| a.get_room_info > 0
    ||| a.rooms
    ||| a.invited_rooms
    ||| a.joined_rooms
    ||| a.left_rooms
    ||| a.room_get_visibility > 0
    ||| a.room_get_state > 0
    ||| a.joined_members > 0
    ||| a.room_resolve_alias > 0
    ||| a.get_avatar
    ||| a.get_avatar_url
    ||| a.get_display_name
    ||| a.get_profile
    ||| a.media_download > 0
    ||| a.media_mxc_to_http > 0
    ||| a.get_masterkey
    ||| a.room_create > 0
    ||| a.room_dm_create > 0
    ||| a.room_leave > 0
    ||| a.room_forget > 0
    ||| a.room_invite > 0
    ||| a.room_join > 0
    ||| a.room_ban > 0
    ||| a.room_unban > 0
    ||| a.room_kick > 0
    ||| a.delete_device > 0
    ||| a.set_avatar
    ||| a.set_avatar_url
    ||| a.unset_avatar_url
    ||| a.set_display_name
    ||| a.room_enable_encryption > 0
    ||| a.media_upload > 0
    ||| a.media_delete > 0
    ||| a.message > 0
    ||| a.file > 0
    ||| a.listen != Listen::Never
    ||| a.tail > 0
    ||| a.logout != Logout::Unset
}

impl ActionRequest {
    /// Whether any action that needs the homeserver was asked for.
    pub fn has_server_actions(&self) -> (r: bool)
        ensures
            r == needs_server(*self),
    {
        self.login != LoginCLI::Unset
            || self.whoami
            || self.bootstrap
            || self.verify != Verify::Unset
            || self.devices
            || self.get_room_info > 0
            || self.rooms
            || self.invited_rooms
            || self.joined_rooms
            || self.left_rooms
            || self.room_get_visibility > 0
            || self.room_get_state > 0
            || self.joined_members > 0
            || self.room_resolve_alias > 0
            || self.get_avatar
            || self.get_avatar_url
            || self.get_display_name
            || self.get_profile
            || self.media_download > 0
            || self.media_mxc_to_http > 0
            || self.get_masterkey
            || self.room_create > 0
            || self.room_dm_create > 0
            || self.room_leave > 0
            || self.room_forget > 0
            || self.room_invite > 0
            || self.room_join > 0
            || self.room_ban > 0
            || self.room_unban > 0
            || self.room_kick > 0
            || self.delete_device > 0
            || self.set_avatar
            || self.set_avatar_url
            || self.unset_avatar_url
            || self.set_display_name
            || self.room_enable_encryption > 0
            || self.media_upload > 0
            || self.media_delete > 0
            || self.message > 0
            || self.file > 0
            || self.listen != Listen::Never
            || self.tail > 0
            || self.logout != Logout::Unset
    }
}

/// The device list that stands for every device of the user.
pub const ALL_DEVICES: &'static str = "*";

/// What a `--logout` asks for: the devices to delete first, and whether the
/// device in use is then logged out, which also removes the session file and
/// the store directory.
#[derive(Clone, Debug)]
pub struct LogoutPlan {
    pub delete_devices: Vec<String>,
    pub log_out: bool,
}

/// The steps of a logout: `me` logs out the device in use; `all` is
/// `--delete-device "*"` followed by `--logout me`; no `--logout` does
/// nothing.
pub fn logout_plan(logout: Logout) -> (r: LogoutPlan)
    ensures
        logout == Logout::Unset ==> r.delete_devices@.len() == 0 && !r.log_out,
        logout == Logout::Me ==> r.delete_devices@.len() == 0 && r.log_out,
        logout == Logout::All ==> views(r.delete_devices@) == seq![ALL_DEVICES@] && r.log_out,
{
    match logout {
        Logout::Unset => LogoutPlan { delete_devices: Vec::new(), log_out: false },
        Logout::Me => LogoutPlan { delete_devices: Vec::new(), log_out: true },
        Logout::All => {
            let mut d: Vec<String> = Vec::new();
            d.push(ALL_DEVICES.to_string());
            assert(views(d@) =~= seq![ALL_DEVICES@]);
            LogoutPlan { delete_devices: d, log_out: true }
        },
    }
}

/// Each action that talks to the homeserver needs it on its own: a request
/// that asks for any one of them connects, whatever else it holds.
pub proof fn lemma_each_server_action_needs_the_server(a: ActionRequest)
    ensures
        a.login != LoginCLI::Unset ==> needs_server(a),
        a.whoami ==> needs_server(a),
        a.bootstrap ==> needs_server(a),
        a.verify != Verify::Unset ==> needs_server(a),
        a.devices ==> needs_server(a),
        a.get_room_info > 0 ==> needs_server(a),
        a.rooms ==> needs_server(a),
        a.invited_rooms ==> needs_server(a),
        a.joined_rooms ==> needs_server(a),
        a.left_rooms ==> needs_server(a),
        a.room_get_visibility > 0 ==> needs_server(a),
        a.room_get_state > 0 ==> needs_server(a),
        a.joined_members > 0 ==> needs_server(a),
        a.room_resolve_alias > 0 ==> needs_server(a),
        a.get_avatar ==> needs_server(a),
        a.get_avatar_url ==> needs_server(a),
        a.get_display_name ==> needs_server(a),
        a.get_profile ==> needs_server(a),
        a.media_download > 0 ==> needs_server(a),
        a.media_mxc_to_http > 0 ==> needs_server(a),
        a.get_masterkey ==> needs_server(a),
        a.room_create > 0 ==> needs_server(a),
        a.room_dm_create > 0 ==> needs_server(a),
        a.room_leave > 0 ==> needs_server(a),
        a.room_forget > 0 ==> needs_server(a),
        a.room_invite > 0 ==> needs_server(a),
        a.room_join > 0 ==> needs_server(a),
        a.room_ban > 0 ==> needs_server(a),
        a.room_unban > 0 ==> needs_server(a),
        a.room_kick > 0 ==> needs_server(a),
        a.delete_device > 0 ==> needs_server(a),
        a.set_avatar ==> needs_server(a),
        a.set_avatar_url ==> needs_server(a),
        a.unset_avatar_url ==> needs_server(a),
        a.set_display_name ==> needs_server(a),
        a.room_enable_encryption > 0 ==> needs_server(a),
        a.media_upload > 0 ==> needs_server(a),
        a.media_delete > 0 ==> needs_server(a),
        a.message > 0 ==> needs_server(a),
        a.file > 0 ==> needs_server(a),
        a.listen != Listen::Never ==> needs_server(a),
        a.tail > 0 ==> needs_server(a),
        a.logout != Logout::Unset ==> needs_server(a),
{
}

/// A request that asks for no action at all needs no homeserver: the
/// program is done without connecting.
pub proof fn lemma_no_action_needs_no_server(a: ActionRequest)
    requires
        a.login == LoginCLI::Unset,
        !a.whoami,
        !a.bootstrap,
        a.verify == Verify::Unset,
        !a.devices,
        a.get_room_info == 0,
        !a.rooms,
        !a.invited_rooms,
        !a.joined_rooms,
        !a.left_rooms,
        a.room_get_visibility == 0,
        a.room_get_state == 0,
        a.joined_members == 0,
        a.room_resolve_alias == 0,
        !a.get_avatar,
        !a.get_avatar_url,
        !a.get_display_name,
        !a.get_profile,
        a.media_download == 0,
        a.media_mxc_to_http == 0,
        !a.get_masterkey,
        a.room_create == 0,
        a.room_dm_create == 0,
        a.room_leave == 0,
        a.room_forget == 0,
        a.room_invite == 0,
        a.room_join == 0,
        a.room_ban == 0,
        a.room_unban == 0,
        a.room_kick == 0,
        a.delete_device == 0,
        !a.set_avatar,
        !a.set_avatar_url,
        !a.unset_avatar_url,
        !a.set_display_name,
        a.room_enable_encryption == 0,
        a.media_upload == 0,
        a.media_delete == 0,
        a.message == 0,
        a.file == 0,
        a.listen == Listen::Never,
        a.tail == 0,
        a.logout == Logout::Unset,
    ensures
        !needs_server(a),
{
}

} // verus!
