use matrix_commander::actions::{
    check_verify, effective_listen, encrypt_new_room, file_arguments, logout_plan, set_rooms,
    set_users, stdin_file_label, ActionRequest, RoomVisibility,
};
use matrix_commander::options::{LoginCLI, Logout};
use matrix_commander::config::ProfileConfig;
use matrix_commander::error::Error;
use matrix_commander::options::{Listen, Verify};

#[test]
fn rooms_and_users_default_when_empty() {
    let mut rooms: Vec<String> = Vec::new();
    set_rooms(&mut rooms, "!d:x");
    assert_eq!(rooms, vec!["!d:x".to_string()]);
    set_rooms(&mut rooms, "!other:x");
    assert_eq!(rooms, vec!["!d:x".to_string()]);
    let p = ProfileConfig {
        user_id: "@me:x".to_string(),
        homeserver: None,
        default_room: String::new(),
        dirs: None,
    };
    let mut users: Vec<String> = Vec::new();
    set_users(&mut users, &p);
    assert_eq!(users, vec!["@me:x".to_string()]);
}

#[test]
fn tail_count_forces_tail_listening() {
    assert_eq!(effective_listen(Listen::Once, 5), (Listen::Tail, true));
    assert_eq!(effective_listen(Listen::Never, 5), (Listen::Tail, false));
    assert_eq!(effective_listen(Listen::Tail, 5), (Listen::Tail, false));
    assert_eq!(effective_listen(Listen::Forever, 0), (Listen::Forever, false));
}

#[test]
fn new_rooms_are_encrypted_unless_public_or_plain() {
    assert!(encrypt_new_room(RoomVisibility::Private, None));
    assert!(!encrypt_new_room(RoomVisibility::Public, None));
    assert!(encrypt_new_room(RoomVisibility::Public, Some(false)));
    assert!(!encrypt_new_room(RoomVisibility::Private, Some(true)));
    assert!(encrypt_new_room(RoomVisibility::Other, None));
}

#[test]
fn verify_none_is_refused() {
    match check_verify(Verify::Unset) {
        Err(e @ Error::UnsupportedCliParameter(_)) => {
            assert_eq!(e.message(), "Unsupported CLI parameter: Argument --verify cannot be empty")
        }
        _ => panic!("expected an error"),
    }
    assert!(check_verify(Verify::Emoji).is_ok());
    assert!(check_verify(Verify::ManualUser).is_ok());
}

#[test]
fn files_skip_empty_names_and_label_defaults() {
    let files = vec!["a.txt".to_string(), "".to_string(), "-".to_string(), "\\-".to_string()];
    assert_eq!(
        file_arguments(&files),
        vec!["a.txt".to_string(), "-".to_string(), "\\-".to_string()]
    );
    assert_eq!(stdin_file_label(&Vec::new()), "file");
    assert_eq!(stdin_file_label(&vec!["x.bin".to_string(), "y".to_string()]), "x.bin");
}

fn no_actions() -> ActionRequest {
    ActionRequest {
        login: LoginCLI::Unset,
        whoami: false,
        bootstrap: false,
        verify: Verify::Unset,
        devices: false,
        get_room_info: 0,
        rooms: false,
        invited_rooms: false,
        joined_rooms: false,
        left_rooms: false,
        room_get_visibility: 0,
        room_get_state: 0,
        joined_members: 0,
        room_resolve_alias: 0,
        get_avatar: false,
        get_avatar_url: false,
        get_display_name: false,
        get_profile: false,
        media_download: 0,
        media_mxc_to_http: 0,
        get_masterkey: false,
        room_create: 0,
        room_dm_create: 0,
        room_leave: 0,
        room_forget: 0,
        room_invite: 0,
        room_join: 0,
        room_ban: 0,
        room_unban: 0,
        room_kick: 0,
        delete_device: 0,
        set_avatar: false,
        set_avatar_url: false,
        unset_avatar_url: false,
        set_display_name: false,
        room_enable_encryption: 0,
        media_upload: 0,
        media_delete: 0,
        message: 0,
        file: 0,
        listen: Listen::Never,
        tail: 0,
        logout: Logout::Unset,
    }
}

#[test]
fn server_is_needed_only_for_server_actions() {
    assert!(!no_actions().has_server_actions());
    assert!(ActionRequest { whoami: true, ..no_actions() }.has_server_actions());
    assert!(ActionRequest { message: 1, ..no_actions() }.has_server_actions());
    assert!(ActionRequest { tail: 3, ..no_actions() }.has_server_actions());
    assert!(ActionRequest { listen: Listen::Once, ..no_actions() }.has_server_actions());
    assert!(ActionRequest { logout: Logout::Me, ..no_actions() }.has_server_actions());
    assert!(ActionRequest { login: LoginCLI::Password, ..no_actions() }.has_server_actions());
    assert!(ActionRequest { verify: Verify::Emoji, ..no_actions() }.has_server_actions());
}

#[test]
fn logout_all_deletes_every_device_then_logs_out() {
    let none = logout_plan(Logout::Unset);
    assert!(none.delete_devices.is_empty() && !none.log_out);
    let me = logout_plan(Logout::Me);
    assert!(me.delete_devices.is_empty() && me.log_out);
    let all = logout_plan(Logout::All);
    assert_eq!(all.delete_devices, vec!["*"]);
    assert!(all.log_out);
}
