use vstd::prelude::*;

verus! {

/// Errors of the program that carry no value of another library.
#[derive(Clone, Copy, Debug)]
pub enum Error {
    Custom(&'static str),
    NoHomeDirectory,
    NotLoggedIn,
    InvalidRoom,
    HomeserverNotSet,
    InvalidFile,
    LoginFailed,
    VerifyFailed,
    BootstrapFailed,
    LoginUnnecessary,
    SendFailed,
    ListenFailed,
    CreateRoomFailed,
    LeaveRoomFailed,
    ForgetRoomFailed,
    InviteRoomFailed,
    JoinRoomFailed,
    BanRoomFailed,
    UnbanRoomFailed,
    KickRoomFailed,
    ResolveRoomAliasFailed,
    EnableEncryptionFailed,
    RoomGetVisibilityFailed,
    RoomGetStateFailed,
    JoinedMembersFailed,
    DeleteDeviceFailed,
    GetAvatarFailed,
    SetAvatarFailed,
    GetAvatarUrlFailed,
    SetAvatarUrlFailed,
    UnsetAvatarUrlFailed,
    GetDisplaynameFailed,
    SetDisplaynameFailed,
    GetProfileFailed,
    GetMasterkeyFailed,
    RestoreLoginFailed,
    MediaUploadFailed,
    MediaDownloadFailed,
    MediaDeleteFailed,
    MediaMxcToHttpFailed,
    InvalidClientConnection,
    UnknownCliParameter,
    UnsupportedCliParameter(&'static str),
    MissingRoom,
    MissingUser,
    MissingPassword,
    MissingCliParameter,
    NotImplementedYet,
    NoCredentialsFound,
}

/// The prefix of the message of an unsupported command-line parameter.
pub const UNSUPPORTED_PREFIX: &'static str = "Unsupported CLI parameter: ";

/// The message reported for each error.
pub open spec fn error_message(e: Error) -> Seq<char> {
    match e {
        Error::Custom(m) => m@,
        Error::NoHomeDirectory => "No valid home directory path"@,
        Error::NotLoggedIn => "Not logged in"@,
        Error::InvalidRoom => "Invalid Room"@,
        Error::HomeserverNotSet => "Homeserver Not Set"@,
        Error::InvalidFile => "Invalid File"@,
        Error::LoginFailed => "Login Failed"@,
        Error::VerifyFailed => "Verify Failed or Partially Failed"@,
        Error::BootstrapFailed => "Bootstrap Failed"@,
        Error::LoginUnnecessary => "Login Unnecessary"@,
        Error::SendFailed => "Send Failed"@,
        Error::ListenFailed => "Listen Failed"@,
        Error::CreateRoomFailed => "Create Room Failed"@,
        Error::LeaveRoomFailed => "Leave Room Failed"@,
        Error::ForgetRoomFailed => "Forget Room Failed"@,
        Error::InviteRoomFailed => "Invite Room Failed"@,
        Error::JoinRoomFailed => "Join Room Failed"@,
        Error::BanRoomFailed => "Ban Room Failed"@,
        Error::UnbanRoomFailed => "Unban Room Failed"@,
        Error::KickRoomFailed => "Kick Room Failed"@,
        Error::ResolveRoomAliasFailed => "Resolve Room Alias Failed"@,
        Error::EnableEncryptionFailed => "Enable Encryption Failed"@,
        Error::RoomGetVisibilityFailed => "Room Get Visibility Failed"@,
        Error::RoomGetStateFailed => "Room Get State Failed"@,
        Error::JoinedMembersFailed => "JoinedMembersFailed"@,
        Error::DeleteDeviceFailed => "Delete Device Failed"@,
        Error::GetAvatarFailed => "Get Avatar Failed"@,
        Error::SetAvatarFailed => "Set Avatar Failed"@,
        Error::GetAvatarUrlFailed => "Get Avatar URL Failed"@,
        Error::SetAvatarUrlFailed => "Set Avatar URL Failed"@,
        Error::UnsetAvatarUrlFailed => "Unset Avatar URL Failed"@,
        Error::GetDisplaynameFailed => "Get Displayname Failed"@,
        Error::SetDisplaynameFailed => "Set Displayname Failed"@,
        Error::GetProfileFailed => "Get Profile Failed"@,
        Error::GetMasterkeyFailed => "Get Masterkey Failed"@,
        Error::RestoreLoginFailed => "Restoring Login Failed"@,
        Error::MediaUploadFailed => "Media Upload Failed"@,
        Error::MediaDownloadFailed => "Media Download Failed"@,
        Error::MediaDeleteFailed => "Media Delete Failed"@,
        Error::MediaMxcToHttpFailed => "MXC TO HTTP Failed"@,
        Error::InvalidClientConnection => "Invalid Client Connection"@,
        Error::UnknownCliParameter => "Unknown CLI parameter"@,
        Error::UnsupportedCliParameter(m) => UNSUPPORTED_PREFIX@ + m@,
        Error::MissingRoom => "Missing Room"@,
        Error::MissingUser => "Missing User"@,
        Error::MissingPassword => "Missing Password"@,
        Error::MissingCliParameter => "Missing CLI parameter"@,
        Error::NotImplementedYet => "Not Implemented Yet"@,
        Error::NoCredentialsFound => "No Credentials Found"@,
    }
}

impl Error {
    /// An error with a message given on the spot.
    pub fn custom<T>(message: &'static str) -> (r: Result<T, Error>)
        ensures
            r == Err::<T, Error>(Error::Custom(message)),
    {
        Err(Error::Custom(message))
    }

    /// The message reported for the error.
    pub fn message(&self) -> (r: String)
        ensures
            r@ == error_message(*self),
    {
        match self {
            Error::Custom(m) => (*m).to_string(),
            Error::NoHomeDirectory => "No valid home directory path".to_string(),
            Error::NotLoggedIn => "Not logged in".to_string(),
            Error::InvalidRoom => "Invalid Room".to_string(),
            Error::HomeserverNotSet => "Homeserver Not Set".to_string(),
            Error::InvalidFile => "Invalid File".to_string(),
            Error::LoginFailed => "Login Failed".to_string(),
            Error::VerifyFailed => "Verify Failed or Partially Failed".to_string(),
            Error::BootstrapFailed => "Bootstrap Failed".to_string(),
            Error::LoginUnnecessary => "Login Unnecessary".to_string(),
            Error::SendFailed => "Send Failed".to_string(),
            Error::ListenFailed => "Listen Failed".to_string(),
            Error::CreateRoomFailed => "Create Room Failed".to_string(),
            Error::LeaveRoomFailed => "Leave Room Failed".to_string(),
            Error::ForgetRoomFailed => "Forget Room Failed".to_string(),
            Error::InviteRoomFailed => "Invite Room Failed".to_string(),
            Error::JoinRoomFailed => "Join Room Failed".to_string(),
            Error::BanRoomFailed => "Ban Room Failed".to_string(),
            Error::UnbanRoomFailed => "Unban Room Failed".to_string(),
            Error::KickRoomFailed => "Kick Room Failed".to_string(),
            Error::ResolveRoomAliasFailed => "Resolve Room Alias Failed".to_string(),
            Error::EnableEncryptionFailed => "Enable Encryption Failed".to_string(),
            Error::RoomGetVisibilityFailed => "Room Get Visibility Failed".to_string(),
            Error::RoomGetStateFailed => "Room Get State Failed".to_string(),
            Error::JoinedMembersFailed => "JoinedMembersFailed".to_string(),
            Error::DeleteDeviceFailed => "Delete Device Failed".to_string(),
            Error::GetAvatarFailed => "Get Avatar Failed".to_string(),
            Error::SetAvatarFailed => "Set Avatar Failed".to_string(),
            Error::GetAvatarUrlFailed => "Get Avatar URL Failed".to_string(),
            Error::SetAvatarUrlFailed => "Set Avatar URL Failed".to_string(),
            Error::UnsetAvatarUrlFailed => "Unset Avatar URL Failed".to_string(),
            Error::GetDisplaynameFailed => "Get Displayname Failed".to_string(),
            Error::SetDisplaynameFailed => "Set Displayname Failed".to_string(),
            Error::GetProfileFailed => "Get Profile Failed".to_string(),
            Error::GetMasterkeyFailed => "Get Masterkey Failed".to_string(),
            Error::RestoreLoginFailed => "Restoring Login Failed".to_string(),
            Error::MediaUploadFailed => "Media Upload Failed".to_string(),
            Error::MediaDownloadFailed => "Media Download Failed".to_string(),
            Error::MediaDeleteFailed => "Media Delete Failed".to_string(),
            Error::MediaMxcToHttpFailed => "MXC TO HTTP Failed".to_string(),
            Error::InvalidClientConnection => "Invalid Client Connection".to_string(),
            Error::UnknownCliParameter => "Unknown CLI parameter".to_string(),
            Error::UnsupportedCliParameter(m) => {
                let mut r = UNSUPPORTED_PREFIX.to_string();
                r.append(m);
                r
            },
            Error::MissingRoom => "Missing Room".to_string(),
            Error::MissingUser => "Missing User".to_string(),
            Error::MissingPassword => "Missing Password".to_string(),
            Error::MissingCliParameter => "Missing CLI parameter".to_string(),
            Error::NotImplementedYet => "Not Implemented Yet".to_string(),
            Error::NoCredentialsFound => "No Credentials Found".to_string(),
        }
    }
}

} // verus!
