//! The failures that the session layer reports.
use vstd::prelude::*;

verus! {

/// Why login input was refused.
#[derive(Clone, Copy, Debug, PartialEq, Eq)]
pub enum InputProblem {
    /// The homeserver, the user name or the password is empty.
    MissingField,
    /// The homeserver URL starts with neither `http://` nor `https://`.
    MissingScheme,
}

/// An error of the session layer. Variants that carry a `String` hold the
/// protocol engine's or the filesystem's own description of the cause.
#[derive(Clone, Debug, PartialEq, Eq)]
pub enum SessionError {
    InvalidInput(InputProblem),
    NotLoggedIn,
    InvalidRoom(String),
    RoomNotFound,
    LoginFailed(String),
    SyncFailed(String),
    SendFailed(String),
    FetchFailed(String),
    LogoutFailed(String),
    StorageFailed(String),
    RecoveryFailed(String),
    CrossSigningUnavailable,
    DeviceListFailed(String),
    NoOtherDevices,
    NoDeviceAccepted,
    NoActiveVerification,
    VerificationNotFound,
    VerificationCancelled,
    WaitingForPeer,
    SasUnavailable,
    SasFailed(String),
    EmojiNotReady,
    CancelFailed(String),
}

} // verus!
