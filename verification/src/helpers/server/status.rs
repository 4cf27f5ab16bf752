use vstd::prelude::*;

verus! {

/// What the user is told about synchronisation and login.
#[derive(Debug, Clone, Copy, PartialEq, Eq, Structural)]
pub enum Notice {
    Syncing,
    /// Synchronisation succeeded, with the number of records exchanged.
    SyncSuccessful(usize),
    SyncFailed,
    ErrorDecryptingKey,
    LogInFirst,
    ReauthenticateError,
    SubscriptionInactive,
    LoggingIn,
    LoginSuccessful,
    LoginFailed,
    ServerMustContainProtocol,
    ErrorStoringCredentials,
}

impl Notice {
    /// The key under which the notice's text is found in the message
    /// catalogue.
    pub fn message_key(&self) -> (key: &'static str)
        ensures
            key@ == match *self {
                Notice::Syncing => "syncing"@,
                Notice::SyncSuccessful(_) => "sync-successful"@,
                Notice::SyncFailed => "sync-failed"@,
                Notice::ErrorDecryptingKey => "error-decrypting-key"@,
                Notice::LogInFirst => "log-in-first"@,
                Notice::ReauthenticateError => "reauthenticate-error"@,
                Notice::SubscriptionInactive => "subscription-inactive"@,
                Notice::LoggingIn => "logging-in"@,
                Notice::LoginSuccessful => "login-successful"@,
                Notice::LoginFailed => "login-failed"@,
                Notice::ServerMustContainProtocol => "server-must-contain-protocol"@,
                Notice::ErrorStoringCredentials => "error-storing-credentials"@,
            },
    {
        match self {
            Notice::Syncing => "syncing",
            Notice::SyncSuccessful(_) => "sync-successful",
            Notice::SyncFailed => "sync-failed",
            Notice::ErrorDecryptingKey => "error-decrypting-key",
            Notice::LogInFirst => "log-in-first",
            Notice::ReauthenticateError => "reauthenticate-error",
            Notice::SubscriptionInactive => "subscription-inactive",
            Notice::LoggingIn => "logging-in",
            Notice::LoginSuccessful => "login-successful",
            Notice::LoginFailed => "login-failed",
            Notice::ServerMustContainProtocol => "server-must-contain-protocol",
            Notice::ErrorStoringCredentials => "error-storing-credentials",
        }
    }
}

/// What the status line shows.
#[derive(Debug, Clone, Copy, PartialEq, Eq, Structural)]
pub enum SyncMessage {
    /// Nothing.
    Clear,
    /// Good news, or progress.
    Positive(Notice),
    /// A failure.
    Negative(Notice),
}

/// What clearing leaves of a message: "syncing" stays, since the round it
/// announces is still under way; anything else goes.
pub open spec fn cleared(message: SyncMessage) -> SyncMessage {
    if message == SyncMessage::Positive(Notice::Syncing) {
        message
    } else {
        SyncMessage::Clear
    }
}

/// Shows a positive message.
pub fn set_positive_sync_messsage(message: &mut SyncMessage, notice: Notice)
    ensures
        *final(message) == SyncMessage::Positive(notice),
{
    *message = SyncMessage::Positive(notice);
}

/// Shows a negative message.
pub fn set_negative_sync_message(message: &mut SyncMessage, notice: Notice)
    ensures
        *final(message) == SyncMessage::Negative(notice),
{
    *message = SyncMessage::Negative(notice);
}

/// Clears the status line when a message's time is up, unless "syncing" has
/// taken the message's place meanwhile.
pub fn clear_sync_message(message: &mut SyncMessage)
    ensures
        *final(message) == cleared(*old(message)),
{
    match *message {
        SyncMessage::Positive(Notice::Syncing) => {},
        _ => {
            *message = SyncMessage::Clear;
        },
    }
}

} // verus!
