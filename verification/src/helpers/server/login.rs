use vstd::prelude::*;
use vstd::utf8::encode_utf8;
use crate::helpers::server::encryption::{encrypt_encryption_key, spec_unwrap, CryptoError};
use crate::helpers::server::status::{Notice, SyncMessage};
use crate::models::fur_user::FurUser;
use crate::state::{AuthState, FurState};

verus! {

/// Why an exchange with the server failed. Each variant carries the text
/// that describes the failure.
#[derive(Debug)]
pub enum ApiError {
    /// The server refused the credentials.
    Auth(String),
    /// No device identity could be derived.
    Device(String),
    /// The account's subscription is not active.
    InactiveSubscription(String),
    /// The request did not reach the server, or its answer could not be read.
    Network(String),
    /// The server answered with a failure.
    Server(String),
    /// The access token could not be renewed.
    TokenRefresh(String),
}

/// An `ApiError` with its text as a sequence of characters.
pub enum ApiErrorView {
    Auth(Seq<char>),
    Device(Seq<char>),
    InactiveSubscription(Seq<char>),
    Network(Seq<char>),
    Server(Seq<char>),
    TokenRefresh(Seq<char>),
}

impl View for ApiError {
    type V = ApiErrorView;

    open spec fn view(&self) -> ApiErrorView {
        match *self {
            ApiError::Auth(text) => ApiErrorView::Auth(text@),
            ApiError::Device(text) => ApiErrorView::Device(text@),
            ApiError::InactiveSubscription(text) => ApiErrorView::InactiveSubscription(text@),
            ApiError::Network(text) => ApiErrorView::Network(text@),
            ApiError::Server(text) => ApiErrorView::Server(text@),
            ApiError::TokenRefresh(text) => ApiErrorView::TokenRefresh(text@),
        }
    }
}

impl ApiError {
    /// The text that the error carries.
    pub fn message(&self) -> (text: &String)
        ensures
            text@ == match self@ {
                ApiErrorView::Auth(t) => t,
                ApiErrorView::Device(t) => t,
                ApiErrorView::InactiveSubscription(t) => t,
                ApiErrorView::Network(t) => t,
                ApiErrorView::Server(t) => t,
                ApiErrorView::TokenRefresh(t) => t,
            },
    {
        match self {
            ApiError::Auth(text) => text,
            ApiError::Device(text) => text,
            ApiError::InactiveSubscription(text) => text,
            ApiError::Network(text) => text,
            ApiError::Server(text) => text,
            ApiError::TokenRefresh(text) => text,
        }
    }

    /// An independent copy with the same view.
    pub fn duplicate(&self) -> (copy: ApiError)
        ensures
            copy@ == self@,
    {
        match self {
            ApiError::Auth(text) => ApiError::Auth(text.clone()),
            ApiError::Device(text) => ApiError::Device(text.clone()),
            ApiError::InactiveSubscription(text) => ApiError::InactiveSubscription(text.clone()),
            ApiError::Network(text) => ApiError::Network(text.clone()),
            ApiError::Server(text) => ApiError::Server(text.clone()),
            ApiError::TokenRefresh(text) => ApiError::TokenRefresh(text.clone()),
        }
    }
}

/// What a login sends: who the user is, the data key, and the device.
#[derive(Debug)]
pub struct LoginRequest {
    pub email: String,
    pub encryption_key: String,
    pub device_id: String,
}

/// What a successful login returns.
#[derive(Debug)]
pub struct LoginResponse {
    pub access_token: String,
    pub refresh_token: String,
}

/// What a token renewal sends.
#[derive(Debug)]
pub struct RefreshRequest {
    pub refresh_token: String,
    pub device_id: String,
}

/// What a successful token renewal returns.
#[derive(Debug)]
pub struct RefreshResponse {
    pub access_token: String,
}

/// How the server's status code is to be treated.
#[derive(Debug, Clone, Copy, PartialEq, Eq, Structural)]
pub enum StatusClass {
    /// 200 to 299.
    Success,
    /// 401: the access token was not accepted.
    Unauthorized,
    /// Anything else.
    Failure,
}

pub open spec fn spec_classify_status(status: u16) -> StatusClass {
    if 200 <= status <= 299 {
        StatusClass::Success
    } else if status == 401 {
        StatusClass::Unauthorized
    } else {
        StatusClass::Failure
    }
}

/// Sorts a status code into success, unauthorized, and failure.
pub fn classify_status(status: u16) -> (class: StatusClass)
    ensures
        class == spec_classify_status(status),
{
    if 200 <= status && status <= 299 {
        StatusClass::Success
    } else if status == 401 {
        StatusClass::Unauthorized
    } else {
        StatusClass::Failure
    }
}

/// `text` without the slashes at its end.
pub open spec fn spec_trim_slashes(text: Seq<char>) -> Seq<char>
    decreases text.len(),
{
    if text.len() > 0 && text.last() == '/' {
        spec_trim_slashes(text.drop_last())
    } else {
        text
    }
}

/// The server address as it is used: without trailing slashes, so that a
/// path can be appended.
pub fn normalize_server(server: &str) -> (address: String)
    ensures
        address@ == spec_trim_slashes(server@),
{
    let mut end = server.unicode_len();
    assert(server@.take(end as int) =~= server@);
    while end > 0 && server.get_char(end - 1) == '/'
        invariant
            end <= server@.len(),
            spec_trim_slashes(server@) == spec_trim_slashes(server@.take(end as int)),
        decreases end,
    {
        proof {
            let head = server@.take(end as int);
            assert(head.last() == server@[end - 1]);
            assert(head.drop_last() =~= server@.take(end - 1));
        }
        end -= 1;
    }
    proof {
        assert(server@.take(server@.len() as int) =~= server@);
        let head = server@.take(end as int);
        if end > 0 {
            assert(head.last() == server@[end - 1]);
        }
        assert(head =~= server@.subrange(0, end as int));
    }
    String::from_str(server.substring_char(0, end))
}

/// The address of an endpoint: the server's address and the endpoint's path.
pub fn endpoint(server: &str, path: &str) -> (url: String)
    ensures
        url@ == server@ + path@,
{
    String::from_str(server).concat(path)
}

/// The address to which logins go.
pub fn login_url(server: &str) -> (url: String)
    ensures
        url@ == server@ + "/api/login"@,
{
    endpoint(server, "/api/login")
}

/// The address to which token renewals go.
pub fn refresh_url(server: &str) -> (url: String)
    ensures
        url@ == server@ + "/api/refresh"@,
{
    endpoint(server, "/api/refresh")
}

/// The address to which logouts go.
pub fn logout_url(server: &str) -> (url: String)
    ensures
        url@ == server@ + "/api/logout"@,
{
    endpoint(server, "/api/logout")
}

/// The address to which synchronisation requests go.
pub fn sync_url(server: &str) -> (url: String)
    ensures
        url@ == server@ + "/api/sync"@,
{
    endpoint(server, "/api/sync")
}

/// The value of the `Authorization` header for an access token.
pub fn bearer(access_token: &str) -> (header: String)
    ensures
        header@ == "Bearer "@ + access_token@,
{
    String::from_str("Bearer ").concat(access_token)
}

/// How a request to the login or the renewal endpoint ended.
#[derive(Debug)]
pub enum Reply<T> {
    /// The request did not reach the server; the text says why.
    Unreachable(String),
    /// The server accepted the request and this is its answer.
    Delivered(T),
    /// The server accepted the request, but its answer could not be read.
    Unreadable(String),
    /// The server refused the request with this status.
    Refused(u16),
}

/// The text of the error for a device without identity.
pub open spec fn no_device_id() -> Seq<char> {
    "Failed to generate device ID"@
}

/// The request that a login sends, or a `Device` error where the device has
/// no identity.
pub fn login_request(
    email: String,
    encryption_key: String,
    device: &Result<String, CryptoError>,
) -> (request: Result<LoginRequest, ApiError>)
    ensures
        match *device {
            Ok(id) => request matches Ok(r) && r.email == email && r.encryption_key
                == encryption_key && r.device_id == id,
            Err(_) => request matches Err(e) && e@ == ApiErrorView::Device(no_device_id()),
        },
{
    match device {
        Ok(id) => Ok(LoginRequest { email, encryption_key, device_id: id.clone() }),
        Err(_) => Err(ApiError::Device(String::from_str("Failed to generate device ID"))),
    }
}

/// The request that a token renewal sends, or a `Device` error where the
/// device has no identity.
pub fn refresh_request(refresh_token: String, device: &Result<String, CryptoError>) -> (request:
    Result<RefreshRequest, ApiError>)
    ensures
        match *device {
            Ok(id) => request matches Ok(r) && r.refresh_token == refresh_token && r.device_id
                == id,
            Err(_) => request matches Err(e) && e@ == ApiErrorView::Device(no_device_id()),
        },
{
    match device {
        Ok(id) => Ok(RefreshRequest { refresh_token, device_id: id.clone() }),
        Err(_) => Err(ApiError::Device(String::from_str("Failed to generate device ID"))),
    }
}

/// The outcome of a login: the tokens where the server accepted it; an
/// `Auth` error where it refused; a `Network` error where the request did
/// not arrive or the answer cannot be read.
pub fn login(reply: Reply<LoginResponse>) -> (outcome: Result<LoginResponse, ApiError>)
    ensures
        match reply {
            Reply::Delivered(tokens) => outcome == Ok::<LoginResponse, ApiError>(tokens),
            Reply::Unreachable(text) => outcome matches Err(e) && e@ == ApiErrorView::Network(text@),
            Reply::Unreadable(text) => outcome matches Err(e) && e@ == ApiErrorView::Network(text@),
            Reply::Refused(_) => outcome matches Err(e) && e@ == ApiErrorView::Auth(
                "Invalid credentials"@,
            ),
        },
{
    match reply {
        Reply::Delivered(tokens) => Ok(tokens),
        Reply::Unreachable(text) => Err(ApiError::Network(text)),
        Reply::Unreadable(text) => Err(ApiError::Network(text)),
        Reply::Refused(_) => Err(ApiError::Auth(String::from_str("Invalid credentials"))),
    }
}

/// The outcome of a token renewal: the new access token where the server
/// granted it; a `TokenRefresh` error where it refused, which means that the
/// credentials are no longer valid; a `Network` error where the request did
/// not arrive or the answer cannot be read.
pub fn refresh_auth_token(reply: Reply<RefreshResponse>) -> (outcome: Result<String, ApiError>)
    ensures
        match reply {
            Reply::Delivered(granted) => outcome == Ok::<String, ApiError>(granted.access_token),
            Reply::Unreachable(text) => outcome matches Err(e) && e@ == ApiErrorView::Network(text@),
            Reply::Unreadable(text) => outcome matches Err(e) && e@ == ApiErrorView::Network(text@),
            Reply::Refused(_) => outcome matches Err(e) && e@ == ApiErrorView::TokenRefresh(
                "Failed to refresh token"@,
            ),
        },
{
    match reply {
        Reply::Delivered(granted) => Ok(granted.access_token),
        Reply::Unreachable(text) => Err(ApiError::Network(text)),
        Reply::Unreadable(text) => Err(ApiError::Network(text)),
        Reply::Refused(_) => Err(ApiError::TokenRefresh(String::from_str("Failed to refresh token"))),
    }
}

/// What the user is told when a login failed: to write the server's address
/// with its protocol where the address could not be made into a request, and
/// that the login failed otherwise.
pub open spec fn login_failure_notice(error: ApiErrorView) -> Notice {
    if error == ApiErrorView::Network("builder error"@) {
        Notice::ServerMustContainProtocol
    } else {
        Notice::LoginFailed
    }
}

/// The number of bytes that a text takes in memory, as a `usize` counts
/// them.
pub open spec fn byte_length(text: Seq<char>) -> nat {
    encode_utf8(text).len() as usize as nat
}

/// `count` times the letter x.
pub open spec fn mask(count: nat) -> Seq<char> {
    Seq::new(count, |i: int| 'x')
}

/// A text of `count` letters x, to show in place of a key.
pub fn masked(count: usize) -> (text: String)
    ensures
        text@ == mask(count as nat),
{
    let mut text = String::new();
    let mut i: usize = 0;
    proof {
        reveal_strlit("x");
    }
    while i < count
        invariant
            i <= count,
            text@ == mask(i as nat),
            "x"@ == seq!['x'],
        decreases count - i,
    {
        text.append("x");
        assert(text@ =~= mask((i + 1) as nat));
        i += 1;
    }
    text
}

/// Takes the login form as it is submitted: the server's address loses its
/// trailing slashes and the status line shows "logging in".
pub fn login_button_pressed(state: &mut FurState)
    ensures
        final(state).user_fields.server@ == spec_trim_slashes(old(state).user_fields.server@),
        final(state).user_fields.email == old(state).user_fields.email,
        final(state).user_fields.encryption_key == old(state).user_fields.encryption_key,
        final(state).user_fields.server_selection == old(state).user_fields.server_selection,
        final(state).sync_message == SyncMessage::Positive(Notice::LoggingIn),
        old(state).user is None ==> final(state).auth_state() == AuthState::LoggingIn,
        final(state).settings == old(state).settings,
        final(state).user == old(state).user,
        final(state).tasks == old(state).tasks,
        final(state).shortcuts == old(state).shortcuts,
        final(state).todos == old(state).todos,
{
    let server = normalize_server(state.user_fields.server.as_str());
    state.user_fields.server = server;
    state.sync_message = SyncMessage::Positive(Notice::LoggingIn);
}

/// What is to be done about the stored credentials after a login attempt.
pub enum LoginAction {
    /// Store these credentials, read them back, and report with
    /// `credentials_stored`.
    Store(FurUser),
    /// Delete whatever credentials are stored.
    Purge,
}

/// Ends a granted login once the data key has been handed to the wrapping.
///
/// Where the device has an identity and the key was wrapped, the credentials
/// to store are handed back: the form's email and server, the wrapped key
/// with its nonce, and the tokens; nothing else changes. In every other
/// case nobody is logged in, the stored credentials are to be deleted, and
/// the status line says that the credentials could not be stored.
pub fn finish_login(
    state: &mut FurState,
    tokens: LoginResponse,
    device: &Result<String, CryptoError>,
    wrapped: Result<(String, String), CryptoError>,
) -> (action: LoginAction)
    ensures
        final(state).settings == old(state).settings,
        final(state).user_fields == old(state).user_fields,
        final(state).tasks == old(state).tasks,
        final(state).shortcuts == old(state).shortcuts,
        final(state).todos == old(state).todos,
        match (*device, wrapped) {
            (Ok(_), Ok((encrypted_key, key_nonce))) => {
                &&& action == LoginAction::Store(
                    FurUser {
                        email: old(state).user_fields.email,
                        encrypted_key,
                        key_nonce,
                        access_token: tokens.access_token,
                        refresh_token: tokens.refresh_token,
                        server: old(state).user_fields.server,
                    },
                )
                &&& final(state).user == old(state).user
                &&& final(state).sync_message == old(state).sync_message
            },
            _ => {
                &&& action is Purge
                &&& final(state).user is None
                &&& final(state).auth_state() == AuthState::LoggedOut
                &&& final(state).sync_message == SyncMessage::Negative(
                    Notice::ErrorStoringCredentials,
                )
            },
        },
{
    let usable = match device {
        Ok(_) => wrapped,
        Err(_) => Err(CryptoError::DeviceDerivationFailed),
    };
    match usable {
        Ok((encrypted_key, key_nonce)) => LoginAction::Store(
            FurUser {
                email: state.user_fields.email.clone(),
                encrypted_key,
                key_nonce,
                access_token: tokens.access_token,
                refresh_token: tokens.refresh_token,
                server: state.user_fields.server.clone(),
            },
        ),
        Err(_) => {
            state.user = None;
            state.sync_message = SyncMessage::Negative(Notice::ErrorStoringCredentials);
            LoginAction::Purge
        },
    }
}

/// Completes a login attempt.
///
/// Where the server granted the login, the data key from the form is
/// wrapped for this device, and the credentials to store are handed back:
/// the form's email and server, the wrapped key and the tokens. Where the
/// key cannot be wrapped, or the login failed, nobody is logged in, the
/// stored credentials are to be deleted, and the status line says what went
/// wrong. Settings, form and stores stay as they are.
pub fn complete_login(
    state: &mut FurState,
    response_result: Result<LoginResponse, ApiError>,
    device: &Result<String, CryptoError>,
) -> (action: LoginAction)
    ensures
        final(state).settings == old(state).settings,
        final(state).user_fields == old(state).user_fields,
        final(state).tasks == old(state).tasks,
        final(state).shortcuts == old(state).shortcuts,
        final(state).todos == old(state).todos,
        match action {
            LoginAction::Store(user) => {
                &&& response_result matches Ok(tokens)
                &&& *device matches Ok(id)
                &&& final(state).user == old(state).user
                &&& final(state).sync_message == old(state).sync_message
                &&& user.email == old(state).user_fields.email
                &&& user.server == old(state).user_fields.server
                &&& user.access_token == tokens.access_token
                &&& user.refresh_token == tokens.refresh_token
                &&& spec_unwrap(user.encrypted_key@, user.key_nonce@, id@) == Some(
                    old(state).user_fields.encryption_key@,
                )
            },
            LoginAction::Purge => {
                &&& final(state).user is None
                &&& final(state).auth_state() == AuthState::LoggedOut
                &&& final(state).sync_message == SyncMessage::Negative(
                    match response_result {
                        Ok(_) => Notice::ErrorStoringCredentials,
                        Err(e) => login_failure_notice(e@),
                    },
                )
            },
        },
        response_result is Err ==> action is Purge,
        response_result is Ok && *device is Err ==> action is Purge,
{
    match response_result {
        Ok(tokens) => {
            let wrapped = match device {
                Ok(id) => encrypt_encryption_key(state.user_fields.encryption_key.as_str(), id.as_str()),
                Err(_) => Err(CryptoError::DeviceDerivationFailed),
            };
            finish_login(state, tokens, device, wrapped)
        },
        Err(error) => {
            state.user = None;
            let notice = match &error {
                ApiError::Network(text) => {
                    if String::from_str("builder error") == *text {
                        Notice::ServerMustContainProtocol
                    } else {
                        Notice::LoginFailed
                    }
                },
                _ => Notice::LoginFailed,
            };
            state.sync_message = SyncMessage::Negative(notice);
            LoginAction::Purge
        },
    }
}

/// How storing the credentials and reading them back went.
pub enum Stored {
    /// The credentials could not be written.
    WriteFailed,
    /// The credentials were written but could not be read back.
    ReadFailed,
    /// The credentials were written, and this is what the store now holds.
    Kept(Option<FurUser>),
}

/// Ends a login once the credentials have been handed to the store.
///
/// Where they could not be written or read back, nobody is logged in and
/// the status line says so. Once they were written, a full synchronisation
/// is due. Where the store then holds a user, that user is logged in, the
/// form shows the user's email and server and hides the key behind as many
/// letters x as the key had bytes, the status line reports success, and the
/// result is `true`: a synchronisation is to follow.
pub fn credentials_stored(state: &mut FurState, stored: Stored) -> (sync_next: bool)
    ensures
        final(state).tasks == old(state).tasks,
        final(state).shortcuts == old(state).shortcuts,
        final(state).todos == old(state).todos,
        match stored {
            Stored::WriteFailed => {
                &&& !sync_next
                &&& final(state).user is None
                &&& final(state).auth_state() == AuthState::LoggedOut
                &&& final(state).settings == old(state).settings
                &&& final(state).user_fields == old(state).user_fields
                &&& final(state).sync_message == SyncMessage::Negative(
                    Notice::ErrorStoringCredentials,
                )
            },
            Stored::ReadFailed => {
                &&& !sync_next
                &&& final(state).user is None
                &&& final(state).auth_state() == AuthState::LoggedOut
                &&& final(state).settings.needs_full_sync
                &&& final(state).settings.last_sync == old(state).settings.last_sync
                &&& final(state).user_fields == old(state).user_fields
                &&& final(state).sync_message == SyncMessage::Negative(
                    Notice::ErrorStoringCredentials,
                )
            },
            Stored::Kept(None) => {
                &&& !sync_next
                &&& final(state).user is None
                &&& final(state).settings.needs_full_sync
                &&& final(state).settings.last_sync == old(state).settings.last_sync
                &&& final(state).user_fields == old(state).user_fields
                &&& final(state).sync_message == old(state).sync_message
            },
            Stored::Kept(Some(user)) => {
                &&& sync_next
                &&& final(state).user == Some(user)
                &&& final(state).auth_state() == AuthState::LoggedIn
                &&& final(state).settings.needs_full_sync
                &&& final(state).settings.last_sync == old(state).settings.last_sync
                &&& final(state).user_fields.email == user.email
                &&& final(state).user_fields.server == user.server
                &&& final(state).user_fields.encryption_key@ == mask(
                    byte_length(old(state).user_fields.encryption_key@),
                )
                &&& final(state).user_fields.server_selection == old(
                    state,
                ).user_fields.server_selection
                &&& final(state).sync_message == SyncMessage::Positive(Notice::LoginSuccessful)
            },
        },
{
    match stored {
        Stored::WriteFailed => {
            state.user = None;
            state.sync_message = SyncMessage::Negative(Notice::ErrorStoringCredentials);
            false
        },
        Stored::ReadFailed => {
            state.settings.change_needs_full_sync(&true);
            state.user = None;
            state.sync_message = SyncMessage::Negative(Notice::ErrorStoringCredentials);
            false
        },
        Stored::Kept(None) => {
            state.settings.change_needs_full_sync(&true);
            state.user = None;
            false
        },
        Stored::Kept(Some(user)) => {
            state.settings.change_needs_full_sync(&true);
            let key_length = state.user_fields.encryption_key.as_str().len();
            state.user_fields.email = user.email.clone();
            state.user_fields.encryption_key = masked(key_length);
            state.user_fields.server = user.server.clone();
            state.user = Some(user);
            state.sync_message = SyncMessage::Positive(Notice::LoginSuccessful);
            true
        },
    }
}

} // verus!
