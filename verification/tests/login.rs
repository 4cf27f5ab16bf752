use furtherance::helpers::server::encryption::{
    decrypt_encryption_key, derive_device_id, CryptoError,
};
use furtherance::helpers::server::login::{
    bearer, classify_status, complete_login, credentials_stored, endpoint, finish_login, login,
    login_button_pressed, login_request, login_url, logout_url, masked, normalize_server,
    refresh_auth_token, refresh_request, refresh_url, sync_url, ApiError, LoginAction,
    LoginResponse, RefreshResponse, Reply, StatusClass, Stored,
};
use furtherance::helpers::server::logout::{logout_button_pressed, logout_complete, server_logout};
use furtherance::helpers::server::status::{Notice, SyncMessage};
use furtherance::models::fur_user::FurUser;
use furtherance::state::{AuthState, FurState};

fn device() -> Result<String, CryptoError> {
    derive_device_id("test-host/tester")
}

fn tokens() -> LoginResponse {
    LoginResponse { access_token: "access".to_string(), refresh_token: "refresh".to_string() }
}

fn user() -> FurUser {
    FurUser {
        email: "a@example.org".to_string(),
        encrypted_key: "wrapped".to_string(),
        key_nonce: "nonce".to_string(),
        access_token: "access".to_string(),
        refresh_token: "refresh".to_string(),
        server: "https://sync.example.org".to_string(),
    }
}

fn filled_form() -> FurState {
    let mut app = FurState::new();
    app.user_fields.email = "a@example.org".to_string();
    app.user_fields.encryption_key = "my data key".to_string();
    app.user_fields.server = "https://sync.example.org//".to_string();
    app
}

#[test]
fn status_codes_fall_into_three_classes() {
    assert_eq!(classify_status(200), StatusClass::Success);
    assert_eq!(classify_status(204), StatusClass::Success);
    assert_eq!(classify_status(299), StatusClass::Success);
    assert_eq!(classify_status(199), StatusClass::Failure);
    assert_eq!(classify_status(300), StatusClass::Failure);
    assert_eq!(classify_status(401), StatusClass::Unauthorized);
    assert_eq!(classify_status(400), StatusClass::Failure);
    assert_eq!(classify_status(403), StatusClass::Failure);
    assert_eq!(classify_status(500), StatusClass::Failure);
    assert_eq!(classify_status(0), StatusClass::Failure);
}

#[test]
fn server_address_loses_its_trailing_slashes() {
    assert_eq!(normalize_server("https://sync.example.org/"), "https://sync.example.org");
    assert_eq!(normalize_server("https://sync.example.org///"), "https://sync.example.org");
    assert_eq!(normalize_server("https://sync.example.org"), "https://sync.example.org");
    assert_eq!(normalize_server("https://sync.example.org/api"), "https://sync.example.org/api");
    assert_eq!(normalize_server("///"), "");
    assert_eq!(normalize_server(""), "");
    assert_eq!(normalize_server("h\u{e9}te/"), "h\u{e9}te");
}

#[test]
fn endpoints_are_the_server_and_a_path() {
    assert_eq!(login_url("https://s"), "https://s/api/login");
    assert_eq!(refresh_url("https://s"), "https://s/api/refresh");
    assert_eq!(logout_url("https://s"), "https://s/api/logout");
    assert_eq!(sync_url("https://s"), "https://s/api/sync");
    assert_eq!(endpoint("a", "b"), "ab");
    assert_eq!(bearer("token"), "Bearer token");
}

#[test]
fn login_request_carries_the_device() {
    let request =
        login_request("a@example.org".to_string(), "key".to_string(), &Ok("device".to_string()))
            .expect("a request");
    assert_eq!(request.email, "a@example.org");
    assert_eq!(request.encryption_key, "key");
    assert_eq!(request.device_id, "device");
    let failed = login_request(
        "a@example.org".to_string(),
        "key".to_string(),
        &Err(CryptoError::DeviceDerivationFailed),
    );
    assert!(matches!(failed, Err(ApiError::Device(ref m)) if m == "Failed to generate device ID"));
}

#[test]
fn refresh_request_carries_the_device() {
    let request = refresh_request("refresh".to_string(), &Ok("device".to_string())).expect("a request");
    assert_eq!(request.refresh_token, "refresh");
    assert_eq!(request.device_id, "device");
    let failed = refresh_request("refresh".to_string(), &Err(CryptoError::DeviceDerivationFailed));
    assert!(matches!(failed, Err(ApiError::Device(ref m)) if m == "Failed to generate device ID"));
}

#[test]
fn login_outcomes() {
    let ok = login(Reply::Delivered(tokens())).expect("tokens");
    assert_eq!(ok.access_token, "access");
    assert_eq!(ok.refresh_token, "refresh");
    assert!(matches!(login(Reply::Refused(401)), Err(ApiError::Auth(ref m)) if m == "Invalid credentials"));
    assert!(matches!(login(Reply::Refused(500)), Err(ApiError::Auth(_))));
    assert!(matches!(
        login(Reply::Unreachable("builder error".to_string())),
        Err(ApiError::Network(ref m)) if m == "builder error"
    ));
    assert!(matches!(
        login(Reply::Unreadable("missing field".to_string())),
        Err(ApiError::Network(ref m)) if m == "missing field"
    ));
}

#[test]
fn refresh_outcomes() {
    let granted = RefreshResponse { access_token: "new".to_string() };
    assert_eq!(refresh_auth_token(Reply::Delivered(granted)).expect("a token"), "new");
    assert!(matches!(
        refresh_auth_token(Reply::Refused(401)),
        Err(ApiError::TokenRefresh(ref m)) if m == "Failed to refresh token"
    ));
    assert!(matches!(
        refresh_auth_token(Reply::Unreachable("timeout".to_string())),
        Err(ApiError::Network(ref m)) if m == "timeout"
    ));
    assert!(matches!(
        refresh_auth_token(Reply::Unreadable("eof".to_string())),
        Err(ApiError::Network(ref m)) if m == "eof"
    ));
}

#[test]
fn api_error_gives_its_text() {
    assert_eq!(ApiError::Auth("a".to_string()).message(), "a");
    assert_eq!(ApiError::Device("d".to_string()).message(), "d");
    assert_eq!(ApiError::InactiveSubscription("i".to_string()).message(), "i");
    assert_eq!(ApiError::Network("n".to_string()).message(), "n");
    assert_eq!(ApiError::Server("s".to_string()).message(), "s");
    assert_eq!(ApiError::TokenRefresh("t".to_string()).message(), "t");
    let copy = ApiError::Network("n".to_string()).duplicate();
    assert!(matches!(copy, ApiError::Network(ref m) if m == "n"));
}

#[test]
fn pressing_login_trims_the_server_and_announces_the_login() {
    let mut app = filled_form();
    login_button_pressed(&mut app);
    assert_eq!(app.user_fields.server, "https://sync.example.org");
    assert_eq!(app.user_fields.email, "a@example.org");
    assert_eq!(app.user_fields.encryption_key, "my data key");
    assert_eq!(app.sync_message, SyncMessage::Positive(Notice::LoggingIn));
}

#[test]
fn granted_login_hands_back_credentials_with_the_key_wrapped() {
    let mut app = filled_form();
    login_button_pressed(&mut app);
    let action = complete_login(&mut app, Ok(tokens()), &device());
    let stored = match action {
        LoginAction::Store(user) => user,
        LoginAction::Purge => panic!("the credentials are to be stored"),
    };
    assert_eq!(stored.email, "a@example.org");
    assert_eq!(stored.server, "https://sync.example.org");
    assert_eq!(stored.access_token, "access");
    assert_eq!(stored.refresh_token, "refresh");
    assert_ne!(stored.encrypted_key, "my data key");
    assert_eq!(
        decrypt_encryption_key(&stored.encrypted_key, &stored.key_nonce, &device().expect("id")),
        Ok("my data key".to_string())
    );
    assert!(app.user.is_none());

    // Stored and read back: the user is logged in and a full sync is due.
    app.settings.change_needs_full_sync(&false);
    app.settings.change_last_sync(&77);
    let sync_next = credentials_stored(&mut app, Stored::Kept(Some(stored)));
    assert!(sync_next);
    assert_eq!(app.user.as_ref().expect("a user").email, "a@example.org");
    assert!(app.settings.needs_full_sync);
    assert_eq!(app.settings.last_sync, 77);
    assert_eq!(app.user_fields.encryption_key, "xxxxxxxxxxx");
    assert_eq!(app.user_fields.email, "a@example.org");
    assert_eq!(app.user_fields.server, "https://sync.example.org");
    assert_eq!(app.sync_message, SyncMessage::Positive(Notice::LoginSuccessful));
}

#[test]
fn login_without_a_device_identity_stores_nothing() {
    let mut app = filled_form();
    app.user = Some(user());
    let action = complete_login(&mut app, Ok(tokens()), &Err(CryptoError::DeviceDerivationFailed));
    assert!(matches!(action, LoginAction::Purge));
    assert!(app.user.is_none());
    assert_eq!(app.sync_message, SyncMessage::Negative(Notice::ErrorStoringCredentials));
}

#[test]
fn failed_login_logs_out_and_says_why() {
    let mut app = filled_form();
    app.user = Some(user());
    let action =
        complete_login(&mut app, Err(ApiError::Auth("Invalid credentials".to_string())), &device());
    assert!(matches!(action, LoginAction::Purge));
    assert!(app.user.is_none());
    assert_eq!(app.sync_message, SyncMessage::Negative(Notice::LoginFailed));

    let mut app = filled_form();
    complete_login(&mut app, Err(ApiError::Network("connection refused".to_string())), &device());
    assert_eq!(app.sync_message, SyncMessage::Negative(Notice::LoginFailed));
}

#[test]
fn malformed_server_address_is_told_apart_from_a_network_failure() {
    let mut app = filled_form();
    let action =
        complete_login(&mut app, Err(ApiError::Network("builder error".to_string())), &device());
    assert!(matches!(action, LoginAction::Purge));
    assert_eq!(app.sync_message, SyncMessage::Negative(Notice::ServerMustContainProtocol));

    let mut app = filled_form();
    complete_login(&mut app, Err(ApiError::Server("builder error".to_string())), &device());
    assert_eq!(app.sync_message, SyncMessage::Negative(Notice::LoginFailed));
}

#[test]
fn credentials_that_cannot_be_written_leave_nobody_logged_in() {
    let mut app = filled_form();
    app.settings.change_needs_full_sync(&false);
    assert!(!credentials_stored(&mut app, Stored::WriteFailed));
    assert!(app.user.is_none());
    assert!(!app.settings.needs_full_sync);
    assert_eq!(app.sync_message, SyncMessage::Negative(Notice::ErrorStoringCredentials));
}

#[test]
fn credentials_that_cannot_be_read_back_leave_nobody_logged_in() {
    let mut app = filled_form();
    app.settings.change_needs_full_sync(&false);
    assert!(!credentials_stored(&mut app, Stored::ReadFailed));
    assert!(app.user.is_none());
    assert!(app.settings.needs_full_sync);
    assert_eq!(app.sync_message, SyncMessage::Negative(Notice::ErrorStoringCredentials));

    let mut app = filled_form();
    assert!(!credentials_stored(&mut app, Stored::Kept(None)));
    assert!(app.user.is_none());
    assert_eq!(app.sync_message, SyncMessage::Clear);
}

#[test]
fn mask_has_one_letter_per_byte() {
    assert_eq!(masked(0), "");
    assert_eq!(masked(3), "xxx");
    assert_eq!(masked(32), "xxxxxxxxxxxxxxxxxxxxxxxxxxxxxxxx");
}

#[test]
fn logout_names_the_user_and_builds_the_call() {
    let mut app = FurState::new();
    assert!(logout_button_pressed(&app).is_none());
    app.user = Some(user());
    let leaving = logout_button_pressed(&app).expect("a user");
    assert_eq!(leaving.email, "a@example.org");
    let call = server_logout(&leaving, &Ok("device".to_string())).expect("a call");
    assert_eq!(call.url, "https://sync.example.org/api/logout");
    assert_eq!(call.authorization, "Bearer access");
    assert_eq!(call.request.device_id, "device");
    assert!(server_logout(&leaving, &Err(CryptoError::DeviceDerivationFailed)).is_none());
}

#[test]
fn logout_completes_whatever_the_server_said() {
    let mut app = filled_form();
    app.user = Some(user());
    app.settings.change_last_sync(&5);
    logout_complete(&mut app);
    assert!(app.user.is_none());
    assert_eq!(app.user_fields.email, "");
    assert_eq!(app.user_fields.encryption_key, "");
    assert_eq!(app.user_fields.server, "https://sync.furtherance.app");
    assert_eq!(app.settings.last_sync, 5);
}

#[test]
fn the_user_moves_from_logged_out_through_logging_in_to_logged_in_and_back() {
    let mut app = filled_form();
    assert_eq!(app.authentication(), AuthState::LoggedOut);
    login_button_pressed(&mut app);
    assert_eq!(app.authentication(), AuthState::LoggingIn);
    let stored = match complete_login(&mut app, Ok(tokens()), &device()) {
        LoginAction::Store(user) => user,
        LoginAction::Purge => panic!("the credentials are to be stored"),
    };
    assert_eq!(app.authentication(), AuthState::LoggingIn);
    credentials_stored(&mut app, Stored::Kept(Some(stored)));
    assert_eq!(app.authentication(), AuthState::LoggedIn);
    logout_complete(&mut app);
    assert_eq!(app.authentication(), AuthState::LoggedOut);

    let mut app = filled_form();
    login_button_pressed(&mut app);
    complete_login(&mut app, Err(ApiError::Auth("Invalid credentials".to_string())), &device());
    assert_eq!(app.authentication(), AuthState::LoggedOut);
}

#[test]
fn a_granted_login_with_a_wrapped_key_hands_back_the_credentials_to_store() {
    let mut app = filled_form();
    login_button_pressed(&mut app);
    let wrapped = Ok(("wrapped key".to_string(), "wrap nonce".to_string()));
    let action = finish_login(&mut app, tokens(), &Ok("device".to_string()), wrapped);
    let stored = match action {
        LoginAction::Store(user) => user,
        LoginAction::Purge => panic!("the credentials are to be stored"),
    };
    assert_eq!(stored.email, "a@example.org");
    assert_eq!(stored.encrypted_key, "wrapped key");
    assert_eq!(stored.key_nonce, "wrap nonce");
    assert_eq!(stored.access_token, "access");
    assert_eq!(stored.refresh_token, "refresh");
    assert_eq!(stored.server, "https://sync.example.org");
    assert!(app.user.is_none());
    assert_eq!(app.sync_message, SyncMessage::Positive(Notice::LoggingIn));
    assert_eq!(app.user_fields.encryption_key, "my data key");
}

#[test]
fn a_granted_login_without_a_wrapped_key_stores_nothing() {
    let mut app = filled_form();
    app.user = Some(user());
    let action = finish_login(
        &mut app,
        tokens(),
        &Ok("device".to_string()),
        Err(CryptoError::EncryptionFailed),
    );
    assert!(matches!(action, LoginAction::Purge));
    assert!(app.user.is_none());
    assert_eq!(app.sync_message, SyncMessage::Negative(Notice::ErrorStoringCredentials));

    let mut app = filled_form();
    let action = finish_login(
        &mut app,
        tokens(),
        &Err(CryptoError::DeviceDerivationFailed),
        Ok(("wrapped key".to_string(), "wrap nonce".to_string())),
    );
    assert!(matches!(action, LoginAction::Purge));
    assert_eq!(app.sync_message, SyncMessage::Negative(Notice::ErrorStoringCredentials));
}
