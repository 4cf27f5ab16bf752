use vstd::prelude::*;
use crate::helpers::server::encryption::CryptoError;
use crate::helpers::server::login::{bearer, logout_url};
use crate::helpers::server::sync::reset_user;
use crate::models::fur_user::{FurUser, FurUserFields};
use crate::state::{AuthState, FurState};

verus! {

/// What a logout sends.
#[derive(Debug)]
pub struct LogoutRequest {
    pub device_id: String,
}

/// A logout call, ready to be made: where it goes, the `Authorization`
/// header, and the body.
#[derive(Debug)]
pub struct LogoutCall {
    pub url: String,
    pub authorization: String,
    pub request: LogoutRequest,
}

/// The user to log out when the logout button is pressed, if anybody is
/// logged in.
pub fn logout_button_pressed(state: &FurState) -> (leaving: Option<FurUser>)
    ensures
        leaving == state.user,
{
    match &state.user {
        Some(user) => Some(user.duplicate()),
        None => None,
    }
}

/// The call that tells the server that `user` logs out on this device. A
/// device without identity makes no call: the logout goes on without the
/// server.
pub fn server_logout(user: &FurUser, device: &Result<String, CryptoError>) -> (call: Option<
    LogoutCall,
>)
    ensures
        match *device {
            Ok(id) => {
                &&& call matches Some(c)
                &&& c.url@ == user.server@ + "/api/logout"@
                &&& c.authorization@ == "Bearer "@ + user.access_token@
                &&& c.request.device_id == id
            },
            Err(_) => call is None,
        },
{
    match device {
        Ok(id) => Some(
            LogoutCall {
                url: logout_url(user.server.as_str()),
                authorization: bearer(user.access_token.as_str()),
                request: LogoutRequest { device_id: id.clone() },
            },
        ),
        Err(_) => None,
    }
}

/// Ends a logout, whatever the server said: nobody is logged in and the
/// login form is empty again. The stored credentials are to be deleted.
pub fn logout_complete(state: &mut FurState)
    ensures
        final(state).user is None,
        final(state).user_fields.is_blank(),
        final(state).auth_state() != AuthState::LoggedIn,
        final(state).settings == old(state).settings,
        final(state).sync_message == old(state).sync_message,
        final(state).tasks == old(state).tasks,
        final(state).shortcuts == old(state).shortcuts,
        final(state).todos == old(state).todos,
{
    reset_user(state);
    state.user_fields = FurUserFields::default();
}

} // verus!
