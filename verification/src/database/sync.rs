use vstd::prelude::*;
use crate::models::fur_user::FurUser;

verus! {

/// The stored credentials: at most one user per installation.
pub struct CredentialStore {
    pub row: Option<FurUser>,
}

impl CredentialStore {
    /// A store without credentials.
    pub fn new() -> (store: CredentialStore)
        ensures
            store.row is None,
    {
        CredentialStore { row: None }
    }

    /// The stored user, if there is one.
    pub fn retrieve_credentials(&self) -> (user: Option<FurUser>)
        ensures
            user == self.row,
    {
        match &self.row {
            Some(user) => Some(user.duplicate()),
            None => None,
        }
    }

    /// Stores the credentials of a login in place of whatever was stored.
    pub fn store_credentials(
        &mut self,
        email: &str,
        encrypted_key: &str,
        key_nonce: &str,
        access_token: &str,
        refresh_token: &str,
        server: &str,
    )
        ensures
            final(self).row matches Some(user) && user.email@ == email@ && user.encrypted_key@
                == encrypted_key@ && user.key_nonce@ == key_nonce@ && user.access_token@
                == access_token@ && user.refresh_token@ == refresh_token@ && user.server@
                == server@,
    {
        self.row = Some(
            FurUser {
                email: String::from_str(email),
                encrypted_key: String::from_str(encrypted_key),
                key_nonce: String::from_str(key_nonce),
                access_token: String::from_str(access_token),
                refresh_token: String::from_str(refresh_token),
                server: String::from_str(server),
            },
        );
    }

    /// Replaces the access token of the user with the given email. A store
    /// without that user stays as it is.
    pub fn update_access_token(&mut self, email: &str, new_token: &str)
        ensures
            match old(self).row {
                Some(user) => if user.email@ == email@ {
                    final(self).row matches Some(renewed) && renewed.access_token@ == new_token@
                        && renewed.email == user.email && renewed.encrypted_key
                        == user.encrypted_key && renewed.key_nonce == user.key_nonce
                        && renewed.refresh_token == user.refresh_token && renewed.server
                        == user.server
                } else {
                    final(self).row == old(self).row
                },
                None => final(self).row is None,
            },
    {
        let renewed = match &self.row {
            Some(user) => {
                if String::from_str(email) == user.email {
                    Some(user.with_access_token(new_token))
                } else {
                    None
                }
            },
            None => None,
        };
        match renewed {
            Some(user) => {
                self.row = Some(user);
            },
            None => {},
        }
    }

    /// Deletes the credentials.
    pub fn delete_all_credentials(&mut self)
        ensures
            final(self).row is None,
    {
        self.row = None;
    }
}

} // verus!
