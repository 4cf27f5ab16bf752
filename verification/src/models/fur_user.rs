use vstd::prelude::*;
use crate::constants::official_server;
use crate::helpers::views::settings::ServerChoices;

verus! {

/// The credentials of the one user of this installation, as they are stored:
/// the data key only in wrapped form.
#[derive(Debug)]
pub struct FurUser {
    pub email: String,
    pub encrypted_key: String,
    pub key_nonce: String,
    pub access_token: String,
    pub refresh_token: String,
    pub server: String,
}

impl FurUser {
    /// An independent copy, equal in every field.
    pub fn duplicate(&self) -> (copy: FurUser)
        ensures
            copy == *self,
    {
        FurUser {
            email: self.email.clone(),
            encrypted_key: self.encrypted_key.clone(),
            key_nonce: self.key_nonce.clone(),
            access_token: self.access_token.clone(),
            refresh_token: self.refresh_token.clone(),
            server: self.server.clone(),
        }
    }

    /// The same user with a new access token.
    pub fn with_access_token(&self, token: &str) -> (renewed: FurUser)
        ensures
            renewed.access_token@ == token@,
            renewed.email == self.email,
            renewed.encrypted_key == self.encrypted_key,
            renewed.key_nonce == self.key_nonce,
            renewed.refresh_token == self.refresh_token,
            renewed.server == self.server,
    {
        FurUser {
            email: self.email.clone(),
            encrypted_key: self.encrypted_key.clone(),
            key_nonce: self.key_nonce.clone(),
            access_token: String::from_str(token),
            refresh_token: self.refresh_token.clone(),
            server: self.server.clone(),
        }
    }
}

/// What the login form holds.
#[derive(Debug)]
pub struct FurUserFields {
    pub email: String,
    pub encryption_key: String,
    pub server: String,
    pub server_selection: ServerChoices,
}

impl FurUserFields {
    /// Whether the form is as `default` makes it.
    pub open spec fn is_blank(&self) -> bool {
        &&& self.email@ == Seq::<char>::empty()
        &&& self.encryption_key@ == Seq::<char>::empty()
        &&& self.server@ == "https://sync.furtherance.app"@
        &&& self.server_selection == ServerChoices::Official
    }
}

impl Default for FurUserFields {
    /// An empty form that points at the official server.
    fn default() -> (fields: Self)
        ensures
            fields.is_blank(),
    {
        FurUserFields {
            email: String::new(),
            encryption_key: String::new(),
            server: String::from_str(official_server()),
            server_selection: ServerChoices::Official,
        }
    }
}

} // verus!
