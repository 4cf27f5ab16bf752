use vstd::prelude::*;
use crate::database::store::RecordStore;
use crate::helpers::server::status::{Notice, SyncMessage};
use crate::models::fur_settings::FurSettings;
use crate::models::fur_shortcut::FurShortcut;
use crate::models::fur_task::FurTask;
use crate::models::fur_todo::FurTodo;
use crate::models::fur_user::{FurUser, FurUserFields};

verus! {

/// Everything that synchronisation reads and changes, in one place: the
/// settings, the logged-in user, the login form, the status line, and the
/// three record stores.
pub struct FurState {
    pub settings: FurSettings,
    pub user: Option<FurUser>,
    pub user_fields: FurUserFields,
    pub sync_message: SyncMessage,
    pub tasks: RecordStore<FurTask>,
    pub shortcuts: RecordStore<FurShortcut>,
    pub todos: RecordStore<FurTodo>,
}

/// Where the user stands with the server.
#[derive(Debug, Clone, Copy, PartialEq, Eq, Structural)]
pub enum AuthState {
    /// Nobody is logged in.
    LoggedOut,
    /// Nobody is logged in yet, and a login is under way.
    LoggingIn,
    /// A user is logged in.
    LoggedIn,
}

impl FurState {
    /// Where the user stands with the server: logged in where there is a
    /// user; else logging in where the status line says so; else logged out.
    pub open spec fn auth_state(&self) -> AuthState {
        if self.user is Some {
            AuthState::LoggedIn
        } else if self.sync_message == SyncMessage::Positive(Notice::LoggingIn) {
            AuthState::LoggingIn
        } else {
            AuthState::LoggedOut
        }
    }

    /// Where the user stands with the server.
    pub fn authentication(&self) -> (auth: AuthState)
        ensures
            auth == self.auth_state(),
    {
        if self.user.is_some() {
            AuthState::LoggedIn
        } else {
            match self.sync_message {
                SyncMessage::Positive(Notice::LoggingIn) => AuthState::LoggingIn,
                _ => AuthState::LoggedOut,
            }
        }
    }

    /// The state of a fresh installation: default settings, nobody logged
    /// in, an empty form, a clear status line and empty stores.
    pub fn new() -> (state: FurState)
        ensures
            state.settings == FurSettings::initial(),
            state.user is None,
            state.auth_state() == AuthState::LoggedOut,
            state.user_fields.is_blank(),
            state.sync_message == SyncMessage::Clear,
            state.tasks@ == Seq::<FurTask>::empty(),
            state.shortcuts@ == Seq::<FurShortcut>::empty(),
            state.todos@ == Seq::<FurTodo>::empty(),
    {
        FurState {
            settings: FurSettings::default(),
            user: None,
            user_fields: FurUserFields::default(),
            sync_message: SyncMessage::Clear,
            tasks: RecordStore::new(),
            shortcuts: RecordStore::new(),
            todos: RecordStore::new(),
        }
    }
}

} // verus!
