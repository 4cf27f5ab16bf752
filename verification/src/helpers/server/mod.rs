pub mod encryption;
pub mod envelope;
pub mod login;
pub mod logout;
pub mod persisted;
pub mod reconcile;
pub mod status;
pub mod sync;
