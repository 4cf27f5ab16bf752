//! Furtherance core: the records a time tracker keeps, the local record
//! store, and the end-to-end encrypted synchronisation protocol that
//! reconciles that store with a remote server.

pub mod constants;
pub mod database;
pub mod helpers;
pub mod localization;
pub mod models;
pub mod state;
