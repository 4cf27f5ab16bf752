pub mod init;
pub mod shortcuts;
pub mod store;
pub mod sync;
pub mod tasks;
pub mod todos;
