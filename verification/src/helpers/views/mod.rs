pub mod settings;
pub mod shortcuts;
pub mod task_history;
pub mod task_input;
pub mod timer;
pub mod todos;
