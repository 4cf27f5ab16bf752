pub mod fur_alert;
pub mod fur_persist;
pub mod fur_pomodoro;
pub mod fur_settings;
pub mod fur_sheet;
pub mod fur_shortcut;
pub mod fur_task;
pub mod fur_task_group;
pub mod fur_todo;
pub mod fur_user;
pub mod moment;
pub mod rate;
pub mod record;
