pub mod actions;
pub mod color_utils;
pub mod formatters;
pub mod server;
pub mod tasks;
pub mod text;
pub mod view_enums;
pub mod views;
