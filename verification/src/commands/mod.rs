//! The commands of the API: settings, history, tasks, files and notifications.

pub mod file_ops;
pub mod history;
pub mod notify;
pub mod settings;
pub mod tasks;
