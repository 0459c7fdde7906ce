pub mod exit_action;
pub mod file_entry;
