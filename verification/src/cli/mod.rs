//! The decisions behind the command line commands.

pub mod install_app_handler;
pub mod list_handler;
pub mod remove_handler;
pub mod update_handler;
