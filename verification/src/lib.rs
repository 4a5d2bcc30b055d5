//! Keeping stored accounts, the IDE's login and the command line's login in step.
pub mod account;
pub mod cli_import;
pub mod cli_laws;
pub mod cli_paths;
pub mod cli_switch;
pub mod expiry;
pub mod refresh_laws;
pub mod refresh_pass;
pub mod refresh_run;
pub mod refresh_service;
pub mod text;
pub mod token_sync;
pub mod user_info;
