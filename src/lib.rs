pub mod auth;
pub mod config;
pub mod file;
pub mod info;
pub mod os;
pub mod process;
pub mod processes;
pub mod request;
pub mod resource_usage;
pub mod usage;
pub mod utils;
