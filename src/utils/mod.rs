pub mod command;
pub mod env;
pub mod error;
pub mod output;
pub mod path;
pub mod string;
