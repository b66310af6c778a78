pub mod error;
pub mod file;
pub mod messages;
