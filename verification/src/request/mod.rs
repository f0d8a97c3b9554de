//! The command that a session builds: its family and its record.

pub mod cmdtype;
pub mod command;
pub mod curl;
pub mod synthesis;
pub mod wget;
