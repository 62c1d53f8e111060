//! Storage: the commands that set a volume up, and the order in which they run.

pub mod command;
pub mod header;
pub mod luks2;
pub mod mount;
pub mod mount_laws;
pub mod setup_laws;
pub mod command_laws;
pub mod call_laws;
