//! Host facts for a terminal information tool: the desktop session name,
//! the current shell, the uptime and the host description.

pub mod host;
pub mod session;
pub mod shell;
pub mod text;
pub mod uptime;
