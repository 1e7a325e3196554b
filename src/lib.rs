//! Connection orchestration for a terminal that plays a Hayes modem while it
//! drives HTTP, file download, SSH and Telnet sessions.

pub mod config;
pub mod dispatch;
pub mod connector;
pub mod history;
pub mod lifecycle;
pub mod text;
