//! Runs shell scripts on remote hosts over SSH: session caching, the
//! upload-execute-cleanup protocol and the construction of remote commands.
pub mod client;
pub mod command;
pub mod config;
pub mod error;
pub mod outcome;
pub mod session;
pub mod target;

pub use client::KuoriClient;
pub use config::{Config, SshConfigPath, Task};
pub use error::{KuoriError, MissingField};
pub use session::SessionManager;
