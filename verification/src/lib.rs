//! Resolves the user and group that a container should run as, and lists the
//! shell lines that create and configure them.

pub mod account;
pub mod config;
pub mod error;
pub mod laws;
pub mod line;
pub mod resolve;
pub mod setup;
pub mod system;
pub mod text;
