//! Resolves a service's settings from built-in defaults, command-line flags
//! and an optional JSON settings file.

pub mod argument;
pub mod hosts;
pub mod laws;
pub mod menu;
pub mod numeric;
pub mod resolve;

pub use argument::Argument;
pub use hosts::split_hosts;
pub use menu::{menu, read_flags};
pub use resolve::{finish, plan, Flags, Plan};
