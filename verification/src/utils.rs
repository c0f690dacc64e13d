//! Helpers that ask the operating system.

pub mod command;
pub mod environment;
