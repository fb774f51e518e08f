//! Cross-platform process control: command synthesis for the host's native
//! shell and normalization of what the native tools report.

pub mod platform;
pub mod text;
pub mod command;
pub mod matcher;
pub mod outcome;
pub mod operation;
