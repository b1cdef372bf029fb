//! Prompt segments that describe the version-control state of a directory.

pub mod color;
pub mod config;
pub mod detect;
pub mod error;
pub mod git;
pub mod jj;
pub mod output;
pub mod prompt;
pub mod text;
