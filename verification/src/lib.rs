//! Verified core of a build-orchestration command line tool: the pure
//! decisions behind its live progress display, its process runner and its
//! file-system helpers.

pub mod cliutil;
pub mod cmds;
pub mod commands;
pub mod fsutil;
pub mod text;
