//! Commands to run as child processes, and what their runs amount to.

pub mod cmd;

pub use cmd::{label_for, stderr_of, stdout_of, with_cwd, with_env};
pub use cmd::{Cmd, CmdOutput, CmdView, Exit, LIVE_ROWS};
