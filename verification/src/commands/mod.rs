//! What the build commands decide: whether to run at all, which tool to
//! call, and how the files that the tool generated are patched.

pub mod builders;
pub mod common;

pub use common::{resolve_project_root, setup_check, NOT_IN_PROJECT};
