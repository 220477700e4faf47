//! File-system helpers: open-mode flag sets, search-path text, and the
//! decisions that opening, removing and creating take before they touch
//! the disk.

pub mod operms;
pub mod paths;
pub mod plan;

pub use operms::OPerms;
pub use operms::Perm;
pub use paths::{add_env_path, add_env_path_on, normalize_path, normalize_path_on};
pub use paths::{get_tools_paths, split_entries, tools_paths_on, Platform};
pub use plan::{mkdir_plan, open_plan, rm_plan, OpenPlan, Removal};
