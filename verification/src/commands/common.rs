//! What every build command checks before it starts.

use vstd::prelude::*;

verus! {

/// What a build command says where it is not run inside a project and was
/// not told to go on all the same.
pub const NOT_IN_PROJECT: &'static str =
    "not in react native project. specify one with `--project` or run with `--force` to ignore this";

/// The directory of the project: the one given, or `.` for the caller's
/// own.
pub fn resolve_project_root(project_root: Option<&str>) -> (r: String)
    ensures
        r@ == match project_root {
            Some(root) => root@,
            None => seq!['.'],
        },
{
    proof {
        reveal_strlit(".");
        assert("."@ =~= seq!['.']);
    }
    match project_root {
        Some(root) => String::from_str(root),
        None => String::from_str("."),
    }
}

/// Whether a build may start, where `in_project` tells whether it is run
/// inside a project and `force` whether it was told to go on all the
/// same. It may not where neither holds. Where it may, the result tells
/// whether to warn that the check was overridden: whenever `force` is set.
pub fn setup_check(in_project: bool, force: bool) -> (r: Result<bool, String>)
    ensures
        match r {
            Ok(warn) => (in_project || force) && warn == force,
            Err(failure) => !in_project && !force && failure@ == NOT_IN_PROJECT@,
        },
{
    if !in_project && !force {
        return Err(String::from_str(NOT_IN_PROJECT));
    }
    Ok(force)
}

} // verus!
