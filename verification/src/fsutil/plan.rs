//! What opening, removing and creating decide before they touch the disk.

use crate::fsutil::operms::{OPerms, Perm};
use vstd::prelude::*;

verus! {

/// The options to open a file with.
#[derive(Clone, Copy, Debug, PartialEq, Eq, Structural)]
pub struct OpenPlan {
    pub read: bool,
    pub write: bool,
    pub append: bool,
    pub create: bool,
    pub truncate: bool,
}

/// The options that the modes `perms` ask for.
pub open spec fn plan_of(perms: Set<Perm>) -> OpenPlan {
    OpenPlan {
        read: perms.contains(Perm::Read),
        write: perms.contains(Perm::Write),
        append: perms.contains(Perm::Append),
        create: perms.contains(Perm::Create),
        truncate: perms.contains(Perm::Trunc),
    }
}

/// The failure to report for a path that is not there.
pub open spec fn missing_spec(path: Seq<char>) -> Seq<char> {
    path + " does not exist"@
}

/// The failure to report for a path that is there and is no directory.
pub open spec fn not_a_directory_spec(path: Seq<char>) -> Seq<char> {
    path + " already exists as not a directory"@
}

/// The failure to report for a path that is not there.
pub fn missing(path: &str) -> (r: String)
    ensures
        r@ == missing_spec(path@),
{
    let mut out = String::from_str(path);
    out.append(" does not exist");
    out
}

/// How to open `path` with the modes `perms`, where `present` tells
/// whether it is there: a file that is missing and is not to be created
/// is a failure, else each mode sets its option.
pub fn open_plan(path: &str, present: bool, perms: OPerms) -> (r: Result<OpenPlan, String>)
    ensures
        match r {
            Ok(plan) => (present || perms@.contains(Perm::Create)) && plan == plan_of(perms@),
            Err(failure) => !present && !perms@.contains(Perm::Create) && failure@ == missing_spec(
                path@,
            ),
        },
{
    if !present && !perms.has(Perm::Create) {
        return Err(missing(path));
    }
    Ok(
        OpenPlan {
            read: perms.has(Perm::Read),
            write: perms.has(Perm::Write),
            append: perms.has(Perm::Append),
            create: perms.has(Perm::Create),
            truncate: perms.has(Perm::Trunc),
        },
    )
}

/// What removing a path does.
#[derive(Clone, Copy, Debug, PartialEq, Eq, Structural)]
pub enum Removal {
    /// The path is not there: say so and succeed.
    Nothing,
    /// Remove the directory and all below it.
    Tree,
    /// Remove the file.
    File,
}

/// What removing a path does, where `present` tells whether it is there
/// and `is_dir` whether it is a directory.
pub fn rm_plan(present: bool, is_dir: bool) -> (r: Removal)
    ensures
        r == if !present {
            Removal::Nothing
        } else if is_dir {
            Removal::Tree
        } else {
            Removal::File
        },
{
    if !present {
        Removal::Nothing
    } else if is_dir {
        Removal::Tree
    } else {
        Removal::File
    }
}

/// Whether creating the directory `dir` has anything to create, where
/// `present` tells whether the path is there and `is_dir` whether it is a
/// directory: a path that is there and is no directory is a failure.
pub fn mkdir_plan(dir: &str, present: bool, is_dir: bool) -> (r: Result<bool, String>)
    ensures
        match r {
            Ok(create) => (present ==> is_dir) && create == !present,
            Err(failure) => present && !is_dir && failure@ == not_a_directory_spec(dir@),
        },
{
    if present {
        if !is_dir {
            let mut out = String::from_str(dir);
            out.append(" already exists as not a directory");
            return Err(out);
        }
        return Ok(false);
    }
    Ok(true)
}

} // verus!
