//! Instructions for common tasks.

use crate::actions::{action, create_dir_perm, CreateDir, PathPermissions};
use crate::checks::{is_dir, IsDir};
use crate::interfaces::{Action, DynAction};
use crate::playbook::{instruction, Instruction};
use vstd::prelude::*;
use vstd::string::StringExecFns;

verus! {

/// The instruction to create a directory with given permissions unless it
/// is there: the action and the confirmation question, each under a name
/// that tells the path.
pub struct CreateDirIfMissing {
    pub action_name: String,
    pub action: CreateDir,
    pub confirm_name: String,
    pub confirm: IsDir,
}

/// The instruction to create the directory `path` with `permissions`
/// unless it is there.
pub fn create_dir_perm_if_missing(path: &str, permissions: PathPermissions) -> (ins:
    CreateDirIfMissing)
    ensures
        ins.action_name@ == "Create "@ + path@,
        ins.action.path@ == path@,
        ins.action.perm == permissions,
        ins.confirm_name@ == path@ + " directory"@,
        ins.confirm.path@ == path@,
{
    CreateDirIfMissing {
        action_name: "Create ".to_owned().concat(path),
        action: create_dir_perm(path, permissions),
        confirm_name: path.to_owned().concat(" directory"),
        confirm: is_dir(path),
    }
}

/// An instruction that runs `action_to_run` under the name `name`,
/// without any gate.
pub fn named(name: &str, action_to_run: DynAction) -> (ins: Instruction)
    ensures
        ins.action.label() == Some(name@),
        ins.action.outcome() == action_to_run.outcome(),
        ins.env_checks@.len() == 0,
        ins.confirm_checks@.len() == 0,
{
    instruction(action(name, action_to_run))
}

} // verus!
