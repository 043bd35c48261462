//! Checks and actions that are to run inside a given working directory,
//! which is left again afterwards.

use crate::interfaces::{ActionResult, DynAction, DynCheck};
use vstd::prelude::*;

verus! {

/// A working directory for checks and actions.
pub struct DirContext(pub String);

impl DirContext {
    pub fn new(path: String) -> (d: Self)
        ensures
            d.0 == path,
    {
        Self(path)
    }

    /// The directory.
    pub fn path(&self) -> (p: &str)
        ensures
            p@ == self.0@,
    {
        self.0.as_str()
    }

    /// Puts `c` into the directory.
    pub fn check(&self, c: DynCheck) -> (r: DirContextCheck)
        ensures
            r.path@ == self.0@,
            r.check == c,
    {
        DirContextCheck::new(self.0.clone(), c)
    }

    /// Puts `a` into the directory.
    pub fn action(&self, a: DynAction) -> (r: DirContextAction)
        ensures
            r.path@ == self.0@,
            r.action == a,
    {
        DirContextAction::new(self.0.clone(), a)
    }
}

/// The working directory `path`.
pub fn dir(path: &str) -> (d: DirContext)
    ensures
        d.0@ == path@,
{
    DirContext(path.to_owned())
}

/// A check that is asked inside a working directory.
pub struct DirContextCheck {
    pub path: String,
    pub check: DynCheck,
}

impl DirContextCheck {
    pub fn new(path: String, check: DynCheck) -> (c: Self)
        ensures
            c.path == path,
            c.check == check,
    {
        Self { path, check }
    }

    /// Short name of the check.
    pub fn name(&self) -> (s: &'static str)
        ensures
            s@ == "DirContext"@,
    {
        "DirContext"
    }

    /// The answer of the whole, given whether the directory could be
    /// entered, the answer of the check inside it, and whether the former
    /// directory could be entered again. The check is asked only inside
    /// the directory, so without entering there is no answer of it, and the
    /// whole answers `false`; so it does where the way back failed.
    pub fn settle(&self, entered: bool, inner: Option<bool>, restored: bool) -> (b: bool)
        ensures
            b == (entered && inner == Some(true) && restored),
    {
        if !entered || !restored {
            return false;
        }
        match inner {
            Some(answer) => answer,
            None => false,
        }
    }
}

/// An action that is run inside a working directory.
pub struct DirContextAction {
    pub path: String,
    pub action: DynAction,
}

impl DirContextAction {
    pub fn new(path: String, action: DynAction) -> (a: Self)
        ensures
            a.path == path,
            a.action == action,
    {
        Self { path, action }
    }

    /// Short name of the action.
    pub fn name(&self) -> (s: &'static str)
        ensures
            s@ == "DirContext"@,
    {
        "DirContext"
    }

    /// The outcome of the whole, given whether the directory could be
    /// entered, the outcome of the action inside it, and whether the former
    /// directory could be entered again. The action is run only inside the
    /// directory, so without entering there is no outcome of it, and the
    /// whole has failed; so it has where the way back failed.
    pub fn settle(&self, entered: bool, inner: Option<ActionResult>, restored: bool) -> (r:
        ActionResult)
        ensures
            r == (if entered && inner == Some(ActionResult::Success) && restored {
                ActionResult::Success
            } else {
                ActionResult::Fail
            }),
    {
        if !entered || !restored {
            return ActionResult::Fail;
        }
        match inner {
            Some(outcome) => outcome,
            None => ActionResult::Fail,
        }
    }
}

} // verus!
