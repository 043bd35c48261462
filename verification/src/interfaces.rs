//! The two capabilities that everything else is built from: a check answers
//! a yes/no question, an action performs one effect.

use vstd::prelude::*;

verus! {

/// Outcome of running an action: it either succeeded or it failed, with no
/// further detail.
#[derive(Debug, Clone, Copy, PartialEq, Eq, Structural)]
pub enum ActionResult {
    /// The action succeeded.
    Success,
    /// The action failed.
    Fail,
}

impl ActionResult {
    /// Whether the outcome is a success.
    pub fn ok(&self) -> (b: bool)
        ensures
            b == (*self == ActionResult::Success),
    {
        match self {
            ActionResult::Success => true,
            ActionResult::Fail => false,
        }
    }

    /// Success for `true`, failure for `false`.
    pub fn from_bool(ok: bool) -> (r: ActionResult)
        ensures
            r == (if ok {
                ActionResult::Success
            } else {
                ActionResult::Fail
            }),
    {
        if ok {
            ActionResult::Success
        } else {
            ActionResult::Fail
        }
    }
}

impl vstd::std_specs::convert::FromSpecImpl<Result<(), ()>> for ActionResult {
    open spec fn obeys_from_spec() -> bool {
        true
    }

    open spec fn from_spec(value: Result<(), ()>) -> ActionResult {
        if value is Ok {
            ActionResult::Success
        } else {
            ActionResult::Fail
        }
    }
}

impl From<Result<(), ()>> for ActionResult {
    fn from(value: Result<(), ()>) -> (r: ActionResult) {
        match value {
            Ok(_) => ActionResult::Success,
            Err(_) => ActionResult::Fail,
        }
    }
}

/// A named yes/no question about the state of the system.
///
/// `yes` has no error channel: `false` stands both for "no" and for "could
/// not be determined".
pub trait Check {
    /// The name, where the value of the check alone fixes it.
    open spec fn label(&self) -> Option<Seq<char>> {
        None
    }

    /// The answer, where the value of the check alone fixes it; `None`
    /// where the state of the system decides.
    open spec fn answer(&self) -> Option<bool> {
        None
    }

    /// Short name of the check.
    fn name(&self) -> (s: &str)
        ensures
            self.label() matches Some(l) ==> s@ == l,
    ;

    /// Asks the question.
    fn yes(&self) -> (b: bool)
        ensures
            self.answer() matches Some(v) ==> b == v,
    ;
}

/// A named effect on the system with a two-valued outcome.
pub trait Action {
    /// The name, where the value of the action alone fixes it.
    open spec fn label(&self) -> Option<Seq<char>> {
        None
    }

    /// The outcome, where the value of the action alone fixes it; `None`
    /// where the state of the system decides.
    open spec fn outcome(&self) -> Option<ActionResult> {
        None
    }

    /// Short name of the action.
    fn name(&self) -> (s: &str)
        ensures
            self.label() matches Some(l) ==> s@ == l,
    ;

    /// Performs the effect.
    fn run(&self) -> (r: ActionResult)
        ensures
            self.outcome() matches Some(v) ==> r == v,
    ;
}

/// A check of any kind behind one type, so that checks of different kinds
/// can stand in one list.
///
/// The checks of this library come with a method or a function that puts
/// them behind this type. A check of another kind is put into the box
/// directly.
pub struct DynCheck {
    pub inner: Box<dyn Check>,
}

impl Check for DynCheck {
    open spec fn label(&self) -> Option<Seq<char>> {
        self.inner.label()
    }

    open spec fn answer(&self) -> Option<bool> {
        self.inner.answer()
    }

    fn name(&self) -> (s: &str) {
        self.inner.name()
    }

    fn yes(&self) -> (b: bool) {
        self.inner.yes()
    }
}

/// An action of any kind behind one type, so that actions of different
/// kinds can stand in one list.
///
/// The actions of this library come with a method or a function that puts
/// them behind this type. An action of another kind is put into the box
/// directly.
pub struct DynAction {
    pub inner: Box<dyn Action>,
}

impl Action for DynAction {
    open spec fn label(&self) -> Option<Seq<char>> {
        self.inner.label()
    }

    open spec fn outcome(&self) -> Option<ActionResult> {
        self.inner.outcome()
    }

    fn name(&self) -> (s: &str) {
        self.inner.name()
    }

    fn run(&self) -> (r: ActionResult) {
        self.inner.run()
    }
}

} // verus!
