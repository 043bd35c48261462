//! Actions: the ones whose outcome is fixed, the ones that combine other
//! actions, and the descriptions of the effects that the host system is
//! asked for.

use crate::interfaces::{Action, ActionResult, DynAction};
use crate::paths::{file_name_of, join_path, joined, last_part};
use crate::pattern::Pattern;
use crate::process::{norm_cmd, slice_words, words, ExitCode, ProcessResult};
use nix::unistd::{Group, User};
use vstd::prelude::*;

verus! {

/// Action which does nothing and always succeeds.
pub struct AlwaysOk;

impl Action for AlwaysOk {
    open spec fn label(&self) -> Option<Seq<char>> {
        Some("AlwaysOk"@)
    }

    open spec fn outcome(&self) -> Option<ActionResult> {
        Some(ActionResult::Success)
    }

    fn name(&self) -> (s: &str) {
        "AlwaysOk"
    }

    fn run(&self) -> (r: ActionResult) {
        ActionResult::Success
    }
}

impl AlwaysOk {
    /// Puts the action behind the common type.
    pub fn into_action(self) -> (a: DynAction)
        ensures
            a.outcome() == Some(ActionResult::Success),
            a.label() == Some("AlwaysOk"@),
    {
        DynAction { inner: Box::new(self) }
    }
}

/// An action which does nothing and always succeeds.
pub fn always_ok() -> (a: DynAction)
    ensures
        a.outcome() == Some(ActionResult::Success),
        a.label() == Some("AlwaysOk"@),
{
    AlwaysOk.into_action()
}

/// Action which does nothing and always fails.
pub struct AlwaysFail;

impl Action for AlwaysFail {
    open spec fn label(&self) -> Option<Seq<char>> {
        Some("AlwaysFail"@)
    }

    open spec fn outcome(&self) -> Option<ActionResult> {
        Some(ActionResult::Fail)
    }

    fn name(&self) -> (s: &str) {
        "AlwaysFail"
    }

    fn run(&self) -> (r: ActionResult) {
        ActionResult::Fail
    }
}

impl AlwaysFail {
    /// Puts the action behind the common type.
    pub fn into_action(self) -> (a: DynAction)
        ensures
            a.outcome() == Some(ActionResult::Fail),
            a.label() == Some("AlwaysFail"@),
    {
        DynAction { inner: Box::new(self) }
    }
}

/// An action which does nothing and always fails.
pub fn always_fail() -> (a: DynAction)
    ensures
        a.outcome() == Some(ActionResult::Fail),
        a.label() == Some("AlwaysFail"@),
{
    AlwaysFail.into_action()
}

/// Action which gives another action a new name and leaves the effect as
/// it is.
pub struct Named {
    pub name: String,
    pub action: DynAction,
}

impl Named {
    pub fn new(name: String, action: DynAction) -> (n: Self)
        ensures
            n.name == name,
            n.action == action,
    {
        Self { name, action }
    }

    /// Puts the action behind the common type.
    pub fn into_action(self) -> (a: DynAction)
        ensures
            a.outcome() == self.action.outcome(),
            a.label() == Some(self.name@),
    {
        DynAction { inner: Box::new(self) }
    }
}

impl Action for Named {
    open spec fn label(&self) -> Option<Seq<char>> {
        Some(self.name@)
    }

    open spec fn outcome(&self) -> Option<ActionResult> {
        self.action.outcome()
    }

    fn name(&self) -> (s: &str) {
        self.name.as_str()
    }

    fn run(&self) -> (r: ActionResult) {
        self.action.run()
    }
}

/// Gives `inner` the name `name`.
pub fn action(name: &str, inner: DynAction) -> (a: DynAction)
    ensures
        a.outcome() == inner.outcome(),
        a.label() == Some(name@),
{
    Named::new(name.to_owned(), inner).into_action()
}

/// Every action of the list is known to succeed.
pub open spec fn all_succeed(actions: Seq<DynAction>) -> bool {
    forall|i: int|
        0 <= i < actions.len() ==> (#[trigger] actions[i]).outcome() == Some(
            ActionResult::Success,
        )
}

/// Some action of the list is known to fail.
pub open spec fn some_fails(actions: Seq<DynAction>) -> bool {
    exists|i: int|
        0 <= i < actions.len() && (#[trigger] actions[i]).outcome() == Some(ActionResult::Fail)
}

/// What is known of the outcome of running `actions` in order up to the
/// first failure: a failure where some action is known to fail, a success
/// where all are known to succeed (so for an empty list).
pub open spec fn many_outcome(actions: Seq<DynAction>) -> Option<ActionResult> {
    if some_fails(actions) {
        Some(ActionResult::Fail)
    } else if all_succeed(actions) {
        Some(ActionResult::Success)
    } else {
        None
    }
}

/// `outcomes` can be what running `actions` gave, in order and up to the
/// first failure: every action that was run but the last succeeded, an
/// action whose outcome is fixed had it, and where an action was left out
/// the last one that was run had failed.
pub open spec fn ran_in_order(actions: Seq<DynAction>, outcomes: Seq<ActionResult>) -> bool {
    &&& outcomes.len() <= actions.len()
    &&& forall|i: int|
        0 <= i < outcomes.len() ==> ((#[trigger] actions[i]).outcome() matches Some(v)
            ==> outcomes[i] == v)
    &&& forall|i: int| 0 <= i < outcomes.len() - 1 ==> outcomes[i] == ActionResult::Success
    &&& outcomes.len() < actions.len() ==> outcomes.len() > 0 && outcomes.last()
        == ActionResult::Fail
}

/// The outcome of the whole: a failure where the last action that was run
/// failed, a success otherwise.
pub open spec fn verdict_of(outcomes: Seq<ActionResult>) -> ActionResult {
    if outcomes.len() > 0 && outcomes.last() == ActionResult::Fail {
        ActionResult::Fail
    } else {
        ActionResult::Success
    }
}

/// The outcome of the whole, given the outcomes of the actions that were
/// run.
pub fn verdict(outcomes: &Vec<ActionResult>) -> (r: ActionResult)
    ensures
        r == verdict_of(outcomes@),
{
    if outcomes.len() == 0 {
        return ActionResult::Success;
    }
    outcomes[outcomes.len() - 1]
}

/// The outcome of a run in order agrees with what is known of the
/// actions beforehand.
pub proof fn lemma_verdict_fits_what_is_known(
    actions: Seq<DynAction>,
    outcomes: Seq<ActionResult>,
)
    requires
        ran_in_order(actions, outcomes),
    ensures
        many_outcome(actions) matches Some(v) ==> verdict_of(outcomes) == v,
{
    if some_fails(actions) {
        let k = choose|i: int|
            0 <= i < actions.len() && (#[trigger] actions[i]).outcome() == Some(
                ActionResult::Fail,
            );
        if k < outcomes.len() {
            assert(outcomes[k] == ActionResult::Fail);
        }
    } else if all_succeed(actions) {
        if outcomes.len() > 0 {
            assert(actions[outcomes.len() - 1].outcome() == Some(ActionResult::Success));
        }
    }
}

/// Runs several actions as one: in order, up to the first that fails. It
/// succeeds if none fails, so for an empty list.
pub struct Many {
    pub actions: Vec<DynAction>,
}

impl Many {
    pub fn new(actions: Vec<DynAction>) -> (m: Self)
        ensures
            m.actions == actions,
    {
        Self { actions }
    }

    /// Runs the actions in order, up to the first that fails, and hands
    /// out the outcome of each one that was run.
    pub fn run_each(&self) -> (outcomes: Vec<ActionResult>)
        ensures
            ran_in_order(self.actions@, outcomes@),
    {
        let mut outcomes: Vec<ActionResult> = Vec::new();
        let mut i: usize = 0;
        while i < self.actions.len()
            invariant
                i <= self.actions@.len(),
                outcomes@.len() == i,
                forall|j: int|
                    0 <= j < i ==> ((#[trigger] self.actions@[j]).outcome() matches Some(v)
                        ==> outcomes@[j] == v),
                forall|j: int| 0 <= j < i ==> outcomes@[j] == ActionResult::Success,
            decreases self.actions@.len() - i,
        {
            let outcome = self.actions[i].run();
            outcomes.push(outcome);
            match outcome {
                ActionResult::Fail => {
                    return outcomes;
                },
                ActionResult::Success => {},
            }
            i = i + 1;
        }
        outcomes
    }

    /// Puts the action behind the common type.
    pub fn into_action(self) -> (a: DynAction)
        ensures
            a.outcome() == many_outcome(self.actions@),
            a.label() == Some("Many"@),
    {
        DynAction { inner: Box::new(self) }
    }
}

impl Action for Many {
    open spec fn label(&self) -> Option<Seq<char>> {
        Some("Many"@)
    }

    open spec fn outcome(&self) -> Option<ActionResult> {
        many_outcome(self.actions@)
    }

    fn name(&self) -> (s: &str) {
        "Many"
    }

    fn run(&self) -> (r: ActionResult)
        ensures
            exists|outcomes: Seq<ActionResult>|
                #[trigger] ran_in_order(self.actions@, outcomes) && r == verdict_of(outcomes),
    {
        let outcomes = self.run_each();
        proof {
            lemma_verdict_fits_what_is_known(self.actions@, outcomes@);
        }
        verdict(&outcomes)
    }
}

/// Several actions as one, run in order up to the first failure.
pub fn many(actions: Vec<DynAction>) -> (a: DynAction)
    ensures
        a.outcome() == many_outcome(actions@),
        a.label() == Some("Many"@),
{
    Many::new(actions).into_action()
}

/// The other outcome.
pub open spec fn inverted(r: ActionResult) -> ActionResult {
    match r {
        ActionResult::Success => ActionResult::Fail,
        ActionResult::Fail => ActionResult::Success,
    }
}

/// What is known of the outcome of an inverted action.
pub open spec fn invert_outcome(inner: Option<ActionResult>) -> Option<ActionResult> {
    match inner {
        Some(r) => Some(inverted(r)),
        None => None,
    }
}

/// Inverts the outcome of another action: a success becomes a failure, a
/// failure a success.
pub struct Invert {
    pub action: DynAction,
}

impl Invert {
    pub fn new(action: DynAction) -> (i: Self)
        ensures
            i.action == action,
    {
        Self { action }
    }

    /// Puts the action behind the common type.
    pub fn into_action(self) -> (a: DynAction)
        ensures
            a.outcome() == invert_outcome(self.action.outcome()),
            a.label() == Some("Invert"@),
    {
        DynAction { inner: Box::new(self) }
    }
}

impl Action for Invert {
    open spec fn label(&self) -> Option<Seq<char>> {
        Some("Invert"@)
    }

    open spec fn outcome(&self) -> Option<ActionResult> {
        invert_outcome(self.action.outcome())
    }

    fn name(&self) -> (s: &str) {
        "Invert"
    }

    fn run(&self) -> (r: ActionResult) {
        match self.action.run() {
            ActionResult::Success => ActionResult::Fail,
            ActionResult::Fail => ActionResult::Success,
        }
    }
}

/// The action `inner` with its outcome inverted.
pub fn invert(inner: DynAction) -> (a: DynAction)
    ensures
        a.outcome() == invert_outcome(inner.outcome()),
        a.label() == Some("Invert"@),
{
    Invert::new(inner).into_action()
}

/// Action made of a name and a function without arguments.
///
/// Only a function that can be called at any time can stand in it.
pub struct FnAction<F: Fn() -> ActionResult> {
    name: String,
    f: F,
}

impl<F: Fn() -> ActionResult> FnAction<F> {
    #[verifier::type_invariant]
    spec fn callable(self) -> bool {
        self.f.requires(())
    }

    /// The function that is run.
    pub closed spec fn function(&self) -> F {
        self.f
    }

    pub fn new(name: String, f: F) -> (a: Self)
        requires
            f.requires(()),
        ensures
            a.label() == Some(name@),
            a.outcome() is None,
            a.function() == f,
    {
        Self { name, f }
    }
}

impl<F: Fn() -> ActionResult> Action for FnAction<F> {
    closed spec fn label(&self) -> Option<Seq<char>> {
        Some(self.name@)
    }

    open spec fn outcome(&self) -> Option<ActionResult> {
        None
    }

    fn name(&self) -> (s: &str) {
        self.name.as_str()
    }

    fn run(&self) -> (r: ActionResult)
        ensures
            self.function().ensures((), r),
    {
        proof {
            use_type_invariant(self);
        }
        (self.f)()
    }
}

/// An action named `name` that runs `f`.
pub fn fn_action<F: Fn() -> ActionResult + 'static>(name: &str, f: F) -> (a: DynAction)
    requires
        f.requires(()),
    ensures
        a.outcome() is None,
        a.label() == Some(name@),
{
    DynAction { inner: Box::new(FnAction::new(name.to_owned(), f)) }
}

/// The outcome of an action that consists of one command: a success where
/// the command ran and reported success.
pub open spec fn command_outcome(result: &ProcessResult) -> ActionResult {
    if result.code == ExitCode::SuccessOnExit {
        ActionResult::Success
    } else {
        ActionResult::Fail
    }
}

/// Reads the outcome of an action off the result of its command.
pub fn outcome_of(result: &ProcessResult) -> (r: ActionResult)
    ensures
        r == command_outcome(result),
{
    if result.ok() {
        ActionResult::Success
    } else {
        ActionResult::Fail
    }
}

/// Request to run an external command.
pub struct Command {
    pub cmd: Vec<String>,
}

impl Command {
    pub fn new(cmd: Vec<String>) -> (a: Self)
        ensures
            a.cmd == cmd,
    {
        Self { cmd }
    }

    /// Short name of the request.
    pub fn name(&self) -> (s: &'static str)
        ensures
            s@ == "Command"@,
    {
        "Command"
    }

    /// The outcome, given the result of the command.
    pub fn outcome(&self, result: &ProcessResult) -> (r: ActionResult)
        ensures
            r == command_outcome(result),
    {
        outcome_of(result)
    }
}

/// The request to run `cmd`.
pub fn command(cmd: Vec<&str>) -> (a: Command)
    ensures
        words(a.cmd@) == slice_words(cmd@),
{
    Command::new(norm_cmd(cmd))
}

/// Request to install packages with apt.
pub struct InstallAptPackages {
    pub packages: Vec<String>,
}

impl InstallAptPackages {
    pub fn new(packages: Vec<String>) -> (a: Self)
        ensures
            a.packages == packages,
    {
        Self { packages }
    }

    /// Short name of the request.
    pub fn name(&self) -> (s: &'static str)
        ensures
            s@ == "InstallAptPackages"@,
    {
        "InstallAptPackages"
    }

    /// The command that installs the packages: `apt install -y` and the
    /// names of the packages, in their order.
    pub fn command(&self) -> (cmd: Vec<String>)
        ensures
            words(cmd@) == seq!["apt"@, "install"@, "-y"@] + words(self.packages@),
    {
        let mut cmd: Vec<String> = Vec::new();
        cmd.push("apt".to_owned());
        cmd.push("install".to_owned());
        cmd.push("-y".to_owned());
        let mut i: usize = 0;
        while i < self.packages.len()
            invariant
                i <= self.packages@.len(),
                cmd@.len() == 3 + i,
                cmd@[0]@ == "apt"@,
                cmd@[1]@ == "install"@,
                cmd@[2]@ == "-y"@,
                forall|j: int| 0 <= j < i ==> (#[trigger] cmd@[3 + j])@ == self.packages@[j]@,
            decreases self.packages@.len() - i,
        {
            cmd.push(self.packages[i].clone());
            i = i + 1;
        }
        assert(words(cmd@) =~= seq!["apt"@, "install"@, "-y"@] + words(self.packages@)) by {
            assert forall|k: int| 3 <= k < cmd@.len() implies cmd@[k]@ == self.packages@[k - 3]@ by {
                assert(cmd@[3 + (k - 3)]@ == self.packages@[k - 3]@);
            }
        }
        cmd
    }

    /// The outcome, given the result of the command.
    pub fn outcome(&self, result: &ProcessResult) -> (r: ActionResult)
        ensures
            r == command_outcome(result),
    {
        outcome_of(result)
    }
}

/// The request to install `packages` with apt.
pub fn install_apt_packages(packages: Vec<&str>) -> (a: InstallAptPackages)
    ensures
        words(a.packages@) == slice_words(packages@),
{
    InstallAptPackages::new(norm_cmd(packages))
}

/// How the host's attempt to remove or to create something ended.
#[derive(Debug, Clone, Copy, PartialEq, Eq, Structural)]
pub enum Attempt {
    /// It was done.
    Done,
    /// There was nothing to remove.
    NotFound,
    /// What was to be created is there already.
    AlreadyExists,
    /// It failed for another reason.
    Failed,
}

/// Request to delete a file. A file that is not there counts as deleted.
pub struct DeleteFile {
    pub path: String,
}

impl DeleteFile {
    pub fn new(path: String) -> (a: Self)
        ensures
            a.path == path,
    {
        Self { path }
    }

    /// Short name of the request.
    pub fn name(&self) -> (s: &'static str)
        ensures
            s@ == "DeleteFile"@,
    {
        "DeleteFile"
    }

    /// The outcome, given how the removal ended.
    pub fn outcome(&self, removal: Attempt) -> (r: ActionResult)
        ensures
            r == (if removal == Attempt::Done || removal == Attempt::NotFound {
                ActionResult::Success
            } else {
                ActionResult::Fail
            }),
    {
        match removal {
            Attempt::Done | Attempt::NotFound => ActionResult::Success,
            _ => ActionResult::Fail,
        }
    }
}

/// The request to delete the file at `path`.
pub fn delete_file(path: &str) -> (a: DeleteFile)
    ensures
        a.path@ == path@,
{
    DeleteFile::new(path.to_owned())
}

/// Access mode and owners that a path is to have. What is left out is
/// left as it is on the host.
#[derive(Debug, Clone, PartialEq, Eq)]
pub struct PathPermissions {
    pub access_mode: Option<u32>,
    pub user_owner: Option<String>,
    pub group_owner: Option<String>,
}

impl Default for PathPermissions {
    fn default() -> (p: Self)
        ensures
            p.access_mode is None,
            p.user_owner is None,
            p.group_owner is None,
    {
        Self { access_mode: None, user_owner: None, group_owner: None }
    }
}

impl PathPermissions {
    pub fn new(access_mode: u32, user_owner: String, group_owner: String) -> (p: Self)
        ensures
            p.access_mode == Some(access_mode),
            p.user_owner == Some(user_owner),
            p.group_owner == Some(group_owner),
    {
        Self {
            access_mode: Some(access_mode),
            user_owner: Some(user_owner),
            group_owner: Some(group_owner),
        }
    }

    /// Sets the access mode.
    pub fn access(self, access_mode: u32) -> (p: Self)
        ensures
            p.access_mode == Some(access_mode),
            p.user_owner == self.user_owner,
            p.group_owner == self.group_owner,
    {
        Self {
            access_mode: Some(access_mode),
            user_owner: self.user_owner,
            group_owner: self.group_owner,
        }
    }

    /// Sets the owning user.
    pub fn user(self, user: &str) -> (p: Self)
        ensures
            p.access_mode == self.access_mode,
            p.user_owner matches Some(name) && name@ == user@,
            p.group_owner == self.group_owner,
    {
        Self {
            access_mode: self.access_mode,
            user_owner: Some(user.to_owned()),
            group_owner: self.group_owner,
        }
    }

    /// Sets the owning group.
    pub fn group(self, group: &str) -> (p: Self)
        ensures
            p.access_mode == self.access_mode,
            p.user_owner == self.user_owner,
            p.group_owner matches Some(name) && name@ == group@,
    {
        Self {
            access_mode: self.access_mode,
            user_owner: self.user_owner,
            group_owner: Some(group.to_owned()),
        }
    }

    /// Sets the owning user and the owning group to the same name.
    pub fn owner(self, owner: &str) -> (p: Self)
        ensures
            p.access_mode == self.access_mode,
            p.user_owner matches Some(name) && name@ == owner@,
            p.group_owner matches Some(name) && name@ == owner@,
    {
        self.user(owner).group(owner)
    }

    /// Whether nothing is to be set.
    pub fn is_noop(&self) -> (b: bool)
        ensures
            b == (self.access_mode is None && self.user_owner is None && self.group_owner
                is None),
    {
        self.access_mode.is_none() && self.user_owner.is_none() && self.group_owner.is_none()
    }
}

/// The numbers of the owners that a path is to get; for each of user and
/// group, nothing where it is to stay as it is.
#[derive(Debug, Clone, Copy, PartialEq, Eq, Structural)]
pub struct OwnerIds {
    pub uid: Option<u32>,
    pub gid: Option<u32>,
}

/// Calls `User::from_name` of the `nix` crate and hands out the number of
/// the user, where the host knows the name. The answer is the host's, so
/// nothing is known of it.
#[verifier::external_body]
fn lookup_uid(name: &str) -> (uid: Option<u32>) {
    User::from_name(name).ok().flatten().map(|user| user.uid.as_raw())
}

/// Calls `Group::from_name` of the `nix` crate and hands out the number
/// of the group, where the host knows the name. The answer is the host's,
/// so nothing is known of it.
#[verifier::external_body]
fn lookup_gid(name: &str) -> (gid: Option<u32>) {
    Group::from_name(name).ok().flatten().map(|group| group.gid.as_raw())
}

/// The owners to set, given for each of user and group what the host
/// found: nothing where no name was asked for, else the number, where the
/// host knows the name. Where a name is not known, no owner is set at all.
pub open spec fn spec_owner_ids(user: Option<Option<u32>>, group: Option<Option<u32>>) -> Option<
    OwnerIds,
> {
    if user == Some(None::<u32>) || group == Some(None::<u32>) {
        None
    } else {
        Some(
            OwnerIds {
                uid: match user {
                    Some(found) => found,
                    None => None,
                },
                gid: match group {
                    Some(found) => found,
                    None => None,
                },
            },
        )
    }
}

/// The owners to set, given what the host found for each name that was
/// asked for.
pub fn owner_ids(user: Option<Option<u32>>, group: Option<Option<u32>>) -> (r: Option<OwnerIds>)
    ensures
        r == spec_owner_ids(user, group),
{
    let uid = match user {
        Some(Some(id)) => Some(id),
        Some(None) => {
            return None;
        },
        None => None,
    };
    let gid = match group {
        Some(Some(id)) => Some(id),
        Some(None) => {
            return None;
        },
        None => None,
    };
    Some(OwnerIds { uid, gid })
}

impl PathPermissions {
    /// Asks the host for the numbers of the owners. The user is asked for
    /// first; where the host does not know it, the group is not asked for.
    /// Without any owner to set, nothing is asked and nothing is to be set.
    pub fn resolve_owners(&self) -> (r: Option<OwnerIds>)
        ensures
            self.user_owner is None && self.group_owner is None ==> r == Some(
                OwnerIds { uid: None, gid: None },
            ),
            r matches Some(ids) ==> (ids.uid is Some <==> self.user_owner is Some) && (ids.gid
                is Some <==> self.group_owner is Some),
    {
        let user = match &self.user_owner {
            Some(name) => Some(lookup_uid(name.as_str())),
            None => None,
        };
        match user {
            Some(None) => {
                return None;
            },
            _ => {},
        }
        let group = match &self.group_owner {
            Some(name) => Some(lookup_gid(name.as_str())),
            None => None,
        };
        owner_ids(user, group)
    }
}

/// The access mode `access_mode`, with `owner` as owning user and group.
pub fn perm(access_mode: u32, owner: &str) -> (p: PathPermissions)
    ensures
        p.access_mode == Some(access_mode),
        p.user_owner matches Some(name) && name@ == owner@,
        p.group_owner matches Some(name) && name@ == owner@,
{
    PathPermissions::default().access(access_mode).owner(owner)
}

/// Request to write data into a file and then to set its permissions.
pub struct WriteFile {
    pub path: String,
    pub data: Vec<u8>,
    pub perm: PathPermissions,
}

impl WriteFile {
    pub fn new(path: String, data: Vec<u8>, perm: PathPermissions) -> (a: Self)
        ensures
            a.path == path,
            a.data == data,
            a.perm == perm,
    {
        Self { path, data, perm }
    }

    /// Short name of the request.
    pub fn name(&self) -> (s: &'static str)
        ensures
            s@ == "WriteFile"@,
    {
        "WriteFile"
    }

    /// The outcome, given whether the data could be written and whether
    /// the permissions could be set afterwards; the permissions are set
    /// only behind a write that worked, so without one there is nothing
    /// known of them. Both must have worked.
    pub fn outcome(&self, written: bool, permissions: Option<bool>) -> (r: ActionResult)
        ensures
            r == (if written && permissions == Some(true) {
                ActionResult::Success
            } else {
                ActionResult::Fail
            }),
    {
        match permissions {
            Some(true) => ActionResult::from_bool(written),
            _ => ActionResult::Fail,
        }
    }
}

/// The request to write `content` into the file at `path`.
pub fn write_file(path: &str, content: &[u8]) -> (a: WriteFile)
    ensures
        a.path@ == path@,
        a.data@ == content@,
        a.perm.access_mode is None,
        a.perm.user_owner is None,
        a.perm.group_owner is None,
{
    WriteFile::new(
        path.to_owned(),
        vstd::slice::slice_to_vec(content),
        PathPermissions::default(),
    )
}

/// The request to write `content` into the file at `path` and to give the
/// file the permissions `perm`.
pub fn write_file_perm(path: &str, content: &[u8], perm: PathPermissions) -> (a: WriteFile)
    ensures
        a.path@ == path@,
        a.data@ == content@,
        a.perm == perm,
{
    WriteFile::new(path.to_owned(), vstd::slice::slice_to_vec(content), perm)
}

/// Request to create a directory and then to set its permissions. A
/// directory that is there already counts as created.
pub struct CreateDir {
    pub path: String,
    pub perm: PathPermissions,
}

impl CreateDir {
    pub fn new(path: String, perm: PathPermissions) -> (a: Self)
        ensures
            a.path == path,
            a.perm == perm,
    {
        Self { path, perm }
    }

    /// Short name of the request.
    pub fn name(&self) -> (s: &'static str)
        ensures
            s@ == "CreateDir"@,
    {
        "CreateDir"
    }

    /// The outcome, given how the creation ended and whether the
    /// permissions could be set afterwards; the permissions are set only
    /// where the directory is there, so otherwise there is nothing known
    /// of them. The directory must be there and the permissions set.
    pub fn outcome(&self, creation: Attempt, permissions: Option<bool>) -> (r: ActionResult)
        ensures
            r == (if (creation == Attempt::Done || creation == Attempt::AlreadyExists)
                && permissions == Some(true) {
                ActionResult::Success
            } else {
                ActionResult::Fail
            }),
    {
        match permissions {
            Some(true) => ActionResult::from_bool(self.created(creation)),
            _ => ActionResult::Fail,
        }
    }

    /// Whether the directory is there after the attempt to create it, so
    /// that its permissions can be set.
    pub fn created(&self, creation: Attempt) -> (b: bool)
        ensures
            b == (creation == Attempt::Done || creation == Attempt::AlreadyExists),
    {
        match creation {
            Attempt::Done | Attempt::AlreadyExists => true,
            _ => false,
        }
    }
}

/// The request to create the directory `path`.
pub fn create_dir(path: &str) -> (a: CreateDir)
    ensures
        a.path@ == path@,
        a.perm.access_mode is None,
        a.perm.user_owner is None,
        a.perm.group_owner is None,
{
    CreateDir::new(path.to_owned(), PathPermissions::default())
}

/// The request to create the directory `path` with the permissions
/// `perm`.
pub fn create_dir_perm(path: &str, perm: PathPermissions) -> (a: CreateDir)
    ensures
        a.path@ == path@,
        a.perm == perm,
{
    CreateDir::new(path.to_owned(), perm)
}

/// Request to set the permissions of a file or directory.
pub struct SetPathPermissions {
    pub path: String,
    pub perm: PathPermissions,
}

impl SetPathPermissions {
    pub fn new(path: String, perm: PathPermissions) -> (a: Self)
        ensures
            a.path == path,
            a.perm == perm,
    {
        Self { path, perm }
    }

    /// Short name of the request.
    pub fn name(&self) -> (s: &'static str)
        ensures
            s@ == "SetPathPermissions"@,
    {
        "SetPathPermissions"
    }
}

/// The request to give `path` the access mode `access_mode`, with `owner`
/// as owning user and group.
pub fn set_perm(path: &str, access_mode: u32, owner: &str) -> (a: SetPathPermissions)
    ensures
        a.path@ == path@,
        a.perm.access_mode == Some(access_mode),
        a.perm.user_owner matches Some(name) && name@ == owner@,
        a.perm.group_owner matches Some(name) && name@ == owner@,
{
    SetPathPermissions::new(path.to_owned(), perm(access_mode, owner))
}

/// The request to give `path` the access mode `access_mode`, the owning
/// user `user` and the owning group `group`.
pub fn set_perm_full(path: &str, access_mode: u32, user: &str, group: &str) -> (a:
    SetPathPermissions)
    ensures
        a.path@ == path@,
        a.perm.access_mode == Some(access_mode),
        a.perm.user_owner matches Some(name) && name@ == user@,
        a.perm.group_owner matches Some(name) && name@ == group@,
{
    SetPathPermissions::new(
        path.to_owned(),
        PathPermissions::default().access(access_mode).user(user).group(group),
    )
}

/// Request to replace the sole occurrence of a pattern in a file. It
/// fails where the file contains the pattern several times or not at all.
pub struct ReplaceInFileOnce {
    pub path: String,
    pub pattern: Pattern,
    pub replacement: Vec<u8>,
}

impl ReplaceInFileOnce {
    pub fn new(path: String, pattern: Pattern, replacement: Vec<u8>) -> (a: Self)
        ensures
            a.path == path,
            a.pattern == pattern,
            a.replacement == replacement,
    {
        Self { path, pattern, replacement }
    }

    /// Short name of the request.
    pub fn name(&self) -> (s: &'static str)
        ensures
            s@ == "ReplaceInFileOnce"@,
    {
        "ReplaceInFileOnce"
    }

    /// The outcome, given whether the new content could be written back;
    /// nothing is written where the file could not be read or the pattern
    /// does not occur exactly once, and then the action has failed.
    pub fn outcome(&self, written: Option<bool>) -> (r: ActionResult)
        ensures
            r == (if written == Some(true) {
                ActionResult::Success
            } else {
                ActionResult::Fail
            }),
    {
        match written {
            Some(true) => ActionResult::Success,
            _ => ActionResult::Fail,
        }
    }

    /// What is to be written back, given what the file holds; nothing
    /// where the pattern does not occur exactly once, and then the file is
    /// not to be touched.
    pub fn new_content(&self, content: &[u8]) -> (r: Option<Vec<u8>>)
        ensures
            r.is_some() == self.pattern.spec_replace_once(content@, self.replacement@).is_some(),
            r matches Some(out) ==> Some(out@) == self.pattern.spec_replace_once(
                content@,
                self.replacement@,
            ),
    {
        self.pattern.replace_once(content, self.replacement.as_slice())
    }
}

/// The request to replace the sole occurrence of `pattern` in the file at
/// `path` by `replacement`.
pub fn replace_in_file_once(path: &str, pattern: Pattern, replacement: &[u8]) -> (a:
    ReplaceInFileOnce)
    ensures
        a.path@ == path@,
        a.pattern == pattern,
        a.replacement@ == replacement@,
{
    ReplaceInFileOnce::new(path.to_owned(), pattern, vstd::slice::slice_to_vec(replacement))
}

/// Request to rename a file or directory.
pub struct RenamePath {
    pub path: String,
    pub new_path: String,
}

impl RenamePath {
    pub fn new(path: String, new_path: String) -> (a: Self)
        ensures
            a.path == path,
            a.new_path == new_path,
    {
        Self { path, new_path }
    }

    /// Short name of the request.
    pub fn name(&self) -> (s: &'static str)
        ensures
            s@ == "RenamePath"@,
    {
        "RenamePath"
    }
}

/// The request to rename `path` to `new_path`.
pub fn rename_path(path: &str, new_path: &str) -> (a: RenamePath)
    ensures
        a.path@ == path@,
        a.new_path@ == new_path@,
{
    RenamePath::new(path.to_owned(), new_path.to_owned())
}

/// What a service can be told to do.
#[derive(Debug, Clone, Copy, PartialEq, Eq, Structural)]
pub enum ServiceCommands {
    Start,
    Stop,
    Restart,
    Reload,
    Enable,
    Disable,
}

impl ServiceCommands {
    /// The word by which the service manager knows the command.
    pub open spec fn spec_verb(&self) -> Seq<char> {
        match self {
            ServiceCommands::Start => "start"@,
            ServiceCommands::Stop => "stop"@,
            ServiceCommands::Restart => "restart"@,
            ServiceCommands::Reload => "reload"@,
            ServiceCommands::Enable => "enable"@,
            ServiceCommands::Disable => "disable"@,
        }
    }

    /// The word by which the service manager knows the command.
    pub fn verb(&self) -> (s: &'static str)
        ensures
            s@ == self.spec_verb(),
    {
        match self {
            ServiceCommands::Start => "start",
            ServiceCommands::Stop => "stop",
            ServiceCommands::Restart => "restart",
            ServiceCommands::Reload => "reload",
            ServiceCommands::Enable => "enable",
            ServiceCommands::Disable => "disable",
        }
    }
}

/// Request to send a control command to a service.
pub struct ServiceCommand {
    pub service: String,
    pub command: ServiceCommands,
}

impl ServiceCommand {
    pub fn new(service: String, command: ServiceCommands) -> (a: Self)
        ensures
            a.service == service,
            a.command == command,
    {
        Self { service, command }
    }

    /// Short name of the request.
    pub fn name(&self) -> (s: &'static str)
        ensures
            s@ == "ServiceCommand"@,
    {
        "ServiceCommand"
    }

    /// The command line that is handed to the host: `systemctl`, the verb
    /// and the service.
    pub fn command_line(&self) -> (cmd: Vec<String>)
        ensures
            words(cmd@) == seq!["systemctl"@, self.command.spec_verb(), self.service@],
    {
        let mut cmd: Vec<String> = Vec::new();
        cmd.push("systemctl".to_owned());
        cmd.push(self.command.verb().to_owned());
        cmd.push(self.service.clone());
        assert(words(cmd@) =~= seq!["systemctl"@, self.command.spec_verb(), self.service@]);
        cmd
    }

    /// The outcome, given the result of the command line.
    pub fn outcome(&self, result: &ProcessResult) -> (r: ActionResult)
        ensures
            r == command_outcome(result),
    {
        outcome_of(result)
    }
}

/// The request to start `service`.
pub fn start_service(service: &str) -> (a: ServiceCommand)
    ensures
        a.service@ == service@,
        a.command == ServiceCommands::Start,
{
    ServiceCommand::new(service.to_owned(), ServiceCommands::Start)
}

/// The request to stop `service`.
pub fn stop_service(service: &str) -> (a: ServiceCommand)
    ensures
        a.service@ == service@,
        a.command == ServiceCommands::Stop,
{
    ServiceCommand::new(service.to_owned(), ServiceCommands::Stop)
}

/// The request to restart `service`.
pub fn restart_service(service: &str) -> (a: ServiceCommand)
    ensures
        a.service@ == service@,
        a.command == ServiceCommands::Restart,
{
    ServiceCommand::new(service.to_owned(), ServiceCommands::Restart)
}

/// The request to make `service` read its configuration again.
pub fn reload_service(service: &str) -> (a: ServiceCommand)
    ensures
        a.service@ == service@,
        a.command == ServiceCommands::Reload,
{
    ServiceCommand::new(service.to_owned(), ServiceCommands::Reload)
}

/// The request to enable `service`.
pub fn enable_service(service: &str) -> (a: ServiceCommand)
    ensures
        a.service@ == service@,
        a.command == ServiceCommands::Enable,
{
    ServiceCommand::new(service.to_owned(), ServiceCommands::Enable)
}

/// The request to disable `service`.
pub fn disable_service(service: &str) -> (a: ServiceCommand)
    ensures
        a.service@ == service@,
        a.command == ServiceCommands::Disable,
{
    ServiceCommand::new(service.to_owned(), ServiceCommands::Disable)
}

/// Request to copy a file into a directory, under a new name where one is
/// given.
pub struct CopyFile {
    pub file_path: String,
    pub target_dir: String,
    pub new_name: Option<String>,
}

impl CopyFile {
    pub fn new(file_path: String, target_dir: String, new_name: Option<String>) -> (a: Self)
        ensures
            a.file_path == file_path,
            a.target_dir == target_dir,
            a.new_name == new_name,
    {
        Self { file_path, target_dir, new_name }
    }

    /// Short name of the request.
    pub fn name(&self) -> (s: &'static str)
        ensures
            s@ == "CopyFile"@,
    {
        "CopyFile"
    }

    /// The outcome, given whether the copy could be made; none is made
    /// where there is no path for it, and then the action has failed.
    pub fn outcome(&self, copied: Option<bool>) -> (r: ActionResult)
        ensures
            r == (if copied == Some(true) {
                ActionResult::Success
            } else {
                ActionResult::Fail
            }),
    {
        match copied {
            Some(true) => ActionResult::Success,
            _ => ActionResult::Fail,
        }
    }

    /// The name of the copy inside the target directory: the new name
    /// where one is given, else the last part of the file's path, where it
    /// has one.
    pub open spec fn spec_target_name(&self) -> Option<Seq<char>> {
        match self.new_name {
            Some(name) => Some(name@),
            None => last_part(self.file_path@),
        }
    }

    /// The path of the copy: the target directory and the name of the copy
    /// in it. Without a name there is no path, and the copy cannot be
    /// made.
    pub open spec fn spec_target_path(&self) -> Option<Seq<char>> {
        match self.spec_target_name() {
            Some(name) => Some(joined(self.target_dir@, name)),
            None => None,
        }
    }

    /// The path of the copy, or nothing where the copy cannot be made.
    pub fn target_path(&self) -> (r: Option<String>)
        ensures
            match self.spec_target_path() {
                Some(path) => r matches Some(p) && p@ == path,
                None => r is None,
            },
    {
        let name = match &self.new_name {
            Some(name) => Some(name.clone()),
            None => file_name_of(self.file_path.as_str()),
        };
        match name {
            Some(name) => Some(join_path(self.target_dir.as_str(), name.as_str())),
            None => None,
        }
    }
}

/// The request to copy the file `file_path` into `target_dir` under its
/// own name.
pub fn copy_file(file_path: &str, target_dir: &str) -> (a: CopyFile)
    ensures
        a.file_path@ == file_path@,
        a.target_dir@ == target_dir@,
        a.new_name is None,
{
    CopyFile::new(file_path.to_owned(), target_dir.to_owned(), None)
}

/// The request to copy the file `file_path` into `target_dir` under the
/// name `new_name`.
pub fn copy_file_named(file_path: &str, target_dir: &str, new_name: &str) -> (a: CopyFile)
    ensures
        a.file_path@ == file_path@,
        a.target_dir@ == target_dir@,
        a.new_name matches Some(name) && name@ == new_name@,
{
    CopyFile::new(file_path.to_owned(), target_dir.to_owned(), Some(new_name.to_owned()))
}

/// Request to change the current working directory.
pub struct SetDir(pub String);

impl SetDir {
    pub fn new(path: String) -> (a: Self)
        ensures
            a.0 == path,
    {
        Self(path)
    }

    /// Short name of the request.
    pub fn name(&self) -> (s: &'static str)
        ensures
            s@ == "SetDir"@,
    {
        "SetDir"
    }
}

/// The request to change the current working directory to `dir`.
pub fn set_dir(dir: &str) -> (a: SetDir)
    ensures
        a.0@ == dir@,
{
    SetDir::new(dir.to_owned())
}

/// Request to wait until a file appears.
pub struct WaitForFile(pub String);

impl WaitForFile {
    pub fn new(path: String) -> (a: Self)
        ensures
            a.0 == path,
    {
        Self(path)
    }

    /// Short name of the request.
    pub fn name(&self) -> (s: &'static str)
        ensures
            s@ == "WaitForFile"@,
    {
        "WaitForFile"
    }
}

/// The request to wait until the file at `path` appears.
pub fn wait_for_file(path: &str) -> (a: WaitForFile)
    ensures
        a.0@ == path@,
{
    WaitForFile::new(path.to_owned())
}

} // verus!
