//! Checks: the ones whose answer is fixed, the ones that combine other
//! checks, and the descriptions of the questions that are put to the host
//! system.

use crate::interfaces::{Check, DynCheck};
use crate::pattern::{utf8_text, Pattern};
use crate::process::{norm_cmd, slice_words, words, ExitCode, ProcessResult};
use nix::unistd::Uid;
use vstd::prelude::*;
use vstd::utf8::{decode_utf8, valid_utf8};

verus! {

/// Every check of the list is known to answer `v`.
pub open spec fn all_answer(checks: Seq<DynCheck>, v: bool) -> bool {
    forall|i: int| 0 <= i < checks.len() ==> (#[trigger] checks[i]).answer() == Some(v)
}

/// Some check of the list is known to answer `v`.
pub open spec fn some_answers(checks: Seq<DynCheck>, v: bool) -> bool {
    exists|i: int| 0 <= i < checks.len() && (#[trigger] checks[i]).answer() == Some(v)
}

/// Check which is always `true`.
pub struct AlwaysYes;

impl Check for AlwaysYes {
    open spec fn label(&self) -> Option<Seq<char>> {
        Some("AlwaysYes"@)
    }

    open spec fn answer(&self) -> Option<bool> {
        Some(true)
    }

    fn name(&self) -> (s: &str) {
        "AlwaysYes"
    }

    fn yes(&self) -> (b: bool) {
        true
    }
}

impl AlwaysYes {
    /// Puts the check behind the common type.
    pub fn into_check(self) -> (c: DynCheck)
        ensures
            c.answer() == Some(true),
            c.label() == Some("AlwaysYes"@),
    {
        DynCheck { inner: Box::new(self) }
    }
}

/// A check which is always `true`.
pub fn always_yes() -> (c: DynCheck)
    ensures
        c.answer() == Some(true),
        c.label() == Some("AlwaysYes"@),
{
    AlwaysYes.into_check()
}

/// Check which is always `false`.
pub struct AlwaysNo;

impl Check for AlwaysNo {
    open spec fn label(&self) -> Option<Seq<char>> {
        Some("AlwaysNo"@)
    }

    open spec fn answer(&self) -> Option<bool> {
        Some(false)
    }

    fn name(&self) -> (s: &str) {
        "AlwaysNo"
    }

    fn yes(&self) -> (b: bool) {
        false
    }
}

impl AlwaysNo {
    /// Puts the check behind the common type.
    pub fn into_check(self) -> (c: DynCheck)
        ensures
            c.answer() == Some(false),
            c.label() == Some("AlwaysNo"@),
    {
        DynCheck { inner: Box::new(self) }
    }
}

/// A check which is always `false`.
pub fn always_no() -> (c: DynCheck)
    ensures
        c.answer() == Some(false),
        c.label() == Some("AlwaysNo"@),
{
    AlwaysNo.into_check()
}

/// Check which gives another check a new name and leaves the question as
/// it is.
pub struct Named {
    pub name: String,
    pub check: DynCheck,
}

impl Named {
    pub fn new(name: String, check: DynCheck) -> (n: Self)
        ensures
            n.name == name,
            n.check == check,
    {
        Self { name, check }
    }

    /// Puts the check behind the common type.
    pub fn into_check(self) -> (c: DynCheck)
        ensures
            c.answer() == self.check.answer(),
            c.label() == Some(self.name@),
    {
        DynCheck { inner: Box::new(self) }
    }
}

impl Check for Named {
    open spec fn label(&self) -> Option<Seq<char>> {
        Some(self.name@)
    }

    open spec fn answer(&self) -> Option<bool> {
        self.check.answer()
    }

    fn name(&self) -> (s: &str) {
        self.name.as_str()
    }

    fn yes(&self) -> (b: bool) {
        self.check.yes()
    }
}

/// Gives `check` the name `name`.
pub fn check(name: &str, inner: DynCheck) -> (c: DynCheck)
    ensures
        c.answer() == inner.answer(),
        c.label() == Some(name@),
{
    Named::new(name.to_owned(), inner).into_check()
}

/// Check which negates another check.
///
/// A check answers `false` also where it could not find out; negating such
/// a check turns "unknown" into "yes".
pub struct NotOp {
    pub check: DynCheck,
}

impl NotOp {
    pub fn new(check: DynCheck) -> (n: Self)
        ensures
            n.check == check,
    {
        Self { check }
    }

    /// Puts the check behind the common type.
    pub fn into_check(self) -> (c: DynCheck)
        ensures
            c.answer() == self.answer(),
            c.label() == Some("NotOp"@),
    {
        DynCheck { inner: Box::new(self) }
    }
}

impl Check for NotOp {
    open spec fn label(&self) -> Option<Seq<char>> {
        Some("NotOp"@)
    }

    open spec fn answer(&self) -> Option<bool> {
        match self.check.answer() {
            Some(v) => Some(!v),
            None => None,
        }
    }

    fn name(&self) -> (s: &str) {
        "NotOp"
    }

    fn yes(&self) -> (b: bool) {
        !self.check.yes()
    }
}

/// The negation of `check`.
pub fn not_op(check: DynCheck) -> (c: DynCheck)
    ensures
        c.answer() == (match check.answer() {
            Some(v) => Some(!v),
            None => None,
        }),
        c.label() == Some("NotOp"@),
{
    NotOp::new(check).into_check()
}

/// What is known of the answer of an "any of" over `checks`: `true` for an
/// empty list or where some check is known to answer `true`, `false` where
/// all are known to answer `false`.
pub open spec fn or_answer(checks: Seq<DynCheck>) -> Option<bool> {
    if checks.len() == 0 || some_answers(checks, true) {
        Some(true)
    } else if all_answer(checks, false) {
        Some(false)
    } else {
        None
    }
}

/// What is known of the answer of an "all of" over `checks`: `true` where
/// all are known to answer `true` (so for an empty list), `false` where
/// some check is known to answer `false`.
pub open spec fn and_answer(checks: Seq<DynCheck>) -> Option<bool> {
    if some_answers(checks, false) {
        Some(false)
    } else if all_answer(checks, true) {
        Some(true)
    } else {
        None
    }
}

/// `answers` can be what `checks` answered when asked in order up to the
/// first answer `stop`: a check whose answer is fixed gave it, no answer
/// but the last is `stop`, and where a check was not asked the last answer
/// is `stop`.
pub open spec fn asked_until(checks: Seq<DynCheck>, answers: Seq<bool>, stop: bool) -> bool {
    &&& answers.len() <= checks.len()
    &&& forall|i: int|
        0 <= i < answers.len() ==> ((#[trigger] checks[i]).answer() matches Some(v) ==> answers[i]
            == v)
    &&& forall|i: int| 0 <= i < answers.len() - 1 ==> answers[i] != stop
    &&& answers.len() < checks.len() ==> answers.len() > 0 && answers.last() == stop
}

/// The asking stopped on an answer `stop`.
pub open spec fn stopped(answers: Seq<bool>, stop: bool) -> bool {
    answers.len() > 0 && answers.last() == stop
}

/// Asks the checks in order, up to the first that answers `stop`, and
/// hands out the answers.
pub fn ask_until(checks: &Vec<DynCheck>, stop: bool) -> (answers: Vec<bool>)
    ensures
        asked_until(checks@, answers@, stop),
{
    let mut answers: Vec<bool> = Vec::new();
    let mut i: usize = 0;
    while i < checks.len()
        invariant
            i <= checks@.len(),
            answers@.len() == i,
            forall|j: int|
                0 <= j < i ==> ((#[trigger] checks@[j]).answer() matches Some(v) ==> answers@[j]
                    == v),
            forall|j: int| 0 <= j < i ==> answers@[j] != stop,
        decreases checks@.len() - i,
    {
        let answer = checks[i].yes();
        answers.push(answer);
        if answer == stop {
            return answers;
        }
        i = i + 1;
    }
    answers
}

/// Whether the asking stopped on an answer `stop`.
pub fn ends_on(answers: &Vec<bool>, stop: bool) -> (b: bool)
    ensures
        b == stopped(answers@, stop),
{
    answers.len() > 0 && answers[answers.len() - 1] == stop
}

/// What asking in order up to the first `true` gives agrees with what is
/// known of an "any of" beforehand.
pub proof fn lemma_or_fits_what_is_known(checks: Seq<DynCheck>, answers: Seq<bool>)
    requires
        asked_until(checks, answers, true),
    ensures
        or_answer(checks) matches Some(v) ==> v == (checks.len() == 0 || stopped(answers, true)),
{
    if checks.len() > 0 {
        if some_answers(checks, true) {
            let k = choose|i: int|
                0 <= i < checks.len() && (#[trigger] checks[i]).answer() == Some(true);
            if k < answers.len() {
                assert(answers[k]);
            }
        } else if all_answer(checks, false) {
            if answers.len() > 0 {
                assert(checks[answers.len() - 1].answer() == Some(false));
            }
        }
    }
}

/// What asking in order up to the first `false` gives agrees with what is
/// known of an "all of" beforehand.
pub proof fn lemma_and_fits_what_is_known(checks: Seq<DynCheck>, answers: Seq<bool>)
    requires
        asked_until(checks, answers, false),
    ensures
        and_answer(checks) matches Some(v) ==> v == !stopped(answers, false),
{
    if some_answers(checks, false) {
        let k = choose|i: int|
            0 <= i < checks.len() && (#[trigger] checks[i]).answer() == Some(false);
        if k < answers.len() {
            assert(!answers[k]);
        }
    } else if all_answer(checks, true) {
        if answers.len() > 0 {
            assert(checks[answers.len() - 1].answer() == Some(true));
        }
    }
}

/// Check which holds if any of its checks holds; it holds for an empty
/// list. The checks are asked in order, up to the first that holds.
pub struct OrOp {
    pub checks: Vec<DynCheck>,
}

impl OrOp {
    pub fn new(checks: Vec<DynCheck>) -> (o: Self)
        ensures
            o.checks == checks,
    {
        Self { checks }
    }

    /// Puts the check behind the common type.
    pub fn into_check(self) -> (c: DynCheck)
        ensures
            c.answer() == or_answer(self.checks@),
            c.label() == Some("OrOp"@),
    {
        DynCheck { inner: Box::new(self) }
    }
}

impl Check for OrOp {
    open spec fn label(&self) -> Option<Seq<char>> {
        Some("OrOp"@)
    }

    open spec fn answer(&self) -> Option<bool> {
        or_answer(self.checks@)
    }

    fn name(&self) -> (s: &str) {
        "OrOp"
    }

    fn yes(&self) -> (b: bool)
        ensures
            exists|answers: Seq<bool>|
                #[trigger] asked_until(self.checks@, answers, true) && b == (self.checks@.len()
                    == 0 || stopped(answers, true)),
    {
        let answers = ask_until(&self.checks, true);
        proof {
            lemma_or_fits_what_is_known(self.checks@, answers@);
        }
        self.checks.len() == 0 || ends_on(&answers, true)
    }
}

/// A check which holds if any of `checks` holds.
pub fn or_op(checks: Vec<DynCheck>) -> (c: DynCheck)
    ensures
        c.answer() == or_answer(checks@),
        c.label() == Some("OrOp"@),
{
    OrOp::new(checks).into_check()
}

/// Check which holds if all of its checks hold; it holds for an empty
/// list. The checks are asked in order, up to the first that does not hold.
pub struct AndOp {
    pub checks: Vec<DynCheck>,
}

impl AndOp {
    pub fn new(checks: Vec<DynCheck>) -> (a: Self)
        ensures
            a.checks == checks,
    {
        Self { checks }
    }

    /// Puts the check behind the common type.
    pub fn into_check(self) -> (c: DynCheck)
        ensures
            c.answer() == and_answer(self.checks@),
            c.label() == Some("AndOp"@),
    {
        DynCheck { inner: Box::new(self) }
    }
}

impl Check for AndOp {
    open spec fn label(&self) -> Option<Seq<char>> {
        Some("AndOp"@)
    }

    open spec fn answer(&self) -> Option<bool> {
        and_answer(self.checks@)
    }

    fn name(&self) -> (s: &str) {
        "AndOp"
    }

    fn yes(&self) -> (b: bool)
        ensures
            exists|answers: Seq<bool>|
                #[trigger] asked_until(self.checks@, answers, false) && b == !stopped(
                    answers,
                    false,
                ),
    {
        let answers = ask_until(&self.checks, false);
        proof {
            lemma_and_fits_what_is_known(self.checks@, answers@);
        }
        !ends_on(&answers, false)
    }
}

/// A check which holds if all of `checks` hold.
pub fn and_op(checks: Vec<DynCheck>) -> (c: DynCheck)
    ensures
        c.answer() == and_answer(checks@),
        c.label() == Some("AndOp"@),
{
    AndOp::new(checks).into_check()
}

/// An empty "all of" and an empty "any of" both hold.
pub proof fn lemma_empty_combinators_hold(checks: Seq<DynCheck>)
    requires
        checks.len() == 0,
    ensures
        and_answer(checks) == Some(true),
        or_answer(checks) == Some(true),
{
}

/// Calls `Uid::effective` of the `nix` crate and hands out the raw number.
/// The number is that of the running process, so nothing is known of it.
#[verifier::external_body]
fn effective_uid() -> (uid: u32) {
    Uid::effective().as_raw()
}

/// Check whether the current user is root.
pub struct UserIsRoot;

impl UserIsRoot {
    /// Whether `uid` is the user id of root.
    pub fn is_root_uid(uid: u32) -> (b: bool)
        ensures
            b == (uid == 0),
    {
        uid == 0
    }

    /// Puts the check behind the common type.
    pub fn into_check(self) -> (c: DynCheck)
        ensures
            c.answer() is None,
            c.label() == Some("UserIsRoot"@),
    {
        DynCheck { inner: Box::new(self) }
    }
}

impl Check for UserIsRoot {
    open spec fn label(&self) -> Option<Seq<char>> {
        Some("UserIsRoot"@)
    }

    open spec fn answer(&self) -> Option<bool> {
        None
    }

    fn name(&self) -> (s: &str) {
        "UserIsRoot"
    }

    fn yes(&self) -> (b: bool) {
        UserIsRoot::is_root_uid(effective_uid())
    }
}

/// A check whether the current user is root.
pub fn user_is_root() -> (c: DynCheck)
    ensures
        c.answer() is None,
        c.label() == Some("UserIsRoot"@),
{
    UserIsRoot.into_check()
}

/// Check made of a name and a function without arguments.
///
/// Only a function that can be called at any time can stand in it.
pub struct FnCheck<F: Fn() -> bool> {
    name: String,
    f: F,
}

impl<F: Fn() -> bool> FnCheck<F> {
    #[verifier::type_invariant]
    spec fn callable(self) -> bool {
        self.f.requires(())
    }

    /// The function that is asked.
    pub closed spec fn function(&self) -> F {
        self.f
    }

    pub fn new(name: String, f: F) -> (c: Self)
        requires
            f.requires(()),
        ensures
            c.label() == Some(name@),
            c.answer() is None,
            c.function() == f,
    {
        Self { name, f }
    }
}

impl<F: Fn() -> bool> Check for FnCheck<F> {
    closed spec fn label(&self) -> Option<Seq<char>> {
        Some(self.name@)
    }

    open spec fn answer(&self) -> Option<bool> {
        None
    }

    fn name(&self) -> (s: &str) {
        self.name.as_str()
    }

    fn yes(&self) -> (b: bool)
        ensures
            self.function().ensures((), b),
    {
        proof {
            use_type_invariant(self);
        }
        (self.f)()
    }
}

/// A check named `name` that asks `f`.
pub fn fn_check<F: Fn() -> bool + 'static>(name: &str, f: F) -> (c: DynCheck)
    requires
        f.requires(()),
    ensures
        c.answer() is None,
        c.label() == Some(name@),
{
    DynCheck { inner: Box::new(FnCheck::new(name.to_owned(), f)) }
}

/// What the host reports of a path that it could inspect.
#[derive(Debug, Clone, Copy, PartialEq, Eq, Structural)]
pub enum PathKind {
    /// A regular file.
    File,
    /// A directory.
    Dir,
    /// Anything else.
    Other,
}

/// Question whether a path is a regular file. It does not ask whether the
/// file can be read or written.
pub struct IsFile {
    pub path: String,
}

impl IsFile {
    pub fn new(path: String) -> (c: Self)
        ensures
            c.path == path,
    {
        Self { path }
    }

    /// Short name of the question.
    pub fn name(&self) -> (s: &'static str)
        ensures
            s@ == "IsFile"@,
    {
        "IsFile"
    }

    /// The answer, given what the host reported of the path: its kind, or
    /// nothing where it could not be inspected.
    pub fn holds(&self, kind: Option<PathKind>) -> (b: bool)
        ensures
            b == (kind == Some(PathKind::File)),
    {
        match kind {
            Some(PathKind::File) => true,
            _ => false,
        }
    }
}

/// The question whether `path` is a regular file.
pub fn is_file(path: &str) -> (c: IsFile)
    ensures
        c.path@ == path@,
{
    IsFile::new(path.to_owned())
}

/// Question whether a path is a directory.
pub struct IsDir {
    pub path: String,
}

impl IsDir {
    pub fn new(path: String) -> (c: Self)
        ensures
            c.path == path,
    {
        Self { path }
    }

    /// Short name of the question.
    pub fn name(&self) -> (s: &'static str)
        ensures
            s@ == "IsDir"@,
    {
        "IsDir"
    }

    /// The answer, given what the host reported of the path: its kind, or
    /// nothing where it could not be inspected.
    pub fn holds(&self, kind: Option<PathKind>) -> (b: bool)
        ensures
            b == (kind == Some(PathKind::Dir)),
    {
        match kind {
            Some(PathKind::Dir) => true,
            _ => false,
        }
    }
}

/// The question whether `path` is a directory.
pub fn is_dir(path: &str) -> (c: IsDir)
    ensures
        c.path@ == path@,
{
    IsDir::new(path.to_owned())
}

/// Question whether a path can be opened for reading. It holds exactly
/// where the host could open it.
pub struct CanRead {
    pub path: String,
}

impl CanRead {
    pub fn new(path: String) -> (c: Self)
        ensures
            c.path == path,
    {
        Self { path }
    }

    /// Short name of the question.
    pub fn name(&self) -> (s: &'static str)
        ensures
            s@ == "CanRead"@,
    {
        "CanRead"
    }
}

/// The question whether `path` can be opened for reading.
pub fn can_read(path: &str) -> (c: CanRead)
    ensures
        c.path@ == path@,
{
    CanRead::new(path.to_owned())
}

/// Question whether an existing path can be opened for appending. It
/// holds exactly where the host could open it.
pub struct CanWrite {
    pub path: String,
}

impl CanWrite {
    pub fn new(path: String) -> (c: Self)
        ensures
            c.path == path,
    {
        Self { path }
    }

    /// Short name of the question.
    pub fn name(&self) -> (s: &'static str)
        ensures
            s@ == "CanWrite"@,
    {
        "CanWrite"
    }
}

/// The question whether `path` can be opened for appending.
pub fn can_write(path: &str) -> (c: CanWrite)
    ensures
        c.path@ == path@,
{
    CanWrite::new(path.to_owned())
}

/// Question whether there is nothing at a path.
pub struct PathIsMissing(pub String);

impl PathIsMissing {
    pub fn new(path: String) -> (c: Self)
        ensures
            c.0 == path,
    {
        Self(path)
    }

    /// Short name of the question.
    pub fn name(&self) -> (s: &'static str)
        ensures
            s@ == "PathIsMissing"@,
    {
        "PathIsMissing"
    }

    /// The answer, given whether the host found something at the path, or
    /// nothing where it could not find out. Where the host could not find
    /// out, the path is not known to be missing.
    pub fn holds(&self, exists: Option<bool>) -> (b: bool)
        ensures
            b == (exists == Some(false)),
    {
        match exists {
            Some(found) => !found,
            None => false,
        }
    }
}

/// The question whether there is nothing at `path`.
pub fn path_is_missing(path: &str) -> (c: PathIsMissing)
    ensures
        c.0@ == path@,
{
    PathIsMissing::new(path.to_owned())
}

/// Which of the two streams of a command is read.
#[derive(Debug, Clone, Copy, PartialEq, Eq, Structural)]
pub enum Stream {
    Stdout,
    Stderr,
}

/// What the command wrote to `stream`, where it could be started.
pub open spec fn written(result: &ProcessResult, stream: Stream) -> Option<Seq<u8>> {
    match result.output {
        Some(out) => Some(
            match stream {
                Stream::Stdout => out.stdout@,
                Stream::Stderr => out.stderr@,
            },
        ),
        None => None,
    }
}

/// Whether `pattern` occurs exactly once in what the command wrote to
/// `stream`. It does not hold where the command could not be started, nor
/// where the pattern has no answer for what was written.
pub open spec fn written_once(pattern: &Pattern, result: &ProcessResult, stream: Stream) -> bool {
    match written(result, stream) {
        Some(data) => pattern.spec_contains_once(data) == Some(true),
        None => false,
    }
}

/// Whether `pattern` is known not to occur in what the command wrote to
/// `stream`. It does not hold where the command could not be started, nor
/// where the pattern has no answer for what was written.
pub open spec fn written_never(pattern: &Pattern, result: &ProcessResult, stream: Stream) -> bool {
    match written(result, stream) {
        Some(data) => pattern.spec_contains(data) == Some(false),
        None => false,
    }
}

/// Looks for exactly one occurrence of `pattern` in one stream of a
/// command's result.
pub fn stream_contains_once(pattern: &Pattern, result: &ProcessResult, stream: Stream) -> (b: bool)
    ensures
        b == written_once(pattern, result, stream),
{
    match &result.output {
        Some(out) => {
            let found = match stream {
                Stream::Stdout => pattern.contains_once(out.stdout.as_slice()),
                Stream::Stderr => pattern.contains_once(out.stderr.as_slice()),
            };
            match found {
                Some(once) => once,
                None => false,
            }
        },
        None => false,
    }
}

/// Makes sure that `pattern` does not occur in one stream of a command's
/// result.
pub fn stream_lacks(pattern: &Pattern, result: &ProcessResult, stream: Stream) -> (b: bool)
    ensures
        b == written_never(pattern, result, stream),
{
    match &result.output {
        Some(out) => {
            let found = match stream {
                Stream::Stdout => pattern.contains(out.stdout.as_slice()),
                Stream::Stderr => pattern.contains(out.stderr.as_slice()),
            };
            match found {
                Some(any) => !any,
                None => false,
            }
        },
        None => false,
    }
}

/// Question whether the standard output of a command contains a pattern
/// exactly once.
pub struct StdoutContainsOnce {
    pub cmd: Vec<String>,
    pub pattern: Pattern,
}

impl StdoutContainsOnce {
    pub fn new(cmd: Vec<String>, pattern: Pattern) -> (c: Self)
        ensures
            c.cmd == cmd,
            c.pattern == pattern,
    {
        Self { cmd, pattern }
    }

    /// Short name of the question.
    pub fn name(&self) -> (s: &'static str)
        ensures
            s@ == "StdoutContainsOnce"@,
    {
        "StdoutContainsOnce"
    }

    /// The answer, given the result of the command.
    pub fn holds(&self, result: &ProcessResult) -> (b: bool)
        ensures
            b == written_once(&self.pattern, result, Stream::Stdout),
    {
        stream_contains_once(&self.pattern, result, Stream::Stdout)
    }
}

/// The question whether the standard output of `cmd` contains `pattern`
/// exactly once.
pub fn stdout_contains_once(cmd: Vec<&str>, pattern: Pattern) -> (c: StdoutContainsOnce)
    ensures
        words(c.cmd@) == slice_words(cmd@),
        c.pattern == pattern,
{
    StdoutContainsOnce::new(norm_cmd(cmd), pattern)
}

/// Question whether the standard error of a command contains a pattern
/// exactly once.
pub struct StderrContainsOnce {
    pub cmd: Vec<String>,
    pub pattern: Pattern,
}

impl StderrContainsOnce {
    pub fn new(cmd: Vec<String>, pattern: Pattern) -> (c: Self)
        ensures
            c.cmd == cmd,
            c.pattern == pattern,
    {
        Self { cmd, pattern }
    }

    /// Short name of the question.
    pub fn name(&self) -> (s: &'static str)
        ensures
            s@ == "StderrContainsOnce"@,
    {
        "StderrContainsOnce"
    }

    /// The answer, given the result of the command.
    pub fn holds(&self, result: &ProcessResult) -> (b: bool)
        ensures
            b == written_once(&self.pattern, result, Stream::Stderr),
    {
        stream_contains_once(&self.pattern, result, Stream::Stderr)
    }
}

/// The question whether the standard error of `cmd` contains `pattern`
/// exactly once.
pub fn stderr_contains_once(cmd: Vec<&str>, pattern: Pattern) -> (c: StderrContainsOnce)
    ensures
        words(c.cmd@) == slice_words(cmd@),
        c.pattern == pattern,
{
    StderrContainsOnce::new(norm_cmd(cmd), pattern)
}

/// Question whether the standard output of a command is free of a pattern.
pub struct StdoutLacks {
    pub cmd: Vec<String>,
    pub pattern: Pattern,
}

impl StdoutLacks {
    pub fn new(cmd: Vec<String>, pattern: Pattern) -> (c: Self)
        ensures
            c.cmd == cmd,
            c.pattern == pattern,
    {
        Self { cmd, pattern }
    }

    /// Short name of the question.
    pub fn name(&self) -> (s: &'static str)
        ensures
            s@ == "StdoutLacks"@,
    {
        "StdoutLacks"
    }

    /// The answer, given the result of the command.
    pub fn holds(&self, result: &ProcessResult) -> (b: bool)
        ensures
            b == written_never(&self.pattern, result, Stream::Stdout),
    {
        stream_lacks(&self.pattern, result, Stream::Stdout)
    }
}

/// The question whether the standard output of `cmd` is free of `pattern`.
pub fn stdout_lacks(cmd: Vec<&str>, pattern: Pattern) -> (c: StdoutLacks)
    ensures
        words(c.cmd@) == slice_words(cmd@),
        c.pattern == pattern,
{
    StdoutLacks::new(norm_cmd(cmd), pattern)
}

/// Question whether the standard error of a command is free of a pattern.
pub struct StderrLacks {
    pub cmd: Vec<String>,
    pub pattern: Pattern,
}

impl StderrLacks {
    pub fn new(cmd: Vec<String>, pattern: Pattern) -> (c: Self)
        ensures
            c.cmd == cmd,
            c.pattern == pattern,
    {
        Self { cmd, pattern }
    }

    /// Short name of the question.
    pub fn name(&self) -> (s: &'static str)
        ensures
            s@ == "StderrLacks"@,
    {
        "StderrLacks"
    }

    /// The answer, given the result of the command.
    pub fn holds(&self, result: &ProcessResult) -> (b: bool)
        ensures
            b == written_never(&self.pattern, result, Stream::Stderr),
    {
        stream_lacks(&self.pattern, result, Stream::Stderr)
    }
}

/// The question whether the standard error of `cmd` is free of `pattern`.
pub fn stderr_lacks(cmd: Vec<&str>, pattern: Pattern) -> (c: StderrLacks)
    ensures
        words(c.cmd@) == slice_words(cmd@),
        c.pattern == pattern,
{
    StderrLacks::new(norm_cmd(cmd), pattern)
}

/// Question whether a command ends in a given way.
pub struct IsExitCode {
    pub cmd: Vec<String>,
    pub exit_code: ExitCode,
}

impl IsExitCode {
    pub fn new(cmd: Vec<String>, exit_code: ExitCode) -> (c: Self)
        ensures
            c.cmd == cmd,
            c.exit_code == exit_code,
    {
        Self { cmd, exit_code }
    }

    /// Short name of the question.
    pub fn name(&self) -> (s: &'static str)
        ensures
            s@ == "IsExitCode"@,
    {
        "IsExitCode"
    }

    /// The answer, given the result of the command.
    pub fn holds(&self, result: &ProcessResult) -> (b: bool)
        ensures
            b == (result.code == self.exit_code),
    {
        result.code == self.exit_code
    }
}

/// The question whether `cmd` runs and reports success.
pub fn command_ok(cmd: Vec<&str>) -> (c: IsExitCode)
    ensures
        words(c.cmd@) == slice_words(cmd@),
        c.exit_code == ExitCode::SuccessOnExit,
{
    IsExitCode::new(norm_cmd(cmd), ExitCode::SuccessOnExit)
}

/// The question whether `cmd` runs and reports an error.
pub fn command_err(cmd: Vec<&str>) -> (c: IsExitCode)
    ensures
        words(c.cmd@) == slice_words(cmd@),
        c.exit_code == ExitCode::ErrorOnExit,
{
    IsExitCode::new(norm_cmd(cmd), ExitCode::ErrorOnExit)
}

/// The question whether `cmd` cannot be started.
pub fn command_fail(cmd: Vec<&str>) -> (c: IsExitCode)
    ensures
        words(c.cmd@) == slice_words(cmd@),
        c.exit_code == ExitCode::FailOnStart,
{
    IsExitCode::new(norm_cmd(cmd), ExitCode::FailOnStart)
}

/// Whether two byte strings are the same.
pub fn same_bytes(a: &[u8], b: &[u8]) -> (same: bool)
    ensures
        same == (a@ == b@),
{
    if a.len() != b.len() {
        return false;
    }
    let size: usize = a.len();
    let mut i: usize = 0;
    while i < size
        invariant
            i <= size,
            size == a@.len(),
            size == b@.len(),
            forall|j: int| 0 <= j < i ==> a@[j] == b@[j],
        decreases size - i,
    {
        if a[i] != b[i] {
            return false;
        }
        i = i + 1;
    }
    assert(a@ =~= b@);
    true
}

/// Question whether a file holds exactly a given content.
pub struct IsFileContent {
    pub path: String,
    pub content: Vec<u8>,
}

impl IsFileContent {
    pub fn new(path: String, content: Vec<u8>) -> (c: Self)
        ensures
            c.path == path,
            c.content == content,
    {
        Self { path, content }
    }

    /// Short name of the question.
    pub fn name(&self) -> (s: &'static str)
        ensures
            s@ == "IsFileContent"@,
    {
        "IsFileContent"
    }

    /// The answer, given what the host read from the file, or nothing
    /// where it could not read it.
    pub fn holds(&self, file: Option<&Vec<u8>>) -> (b: bool)
        ensures
            b == (file matches Some(data) && data@ == self.content@),
    {
        match file {
            Some(data) => same_bytes(data.as_slice(), self.content.as_slice()),
            None => false,
        }
    }
}

/// The question whether the file at `path` holds exactly `content`.
pub fn is_file_content(path: &str, content: &[u8]) -> (c: IsFileContent)
    ensures
        c.path@ == path@,
        c.content@ == content@,
{
    IsFileContent::new(path.to_owned(), vstd::slice::slice_to_vec(content))
}

/// Question whether a file contains a pattern exactly once.
pub struct FileContainsOnce {
    pub path: String,
    pub pattern: Pattern,
}

impl FileContainsOnce {
    pub fn new(path: String, pattern: Pattern) -> (c: Self)
        ensures
            c.path == path,
            c.pattern == pattern,
    {
        Self { path, pattern }
    }

    /// Short name of the question.
    pub fn name(&self) -> (s: &'static str)
        ensures
            s@ == "FileContainsOnce"@,
    {
        "FileContainsOnce"
    }

    /// The answer, given what the host read from the file, or nothing
    /// where it could not read it.
    pub fn holds(&self, file: Option<&Vec<u8>>) -> (b: bool)
        ensures
            b == (file matches Some(data) && self.pattern.spec_contains_once(data@) == Some(
                true,
            )),
    {
        match file {
            Some(data) => match self.pattern.contains_once(data.as_slice()) {
                Some(once) => once,
                None => false,
            },
            None => false,
        }
    }
}

/// The question whether the file at `path` contains `pattern` exactly
/// once.
pub fn file_contains_once(path: &str, pattern: Pattern) -> (c: FileContainsOnce)
    ensures
        c.path@ == path@,
        c.pattern == pattern,
{
    FileContainsOnce::new(path.to_owned(), pattern)
}

/// What `str::trim` makes of a text: the text without the white space at
/// its two ends.
pub uninterp spec fn trimmed(text: Seq<char>) -> Seq<char>;

/// Calls `str::trim`, which removes leading and trailing white space.
#[verifier::external_body]
fn trim_text(text: &str) -> (r: &str)
    ensures
        r@ == trimmed(text@),
{
    text.trim()
}

/// The word that a service manager printed: its output read as UTF-8,
/// without the white space around it. Output that is no UTF-8 counts as
/// empty.
pub open spec fn printed_word(stdout: Seq<u8>) -> Seq<char> {
    if valid_utf8(stdout) {
        trimmed(decode_utf8(stdout))
    } else {
        trimmed(Seq::<char>::empty())
    }
}

/// Whether a command printed exactly `word`, white space aside. It did
/// not where it could not be started.
pub open spec fn printed(result: &ProcessResult, word: Seq<char>) -> bool {
    match result.output {
        Some(out) => printed_word(out.stdout@) == word,
        None => false,
    }
}

/// Compares what a command printed with `word`.
pub fn prints_word(result: &ProcessResult, word: &str) -> (b: bool)
    ensures
        b == printed(result, word@),
{
    match &result.output {
        Some(out) => {
            let text = match utf8_text(out.stdout.as_slice()) {
                Some(text) => text,
                None => {
                    proof {
                        reveal_strlit("");
                        assert(""@ =~= Seq::<char>::empty());
                    }
                    ""
                },
            };
            let word_read = trim_text(text).to_owned();
            word_read == word.to_owned()
        },
        None => false,
    }
}

/// The states of a service that can be asked for.
#[derive(Debug, PartialEq, Eq, Clone, Copy, Structural)]
pub enum ServiceStatus {
    Active,
    Inactive,
    Failed,
}

impl ServiceStatus {
    /// The word by which the service manager names the state.
    pub open spec fn spec_word(&self) -> Seq<char> {
        match self {
            ServiceStatus::Active => "active"@,
            ServiceStatus::Inactive => "inactive"@,
            ServiceStatus::Failed => "failed"@,
        }
    }

    /// The word by which the service manager names the state.
    pub fn word(&self) -> (s: &'static str)
        ensures
            s@ == self.spec_word(),
    {
        match self {
            ServiceStatus::Active => "active",
            ServiceStatus::Inactive => "inactive",
            ServiceStatus::Failed => "failed",
        }
    }
}

/// Question whether a service is in a given state.
pub struct ServiceInStatus {
    pub service: String,
    pub status: ServiceStatus,
}

impl ServiceInStatus {
    pub fn new(service: String, status: ServiceStatus) -> (c: Self)
        ensures
            c.service == service,
            c.status == status,
    {
        Self { service, status }
    }

    /// Short name of the question.
    pub fn name(&self) -> (s: &'static str)
        ensures
            s@ == "ServiceInStatus"@,
    {
        "ServiceInStatus"
    }

    /// The command that puts the question to the service manager.
    pub fn command(&self) -> (cmd: Vec<String>)
        ensures
            words(cmd@) == seq!["/usr/bin/systemctl"@, "is-active"@, self.service@],
    {
        let mut cmd: Vec<String> = Vec::new();
        cmd.push("/usr/bin/systemctl".to_owned());
        cmd.push("is-active".to_owned());
        cmd.push(self.service.clone());
        assert(words(cmd@) =~= seq!["/usr/bin/systemctl"@, "is-active"@, self.service@]);
        cmd
    }

    /// The answer, given the result of the command: whether it printed the
    /// word of the state.
    pub fn holds(&self, result: &ProcessResult) -> (b: bool)
        ensures
            b == printed(result, self.status.spec_word()),
    {
        prints_word(result, self.status.word())
    }
}

/// The question whether `service` is active.
pub fn service_is_active(service: &str) -> (c: ServiceInStatus)
    ensures
        c.service@ == service@,
        c.status == ServiceStatus::Active,
{
    ServiceInStatus::new(service.to_owned(), ServiceStatus::Active)
}

/// The question whether `service` is inactive.
pub fn service_is_inactive(service: &str) -> (c: ServiceInStatus)
    ensures
        c.service@ == service@,
        c.status == ServiceStatus::Inactive,
{
    ServiceInStatus::new(service.to_owned(), ServiceStatus::Inactive)
}

/// The question whether `service` has failed.
pub fn service_is_failed(service: &str) -> (c: ServiceInStatus)
    ensures
        c.service@ == service@,
        c.status == ServiceStatus::Failed,
{
    ServiceInStatus::new(service.to_owned(), ServiceStatus::Failed)
}

/// Question whether a service is enabled, or whether it is disabled.
pub struct ServiceIsEnabled {
    pub service: String,
    pub is_enabled: bool,
}

impl ServiceIsEnabled {
    pub fn new(service: String, is_enabled: bool) -> (c: Self)
        ensures
            c.service == service,
            c.is_enabled == is_enabled,
    {
        Self { service, is_enabled }
    }

    /// Short name of the question.
    pub fn name(&self) -> (s: &'static str)
        ensures
            s@ == "ServiceIsEnabled"@,
    {
        "ServiceIsEnabled"
    }

    /// The word that the service manager is expected to print.
    pub open spec fn spec_word(&self) -> Seq<char> {
        if self.is_enabled {
            "enabled"@
        } else {
            "disabled"@
        }
    }

    /// The command that puts the question to the service manager.
    pub fn command(&self) -> (cmd: Vec<String>)
        ensures
            words(cmd@) == seq!["/usr/bin/systemctl"@, "is-enabled"@, self.service@],
    {
        let mut cmd: Vec<String> = Vec::new();
        cmd.push("/usr/bin/systemctl".to_owned());
        cmd.push("is-enabled".to_owned());
        cmd.push(self.service.clone());
        assert(words(cmd@) =~= seq!["/usr/bin/systemctl"@, "is-enabled"@, self.service@]);
        cmd
    }

    /// The answer, given the result of the command: whether it printed the
    /// expected word.
    pub fn holds(&self, result: &ProcessResult) -> (b: bool)
        ensures
            b == printed(result, self.spec_word()),
    {
        let word = if self.is_enabled {
            "enabled"
        } else {
            "disabled"
        };
        prints_word(result, word)
    }
}

/// The question whether `service` is enabled.
pub fn service_is_enabled(service: &str) -> (c: ServiceIsEnabled)
    ensures
        c.service@ == service@,
        c.is_enabled,
{
    ServiceIsEnabled::new(service.to_owned(), true)
}

/// The question whether `service` is disabled.
pub fn service_is_disabled(service: &str) -> (c: ServiceIsEnabled)
    ensures
        c.service@ == service@,
        !c.is_enabled,
{
    ServiceIsEnabled::new(service.to_owned(), false)
}

} // verus!
