//! What is known of an external command after it was started: how it ended
//! and what it wrote.

use vstd::prelude::*;

verus! {

/// How the run of an external command ended.
#[derive(Debug, Clone, Copy, PartialEq, Eq, Structural)]
pub enum ExitCode {
    /// The command ran and reported success.
    SuccessOnExit,
    /// The command ran and reported an error.
    ErrorOnExit,
    /// The command could not be started.
    FailOnStart,
}

/// What a command wrote while it ran.
pub struct ProcessOutput {
    pub stdout: Vec<u8>,
    pub stderr: Vec<u8>,
}

/// The result of running a command. There is output exactly when the
/// command could be started.
pub struct ProcessResult {
    pub code: ExitCode,
    pub output: Option<ProcessOutput>,
}

impl ProcessResult {
    /// The result for a command that could not be started.
    pub fn fail_on_start() -> (r: Self)
        ensures
            r.code == ExitCode::FailOnStart,
            r.output is None,
    {
        Self { code: ExitCode::FailOnStart, output: None }
    }

    /// The result for a command that ran to its end: a success or an error
    /// by its exit status, with what it wrote.
    pub fn exited(success: bool, stdout: Vec<u8>, stderr: Vec<u8>) -> (r: Self)
        ensures
            r.code == (if success {
                ExitCode::SuccessOnExit
            } else {
                ExitCode::ErrorOnExit
            }),
            r.output == Some(ProcessOutput { stdout, stderr }),
    {
        let code = if success {
            ExitCode::SuccessOnExit
        } else {
            ExitCode::ErrorOnExit
        };
        Self { code, output: Some(ProcessOutput { stdout, stderr }) }
    }

    /// Whether the command ran and reported success.
    pub fn ok(&self) -> (b: bool)
        ensures
            b == (self.code == ExitCode::SuccessOnExit),
    {
        match self.code {
            ExitCode::SuccessOnExit => true,
            _ => false,
        }
    }
}

/// The words of a command, each as a sequence of characters.
pub open spec fn words(cmd: Seq<String>) -> Seq<Seq<char>> {
    Seq::new(cmd.len(), |i: int| cmd[i]@)
}

/// The words of a command given as string slices.
pub open spec fn slice_words(cmd: Seq<&str>) -> Seq<Seq<char>> {
    Seq::new(cmd.len(), |i: int| cmd[i]@)
}

/// Turns the words of a command into owned strings, in order.
pub fn norm_cmd(cmd: Vec<&str>) -> (out: Vec<String>)
    ensures
        words(out@) == slice_words(cmd@),
{
    let mut out: Vec<String> = Vec::new();
    let mut i: usize = 0;
    while i < cmd.len()
        invariant
            i <= cmd@.len(),
            out@.len() == i,
            forall|j: int| 0 <= j < i ==> (#[trigger] out@[j])@ == cmd@[j]@,
        decreases cmd@.len() - i,
    {
        out.push(cmd[i].to_owned());
        i = i + 1;
    }
    assert(words(out@) =~= slice_words(cmd@));
    out
}

/// Splits a command into the program and its arguments; a command without
/// words cannot be started.
pub fn split_cmd(cmd: &Vec<String>) -> (r: Option<(&String, Vec<String>)>)
    ensures
        r.is_some() == (cmd@.len() > 0),
        r matches Some((program, args)) ==> program@ == cmd@[0]@ && words(args@) == words(
            cmd@,
        ).subrange(1, cmd@.len() as int),
{
    if cmd.len() == 0 {
        return None;
    }
    let mut args: Vec<String> = Vec::new();
    let mut i: usize = 1;
    while i < cmd.len()
        invariant
            1 <= i <= cmd@.len(),
            args@.len() == i - 1,
            forall|j: int| 0 <= j < i - 1 ==> (#[trigger] args@[j])@ == cmd@[j + 1]@,
        decreases cmd@.len() - i,
    {
        args.push(cmd[i].clone());
        i = i + 1;
    }
    assert(words(args@) =~= words(cmd@).subrange(1, cmd@.len() as int));
    Some((&cmd[0], args))
}

} // verus!
