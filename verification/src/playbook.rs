//! Playbooks and the engine that applies them.
//!
//! Applying a playbook walks its instructions once, in order, and stops at
//! the first gate that does not hold. What was asked and what was answered
//! on the way is written down in a report, and the verdict is a function of
//! that report.

use crate::interfaces::{Action, ActionResult, Check, DynAction, DynCheck};
use crate::story_formatter::{
    begins_with, checklist_item_text, checklist_result_text, checklist_title_text, decimal,
    decimal_text, ends_with, header_text, note_text, process_end_text, result_text, section_path,
    section_result_text, separator_text, StoryFormatter,
};
use vstd::prelude::*;
use vstd::string::StringExecFns;

verus! {

/// Every answer is `true`; so it is for no answers at all.
pub open spec fn all_true(answers: Seq<bool>) -> bool {
    forall|i: int| 0 <= i < answers.len() ==> answers[i]
}

/// Every answer is `false`; so it is for no answers at all.
pub open spec fn all_false(answers: Seq<bool>) -> bool {
    forall|i: int| 0 <= i < answers.len() ==> !answers[i]
}

/// `answers` can be what `checks` answered, one after the other: there is
/// one answer for each check, and a check whose answer is fixed gave it.
pub open spec fn observed(checks: Seq<DynCheck>, answers: Seq<bool>) -> bool {
    &&& answers.len() == checks.len()
    &&& forall|i: int|
        0 <= i < checks.len() ==> ((#[trigger] checks[i]).answer() matches Some(v) ==> answers[i]
            == v)
}

/// How the confirmation checks of an instruction read before its action.
#[derive(Debug, Clone, Copy, PartialEq, Eq, Structural)]
pub enum Confirmation {
    /// There are checks and all hold: the action was applied before.
    Applied,
    /// There are no checks, or none holds: the action is to be run.
    Pending,
    /// Some hold and some do not: a state that is not resolved by guessing.
    Inconsistent,
}

/// The reading of a list of answers of confirmation checks.
pub open spec fn confirmation(answers: Seq<bool>) -> Confirmation {
    if answers.len() > 0 && all_true(answers) {
        Confirmation::Applied
    } else if all_false(answers) {
        Confirmation::Pending
    } else {
        Confirmation::Inconsistent
    }
}

/// Whether every answer is `true`.
pub fn all_yes(answers: &Vec<bool>) -> (b: bool)
    ensures
        b == all_true(answers@),
{
    let mut i: usize = 0;
    while i < answers.len()
        invariant
            i <= answers@.len(),
            forall|j: int| 0 <= j < i ==> answers@[j],
        decreases answers@.len() - i,
    {
        if !answers[i] {
            return false;
        }
        i = i + 1;
    }
    true
}

/// Whether every answer is `false`.
pub fn all_no(answers: &Vec<bool>) -> (b: bool)
    ensures
        b == all_false(answers@),
{
    let mut i: usize = 0;
    while i < answers.len()
        invariant
            i <= answers@.len(),
            forall|j: int| 0 <= j < i ==> !answers@[j],
        decreases answers@.len() - i,
    {
        if answers[i] {
            return false;
        }
        i = i + 1;
    }
    true
}

/// Reads the answers of the confirmation checks of an instruction.
pub fn classify(answers: &Vec<bool>) -> (c: Confirmation)
    ensures
        c == confirmation(answers@),
{
    if answers.len() > 0 && all_yes(answers) {
        Confirmation::Applied
    } else if all_no(answers) {
        Confirmation::Pending
    } else {
        Confirmation::Inconsistent
    }
}

/// One action behind its gates: environment checks that must hold before
/// it is run, and confirmation checks that tell whether it was applied.
pub struct Instruction {
    pub env_checks: Vec<DynCheck>,
    pub confirm_checks: Vec<DynCheck>,
    pub action: DynAction,
}

/// What happened to one instruction while a playbook was applied.
pub struct InstructionRun {
    /// The answers of the confirmation checks before the action.
    pub before: Vec<bool>,
    /// The answers of the environment checks; empty where they were not
    /// asked.
    pub env: Vec<bool>,
    /// The outcome of the action; `None` where it was not run.
    pub action: Option<ActionResult>,
    /// The answers of the confirmation checks after the action; empty where
    /// they were not asked again.
    pub after: Vec<bool>,
}

impl InstructionRun {
    /// The instruction reached a good end: its action was applied before,
    /// or the environment held, the action succeeded and every
    /// confirmation check held afterwards.
    pub open spec fn succeeded(&self) -> bool {
        match confirmation(self.before@) {
            Confirmation::Applied => true,
            Confirmation::Inconsistent => false,
            Confirmation::Pending => {
                &&& all_true(self.env@)
                &&& self.action == Some(ActionResult::Success)
                &&& all_true(self.after@)
            },
        }
    }

    /// The record fits the instruction `ins`: every gate was asked when it
    /// was due and not otherwise, and the action was run exactly where all
    /// gates before it let it pass.
    pub open spec fn fits(&self, ins: &Instruction) -> bool {
        &&& observed(ins.confirm_checks@, self.before@)
        &&& match confirmation(self.before@) {
            Confirmation::Applied | Confirmation::Inconsistent => {
                &&& self.env@.len() == 0
                &&& self.action is None
                &&& self.after@.len() == 0
            },
            Confirmation::Pending => {
                &&& observed(ins.env_checks@, self.env@)
                &&& if all_true(self.env@) {
                    &&& self.action is Some
                    &&& ins.action.outcome() matches Some(v) ==> self.action == Some(v)
                    &&& if self.action == Some(ActionResult::Success) {
                        observed(ins.confirm_checks@, self.after@)
                    } else {
                        self.after@.len() == 0
                    }
                } else {
                    &&& self.action is None
                    &&& self.after@.len() == 0
                }
            },
        }
    }

    /// Whether the instruction reached a good end.
    pub fn ok(&self) -> (b: bool)
        ensures
            b == self.succeeded(),
    {
        match classify(&self.before) {
            Confirmation::Applied => true,
            Confirmation::Inconsistent => false,
            Confirmation::Pending => {
                let action_ok = match self.action {
                    Some(ActionResult::Success) => true,
                    _ => false,
                };
                all_yes(&self.env) && action_ok && all_yes(&self.after)
            },
        }
    }

    /// Whether the action was skipped because it was applied before.
    pub fn skipped(&self) -> (b: bool)
        ensures
            b == (confirmation(self.before@) == Confirmation::Applied),
    {
        match classify(&self.before) {
            Confirmation::Applied => true,
            _ => false,
        }
    }
}

/// Asks every check of the list, in order, and hands out the answers.
pub fn ask_all(checks: &Vec<DynCheck>) -> (answers: Vec<bool>)
    ensures
        observed(checks@, answers@),
{
    let mut answers: Vec<bool> = Vec::new();
    let mut i: usize = 0;
    while i < checks.len()
        invariant
            i <= checks@.len(),
            answers@.len() == i,
            forall|j: int|
                0 <= j < i ==> ((#[trigger] checks@[j]).answer() matches Some(v) ==> answers@[j]
                    == v),
        decreases checks@.len() - i,
    {
        let answer = checks[i].yes();
        answers.push(answer);
        i = i + 1;
    }
    answers
}

impl Instruction {
    /// An instruction that runs `action` without any gate.
    pub fn new(action: DynAction) -> (ins: Self)
        ensures
            ins.action == action,
            ins.env_checks@.len() == 0,
            ins.confirm_checks@.len() == 0,
    {
        Self { env_checks: Vec::new(), confirm_checks: Vec::new(), action }
    }

    /// Sets the environment checks.
    pub fn with_env(self, env: Vec<DynCheck>) -> (ins: Self)
        ensures
            ins.env_checks == env,
            ins.confirm_checks == self.confirm_checks,
            ins.action == self.action,
    {
        Self { env_checks: env, confirm_checks: self.confirm_checks, action: self.action }
    }

    /// Sets the confirmation checks.
    pub fn confirm(self, confirm: Vec<DynCheck>) -> (ins: Self)
        ensures
            ins.confirm_checks == confirm,
            ins.env_checks == self.env_checks,
            ins.action == self.action,
    {
        Self { env_checks: self.env_checks, confirm_checks: confirm, action: self.action }
    }

    /// Applies the instruction and writes down what happened.
    ///
    /// The confirmation checks are asked first. Where all hold, nothing
    /// else is done. Where some hold and some do not, nothing else is done
    /// either, and the instruction has failed. Otherwise the environment
    /// checks are asked; where all hold the action is run, once; and where
    /// it succeeded the confirmation checks are asked again.
    pub fn apply(&self) -> (run: InstructionRun)
        ensures
            run.fits(self),
    {
        let before = ask_all(&self.confirm_checks);
        match classify(&before) {
            Confirmation::Applied | Confirmation::Inconsistent => {
                InstructionRun { before, env: Vec::new(), action: None, after: Vec::new() }
            },
            Confirmation::Pending => {
                let env = ask_all(&self.env_checks);
                if !all_yes(&env) {
                    return InstructionRun { before, env, action: None, after: Vec::new() };
                }
                let outcome = self.action.run();
                let after = match outcome {
                    ActionResult::Success => ask_all(&self.confirm_checks),
                    ActionResult::Fail => Vec::new(),
                };
                InstructionRun { before, env, action: Some(outcome), after }
            },
        }
    }
}

/// An instruction that runs `action` without any gate.
pub fn instruction(action: DynAction) -> (ins: Instruction)
    ensures
        ins.action == action,
        ins.env_checks@.len() == 0,
        ins.confirm_checks@.len() == 0,
{
    Instruction::new(action)
}

/// A named list of instructions behind environment checks of its own.
pub struct Playbook {
    name: String,
    description: String,
    env_checks: Vec<DynCheck>,
    instructions: Vec<Instruction>,
}

/// What happened while a playbook was applied.
pub struct ApplyReport {
    /// The answers of the environment checks of the playbook.
    pub env: Vec<bool>,
    /// One record for each instruction that was attempted, in order.
    pub runs: Vec<InstructionRun>,
    /// The verdict.
    pub result: ActionResult,
}

/// The name given to a playbook: `name`, or a placeholder for an empty
/// one.
pub open spec fn name_or_default(name: Seq<char>) -> Seq<char> {
    if name.len() == 0 {
        "?without_name?"@
    } else {
        name
    }
}

/// The description given to a playbook: `description`, or a placeholder
/// for an empty one.
pub open spec fn description_or_default(description: Seq<char>) -> Seq<char> {
    if description.len() == 0 {
        "?Without description?"@
    } else {
        description
    }
}

impl Playbook {
    /// Short name of the playbook.
    pub closed spec fn spec_name(&self) -> Seq<char> {
        self.name@
    }

    /// What the playbook is for.
    pub closed spec fn spec_description(&self) -> Seq<char> {
        self.description@
    }

    /// The environment checks of the playbook.
    pub closed spec fn spec_env_checks(&self) -> Seq<DynCheck> {
        self.env_checks@
    }

    /// The instructions of the playbook.
    pub closed spec fn spec_instructions(&self) -> Seq<Instruction> {
        self.instructions@
    }

    /// Name and description are never empty.
    pub closed spec fn wf(&self) -> bool {
        &&& self.name@.len() > 0
        &&& self.description@.len() > 0
    }

    /// A playbook. An empty name or description is replaced by a
    /// placeholder.
    pub fn new(
        name: &str,
        description: &str,
        env_checks: Vec<DynCheck>,
        instructions: Vec<Instruction>,
    ) -> (pb: Self)
        ensures
            pb.wf(),
            pb.spec_name() == name_or_default(name@),
            pb.spec_description() == description_or_default(description@),
            pb.spec_env_checks() == env_checks@,
            pb.spec_instructions() == instructions@,
    {
        proof {
            reveal_strlit("?without_name?");
            reveal_strlit("?Without description?");
        }
        let name = if name.is_empty() {
            "?without_name?"
        } else {
            name
        };
        let description = if description.is_empty() {
            "?Without description?"
        } else {
            description
        };
        Self {
            name: name.to_owned(),
            description: description.to_owned(),
            env_checks,
            instructions,
        }
    }

    /// Short name of the playbook.
    pub fn name(&self) -> (s: &str)
        ensures
            s@ == self.spec_name(),
    {
        self.name.as_str()
    }

    /// What the playbook is for.
    pub fn description(&self) -> (s: &str)
        ensures
            s@ == self.spec_description(),
    {
        self.description.as_str()
    }

    /// The environment checks of the playbook.
    pub fn env_checks(&self) -> (checks: &Vec<DynCheck>)
        ensures
            checks@ == self.spec_env_checks(),
    {
        &self.env_checks
    }

    /// The instructions of the playbook.
    pub fn instructions(&self) -> (instructions: &Vec<Instruction>)
        ensures
            instructions@ == self.spec_instructions(),
    {
        &self.instructions
    }

    /// Asks every check of the list, in order, and tells whether all of
    /// them came out as wanted: as `true` where `ok_is_true`, as `false`
    /// otherwise. Every check is asked, also behind one that came out
    /// wrong. The second part of the result says for each check whether it
    /// came out as wanted.
    pub fn check_checks(checks: &Vec<DynCheck>, ok_is_true: bool) -> (r: (bool, Vec<bool>))
        ensures
            r.0 == all_true(r.1@),
            r.1@.len() == checks@.len(),
            forall|i: int|
                0 <= i < checks@.len() ==> ((#[trigger] checks@[i]).answer() matches Some(v)
                    ==> r.1@[i] == (v == ok_is_true)),
    {
        let answers = ask_all(checks);
        let mut wanted: Vec<bool> = Vec::new();
        let mut ok = true;
        let mut i: usize = 0;
        while i < answers.len()
            invariant
                i <= answers@.len(),
                wanted@.len() == i,
                forall|j: int| 0 <= j < i ==> wanted@[j] == (answers@[j] == ok_is_true),
                ok == all_true(wanted@),
            decreases answers@.len() - i,
        {
            let check_ok = answers[i] == ok_is_true;
            ok = check_ok && ok;
            let ghost earlier = wanted@;
            wanted.push(check_ok);
            proof {
                assert(forall|j: int| 0 <= j < earlier.len() ==> wanted@[j] == earlier[j]);
                if all_true(wanted@) {
                    assert forall|j: int| 0 <= j < earlier.len() implies earlier[j] by {
                        assert(wanted@[j]);
                    }
                }
                if !check_ok {
                    assert(!wanted@[i as int]);
                }
            }
            i = i + 1;
        }
        (ok, wanted)
    }

    /// `report` can be what applying this playbook wrote down.
    ///
    /// The environment checks of the playbook were asked. Where one did not
    /// hold, no instruction was attempted and the verdict is a failure.
    /// Otherwise the instructions were attempted in order, each only after
    /// all before it had reached a good end; the verdict is a success where
    /// all of them did, and a failure where the last one attempted did not.
    pub open spec fn reported(&self, report: &ApplyReport) -> bool {
        &&& observed(self.spec_env_checks(), report.env@)
        &&& if !all_true(report.env@) {
            &&& report.runs@.len() == 0
            &&& report.result == ActionResult::Fail
        } else {
            &&& report.runs@.len() <= self.spec_instructions().len()
            &&& forall|i: int|
                0 <= i < report.runs@.len() ==> (#[trigger] report.runs@[i]).fits(
                    &self.spec_instructions()[i],
                )
            &&& forall|i: int|
                0 <= i < report.runs@.len() - 1 ==> (#[trigger] report.runs@[i]).succeeded()
            &&& if report.result == ActionResult::Success {
                &&& report.runs@.len() == self.spec_instructions().len()
                &&& forall|i: int|
                    0 <= i < report.runs@.len() ==> (#[trigger] report.runs@[i]).succeeded()
            } else {
                &&& report.runs@.len() > 0
                &&& !report.runs@.last().succeeded()
            }
        }
    }

    /// Applies the playbook and hands out the record of what happened.
    pub fn apply_with_report(&self) -> (report: ApplyReport)
        ensures
            self.reported(&report),
    {
        let env = ask_all(&self.env_checks);
        let mut runs: Vec<InstructionRun> = Vec::new();
        if !all_yes(&env) {
            return ApplyReport { env, runs, result: ActionResult::Fail };
        }
        let mut i: usize = 0;
        while i < self.instructions.len()
            invariant
                i <= self.instructions@.len(),
                runs@.len() == i,
                forall|j: int|
                    0 <= j < i ==> (#[trigger] runs@[j]).fits(&self.instructions@[j]),
                forall|j: int| 0 <= j < i ==> (#[trigger] runs@[j]).succeeded(),
                observed(self.env_checks@, env@),
                all_true(env@),
            decreases self.instructions@.len() - i,
        {
            let run = self.instructions[i].apply();
            let ok = run.ok();
            runs.push(run);
            if !ok {
                return ApplyReport { env, runs, result: ActionResult::Fail };
            }
            i = i + 1;
        }
        ApplyReport { env, runs, result: ActionResult::Success }
    }

    /// `names` can be the names that the checks and actions gave while the
    /// story of `report` was told: the names of the environment checks of
    /// the playbook, and for each instruction that was attempted the names
    /// that `run_named` asks for.
    pub open spec fn story_named(&self, report: &ApplyReport, names: StoryNames) -> bool {
        &&& named(self.spec_env_checks(), names.env)
        &&& names.runs.len() == report.runs@.len()
        &&& forall|k: int|
            0 <= k < report.runs@.len() ==> run_named(
                &self.spec_instructions()[k],
                &report.runs@[k],
                #[trigger] names.runs[k],
            )
    }

    /// Tells the story of applying the playbook, as `report` has it: the
    /// header, the section of the playbook with the check list of its
    /// environment and the section of its actions, in which each
    /// instruction that was attempted has a section of its own, and at the
    /// end the verdict. The text that is added is `with_story` of the
    /// report and of the names that the checks and actions gave. Every
    /// section that is opened is closed again.
    pub fn narrate(&self, report: &ApplyReport, story: &mut StoryFormatter)
        requires
            self.reported(report),
            old(story).wf(),
        ensures
            final(story).wf(),
            final(story).columns() == old(story).columns(),
            final(story).sections() == old(story).sections(),
            exists|names: StoryNames|
                #[trigger] self.story_named(report, names) && final(story).text() == with_story(
                    old(story).text(),
                    old(story).sections(),
                    report,
                    names,
                    self.spec_description(),
                    old(story).columns(),
                ),
            begins_with(
                final(story).text(),
                old(story).text() + header_text(self.spec_description()),
            ),
            ends_with(
                final(story).text(),
                result_text(self.spec_description(), report.result == ActionResult::Success),
            ),
    {
        let ghost open = story.sections();
        let ghost start = story.text();
        let ghost columns = story.columns();
        let ghost inside = open.push("Playbook"@);
        let ghost actions = inside.push("Actions"@);
        story.playbook_header(self.description.as_str());
        let ghost opened = story.text();
        story.push("Playbook");
        let mut ok = true;
        let ghost mut env_names: Seq<Seq<char>> = Seq::empty();
        if self.env_checks.len() > 0 {
            let told = narrate_checks(story, "Environment", &self.env_checks, &report.env);
            ok = told.0;
            proof {
                env_names = told.1@;
            }
        }
        let ghost after_env = story.text();
        let ghost mut run_names: Seq<RunNames> = Seq::empty();
        let with_actions = ok && self.instructions.len() > 0;
        if with_actions {
            story.push("Actions");
            let mut i: usize = 0;
            assert(story.text() == with_runs(after_env, actions, report.runs@, run_names, columns));
            while ok && i < report.runs.len()
                invariant
                    self.reported(report),
                    all_true(report.env@),
                    i <= report.runs@.len() <= self.instructions@.len(),
                    story.wf(),
                    story.columns() == columns,
                    story.sections() == actions,
                    story.separator_due() == (i == 0),
                    begins_with(story.text(), opened),
                    ok == (i == 0 || report.runs@[i - 1].succeeded()),
                    run_names.len() == i,
                    forall|k: int|
                        0 <= k < i ==> run_named(
                            &self.instructions@[k],
                            &report.runs@[k],
                            #[trigger] run_names[k],
                        ),
                    story.text() == with_runs(
                        after_env,
                        actions,
                        report.runs@,
                        run_names,
                        columns,
                    ),
                decreases report.runs@.len() - i,
            {
                assert(report.runs@[i as int].fits(&self.instructions@[i as int]));
                let ghost before = run_names;
                let told = narrate_run(story, i, &self.instructions[i], &report.runs[i]);
                ok = told.0;
                proof {
                    run_names = before.push(told.1@);
                    assert(run_names.drop_last() =~= before);
                }
                i = i + 1;
            }
            assert(i == report.runs@.len()) by {
                if i < report.runs@.len() {
                    assert(report.runs@[i - 1].succeeded());
                }
            }
            story.section_result(ok);
            assert(actions.drop_last() =~= inside);
        }
        proof {
            if with_actions && report.result == ActionResult::Fail {
                assert(report.runs@.last() == report.runs@[report.runs@.len() - 1]);
            }
            assert(ok == (report.result == ActionResult::Success));
            assert(with_actions == (all_true(report.env@) && report.runs@.len() > 0));
        }
        story.section_result(ok);
        assert(inside.drop_last() =~= open);
        let ghost told = story.text();
        story.playbook_result(self.description.as_str(), report.result.ok());
        proof {
            let verdict = result_text(
                self.spec_description(),
                report.result == ActionResult::Success,
            );
            assert(story.text() == told + verdict);
            assert(story.text().subrange(told.len() as int, story.text().len() as int)
                =~= verdict);
            let names = StoryNames { env: env_names, runs: run_names };
            assert(self.story_named(report, names));
            assert(story.text() == with_story(
                start,
                open,
                report,
                names,
                self.spec_description(),
                columns,
            ));
        }
    }

    /// Applies the playbook: a success where every instruction reached a
    /// good end, a failure at the first gate that did not hold.
    pub fn apply(&self) -> (r: ActionResult)
        ensures
            exists|report: ApplyReport| self.reported(&report) && report.result == r,
    {
        let report = self.apply_with_report();
        assert(self.reported(&report) && report.result == report.result);
        report.result
    }
}

/// `names` can be the names that `checks` gave, one after the other:
/// there is one name for each check, and a check whose name is fixed gave
/// it.
pub open spec fn named(checks: Seq<DynCheck>, names: Seq<Seq<char>>) -> bool {
    &&& names.len() == checks.len()
    &&& forall|i: int|
        0 <= i < checks.len() ==> ((#[trigger] checks[i]).label() matches Some(l) ==> names[i]
            == l)
}

/// The items of a check list: one for each name, numbered from one, each
/// with the answer of its place.
pub open spec fn items_text(names: Seq<Seq<char>>, answers: Seq<bool>, columns: int) -> Seq<char>
    decreases names.len(),
{
    if names.len() == 0 {
        Seq::empty()
    } else {
        items_text(names.drop_last(), answers, columns) + checklist_item_text(
            answers[names.len() - 1],
            names.len(),
            names.last(),
            columns,
        )
    }
}

/// `after` is `before` and, behind it, one item for each check of the
/// list, with the name that the check gave and the answer of its place.
#[verifier::opaque]
pub open spec fn items_added(
    checks: Seq<DynCheck>,
    answers: Seq<bool>,
    columns: int,
    before: Seq<char>,
    after: Seq<char>,
) -> bool {
    exists|names: Seq<Seq<char>>|
        #[trigger] named(checks, names) && after == before + items_text(names, answers, columns)
}

/// Adds one item for each check of the list: whether it held, its number
/// and its name.
fn narrate_items(story: &mut StoryFormatter, checks: &Vec<DynCheck>, answers: &Vec<bool>)
    requires
        old(story).wf(),
        answers@.len() == checks@.len(),
    ensures
        final(story).wf(),
        final(story).columns() == old(story).columns(),
        final(story).sections() == old(story).sections(),
        final(story).separator_due() == old(story).separator_due(),
        begins_with(final(story).text(), old(story).text()),
        items_added(
            checks@,
            answers@,
            old(story).columns(),
            old(story).text(),
            final(story).text(),
        ),
{
    let count: usize = checks.len();
    let ghost mut names: Seq<Seq<char>> = Seq::empty();
    let mut i: usize = 0;
    assert(story.text() =~= old(story).text() + items_text(
        names,
        answers@,
        old(story).columns(),
    ));
    while i < count
        invariant
            i <= count,
            count == checks@.len(),
            count == answers@.len(),
            story.wf(),
            story.columns() == old(story).columns(),
            story.sections() == old(story).sections(),
            story.separator_due() == old(story).separator_due(),
            begins_with(story.text(), old(story).text()),
            names.len() == i,
            forall|j: int|
                0 <= j < i ==> ((#[trigger] checks@[j]).label() matches Some(l) ==> names[j]
                    == l),
            story.text() == old(story).text() + items_text(
                names,
                answers@,
                old(story).columns(),
            ),
        decreases count - i,
    {
        let name = checks[i].name();
        let ghost before = names;
        let ghost told = story.text();
        story.checklist_item(answers[i], i + 1, name);
        proof {
            names = before.push(name@);
            assert(names.drop_last() =~= before);
            let item = checklist_item_text(
                answers@[i as int],
                (i + 1) as nat,
                name@,
                old(story).columns(),
            );
            assert(items_text(names, answers@, old(story).columns()) == items_text(
                before,
                answers@,
                old(story).columns(),
            ) + item);
            assert(story.text() =~= old(story).text() + items_text(
                names,
                answers@,
                old(story).columns(),
            ));
        }
        i = i + 1;
    }
    proof {
        reveal(items_added);
        assert(named(checks@, names));
    }
}

/// `text` with a check list behind it: its head under the path of
/// `sections` and `title`, one item for each name with the answer of its
/// place, and its foot with the result, which is good where every answer
/// is `true`.
pub open spec fn with_checklist(
    text: Seq<char>,
    sections: Seq<Seq<char>>,
    title: Seq<char>,
    names: Seq<Seq<char>>,
    answers: Seq<bool>,
    columns: int,
) -> Seq<char> {
    text + checklist_title_text(section_path(sections.push(title)), columns) + items_text(
        names,
        answers,
        columns,
    ) + checklist_result_text(all_true(answers))
}

/// `text` with the check list of the confirmation checks before an
/// action behind it. Where the answers are inconsistent, the items are
/// followed by a note and the result is bad. Where all hold, the items are
/// followed by the note that the action is skipped. Where none holds, a
/// note under the head says so and the items follow.
pub open spec fn with_confirmation(
    text: Seq<char>,
    sections: Seq<Seq<char>>,
    names: Seq<Seq<char>>,
    answers: Seq<bool>,
    columns: int,
) -> Seq<char> {
    let head = text + checklist_title_text(
        section_path(sections.push("Confirmation"@)),
        columns,
    );
    let body = match confirmation(answers) {
        Confirmation::Inconsistent => head + items_text(names, answers, columns) + "|\n"@
            + note_text("confirmation checks should be *all yes* or *all no*"@, columns) + "\n"@,
        Confirmation::Applied => head + items_text(names, answers, columns) + "|\n"@ + note_text(
            "action already applied, skipping"@,
            columns,
        ) + "\n"@,
        Confirmation::Pending => head + note_text("checking all confirmations is *no*"@, columns)
            + "\n|\n"@ + items_text(names, answers, columns),
    };
    body + checklist_result_text(confirmation(answers) != Confirmation::Inconsistent)
}

/// The names that the action and the checks of one instruction gave while
/// its story was told. A list of checks that was not told has no names.
pub struct RunNames {
    /// The name of the action.
    pub action: Seq<char>,
    /// The names of the confirmation checks, for the list before the action.
    pub before: Seq<Seq<char>>,
    /// The names of the environment checks.
    pub env: Seq<Seq<char>>,
    /// The names of the confirmation checks, for the list after the action.
    pub after: Seq<Seq<char>>,
}

/// The names that the checks and actions of a playbook gave while its
/// story was told.
pub struct StoryNames {
    /// The names of the environment checks of the playbook.
    pub env: Seq<Seq<char>>,
    /// The names for each instruction that was attempted, in order.
    pub runs: Seq<RunNames>,
}

/// `names` can be the names that the action and the checks of `ins` gave
/// while the story of `run` was told: an action or a check whose name is
/// fixed gave it, and each list that was told has one name for each check.
pub open spec fn run_named(ins: &Instruction, run: &InstructionRun, names: RunNames) -> bool {
    &&& ins.action.label() matches Some(l) ==> names.action == l
    &&& named(ins.confirm_checks@, names.before)
    &&& run.env@.len() > 0 ==> named(ins.env_checks@, names.env)
    &&& run.after@.len() > 0 ==> named(ins.confirm_checks@, names.after)
}

/// Whether the section `pre` of an instruction ended well: the
/// confirmation checks were consistent, and where the action was due the
/// environment held.
pub open spec fn pre_ok(run: &InstructionRun) -> bool {
    match confirmation(run.before@) {
        Confirmation::Pending => all_true(run.env@),
        Confirmation::Applied => true,
        Confirmation::Inconsistent => false,
    }
}

/// `text` with the section `pre` of an instruction behind it, told inside
/// `inside`: the check list of the confirmation checks, where there are
/// any, that of the environment checks, where they were asked and there
/// are any, and the line that closes the section. `due` says whether a
/// line break is due beforehand.
pub open spec fn with_pre(
    text: Seq<char>,
    inside: Seq<Seq<char>>,
    due: bool,
    run: &InstructionRun,
    before: Seq<Seq<char>>,
    env: Seq<Seq<char>>,
    columns: int,
) -> Seq<char> {
    let pre = inside.push("pre"@);
    let confirm_told = run.before@.len() > 0;
    let env_told = confirmation(run.before@) == Confirmation::Pending && run.env@.len() > 0;
    let t1 = if confirm_told {
        with_confirmation(text, pre, before, run.before@, columns)
    } else {
        text
    };
    let t2 = if env_told {
        with_checklist(t1, pre, "Environment"@, env, run.env@, columns)
    } else {
        t1
    };
    t2 + separator_text(confirm_told || env_told || due) + section_result_text(
        section_path(pre),
        pre_ok(run),
    )
}

/// `text` with the line that tells how the action of an instruction went
/// behind it, told inside `inside`, and, where the action went well, the
/// section `post` with the check list of the confirmation checks as they
/// answered afterwards, where there are any.
pub open spec fn with_action(
    text: Seq<char>,
    inside: Seq<Seq<char>>,
    run: &InstructionRun,
    after: Seq<Seq<char>>,
    columns: int,
) -> Seq<char> {
    let ran_well = run.action == Some(ActionResult::Success);
    let told = text + separator_text(false) + section_path(inside.push("apply"@))
        + "|> ...applying"@ + process_end_text(ran_well);
    if !ran_well {
        told
    } else {
        let post = inside.push("post"@);
        let confirm_told = run.before@.len() > 0;
        let listed = if confirm_told {
            with_checklist(told, post, "Confirmation"@, after, run.after@, columns)
        } else {
            told
        };
        listed + separator_text(confirm_told) + section_result_text(
            section_path(post),
            all_true(run.after@),
        )
    }
}

/// `text` with the story of one instruction behind it, the `i`-th of its
/// playbook counted from zero, told inside `sections`; `due` says whether
/// a line break is due beforehand.
///
/// The instruction has a section under its number and the name of its
/// action. In it stands the section `pre`; where that ended well and the
/// action was due, what `with_action` adds; and the line that closes the
/// section, with the result of the instruction.
pub open spec fn with_run(
    text: Seq<char>,
    sections: Seq<Seq<char>>,
    due: bool,
    i: int,
    run: &InstructionRun,
    names: RunNames,
    columns: int,
) -> Seq<char> {
    let inside = sections.push(decimal((i + 1) as nat) + "."@ + names.action);
    let before = with_pre(text, inside, due, run, names.before, names.env, columns);
    let told = if pre_ok(run) && confirmation(run.before@) == Confirmation::Pending {
        with_action(before, inside, run, names.after, columns)
    } else {
        before
    };
    told + separator_text(false) + section_result_text(section_path(inside), run.succeeded())
}

/// `text` with the stories of the instructions behind it, one for each
/// entry of `names`, in order. A line break is due before the first.
pub open spec fn with_runs(
    text: Seq<char>,
    sections: Seq<Seq<char>>,
    runs: Seq<InstructionRun>,
    names: Seq<RunNames>,
    columns: int,
) -> Seq<char>
    decreases names.len(),
{
    if names.len() == 0 {
        text
    } else {
        with_run(
            with_runs(text, sections, runs, names.drop_last(), columns),
            sections,
            names.len() == 1,
            names.len() - 1,
            &runs[names.len() - 1],
            names.last(),
            columns,
        )
    }
}

/// `text` with the story of a playbook behind it, as `report` has it, told
/// inside `sections`.
///
/// The header names the playbook by `description`. The section `Playbook`
/// holds the check list of the environment, where there are such checks,
/// and, where the environment held and an instruction was attempted, the
/// section `Actions` with the story of each instruction. Both sections end
/// with the verdict of the report, and so does the story.
pub open spec fn with_story(
    text: Seq<char>,
    sections: Seq<Seq<char>>,
    report: &ApplyReport,
    names: StoryNames,
    description: Seq<char>,
    columns: int,
) -> Seq<char> {
    let inside = sections.push("Playbook"@);
    let actions = inside.push("Actions"@);
    let ok = report.result == ActionResult::Success;
    let with_actions = all_true(report.env@) && report.runs@.len() > 0;
    let t0 = text + header_text(description);
    let t1 = if report.env@.len() > 0 {
        with_checklist(t0, inside, "Environment"@, names.env, report.env@, columns)
    } else {
        t0
    };
    let t2 = if with_actions {
        with_runs(t1, actions, report.runs@, names.runs, columns) + separator_text(false)
            + section_result_text(section_path(actions), ok)
    } else {
        t1
    };
    t2 + separator_text(!with_actions) + section_result_text(section_path(inside), ok)
        + result_text(description, ok)
}

/// Adds a check list with one item for each check, and tells whether all
/// of them held. The second part of the result is the names that the
/// checks gave.
fn narrate_checks(
    story: &mut StoryFormatter,
    title: &str,
    checks: &Vec<DynCheck>,
    answers: &Vec<bool>,
) -> (r: (bool, Ghost<Seq<Seq<char>>>))
    requires
        old(story).wf(),
        answers@.len() == checks@.len(),
    ensures
        r.0 == all_true(answers@),
        named(checks@, r.1@),
        final(story).text() == with_checklist(
            old(story).text(),
            old(story).sections(),
            title@,
            r.1@,
            answers@,
            old(story).columns(),
        ),
        final(story).separator_due(),
        final(story).wf(),
        final(story).columns() == old(story).columns(),
        final(story).sections() == old(story).sections(),
        begins_with(final(story).text(), old(story).text()),
{
    story.checklist_begin(title);
    let ghost head = story.text();
    narrate_items(story, checks, answers);
    let ghost mut names: Seq<Seq<char>> = Seq::empty();
    proof {
        reveal(items_added);
        names = choose|names: Seq<Seq<char>>|
            #[trigger] named(checks@, names) && story.text() == head + items_text(
                names,
                answers@,
                old(story).columns(),
            );
    }
    let ok = all_yes(answers);
    story.checklist_result(ok);
    assert(old(story).sections().push(title@).drop_last() =~= old(story).sections());
    (ok, Ghost(names))
}

/// Adds the check list of the confirmation checks as they answered before
/// the action, and tells whether the answers are consistent. The second
/// part of the result is the names that the checks gave.
fn narrate_confirmation(story: &mut StoryFormatter, checks: &Vec<DynCheck>, answers: &Vec<bool>) -> (r:
    (bool, Ghost<Seq<Seq<char>>>))
    requires
        old(story).wf(),
        answers@.len() == checks@.len(),
    ensures
        r.0 == (confirmation(answers@) != Confirmation::Inconsistent),
        named(checks@, r.1@),
        final(story).text() == with_confirmation(
            old(story).text(),
            old(story).sections(),
            r.1@,
            answers@,
            old(story).columns(),
        ),
        final(story).separator_due(),
        final(story).wf(),
        final(story).columns() == old(story).columns(),
        final(story).sections() == old(story).sections(),
        begins_with(final(story).text(), old(story).text()),
{
    let ghost columns = story.columns();
    story.checklist_begin("Confirmation");
    let ghost mut names: Seq<Seq<char>> = Seq::empty();
    let mut ok = true;
    match classify(answers) {
        Confirmation::Inconsistent => {
            let ghost head = story.text();
            narrate_items(story, checks, answers);
            proof {
                reveal(items_added);
                names = choose|names: Seq<Seq<char>>|
                    #[trigger] named(checks@, names) && story.text() == head + items_text(
                        names,
                        answers@,
                        columns,
                    );
            }
            story.checklist_note("confirmation checks should be *all yes* or *all no*");
            ok = false;
        },
        Confirmation::Applied => {
            let ghost head = story.text();
            narrate_items(story, checks, answers);
            proof {
                reveal(items_added);
                names = choose|names: Seq<Seq<char>>|
                    #[trigger] named(checks@, names) && story.text() == head + items_text(
                        names,
                        answers@,
                        columns,
                    );
            }
            story.checklist_note("action already applied, skipping");
        },
        Confirmation::Pending => {
            story.checklist_title_note("checking all confirmations is *no*");
            let ghost head = story.text();
            narrate_items(story, checks, answers);
            proof {
                reveal(items_added);
                names = choose|names: Seq<Seq<char>>|
                    #[trigger] named(checks@, names) && story.text() == head + items_text(
                        names,
                        answers@,
                        columns,
                    );
            }
        },
    }
    story.checklist_result(ok);
    assert(old(story).sections().push("Confirmation"@).drop_last() =~= old(story).sections());
    (ok, Ghost(names))
}

/// Adds the section `pre` of an instruction: its checks before the
/// action. Tells whether the section ended well, and hands out the names
/// that the confirmation checks and the environment checks gave.
fn narrate_pre(story: &mut StoryFormatter, ins: &Instruction, run: &InstructionRun) -> (r: (
    bool,
    Ghost<Seq<Seq<char>>>,
    Ghost<Seq<Seq<char>>>,
))
    requires
        old(story).wf(),
        run.fits(ins),
    ensures
        r.0 == pre_ok(run),
        named(ins.confirm_checks@, r.1@),
        run.env@.len() > 0 ==> named(ins.env_checks@, r.2@),
        final(story).text() == with_pre(
            old(story).text(),
            old(story).sections(),
            old(story).separator_due(),
            run,
            r.1@,
            r.2@,
            old(story).columns(),
        ),
        !final(story).separator_due(),
        final(story).wf(),
        final(story).columns() == old(story).columns(),
        final(story).sections() == old(story).sections(),
        begins_with(final(story).text(), old(story).text()),
{
    let ghost inside = story.sections();
    let ghost mut before: Seq<Seq<char>> = Seq::empty();
    let ghost mut env: Seq<Seq<char>> = Seq::empty();
    story.push("pre");
    assert(inside.push("pre"@).drop_last() =~= inside);
    let mut ok = true;
    if ins.confirm_checks.len() > 0 {
        let told = narrate_confirmation(story, &ins.confirm_checks, &run.before);
        ok = told.0;
        proof {
            before = told.1@;
        }
    }
    let pending = match classify(&run.before) {
        Confirmation::Pending => true,
        _ => false,
    };
    if pending && ins.env_checks.len() > 0 {
        let told = narrate_checks(story, "Environment", &ins.env_checks, &run.env);
        ok = told.0;
        proof {
            env = told.1@;
        }
    }
    story.section_result(ok);
    (ok, Ghost(before), Ghost(env))
}

/// Adds the line that tells how the action of an instruction went, and,
/// where it went well, the section `post` with its checks after the
/// action. Tells whether all went well, and hands out the names that the
/// confirmation checks gave.
fn narrate_action(story: &mut StoryFormatter, ins: &Instruction, run: &InstructionRun) -> (r: (
    bool,
    Ghost<Seq<Seq<char>>>,
))
    requires
        old(story).wf(),
        !old(story).separator_due(),
        run.fits(ins),
        pre_ok(run),
        confirmation(run.before@) == Confirmation::Pending,
    ensures
        r.0 == run.succeeded(),
        run.after@.len() > 0 ==> named(ins.confirm_checks@, r.1@),
        final(story).text() == with_action(
            old(story).text(),
            old(story).sections(),
            run,
            r.1@,
            old(story).columns(),
        ),
        !final(story).separator_due(),
        final(story).wf(),
        final(story).columns() == old(story).columns(),
        final(story).sections() == old(story).sections(),
        begins_with(final(story).text(), old(story).text()),
{
    let ghost inside = story.sections();
    let ghost mut after: Seq<Seq<char>> = Seq::empty();
    let ran_well = match run.action {
        Some(ActionResult::Success) => true,
        _ => false,
    };
    story.process_begin("apply");
    story.process_end(ran_well);
    assert(inside.push("apply"@).drop_last() =~= inside);
    if !ran_well {
        return (false, Ghost(after));
    }
    story.push("post");
    assert(inside.push("post"@).drop_last() =~= inside);
    let mut confirmed = true;
    if ins.confirm_checks.len() > 0 {
        let told = narrate_checks(story, "Confirmation", &ins.confirm_checks, &run.after);
        confirmed = told.0;
        proof {
            after = told.1@;
        }
    }
    story.section_result(confirmed);
    (confirmed, Ghost(after))
}

/// Tells the story of one instruction, the `i`-th of its playbook counted
/// from zero, as `run` has it, and tells whether it reached a good end.
/// The second part of the result is the names that its action and its
/// checks gave.
fn narrate_run(story: &mut StoryFormatter, i: usize, ins: &Instruction, run: &InstructionRun) -> (r:
    (bool, Ghost<RunNames>))
    requires
        old(story).wf(),
        run.fits(ins),
        i < usize::MAX,
    ensures
        r.0 == run.succeeded(),
        run_named(ins, run, r.1@),
        final(story).text() == with_run(
            old(story).text(),
            old(story).sections(),
            old(story).separator_due(),
            i as int,
            run,
            r.1@,
            old(story).columns(),
        ),
        !final(story).separator_due(),
        final(story).wf(),
        final(story).columns() == old(story).columns(),
        final(story).sections() == old(story).sections(),
        begins_with(final(story).text(), old(story).text()),
{
    let ghost open = story.sections();
    let ghost mut after: Seq<Seq<char>> = Seq::empty();
    let name = ins.action.name();
    let title = decimal_text(i + 1).concat(".").concat(name);
    story.push(title.as_str());
    let ghost inside = story.sections();
    assert(inside.drop_last() =~= open);
    let pre = narrate_pre(story, ins, run);
    let mut ok = pre.0;
    let pending = match classify(&run.before) {
        Confirmation::Pending => true,
        _ => false,
    };
    if ok && pending {
        let told = narrate_action(story, ins, run);
        ok = told.0;
        proof {
            after = told.1@;
        }
    }
    story.section_result(ok);
    (ok, Ghost(RunNames { action: name@, before: pre.1@, env: pre.2@, after }))
}

/// An action whose confirmation checks all hold beforehand is not run: no
/// environment check is asked, the action has no outcome, nothing is asked
/// again, and the instruction has reached a good end.
pub proof fn lemma_applied_is_skipped(ins: &Instruction, run: &InstructionRun)
    requires
        run.fits(ins),
        confirmation(run.before@) == Confirmation::Applied,
    ensures
        run.succeeded(),
        run.action is None,
        run.env@.len() == 0,
        run.after@.len() == 0,
{
}

/// The confirmation checks are asked a second time only behind an action
/// that was run and succeeded.
pub proof fn lemma_asked_again_only_behind_success(ins: &Instruction, run: &InstructionRun)
    requires
        run.fits(ins),
        run.after@.len() > 0,
    ensures
        run.action == Some(ActionResult::Success),
        confirmation(run.before@) == Confirmation::Pending,
        all_true(run.env@),
{
}

/// Confirmation checks that are all known to hold read as "applied".
pub proof fn lemma_known_answers_read_applied(checks: Seq<DynCheck>, answers: Seq<bool>)
    requires
        observed(checks, answers),
        checks.len() > 0,
        crate::checks::all_answer(checks, true),
    ensures
        confirmation(answers) == Confirmation::Applied,
{
    assert forall|i: int| 0 <= i < answers.len() implies answers[i] by {
        assert(checks[i].answer() == Some(true));
    }
}

/// Confirmation checks of which one is known to hold and one is known not
/// to hold read as "inconsistent".
pub proof fn lemma_known_answers_read_inconsistent(checks: Seq<DynCheck>, answers: Seq<bool>)
    requires
        observed(checks, answers),
        crate::checks::some_answers(checks, true),
        crate::checks::some_answers(checks, false),
    ensures
        confirmation(answers) == Confirmation::Inconsistent,
{
    let yes = choose|i: int| 0 <= i < checks.len() && (#[trigger] checks[i]).answer() == Some(true);
    let no = choose|i: int|
        0 <= i < checks.len() && (#[trigger] checks[i]).answer() == Some(false);
    assert(answers[yes]);
    assert(!answers[no]);
}

/// A playbook of one instruction whose confirmation checks all hold
/// beforehand succeeds without running the action.
pub proof fn lemma_applied_playbook_succeeds(pb: &Playbook, report: &ApplyReport)
    requires
        pb.reported(report),
        pb.spec_instructions().len() == 1,
        all_true(report.env@),
        report.runs@.len() > 0 ==> confirmation(report.runs@[0].before@) == Confirmation::Applied,
    ensures
        report.result == ActionResult::Success,
        report.runs@.len() == 1,
        report.runs@[0].action is None,
{
    assert(report.runs@.len() == 1);
    assert(report.runs@.last() == report.runs@[0]);
    assert(report.runs@[0].fits(&pb.spec_instructions()[0]));
}

/// Where the confirmation checks of an instruction are inconsistent
/// beforehand, its action is not run, no later instruction is attempted
/// and the playbook fails.
pub proof fn lemma_inconsistent_confirmation_fails(pb: &Playbook, report: &ApplyReport, i: int)
    requires
        pb.reported(report),
        0 <= i < report.runs@.len(),
        confirmation(report.runs@[i].before@) == Confirmation::Inconsistent,
    ensures
        report.result == ActionResult::Fail,
        report.runs@[i].action is None,
        i == report.runs@.len() - 1,
{
    assert(report.runs@[i].fits(&pb.spec_instructions()[i]));
    assert(!report.runs@[i].succeeded());
}

/// Where an environment check of the playbook does not hold, no
/// instruction is attempted and the playbook fails.
pub proof fn lemma_failed_environment_stops(pb: &Playbook, report: &ApplyReport)
    requires
        pb.reported(report),
        !all_true(report.env@),
    ensures
        report.result == ActionResult::Fail,
        report.runs@.len() == 0,
{
}

/// An environment check that is known not to hold makes the playbook fail
/// before any instruction.
pub proof fn lemma_known_failed_environment(pb: &Playbook, report: &ApplyReport)
    requires
        pb.reported(report),
        crate::checks::some_answers(pb.spec_env_checks(), false),
    ensures
        report.result == ActionResult::Fail,
        report.runs@.len() == 0,
{
    let no = choose|i: int|
        0 <= i < pb.spec_env_checks().len() && (#[trigger] pb.spec_env_checks()[i]).answer()
            == Some(false);
    assert(!report.env@[no]);
}

/// Instructions are attempted in the order of the playbook: a later one
/// was attempted only after every earlier one had reached a good end, that
/// is, was found applied or was run with success and confirmed.
pub proof fn lemma_attempted_in_order(pb: &Playbook, report: &ApplyReport, i: int, j: int)
    requires
        pb.reported(report),
        0 <= i < j < report.runs@.len(),
    ensures
        report.runs@[i].fits(&pb.spec_instructions()[i]),
        report.runs@[i].succeeded(),
        report.runs@[i].action is None || report.runs@[i].action == Some(ActionResult::Success),
{
    assert(report.runs@[i].fits(&pb.spec_instructions()[i]));
    assert(report.runs@[i].succeeded());
}

/// The playbook succeeds exactly where its environment held and every one
/// of its instructions was attempted and reached a good end.
pub proof fn lemma_success_means_all_done(pb: &Playbook, report: &ApplyReport)
    requires
        pb.reported(report),
    ensures
        (report.result == ActionResult::Success) <==> (all_true(report.env@) && report.runs@.len()
            == pb.spec_instructions().len() && forall|i: int|
            0 <= i < report.runs@.len() ==> (#[trigger] report.runs@[i]).succeeded()),
{
    if report.result == ActionResult::Fail && all_true(report.env@) {
        assert(!report.runs@.last().succeeded());
    }
}

} // verus!
