//! The calls of native tools that carry out an operation, and the rules by
//! which the engine reads what a tool left behind.
//!
//! An operation is planned as a list of steps. A step names a call and the
//! check that decides whether the call succeeded. Whoever runs the plan
//! runs each call once, in order, and stops at the first failure: no call
//! that changes a disk is ever tried again.

use crate::error::{ErrorKind, ErrorView, PartitionError};
use crate::platform::{CommandOutput, CommandView, DriverCommand};
use crate::strings::{text_contains, trim, trimmed};
use crate::text::{decimal, decimal_string, holds};
use vstd::prelude::*;
use vstd::string::*;

verus! {

/// What a native tool left behind, as a mathematical value.
pub struct OutputView {
    pub success: bool,
    pub exit_code: Option<int>,
    pub stdout: Seq<char>,
    pub stderr: Seq<char>,
}

impl View for CommandOutput {
    type V = OutputView;

    open spec fn view(&self) -> OutputView {
        OutputView {
            success: self.success,
            exit_code: match self.exit_code {
                Some(code) => Some(code as int),
                None => None,
            },
            stdout: self.stdout@,
            stderr: self.stderr@,
        }
    }
}

/// The rule that decides whether a call succeeded.
#[derive(Debug, Clone)]
pub enum Check {
    /// The tool's own report decides. The error is `lead` and what the tool
    /// printed as errors.
    Status { lead: String },
    /// The tool must report success and print `first` or `second`. Where
    /// it reports failure, the error is `failed` and what the tool printed:
    /// both streams under headings if `both_streams`, else the errors only.
    /// Where the word is missing, the error is `unsure` and the output.
    Word { failed: String, both_streams: bool, first: String, second: String, unsure: String },
    /// For an extension by `diskpart`: the tool must report success and
    /// print neither `failed` nor `error`. The error holds the script.
    Diskpart { script: String },
    /// For `robocopy`: an exit code under 8 is success, and a call without
    /// an exit code counts as 16. The error is `lead`, the code and what
    /// the tool printed as errors.
    Robocopy { lead: String },
    /// For `robocopy`, strictly: an exit code from 0 to 7 is success, and a
    /// call without an exit code has failed. The error is `lead` and what
    /// the tool printed as errors.
    RobocopyRange { lead: String },
}

/// A check as a mathematical value.
pub enum CheckView {
    Status { lead: Seq<char> },
    Word {
        failed: Seq<char>,
        both_streams: bool,
        first: Seq<char>,
        second: Seq<char>,
        unsure: Seq<char>,
    },
    Diskpart { script: Seq<char> },
    Robocopy { lead: Seq<char> },
    RobocopyRange { lead: Seq<char> },
}

impl View for Check {
    type V = CheckView;

    open spec fn view(&self) -> CheckView {
        match self {
            Check::Status { lead } => CheckView::Status { lead: lead@ },
            Check::Word { failed, both_streams, first, second, unsure } => CheckView::Word {
                failed: failed@,
                both_streams: *both_streams,
                first: first@,
                second: second@,
                unsure: unsure@,
            },
            Check::Diskpart { script } => CheckView::Diskpart { script: script@ },
            Check::Robocopy { lead } => CheckView::Robocopy { lead: lead@ },
            Check::RobocopyRange { lead } => CheckView::RobocopyRange { lead: lead@ },
        }
    }
}

/// One call of a native tool within an operation: the phase it belongs to,
/// the call, and the check of its outcome.
#[derive(Debug, Clone)]
pub struct DriverStep {
    pub phase: String,
    pub command: DriverCommand,
    pub check: Check,
}

/// A step as a mathematical value.
pub struct DriverStepView {
    pub phase: Seq<char>,
    pub command: CommandView,
    pub check: CheckView,
}

impl View for DriverStep {
    type V = DriverStepView;

    open spec fn view(&self) -> DriverStepView {
        DriverStepView { phase: self.phase@, command: self.command@, check: self.check@ }
    }
}

/// One item of a plan: a call to run, or the error in which the operation
/// ends once it gets this far.
#[derive(Debug, Clone)]
pub enum PlanStep {
    Run { step: DriverStep },
    Stop { error: PartitionError },
}

/// An item of a plan as a mathematical value.
pub enum PlanStepView {
    Run { step: DriverStepView },
    Stop { error: ErrorView },
}

impl View for PlanStep {
    type V = PlanStepView;

    open spec fn view(&self) -> PlanStepView {
        match self {
            PlanStep::Run { step } => PlanStepView::Run { step: step@ },
            PlanStep::Stop { error } => PlanStepView::Stop { error: error@ },
        }
    }
}

/// The views of a plan's items.
pub open spec fn plan_views(plan: Seq<PlanStep>) -> Seq<PlanStepView> {
    plan.map_values(|s: PlanStep| s@)
}

/// The exit code that a call without one counts as.
pub const NO_EXIT_CODE: i32 = 16;

/// The least exit code by which `robocopy` reports a failure.
pub const ROBOCOPY_FAILURE: i32 = 8;

/// What `diskpart` is taken to have said where it fails to extend.
pub open spec fn diskpart_reason(out: OutputView) -> Seq<char> {
    if out.stderr.len() > 0 {
        out.stderr
    } else if out.stdout.len() > 0 {
        out.stdout
    } else {
        "Unknown diskpart error"@
    }
}

/// The error for an extension by `diskpart` that failed.
pub open spec fn diskpart_failure_text(script: Seq<char>, out: OutputView) -> Seq<char> {
    "Diskpart failed: "@ + trimmed(diskpart_reason(out)) + "\n\nScript used:\n"@ + script
        + "\n\nFull output:\n"@ + out.stdout
}

/// The error for a call that reported failure under a `Word` check.
pub open spec fn word_failure_text(failed: Seq<char>, both_streams: bool, out: OutputView) -> Seq<
    char,
> {
    if both_streams {
        failed + "\nStdout: "@ + out.stdout + "\nStderr: "@ + out.stderr
    } else {
        failed + out.stderr
    }
}

/// The exit code of a call, with 16 for a call that has none.
pub open spec fn effective_exit_code(out: OutputView) -> int {
    match out.exit_code {
        Some(code) => code,
        None => NO_EXIT_CODE as int,
    }
}

/// Whether the check takes the call to have succeeded.
pub open spec fn passes(check: CheckView, out: OutputView) -> bool {
    match check {
        CheckView::Status { lead } => out.success,
        CheckView::Word { failed, both_streams, first, second, unsure } => out.success && (holds(
            out.stdout,
            first,
        ) || holds(out.stdout, second)),
        CheckView::Diskpart { script } => out.success && !holds(out.stdout, "failed"@) && !holds(
            out.stdout,
            "error"@,
        ),
        CheckView::Robocopy { lead } => effective_exit_code(out) < ROBOCOPY_FAILURE,
        CheckView::RobocopyRange { lead } => out.exit_code matches Some(code) && 0 <= code
            < ROBOCOPY_FAILURE,
    }
}

/// The message of the error for a call that the check takes to have failed.
/// It holds what the tool printed, unchanged.
pub open spec fn failure_text(check: CheckView, out: OutputView) -> Seq<char> {
    match check {
        CheckView::Status { lead } => lead + out.stderr,
        CheckView::Word { failed, both_streams, first, second, unsure } => if !out.success {
            word_failure_text(failed, both_streams, out)
        } else {
            unsure + out.stdout
        },
        CheckView::Diskpart { script } => diskpart_failure_text(script, out),
        CheckView::Robocopy { lead } => lead + decimal(effective_exit_code(out) as nat) + ": "@
            + out.stderr,
        CheckView::RobocopyRange { lead } => lead + out.stderr,
    }
}

/// What came of a step: nothing to report if its check passes, and else a
/// driver error of the step's phase.
pub open spec fn judged(step: DriverStepView, out: OutputView) -> Result<(), ErrorView> {
    if passes(step.check, out) {
        Ok(())
    } else {
        Err(
            ErrorView {
                kind: ErrorKind::Driver,
                phase: step.phase,
                message: failure_text(step.check, out),
            },
        )
    }
}

fn diskpart_failure_message(script: &str, output: &CommandOutput) -> (s: String)
    ensures
        s@ == diskpart_failure_text(script@, output@),
{
    let reason: &str = if !output.stderr.as_str().is_empty() {
        output.stderr.as_str()
    } else if !output.stdout.as_str().is_empty() {
        output.stdout.as_str()
    } else {
        "Unknown diskpart error"
    };
    let mut s = String::from_str("Diskpart failed: ");
    s.append(trim(reason));
    s.append("\n\nScript used:\n");
    s.append(script);
    s.append("\n\nFull output:\n");
    s.append(output.stdout.as_str());
    s
}

/// Decides whether the check takes a call with this outcome to have
/// succeeded.
pub fn check_passes(check: &Check, output: &CommandOutput) -> (r: bool)
    ensures
        r == passes(check@, output@),
{
    match check {
        Check::Status { lead } => output.success,
        Check::Word { failed, both_streams, first, second, unsure } => output.success && (
        text_contains(output.stdout.as_str(), first.as_str()) || text_contains(
            output.stdout.as_str(),
            second.as_str(),
        )),
        Check::Diskpart { script } => output.success && !text_contains(
            output.stdout.as_str(),
            "failed",
        ) && !text_contains(output.stdout.as_str(), "error"),
        Check::Robocopy { lead } => {
            let code: i32 = match output.exit_code {
                Some(c) => c,
                None => NO_EXIT_CODE,
            };
            code < ROBOCOPY_FAILURE
        },
        Check::RobocopyRange { lead } => match output.exit_code {
            Some(code) => 0 <= code && code < ROBOCOPY_FAILURE,
            None => false,
        },
    }
}

fn failure_message(check: &Check, output: &CommandOutput) -> (s: String)
    requires
        !passes(check@, output@),
    ensures
        s@ == failure_text(check@, output@),
{
    match check {
        Check::Status { lead } => {
            let mut s = lead.clone();
            s.append(output.stderr.as_str());
            s
        },
        Check::Word { failed, both_streams, first, second, unsure } => {
            if !output.success {
                let mut s = failed.clone();
                if *both_streams {
                    s.append("\nStdout: ");
                    s.append(output.stdout.as_str());
                    s.append("\nStderr: ");
                }
                s.append(output.stderr.as_str());
                s
            } else {
                let mut s = unsure.clone();
                s.append(output.stdout.as_str());
                s
            }
        },
        Check::Diskpart { script } => diskpart_failure_message(script.as_str(), output),
        Check::Robocopy { lead } => {
            let code: i32 = match output.exit_code {
                Some(c) => c,
                None => NO_EXIT_CODE,
            };
            let mut s = lead.clone();
            s.append(decimal_string(code as u128).as_str());
            s.append(": ");
            s.append(output.stderr.as_str());
            s
        },
        Check::RobocopyRange { lead } => {
            let mut s = lead.clone();
            s.append(output.stderr.as_str());
            s
        },
    }
}

/// Reads what came of a step: `Ok` exactly if the step's check passes, and
/// else a driver error of the step's phase, whose message holds what the
/// tool printed.
pub fn judge(step: &DriverStep, output: &CommandOutput) -> (r: Result<(), PartitionError>)
    ensures
        match r {
            Ok(()) => judged(step@, output@) is Ok,
            Err(e) => judged(step@, output@) == Err::<(), ErrorView>(e@),
        },
{
    if check_passes(&step.check, output) {
        Ok(())
    } else {
        let message = failure_message(&step.check, output);
        Err(PartitionError::new(ErrorKind::Driver, step.phase.as_str(), message))
    }
}

/// Makes a step whose check is the tool's own report of success.
pub fn status_step(phase: &str, command: DriverCommand, lead: &str) -> (step: PlanStep)
    ensures
        step@ == (PlanStepView::Run {
            step: DriverStepView {
                phase: phase@,
                command: command@,
                check: CheckView::Status { lead: lead@ },
            },
        }),
{
    PlanStep::Run {
        step: DriverStep {
            phase: String::from_str(phase),
            command,
            check: Check::Status { lead: String::from_str(lead) },
        },
    }
}

/// Makes the item that ends a plan in an error.
pub fn stop(kind: ErrorKind, phase: &str, message: &str) -> (step: PlanStep)
    ensures
        step@ == (PlanStepView::Stop {
            error: ErrorView { kind, phase: phase@, message: message@ },
        }),
{
    PlanStep::Stop { error: PartitionError::new(kind, phase, String::from_str(message)) }
}

/// Makes a plan of one item.
pub fn plan_of(step: PlanStep) -> (plan: Vec<PlanStep>)
    ensures
        plan_views(plan@) == seq![step@],
{
    let mut plan: Vec<PlanStep> = Vec::new();
    plan.push(step);
    assert(plan_views(plan@) =~= seq![step@]);
    plan
}

/// Makes a plan without items.
pub fn empty_plan() -> (plan: Vec<PlanStep>)
    ensures
        plan_views(plan@) == Seq::<PlanStepView>::empty(),
{
    let plan: Vec<PlanStep> = Vec::new();
    assert(plan_views(plan@) =~= Seq::empty());
    plan
}

/// Makes a plan of two items.
pub fn plan_of_two(first: PlanStep, second: PlanStep) -> (plan: Vec<PlanStep>)
    ensures
        plan_views(plan@) == seq![first@, second@],
{
    let mut plan: Vec<PlanStep> = Vec::new();
    plan.push(first);
    plan.push(second);
    assert(plan_views(plan@) =~= seq![first@, second@]);
    plan
}

/// What a plan asks for next.
#[derive(Debug, Clone)]
pub enum PlanVerdict {
    /// Run the call of the item at `index`, once.
    Run { index: usize },
    /// Every call has succeeded: the operation is done.
    Finished,
    /// The operation has failed: run nothing more.
    Failed { error: PartitionError },
}

/// A verdict as a mathematical value.
pub enum VerdictView {
    Run { index: nat },
    Finished,
    Failed { error: ErrorView },
}

impl View for PlanVerdict {
    type V = VerdictView;

    open spec fn view(&self) -> VerdictView {
        match self {
            PlanVerdict::Run { index } => VerdictView::Run { index: *index as nat },
            PlanVerdict::Finished => VerdictView::Finished,
            PlanVerdict::Failed { error } => VerdictView::Failed { error: error@ },
        }
    }
}

/// What a plan asks for when it comes to the item at `index`: past the last
/// item it is finished, at a `Stop` it has failed, and else the item's call
/// is to be run.
pub open spec fn entered(plan: Seq<PlanStepView>, index: nat) -> VerdictView {
    if index >= plan.len() {
        VerdictView::Finished
    } else {
        match plan[index as int] {
            PlanStepView::Run { step } => VerdictView::Run { index },
            PlanStepView::Stop { error } => VerdictView::Failed { error },
        }
    }
}

/// What a plan asks for once the call of the item at `index` has left
/// `out`: it has failed if the check of the item fails, and else it comes
/// to the next item.
pub open spec fn resumed(plan: Seq<PlanStepView>, index: nat, out: OutputView) -> VerdictView {
    if index >= plan.len() {
        VerdictView::Finished
    } else {
        match plan[index as int] {
            PlanStepView::Run { step } => match judged(step, out) {
                Ok(_) => entered(plan, index + 1),
                Err(error) => VerdictView::Failed { error },
            },
            PlanStepView::Stop { error } => VerdictView::Failed { error },
        }
    }
}

/// A plan runs its calls once each and in order: after the call of one item
/// it asks for the call of the next item or for none.
pub proof fn lemma_plan_never_repeats(plan: Seq<PlanStepView>, index: nat, out: OutputView)
    ensures
        resumed(plan, index, out) matches VerdictView::Run { index: next } ==> next == index + 1
            && passes(plan[index as int]->step.check, out),
        index < plan.len() && plan[index as int] is Run && !passes(
            plan[index as int]->step.check,
            out,
        ) ==> resumed(plan, index, out) is Failed,
{
}

/// The error of a failed call holds what the tool printed: its error output
/// under a `Status` check or one for `robocopy`, and where it reported failure under
/// a `Word` check, and its output in every other case.
pub proof fn lemma_failure_holds_diagnostic(check: CheckView, out: OutputView)
    ensures
        match check {
            CheckView::Status { lead } => holds(failure_text(check, out), out.stderr),
            CheckView::Robocopy { lead } => holds(failure_text(check, out), out.stderr),
            CheckView::RobocopyRange { lead } => holds(failure_text(check, out), out.stderr),
            CheckView::Word { failed, both_streams, first, second, unsure } => if out.success {
                holds(failure_text(check, out), out.stdout)
            } else {
                holds(failure_text(check, out), out.stderr)
            },
            CheckView::Diskpart { script } => holds(failure_text(check, out), out.stdout)
                && holds(failure_text(check, out), script),
        },
{
    let text = failure_text(check, out);
    let n = text.len() as int;
    match check {
        CheckView::Status { lead } => {
            assert(text.subrange(n - out.stderr.len(), n) =~= out.stderr);
        },
        CheckView::Robocopy { lead } => {
            assert(text.subrange(n - out.stderr.len(), n) =~= out.stderr);
        },
        CheckView::RobocopyRange { lead } => {
            assert(text.subrange(n - out.stderr.len(), n) =~= out.stderr);
        },
        CheckView::Word { failed, both_streams, first, second, unsure } => {
            if out.success {
                assert(text.subrange(n - out.stdout.len(), n) =~= out.stdout);
            } else {
                assert(text.subrange(n - out.stderr.len(), n) =~= out.stderr);
            }
        },
        CheckView::Diskpart { script } => {
            assert(text.subrange(n - out.stdout.len(), n) =~= out.stdout);
            let lead = "Diskpart failed: "@ + trimmed(diskpart_reason(out))
                + "\n\nScript used:\n"@;
            assert(text.subrange(lead.len() as int, (lead.len() + script.len()) as int) =~= script);
        },
    }
}

fn copy_error(error: &PartitionError) -> (e: PartitionError)
    ensures
        e@ == error@,
{
    PartitionError { kind: error.kind, phase: error.phase.clone(), message: error.message.clone() }
}

/// Tells what a plan asks for when it comes to the item at `index`.
pub fn plan_enter(plan: &Vec<PlanStep>, index: usize) -> (verdict: PlanVerdict)
    ensures
        verdict@ == entered(plan_views(plan@), index as nat),
{
    if index >= plan.len() {
        PlanVerdict::Finished
    } else {
        match &plan[index] {
            PlanStep::Run { step } => PlanVerdict::Run { index },
            PlanStep::Stop { error } => PlanVerdict::Failed { error: copy_error(error) },
        }
    }
}

/// Tells what a plan asks for first.
pub fn plan_begin(plan: &Vec<PlanStep>) -> (verdict: PlanVerdict)
    ensures
        verdict@ == entered(plan_views(plan@), 0),
{
    plan_enter(plan, 0)
}

/// Tells what a plan asks for once the call of the item at `index` has left
/// `output`.
pub fn plan_resume(plan: &Vec<PlanStep>, index: usize, output: &CommandOutput) -> (verdict:
    PlanVerdict)
    ensures
        verdict@ == resumed(plan_views(plan@), index as nat, output@),
{
    if index >= plan.len() {
        PlanVerdict::Finished
    } else {
        match &plan[index] {
            PlanStep::Run { step } => match judge(step, output) {
                Ok(()) => {
                    if index + 1 >= plan.len() {
                        PlanVerdict::Finished
                    } else {
                        plan_enter(plan, index + 1)
                    }
                },
                Err(error) => PlanVerdict::Failed { error },
            },
            PlanStep::Stop { error } => PlanVerdict::Failed { error: copy_error(error) },
        }
    }
}

} // verus!
