//! Outcome settlement: normalize what came back from the spawned child
//! process into a `RunResult`, or build the descriptive spawn-failure error
//! when the operating system could not start the program. Captured output is
//! decoded lossily, so a child that emits non-text bytes never fails the run.

use vstd::prelude::*;
use crate::plan::LaunchPlan;
use crate::plan::PlanView;
use crate::text::contains_seq;
use crate::text::lemma_concat_contains_middle;

verus! {

/// The structured outcome of one successful process execution: captured
/// output streams as text, the exit code, and the wall-clock duration of the
/// process in whole milliseconds. Owned by the caller; never reused.
pub struct RunResult {
    pub stdout: String,
    pub stderr: String,
    pub exit_code: i32,
    pub duration_ms: u64,
}

/// What the spawn attempt came back with: the child ran to completion (its
/// raw output streams and its exit code, absent when the operating system
/// reported none), or the program could not be started at all.
pub enum SpawnOutcome {
    Completed { stdout: Vec<u8>, stderr: Vec<u8>, exit_code: Option<i32> },
    FailedToStart { os_error: String },
}

/// The text that a byte sequence decodes to under lossy UTF-8 decoding. The
/// decoding is a function of the bytes alone.
pub uninterp spec fn lossy_utf8(bytes: Seq<u8>) -> Seq<char>;

/// Relies on String::from_utf8_lossy: decodes any byte sequence, replacing
/// invalid sequences with the replacement character instead of failing; the
/// result depends on the bytes alone, and an empty input decodes to the empty
/// string.
#[verifier::external_body]
fn decode_lossy(bytes: &Vec<u8>) -> (r: String)
    ensures
        r@ == lossy_utf8(bytes@),
        bytes@.len() == 0 ==> r@.len() == 0,
{
    String::from_utf8_lossy(bytes).to_string()
}

/// The exit code reported to the caller: the code the operating system gave,
/// or -1 when it gave none (a signal-terminated child).
pub open spec fn normalized_exit(status: Option<i32>) -> i32 {
    match status {
        Some(code) => code,
        None => -1i32,
    }
}

/// The error text when the operating system could not start the planned
/// program: it names the attempted program, carries the underlying error
/// text, and tells the user what to do about it.
pub open spec fn spawn_failure_msg(plan: PlanView, os_error: Seq<char>) -> Seq<char> {
    match plan {
        PlanView::Binary { name, .. } => "Failed to run '"@ + name + "': "@ + os_error
            + "\nRun build-binaries.sh first."@,
        PlanView::Interpreter { program, .. } => "Failed to launch '"@ + program + "': "@
            + os_error + "\nMake sure '"@ + program + "' is installed and on your PATH."@,
    }
}

/// The spawn-failure error, as displayable text.
pub fn spawn_failure_message(plan: &LaunchPlan, os_error: &str) -> (r: String)
    ensures
        r@ == spawn_failure_msg(plan@, os_error@),
{
    match plan {
        LaunchPlan::Binary { name, .. } => {
            let mut s = String::from_str("Failed to run '");
            s.append(name.as_str());
            s.append("': ");
            s.append(os_error);
            s.append("\nRun build-binaries.sh first.");
            s
        },
        LaunchPlan::Interpreter { program, .. } => {
            let mut s = String::from_str("Failed to launch '");
            s.append(program.as_str());
            s.append("': ");
            s.append(os_error);
            s.append("\nMake sure '");
            s.append(program.as_str());
            s.append("' is installed and on your PATH.");
            s
        },
    }
}

/// Settle one spawn attempt. A completed child always yields a result — its
/// output decoded lossily, its exit code normalized, the measured duration
/// passed through untouched — whatever bytes it emitted and however it
/// exited; only a child that could not be started yields an error, and that
/// error is the spawn-failure text for the attempted plan.
pub fn settle_run(plan: &LaunchPlan, outcome: SpawnOutcome, duration_ms: u64) -> (r: Result<
    RunResult,
    String,
>)
    ensures
        match outcome {
            SpawnOutcome::Completed { stdout, stderr, exit_code } => (r matches Ok(res)
                && res.stdout@ == lossy_utf8(stdout@) && res.stderr@ == lossy_utf8(stderr@)
                && res.exit_code == normalized_exit(exit_code) && res.duration_ms == duration_ms),
            SpawnOutcome::FailedToStart { os_error } => (r matches Err(e) && e@
                == spawn_failure_msg(plan@, os_error@)),
        },
{
    match outcome {
        SpawnOutcome::Completed { stdout, stderr, exit_code } => {
            let code: i32 = match exit_code {
                Some(code) => code,
                None => -1,
            };
            Ok(
                RunResult {
                    stdout: decode_lossy(&stdout),
                    stderr: decode_lossy(&stderr),
                    exit_code: code,
                    duration_ms,
                },
            )
        },
        SpawnOutcome::FailedToStart { os_error } => Err(
            spawn_failure_message(plan, os_error.as_str()),
        ),
    }
}

/// A spawn failure for a binary-classified language names the binary that was
/// attempted.
pub proof fn lemma_binary_failure_mentions_name(name: Seq<char>, path: Seq<char>, err: Seq<char>)
    ensures
        contains_seq(spawn_failure_msg(PlanView::Binary { name, path }, err), name),
{
    let suffix = "': "@ + err + "\nRun build-binaries.sh first."@;
    let msg = spawn_failure_msg(PlanView::Binary { name, path }, err);
    assert(msg =~= "Failed to run '"@ + name + suffix);
    lemma_concat_contains_middle("Failed to run '"@, name, suffix);
}

/// A spawn failure for an interpreter-classified language names the
/// interpreter program that was attempted.
pub proof fn lemma_interpreter_failure_mentions_program(
    program: Seq<char>,
    script_path: Seq<char>,
    err: Seq<char>,
)
    ensures
        contains_seq(
            spawn_failure_msg(PlanView::Interpreter { program, script_path }, err),
            program,
        ),
{
    let suffix = "': "@ + err + "\nMake sure '"@ + program
        + "' is installed and on your PATH."@;
    let msg = spawn_failure_msg(PlanView::Interpreter { program, script_path }, err);
    assert(msg =~= "Failed to launch '"@ + program + suffix);
    lemma_concat_contains_middle("Failed to launch '"@, program, suffix);
}

} // verus!
