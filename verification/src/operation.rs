//! The four operations. Each is decided in two moves: the first either
//! finishes at once or names the native process to start; the second turns
//! what that process left behind into the result. Starting the process is
//! the caller's part.

use vstd::prelude::*;
use vstd::string::*;
use vstd::utf8::{decode_utf8, valid_utf8};
use crate::command::{
    detect_invocation, kill_invocation, open_invocation, run_invocation, synthesize_detect,
    synthesize_kill, synthesize_open, synthesize_run, Invocation, InvocationView,
};
use crate::matcher::{confirmed_names, lemma_confirmed_names_keep_order, match_names};
use crate::outcome::{
    decode_lossy, failed_query_view, failed_view, found_view, lossy_text, normalized,
    unsupported_message, ExecutionResult, ExecutionResultView, ProcessQueryResult,
    ProcessQueryResultView, SpawnOutcome, SpawnOutcomeView,
};
use crate::platform::PlatformKind;

verus! {

/// The first move of an operation.
#[derive(Clone, Debug, PartialEq, Eq)]
pub enum Step<R> {
    /// Start this process, then complete the operation with its outcome.
    Spawn(Invocation),
    /// The operation is over; no process is to be started.
    Finished(R),
}

/// What a [`Step`] holds, as plain values.
pub enum StepView<V> {
    Spawn(InvocationView),
    Finished(V),
}

impl<R: View> View for Step<R> {
    type V = StepView<R::V>;

    open spec fn view(&self) -> StepView<R::V> {
        match self {
            Step::Spawn(invocation) => StepView::Spawn(invocation@),
            Step::Finished(result) => StepView::Finished(result@),
        }
    }
}

/// The first move of running, terminating or launching: start the
/// synthesized invocation, or finish as unsupported where there is none.
pub open spec fn execution_step(invocation: Option<InvocationView>) -> StepView<
    ExecutionResultView,
> {
    match invocation {
        Some(inv) => StepView::Spawn(inv),
        None => StepView::Finished(failed_view(unsupported_message())),
    }
}

/// The first move of a detection.
pub open spec fn detection_step(invocation: Option<InvocationView>) -> StepView<
    ProcessQueryResultView,
> {
    match invocation {
        Some(inv) => StepView::Spawn(inv),
        None => StepView::Finished(failed_query_view(unsupported_message())),
    }
}

/// The result of a detection of `names` on `platform` whose listing process
/// ended with `outcome`. Whether the listing process exited with zero plays
/// no part: a listing with no match is a success with no names.
pub open spec fn detection_result(
    platform: PlatformKind,
    names: Seq<Seq<char>>,
    outcome: SpawnOutcomeView,
) -> ProcessQueryResultView {
    if !platform.supported() {
        failed_query_view(unsupported_message())
    } else {
        match outcome {
            SpawnOutcomeView::Completed { exit_code, stdout, stderr } => found_view(
                confirmed_names(platform, lossy_text(stdout), names),
            ),
            SpawnOutcomeView::Failed { reason } => failed_query_view(reason),
        }
    }
}

/// Starts the synthesized invocation, or finishes as unsupported.
fn execution_first(invocation: Option<Invocation>) -> (step: Step<ExecutionResult>)
    ensures
        step@ == execution_step(invocation.deep_view()),
{
    match invocation {
        Some(inv) => Step::Spawn(inv),
        None => Step::Finished(ExecutionResult::unsupported()),
    }
}

/// First move of running `command` through the platform's shell.
pub fn run(platform: PlatformKind, command: &str) -> (step: Step<ExecutionResult>)
    ensures
        step@ == execution_step(run_invocation(platform, command@)),
{
    execution_first(synthesize_run(platform, command))
}

/// First move of terminating the processes called `names`.
pub fn kill(platform: PlatformKind, names: &Vec<String>) -> (step: Step<ExecutionResult>)
    ensures
        step@ == execution_step(kill_invocation(platform, names.deep_view())),
{
    execution_first(synthesize_kill(platform, names))
}

/// First move of launching the application called `app`.
pub fn launch(platform: PlatformKind, app: &str) -> (step: Step<ExecutionResult>)
    ensures
        step@ == execution_step(open_invocation(platform, app@)),
{
    execution_first(synthesize_open(platform, app))
}

/// First move of detecting which of `names` are running.
pub fn detect(platform: PlatformKind, names: &Vec<String>) -> (step: Step<ProcessQueryResult>)
    ensures
        step@ == detection_step(detect_invocation(platform, names.deep_view())),
{
    match synthesize_detect(platform, names) {
        Some(inv) => Step::Spawn(inv),
        None => Step::Finished(ProcessQueryResult::unsupported()),
    }
}

/// Second move of running, terminating or launching: normalizes what the
/// process left behind. The captured bytes are decoded lossily, so no byte
/// sequence makes this fail.
pub fn complete_execution(outcome: SpawnOutcome) -> (result: ExecutionResult)
    ensures
        result@ == normalized(outcome@),
        result@.well_formed(),
        outcome@ is Completed && valid_utf8(outcome@->stdout) ==> result.stdout@ == decode_utf8(
            outcome@->stdout,
        ),
        outcome@ is Completed && valid_utf8(outcome@->stderr) ==> result.stderr@ == decode_utf8(
            outcome@->stderr,
        ),
{
    match outcome {
        SpawnOutcome::Completed { exit_code, stdout, stderr } => {
            let out = decode_lossy(&stdout);
            let err = decode_lossy(&stderr);
            ExecutionResult::completed(exit_code, out, err)
        },
        SpawnOutcome::Failed { reason } => ExecutionResult::failed(reason),
    }
}

/// Second move of a detection: the listing is decoded and matched against
/// `names` by the rule of `platform`.
pub fn complete_detection(
    platform: PlatformKind,
    names: &Vec<String>,
    outcome: SpawnOutcome,
) -> (result: ProcessQueryResult)
    ensures
        result@ == detection_result(platform, names.deep_view(), outcome@),
        result@.well_formed(),
        platform.supported() && outcome@ is Completed && valid_utf8(outcome@->stdout)
            ==> result@.matched_names == confirmed_names(
            platform,
            decode_utf8(outcome@->stdout),
            names.deep_view(),
        ),
{
    if !platform.is_supported() {
        return ProcessQueryResult::unsupported();
    }
    match outcome {
        SpawnOutcome::Completed { exit_code, stdout, stderr } => {
            let listing = decode_lossy(&stdout);
            ProcessQueryResult::found(match_names(platform, listing.as_str(), names))
        },
        SpawnOutcome::Failed { reason } => ProcessQueryResult::failed(reason),
    }
}

/// On a supported platform every operation starts a native process, and
/// running hands the command to the shell exactly as it was given.
pub proof fn lemma_supported_always_spawns(
    platform: PlatformKind,
    text: Seq<char>,
    names: Seq<Seq<char>>,
)
    requires
        platform.supported(),
    ensures
        execution_step(run_invocation(platform, text)) is Spawn,
        execution_step(kill_invocation(platform, names)) is Spawn,
        execution_step(open_invocation(platform, text)) is Spawn,
        detection_step(detect_invocation(platform, names)) is Spawn,
        execution_step(run_invocation(platform, text))->Spawn_0.args.len() == 2,
        execution_step(run_invocation(platform, text))->Spawn_0.args[1] == text,
{
}

/// On an unsupported platform no operation starts a process: each is over
/// at once, without success, with a message that is not empty, and a
/// detection names no process, whatever a process might have left behind.
pub proof fn lemma_unsupported_starts_nothing(
    text: Seq<char>,
    names: Seq<Seq<char>>,
    outcome: SpawnOutcomeView,
)
    ensures
        unsupported_message().len() > 0,
        execution_step(run_invocation(PlatformKind::Unsupported, text)) == StepView::Finished(
            failed_view(unsupported_message()),
        ),
        execution_step(kill_invocation(PlatformKind::Unsupported, names)) == StepView::Finished(
            failed_view(unsupported_message()),
        ),
        execution_step(open_invocation(PlatformKind::Unsupported, text)) == StepView::Finished(
            failed_view(unsupported_message()),
        ),
        detection_step(detect_invocation(PlatformKind::Unsupported, names)) == StepView::Finished(
            failed_query_view(unsupported_message()),
        ),
        detection_result(PlatformKind::Unsupported, names, outcome) == failed_query_view(
            unsupported_message(),
        ),
        !failed_view(unsupported_message()).success,
        failed_view(unsupported_message()).error == Some(unsupported_message()),
        !failed_query_view(unsupported_message()).success,
        failed_query_view(unsupported_message()).error == Some(unsupported_message()),
        failed_query_view(unsupported_message()).matched_names.len() == 0,
{
    reveal_strlit("Unsupported operating system");
}

/// A process that exits with zero gives a successful result with exit code
/// zero and no error.
pub proof fn lemma_zero_exit_succeeds(stdout: Seq<u8>, stderr: Seq<u8>)
    ensures
        ({
            let result = normalized(
                SpawnOutcomeView::Completed { exit_code: Some(0i32), stdout, stderr },
            );
            &&& result.success
            &&& result.exit_code == 0
            &&& result.error is None
            &&& result.stdout == lossy_text(stdout)
            &&& result.stderr == lossy_text(stderr)
        }),
{
}

/// A process that exits with another code gives a result without success
/// that carries this code and the captured text, and no error: that it ran
/// and failed is told apart from a failure to start it. So terminating
/// processes that are already gone, once or again, is no error.
pub proof fn lemma_nonzero_exit_fails_with_its_code(code: i32, stdout: Seq<u8>, stderr: Seq<u8>)
    requires
        code != 0,
    ensures
        ({
            let result = normalized(
                SpawnOutcomeView::Completed { exit_code: Some(code), stdout, stderr },
            );
            &&& !result.success
            &&& result.exit_code == code
            &&& result.error is None
            &&& result.stdout == lossy_text(stdout)
            &&& result.stderr == lossy_text(stderr)
            &&& forall|reason: Seq<char>| result != #[trigger] failed_view(reason)
        }),
{
}

/// A process that could not be started gives a result without success, with
/// the reason as its error, no captured text and the exit code -1.
pub proof fn lemma_spawn_failure_carries_error_only(reason: Seq<char>)
    ensures
        ({
            let result = normalized(SpawnOutcomeView::Failed { reason });
            &&& !result.success
            &&& result.exit_code == -1
            &&& result.error == Some(reason)
            &&& result.stdout.len() == 0
            &&& result.stderr.len() == 0
        }),
{
}

/// A detection whose listing process ran succeeds whatever that process
/// exited with, and reports no more names than were requested; one whose
/// listing process could not be started fails with the reason and no names.
pub proof fn lemma_detection_outcomes(
    platform: PlatformKind,
    names: Seq<Seq<char>>,
    outcome: SpawnOutcomeView,
)
    requires
        platform.supported(),
    ensures
        detection_result(platform, names, outcome).well_formed(),
        outcome is Completed ==> detection_result(platform, names, outcome).success,
        outcome is Completed ==> detection_result(platform, names, outcome).matched_names
            == confirmed_names(platform, lossy_text(outcome->stdout), names),
        outcome is Failed ==> detection_result(platform, names, outcome) == failed_query_view(
            outcome->reason,
        ),
        detection_result(platform, names, outcome).matched_names.len() <= names.len(),
{
    if outcome is Completed {
        lemma_confirmed_names_keep_order(platform, lossy_text(outcome->stdout), names);
    }
}

/// Every result of running, terminating or launching is well formed.
pub proof fn lemma_results_well_formed(outcome: SpawnOutcomeView)
    ensures
        normalized(outcome).well_formed(),
        failed_view(unsupported_message()).well_formed(),
        failed_query_view(unsupported_message()).well_formed(),
{
}

} // verus!
