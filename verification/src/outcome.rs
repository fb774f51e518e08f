//! What a native process left behind, and the uniform results that the
//! operations hand to their caller.

use vstd::prelude::*;
use vstd::string::*;
use vstd::utf8::{decode_utf8, valid_utf8};

verus! {

/// The exit code reported where the native process gave none, or never ran.
pub const NO_EXIT_CODE: i32 = -1;

/// How an attempt to run a native process ended.
#[derive(Clone, Debug, PartialEq, Eq)]
pub enum SpawnOutcome {
    /// The process ran to completion. `exit_code` is absent where the
    /// process ended without one (terminated by a signal).
    Completed { exit_code: Option<i32>, stdout: Vec<u8>, stderr: Vec<u8> },
    /// The process could not be started at all.
    Failed { reason: String },
}

/// What a [`SpawnOutcome`] holds, as plain values.
pub enum SpawnOutcomeView {
    Completed { exit_code: Option<i32>, stdout: Seq<u8>, stderr: Seq<u8> },
    Failed { reason: Seq<char> },
}

impl View for SpawnOutcome {
    type V = SpawnOutcomeView;

    open spec fn view(&self) -> SpawnOutcomeView {
        match self {
            SpawnOutcome::Completed { exit_code, stdout, stderr } => SpawnOutcomeView::Completed {
                exit_code: *exit_code,
                stdout: stdout@,
                stderr: stderr@,
            },
            SpawnOutcome::Failed { reason } => SpawnOutcomeView::Failed { reason: reason@ },
        }
    }
}

/// The result of running, terminating or launching.
#[derive(Clone, Debug, PartialEq, Eq)]
pub struct ExecutionResult {
    pub success: bool,
    pub stdout: String,
    pub stderr: String,
    pub exit_code: i32,
    pub error: Option<String>,
}

/// What an [`ExecutionResult`] holds, as plain values.
pub struct ExecutionResultView {
    pub success: bool,
    pub stdout: Seq<char>,
    pub stderr: Seq<char>,
    pub exit_code: i32,
    pub error: Option<Seq<char>>,
}

impl View for ExecutionResult {
    type V = ExecutionResultView;

    open spec fn view(&self) -> ExecutionResultView {
        ExecutionResultView {
            success: self.success,
            stdout: self.stdout@,
            stderr: self.stderr@,
            exit_code: self.exit_code,
            error: self.error.deep_view(),
        }
    }
}

/// The result of a detection.
#[derive(Clone, Debug, PartialEq, Eq)]
pub struct ProcessQueryResult {
    pub success: bool,
    pub matched_names: Vec<String>,
    pub error: Option<String>,
}

/// What a [`ProcessQueryResult`] holds, as plain values.
pub struct ProcessQueryResultView {
    pub success: bool,
    pub matched_names: Seq<Seq<char>>,
    pub error: Option<Seq<char>>,
}

impl View for ProcessQueryResult {
    type V = ProcessQueryResultView;

    open spec fn view(&self) -> ProcessQueryResultView {
        ProcessQueryResultView {
            success: self.success,
            matched_names: self.matched_names.deep_view(),
            error: self.error.deep_view(),
        }
    }
}

/// The message of every result on an unsupported platform.
pub open spec fn unsupported_message() -> Seq<char> {
    "Unsupported operating system"@
}

/// The text that `String::from_utf8_lossy` makes of `bytes`.
pub uninterp spec fn lossy_text(bytes: Seq<u8>) -> Seq<char>;

/// Calls `String::from_utf8_lossy`, which never fails: it replaces each
/// invalid byte sequence by U+FFFD and leaves valid UTF-8 as the text that
/// the bytes encode. The contract gives the result its name and states the
/// second fact.
#[verifier::external_body]
pub(crate) fn decode_lossy(bytes: &Vec<u8>) -> (text: String)
    ensures
        text@ == lossy_text(bytes@),
        valid_utf8(bytes@) ==> text@ == decode_utf8(bytes@),
{
    String::from_utf8_lossy(bytes).into_owned()
}

/// The result for a process that ran and left `stdout` and `stderr` as text.
pub open spec fn completed_view(
    exit_code: Option<i32>,
    stdout: Seq<char>,
    stderr: Seq<char>,
) -> ExecutionResultView {
    ExecutionResultView {
        success: exit_code == Some(0i32),
        stdout,
        stderr,
        exit_code: match exit_code {
            Some(code) => code,
            None => NO_EXIT_CODE,
        },
        error: None,
    }
}

/// The result that carries `message` as its error and nothing else.
pub open spec fn failed_view(message: Seq<char>) -> ExecutionResultView {
    ExecutionResultView {
        success: false,
        stdout: Seq::empty(),
        stderr: Seq::empty(),
        exit_code: NO_EXIT_CODE,
        error: Some(message),
    }
}

/// The result that an outcome normalizes to.
pub open spec fn normalized(outcome: SpawnOutcomeView) -> ExecutionResultView {
    match outcome {
        SpawnOutcomeView::Completed { exit_code, stdout, stderr } => completed_view(
            exit_code,
            lossy_text(stdout),
            lossy_text(stderr),
        ),
        SpawnOutcomeView::Failed { reason } => failed_view(reason),
    }
}

impl ExecutionResultView {
    /// What holds of every result that the operations produce: success
    /// means exit code zero without error, and an error leaves no captured
    /// text and no exit code.
    pub open spec fn well_formed(self) -> bool {
        &&& self.success <==> (self.exit_code == 0 && self.error is None)
        &&& self.error is Some ==> self.stdout.len() == 0 && self.stderr.len() == 0
            && self.exit_code == NO_EXIT_CODE
    }
}

impl ProcessQueryResultView {
    /// What holds of every detection result: it succeeded or carries an
    /// error, never both, and a failed detection names no process.
    pub open spec fn well_formed(self) -> bool {
        &&& self.success <==> self.error is None
        &&& !self.success ==> self.matched_names.len() == 0
    }
}

/// The detection result that carries `message` as its error and no names.
pub open spec fn failed_query_view(message: Seq<char>) -> ProcessQueryResultView {
    ProcessQueryResultView { success: false, matched_names: Seq::empty(), error: Some(message) }
}

/// The detection result that reports `names` as running.
pub open spec fn found_view(names: Seq<Seq<char>>) -> ProcessQueryResultView {
    ProcessQueryResultView { success: true, matched_names: names, error: None }
}

impl ExecutionResult {
    /// The result for a process that ran: success exactly on exit code zero,
    /// the captured text as it is, and no error.
    pub fn completed(exit_code: Option<i32>, stdout: String, stderr: String) -> (r: Self)
        ensures
            r@ == completed_view(exit_code, stdout@, stderr@),
            r@.well_formed(),
    {
        let success = match exit_code {
            Some(code) => code == 0,
            None => false,
        };
        let code = match exit_code {
            Some(code) => code,
            None => NO_EXIT_CODE,
        };
        ExecutionResult { success, stdout, stderr, exit_code: code, error: None }
    }

    /// The result for an operation that started no process, or failed to.
    pub fn failed(message: String) -> (r: Self)
        ensures
            r@ == failed_view(message@),
            r@.well_formed(),
    {
        ExecutionResult {
            success: false,
            stdout: String::new(),
            stderr: String::new(),
            exit_code: NO_EXIT_CODE,
            error: Some(message),
        }
    }

    /// The result of every operation on an unsupported platform.
    pub fn unsupported() -> (r: Self)
        ensures
            r@ == failed_view(unsupported_message()),
            r@.well_formed(),
    {
        ExecutionResult::failed("Unsupported operating system".to_owned())
    }
}

impl ProcessQueryResult {
    /// The result of a detection that ran: `names` are those found running.
    pub fn found(names: Vec<String>) -> (r: Self)
        ensures
            r@ == found_view(names.deep_view()),
            r@.well_formed(),
    {
        ProcessQueryResult { success: true, matched_names: names, error: None }
    }

    /// The result of a detection that started no process, or failed to.
    pub fn failed(message: String) -> (r: Self)
        ensures
            r@ == failed_query_view(message@),
            r@.well_formed(),
    {
        let r = ProcessQueryResult {
            success: false,
            matched_names: Vec::new(),
            error: Some(message),
        };
        assert(r.matched_names.deep_view() =~= Seq::<Seq<char>>::empty());
        r
    }

    /// The result of a detection on an unsupported platform.
    pub fn unsupported() -> (r: Self)
        ensures
            r@ == failed_query_view(unsupported_message()),
            r@.well_formed(),
    {
        ProcessQueryResult::failed("Unsupported operating system".to_owned())
    }
}

} // verus!
