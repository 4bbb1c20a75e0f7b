//! What the child process did, and the result record built from it.
use vstd::prelude::*;

use crate::request::ExecError;
use crate::text::{trim_text, trimmed};
use vstd::utf8::{decode_utf8, valid_utf8};

verus! {

/// The three ways the race between the child and the deadline can end.
pub enum ProcessOutcome {
    /// The child exited; `exit_code` is `None` when it was ended by a signal.
    Completed { exit_code: Option<i32>, stdout: Vec<u8>, stderr: Vec<u8> },
    /// Waiting for the child failed.
    Failed { cause: String },
    /// The deadline passed first; the child was terminated.
    TimedOut,
}

/// The result of a script that ran to completion.
#[allow(non_snake_case)]
pub struct NodeExecutionOutput {
    /// Captured standard output, trimmed.
    pub stdout: String,
    /// Captured standard error, trimmed.
    pub stderr: String,
    /// Exit code, or -1 when the process reported none.
    pub exitCode: i32,
    /// Milliseconds from accepting the request until the outcome was known.
    pub executionTime: u64,
    /// Path of the scratch file used (already removed when the result is handed out).
    pub tempFilePath: Option<String>,
}

/// The text that `String::from_utf8_lossy` makes of the bytes `b`.
pub uninterp spec fn utf8_lossy(b: Seq<u8>) -> Seq<char>;

/// Relies on `String::from_utf8_lossy`: decodes the bytes, each invalid sequence
/// replaced by U+FFFD; the result depends on the bytes alone, and valid UTF-8 is
/// decoded as it stands.
#[verifier::external_body]
fn lossy_text(b: &[u8]) -> (r: String)
    ensures
        r@ == utf8_lossy(b@),
        valid_utf8(b@) ==> r@ == decode_utf8(b@),
{
    String::from_utf8_lossy(b).into_owned()
}

/// Captured bytes as the trimmed text that a result reports.
pub open spec fn captured_text(b: Seq<u8>) -> Seq<char> {
    trimmed(utf8_lossy(b))
}

/// The exit code reported for an optional process exit code.
pub open spec fn reported_exit_code(code: Option<i32>) -> i32 {
    match code {
        Some(c) => c,
        None => -1i32,
    }
}

/// `r` is the result of `outcome` for a request with the given elapsed time,
/// scratch file path and timeout.
pub open spec fn is_result_of(
    outcome: ProcessOutcome,
    elapsed_ms: u64,
    path: Seq<char>,
    timeout_ms: u64,
    r: Result<NodeExecutionOutput, ExecError>,
) -> bool {
    match outcome {
        ProcessOutcome::Completed { exit_code, stdout, stderr } => match r {
            Ok(o) => {
                &&& o.stdout@ == captured_text(stdout@)
                &&& o.stderr@ == captured_text(stderr@)
                &&& o.exitCode == reported_exit_code(exit_code)
                &&& o.executionTime == elapsed_ms
                &&& o.tempFilePath is Some
                &&& o.tempFilePath->0@ == path
            },
            Err(_) => false,
        },
        ProcessOutcome::Failed { cause } => r == Err::<NodeExecutionOutput, ExecError>(
            ExecError::ProcessFailure { cause },
        ),
        ProcessOutcome::TimedOut => r == Err::<NodeExecutionOutput, ExecError>(
            ExecError::Timeout { timeout_ms },
        ),
    }
}

/// Turns the outcome of a run into the request's result. A nonzero exit code is a
/// result, not an error; only a failed wait and the deadline are errors.
pub fn build_result(outcome: ProcessOutcome, elapsed_ms: u64, path: String, timeout_ms: u64) -> (r:
    Result<NodeExecutionOutput, ExecError>)
    ensures
        is_result_of(outcome, elapsed_ms, path@, timeout_ms, r),
        outcome matches ProcessOutcome::Completed { stdout, stderr, .. } ==> r matches Ok(o) && (
        valid_utf8(stdout@) ==> o.stdout@ == trimmed(decode_utf8(stdout@))) && (valid_utf8(
            stderr@,
        ) ==> o.stderr@ == trimmed(decode_utf8(stderr@))),
{
    match outcome {
        ProcessOutcome::Completed { exit_code, stdout, stderr } => {
            let out = lossy_text(stdout.as_slice());
            let err = lossy_text(stderr.as_slice());
            let code = match exit_code {
                Some(c) => c,
                None => -1,
            };
            Ok(
                NodeExecutionOutput {
                    stdout: trim_text(out.as_str()),
                    stderr: trim_text(err.as_str()),
                    exitCode: code,
                    executionTime: elapsed_ms,
                    tempFilePath: Some(path),
                },
            )
        },
        ProcessOutcome::Failed { cause } => Err(ExecError::ProcessFailure { cause }),
        ProcessOutcome::TimedOut => Err(ExecError::Timeout { timeout_ms }),
    }
}

} // verus!
