//! Execution requests: their fields, their validation and the error taxonomy.
use vstd::prelude::*;
use vstd::utf8::encode_utf8;

use crate::text::{is_blank, text_is_blank};

verus! {

/// Largest accepted script, in bytes of UTF-8.
pub const MAX_CODE_LENGTH: usize = 1048576;

/// Timeout used when a request names none, in milliseconds.
pub const DEFAULT_TIMEOUT_MS: u64 = 30000;

/// Smallest accepted timeout, in milliseconds.
pub const MIN_TIMEOUT_MS: u64 = 1000;

/// Largest accepted timeout, in milliseconds.
pub const MAX_TIMEOUT_MS: u64 = 300000;

/// Why an execution request did not produce a result.
#[derive(Debug, PartialEq, Eq)]
pub enum ExecError {
    /// The script is empty or whitespace only.
    EmptyCode,
    /// The script is longer than `max_bytes` bytes.
    CodeTooLarge { max_bytes: usize },
    /// The timeout lies outside the accepted range.
    InvalidTimeout { timeout_ms: u64 },
    /// The scratch file could not be written.
    ArtifactWrite { cause: String },
    /// The interpreter could not be started.
    Launch { cause: String },
    /// Waiting for the child process failed after it was started.
    ProcessFailure { cause: String },
    /// The child did not finish within the deadline.
    Timeout { timeout_ms: u64 },
}

impl ExecError {
    /// Validation errors are reported before any file is written or process started.
    pub open spec fn spec_is_validation(&self) -> bool {
        ||| self is EmptyCode
        ||| self is CodeTooLarge
        ||| self is InvalidTimeout
    }

    pub fn is_validation(&self) -> (r: bool)
        ensures
            r == self.spec_is_validation(),
    {
        match self {
            ExecError::EmptyCode => true,
            ExecError::CodeTooLarge { .. } => true,
            ExecError::InvalidTimeout { .. } => true,
            _ => false,
        }
    }
}

/// A request to run a script with the interpreter.
pub struct NodeExecutionInput {
    /// Source text of the script.
    pub code: String,
    /// Deadline in milliseconds; `None` means the default.
    pub timeout: Option<u64>,
    /// Working directory of the child; empty means the parent's own.
    pub working_directory: String,
    /// Variables set on the child, over the inherited environment; keys are unique.
    pub environment: Vec<(String, String)>,
    /// Extra arguments passed after the script path.
    pub args: Vec<String>,
}

/// No two entries of `e` share a key.
pub open spec fn keys_unique(e: Seq<(Seq<char>, Seq<char>)>) -> bool {
    forall|i: int, j: int| 0 <= i < j < e.len() ==> #[trigger] e[i].0 != #[trigger] e[j].0
}

/// Some entry of `e` has key `k`.
pub open spec fn has_key(e: Seq<(Seq<char>, Seq<char>)>, k: Seq<char>) -> bool {
    exists|i: int| 0 <= i < e.len() && #[trigger] e[i].0 == k
}

/// `e` with the entry for `k` set to `v`: replaced in place when present, else added last.
pub open spec fn env_set(e: Seq<(Seq<char>, Seq<char>)>, k: Seq<char>, v: Seq<char>) -> Seq<
    (Seq<char>, Seq<char>),
> {
    if has_key(e, k) {
        e.map_values(|p: (Seq<char>, Seq<char>)| if p.0 == k { (k, v) } else { p })
    } else {
        e.push((k, v))
    }
}

/// The timeout that a request asks for, the default filled in.
pub open spec fn effective_timeout(timeout: Option<u64>) -> u64 {
    match timeout {
        Some(t) => t,
        None => DEFAULT_TIMEOUT_MS,
    }
}

/// Outcome of validating a script and a timeout: the timeout to apply, or the first
/// rule broken, checked in the order blank script, size, timeout range.
pub open spec fn validation(code: Seq<char>, timeout: Option<u64>) -> Result<u64, ExecError> {
    let t = effective_timeout(timeout);
    if is_blank(code) {
        Err(ExecError::EmptyCode)
    } else if encode_utf8(code).len() > MAX_CODE_LENGTH {
        Err(ExecError::CodeTooLarge { max_bytes: MAX_CODE_LENGTH })
    } else if t < MIN_TIMEOUT_MS || t > MAX_TIMEOUT_MS {
        Err(ExecError::InvalidTimeout { timeout_ms: t })
    } else {
        Ok(t)
    }
}

impl NodeExecutionInput {
    /// The environment overlay as key/value sequences.
    pub open spec fn env_view(&self) -> Seq<(Seq<char>, Seq<char>)> {
        self.environment.deep_view()
    }

    /// Keys of the environment overlay are unique.
    pub open spec fn wf(&self) -> bool {
        keys_unique(self.env_view())
    }

    /// A request with no environment overlay and no extra arguments.
    pub fn new(code: String, timeout: Option<u64>, working_directory: String) -> (r: Self)
        ensures
            r.code == code,
            r.timeout == timeout,
            r.working_directory == working_directory,
            r.environment@.len() == 0,
            r.args@.len() == 0,
            r.wf(),
    {
        NodeExecutionInput {
            code,
            timeout,
            working_directory,
            environment: Vec::new(),
            args: Vec::new(),
        }
    }

    /// Appends an extra argument.
    pub fn push_arg(&mut self, arg: String)
        ensures
            final(self).args@ == old(self).args@.push(arg),
            final(self).code == old(self).code,
            final(self).timeout == old(self).timeout,
            final(self).working_directory == old(self).working_directory,
            final(self).environment == old(self).environment,
    {
        self.args.push(arg);
    }

    /// Sets variable `key` to `value` in the overlay, replacing an earlier value.
    pub fn set_env(&mut self, key: String, value: String)
        requires
            old(self).wf(),
        ensures
            final(self).wf(),
            final(self).env_view() == env_set(old(self).env_view(), key@, value@),
            final(self).code == old(self).code,
            final(self).timeout == old(self).timeout,
            final(self).working_directory == old(self).working_directory,
            final(self).args == old(self).args,
    {
        let ghost e0 = self.env_view();
        let n = self.environment.len();
        let mut i: usize = 0;
        while i < n
            invariant
                n == self.environment@.len(),
                i <= n,
                e0 == old(self).env_view(),
                self.env_view() == e0,
                forall|j: int| 0 <= j < i ==> #[trigger] e0[j].0 != key@,
                self.code == old(self).code,
                self.timeout == old(self).timeout,
                self.working_directory == old(self).working_directory,
                self.args == old(self).args,
                keys_unique(e0),
            decreases n - i,
        {
            if self.environment[i].0 == key {
                let ghost before = self.environment@;
                let k = self.environment[i].0.clone();
                self.environment.set(i, (k, value));
                proof {
                    let e1 = self.env_view();
                    assert(e0[i as int].0 == key@);
                    assert(has_key(e0, key@));
                    let want = e0.map_values(
                        |p: (Seq<char>, Seq<char>)| if p.0 == key@ { (key@, value@) } else { p },
                    );
                    assert forall|j: int| 0 <= j < e1.len() implies e1[j] == want[j] by {
                        if j != i {
                            assert(e1[j] == e0[j]);
                            assert(e0[j].0 != key@);
                        }
                    }
                    assert(e1 =~= want);
                    assert forall|a: int, b: int| 0 <= a < b < e1.len() implies #[trigger] e1[a].0
                        != #[trigger] e1[b].0 by {
                        assert(e1[a].0 == e0[a].0);
                        assert(e1[b].0 == e0[b].0);
                    }
                }
                return;
            }
            i = i + 1;
        }
        self.environment.push((key, value));
        proof {
            let e1 = self.env_view();
            assert(!has_key(e0, key@));
            assert(e1 =~= e0.push((key@, value@)));
        }
    }
}

/// Checks a request before any file is written or process started.
/// Returns the timeout to apply.
pub fn validate_request(input: &NodeExecutionInput) -> (r: Result<u64, ExecError>)
    ensures
        r == validation(input.code@, input.timeout),
{
    let t = match input.timeout {
        Some(t) => t,
        None => DEFAULT_TIMEOUT_MS,
    };
    if text_is_blank(input.code.as_str()) {
        Err(ExecError::EmptyCode)
    } else if input.code.as_str().as_bytes().len() > MAX_CODE_LENGTH {
        Err(ExecError::CodeTooLarge { max_bytes: MAX_CODE_LENGTH })
    } else if t < MIN_TIMEOUT_MS || t > MAX_TIMEOUT_MS {
        Err(ExecError::InvalidTimeout { timeout_ms: t })
    } else {
        Ok(t)
    }
}

/// Every timeout outside `[MIN_TIMEOUT_MS, MAX_TIMEOUT_MS]` makes validation fail
/// with a validation error, whatever the script.
pub proof fn out_of_range_timeout_is_refused(code: Seq<char>, timeout_ms: u64)
    requires
        timeout_ms < MIN_TIMEOUT_MS || timeout_ms > MAX_TIMEOUT_MS,
    ensures
        validation(code, Some(timeout_ms)) is Err,
        validation(code, Some(timeout_ms))->Err_0.spec_is_validation(),
        !is_blank(code) && encode_utf8(code).len() <= MAX_CODE_LENGTH ==> validation(
            code,
            Some(timeout_ms),
        ) == Err::<u64, ExecError>(ExecError::InvalidTimeout { timeout_ms }),
{
}

/// Every script longer than `MAX_CODE_LENGTH` bytes makes validation fail with a
/// validation error, whatever the timeout.
pub proof fn oversized_code_is_refused(code: Seq<char>, timeout: Option<u64>)
    requires
        encode_utf8(code).len() > MAX_CODE_LENGTH,
    ensures
        validation(code, timeout) is Err,
        validation(code, timeout)->Err_0.spec_is_validation(),
{
}

} // verus!

