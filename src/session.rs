//! The life of one execution request as a state machine. The host performs each
//! step that the session asks for and reports back what happened; the session
//! decides what comes next. The scratch file is written once and, once written,
//! removed once, before the result is handed out, whichever way the run ended.
use vstd::prelude::*;

use crate::launch::{plan_launch, planned_directory, interpreter, LaunchPlan};
use crate::outcome::{build_result, is_result_of, NodeExecutionOutput, ProcessOutcome};
use crate::request::{validate_request, validation, ExecError, NodeExecutionInput};

verus! {

/// Where a session stands.
#[derive(Debug, Clone, Copy, PartialEq, Eq, Structural)]
pub enum Phase {
    /// Waiting for the scratch file to be written.
    Writing,
    /// Waiting for the child to end or the deadline to pass.
    Running,
    /// Waiting for the scratch file to be removed.
    Cleaning,
    /// The result has been handed out.
    Finished,
}

/// What the session asks the host to do next.
pub enum Step {
    /// Write `code` to a new file at `path`.
    WriteArtifact { path: String, code: String },
    /// Start the child as `plan` says and race it against a deadline of `timeout_ms`,
    /// terminating the child when the deadline passes first.
    Launch { plan: LaunchPlan, timeout_ms: u64 },
    /// Remove the file at `path`; a failure is only logged.
    RemoveArtifact { path: String },
    /// Hand `result` to the caller.
    Finish { result: Result<NodeExecutionOutput, ExecError> },
}

/// What the host reports after performing a step.
pub enum Event {
    /// The scratch file was written.
    ArtifactWritten,
    /// The scratch file could not be written.
    ArtifactWriteFailed { cause: String },
    /// The child could not be started.
    LaunchFailed { cause: String },
    /// The race ended; `elapsed_ms` is measured from accepting the request.
    ProcessEnded { outcome: ProcessOutcome, elapsed_ms: u64 },
    /// The removal of the scratch file was attempted, successfully or not.
    ArtifactRemoved,
}

/// The state of one request.
pub struct ExecSession {
    pub phase: Phase,
    /// Path of the scratch file.
    pub path: String,
    /// Deadline in milliseconds.
    pub timeout_ms: u64,
    /// The launch plan, until it is handed out.
    pub plan: Option<LaunchPlan>,
    /// The result, between the end of the run and the removal of the scratch file.
    pub pending: Option<Result<NodeExecutionOutput, ExecError>>,
    /// Every step asked for so far, in order.
    pub history: Ghost<Seq<Step>>,
}

pub open spec fn is_write_of(st: Step, p: String) -> bool {
    match st {
        Step::WriteArtifact { path, .. } => path == p,
        _ => false,
    }
}

pub open spec fn is_remove_of(st: Step, p: String) -> bool {
    match st {
        Step::RemoveArtifact { path } => path == p,
        _ => false,
    }
}

pub open spec fn is_write_failure(st: Step) -> bool {
    match st {
        Step::Finish { result } => result matches Err(ExecError::ArtifactWrite { .. }),
        _ => false,
    }
}

impl ExecSession {
    /// The history of a session matches its phase.
    pub open spec fn wf(&self) -> bool {
        let h = self.history@;
        &&& h.len() >= 1
        &&& is_write_of(h[0], self.path)
        &&& match self.phase {
            Phase::Writing => h.len() == 1 && self.plan is Some,
            Phase::Running => h.len() == 2 && h[1] is Launch,
            Phase::Cleaning => {
                &&& h.len() == 3
                &&& h[1] is Launch
                &&& is_remove_of(h[2], self.path)
                &&& self.pending is Some
                &&& !(self.pending->0 matches Err(ExecError::ArtifactWrite { .. }))
            },
            Phase::Finished => {
                ||| (h.len() == 2 && is_write_failure(h[1]))
                ||| (h.len() == 4 && h[1] is Launch && is_remove_of(h[2], self.path)
                    && h[3] is Finish && !is_write_failure(h[3]))
            },
        }
    }

    /// Whether the session is waiting for event `e`.
    pub open spec fn accepts(&self, e: &Event) -> bool {
        match self.phase {
            Phase::Writing => e is ArtifactWritten || e is ArtifactWriteFailed,
            Phase::Running => e is LaunchFailed || e is ProcessEnded,
            Phase::Cleaning => e is ArtifactRemoved,
            Phase::Finished => false,
        }
    }

    pub fn expects(&self, e: &Event) -> (r: bool)
        ensures
            r == self.accepts(e),
    {
        match self.phase {
            Phase::Writing => match e {
                Event::ArtifactWritten => true,
                Event::ArtifactWriteFailed { .. } => true,
                _ => false,
            },
            Phase::Running => match e {
                Event::LaunchFailed { .. } => true,
                Event::ProcessEnded { .. } => true,
                _ => false,
            },
            Phase::Cleaning => match e {
                Event::ArtifactRemoved => true,
                _ => false,
            },
            Phase::Finished => false,
        }
    }

    /// Accepts a request whose scratch file is to live at `artifact_path`. A request
    /// that fails validation is refused here: no step is asked for, so no file is
    /// written and no process started.
    pub fn start(input: &NodeExecutionInput, artifact_path: String) -> (r: Result<
        (ExecSession, Step),
        ExecError,
    >)
        ensures
            validation(input.code@, input.timeout) is Err ==> r == Err::<(ExecSession, Step), ExecError>(
                validation(input.code@, input.timeout)->Err_0,
            ),
            validation(input.code@, input.timeout) is Ok ==> r is Ok,
            r matches Ok((s, st)) ==> {
                &&& s.wf()
                &&& s.phase == Phase::Writing
                &&& s.path == artifact_path
                &&& s.timeout_ms == validation(input.code@, input.timeout)->Ok_0
                &&& s.history@ == seq![st]
                &&& st == (Step::WriteArtifact { path: artifact_path, code: input.code })
                &&& s.plan matches Some(p) && p.program@ == interpreter() && p.args.deep_view()
                    == seq![artifact_path@] + input.args.deep_view() && p.working_directory
                    == planned_directory(input.working_directory)
                    && p.environment.deep_view() == input.env_view()
            },
    {
        let timeout_ms = match validate_request(input) {
            Ok(t) => t,
            Err(e) => {
                return Err(e);
            },
        };
        let plan = plan_launch(artifact_path.as_str(), input);
        let step = Step::WriteArtifact { path: artifact_path.clone(), code: input.code.clone() };
        let session = ExecSession {
            phase: Phase::Writing,
            path: artifact_path,
            timeout_ms,
            plan: Some(plan),
            pending: None,
            history: Ghost(Seq::empty().push(step)),
        };
        Ok((session, step))
    }

    /// Takes the host's report of the last step and returns the next step.
    pub fn step(&mut self, e: Event) -> (r: Step)
        requires
            old(self).wf(),
            old(self).accepts(&e),
        ensures
            final(self).wf(),
            final(self).path == old(self).path,
            final(self).timeout_ms == old(self).timeout_ms,
            final(self).history@ == old(self).history@.push(r),
            match e {
                Event::ArtifactWritten => final(self).phase == Phase::Running && r == (Step::Launch {
                    plan: old(self).plan->0,
                    timeout_ms: old(self).timeout_ms,
                }),
                Event::ArtifactWriteFailed { cause } => final(self).phase == Phase::Finished && r == (
                Step::Finish { result: Err(ExecError::ArtifactWrite { cause }) }),
                Event::LaunchFailed { cause } => {
                    &&& final(self).phase == Phase::Cleaning
                    &&& final(self).pending == Some(
                        Err::<NodeExecutionOutput, ExecError>(ExecError::Launch { cause }),
                    )
                    &&& r == (Step::RemoveArtifact { path: old(self).path })
                },
                Event::ProcessEnded { outcome, elapsed_ms } => {
                    &&& final(self).phase == Phase::Cleaning
                    &&& final(self).pending matches Some(res) && is_result_of(
                        outcome,
                        elapsed_ms,
                        old(self).path@,
                        old(self).timeout_ms,
                        res,
                    )
                    &&& r == (Step::RemoveArtifact { path: old(self).path })
                },
                Event::ArtifactRemoved => final(self).phase == Phase::Finished && r == (
                Step::Finish { result: old(self).pending->0 }),
            },
    {
        let r = match e {
            Event::ArtifactWritten => {
                let plan = self.plan.take().unwrap();
                self.phase = Phase::Running;
                Step::Launch { plan, timeout_ms: self.timeout_ms }
            },
            Event::ArtifactWriteFailed { cause } => {
                self.phase = Phase::Finished;
                Step::Finish { result: Err(ExecError::ArtifactWrite { cause }) }
            },
            Event::LaunchFailed { cause } => {
                self.phase = Phase::Cleaning;
                self.pending = Some(Err(ExecError::Launch { cause }));
                Step::RemoveArtifact { path: self.path.clone() }
            },
            Event::ProcessEnded { outcome, elapsed_ms } => {
                let res = build_result(outcome, elapsed_ms, self.path.clone(), self.timeout_ms);
                self.phase = Phase::Cleaning;
                self.pending = Some(res);
                Step::RemoveArtifact { path: self.path.clone() }
            },
            Event::ArtifactRemoved => {
                let result = self.pending.take().unwrap();
                self.phase = Phase::Finished;
                Step::Finish { result }
            },
        };
        proof {
            self.history@ = self.history@.push(r);
        }
        r
    }
}

/// A finished session asked for its scratch file to be written exactly once, as its
/// first step, and for the result to be handed out as its last. Unless writing the
/// file failed, it asked exactly once for that same file to be removed, after the
/// launch and before the result; a failed write leads to no launch and no removal.
pub proof fn finished_session_cleaned_up(s: ExecSession)
    requires
        s.wf(),
        s.phase == Phase::Finished,
    ensures
        is_write_of(s.history@[0], s.path),
        forall|i: int|
            0 < i < s.history@.len() ==> !(#[trigger] s.history@[i] is WriteArtifact),
        s.history@.last() is Finish,
        is_write_failure(s.history@.last()) ==> s.history@.len() == 2,
        !is_write_failure(s.history@.last()) ==> {
            &&& s.history@.len() == 4
            &&& s.history@[1] is Launch
            &&& is_remove_of(s.history@[2], s.path)
        },
        forall|i: int|
            0 <= i < s.history@.len() && (#[trigger] s.history@[i] is RemoveArtifact) ==> i == 2
                && is_remove_of(s.history@[i], s.path) && s.history@.len() == 4,
{
}

/// In every phase a session has asked for at most one write and at most one
/// removal, and the removal, if any, is of the file that was written.
pub proof fn session_steps_at_most_once(s: ExecSession)
    requires
        s.wf(),
    ensures
        forall|i: int|
            0 <= i < s.history@.len() && (#[trigger] s.history@[i] is WriteArtifact) ==> i == 0,
        forall|i: int, j: int|
            0 <= i < s.history@.len() && 0 <= j < s.history@.len() && (#[trigger] s.history@[i] is RemoveArtifact)
                && (#[trigger] s.history@[j] is RemoveArtifact) ==> i == j,
        forall|i: int|
            0 <= i < s.history@.len() && (#[trigger] s.history@[i] is RemoveArtifact) ==> is_remove_of(
                s.history@[i],
                s.path,
            ) && s.history@[i - 1] is Launch,
{
}

} // verus!
