use vstd::prelude::*;
use crate::text::{str_eq, to_string};

verus! {

/// Lifecycle status of an agent run.
#[derive(Debug, Clone, Copy, PartialEq, Eq, Structural)]
pub enum RunStatus {
    Pending,
    Running,
    Paused,
    Completed,
    Failed,
    Cancelled,
}

/// The name under which a status is stored.
pub open spec fn status_name(s: RunStatus) -> Seq<char> {
    match s {
        RunStatus::Pending => "pending"@,
        RunStatus::Running => "running"@,
        RunStatus::Paused => "paused"@,
        RunStatus::Completed => "completed"@,
        RunStatus::Failed => "failed"@,
        RunStatus::Cancelled => "cancelled"@,
    }
}

/// The status whose stored name is `s`, if any.
pub open spec fn status_of_name(s: Seq<char>) -> Option<RunStatus> {
    if s == "pending"@ {
        Some(RunStatus::Pending)
    } else if s == "running"@ {
        Some(RunStatus::Running)
    } else if s == "paused"@ {
        Some(RunStatus::Paused)
    } else if s == "completed"@ {
        Some(RunStatus::Completed)
    } else if s == "failed"@ {
        Some(RunStatus::Failed)
    } else if s == "cancelled"@ {
        Some(RunStatus::Cancelled)
    } else {
        None
    }
}

/// Whether the state machine lets a run move from `from` to `to`, given what
/// accompanies the request.
pub open spec fn transition_allowed(
    from: RunStatus,
    to: RunStatus,
    has_summary: bool,
    has_error: bool,
    has_reason: bool,
    pending_tool_count: nat,
) -> bool {
    match (from, to) {
        (RunStatus::Pending, RunStatus::Running) => true,
        (RunStatus::Pending, RunStatus::Cancelled) => has_reason,
        (RunStatus::Running, RunStatus::Completed) => has_summary && pending_tool_count == 0,
        (RunStatus::Running, RunStatus::Failed) => has_error && pending_tool_count == 0,
        (RunStatus::Running, RunStatus::Paused) => true,
        (RunStatus::Running, RunStatus::Cancelled) => has_reason,
        (RunStatus::Paused, RunStatus::Running) => pending_tool_count == 0,
        (RunStatus::Paused, RunStatus::Cancelled) => has_reason,
        _ => false,
    }
}

/// A status from which no transition leads anywhere.
pub open spec fn is_terminal(s: RunStatus) -> bool {
    s == RunStatus::Completed || s == RunStatus::Failed || s == RunStatus::Cancelled
}

impl RunStatus {
    pub fn as_str(&self) -> (r: &'static str)
        ensures
            r@ == status_name(*self),
    {
        match self {
            RunStatus::Pending => "pending",
            RunStatus::Running => "running",
            RunStatus::Paused => "paused",
            RunStatus::Completed => "completed",
            RunStatus::Failed => "failed",
            RunStatus::Cancelled => "cancelled",
        }
    }

    pub fn parse_status(s: &str) -> (r: Option<RunStatus>)
        ensures
            r == status_of_name(s@),
    {
        if str_eq(s, "pending") {
            Some(RunStatus::Pending)
        } else if str_eq(s, "running") {
            Some(RunStatus::Running)
        } else if str_eq(s, "paused") {
            Some(RunStatus::Paused)
        } else if str_eq(s, "completed") {
            Some(RunStatus::Completed)
        } else if str_eq(s, "failed") {
            Some(RunStatus::Failed)
        } else if str_eq(s, "cancelled") {
            Some(RunStatus::Cancelled)
        } else {
            None
        }
    }
}

/// Why a run could not change status.
#[derive(Debug)]
pub enum TransitionError {
    InvalidTransition { from: String, to: String },
    MissingSummary,
    MissingError,
    MissingCancelReason,
    PendingTools { count: usize },
    NotFound,
}

/// The message of a transition error.
pub open spec fn transition_error_text(e: TransitionError) -> Seq<char> {
    match e {
        TransitionError::InvalidTransition { from, to } => "invalid transition: "@ + from@ + " → "@
            + to@,
        TransitionError::MissingSummary => "missing summary for completed run"@,
        TransitionError::MissingError => "missing error message for failed run"@,
        TransitionError::MissingCancelReason => "missing cancellation reason"@,
        TransitionError::PendingTools { count } => "pending tool invocations: "@ + crate::text::decimal(
            count as nat,
        ) + " still running"@,
        TransitionError::NotFound => "run not found"@,
    }
}

impl TransitionError {
    /// The error's message.
    pub fn message(&self) -> (r: String)
        ensures
            r@ == transition_error_text(*self),
    {
        match self {
            TransitionError::InvalidTransition { from, to } => {
                let mut r = to_string("invalid transition: ");
                crate::text::push_str(&mut r, from.as_str());
                crate::text::push_str(&mut r, " → ");
                crate::text::push_str(&mut r, to.as_str());
                r
            },
            TransitionError::MissingSummary => to_string("missing summary for completed run"),
            TransitionError::MissingError => to_string("missing error message for failed run"),
            TransitionError::MissingCancelReason => to_string("missing cancellation reason"),
            TransitionError::PendingTools { count } => {
                let mut r = to_string("pending tool invocations: ");
                crate::text::push_decimal(&mut r, *count as u64);
                crate::text::push_str(&mut r, " still running");
                r
            },
            TransitionError::NotFound => to_string("run not found"),
        }
    }
}

/// The run lifecycle rules.
pub struct RunStateMachine;

/// An accepted status change.
#[derive(Debug)]
pub struct Transition {
    pub from: RunStatus,
    pub to: RunStatus,
    pub reason: Option<String>,
}

impl RunStateMachine {
    pub fn validate_transition(
        current: &RunStatus,
        target: &RunStatus,
        has_summary: bool,
        has_error: bool,
        has_reason: bool,
        pending_tool_count: usize,
    ) -> (r: Result<Transition, TransitionError>)
        ensures
            r is Ok <==> transition_allowed(
                *current,
                *target,
                has_summary,
                has_error,
                has_reason,
                pending_tool_count as nat,
            ),
            r matches Ok(t) ==> t.from == *current && t.to == *target && t.reason is None,
            r matches Err(e) ==> (e matches TransitionError::InvalidTransition { from, to } && from@
                == status_name(*current) && to@ == status_name(*target)),
    {
        let valid = match (current, target) {
            (RunStatus::Pending, RunStatus::Running) => true,
            (RunStatus::Pending, RunStatus::Cancelled) => has_reason,
            (RunStatus::Running, RunStatus::Completed) => has_summary && pending_tool_count == 0,
            (RunStatus::Running, RunStatus::Failed) => has_error && pending_tool_count == 0,
            (RunStatus::Running, RunStatus::Paused) => true,
            (RunStatus::Running, RunStatus::Cancelled) => has_reason,
            (RunStatus::Paused, RunStatus::Running) => pending_tool_count == 0,
            (RunStatus::Paused, RunStatus::Cancelled) => has_reason,
            _ => false,
        };
        if !valid {
            return Err(
                TransitionError::InvalidTransition {
                    from: to_string(current.as_str()),
                    to: to_string(target.as_str()),
                },
            );
        }
        Ok(Transition { from: *current, to: *target, reason: None })
    }
}

/// Reading a status back from its stored name gives the same status.
pub proof fn lemma_status_name_round_trip(s: RunStatus)
    ensures
        status_of_name(status_name(s)) == Some(s),
{
    reveal_strlit("pending");
    reveal_strlit("running");
    reveal_strlit("paused");
    reveal_strlit("completed");
    reveal_strlit("failed");
    reveal_strlit("cancelled");
    assert("pending"@[0] == 'p' && "running"@[0] == 'r' && "paused"@[0] == 'p' && "completed"@[0]
        == 'c' && "failed"@[0] == 'f' && "cancelled"@[0] == 'c');
    assert("pending"@[1] == 'e' && "paused"@[1] == 'a');
    assert("completed"@[1] == 'o' && "cancelled"@[1] == 'a');
}

/// Distinct statuses are stored under distinct names.
pub proof fn lemma_status_name_injective(a: RunStatus, b: RunStatus)
    ensures
        status_name(a) == status_name(b) ==> a == b,
{
    lemma_status_name_round_trip(a);
    lemma_status_name_round_trip(b);
}

/// A finished run (completed, failed or cancelled) never changes status again.
pub proof fn lemma_terminal_states_are_final(
    from: RunStatus,
    to: RunStatus,
    has_summary: bool,
    has_error: bool,
    has_reason: bool,
    pending_tool_count: nat,
)
    requires
        is_terminal(from),
    ensures
        !transition_allowed(from, to, has_summary, has_error, has_reason, pending_tool_count),
{
}

/// A run cannot finish (complete or fail) or resume while tool invocations are still pending.
pub proof fn lemma_pending_tools_block_completion(
    from: RunStatus,
    to: RunStatus,
    has_summary: bool,
    has_error: bool,
    has_reason: bool,
    pending_tool_count: nat,
)
    requires
        pending_tool_count > 0,
        to == RunStatus::Completed || to == RunStatus::Failed || (from == RunStatus::Paused && to
            == RunStatus::Running),
    ensures
        !transition_allowed(from, to, has_summary, has_error, has_reason, pending_tool_count),
{
}

/// Every status change leaves the status it came from: no status moves to itself.
pub proof fn lemma_no_self_transition(
    s: RunStatus,
    has_summary: bool,
    has_error: bool,
    has_reason: bool,
    pending_tool_count: nat,
)
    ensures
        !transition_allowed(s, s, has_summary, has_error, has_reason, pending_tool_count),
{
}

/// A run that has not finished (pending, running or paused) can always be
/// cancelled when a reason is given, whatever else is or is not given, and
/// never without one.
pub proof fn lemma_unfinished_runs_cancel_with_reason(
    from: RunStatus,
    has_summary: bool,
    has_error: bool,
    pending_tool_count: nat,
)
    requires
        !is_terminal(from),
    ensures
        transition_allowed(from, RunStatus::Cancelled, has_summary, has_error, true, pending_tool_count),
        !transition_allowed(from, RunStatus::Cancelled, has_summary, has_error, false, pending_tool_count),
{
}

} // verus!
