use vstd::prelude::*;
use crate::run::state::{
    RunStateMachine, RunStatus, Transition, TransitionError, status_name, status_of_name,
    transition_allowed,
};
use crate::text::{push_str, to_string};

verus! {

/// A run to create.
#[derive(Debug, Clone)]
pub struct NewRun {
    pub project_id: Option<i64>,
    pub agent_name: String,
    pub goal: String,
    pub context_json: String,
}

/// A stored run.
#[derive(Debug, Clone)]
pub struct StoredRun {
    pub id: i64,
    pub uuid: Vec<u8>,
    pub project_id: Option<i64>,
    pub agent_name: String,
    pub goal: String,
    pub context_json: String,
    pub status: String,
    pub summary: Option<String>,
    pub tokens_used: i64,
    pub cost_cents: i64,
    pub created_at: String,
    pub updated_at: String,
    pub completed_at: Option<String>,
}

/// Check a status change of a stored run whose status is stored as text,
/// given how many of its tool invocations are still pending: an unknown
/// stored status is an error, otherwise the state machine decides.
pub fn check_stored_transition(
    current: &str,
    target: RunStatus,
    has_summary: bool,
    has_error: bool,
    has_reason: bool,
    pending_tool_count: usize,
) -> (r: Result<Transition, String>)
    ensures
        status_of_name(current@) is None ==> (r matches Err(m) && m@ == "invalid current status: "@
            + current@),
        status_of_name(current@) matches Some(c) ==> (r is Ok <==> transition_allowed(
            c,
            target,
            has_summary,
            has_error,
            has_reason,
            pending_tool_count as nat,
        )),
        status_of_name(current@) matches Some(c) ==> (r matches Ok(t) ==> t.from == c && t.to
            == target),
        status_of_name(current@) matches Some(c) ==> (r matches Err(m) ==> m@ == "invalid transition: "@
            + status_name(c) + " → "@ + status_name(target)),
{
    let c = match RunStatus::parse_status(current) {
        Some(c) => c,
        None => {
            let mut m = to_string("invalid current status: ");
            push_str(&mut m, current);
            return Err(m);
        },
    };
    match RunStateMachine::validate_transition(
        &c,
        &target,
        has_summary,
        has_error,
        has_reason,
        pending_tool_count,
    ) {
        Ok(t) => Ok(t),
        Err(e) => Err(e.message()),
    }
}

} // verus!
