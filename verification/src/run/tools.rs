use vstd::prelude::*;

verus! {

/// A recorded tool invocation of a run.
#[derive(Debug, Clone)]
pub struct ToolInvocation {
    pub id: i64,
    pub uuid: Vec<u8>,
    pub run_id: i64,
    pub event_id: Option<i64>,
    pub tool_name: String,
    pub arguments_json: String,
    pub result_summary: Option<String>,
    pub result_full: Option<String>,
    pub status: String,
    pub started_at: String,
    pub completed_at: Option<String>,
    pub duration_ms: Option<i64>,
    pub tokens_used: i64,
    pub cost_cents: i64,
    pub retry_count: i64,
    pub error_message: Option<String>,
}

/// A tool invocation to record as started.
#[derive(Debug, Clone)]
pub struct NewToolInvocation {
    pub run_id: i64,
    pub event_id: Option<i64>,
    pub tool_name: String,
    pub arguments_json: String,
}

/// How a tool invocation ended.
#[derive(Debug, Clone)]
pub struct ToolResult {
    pub result_summary: Option<String>,
    pub result_full: Option<String>,
    pub status: String,
    pub duration_ms: Option<i64>,
    pub tokens_used: i64,
    pub cost_cents: i64,
    pub error_message: Option<String>,
}

/// Totals over the tool invocations of a run.
#[derive(Debug, Clone, Copy)]
pub struct ToolStats {
    pub total: i64,
    pub success: i64,
    pub errors: i64,
    pub total_duration_ms: i64,
    pub total_tokens: i64,
    pub total_cost: i64,
}

} // verus!
