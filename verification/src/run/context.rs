use vstd::prelude::*;

verus! {

/// A stored context slot of a run.
#[derive(Debug, Clone)]
pub struct RunContext {
    pub id: i64,
    pub run_id: i64,
    pub slot: String,
    pub content: String,
    pub updated_at: String,
}

/// A context slot to store: its name and content.
#[derive(Debug, Clone)]
pub struct ContextSlot {
    pub slot: String,
    pub content: String,
}

} // verus!
