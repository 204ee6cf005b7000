use vstd::prelude::*;

verus! {

/// A stored event of a run, numbered within the run by `seq`.
#[derive(Debug, Clone)]
pub struct RunEvent {
    pub id: i64,
    pub run_id: i64,
    pub event_uuid: Vec<u8>,
    pub seq: i64,
    pub event_type: String,
    pub payload: String,
    pub created_at: String,
}

} // verus!
