use vstd::prelude::*;
use vstd::utf8::encode_utf8;
use crate::vault::crypto::{sha256, sha256_digest};

verus! {

/// What storing a memory did: the memory's id, whether it was already
/// stored, and the memory it replaced, if any.
#[derive(Debug, Clone, Copy)]
pub struct IngestResult {
    pub memory_id: i64,
    pub is_duplicate: bool,
    pub superseded_id: Option<i64>,
}

/// The hash a memory is deduplicated by: SHA-256 of its UTF-8 text.
pub fn compute_content_hash(content: &str) -> (r: Vec<u8>)
    ensures
        r@ == sha256_digest(encode_utf8(content@)),
        r@.len() == 32,
{
    sha256(content.as_bytes())
}

/// The result of storing content that is already stored as `existing_id`.
pub fn duplicate_result(existing_id: i64) -> (r: IngestResult)
    ensures
        r.memory_id == existing_id && r.is_duplicate && r.superseded_id is None,
{
    IngestResult { memory_id: existing_id, is_duplicate: true, superseded_id: None }
}

/// The result of storing content as the new memory `memory_id`, after the
/// memories in `superseded` were replaced by it, in that order: the last one
/// replaced is reported.
pub fn stored_result(memory_id: i64, superseded: &Vec<i64>) -> (r: IngestResult)
    ensures
        r.memory_id == memory_id,
        !r.is_duplicate,
        r.superseded_id == (if superseded@.len() == 0 {
            None
        } else {
            Some(superseded@.last())
        }),
{
    let n = superseded.len();
    let superseded_id = if n == 0 {
        None
    } else {
        Some(superseded[n - 1])
    };
    IngestResult { memory_id, is_duplicate: false, superseded_id }
}

/// What storing new content comes to, once the store was consulted.
#[derive(Debug, Clone)]
pub enum IngestAction {
    /// The content is already stored, as this active memory.
    Skip(i64),
    /// Store the content, then mark these memories superseded by it, in order.
    Store(Vec<i64>),
}

/// The ids of the candidates that are close enough, in order.
pub open spec fn close_ids(candidates: Seq<(i64, bool)>) -> Seq<i64>
    decreases candidates.len(),
{
    if candidates.len() == 0 {
        Seq::empty()
    } else {
        let prev = close_ids(candidates.drop_last());
        if candidates.last().1 {
            prev.push(candidates.last().0)
        } else {
            prev
        }
    }
}

/// Decide how to store new content: `existing` is the active memory with
/// the same content hash, if there is one; `candidates` are the nearest
/// active memories of the same scope, nearest first, each with whether its
/// distance is below the similarity threshold. Content already stored is
/// skipped; otherwise it is stored and supersedes every close candidate.
pub fn ingest_action(existing: Option<i64>, candidates: &Vec<(i64, bool)>) -> (r: IngestAction)
    ensures
        existing matches Some(id) ==> (r matches IngestAction::Skip(s) && s == id),
        existing is None ==> (r matches IngestAction::Store(ids) && ids@ == close_ids(candidates@)),
{
    if let Some(id) = existing {
        return IngestAction::Skip(id);
    }
    let mut ids: Vec<i64> = Vec::new();
    let mut i: usize = 0;
    while i < candidates.len()
        invariant
            i <= candidates@.len(),
            ids@ == close_ids(candidates@.take(i as int)),
        decreases candidates@.len() - i,
    {
        assert(candidates@.take(i + 1).drop_last() =~= candidates@.take(i as int));
        let (id, close) = candidates[i];
        if close {
            ids.push(id);
        }
        i += 1;
    }
    assert(candidates@.take(candidates@.len() as int) =~= candidates@);
    IngestAction::Store(ids)
}

} // verus!
