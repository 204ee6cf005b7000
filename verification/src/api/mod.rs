use vstd::prelude::*;
use vstd::utf8::{decode_utf8, valid_utf8};
use crate::encoding::{base64_encode, base64_standard};
use crate::memory::heuristic::{check_content, content_rejection, layer_scope_error, validate_layer_for_project};
use crate::text::{to_string, utf8_string};

verus! {

/// A workspace file's content as sent to clients: its text when it is UTF-8,
/// else its base64, with the encoding's name.
#[derive(Debug, Clone)]
pub struct FileContent {
    pub content: String,
    pub encoding: String,
}

/// A file's content for clients.
pub fn file_content(bytes: Vec<u8>) -> (r: FileContent)
    ensures
        valid_utf8(bytes@) ==> r.content@ == decode_utf8(bytes@) && r.encoding@ == "utf-8"@,
        !valid_utf8(bytes@) ==> r.content@ == base64_standard(bytes@) && r.encoding@ == "base64"@,
{
    let encoded = base64_encode(bytes.as_slice());
    match utf8_string(bytes) {
        Some(text) => FileContent { content: text, encoding: to_string("utf-8") },
        None => FileContent { content: encoded, encoding: to_string("base64") },
    }
}

/// Why a memory was refused: its layer does not fit its project scope (the
/// message), or its content did not pass the filter (the reason).
#[derive(Debug, Clone)]
pub enum MemoryRefusal {
    Layer(String),
    Content(String),
}

/// The layer a new memory is stored in (`working` unless given), once its
/// layer fits its project scope and its content passes the filter.
pub fn memory_admission(layer: &Option<String>, project_id: Option<i64>, content: &str) -> (r: Result<
    String,
    MemoryRefusal,
>)
    ensures
        ({
            let l = match layer {
                Some(x) => x@,
                None => "working"@,
            };
            &&& layer_scope_error(l, project_id) matches Some(m) ==> (r matches Err(
                MemoryRefusal::Layer(e),
            ) && e@ == m)
            &&& (layer_scope_error(l, project_id) is None && content_rejection(content@) is Some) ==> (
            r matches Err(MemoryRefusal::Content(e)) && e@ == content_rejection(content@)->0)
            &&& layer_scope_error(l, project_id) is None && content_rejection(content@) is None ==> (
            r matches Ok(x) && x@ == l)
        }),
{
    let l = match layer {
        Some(x) => x.clone(),
        None => to_string("working"),
    };
    if let Err(e) = validate_layer_for_project(l.as_str(), project_id) {
        return Err(MemoryRefusal::Layer(e));
    }
    let h = check_content(content);
    if !h.passed {
        return Err(
            MemoryRefusal::Content(
                match h.reason {
                    Some(m) => m,
                    None => String::new(),
                },
            ),
        );
    }
    Ok(l)
}

} // verus!
