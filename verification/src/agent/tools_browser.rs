use vstd::prelude::*;
use vstd::utf8::{encode_utf8, is_char_boundary};
use crate::agent::tool_trait::{ToolImportance, ToolOutput, ToolValue, token_estimate_of};
use crate::text::{byte_prefix, utf8_len, utf8_prefix};

verus! {

/// Fetches a web page and returns its text.
pub struct BrowserNavigate;

/// The text kept of a fetched page: its first 8000 bytes.
pub open spec fn page_text(body: Seq<char>) -> Seq<char> {
    if utf8_len(body) > 8000 {
        utf8_prefix(body, 8000)
    } else {
        body
    }
}

impl BrowserNavigate {
    pub fn new() -> (r: Self) {
        BrowserNavigate
    }

    /// The tool output of a fetched page body, of normal importance.
    pub fn page_output(body: &str) -> (r: ToolOutput)
        requires
            utf8_len(body@) > 8000 ==> is_char_boundary(encode_utf8(body@), 8000),
        ensures
            r.result matches ToolValue::Text(t) && t@ == page_text(body@),
            r.summary is None,
            r.token_estimate == token_estimate_of(page_text(body@)),
            r.importance == ToolImportance::Normal,
    {
        let text = if body.as_bytes().len() > 8000 {
            byte_prefix(body, 8000)
        } else {
            body
        };
        ToolOutput::text(text, ToolImportance::Normal)
    }
}

impl Default for BrowserNavigate {
    fn default() -> (r: Self) {
        Self::new()
    }
}

} // verus!
