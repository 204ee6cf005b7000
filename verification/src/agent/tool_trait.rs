use vstd::prelude::*;
use crate::text::{to_string, utf8_len};

verus! {

/// How much a tool result matters when the history is pruned.
#[derive(Debug, Clone, Copy, PartialEq, Eq, Structural)]
pub enum ToolImportance {
    Low,
    Normal,
    High,
}

/// What a tool returned: plain text, or a JSON document in its serialized form.
#[derive(Debug, Clone)]
pub enum ToolValue {
    Text(String),
    Json(String),
}

/// A tool's result, with an optional summary, its token estimate and importance.
#[derive(Debug, Clone)]
pub struct ToolOutput {
    pub result: ToolValue,
    pub summary: Option<String>,
    pub token_estimate: u32,
    pub importance: ToolImportance,
}

/// One token per four bytes of UTF-8, kept in 32 bits.
pub open spec fn token_estimate_of(t: Seq<char>) -> u32 {
    (utf8_len(t) / 4) as u32
}

/// Rough token estimate of a tool's text.
pub fn estimate_tokens(text: &str) -> (r: u32)
    ensures
        r == token_estimate_of(text@),
{
    let n: usize = text.as_bytes().len() / 4;
    #[verifier::truncate]
    (n as u32)
}

impl ToolOutput {
    /// A JSON result, given in its serialized form; the estimate counts that text.
    pub fn new(json_text: String, importance: ToolImportance) -> (r: Self)
        ensures
            r.result == ToolValue::Json(json_text),
            r.summary is None,
            r.token_estimate == token_estimate_of(json_text@),
            r.importance == importance,
    {
        let token_estimate = estimate_tokens(json_text.as_str());
        ToolOutput { result: ToolValue::Json(json_text), summary: None, token_estimate, importance }
    }

    /// The same output with a summary attached.
    pub fn with_summary(self, summary: &str) -> (r: Self)
        ensures
            r.result == self.result,
            r.summary matches Some(s) && s@ == summary@,
            r.token_estimate == self.token_estimate,
            r.importance == self.importance,
    {
        let mut out = self;
        out.summary = Some(to_string(summary));
        out
    }

    /// A plain-text result.
    pub fn text(text: &str, importance: ToolImportance) -> (r: Self)
        ensures
            r.result matches ToolValue::Text(t) && t@ == text@,
            r.summary is None,
            r.token_estimate == token_estimate_of(text@),
            r.importance == importance,
    {
        let token_estimate = estimate_tokens(text);
        ToolOutput {
            result: ToolValue::Text(to_string(text)),
            summary: None,
            token_estimate,
            importance,
        }
    }

    /// An error message as a result of normal importance.
    pub fn error(msg: &str) -> (r: Self)
        ensures
            r.result matches ToolValue::Text(t) && t@ == msg@,
            r.summary is None,
            r.token_estimate == token_estimate_of(msg@),
            r.importance == ToolImportance::Normal,
    {
        Self::text(msg, ToolImportance::Normal)
    }
}

} // verus!
