use vstd::prelude::*;
use crate::text::{decimal, push_decimal, push_str, to_string};

verus! {

/// Failures of a language model provider.
#[derive(Debug, Clone)]
pub enum LlmError {
    Provider(String),
    InvalidJson(String),
    RateLimited,
    ContextLengthExceeded { tokens: usize },
}

/// The message of a language model error.
pub open spec fn llm_error_text(e: LlmError) -> Seq<char> {
    match e {
        LlmError::Provider(m) => "provider error: "@ + m@,
        LlmError::InvalidJson(m) => "invalid JSON output: "@ + m@,
        LlmError::RateLimited => "rate limited"@,
        LlmError::ContextLengthExceeded { tokens } => "context length exceeded: "@ + decimal(
            tokens as nat,
        ) + " tokens"@,
    }
}

impl LlmError {
    /// The error's message.
    pub fn message(&self) -> (r: String)
        ensures
            r@ == llm_error_text(*self),
    {
        match self {
            LlmError::Provider(m) => {
                let mut r = to_string("provider error: ");
                push_str(&mut r, m.as_str());
                r
            },
            LlmError::InvalidJson(m) => {
                let mut r = to_string("invalid JSON output: ");
                push_str(&mut r, m.as_str());
                r
            },
            LlmError::RateLimited => to_string("rate limited"),
            LlmError::ContextLengthExceeded { tokens } => {
                let mut r = to_string("context length exceeded: ");
                push_decimal(&mut r, *tokens as u64);
                push_str(&mut r, " tokens");
                r
            },
        }
    }
}

/// A tool call the model asked for; the arguments are a JSON document in text.
#[derive(Debug, Clone)]
pub struct LlmToolCall {
    pub id: String,
    pub name: String,
    pub arguments: String,
}

/// A message of a chat with the model.
#[derive(Debug, Clone)]
pub struct LlmMessage {
    pub role: String,
    pub content: String,
    pub tool_call_id: Option<String>,
    pub tool_calls: Option<Vec<LlmToolCall>>,
}

/// A plain completion.
#[derive(Debug, Clone)]
pub struct LlmResponse {
    pub content: String,
    pub tokens_used: usize,
    pub model: String,
}

/// A piece of a streamed completion.
#[derive(Debug, Clone)]
pub struct StreamChunk {
    pub delta: String,
    pub finished: bool,
    pub tokens_used: Option<usize>,
}

/// A completion that may ask for tool calls.
#[derive(Debug, Clone)]
pub struct LlmToolResult {
    pub content: String,
    pub tool_calls: Vec<LlmToolCall>,
    pub tokens_used: usize,
    pub tokens_input: usize,
    pub tokens_output: usize,
}

/// A tool call as the chat API returned it.
#[derive(Debug, Clone)]
pub struct RawToolCall {
    pub id: String,
    pub name: String,
    pub arguments: String,
}

/// One choice of a chat completion as the API returned it.
#[derive(Debug, Clone)]
pub struct RawChoice {
    pub content: Option<String>,
    pub tool_calls: Option<Vec<RawToolCall>>,
}

/// The token usage a chat completion reported.
#[derive(Debug, Clone, Copy)]
pub struct RawUsage {
    pub total_tokens: Option<usize>,
    pub prompt_tokens: Option<usize>,
    pub completion_tokens: Option<usize>,
}

/// The text `s` parses to as a JSON document (`serde_json::from_str` into a
/// `serde_json::Value`), written back out by `Value`'s `to_string`; `None`
/// when it does not parse.
pub uninterp spec fn json_reserialized(s: Seq<char>) -> Option<Seq<char>>;

/// `serde_json::from_str::<serde_json::Value>` followed by `to_string`: the
/// document's compact serialization, when `s` parses.
#[verifier::external_body]
fn reserialize_json(s: &str) -> (r: Option<String>)
    ensures
        match json_reserialized(s@) {
            Some(t) => r matches Some(u) && u@ == t,
            None => r is None,
        },
{
    match serde_json::from_str::<serde_json::Value>(s) {
        Ok(v) => Some(v.to_string()),
        Err(_) => None,
    }
}

/// A tool call by its identifier, name and argument text.
pub type CallView = (Seq<char>, Seq<char>, Seq<char>);

pub open spec fn call_view(c: LlmToolCall) -> CallView {
    (c.id@, c.name@, c.arguments@)
}

/// The tool calls kept of those returned: the ones whose arguments parse, in
/// order, each with its arguments re-serialized from the parsed document.
pub open spec fn parsed_calls(raw: Seq<RawToolCall>) -> Seq<CallView>
    decreases raw.len(),
{
    if raw.len() == 0 {
        Seq::empty()
    } else {
        let prev = parsed_calls(raw.drop_last());
        match json_reserialized(raw.last().arguments@) {
            Some(args) => prev.push((raw.last().id@, raw.last().name@, args)),
            None => prev,
        }
    }
}

/// The token counts (total, prompt, completion) of a completion: a missing
/// total is 0, a missing prompt count is 70% of the total, a missing
/// completion count is the rest of the total.
pub open spec fn token_counts(usage: Option<RawUsage>) -> (int, int, int) {
    let total: int = match usage {
        Some(u) => match u.total_tokens {
            Some(t) => t as int,
            None => 0,
        },
        None => 0,
    };
    let prompt: int = match usage {
        Some(u) => match u.prompt_tokens {
            Some(p) => p as int,
            None => total * 7 / 10,
        },
        None => total * 7 / 10,
    };
    let completion: int = match usage {
        Some(u) => match u.completion_tokens {
            Some(c) => c as int,
            None => total - prompt,
        },
        None => total - prompt,
    };
    (total, prompt, completion)
}

/// The inputs on which the token defaults are computed without overflow.
pub open spec fn usage_in_range(usage: Option<RawUsage>) -> bool {
    let (total, prompt, completion) = token_counts(usage);
    total * 7 <= usize::MAX && 0 <= completion
}

/// The token counts of a completion.
pub fn token_usage(usage: Option<RawUsage>) -> (r: (usize, usize, usize))
    requires
        usage_in_range(usage),
    ensures
        (r.0 as int, r.1 as int, r.2 as int) == token_counts(usage),
{
    let total: usize = match usage {
        Some(u) => match u.total_tokens {
            Some(t) => t,
            None => 0,
        },
        None => 0,
    };
    let prompt: usize = match usage {
        Some(u) => match u.prompt_tokens {
            Some(p) => p,
            None => total * 7 / 10,
        },
        None => total * 7 / 10,
    };
    let completion: usize = match usage {
        Some(u) => match u.completion_tokens {
            Some(c) => c,
            None => total - prompt,
        },
        None => total - prompt,
    };
    (total, prompt, completion)
}

/// Keep the tool calls whose arguments parse as JSON, with the arguments
/// re-serialized from the parsed document.
pub fn keep_parsed_calls(raw: &Vec<RawToolCall>) -> (r: Vec<LlmToolCall>)
    ensures
        call_views(r@) == parsed_calls(raw@),
{
    let mut out: Vec<LlmToolCall> = Vec::new();
    let mut i: usize = 0;
    while i < raw.len()
        invariant
            i <= raw@.len(),
            call_views(out@) == parsed_calls(raw@.take(i as int)),
        decreases raw@.len() - i,
    {
        let c = &raw[i];
        assert(raw@.take(i + 1).drop_last() =~= raw@.take(i as int));
        match reserialize_json(c.arguments.as_str()) {
            Some(args) => {
                let ghost a = args@;
                out.push(LlmToolCall { id: c.id.clone(), name: c.name.clone(), arguments: args });
                assert(call_views(out@) =~= parsed_calls(raw@.take(i as int)).push(
                    (c.id@, c.name@, a),
                ));
            },
            None => {},
        }
        i += 1;
    }
    assert(raw@.take(raw@.len() as int) =~= raw@);
    out
}

/// The completion made of a chat API reply: the first choice's text (empty
/// when missing), its tool calls whose arguments parse, and the token counts;
/// a reply without choices is an error.
pub fn interpret_completion(choices: &Vec<RawChoice>, usage: Option<RawUsage>) -> (r: Result<
    LlmToolResult,
    LlmError,
>)
    requires
        usage_in_range(usage),
    ensures
        choices@.len() == 0 <==> r is Err,
        r matches Err(e) ==> e matches LlmError::Provider(m) && m@ == "no choices"@,
        r matches Ok(res) ==> {
            let c = choices@[0];
            &&& res.content@ == match c.content {
                Some(t) => t@,
                None => Seq::<char>::empty(),
            }
            &&& call_views(res.tool_calls@) == parsed_calls(
                match c.tool_calls {
                    Some(v) => v@,
                    None => Seq::<RawToolCall>::empty(),
                },
            )
            &&& (res.tokens_used as int, res.tokens_input as int, res.tokens_output as int)
                == token_counts(usage)
        },
{
    let (total, prompt, completion) = token_usage(usage);
    if choices.len() == 0 {
        return Err(LlmError::Provider(to_string("no choices")));
    }
    let choice = &choices[0];
    let content = match &choice.content {
        Some(t) => t.clone(),
        None => String::new(),
    };
    let tool_calls = match &choice.tool_calls {
        Some(v) => keep_parsed_calls(v),
        None => {
            let empty: Vec<RawToolCall> = Vec::new();
            keep_parsed_calls(&empty)
        },
    };
    Ok(
        LlmToolResult {
            content,
            tool_calls,
            tokens_used: total,
            tokens_input: prompt,
            tokens_output: completion,
        },
    )
}

/// A chat message by role, content, the call it answers and the calls it makes.
pub type LlmMsgView = (Seq<char>, Seq<char>, Option<Seq<char>>, Option<Seq<CallView>>);

pub open spec fn llm_msg_view(m: LlmMessage) -> LlmMsgView {
    (
        m.role@,
        m.content@,
        match m.tool_call_id {
            Some(id) => Some(id@),
            None => None,
        },
        match m.tool_calls {
            Some(v) => Some(call_views(v@)),
            None => None,
        },
    )
}

/// The views of a sequence of tool calls.
pub open spec fn call_views(s: Seq<LlmToolCall>) -> Seq<CallView> {
    s.map_values(|c: LlmToolCall| call_view(c))
}

/// The views of a sequence of chat messages.
pub open spec fn llm_msg_views(s: Seq<LlmMessage>) -> Seq<LlmMsgView> {
    s.map_values(|m: LlmMessage| llm_msg_view(m))
}

/// A copy of a tool call.
pub fn copy_call(c: &LlmToolCall) -> (r: LlmToolCall)
    ensures
        call_view(r) == call_view(*c),
{
    LlmToolCall { id: c.id.clone(), name: c.name.clone(), arguments: c.arguments.clone() }
}

/// A copy of a list of tool calls.
pub fn copy_calls(v: &Vec<LlmToolCall>) -> (r: Vec<LlmToolCall>)
    ensures
        call_views(r@) == call_views(v@),
{
    let mut out: Vec<LlmToolCall> = Vec::new();
    let mut i: usize = 0;
    while i < v.len()
        invariant
            i <= v@.len(),
            call_views(out@) == call_views(v@.take(i as int)),
        decreases v@.len() - i,
    {
        let c = copy_call(&v[i]);
        let ghost before = out@;
        out.push(c);
        assert(call_views(out@) =~= call_views(before).push(call_view(c)));
        assert(call_views(v@.take(i + 1)) =~= call_views(v@.take(i as int)).push(call_view(v@[i as int])));
        i += 1;
    }
    assert(v@.take(v@.len() as int) =~= v@);
    out
}

/// Whether a returned tool call's arguments parse as JSON.
pub open spec fn arguments_parse(c: RawToolCall) -> bool {
    json_reserialized(c.arguments@) is Some
}

/// No parallel tool call is lost: a call whose arguments parse is always
/// kept, after the calls kept before it, with its identifier, name and
/// re-serialized arguments; a call whose arguments do not parse changes
/// nothing; and as many calls are kept as there are calls whose arguments
/// parse.
pub proof fn lemma_every_parsed_call_is_kept(raw: Seq<RawToolCall>, c: RawToolCall)
    ensures
        json_reserialized(c.arguments@) matches Some(t) ==> parsed_calls(raw.push(c))
            == parsed_calls(raw).push((c.id@, c.name@, t)),
        json_reserialized(c.arguments@) is None ==> parsed_calls(raw.push(c)) == parsed_calls(raw),
        parsed_calls(raw).len() == raw.filter(|x: RawToolCall| arguments_parse(x)).len(),
    decreases raw.len(),
{
    assert(raw.push(c).drop_last() =~= raw);
    reveal(Seq::filter);
    if raw.len() > 0 {
        lemma_every_parsed_call_is_kept(raw.drop_last(), raw.last());
        assert(raw.drop_last().push(raw.last()) =~= raw);
    }
}

} // verus!
