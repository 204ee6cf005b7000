use vstd::prelude::*;
use vstd::utf8::{encode_utf8, is_char_boundary};
use crate::agent::agent_loop::{
    AgentMessage, MAX_TOOL_HISTORY, PruneLimits, WsAgentEvent, collapse_old_tool_calls,
    collapsed_chat, msg_view, pruned_history, prune_history, tokens_from,
};
use crate::agent::tool_trait::{ToolOutput, ToolValue};
use crate::memory::heuristic::{check_content, content_rejection};
use crate::provider::llm::{
    LlmError, LlmMessage, LlmMsgView, LlmToolCall, LlmToolResult, call_view, call_views,
    copy_calls, llm_error_text, llm_msg_view, llm_msg_views,
};
use crate::text::{
    byte_prefix, chars_of, push_str, slice_chars, str_eq, string_from_chars, to_string, utf8_len,
    utf8_prefix,
};

verus! {

/// A tool call and the output it gave.
#[derive(Debug, Clone)]
pub struct ToolCallResult {
    pub name: String,
    pub output: ToolOutput,
}

/// What the agent answers to a message.
#[derive(Debug, Clone)]
pub struct AgentResponse {
    pub content: String,
    pub tool_results: Vec<ToolCallResult>,
    pub tokens_used: usize,
}

/// An agent's turn in progress: the chat sent to the model, the tool results
/// so far, the tokens spent and the tool calls made.
pub struct AgentTurn {
    pub messages: Vec<LlmMessage>,
    pub results: Vec<ToolCallResult>,
    pub total_tokens: usize,
    pub tool_call_count: usize,
}

/// What comes after the model's reply: the answer and the event that ends
/// the turn, or the tool calls to run and the events sent before them.
pub enum TurnStep {
    Finished(AgentResponse, WsAgentEvent),
    RunTools(AgentTurn, Vec<LlmToolCall>, Vec<WsAgentEvent>),
}

/// The short account of a tool's output sent to the client: its summary,
/// else the first 200 characters of its text or JSON.
pub open spec fn result_summary(o: ToolOutput) -> Seq<char> {
    match o.summary {
        Some(s) => s@,
        None => {
            let t = match o.result {
                ToolValue::Text(t) => t@,
                ToolValue::Json(j) => j@,
            };
            if t.len() > 200 {
                t.take(200)
            } else {
                t
            }
        },
    }
}

/// The short account of a tool's output sent to the client.
pub fn summary_of(o: &ToolOutput) -> (r: String)
    ensures
        r@ == result_summary(*o),
{
    match &o.summary {
        Some(s) => s.clone(),
        None => {
            let text: &String = match &o.result {
                ToolValue::Text(t) => t,
                ToolValue::Json(j) => j,
            };
            let v = chars_of(text.as_str());
            let n: usize = if v.len() > 200 {
                200
            } else {
                v.len()
            };
            let cut = slice_chars(&v, 0, n);
            assert(v@.subrange(0, v@.len() as int) =~= v@);
            string_from_chars(&cut)
        },
    }
}

/// The event announcing a tool call about to run.
pub fn tool_call_event(call: &LlmToolCall, ts: i64) -> (r: WsAgentEvent)
    ensures
        r matches WsAgentEvent::ToolCall { tool, call_id, args, ts: t } && tool@ == call.name@
            && call_id@ == call.id@ && args@ == call.arguments@ && t == ts,
{
    WsAgentEvent::ToolCall {
        tool: call.name.clone(),
        call_id: call.id.clone(),
        args: call.arguments.clone(),
        ts,
    }
}

/// A chat message without tool data.
pub open spec fn plain(role: Seq<char>, content: Seq<char>) -> LlmMsgView {
    (role, content, None, None)
}

/// The chat a turn starts with: the system prompt, the pruned history, the
/// user's message.
pub open spec fn opening_chat(
    system_prompt: Seq<char>,
    history: Seq<AgentMessage>,
    lim: PruneLimits,
    user_message: Seq<char>,
) -> Seq<LlmMsgView> {
    seq![plain("system"@, system_prompt)] + pruned_history(history, lim).map_values(
        |m: (Seq<char>, Seq<char>, crate::agent::tool_trait::ToolImportance)| plain(m.0, m.1),
    ) + seq![plain("user"@, user_message)]
}

/// What the model is told of a tool's output: its summary, else its text,
/// else its JSON cut at 4000 bytes.
pub open spec fn output_for_model(o: ToolOutput) -> Seq<char> {
    match o.summary {
        Some(s) => s@,
        None => match o.result {
            ToolValue::Text(t) => t@,
            ToolValue::Json(j) => if utf8_len(j@) > 4000 {
                utf8_prefix(j@, 4000)
            } else {
                j@
            },
        },
    }
}

/// Whether the model's text of an output can be cut where it is cut.
pub open spec fn output_cuttable(o: ToolOutput) -> bool {
    o.summary is None ==> match o.result {
        ToolValue::Json(j) => utf8_len(j@) > 4000 ==> is_char_boundary(encode_utf8(j@), 4000),
        ToolValue::Text(_) => true,
    }
}

/// The text the model is told of a tool's output.
pub fn content_for_llm(o: &ToolOutput) -> (r: String)
    requires
        output_cuttable(*o),
    ensures
        r@ == output_for_model(*o),
{
    match &o.summary {
        Some(s) => s.clone(),
        None => match &o.result {
            ToolValue::Text(t) => t.clone(),
            ToolValue::Json(j) => {
                if j.as_str().as_bytes().len() > 4000 {
                    to_string(byte_prefix(j.as_str(), 4000))
                } else {
                    j.clone()
                }
            },
        },
    }
}

/// The text kept as an episodic memory of an exchange.
pub open spec fn episode_text(user: Seq<char>, agent: Seq<char>) -> Seq<char> {
    "User: "@ + user + "\nAgent: "@ + agent
}

/// The memory to keep of an exchange: its text when it passes the content
/// filter.
pub fn episode_memory(user: &str, agent: &str) -> (r: Option<String>)
    ensures
        content_rejection(episode_text(user@, agent@)) is None <==> r is Some,
        r matches Some(t) ==> t@ == episode_text(user@, agent@),
{
    let mut t = to_string("User: ");
    push_str(&mut t, user);
    push_str(&mut t, "\nAgent: ");
    push_str(&mut t, agent);
    if check_content(t.as_str()).passed {
        Some(t)
    } else {
        None
    }
}

impl AgentTurn {
    /// Open a turn: the system prompt, the history pruned to the limits, and
    /// the user's message.
    pub fn start(
        system_prompt: String,
        history: &Vec<AgentMessage>,
        lim: PruneLimits,
        user_message: &str,
    ) -> (r: Self)
        requires
            tokens_from(history@, 0) <= usize::MAX,
        ensures
            llm_msg_views(r.messages@) == opening_chat(system_prompt@, history@, lim, user_message@),
            r.results@.len() == 0,
            r.total_tokens == 0,
            r.tool_call_count == 0,
    {
        let pruned = prune_history(history, lim);
        let ghost pv = pruned_history(history@, lim);
        let mut messages: Vec<LlmMessage> = Vec::new();
        messages.push(
            LlmMessage {
                role: to_string("system"),
                content: system_prompt,
                tool_call_id: None,
                tool_calls: None,
            },
        );
        let mut i: usize = 0;
        while i < pruned.len()
            invariant
                i <= pruned@.len(),
                pruned@.map_values(|m: AgentMessage| msg_view(m)) == pv,
                llm_msg_views(messages@) == seq![plain("system"@, system_prompt@)] + pv.take(
                    i as int,
                ).map_values(
                    |m: (Seq<char>, Seq<char>, crate::agent::tool_trait::ToolImportance)|
                        plain(m.0, m.1),
                ),
            decreases pruned@.len() - i,
        {
            let m = &pruned[i];
            let lm = LlmMessage {
                role: m.role.clone(),
                content: m.content.clone(),
                tool_call_id: None,
                tool_calls: None,
            };
            let ghost before = messages@;
            messages.push(lm);
            assert(pv[i as int] == msg_view(pruned@[i as int]));
            assert(llm_msg_views(messages@) =~= llm_msg_views(before).push(llm_msg_view(lm)));
            assert(pv.take(i + 1) =~= pv.take(i as int).push(pv[i as int]));
            assert(llm_msg_views(messages@) =~= seq![plain("system"@, system_prompt@)] + pv.take(
                i + 1,
            ).map_values(
                |m: (Seq<char>, Seq<char>, crate::agent::tool_trait::ToolImportance)|
                    plain(m.0, m.1),
            ));
            i += 1;
        }
        assert(pv.take(pv.len() as int) =~= pv);
        let user = LlmMessage {
            role: to_string("user"),
            content: to_string(user_message),
            tool_call_id: None,
            tool_calls: None,
        };
        let ghost before = messages@;
        messages.push(user);
        assert(llm_msg_views(messages@) =~= llm_msg_views(before).push(llm_msg_view(user)));
        AgentTurn { messages, results: Vec::new(), total_tokens: 0, tool_call_count: 0 }
    }

    /// The answer when the model call failed: the error's message.
    /// The error event that reports it carries the same text.
    pub fn llm_failed(self, error: &LlmError, ts: i64) -> (r: (AgentResponse, WsAgentEvent))
        ensures
            r.0.content@ == "Error: "@ + llm_error_text(*error),
            r.0.tool_results == self.results,
            r.0.tokens_used == self.total_tokens,
            r.1 matches WsAgentEvent::Error { message, ts: t } && message@ == r.0.content@ && t
                == ts,
    {
        let mut content = to_string("Error: ");
        push_str(&mut content, error.message().as_str());
        let event = WsAgentEvent::Error { message: content.clone(), ts };
        (AgentResponse { content, tool_results: self.results, tokens_used: self.total_tokens }, event)
    }

    /// Take the model's reply: without tool calls it is the answer; with
    /// them, the assistant message that makes them joins the chat and the
    /// calls are handed out to run.
    /// The answer ends the turn with a done event that carries it, the
    /// tokens spent and the number of tool results; tool calls are preceded
    /// by a thought event when the reply has text.
    pub fn llm_replied(self, reply: LlmToolResult, ts: i64) -> (r: TurnStep)
        requires
            self.total_tokens + reply.tokens_used <= usize::MAX,
        ensures
            reply.tool_calls@.len() == 0 ==> (r matches TurnStep::Finished(resp, ev) && resp.content
                == reply.content && resp.tool_results == self.results && resp.tokens_used
                == self.total_tokens + reply.tokens_used && (ev matches WsAgentEvent::Done {
                summary,
                total_tokens,
                total_calls,
                ts: t,
            } && summary@ == reply.content@ && total_tokens == resp.tokens_used && total_calls
                == self.results@.len() && t == ts)),
            reply.tool_calls@.len() > 0 ==> (r matches TurnStep::RunTools(t, calls, events) && {
                &&& reply.content@.len() == 0 ==> events@.len() == 0
                &&& reply.content@.len() > 0 ==> (events@.len() == 1 && (events@[0] matches WsAgentEvent::Thought {
                    text,
                    ts: e,
                } && text@ == reply.content@ && e == ts))
                &&& llm_msg_views(t.messages@) == llm_msg_views(self.messages@).push(
                    ("assistant"@, reply.content@, None, Some(call_views(reply.tool_calls@))),
                )
                &&& call_views(calls@) == call_views(reply.tool_calls@)
                &&& t.results == self.results
                &&& t.total_tokens == self.total_tokens + reply.tokens_used
                &&& t.tool_call_count == self.tool_call_count
            }),
    {
        let total = self.total_tokens + reply.tokens_used;
        if reply.tool_calls.len() == 0 {
            let done = WsAgentEvent::Done {
                summary: reply.content.clone(),
                total_tokens: total,
                total_calls: self.results.len(),
                ts,
            };
            return TurnStep::Finished(
                AgentResponse { content: reply.content, tool_results: self.results, tokens_used: total },
                done,
            );
        }
        let mut events: Vec<WsAgentEvent> = Vec::new();
        if !reply.content.as_str().is_empty() {
            events.push(WsAgentEvent::Thought { text: reply.content.clone(), ts });
        }
        let calls = copy_calls(&reply.tool_calls);
        let mut messages = self.messages;
        let assistant = LlmMessage {
            role: to_string("assistant"),
            content: reply.content,
            tool_call_id: None,
            tool_calls: Some(reply.tool_calls),
        };
        let ghost before = messages@;
        messages.push(assistant);
        assert(llm_msg_views(messages@) =~= llm_msg_views(before).push(llm_msg_view(assistant)));
        TurnStep::RunTools(
            AgentTurn {
                messages,
                results: self.results,
                total_tokens: total,
                tool_call_count: self.tool_call_count,
            },
            calls,
            events,
        )
    }

    /// Record a tool's output: the model is told of it in a tool message that
    /// answers the call, and the result is kept.
    /// The event reporting it tells whether the call succeeded and gives
    /// the output's short account.
    pub fn tool_finished(self, call: &LlmToolCall, output: ToolOutput, success: bool, ts: i64) -> (r: (
        Self,
        WsAgentEvent,
    ))
        requires
            self.tool_call_count < usize::MAX,
            output_cuttable(output),
        ensures
            llm_msg_views(r.0.messages@) == llm_msg_views(self.messages@).push(
                ("tool"@, output_for_model(output), Some(call.id@), None),
            ),
            r.0.results@.len() == self.results@.len() + 1,
            r.0.results@.drop_last() == self.results@,
            r.0.results@.last().name@ == call.name@,
            r.0.results@.last().output == output,
            r.0.total_tokens == self.total_tokens,
            r.0.tool_call_count == self.tool_call_count + 1,
            r.1 matches WsAgentEvent::ToolResult { call_id, success: s, summary, ts: t } && call_id@
                == call.id@ && s == success && summary@ == result_summary(output) && t == ts,
    {
        let event = WsAgentEvent::ToolResult {
            call_id: call.id.clone(),
            success,
            summary: summary_of(&output),
            ts,
        };
        let content = content_for_llm(&output);
        let mut messages = self.messages;
        let tool_msg = LlmMessage {
            role: to_string("tool"),
            content,
            tool_call_id: Some(call.id.clone()),
            tool_calls: None,
        };
        let ghost before = messages@;
        messages.push(tool_msg);
        assert(llm_msg_views(messages@) =~= llm_msg_views(before).push(llm_msg_view(tool_msg)));
        let mut results = self.results;
        let ghost before_results = results@;
        results.push(ToolCallResult { name: call.name.clone(), output });
        assert(results@.drop_last() =~= before_results);
        (
            AgentTurn {
                messages,
                results,
                total_tokens: self.total_tokens,
                tool_call_count: self.tool_call_count + 1,
            },
            event,
        )
    }

    /// Close a round of tool calls: past six calls old exchanges are
    /// collapsed, and a leading system prompt gives way to a short
    /// continuation.
    pub fn end_round(self) -> (r: Self)
        ensures
            ({
                let c = if self.tool_call_count > MAX_TOOL_HISTORY {
                    collapsed_chat(self.messages@)
                } else {
                    llm_msg_views(self.messages@)
                };
                llm_msg_views(r.messages@) == if c.len() > 0 && c[0].0 == "system"@ {
                    c.update(0, ("system"@, "Continue. Use tools as needed."@, c[0].2, c[0].3))
                } else {
                    c
                }
            }),
            r.results == self.results,
            r.total_tokens == self.total_tokens,
            r.tool_call_count == self.tool_call_count,
    {
        let mut messages = self.messages;
        if self.tool_call_count > MAX_TOOL_HISTORY {
            collapse_old_tool_calls(&mut messages);
        }
        let ghost c = llm_msg_views(messages@);
        if messages.len() > 0 && str_eq(messages[0].role.as_str(), "system") {
            let first = messages.remove(0);
            let updated = LlmMessage {
                role: first.role,
                content: to_string("Continue. Use tools as needed."),
                tool_call_id: first.tool_call_id,
                tool_calls: first.tool_calls,
            };
            let ghost rest = messages@;
            messages.insert(0, updated);
            assert(llm_msg_views(messages@) =~= c.update(
                0,
                ("system"@, "Continue. Use tools as needed."@, c[0].2, c[0].3),
            ));
        }
        AgentTurn {
            messages,
            results: self.results,
            total_tokens: self.total_tokens,
            tool_call_count: self.tool_call_count,
        }
    }
}

} // verus!
