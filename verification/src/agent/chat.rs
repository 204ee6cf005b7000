use vstd::prelude::*;
use crate::agent::agent_loop::AgentMessage;
use crate::agent::tool_trait::ToolImportance;
use crate::text::{chars_of, slice_chars, str_eq, string_from_chars, to_string, trim, trim_bounds};

verus! {

/// What a line typed at the chat prompt asks for.
#[derive(Debug, Clone)]
pub enum ChatCommand {
    /// Nothing was typed: prompt again.
    Skip,
    /// `/quit`, `/exit` or `/q`: leave the chat.
    Quit,
    /// `/history`: show the conversation so far.
    History,
    /// `/clear`: forget the conversation.
    Clear,
    /// Anything else: a message for the agent, without surrounding whitespace.
    Ask(String),
}

/// The command of a typed line, read after trimming its whitespace.
pub open spec fn command_of(line: Seq<char>) -> ChatCommand {
    let t = trim(line);
    if t.len() == 0 {
        ChatCommand::Skip
    } else if t == "/quit"@ || t == "/exit"@ || t == "/q"@ {
        ChatCommand::Quit
    } else if t == "/history"@ {
        ChatCommand::History
    } else if t == "/clear"@ {
        ChatCommand::Clear
    } else {
        ChatCommand::Ask(arbitrary())
    }
}

/// Read a line typed at the chat prompt.
pub fn chat_command(line: &str) -> (r: ChatCommand)
    ensures
        !(command_of(line@) is Ask) ==> r == command_of(line@),
        command_of(line@) is Ask ==> (r matches ChatCommand::Ask(m) && m@ == trim(line@)),
{
    let v = chars_of(line);
    let (lo, hi) = trim_bounds(&v);
    let t = string_from_chars(&slice_chars(&v, lo, hi));
    proof {
        reveal_strlit("/quit");
        reveal_strlit("/exit");
        reveal_strlit("/q");
        reveal_strlit("/history");
        reveal_strlit("/clear");
    }
    if hi == lo {
        ChatCommand::Skip
    } else if str_eq(t.as_str(), "/quit") || str_eq(t.as_str(), "/exit") || str_eq(t.as_str(), "/q") {
        ChatCommand::Quit
    } else if str_eq(t.as_str(), "/history") {
        ChatCommand::History
    } else if str_eq(t.as_str(), "/clear") {
        ChatCommand::Clear
    } else {
        ChatCommand::Ask(t)
    }
}

/// Add an exchange to the chat history: the user's message, which matters
/// most, then the agent's answer.
pub fn record_exchange(history: &mut Vec<AgentMessage>, input: &str, answer: String)
    ensures
        final(history)@.len() == old(history)@.len() + 2,
        final(history)@.take(old(history)@.len() as int) == old(history)@,
        ({
            let u = final(history)@[old(history)@.len() as int];
            u.role@ == "user"@ && u.content@ == input@ && u.importance == ToolImportance::High
        }),
        ({
            let a = final(history)@[old(history)@.len() + 1int];
            a.role@ == "assistant"@ && a.content@ == answer@ && a.importance
                == ToolImportance::Normal
        }),
{
    let ghost before = history@;
    history.push(
        AgentMessage { role: to_string("user"), content: to_string(input), importance: ToolImportance::High },
    );
    history.push(AgentMessage { role: to_string("assistant"), content: answer, importance: ToolImportance::Normal });
    assert(history@.take(before.len() as int) =~= before);
}

} // verus!
