use vstd::prelude::*;
use crate::agent::agent_loop::WsAgentEvent;
use crate::text::{push_str, to_string};

verus! {

/// A task sent by a WebSocket client.
#[derive(Debug, Clone)]
pub struct WsTaskRequest {
    pub task: String,
    pub mode: Option<String>,
}

/// Why a WebSocket task could not be started.
#[derive(Debug, Clone)]
pub enum WsTaskFailure {
    /// The first frame was not text.
    NotText,
    /// The first frame was not a task in JSON; the parser's message.
    InvalidJson(String),
    /// The database could not be opened; its message.
    DbInit(String),
}

/// The message a client is sent when its task cannot start.
pub open spec fn task_failure_text(f: WsTaskFailure) -> Seq<char> {
    match f {
        WsTaskFailure::NotText => "ожидается JSON с task"@,
        WsTaskFailure::InvalidJson(e) => "невалидный JSON: "@ + e@,
        WsTaskFailure::DbInit(e) => "DB init failed: "@ + e@,
    }
}

/// The error event a client is sent when its task cannot start.
pub fn task_failure_event(f: &WsTaskFailure, ts: i64) -> (r: WsAgentEvent)
    ensures
        r matches WsAgentEvent::Error { message, ts: t } && message@ == task_failure_text(*f) && t
            == ts,
{
    let message = match f {
        WsTaskFailure::NotText => to_string("ожидается JSON с task"),
        WsTaskFailure::InvalidJson(e) => {
            let mut m = to_string("невалидный JSON: ");
            push_str(&mut m, e.as_str());
            m
        },
        WsTaskFailure::DbInit(e) => {
            let mut m = to_string("DB init failed: ");
            push_str(&mut m, e.as_str());
            m
        },
    };
    WsAgentEvent::Error { message, ts }
}

/// What happened while an agent's events are forwarded to a client.
#[derive(Debug, Clone, Copy)]
pub enum WsSignal {
    /// The keepalive tick fired; whether the ping went out.
    PingSent { ok: bool },
    /// An agent event was sent; whether it ends the stream and whether the
    /// send succeeded.
    EventSent { terminal: bool, ok: bool },
    /// The agent's event stream ended.
    AgentFinished,
    /// The client answered a ping.
    ClientPong,
    /// The client closed the connection or its stream ended.
    ClientClosed,
    /// Any other frame from the client.
    ClientOther,
}

/// What the forwarding loop does next.
#[derive(Debug, Clone, Copy, PartialEq, Eq, Structural)]
pub enum WsAction {
    Continue,
    /// Stop forwarding, stopping the agent first if `abort_agent`, and after
    /// a short pause if `linger` (so the last event reaches the client).
    Stop { abort_agent: bool, linger: bool },
}

/// The forwarding decision for a signal: a failed send or a closed client
/// stops the agent, a terminal event ends the stream after a pause, the end
/// of the agent's events ends it at once; anything else goes on.
pub open spec fn forward_decision(s: WsSignal) -> WsAction {
    match s {
        WsSignal::PingSent { ok } => if ok {
            WsAction::Continue
        } else {
            WsAction::Stop { abort_agent: true, linger: false }
        },
        WsSignal::EventSent { terminal, ok } => if !ok {
            WsAction::Stop { abort_agent: true, linger: false }
        } else if terminal {
            WsAction::Stop { abort_agent: false, linger: true }
        } else {
            WsAction::Continue
        },
        WsSignal::AgentFinished => WsAction::Stop { abort_agent: false, linger: false },
        WsSignal::ClientPong => WsAction::Continue,
        WsSignal::ClientClosed => WsAction::Stop { abort_agent: true, linger: false },
        WsSignal::ClientOther => WsAction::Continue,
    }
}

/// Decide what the forwarding loop does after a signal.
pub fn ws_forward_step(signal: WsSignal) -> (r: WsAction)
    ensures
        r == forward_decision(signal),
{
    match signal {
        WsSignal::PingSent { ok } => if ok {
            WsAction::Continue
        } else {
            WsAction::Stop { abort_agent: true, linger: false }
        },
        WsSignal::EventSent { terminal, ok } => if !ok {
            WsAction::Stop { abort_agent: true, linger: false }
        } else if terminal {
            WsAction::Stop { abort_agent: false, linger: true }
        } else {
            WsAction::Continue
        },
        WsSignal::AgentFinished => WsAction::Stop { abort_agent: false, linger: false },
        WsSignal::ClientPong => WsAction::Continue,
        WsSignal::ClientClosed => WsAction::Stop { abort_agent: true, linger: false },
        WsSignal::ClientOther => WsAction::Continue,
    }
}

/// The forwarding stops exactly on a failed send, a closed client, a
/// terminal event or the end of the agent's events, and it stops the agent
/// only when the client can no longer be reached.
pub proof fn lemma_forwarding_stops(s: WsSignal)
    ensures
        (forward_decision(s) is Stop) <==> (s matches WsSignal::PingSent { ok } && !ok)
            || (s matches WsSignal::EventSent { terminal, ok } && (!ok || terminal)) || s
            is AgentFinished || s is ClientClosed,
        forward_decision(s) matches WsAction::Stop { abort_agent, .. } ==> (abort_agent <==> (
        s matches WsSignal::PingSent { ok } && !ok) || (s matches WsSignal::EventSent { ok, .. }
            && !ok) || s is ClientClosed),
{
}

} // verus!
