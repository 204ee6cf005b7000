use brain_backend::agent::agent_loop::WsAgentEvent;
use brain_backend::opencode_api::{
    agent_event_broadcasts, events_to_messages, new_session, prompt_text, run_to_session, session_busy,
    session_id_for, session_uuid,
    EventPayload, EventRecord, OcPart, PromptPart, SsePayload, ToolPartState,
};
use brain_backend::run::repository::StoredRun;
use brain_backend::ws_agent::{task_failure_event, ws_forward_step, WsAction, WsSignal, WsTaskFailure};

fn payload() -> EventPayload {
    EventPayload {
        info_role: None,
        info_id: None,
        parts: None,
        tool: None,
        args: None,
        success: None,
        summary: None,
        error: None,
    }
}

fn event(id: i64, kind: &str, p: Option<EventPayload>) -> EventRecord {
    EventRecord { id, event_type: kind.to_string(), created_at: "2024-01-01T00:00:00Z".to_string(), payload: p }
}

#[test]
fn session_ids_round_trip() {
    let uuid = vec![0x01, 0xab, 0xff, 0x10];
    let sid = session_id_for(&uuid);
    assert_eq!(sid, "ses_01abff10");
    assert_eq!(session_uuid(&sid), Some(uuid.clone()));
    assert_eq!(session_uuid("01ABFF10"), Some(uuid));
    assert_eq!(session_uuid("ses_zz"), None);
    assert_eq!(session_uuid("ses_abc"), None);
}

#[test]
fn run_as_session() {
    let run = StoredRun {
        id: 1,
        uuid: vec![0xde, 0xad],
        project_id: None,
        agent_name: "opencode".to_string(),
        goal: "New Session".to_string(),
        context_json: "{}".to_string(),
        status: "pending".to_string(),
        summary: None,
        tokens_used: 0,
        cost_cents: 0,
        created_at: "1970-01-01T00:00:01.5Z".to_string(),
        updated_at: String::new(),
        completed_at: None,
    };
    let s = run_to_session(&run, "/work".to_string());
    assert_eq!(s.id, "ses_dead");
    assert_eq!(s.title.as_deref(), Some("New Session"));
    assert_eq!(s.version.as_deref(), Some("1.0"));
    let t = s.time.unwrap();
    assert_eq!(t.created, 1500);
    assert_eq!(t.updated, 1500);
    let bad = StoredRun { created_at: "yesterday".to_string(), ..run };
    assert_eq!(run_to_session(&bad, String::new()).time.unwrap().created, 0);
}

#[test]
fn events_group_into_messages() {
    let user = EventPayload {
        info_role: Some("user".to_string()),
        info_id: Some("msg_u".to_string()),
        parts: Some(vec!["{\"type\":\"text\",\"text\":\"hi\"}".to_string()]),
        ..payload()
    };
    let assistant = EventPayload { info_role: Some("assistant".to_string()), ..payload() };
    let call = EventPayload { tool: Some("shell".to_string()), args: Some("{\"c\":1}".to_string()), ..payload() };
    let failed = EventPayload { success: Some(false), ..payload() };
    let events = vec![
        event(1, "message", Some(user)),
        event(2, "message", Some(assistant)),
        event(3, "tool_call", Some(call)),
        event(4, "tool_result", Some(failed)),
        event(5, "state_change", Some(payload())),
        event(6, "message", None),
    ];
    let msgs = events_to_messages("ses_x", &events);
    assert_eq!(msgs.len(), 2);
    assert_eq!(msgs[0].info.id, "msg_u");
    assert_eq!(msgs[0].info.role, "user");
    assert_eq!(msgs[0].info.session_id, "ses_x");
    assert_eq!(msgs[0].info.created, 1704067200000);
    assert!(matches!(&msgs[0].parts[0], OcPart::Raw(t) if t.contains("hi")));
    assert_eq!(msgs[1].info.id, "msg_2");
    assert_eq!(msgs[1].info.role, "assistant");
    assert_eq!(msgs[1].parts.len(), 2);
    match &msgs[1].parts[0] {
        OcPart::Tool { call_id, tool, state: ToolPartState::Running { input } } => {
            assert_eq!(call_id, "call_3");
            assert_eq!(tool, "shell");
            assert_eq!(input, "{\"c\":1}");
        }
        _ => panic!("running tool expected"),
    }
    match &msgs[1].parts[1] {
        OcPart::Tool { tool, state: ToolPartState::Failed { message }, .. } => {
            assert_eq!(tool, "unknown");
            assert_eq!(message, "tool error");
        }
        _ => panic!("failed tool expected"),
    }
}

#[test]
fn same_role_messages_merge() {
    let a = EventPayload { info_role: Some("user".to_string()), ..payload() };
    let b = EventPayload { info_role: Some("user".to_string()), info_id: Some("second".to_string()), ..payload() };
    let msgs = events_to_messages("s", &vec![event(1, "message", Some(a)), event(2, "message", Some(b))]);
    assert_eq!(msgs.len(), 1);
    assert_eq!(msgs[0].info.id, "second");
    assert!(events_to_messages("s", &vec![]).is_empty());
}

#[test]
fn agent_events_broadcast() {
    let d = agent_event_broadcasts("ses_1", &WsAgentEvent::Text { text: "par".to_string(), ts: 0 }, 5);
    assert_eq!(d.len(), 1);
    assert_eq!(d[0].event_type, "message.part.delta");
    match &d[0].payload {
        SsePayload::PartDelta { message_id, delta, .. } => {
            assert_eq!(message_id, "msg_assistant_ses_1");
            assert_eq!(delta, "par");
        }
        _ => panic!("delta expected"),
    }
    let done = agent_event_broadcasts(
        "ses_1",
        &WsAgentEvent::Done { summary: "ok".to_string(), total_tokens: 9, total_calls: 1, ts: 0 },
        77,
    );
    let kinds: Vec<&str> = done.iter().map(|m| m.event_type.as_str()).collect();
    assert_eq!(kinds, vec!["message.updated", "session.idle", "session.status"]);
    assert!(matches!(&done[0].payload, SsePayload::AssistantMessage { created: 77, total_tokens: 9, .. }));
    assert!(matches!(&done[2].payload, SsePayload::SessionStatus { busy: false, .. }));
    let err = agent_event_broadcasts("ses_1", &WsAgentEvent::Error { message: "bad".to_string(), ts: 0 }, 0);
    assert_eq!(err.len(), 2);
    assert_eq!(err[0].event_type, "session.error");
    let res = agent_event_broadcasts(
        "ses_1",
        &WsAgentEvent::ToolResult { call_id: "c".to_string(), success: true, summary: "fine".to_string(), ts: 0 },
        0,
    );
    assert!(matches!(
        &res[0].payload,
        SsePayload::ToolSettled { state: ToolPartState::Completed { title, output }, .. } if title.is_empty() && output == "fine"
    ));
}

#[test]
fn prompt_text_joins_text_parts() {
    let parts = vec![
        PromptPart { part_type: Some("text".to_string()), text: Some("a".to_string()) },
        PromptPart { part_type: Some("file".to_string()), text: Some("x".to_string()) },
        PromptPart { part_type: Some("text".to_string()), text: Some("b".to_string()) },
    ];
    assert_eq!(prompt_text(&parts).as_deref(), Some("a\nb"));
    assert_eq!(prompt_text(&vec![]), None);
}

#[test]
fn ws_forwarding_decisions() {
    assert_eq!(ws_forward_step(WsSignal::ClientPong), WsAction::Continue);
    assert_eq!(
        ws_forward_step(WsSignal::EventSent { terminal: true, ok: true }),
        WsAction::Stop { abort_agent: false, linger: true }
    );
    assert_eq!(
        ws_forward_step(WsSignal::EventSent { terminal: false, ok: false }),
        WsAction::Stop { abort_agent: true, linger: false }
    );
    assert_eq!(ws_forward_step(WsSignal::PingSent { ok: false }), WsAction::Stop { abort_agent: true, linger: false });
    assert_eq!(ws_forward_step(WsSignal::AgentFinished), WsAction::Stop { abort_agent: false, linger: false });
    assert_eq!(ws_forward_step(WsSignal::ClientClosed), WsAction::Stop { abort_agent: true, linger: false });
}

#[test]
fn ws_task_failures() {
    match task_failure_event(&WsTaskFailure::InvalidJson("eof".to_string()), 42) {
        WsAgentEvent::Error { message, ts } => {
            assert_eq!(message, "невалидный JSON: eof");
            assert_eq!(ts, 42);
        }
        _ => panic!("error expected"),
    }
    match task_failure_event(&WsTaskFailure::NotText, 1) {
        WsAgentEvent::Error { message, .. } => assert_eq!(message, "ожидается JSON с task"),
        _ => panic!("error expected"),
    }
}

#[test]
fn new_sessions_take_requested_title() {
    let s = new_session(&[0x0a], &None, "/d".to_string(), 10, 11);
    assert_eq!(s.id, "ses_0a");
    assert_eq!(s.title.as_deref(), Some("New Session"));
    let t = s.time.unwrap();
    assert_eq!((t.created, t.updated, t.compacting, t.archived), (10, 11, Some(0), Some(0)));
    let s = new_session(&[0x0a], &Some("Mine".to_string()), String::new(), 0, 0);
    assert_eq!(s.title.as_deref(), Some("Mine"));
    assert!(session_busy("running"));
    assert!(!session_busy("pending"));
}
