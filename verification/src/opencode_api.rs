use vstd::prelude::*;
use crate::agent::agent_loop::WsAgentEvent;
use crate::encoding::{hex_decode, hex_decoded, hex_encode, hex_lower};
use crate::run::repository::StoredRun;
use crate::text::{
    joined,
    chars_of, decimal, has_prefix, push_signed_decimal, push_str, signed_decimal, slice_chars,
    str_eq, str_starts_with, string_from_chars, to_string,
};

verus! {

/// When a session was created and updated, in milliseconds since the epoch.
#[derive(Debug, Clone)]
pub struct OcSessionTime {
    pub created: i64,
    pub updated: i64,
    pub compacting: Option<i64>,
    pub archived: Option<i64>,
}

/// A run presented as an OpenCode session.
#[derive(Debug, Clone)]
pub struct OcSession {
    pub id: String,
    pub slug: Option<String>,
    pub project_id: Option<String>,
    pub directory: String,
    pub parent_id: Option<String>,
    pub title: Option<String>,
    pub version: Option<String>,
    pub time: Option<OcSessionTime>,
}

/// A skill offered to OpenCode clients.
#[derive(Debug, Clone)]
pub struct OcSkill {
    pub name: String,
    pub description: String,
    pub agent: Option<String>,
}

/// A command offered to OpenCode clients.
#[derive(Debug, Clone)]
pub struct OcCommand {
    pub name: String,
    pub description: String,
    pub agent: Option<String>,
    pub model: Option<String>,
}

/// The query of a session listing.
#[derive(Debug, Clone)]
pub struct SessionQuery {
    pub directory: Option<String>,
    pub roots: Option<bool>,
    pub start: Option<i64>,
    pub search: Option<String>,
    pub limit: Option<usize>,
}

/// The query of a file listing.
#[derive(Debug, Clone)]
pub struct FileQuery {
    pub directory: Option<String>,
    pub path: Option<String>,
}

/// The query of a file search.
#[derive(Debug, Clone)]
pub struct FindQuery {
    pub query: Option<String>,
    pub file_type: Option<String>,
    pub limit: Option<usize>,
    pub pattern: Option<String>,
}

/// The query of a text search.
#[derive(Debug, Clone)]
pub struct TextSearchQuery {
    pub pattern: Option<String>,
    pub directory: Option<String>,
}

/// The session identifier of a run: `ses_` and the run's UUID in hexadecimal.
pub open spec fn session_id_text(uuid: Seq<u8>) -> Seq<char> {
    "ses_"@ + hex_lower(uuid)
}

/// The hexadecimal part of a session identifier: without `ses_` when it
/// starts with it.
pub open spec fn session_hex_part(sid: Seq<char>) -> Seq<char> {
    if has_prefix(sid, "ses_"@) {
        sid.subrange(4, sid.len() as int)
    } else {
        sid
    }
}

/// The session identifier of a run's UUID.
pub fn session_id_for(uuid: &[u8]) -> (r: String)
    ensures
        r@ == session_id_text(uuid@),
{
    let mut r = to_string("ses_");
    let hex = hex_encode(uuid);
    push_str(&mut r, hex.as_str());
    r
}

/// The run UUID a session identifier names, if its hexadecimal part decodes.
pub fn session_uuid(session_id: &str) -> (r: Option<Vec<u8>>)
    ensures
        match hex_decoded(session_hex_part(session_id@)) {
            Some(b) => r matches Some(v) && v@ == b,
            None => r is None,
        },
{
    proof {
        reveal_strlit("ses_");
    }
    if str_starts_with(session_id, "ses_") {
        let v = chars_of(session_id);
        let rest = slice_chars(&v, 4, v.len());
        let s = string_from_chars(&rest);
        hex_decode(s.as_str())
    } else {
        hex_decode(session_id)
    }
}

/// A session identifier names the run it was made from.
pub proof fn lemma_session_id_round_trip(uuid: Seq<u8>)
    ensures
        hex_decoded(session_hex_part(session_id_text(uuid))) == Some(uuid),
{
    reveal_strlit("ses_");
    let s = session_id_text(uuid);
    assert(s.subrange(0, 4) =~= "ses_"@);
    assert(s.subrange(4, s.len() as int) =~= hex_lower(uuid));
    crate::encoding::lemma_hex_round_trip(uuid);
}

/// The time a `%Y-%m-%dT%H:%M:%S%.f` text names, read as UTC, in
/// milliseconds since the epoch.
pub uninterp spec fn naive_utc_millis(s: Seq<char>) -> Option<i64>;

/// The time an RFC 3339 text names, in milliseconds since the epoch.
pub uninterp spec fn datetime_utc_millis(s: Seq<char>) -> Option<i64>;

/// `chrono::NaiveDateTime::parse_from_str` with `%Y-%m-%dT%H:%M:%S%.f`, taken
/// as UTC and given in milliseconds since the epoch (`timestamp_millis`).
#[verifier::external_body]
fn parse_naive_utc_millis(s: &str) -> (r: Option<i64>)
    ensures
        r == naive_utc_millis(s@),
{
    match chrono::NaiveDateTime::parse_from_str(s, "%Y-%m-%dT%H:%M:%S%.f") {
        Ok(dt) => Some(
            chrono::DateTime::<chrono::Utc>::from_naive_utc_and_offset(dt, chrono::Utc).timestamp_millis(),
        ),
        Err(_) => None,
    }
}

/// `str::parse::<chrono::DateTime<chrono::Utc>>`, given in milliseconds since
/// the epoch (`timestamp_millis`).
#[verifier::external_body]
fn parse_datetime_utc_millis(s: &str) -> (r: Option<i64>)
    ensures
        r == datetime_utc_millis(s@),
{
    match s.parse::<chrono::DateTime<chrono::Utc>>() {
        Ok(dt) => Some(dt.timestamp_millis()),
        Err(_) => None,
    }
}

/// `s` without its `Z` characters.
pub open spec fn without_z(s: Seq<char>) -> Seq<char>
    decreases s.len(),
{
    if s.len() == 0 {
        s
    } else if s.last() == 'Z' {
        without_z(s.drop_last())
    } else {
        without_z(s.drop_last()).push(s.last())
    }
}

fn remove_z(s: &str) -> (r: String)
    ensures
        r@ == without_z(s@),
{
    let v = chars_of(s);
    let mut out: Vec<char> = Vec::new();
    let mut i: usize = 0;
    while i < v.len()
        invariant
            i <= v@.len(),
            v@ == s@,
            out@ == without_z(v@.take(i as int)),
        decreases v@.len() - i,
    {
        assert(v@.take(i + 1).drop_last() =~= v@.take(i as int));
        if v[i] != 'Z' {
            out.push(v[i]);
        }
        i += 1;
    }
    assert(v@.take(v@.len() as int) =~= v@);
    string_from_chars(&out)
}

/// When a run was created, in milliseconds; 0 when its time does not parse.
pub open spec fn run_created_millis(created_at: Seq<char>) -> i64 {
    match naive_utc_millis(without_z(created_at)) {
        Some(m) => m,
        None => 0,
    }
}

/// A run as a session in `directory`: its identifier, its goal as the
/// title, version 1.0, and its creation time as both times.
pub fn run_to_session(run: &StoredRun, directory: String) -> (r: OcSession)
    ensures
        r.id@ == session_id_text(run.uuid@),
        r.slug is None && r.project_id is None && r.parent_id is None,
        r.directory@ == directory@,
        r.title matches Some(t) && t@ == run.goal@,
        r.version matches Some(v) && v@ == "1.0"@,
        r.time matches Some(t) && t.created == run_created_millis(run.created_at@) && t.updated
            == t.created && t.compacting == Some(0i64) && t.archived == Some(0i64),
{
    let cleaned = remove_z(run.created_at.as_str());
    let created = match parse_naive_utc_millis(cleaned.as_str()) {
        Some(m) => m,
        None => 0,
    };
    OcSession {
        id: session_id_for(run.uuid.as_slice()),
        slug: None,
        project_id: None,
        directory,
        parent_id: None,
        title: Some(run.goal.clone()),
        version: Some(to_string("1.0")),
        time: Some(
            OcSessionTime { created, updated: created, compacting: Some(0), archived: Some(0) },
        ),
    }
}

/// How a tool part of a message stands.
#[derive(Debug, Clone)]
pub enum ToolPartState {
    Running { input: String },
    Completed { title: String, output: String },
    Failed { message: String },
}

/// A part of a session message: a part as it was stored (its JSON text), or
/// a tool call.
#[derive(Debug, Clone)]
pub enum OcPart {
    Raw(String),
    Tool { call_id: String, tool: String, state: ToolPartState },
}

/// Who wrote a message, under which identifier, and when (milliseconds).
#[derive(Debug, Clone)]
pub struct OcMessageInfo {
    pub id: String,
    pub session_id: String,
    pub role: String,
    pub created: i64,
}

/// A session message with its parts.
#[derive(Debug, Clone)]
pub struct OcMessage {
    pub info: OcMessageInfo,
    pub parts: Vec<OcPart>,
}

/// The fields of a stored event's JSON payload that sessions read: the
/// message's `info.role` and `info.id` (when they are strings), its `parts`
/// (when an array, each part as JSON text), and a tool event's `tool`,
/// `args` (as JSON text), `success`, `summary` and `error`.
#[derive(Debug, Clone)]
pub struct EventPayload {
    pub info_role: Option<String>,
    pub info_id: Option<String>,
    pub parts: Option<Vec<String>>,
    pub tool: Option<String>,
    pub args: Option<String>,
    pub success: Option<bool>,
    pub summary: Option<String>,
    pub error: Option<String>,
}

/// A stored run event; the payload is `None` when it is not JSON.
#[derive(Debug, Clone)]
pub struct EventRecord {
    pub id: i64,
    pub event_type: String,
    pub created_at: String,
    pub payload: Option<EventPayload>,
}

/// A part by kind (0 stored, 1 running tool, 2 completed tool, 3 failed
/// tool) and texts: the stored JSON, or the call id, the tool, and the
/// input; the title and output; or the error message.
pub type PartView = (int, Seq<char>, Seq<char>, Seq<char>, Seq<char>);

pub open spec fn part_view(p: OcPart) -> PartView {
    match p {
        OcPart::Raw(t) => (0, t@, Seq::empty(), Seq::empty(), Seq::empty()),
        OcPart::Tool { call_id, tool, state } => match state {
            ToolPartState::Running { input } => (1, call_id@, tool@, input@, Seq::empty()),
            ToolPartState::Completed { title, output } => (2, call_id@, tool@, title@, output@),
            ToolPartState::Failed { message } => (3, call_id@, tool@, message@, Seq::empty()),
        },
    }
}

pub open spec fn part_views(s: Seq<OcPart>) -> Seq<PartView> {
    s.map_values(|p: OcPart| part_view(p))
}

/// A message by identifier, session, role, creation time and parts.
pub type MessageView = (Seq<char>, Seq<char>, Seq<char>, i64, Seq<PartView>);

pub open spec fn message_view(m: OcMessage) -> MessageView {
    (m.info.id@, m.info.session_id@, m.info.role@, m.info.created, part_views(m.parts@))
}

pub open spec fn message_views(s: Seq<OcMessage>) -> Seq<MessageView> {
    s.map_values(|m: OcMessage| message_view(m))
}

/// Stored parts as message parts.
pub open spec fn raw_parts(v: Seq<String>) -> Seq<PartView> {
    v.map_values(|t: String| (0int, t@, Seq::<char>::empty(), Seq::<char>::empty(), Seq::<char>::empty()))
}

/// The part a tool event adds: a running call with its input, a completed
/// call with the tool as title and the summary as output, or a failed call
/// with its error (`tool error` when none is given).
pub open spec fn tool_part(e: EventRecord, p: EventPayload) -> PartView {
    let tool = match p.tool {
        Some(t) => t@,
        None => "unknown"@,
    };
    let cid = "call_"@ + signed_decimal(e.id as int);
    if e.event_type@ == "tool_call"@ {
        (
            1,
            cid,
            tool,
            match p.args {
                Some(a) => a@,
                None => Seq::empty(),
            },
            Seq::empty(),
        )
    } else if match p.success {
        Some(b) => b,
        None => true,
    } {
        (
            2,
            cid,
            tool,
            tool,
            match p.summary {
                Some(t) => t@,
                None => Seq::empty(),
            },
        )
    } else {
        (
            3,
            cid,
            tool,
            match p.error {
                Some(m) => m@,
                None => "tool error"@,
            },
            Seq::empty(),
        )
    }
}

/// Grouping state: the finished messages, and the current message's role,
/// parts, identifier and time.
pub type GroupView = (Seq<MessageView>, Seq<char>, Seq<PartView>, Seq<char>, i64);

/// One event folded into the grouping: a message event starts a new message
/// when the role changes (its parts carry on otherwise), a tool event adds a
/// part to the current message, and anything else is ignored.
pub open spec fn group_step(st: GroupView, e: EventRecord, sid: Seq<char>) -> GroupView {
    let (msgs, role, parts, id, time) = st;
    if e.event_type@ == "message"@ {
        match e.payload {
            None => st,
            Some(p) => {
                let r = match p.info_role {
                    Some(x) => x@,
                    None => "user"@,
                };
                let flush = role.len() > 0 && role != r;
                let msgs2 = if flush {
                    msgs.push((id, sid, role, time, parts))
                } else {
                    msgs
                };
                let parts2 = if flush {
                    Seq::empty()
                } else {
                    parts
                };
                let id2 = match p.info_id {
                    Some(x) => x@,
                    None => "msg_"@ + signed_decimal(e.id as int),
                };
                let time2 = match datetime_utc_millis(e.created_at@) {
                    Some(m) => m,
                    None => 0,
                };
                let parts3 = match p.parts {
                    Some(v) => parts2 + raw_parts(v@),
                    None => parts2,
                };
                (msgs2, r, parts3, id2, time2)
            },
        }
    } else if e.event_type@ == "tool_call"@ || e.event_type@ == "tool_result"@ {
        match e.payload {
            None => st,
            Some(p) => (msgs, role, parts.push(tool_part(e, p)), id, time),
        }
    } else {
        st
    }
}

/// The grouping state after the first `n` events.
pub open spec fn grouped(events: Seq<EventRecord>, n: int, sid: Seq<char>) -> GroupView
    decreases n,
{
    if n <= 0 {
        (Seq::empty(), Seq::empty(), Seq::empty(), Seq::empty(), 0)
    } else {
        group_step(grouped(events, n - 1, sid), events[n - 1], sid)
    }
}

/// A session's messages made of its events, the last one included.
pub open spec fn session_messages(sid: Seq<char>, events: Seq<EventRecord>) -> Seq<MessageView> {
    let (msgs, role, parts, id, time) = grouped(events, events.len() as int, sid);
    if role.len() > 0 {
        msgs.push((id, sid, role, time, parts))
    } else {
        msgs
    }
}

struct GroupAcc {
    messages: Vec<OcMessage>,
    role: String,
    parts: Vec<OcPart>,
    id: String,
    time: i64,
}

spec fn acc_view(a: GroupAcc) -> GroupView {
    (message_views(a.messages@), a.role@, part_views(a.parts@), a.id@, a.time)
}

fn flush_message(acc: &mut GroupAcc, sid: &str)
    ensures
        message_views(final(acc).messages@) == message_views(old(acc).messages@).push(
            (old(acc).id@, sid@, old(acc).role@, old(acc).time, part_views(old(acc).parts@)),
        ),
        final(acc).parts@.len() == 0,
        final(acc).role@ == old(acc).role@,
        final(acc).id@ == old(acc).id@,
        final(acc).time == old(acc).time,
{
    let parts = acc.parts.split_off(0);
    let m = OcMessage {
        info: OcMessageInfo {
            id: acc.id.clone(),
            session_id: to_string(sid),
            role: acc.role.clone(),
            created: acc.time,
        },
        parts,
    };
    let ghost before = acc.messages@;
    acc.messages.push(m);
    assert(message_views(acc.messages@) =~= message_views(before).push(message_view(m)));
    assert(parts@ =~= old(acc).parts@);
}

fn tool_event_part(e: &EventRecord, p: &EventPayload) -> (r: OcPart)
    ensures
        part_view(r) == tool_part(*e, *p),
{
    let tool = match &p.tool {
        Some(t) => t.clone(),
        None => to_string("unknown"),
    };
    let mut cid = to_string("call_");
    push_signed_decimal(&mut cid, e.id);
    if str_eq(e.event_type.as_str(), "tool_call") {
        let input = match &p.args {
            Some(a) => a.clone(),
            None => String::new(),
        };
        OcPart::Tool { call_id: cid, tool, state: ToolPartState::Running { input } }
    } else {
        let ok = match p.success {
            Some(b) => b,
            None => true,
        };
        if ok {
            let output = match &p.summary {
                Some(t) => t.clone(),
                None => String::new(),
            };
            let title = tool.clone();
            OcPart::Tool { call_id: cid, tool, state: ToolPartState::Completed { title, output } }
        } else {
            let message = match &p.error {
                Some(m) => m.clone(),
                None => to_string("tool error"),
            };
            OcPart::Tool { call_id: cid, tool, state: ToolPartState::Failed { message } }
        }
    }
}

fn group_event(acc: &mut GroupAcc, e: &EventRecord, sid: &str)
    ensures
        acc_view(*final(acc)) == group_step(acc_view(*old(acc)), *e, sid@),
{
    if str_eq(e.event_type.as_str(), "message") {
        if let Some(p) = &e.payload {
            let role = match &p.info_role {
                Some(x) => x.clone(),
                None => to_string("user"),
            };
            if !acc.role.as_str().is_empty() && !str_eq(acc.role.as_str(), role.as_str()) {
                flush_message(acc, sid);
            }
            assert(part_views(acc.parts@) =~= (if old(acc).role@.len() > 0 && old(acc).role@
                != role@ {
                Seq::<PartView>::empty()
            } else {
                part_views(old(acc).parts@)
            }));
            acc.role = role;
            let id = match &p.info_id {
                Some(x) => x.clone(),
                None => {
                    let mut t = to_string("msg_");
                    push_signed_decimal(&mut t, e.id);
                    t
                },
            };
            acc.id = id;
            acc.time =
            match parse_datetime_utc_millis(e.created_at.as_str()) {
                Some(m) => m,
                None => 0,
            };
            if let Some(v) = &p.parts {
                let ghost start = part_views(acc.parts@);
                let ghost frozen = (message_views(acc.messages@), acc.role@, acc.id@, acc.time);
                let mut k: usize = 0;
                while k < v.len()
                    invariant
                        k <= v@.len(),
                        part_views(acc.parts@) == start + raw_parts(v@.take(k as int)),
                        frozen == (message_views(acc.messages@), acc.role@, acc.id@, acc.time),
                    decreases v@.len() - k,
                {
                    let part = OcPart::Raw(v[k].clone());
                    let ghost before = acc.parts@;
                    acc.parts.push(part);
                    assert(part_views(acc.parts@) =~= part_views(before).push(part_view(part)));
                    assert(raw_parts(v@.take(k + 1)) =~= raw_parts(v@.take(k as int)).push(
                        part_view(part),
                    ));
                    k += 1;
                }
                assert(v@.take(v@.len() as int) =~= v@);
            }
        }
    } else if str_eq(e.event_type.as_str(), "tool_call") || str_eq(
        e.event_type.as_str(),
        "tool_result",
    ) {
        if let Some(p) = &e.payload {
            let part = tool_event_part(e, p);
            let ghost before = acc.parts@;
            acc.parts.push(part);
            assert(part_views(acc.parts@) =~= part_views(before).push(part_view(part)));
        }
    }
}

/// A session's messages, made of its run's events in order: consecutive
/// message events of one role make one message whose parts are theirs and
/// those of the tool events among them.
pub fn events_to_messages(session_id: &str, events: &Vec<EventRecord>) -> (r: Vec<OcMessage>)
    ensures
        message_views(r@) == session_messages(session_id@, events@),
{
    let mut acc = GroupAcc {
        messages: Vec::new(),
        role: String::new(),
        parts: Vec::new(),
        id: String::new(),
        time: 0,
    };
    assert(acc_view(acc) =~= grouped(events@, 0, session_id@));
    let mut i: usize = 0;
    while i < events.len()
        invariant
            i <= events@.len(),
            acc_view(acc) == grouped(events@, i as int, session_id@),
        decreases events@.len() - i,
    {
        group_event(&mut acc, &events[i], session_id);
        i += 1;
    }
    if !acc.role.as_str().is_empty() {
        flush_message(&mut acc, session_id);
    }
    acc.messages
}

/// Whether every message event names a non-empty role, when it names one.
pub open spec fn roles_named(events: Seq<EventRecord>) -> bool {
    forall|i: int|
        0 <= i < events.len() && events[i].event_type@ == "message"@ && (
        #[trigger] events[i]).payload is Some && events[i].payload->0.info_role is Some
            ==> events[i].payload->0.info_role->0@.len() > 0
}

/// Whether no two neighbouring messages share a role.
pub open spec fn roles_alternate(msgs: Seq<MessageView>) -> bool {
    forall|i: int| 0 <= i < msgs.len() - 1 ==> #[trigger] msgs[i].2 != msgs[i + 1].2
}

proof fn lemma_grouped_roles(events: Seq<EventRecord>, n: int, sid: Seq<char>)
    requires
        0 <= n <= events.len(),
        roles_named(events),
    ensures
        ({
            let (msgs, role, parts, id, time) = grouped(events, n, sid);
            &&& roles_alternate(msgs)
            &&& forall|i: int| 0 <= i < msgs.len() ==> (#[trigger] msgs[i]).2.len() > 0
            &&& msgs.len() > 0 ==> role.len() > 0 && msgs.last().2 != role
        }),
    decreases n,
{
    reveal_strlit("user");
    if n > 0 {
        lemma_grouped_roles(events, n - 1, sid);
        let e = events[n - 1];
        assert(events[n - 1] == e);
    }
}

/// Neighbouring messages of a session never share a role, and every message
/// has one, as long as no message event names an empty role.
pub proof fn lemma_messages_alternate(sid: Seq<char>, events: Seq<EventRecord>)
    requires
        roles_named(events),
    ensures
        roles_alternate(session_messages(sid, events)),
        forall|i: int|
            0 <= i < session_messages(sid, events).len() ==> (#[trigger] session_messages(
                sid,
                events,
            )[i]).2.len() > 0,
{
    lemma_grouped_roles(events, events.len() as int, sid);
}

/// What a broadcast to OpenCode clients carries.
#[derive(Debug, Clone)]
pub enum SsePayload {
    /// Text streamed into part `prt_text_0` of the assistant message.
    PartDelta { session_id: String, message_id: String, delta: String },
    /// A tool call that started, with its input.
    ToolRunning { session_id: String, call_id: String, tool: String, input: String },
    /// A tool call that finished.
    ToolSettled { session_id: String, call_id: String, state: ToolPartState },
    /// The final assistant message of agent `coder`, with its text and a
    /// step-finish part that counts the tokens.
    AssistantMessage {
        session_id: String,
        message_id: String,
        created: i64,
        text: String,
        total_tokens: usize,
    },
    SessionIdle { session_id: String },
    SessionStatus { session_id: String, busy: bool },
    SessionError { session_id: String, message: String },
}

/// A broadcast to OpenCode clients: its event type and payload.
#[derive(Debug, Clone)]
pub struct SseMessage {
    pub event_type: String,
    pub payload: SsePayload,
}

/// The identifier of a session's streamed assistant message.
pub open spec fn assistant_message_id(sid: Seq<char>) -> Seq<char> {
    "msg_assistant_"@ + sid
}

fn sse(event_type: &str, payload: SsePayload) -> (r: SseMessage)
    ensures
        r.event_type@ == event_type@,
        r.payload == payload,
{
    SseMessage { event_type: to_string(event_type), payload }
}

fn assistant_id(sid: &str) -> (r: String)
    ensures
        r@ == assistant_message_id(sid@),
{
    let mut r = to_string("msg_assistant_");
    push_str(&mut r, sid);
    r
}

/// The broadcasts an agent event makes for a session at `now_ms`: text
/// becomes a delta of the assistant message, tool calls update their part,
/// the end sends the final message and marks the session idle, an error is
/// reported and marks the session idle.
pub fn agent_event_broadcasts(session_id: &str, event: &WsAgentEvent, now_ms: i64) -> (r: Vec<
    SseMessage,
>)
    ensures
        match *event {
            WsAgentEvent::Thought { text, .. } | WsAgentEvent::Text { text, .. } => {
                &&& r@.len() == 1
                &&& r@[0].event_type@ == "message.part.delta"@
                &&& r@[0].payload matches SsePayload::PartDelta { session_id: s, message_id: m, delta: d }
                    && s@ == session_id@ && m@ == assistant_message_id(session_id@) && d@ == text@
            },
            WsAgentEvent::ToolCall { tool, call_id, args, .. } => {
                &&& r@.len() == 1
                &&& r@[0].event_type@ == "message.part.updated"@
                &&& r@[0].payload matches SsePayload::ToolRunning { session_id: s, call_id: c, tool: t, input: i }
                    && s@ == session_id@ && c@ == call_id@ && t@ == tool@ && i@ == args@
            },
            WsAgentEvent::ToolResult { call_id, success, summary, .. } => {
                &&& r@.len() == 1
                &&& r@[0].event_type@ == "message.part.updated"@
                &&& r@[0].payload matches SsePayload::ToolSettled { session_id: s, call_id: c, state: st }
                    && s@ == session_id@ && c@ == call_id@ && (if success {
                    st matches ToolPartState::Completed { title, output } && title@.len() == 0
                        && output@ == summary@
                } else {
                    st matches ToolPartState::Failed { message } && message@ == summary@
                })
            },
            WsAgentEvent::Done { summary, total_tokens, .. } => {
                &&& r@.len() == 3
                &&& r@[0].event_type@ == "message.updated"@
                &&& r@[0].payload matches SsePayload::AssistantMessage { session_id: s, message_id: m, created: c, text: t, total_tokens: n }
                    && s@ == session_id@ && m@ == assistant_message_id(session_id@) && c == now_ms
                    && t@ == summary@ && n == total_tokens
                &&& r@[1].event_type@ == "session.idle"@
                &&& r@[1].payload matches SsePayload::SessionIdle { session_id: s } && s@ == session_id@
                &&& r@[2].event_type@ == "session.status"@
                &&& r@[2].payload matches SsePayload::SessionStatus { session_id: s, busy: b } && s@
                    == session_id@ && !b
            },
            WsAgentEvent::Error { message, .. } => {
                &&& r@.len() == 2
                &&& r@[0].event_type@ == "session.error"@
                &&& r@[0].payload matches SsePayload::SessionError { session_id: s, message: m } && s@
                    == session_id@ && m@ == message@
                &&& r@[1].event_type@ == "session.status"@
                &&& r@[1].payload matches SsePayload::SessionStatus { session_id: s, busy: b } && s@
                    == session_id@ && !b
            },
        },
{
    let mut out: Vec<SseMessage> = Vec::new();
    match event {
        WsAgentEvent::Thought { text, .. } | WsAgentEvent::Text { text, .. } => {
            out.push(
                sse(
                    "message.part.delta",
                    SsePayload::PartDelta {
                        session_id: to_string(session_id),
                        message_id: assistant_id(session_id),
                        delta: text.clone(),
                    },
                ),
            );
        },
        WsAgentEvent::ToolCall { tool, call_id, args, .. } => {
            out.push(
                sse(
                    "message.part.updated",
                    SsePayload::ToolRunning {
                        session_id: to_string(session_id),
                        call_id: call_id.clone(),
                        tool: tool.clone(),
                        input: args.clone(),
                    },
                ),
            );
        },
        WsAgentEvent::ToolResult { call_id, success, summary, .. } => {
            let state = if *success {
                ToolPartState::Completed { title: String::new(), output: summary.clone() }
            } else {
                ToolPartState::Failed { message: summary.clone() }
            };
            out.push(
                sse(
                    "message.part.updated",
                    SsePayload::ToolSettled {
                        session_id: to_string(session_id),
                        call_id: call_id.clone(),
                        state,
                    },
                ),
            );
        },
        WsAgentEvent::Done { summary, total_tokens, .. } => {
            out.push(
                sse(
                    "message.updated",
                    SsePayload::AssistantMessage {
                        session_id: to_string(session_id),
                        message_id: assistant_id(session_id),
                        created: now_ms,
                        text: summary.clone(),
                        total_tokens: *total_tokens,
                    },
                ),
            );
            out.push(sse("session.idle", SsePayload::SessionIdle { session_id: to_string(session_id) }));
            out.push(
                sse(
                    "session.status",
                    SsePayload::SessionStatus { session_id: to_string(session_id), busy: false },
                ),
            );
        },
        WsAgentEvent::Error { message, .. } => {
            out.push(
                sse(
                    "session.error",
                    SsePayload::SessionError {
                        session_id: to_string(session_id),
                        message: message.clone(),
                    },
                ),
            );
            out.push(
                sse(
                    "session.status",
                    SsePayload::SessionStatus { session_id: to_string(session_id), busy: false },
                ),
            );
        },
    }
    out
}

/// A part of a prompt: its `type` and `text`, when they are strings.
#[derive(Debug, Clone)]
pub struct PromptPart {
    pub part_type: Option<String>,
    pub text: Option<String>,
}

/// The texts of the text parts, in order.
pub open spec fn prompt_texts(parts: Seq<PromptPart>) -> Seq<Seq<char>>
    decreases parts.len(),
{
    if parts.len() == 0 {
        Seq::empty()
    } else {
        let prev = prompt_texts(parts.drop_last());
        let p = parts.last();
        if p.part_type is Some && p.part_type->0@ == "text"@ && p.text is Some {
            prev.push(p.text->0@)
        } else {
            prev
        }
    }
}

/// The user's text of a prompt: its text parts joined by newlines; `None`
/// when that is empty.
pub fn prompt_text(parts: &Vec<PromptPart>) -> (r: Option<String>)
    ensures
        joined(prompt_texts(parts@), "\n"@).len() == 0 <==> r is None,
        r matches Some(t) ==> t@ == joined(prompt_texts(parts@), "\n"@),
{
    let mut out = String::new();
    let mut count: usize = 0;
    let mut i: usize = 0;
    while i < parts.len()
        invariant
            i <= parts@.len(),
            count == prompt_texts(parts@.take(i as int)).len(),
            count <= i,
            out@ == joined(prompt_texts(parts@.take(i as int)), "\n"@),
        decreases parts@.len() - i,
    {
        let p = &parts[i];
        assert(parts@.take(i + 1).drop_last() =~= parts@.take(i as int));
        let is_text = match &p.part_type {
            Some(t) => str_eq(t.as_str(), "text"),
            None => false,
        };
        if is_text {
            if let Some(t) = &p.text {
                let ghost prev = prompt_texts(parts@.take(i as int));
                assert(prev.push(t@).drop_last() =~= prev);
                if count > 0 {
                    push_str(&mut out, "\n");
                } else {
                    assert(out@ =~= Seq::<char>::empty());
                }
                push_str(&mut out, t.as_str());
                count = count + 1;
            }
        }
        i += 1;
    }
    assert(parts@.take(parts@.len() as int) =~= parts@);
    if out.as_str().is_empty() {
        None
    } else {
        Some(out)
    }
}

/// The title of a session a client asks for: its own, else `New Session`.
pub open spec fn requested_title(title: Option<String>) -> Seq<char> {
    match title {
        Some(t) => t@,
        None => "New Session"@,
    }
}

/// The session of a run just created for a client: the run's identifier,
/// the requested title, version 1.0, and the given creation and update times.
pub fn new_session(
    uuid: &[u8],
    title: &Option<String>,
    directory: String,
    created_ms: i64,
    updated_ms: i64,
) -> (r: OcSession)
    ensures
        r.id@ == session_id_text(uuid@),
        r.slug is None && r.project_id is None && r.parent_id is None,
        r.directory@ == directory@,
        r.title matches Some(t) && t@ == requested_title(*title),
        r.version matches Some(v) && v@ == "1.0"@,
        r.time matches Some(t) && t.created == created_ms && t.updated == updated_ms
            && t.compacting == Some(0i64) && t.archived == Some(0i64),
{
    let t = match title {
        Some(t) => t.clone(),
        None => to_string("New Session"),
    };
    OcSession {
        id: session_id_for(uuid),
        slug: None,
        project_id: None,
        directory,
        parent_id: None,
        title: Some(t),
        version: Some(to_string("1.0")),
        time: Some(
            OcSessionTime {
                created: created_ms,
                updated: updated_ms,
                compacting: Some(0),
                archived: Some(0),
            },
        ),
    }
}

/// Whether a run with this stored status shows as a busy session.
pub fn session_busy(status: &str) -> (r: bool)
    ensures
        r <==> status@ == "running"@,
{
    str_eq(status, "running")
}

proof fn lemma_grouped_prefix(events: Seq<EventRecord>, e: EventRecord, n: int, sid: Seq<char>)
    requires
        0 <= n <= events.len(),
    ensures
        grouped(events.push(e), n, sid) == grouped(events, n, sid),
    decreases n,
{
    if n > 0 {
        lemma_grouped_prefix(events, e, n - 1, sid);
        assert(events.push(e)[n - 1] == events[n - 1]);
    }
}

/// A successful tool result shows its summary: appending a `tool_result`
/// event whose payload does not report failure and carries summary `s`
/// adds to the message being built a completed part for call `call_<id>`
/// of the named tool, with the tool as title and exactly `s` as output, and
/// changes nothing else; once a message has been started, the session's
/// last message gains that part.
pub proof fn lemma_tool_result_shows_summary(
    sid: Seq<char>,
    events: Seq<EventRecord>,
    e: EventRecord,
    p: EventPayload,
    s: String,
)
    requires
        e.event_type@ == "tool_result"@,
        e.payload == Some(p),
        p.success != Some(false),
        p.summary == Some(s),
    ensures
        ({
            let before = grouped(events, events.len() as int, sid);
            let after = grouped(events.push(e), events.len() + 1int, sid);
            let tool = match p.tool {
                Some(t) => t@,
                None => "unknown"@,
            };
            let part = (2int, "call_"@ + signed_decimal(e.id as int), tool, tool, s@);
            &&& after == (before.0, before.1, before.2.push(part), before.3, before.4)
            &&& before.1.len() > 0 ==> ({
                let m0 = session_messages(sid, events);
                let m1 = session_messages(sid, events.push(e));
                &&& m1.len() == m0.len()
                &&& m1.drop_last() == m0.drop_last()
                &&& m1.last() == (m0.last().0, m0.last().1, m0.last().2, m0.last().3, m0.last().4.push(part))
            })
        }),
{
    reveal_strlit("tool_result");
    reveal_strlit("tool_call");
    reveal_strlit("message");
    lemma_grouped_prefix(events, e, events.len() as int, sid);
    assert(events.push(e)[events.len() as int] == e);
    assert(events.push(e).len() == events.len() + 1);
    let before = grouped(events, events.len() as int, sid);
    let tool = match p.tool {
        Some(t) => t@,
        None => "unknown"@,
    };
    let part = (2int, "call_"@ + signed_decimal(e.id as int), tool, tool, s@);
    let after = grouped(events.push(e), events.len() + 1int, sid);
    assert(after == group_step(before, e, sid));
    assert(e.event_type@ != "tool_call"@) by {
        assert("tool_result"@.len() != "tool_call"@.len());
    }
    assert(match p.success {
        Some(b) => b,
        None => true,
    });
    assert(tool_part(e, p) == part);
    assert(after == (before.0, before.1, before.2.push(part), before.3, before.4));
    if before.1.len() > 0 {
        let m0 = session_messages(sid, events);
        let m1 = session_messages(sid, events.push(e));
        assert(m0 == before.0.push((before.3, sid, before.1, before.4, before.2)));
        assert(m1 == after.0.push((after.3, sid, after.1, after.4, after.2)));
        assert(m0.drop_last() =~= before.0);
        assert(m1.drop_last() =~= before.0);
    }
}

} // verus!
