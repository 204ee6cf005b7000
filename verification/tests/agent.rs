use brain_backend::agent::chat::{chat_command, record_exchange, ChatCommand};
use brain_backend::agent::agent_loop::{
    build_system_prompt, system_prompt_at, collapse_old_tool_calls, prune_history, AgentMessage, PruneLimits, WsAgentEvent,
};
use brain_backend::agent::todo::{todo_created_output, todo_list_output, todo_missing_error, todo_updated_output, TodoItem};
use brain_backend::agent::tool_trait::{estimate_tokens, ToolImportance, ToolOutput, ToolValue};
use brain_backend::agent::tools_browser::BrowserNavigate;
use brain_backend::agent::tools_file::{FileOps, GrepFile, PathResolution};
use brain_backend::agent::tools_shell::ShellExec;
use brain_backend::agent::turn::{content_for_llm, episode_memory, summary_of, tool_call_event, AgentTurn, TurnStep};
use brain_backend::provider::llm::{LlmError, LlmMessage, LlmToolCall, LlmToolResult};

fn msg(role: &str, content: &str, importance: ToolImportance) -> AgentMessage {
    AgentMessage { role: role.to_string(), content: content.to_string(), importance }
}

fn text_of(o: &ToolOutput) -> &str {
    match &o.result {
        ToolValue::Text(t) => t.as_str(),
        ToolValue::Json(j) => j.as_str(),
    }
}

#[test]
fn tool_token_estimate() {
    assert_eq!(estimate_tokens(""), 0u32);
    assert_eq!(estimate_tokens("hello world test"), 4u32);
    let o = ToolOutput::text("12345678", ToolImportance::Low).with_summary("short");
    assert_eq!(o.token_estimate, 2);
    assert_eq!(o.summary.as_deref(), Some("short"));
    let e = ToolOutput::error("boom");
    assert_eq!(e.importance, ToolImportance::Normal);
    let j = ToolOutput::new("{\"a\":1}".to_string(), ToolImportance::High);
    assert_eq!(j.token_estimate, 1);
}

#[test]
fn prune_keeps_high_and_caps_others() {
    let history = vec![
        msg("user", "first question", ToolImportance::High),
        msg("tool", "low one", ToolImportance::Low),
        msg("tool", "low two", ToolImportance::Low),
        msg("tool", "normal one", ToolImportance::Normal),
        msg("assistant", "answer", ToolImportance::High),
    ];
    let lim = PruneLimits { threshold: 1000, max_normal: 20, max_low: 1 };
    let out = prune_history(&history, lim);
    let contents: Vec<&str> = out.iter().map(|m| m.content.as_str()).collect();
    assert_eq!(
        contents,
        vec!["[Earlier: 1 observations pruned from context]", "first question", "low two", "normal one", "answer"]
    );
    assert_eq!(out[0].role, "system");
    assert_eq!(out[0].importance, ToolImportance::High);
}

#[test]
fn prune_respects_token_threshold() {
    let big = "x".repeat(400);
    let history = vec![
        msg("tool", &big, ToolImportance::Normal),
        msg("tool", "small", ToolImportance::Normal),
        msg("user", &big, ToolImportance::High),
    ];
    let lim = PruneLimits { threshold: 150, max_normal: 20, max_low: 5 };
    let out = prune_history(&history, lim);
    assert_eq!(out.len(), 3);
    assert_eq!(out[0].content, "[Earlier: 1 observations pruned from context]");
    assert_eq!(out[1].content, "small");
    assert_eq!(out[2].content, big);
}

#[test]
fn prune_without_skips_has_no_note() {
    let history = vec![msg("user", "q", ToolImportance::High), msg("tool", "r", ToolImportance::Normal)];
    let out = prune_history(&history, PruneLimits { threshold: 6400, max_normal: 20, max_low: 5 });
    assert_eq!(out.len(), 2);
    assert_eq!(out[0].content, "q");
}

fn chat(role: &str, content: &str) -> LlmMessage {
    LlmMessage { role: role.to_string(), content: content.to_string(), tool_call_id: None, tool_calls: None }
}

#[test]
fn collapse_keeps_head_and_last_twelve() {
    let mut m = vec![chat("system", "sys"), chat("user", "task")];
    for i in 0..8 {
        m.push(chat("assistant", &format!("a{i}")));
        m.push(chat("tool", &format!("t{i}")));
    }
    collapse_old_tool_calls(&mut m);
    assert_eq!(m.len(), 2 + 1 + 12);
    assert_eq!(m[0].content, "sys");
    assert_eq!(m[1].content, "task");
    assert_eq!(m[2].role, "system");
    assert_eq!(m[2].content, "[2 tool results completed]");
    assert_eq!(m[3].content, "a2");
    assert_eq!(m[14].content, "t7");
}

#[test]
fn collapse_leaves_short_chats() {
    let mut m = vec![chat("system", "sys"), chat("user", "task"), chat("assistant", "a"), chat("tool", "t")];
    collapse_old_tool_calls(&mut m);
    assert_eq!(m.len(), 4);
}

#[test]
fn system_prompt_text() {
    let p = build_system_prompt(0, 5, 3, 2025, 9, 7);
    assert!(p.starts_with("Ты — AI-агент Brain. Сегодня понедельник, 5 марта 2025 года, 09:07 MSK.\n\n"));
    assert!(p.ends_with("- Отвечай на языке пользователя. Будь краток."));
    assert!(p.contains("Принципы:\n- Действуй решительно."));
}

#[test]
fn system_prompt_years() {
    assert!(build_system_prompt(6, 1, 1, 7, 0, 0).contains("воскресенье, 1 января 0007 года, 00:00 MSK."));
    assert!(build_system_prompt(6, 1, 1, 12345, 0, 0).contains(" +12345 года"));
    assert!(build_system_prompt(6, 1, 1, -44, 0, 0).contains(" -0044 года"));
}

#[test]
fn system_prompt_at_moments() {
    let p = system_prompt_at(1741154820).unwrap();
    assert!(p.starts_with("Ты — AI-агент Brain. Сегодня среда, 5 марта 2025 года, 09:07 MSK.\n\n"));
    // 22:30 UTC on New Year's Eve: the clock is already in January, the year is still the UTC one.
    let q = system_prompt_at(1735684200).unwrap();
    assert!(q.starts_with("Ты — AI-агент Brain. Сегодня среда, 1 января 2024 года, 01:30 MSK.\n\n"));
    assert_eq!(system_prompt_at(i64::MAX), None);
}

#[test]
fn shell_rewrites_known_commands() {
    let rtk = ShellExec::new("/tmp".to_string(), 30, true);
    assert_eq!(rtk.rewrite_with_rtk("  ls  "), "rtk ls");
    assert_eq!(rtk.rewrite_with_rtk("git status"), "rtk git status");
    assert_eq!(rtk.rewrite_with_rtk("read file.txt"), "rtk read file.txt");
    assert_eq!(rtk.rewrite_with_rtk("python script.py"), "python3 script.py");
    assert_eq!(rtk.rewrite_with_rtk("python"), "python3");
    assert_eq!(rtk.rewrite_with_rtk(" echo hi"), " echo hi");
    let plain = ShellExec::new("/tmp".to_string(), 30, false);
    assert_eq!(plain.rewrite_with_rtk(" ls "), " ls ");
}

#[test]
fn shell_deny_list() {
    assert_eq!(
        ShellExec::check_command("sudo rm -rf / --no-preserve-root").unwrap_err(),
        "blocked: command matches deny-list 'rm -rf /'"
    );
    assert_eq!(ShellExec::blocked_pattern("mkfs.ext4 /dev/x"), Some("mkfs"));
    assert!(ShellExec::check_command("echo hello").is_ok());
}

#[test]
fn shell_output_text() {
    let o = ShellExec::command_output("hello\n", "", Some(0));
    assert_eq!(text_of(&o), "hello\n");
    assert_eq!(o.importance, ToolImportance::Low);
    let o = ShellExec::command_output("", "", Some(2));
    assert_eq!(text_of(&o), "exit 2");
    let o = ShellExec::command_output("", "", None);
    assert_eq!(text_of(&o), "exit -1");
    let o = ShellExec::command_output("out", "err", Some(1));
    assert_eq!(text_of(&o), "out\n--- stderr ---\nerr");
    let long = "y".repeat(2500);
    let o = ShellExec::command_output(&long, "", Some(0));
    assert_eq!(text_of(&o), format!("{}\n... (truncated)", "y".repeat(2000)));
}

#[test]
fn file_paths_are_confined() {
    let ops = FileOps::new("/w".to_string());
    let ok = PathResolution { root: "/w".to_string(), parent_error: None, resolved: "/w/a.txt".to_string() };
    assert_eq!(ops.validate_path("a.txt", &ok).unwrap(), "/w/a.txt");
    assert_eq!(ops.validate_path("../etc/passwd", &ok).unwrap_err(), "path traversal rejected");
    assert_eq!(ops.validate_path("/etc/passwd", &ok).unwrap_err(), "absolute path rejected");
    let bad_parent = PathResolution { parent_error: Some("gone".to_string()), ..ok.clone() };
    assert_eq!(ops.validate_path("a/b", &bad_parent).unwrap_err(), "parent dir error: gone");
    let escaped = PathResolution { resolved: "/wx/a".to_string(), ..ok.clone() };
    assert_eq!(ops.validate_path("link", &escaped).unwrap_err(), "path escapes workspace");
}

#[test]
fn browser_page_is_cut() {
    let _b = BrowserNavigate::new();
    let o = BrowserNavigate::page_output(&"z".repeat(9000));
    assert_eq!(text_of(&o).len(), 8000);
    assert_eq!(o.importance, ToolImportance::Normal);
}

fn item(task: &str, status: &str, title: &str) -> TodoItem {
    TodoItem {
        id: 1,
        run_id: 1,
        task_id: task.to_string(),
        title: title.to_string(),
        description: String::new(),
        status: status.to_string(),
        created_at: String::new(),
        updated_at: String::new(),
    }
}

#[test]
fn todo_texts() {
    let items = vec![item("t1", "pending", "Create file"), item("t2", "done", "Execute")];
    assert_eq!(text_of(&todo_created_output(&items)), "created 2: t1, t2");
    assert_eq!(text_of(&todo_list_output(&items)), "[pending] t1: Create file\n[done] t2: Execute");
    assert_eq!(text_of(&todo_updated_output(&items[1])), "t2 → done");
    assert_eq!(todo_missing_error("t9"), "task 't9' not found");
    assert_eq!(todo_created_output(&items).importance, ToolImportance::High);
}

#[test]
fn agent_turn_flow() {
    let history = vec![msg("user", "earlier", ToolImportance::High)];
    let lim = PruneLimits { threshold: 6400, max_normal: 20, max_low: 5 };
    let turn = AgentTurn::start("SYS".to_string(), &history, lim, "do it");
    let roles: Vec<&str> = turn.messages.iter().map(|m| m.role.as_str()).collect();
    assert_eq!(roles, vec!["system", "user", "user"]);
    assert_eq!(turn.messages[2].content, "do it");
    let call = LlmToolCall { id: "c1".to_string(), name: "list_dir".to_string(), arguments: "{\"path\":\".\"}".to_string() };
    let reply = LlmToolResult { content: "checking".to_string(), tool_calls: vec![call], tokens_used: 150, tokens_input: 100, tokens_output: 50 };
    let (turn, calls, events) = match turn.llm_replied(reply, 7) {
        TurnStep::RunTools(t, c, e) => (t, c, e),
        TurnStep::Finished(..) => panic!("tool calls expected"),
    };
    assert_eq!(calls.len(), 1);
    assert_eq!(events.len(), 1);
    assert!(matches!(&events[0], WsAgentEvent::Thought { text, ts: 7 } if text == "checking"));
    assert_eq!(turn.messages.last().unwrap().role, "assistant");
    let call_ev = tool_call_event(&calls[0], 8);
    assert!(matches!(&call_ev, WsAgentEvent::ToolCall { tool, call_id, args, ts: 8 }
        if tool == "list_dir" && call_id == "c1" && args == "{\"path\":\".\"}"));
    let (turn, result_ev) = turn.tool_finished(&calls[0], ToolOutput::text("a.txt", ToolImportance::Normal), true, 9);
    assert!(matches!(&result_ev, WsAgentEvent::ToolResult { call_id, success: true, summary, ts: 9 }
        if call_id == "c1" && summary == "a.txt"));
    let last = turn.messages.last().unwrap();
    assert_eq!(last.role, "tool");
    assert_eq!(last.content, "a.txt");
    assert_eq!(last.tool_call_id.as_deref(), Some("c1"));
    let turn = turn.end_round();
    assert_eq!(turn.messages[0].content, "Continue. Use tools as needed.");
    let done = LlmToolResult { content: "done".to_string(), tool_calls: vec![], tokens_used: 80, tokens_input: 50, tokens_output: 30 };
    match turn.llm_replied(done, 10) {
        TurnStep::Finished(r, ev) => {
            assert_eq!(r.content, "done");
            assert_eq!(r.tokens_used, 230);
            assert_eq!(r.tool_results.len(), 1);
            assert_eq!(r.tool_results[0].name, "list_dir");
            assert!(matches!(ev, WsAgentEvent::Done { ref summary, total_tokens: 230, total_calls: 1, ts: 10 }
                if summary == "done"));
        }
        TurnStep::RunTools(..) => panic!("answer expected"),
    }
}

#[test]
fn tool_calls_without_text_send_no_thought() {
    let turn = AgentTurn::start("SYS".to_string(), &vec![], PruneLimits { threshold: 10, max_normal: 1, max_low: 1 }, "x");
    let call = LlmToolCall { id: "c".to_string(), name: "grep".to_string(), arguments: "{}".to_string() };
    let reply = LlmToolResult { content: String::new(), tool_calls: vec![call], tokens_used: 1, tokens_input: 1, tokens_output: 0 };
    match turn.llm_replied(reply, 0) {
        TurnStep::RunTools(_, _, events) => assert!(events.is_empty()),
        TurnStep::Finished(..) => panic!("tool calls expected"),
    }
}

#[test]
fn tool_result_summary_is_cut() {
    let turn = AgentTurn::start("SYS".to_string(), &vec![], PruneLimits { threshold: 10, max_normal: 1, max_low: 1 }, "x");
    let call = LlmToolCall { id: "c".to_string(), name: "shell_exec".to_string(), arguments: "{}".to_string() };
    let (_, ev) = turn.tool_finished(&call, ToolOutput::error(&"é".repeat(300)), false, 3);
    assert!(matches!(ev, WsAgentEvent::ToolResult { success: false, ref summary, .. } if summary.chars().count() == 200));
    let o = ToolOutput::text("long", ToolImportance::Normal).with_summary("short");
    assert_eq!(summary_of(&o), "short");
}

#[test]
fn agent_turn_error() {
    let turn = AgentTurn::start("SYS".to_string(), &vec![], PruneLimits { threshold: 10, max_normal: 1, max_low: 1 }, "x");
    let (r, ev) = turn.llm_failed(&LlmError::Provider("mock failure".to_string()), 5);
    assert_eq!(r.content, "Error: provider error: mock failure");
    assert_eq!(r.tokens_used, 0);
    assert!(r.tool_results.is_empty());
    assert!(matches!(ev, WsAgentEvent::Error { ref message, ts: 5 } if message == "Error: provider error: mock failure"));
}

#[test]
fn model_sees_summary_or_cut_json() {
    let o = ToolOutput::new("x".repeat(5000), ToolImportance::Normal);
    assert_eq!(content_for_llm(&o).len(), 4000);
    let s = ToolOutput::new("{}".to_string(), ToolImportance::Normal).with_summary("sum");
    assert_eq!(content_for_llm(&s), "sum");
}

#[test]
fn episode_memory_filtered() {
    assert_eq!(
        episode_memory("what is rust", "a systems programming language").as_deref(),
        Some("User: what is rust\nAgent: a systems programming language")
    );
    assert_eq!(episode_memory("", ""), None);
}

#[test]
fn terminal_agent_events() {
    assert!(WsAgentEvent::Done { summary: String::new(), total_tokens: 1, total_calls: 1, ts: 0 }.is_terminal());
    assert!(WsAgentEvent::Error { message: String::new(), ts: 0 }.is_terminal());
    assert!(!WsAgentEvent::Thought { text: String::new(), ts: 0 }.is_terminal());
}

#[test]
fn grep_numbers_matching_lines() {
    let content = "fn main() {\r\n    print('hello world')\n}\nprint\r";
    let hits = GrepFile::matching_lines(content, "print").unwrap();
    let got: Vec<(usize, &str)> = hits.iter().map(|m| (m.line, m.text.as_str())).collect();
    assert_eq!(got, vec![(2, "    print('hello world')"), (4, "print\r")]);
    let by_std: Vec<(usize, &str)> =
        content.lines().enumerate().filter(|(_, l)| l.contains("print")).map(|(i, l)| (i + 1, l)).collect();
    assert_eq!(got, by_std);
    let all = GrepFile::matching_lines("a\n\nb\n", "^$").unwrap();
    assert_eq!(all.iter().map(|m| m.line).collect::<Vec<_>>(), vec![2]);
    assert!(GrepFile::matching_lines("", ".").unwrap().is_empty());
}

#[test]
fn grep_rejects_invalid_pattern() {
    let e = GrepFile::matching_lines("abc", "(").unwrap_err();
    assert!(e.starts_with("invalid regex: "));
    assert!(e.len() > "invalid regex: ".len());
}

#[test]
fn chat_commands() {
    assert!(matches!(chat_command("  \n"), ChatCommand::Skip));
    assert!(matches!(chat_command("/quit\n"), ChatCommand::Quit));
    assert!(matches!(chat_command("/exit"), ChatCommand::Quit));
    assert!(matches!(chat_command(" /q "), ChatCommand::Quit));
    assert!(matches!(chat_command("/history\n"), ChatCommand::History));
    assert!(matches!(chat_command("/clear"), ChatCommand::Clear));
    assert!(matches!(chat_command("  list the files \n"), ChatCommand::Ask(m) if m == "list the files"));
    assert!(matches!(chat_command("/quit now"), ChatCommand::Ask(m) if m == "/quit now"));
}

#[test]
fn chat_history_records_exchanges() {
    let mut history = Vec::new();
    record_exchange(&mut history, "hi", "hello".to_string());
    assert_eq!(history.len(), 2);
    assert_eq!((history[0].role.as_str(), history[0].content.as_str()), ("user", "hi"));
    assert_eq!(history[0].importance, ToolImportance::High);
    assert_eq!((history[1].role.as_str(), history[1].content.as_str()), ("assistant", "hello"));
    assert_eq!(history[1].importance, ToolImportance::Normal);
}
