use brain_backend::api::{memory_admission, MemoryRefusal};
use brain_backend::context::builder::{
    assemble_context, estimate_tokens, ContextBuilder, ContextSources, MemoryLine, ProjectInfo,
};
use brain_backend::memory::heuristic;
use brain_backend::memory::ingestion::{compute_content_hash, duplicate_result, ingest_action, stored_result, IngestAction};

#[test]
fn test_estimate_tokens() {
    assert_eq!(estimate_tokens(""), 0);
    assert_eq!(estimate_tokens("hello"), 1);
    assert_eq!(estimate_tokens("hello world test"), 4);
}

#[test]
fn test_heuristic_filter() {
    let r = heuristic::check_content("hi");
    assert!(!r.passed);
    assert!(r.reason.unwrap().contains("too short"));

    let r = heuristic::check_content("hello world");
    assert!(!r.passed);
    assert!(r.reason.unwrap().contains("too few words"));

    let r = heuristic::check_content("test test");
    assert!(!r.passed);

    let r = heuristic::check_content("12345 67890 11111");
    assert!(!r.passed);

    let r = heuristic::check_content("This is a meaningful memory about Rust programming");
    assert!(r.passed);
    assert!(r.reason.is_none());
}

#[test]
fn test_heuristic_layer_validation() {
    assert!(heuristic::validate_layer_for_project("global_profile", None).is_ok());
    assert!(heuristic::validate_layer_for_project("global_profile", Some(1)).is_err());
    assert!(heuristic::validate_layer_for_project("project", Some(1)).is_ok());
    assert!(heuristic::validate_layer_for_project("project", None).is_err());
    assert!(heuristic::validate_layer_for_project("episodic", Some(1)).is_ok());
    assert!(heuristic::validate_layer_for_project("episodic", None).is_err());
    assert!(heuristic::validate_layer_for_project("working", Some(1)).is_ok());
    assert!(heuristic::validate_layer_for_project("working", None).is_err());
    assert!(heuristic::validate_layer_for_project("invalid", Some(1)).is_err());
}

#[test]
fn layer_error_messages() {
    assert_eq!(
        heuristic::validate_layer_for_project("project", None).unwrap_err(),
        "project layer requires project_id"
    );
    assert_eq!(heuristic::validate_layer_for_project("x", None).unwrap_err(), "invalid layer: x");
}

fn sources(max: usize, memories: Vec<MemoryLine>, history: Option<&str>) -> ContextSources {
    ContextSources {
        run_id: 5,
        project_id: Some(2),
        max_memory_tokens: max,
        system_prompt: Some("You are helpful".to_string()),
        tools_json: Some("[{\"name\":\"search\"}]".to_string()),
        project: Some(ProjectInfo { name: "ctx-test".to_string(), config_json: "{}".to_string() }),
        memories,
        conversation_history: history.map(|h| h.to_string()),
    }
}

#[test]
fn assembled_context_slots_and_prompt() {
    let ctx = assemble_context(&sources(10000, vec![], None));
    let names: Vec<&str> = ctx.slots.iter().map(|s| s.slot.as_str()).collect();
    assert_eq!(names, vec!["system_prompt", "tools_json", "project"]);
    assert_eq!(ctx.memory_count, 0);
    let total: usize = ctx.slots.iter().map(|s| s.token_estimate).sum();
    assert_eq!(ctx.total_tokens, total);
    let prompt = ContextBuilder::format_prompt(&ctx);
    assert!(prompt.starts_with("=== system_prompt ===\nYou are helpful\n\n=== tools_json ==="));
    assert!(prompt.contains("=== project ===\nProject: ctx-test\nConfig: {}"));
}

#[test]
fn memories_fill_the_budget_in_order() {
    let mems = vec![
        MemoryLine { memory_type: "fact".to_string(), content: "a".repeat(40) },
        MemoryLine { memory_type: "fact".to_string(), content: "b".repeat(400) },
        MemoryLine { memory_type: "fact".to_string(), content: "c".repeat(40) },
    ];
    let ctx = assemble_context(&sources(40, mems, Some("hi there")));
    assert!(ctx.total_tokens <= 40);
    assert_eq!(ctx.memory_count, 2);
    let mem = ctx.slots.iter().find(|s| s.slot == "memories").unwrap();
    assert!(mem.content.starts_with("[fact] aaaa"));
    assert!(mem.content.contains("[fact] cccc"));
    assert!(!mem.content.contains('b'));
}

#[test]
fn content_hash_is_sha256() {
    let h = compute_content_hash("abc");
    assert_eq!(
        h,
        vec![
            0xba, 0x78, 0x16, 0xbf, 0x8f, 0x01, 0xcf, 0xea, 0x41, 0x41, 0x40, 0xde, 0x5d, 0xae, 0x22, 0x23,
            0xb0, 0x03, 0x61, 0xa3, 0x96, 0x17, 0x7a, 0x9c, 0xb4, 0x10, 0xff, 0x61, 0xf2, 0x00, 0x15, 0xad
        ]
    );
    let d = duplicate_result(9);
    assert_eq!(d.memory_id, 9);
    assert!(d.is_duplicate);
    assert_eq!(d.superseded_id, None);
}

#[test]
fn memory_admission_decisions() {
    assert_eq!(
        memory_admission(&None, Some(1), "This is a meaningful memory about Rust programming").unwrap(),
        "working"
    );
    match memory_admission(&Some("global_profile".to_string()), Some(1), "whatever it is here") {
        Err(MemoryRefusal::Layer(m)) => assert_eq!(m, "global_profile layer must have project_id = NULL"),
        _ => panic!("layer refusal expected"),
    }
    match memory_admission(&None, Some(1), "hi") {
        Err(MemoryRefusal::Content(m)) => assert!(m.contains("too short")),
        _ => panic!("content refusal expected"),
    }
}

#[test]
fn stored_result_reports_last_superseded() {
    let none = stored_result(5, &Vec::new());
    assert_eq!(none.memory_id, 5);
    assert!(!none.is_duplicate);
    assert_eq!(none.superseded_id, None);
    let some = stored_result(8, &vec![3, 4, 6]);
    assert_eq!(some.memory_id, 8);
    assert!(!some.is_duplicate);
    assert_eq!(some.superseded_id, Some(6));
}

fn numbered_words(prefix: &str, n: usize) -> String {
    (1..=n).map(|k| format!("{prefix}{k:02}")).collect::<Vec<_>>().join(" ")
}

#[test]
fn near_duplicates_share_prefix_and_words() {
    // 25 words of 3 letters and a space: the first 100 bytes are the same.
    let common = numbered_words("w", 25);
    let a = format!("{common} x1 x2");
    let b = format!("{common} y1");
    let pairs = heuristic::find_similar_in_batch(&[a.as_str(), b.as_str()]);
    assert_eq!(
        pairs,
        vec![heuristic::SimilarPair { first: 0, second: 1, shared_words: 25, distinct_words: 28 }]
    );
    let similarity = pairs[0].shared_words as f64 / pairs[0].distinct_words as f64;
    assert!(similarity > 0.8);
}

#[test]
fn same_prefix_with_few_shared_words_is_kept() {
    let common = numbered_words("w", 25);
    let a = format!("{common} {}", numbered_words("a", 10));
    let b = format!("{common} {}", numbered_words("b", 10));
    assert!(heuristic::find_similar_in_batch(&[a.as_str(), b.as_str()]).is_empty());
}

#[test]
fn duplicate_pairs_come_in_order() {
    let x = "alpha beta gamma delta";
    let y = "ALPHA BETA GAMMA DELTA";
    let pairs = heuristic::find_similar_in_batch(&[x, y, x, x]);
    let found: Vec<(usize, usize)> = pairs.iter().map(|p| (p.first, p.second)).collect();
    assert_eq!(found, vec![(0, 2), (0, 3), (2, 3)]);
    assert!(pairs.iter().all(|p| p.shared_words == 4 && p.distinct_words == 4));
    assert!(heuristic::find_similar_in_batch(&[]).is_empty());
}

#[test]
fn duplicate_keys_ignore_case() {
    let common = numbered_words("w", 10);
    let a = format!("Alpha {common}");
    let b = format!("alpha {common}");
    let pairs = heuristic::find_similar_in_batch(&[a.as_str(), b.as_str()]);
    assert_eq!(
        pairs,
        vec![heuristic::SimilarPair { first: 0, second: 1, shared_words: 10, distinct_words: 12 }]
    );
}

#[test]
fn ingest_actions() {
    assert!(matches!(ingest_action(Some(4), &vec![(1, true)]), IngestAction::Skip(4)));
    match ingest_action(None, &vec![(7, true), (8, false), (9, true)]) {
        IngestAction::Store(ids) => assert_eq!(ids, vec![7, 9]),
        IngestAction::Skip(_) => panic!("store expected"),
    }
    match ingest_action(None, &vec![]) {
        IngestAction::Store(ids) => assert!(ids.is_empty()),
        IngestAction::Skip(_) => panic!("store expected"),
    }
}
