use brain_backend::api::file_content;
use brain_backend::config::{config_from_vars, ConfigError, ConfigVars};
use brain_backend::db::ids::{new_uuid_blob, new_uuid_bytes};
use brain_backend::db::vec_table_ddl;
use brain_backend::opencode_api::session_uuid;
use brain_backend::project::repository::project_root_path;
use brain_backend::provider::embedding::{check_dimensions, cohere_model_setup, EmbeddingError};
use brain_backend::provider::llm::{interpret_completion, token_usage, LlmError, RawChoice, RawToolCall, RawUsage};
use brain_backend::settings::providers::{update_statement, SqlValue, UpdateProviderRequest};
use brain_backend::settings::{saved_limits, SaveProviderRequest};
use brain_backend::vault::repository::SealedCredential;
use brain_backend::workspace::fs_backend::FsWorkspaceBackend;
use brain_backend::workspace::{check_workspace_path, join_path, WorkspaceBackend, WorkspaceError};

#[test]
fn uuids_are_version_7() {
    let a = new_uuid_bytes();
    assert_eq!(a[6] >> 4, 7);
    assert_eq!(a[8] & 0xC0, 0x80);
    let b = new_uuid_blob();
    assert_eq!(b.len(), 16);
    assert_eq!(b[6] >> 4, 7);
    assert_ne!(new_uuid_blob(), new_uuid_blob());
}

#[test]
fn vec_table_statements() {
    let ddl = vec_table_ddl(1024).unwrap();
    assert!(ddl.starts_with("CREATE VIRTUAL TABLE IF NOT EXISTS vec_mem_1024 USING vec0("));
    assert!(ddl.contains("embedding float[1024] distance_metric=cosine"));
    assert_eq!(vec_table_ddl(100).unwrap_err(), "dimensions 100 not in whitelist");
}

#[test]
fn hex_and_base64() {
    let ws = FsWorkspaceBackend::new("/data".to_string());
    assert_eq!(ws.uuid_hex(&[0x00, 0x9f, 0xa0]), "009fa0");
    assert_eq!(session_uuid("009FA0"), Some(vec![0x00, 0x9f, 0xa0]));
    assert_eq!(session_uuid("0"), None);
    assert_eq!(file_content(vec![0xff, 0xfe, 0xfd]).content, "//79");
    assert_eq!(file_content(vec![0xff, 0xfe]).content, "//4=");
    assert_eq!(file_content(vec![0xff]).content, "/w==");
}

#[test]
fn file_content_encodings() {
    let t = file_content(b"hello world".to_vec());
    assert_eq!(t.content, "hello world");
    assert_eq!(t.encoding, "utf-8");
    let b = file_content(vec![0xff, 0x00]);
    assert_eq!(b.content, "/wA=");
    assert_eq!(b.encoding, "base64");
}

#[test]
fn workspace_roots_and_paths() {
    let ws = FsWorkspaceBackend::new("/data".to_string());
    assert_eq!(ws.uuid_hex(&[0xab, 0x01]), "ab01");
    assert_eq!(ws.workspace_root(&[0xab, 0x01]), "/data/projects/ab01/workspace");
    assert_eq!(project_root_path("/data", &[0xab, 0x01]), ws.workspace_root(&[0xab, 0x01]));
    assert_eq!(join_path("/a/", "b"), "/a/b");
    assert_eq!(join_path("/a", "/b"), "/b");
    assert_eq!(join_path("", "b"), "b");
    let root = "/data/projects/ab01/workspace";
    assert_eq!(check_workspace_path("test.txt", root, "/data/projects/ab01/workspace/test.txt").unwrap(), "/data/projects/ab01/workspace/test.txt");
    assert!(matches!(check_workspace_path("../etc/passwd", root, "/x"), Err(WorkspaceError::PathTraversal(p)) if p == "../etc/passwd"));
    assert!(matches!(check_workspace_path("/etc/passwd", root, "/etc/passwd"), Err(WorkspaceError::AbsolutePath(_))));
    assert!(matches!(check_workspace_path("l", root, "/etc"), Err(WorkspaceError::SymlinkEscape(_))));
    assert_eq!(WorkspaceError::NotFound("f".to_string()).message(), "file not found: f");
}

fn no_vars() -> ConfigVars {
    ConfigVars {
        data_dir: None,
        listen_addr: None,
        listen_port: None,
        master_key: None,
        embedding_provider_type: None,
        embedding_endpoint: None,
        embedding_api_key: None,
        embedding_model: None,
        embedding_dimensions: None,
        llm_provider_type: None,
        llm_endpoint: None,
        llm_api_key: None,
        llm_model: None,
        llm_max_tokens: None,
    }
}

#[test]
fn config_defaults_and_errors() {
    let c = config_from_vars(&no_vars()).unwrap();
    assert_eq!(c.data_dir, "~/.brain");
    assert_eq!(c.listen_addr, "0.0.0.0");
    assert_eq!(c.listen_port, 8642);
    assert_eq!(c.embedding_provider.model, "bge-m3");
    assert_eq!(c.embedding_provider.dimensions, 1024);
    assert_eq!(c.llm_provider.endpoint, "https://api.openai.com/v1");
    assert_eq!(c.llm_provider.max_tokens, 4096);
    let c = config_from_vars(&ConfigVars { listen_port: Some("+9000".to_string()), ..no_vars() }).unwrap();
    assert_eq!(c.listen_port, 9000);
    assert!(matches!(
        config_from_vars(&ConfigVars { listen_port: Some("70000".to_string()), ..no_vars() }),
        Err(ConfigError::ListenPort(_))
    ));
    assert!(matches!(
        config_from_vars(&ConfigVars { embedding_dimensions: Some("x".to_string()), ..no_vars() }),
        Err(ConfigError::EmbeddingDimensions(_))
    ));
    assert!(matches!(
        config_from_vars(&ConfigVars { llm_max_tokens: Some("".to_string()), ..no_vars() }),
        Err(ConfigError::LlmMaxTokens(_))
    ));
}

fn env() -> SealedCredential {
    SealedCredential { encrypted_dek: vec![1], dek_nonce: vec![2], ciphertext: vec![3], ciphertext_nonce: vec![4] }
}

#[test]
fn provider_update_statement() {
    let none = UpdateProviderRequest { name: None, base_url: None, api_key: None, enabled: None, is_default: None };
    assert!(update_statement(3, &none, &env()).is_none());
    let req = UpdateProviderRequest {
        name: Some("p".to_string()),
        base_url: None,
        api_key: Some("k".to_string()),
        enabled: Some(false),
        is_default: None,
    };
    let st = update_statement(3, &req, &env()).unwrap();
    assert_eq!(
        st.sql,
        "UPDATE providers SET name = ?1, api_key_encrypted = ?2, api_key_dek_nonce = ?3, api_key_ciphertext = ?4, api_key_ciphertext_nonce = ?5, enabled = ?6, updated_at = strftime('%Y-%m-%dT%H:%M:%fZ', 'now') WHERE id = ?7"
    );
    assert_eq!(st.params.len(), 7);
    assert!(matches!(&st.params[0], SqlValue::Text(t) if t == "p"));
    assert!(matches!(&st.params[4], SqlValue::Blob(b) if b == &vec![4u8]));
    assert!(matches!(st.params[5], SqlValue::Integer(0)));
    assert!(matches!(st.params[6], SqlValue::Integer(3)));
}

#[test]
fn saved_settings_defaults() {
    let req = SaveProviderRequest {
        base_url: "u".to_string(),
        api_key: None,
        llm_model: "m".to_string(),
        llm_max_tokens: None,
        embedding_model: "e".to_string(),
        embedding_dimensions: Some(384),
        embedding_endpoint: None,
    };
    assert_eq!(saved_limits(&req), (8192, 384));
}

#[test]
fn completion_interpretation() {
    let choice = RawChoice {
        content: None,
        tool_calls: Some(vec![
            RawToolCall { id: "a".to_string(), name: "f".to_string(), arguments: "{ \"x\" : 1 }".to_string() },
            RawToolCall { id: "b".to_string(), name: "g".to_string(), arguments: "not json".to_string() },
        ]),
    };
    let usage = RawUsage { total_tokens: Some(100), prompt_tokens: None, completion_tokens: None };
    let r = interpret_completion(&vec![choice], Some(usage)).unwrap();
    assert_eq!(r.content, "");
    assert_eq!(r.tool_calls.len(), 1);
    assert_eq!(r.tool_calls[0].id, "a");
    assert_eq!(r.tool_calls[0].arguments, "{\"x\":1}");
    assert_eq!((r.tokens_used, r.tokens_input, r.tokens_output), (100, 70, 30));
    assert!(matches!(interpret_completion(&vec![], None), Err(LlmError::Provider(m)) if m == "no choices"));
    assert_eq!(token_usage(None), (0, 0, 0));
}

#[test]
fn provider_error_messages() {
    assert_eq!(LlmError::ContextLengthExceeded { tokens: 9 }.message(), "context length exceeded: 9 tokens");
    assert_eq!(LlmError::RateLimited.message(), "rate limited");
    assert_eq!(
        EmbeddingError::DimensionMismatch { expected: 1024, actual: 3 }.message(),
        "dimension mismatch: expected 1024, got 3"
    );
    assert_eq!(EmbeddingError::RateLimited { retry_after_ms: 5 }.message(), "rate limited, retry after 5ms");
    assert_eq!(cohere_model_setup(None), ("embed-multilingual-v3.0".to_string(), 1024));
    assert_eq!(cohere_model_setup(Some("embed-english-light-v3.0".to_string())).1, 384);
}

#[test]
fn embedding_dimensions_checked() {
    assert!(check_dimensions(&vec![3, 3], 3).is_ok());
    assert!(matches!(
        check_dimensions(&vec![3, 2, 5], 3),
        Err(EmbeddingError::DimensionMismatch { expected: 3, actual: 2 })
    ));
}

#[test]
fn uuid_bytes_read_back() {
    let blob = new_uuid_blob();
    assert_eq!(brain_backend::db::ids::bytes_to_uuid(&blob), Ok(blob.clone()));
    let err = brain_backend::db::ids::bytes_to_uuid(&[1, 2, 3]).unwrap_err();
    assert_eq!(err, format!("invalid UUID bytes: {}", uuid::Uuid::from_slice(&[1, 2, 3]).unwrap_err()));
}
