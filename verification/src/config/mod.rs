use vstd::prelude::*;
use crate::text::{copy_opt, opt_text, parse_unsigned, parsed_unsigned, push_str, to_string};

verus! {

/// The application's configuration.
#[derive(Debug, Clone)]
pub struct AppConfig {
    pub data_dir: String,
    pub listen_addr: String,
    pub listen_port: u16,
    pub master_key_hex: Option<String>,
    pub embedding_provider: EmbeddingProviderConfig,
    pub llm_provider: LlmProviderConfig,
}

/// Where embeddings come from.
#[derive(Debug, Clone)]
pub struct EmbeddingProviderConfig {
    pub provider_type: String,
    pub endpoint: String,
    pub api_key: Option<String>,
    pub model: String,
    pub dimensions: usize,
}

/// Where completions come from.
#[derive(Debug, Clone)]
pub struct LlmProviderConfig {
    pub provider_type: String,
    pub endpoint: String,
    pub api_key: Option<String>,
    pub model: String,
    pub max_tokens: usize,
}

/// The configuration variables as found in the environment (`None` when a
/// variable is unset or not Unicode).
#[derive(Debug, Clone)]
pub struct ConfigVars {
    pub data_dir: Option<String>,
    pub listen_addr: Option<String>,
    pub listen_port: Option<String>,
    pub master_key: Option<String>,
    pub embedding_provider_type: Option<String>,
    pub embedding_endpoint: Option<String>,
    pub embedding_api_key: Option<String>,
    pub embedding_model: Option<String>,
    pub embedding_dimensions: Option<String>,
    pub llm_provider_type: Option<String>,
    pub llm_endpoint: Option<String>,
    pub llm_api_key: Option<String>,
    pub llm_model: Option<String>,
    pub llm_max_tokens: Option<String>,
}

/// A numeric configuration variable that does not parse: which one, and its
/// text.
#[derive(Debug, Clone)]
pub enum ConfigError {
    ListenPort(String),
    EmbeddingDimensions(String),
    LlmMaxTokens(String),
}

/// A variable's value, or its default.
pub open spec fn or_default(v: Option<String>, d: Seq<char>) -> Seq<char> {
    match v {
        Some(s) => s@,
        None => d,
    }
}

fn value_or(v: &Option<String>, d: &str) -> (r: String)
    ensures
        r@ == or_default(*v, d@),
{
    match v {
        Some(s) => s.clone(),
        None => to_string(d),
    }
}

/// Build the configuration from its variables: each unset variable takes its
/// default, and the port, embedding dimension and token limit must parse.
pub fn config_from_vars(vars: &ConfigVars) -> (r: Result<AppConfig, ConfigError>)
    ensures
        parsed_unsigned(or_default(vars.listen_port, "8642"@), u16::MAX as int) is None ==> (r matches Err(e) && e is ListenPort),
        r matches Ok(c) ==> {
            &&& c.data_dir@ == or_default(vars.data_dir, "~/.brain"@)
            &&& c.listen_addr@ == or_default(vars.listen_addr, "0.0.0.0"@)
            &&& Some(c.listen_port as int) == parsed_unsigned(
                or_default(vars.listen_port, "8642"@),
                u16::MAX as int,
            )
            &&& opt_text(c.master_key_hex) == opt_text(vars.master_key)
            &&& c.embedding_provider.provider_type@ == or_default(
                vars.embedding_provider_type,
                "ollama"@,
            )
            &&& c.embedding_provider.endpoint@ == or_default(
                vars.embedding_endpoint,
                "http://localhost:11434"@,
            )
            &&& opt_text(c.embedding_provider.api_key) == opt_text(vars.embedding_api_key)
            &&& c.embedding_provider.model@ == or_default(vars.embedding_model, "bge-m3"@)
            &&& Some(c.embedding_provider.dimensions as int) == parsed_unsigned(
                or_default(vars.embedding_dimensions, "1024"@),
                usize::MAX as int,
            )
            &&& c.llm_provider.provider_type@ == or_default(vars.llm_provider_type, "openai"@)
            &&& c.llm_provider.endpoint@ == or_default(
                vars.llm_endpoint,
                "https://api.openai.com/v1"@,
            )
            &&& opt_text(c.llm_provider.api_key) == opt_text(vars.llm_api_key)
            &&& c.llm_provider.model@ == or_default(vars.llm_model, "gpt-4o-mini"@)
            &&& Some(c.llm_provider.max_tokens as int) == parsed_unsigned(
                or_default(vars.llm_max_tokens, "4096"@),
                usize::MAX as int,
            )
        },
        r is Ok <==> (parsed_unsigned(or_default(vars.listen_port, "8642"@), u16::MAX as int)
            is Some && parsed_unsigned(or_default(vars.embedding_dimensions, "1024"@), usize::MAX as int)
            is Some && parsed_unsigned(or_default(vars.llm_max_tokens, "4096"@), usize::MAX as int)
            is Some),
{
    let data_dir = value_or(&vars.data_dir, "~/.brain");
    let listen_addr = value_or(&vars.listen_addr, "0.0.0.0");
    let port_text = value_or(&vars.listen_port, "8642");
    let listen_port: u16 = match parse_unsigned(port_text.as_str(), 65535) {
        Some(p) => p as u16,
        None => return Err(ConfigError::ListenPort(port_text)),
    };
    let max: u64 = usize::MAX as u64;
    assert(max as int == usize::MAX as int);
    let dims_text = value_or(&vars.embedding_dimensions, "1024");
    let dims: u64 = match parse_unsigned(dims_text.as_str(), max) {
        Some(d) => d,
        None => return Err(ConfigError::EmbeddingDimensions(dims_text)),
    };
    let tokens_text = value_or(&vars.llm_max_tokens, "4096");
    let tokens: u64 = match parse_unsigned(tokens_text.as_str(), max) {
        Some(t) => t,
        None => return Err(ConfigError::LlmMaxTokens(tokens_text)),
    };
    let cfg = AppConfig {
            data_dir,
            listen_addr,
            listen_port,
            master_key_hex: copy_opt(&vars.master_key),
            embedding_provider: EmbeddingProviderConfig {
                provider_type: value_or(&vars.embedding_provider_type, "ollama"),
                endpoint: value_or(&vars.embedding_endpoint, "http://localhost:11434"),
                api_key: copy_opt(&vars.embedding_api_key),
                model: value_or(&vars.embedding_model, "bge-m3"),
                dimensions: dims as usize,
            },
            llm_provider: LlmProviderConfig {
                provider_type: value_or(&vars.llm_provider_type, "openai"),
                endpoint: value_or(&vars.llm_endpoint, "https://api.openai.com/v1"),
                api_key: copy_opt(&vars.llm_api_key),
                model: value_or(&vars.llm_model, "gpt-4o-mini"),
                max_tokens: tokens as usize,
            },
        };
    Ok(cfg)
}

} // verus!
