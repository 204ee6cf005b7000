pub mod run;
pub mod text;
pub mod vault;
pub mod memory;
pub mod context;
pub mod agent;
pub mod provider;
pub mod db;
pub mod encoding;
pub mod workspace;
pub mod opencode_api;
pub mod ws_agent;
pub mod settings;
pub mod project;
pub mod config;
pub mod api;
