pub mod tool_trait;
pub mod tools_shell;
pub mod tools_file;
pub mod tools_browser;
pub mod agent_loop;
pub mod turn;
pub mod todo;
pub mod chat;
