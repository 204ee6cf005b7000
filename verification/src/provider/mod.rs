pub mod llm;
pub mod embedding;
