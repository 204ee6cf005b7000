pub mod heuristic;
pub mod ingestion;
