pub mod crypto;
pub mod repository;
