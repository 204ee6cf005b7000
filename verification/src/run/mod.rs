pub mod state;
pub mod repository;
pub mod context;
pub mod tools;
pub mod events;
