//! The bot's store: its rows and the operations on them.

pub mod models;
pub mod repository;

pub use repository::Database;
pub mod laws;
