pub mod config;
pub mod history;
pub mod laws;
