pub mod config;
pub mod handlers;
pub mod laws;
pub mod store;
pub mod text;
