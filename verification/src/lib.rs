//! A provider-facing gateway core: it turns parsed HTTP requests into calls
//! on a pluggable pod backend, guards the single shared backend instance with
//! a reader/writer lock, and translates backend errors into HTTP statuses.

pub mod dispatch;
pub mod error;
pub mod memory;
pub mod models;
pub mod provider;
pub mod routes;
pub mod types;
pub mod utils;
pub mod wire;
