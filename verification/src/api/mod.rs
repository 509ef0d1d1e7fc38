//! What the engine offers over HTTP.
pub mod auth;
pub mod http_protocol;
pub mod laws;
pub mod routes;
pub mod state;
pub mod types;
