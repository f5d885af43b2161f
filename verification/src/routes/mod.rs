//! HTTP route handlers.

pub mod api_auth;
