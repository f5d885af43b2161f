//! Session, cookie and upload authentication logic of the tgstate file host.

pub mod auth;
pub mod constants;
pub mod laws;
pub mod middleware;
pub mod outside;
pub mod routes;
pub mod text;
