//! Request middleware.

pub mod auth;
