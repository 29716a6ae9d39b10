//! Verified core of a production-style HTTP backend: configuration rules,
//! pagination, path routing, CORS policy, session-cookie parsing, health
//! reporting, todo service decisions and password hashing.

pub mod text;
pub mod configuration;
pub mod orm;
pub mod web;
pub mod auth;
