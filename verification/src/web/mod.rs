//! The HTTP service's decisions: route attributes, route paths, the router
//! layout, CORS policy, session cookies, health reporting, todo handling and
//! documentation pages.

pub mod attributes;
pub mod cors;
pub mod docs;
pub mod headers;
pub mod health;
pub mod responses;
pub mod routes;
pub mod server;
pub mod session;
pub mod todo;
