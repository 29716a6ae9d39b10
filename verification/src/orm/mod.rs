//! The store layer's own logic: error classification, pagination, hook
//! control flow and the registry of schema fields.

pub mod error;
pub mod hooks;
pub mod registry;
pub mod types;
