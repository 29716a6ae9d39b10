//! Application configuration: the schema with its defaults, the rules a
//! loaded configuration must satisfy, and the decisions of the file watcher
//! that reloads it.

pub mod schema;
pub mod validate;
pub mod watcher;
