//! Layered configuration lookup: command-line overrides, environment,
//! repository and system stores, resolved in a fixed order of precedence.

pub mod error;
pub mod text;
pub mod source;
pub mod ambient;
pub mod memory;
pub mod store;
pub mod config;
pub mod field;
pub mod dump;
pub mod pager;
pub mod laws;
