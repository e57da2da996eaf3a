//! A typed query and condition engine for relational databases.
//!
//! The crate turns declarative model metadata into an intermediate model
//! representation for migration tooling and into dialect-specific SQL text
//! with bound parameter lists, and it decodes result rows back into typed
//! values.  Model metadata is collected once, at registration time, in an
//! explicit [`registry::Registry`]; conditions are plain data
//! ([`condition::Condition`]); SQL rendering never inlines a runtime value
//! into the text, every value becomes a placeholder.

pub mod annotations;
pub mod condition;
pub mod foreign;
pub mod imr;
pub mod max_str;
pub mod patch;
pub mod query;
pub mod registry;
pub mod row;
pub mod sql;
pub mod text;
pub mod value;
