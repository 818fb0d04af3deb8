//! Persistence core of a schema-driven content platform.
//!
//! Given declarative document type definitions, the crate derives a
//! normalized relational table layout, plans additive migrations against a
//! live database, builds parameterized SELECT statements over that layout,
//! and decodes result rows back into typed document instances.

pub mod api;
pub mod derivation;
pub mod document;
pub mod ident;
pub mod migration;
pub mod persisted;
pub mod queries;
pub mod query;
pub mod registry;
pub mod repository;
pub mod schema;
pub mod strutil;
pub mod tables;
