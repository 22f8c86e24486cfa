//! pi-brain: a local knowledge base of documents with full-text search,
//! content deduplication and soft deletes.
pub mod excerpt;
pub mod hash;
pub mod text;
pub mod sql;
pub mod domain;
pub mod clock;
pub mod ids;
pub mod json;
pub mod documents;
pub mod error;
pub mod search;
pub mod stats;
pub mod client;
pub mod ui;
pub mod startup;
pub mod laws;
