//! Layered startup settings for an edge daemon.
//!
//! A built-in default document is overlaid with an optional override
//! document, field by field, and the result is decoded into typed settings.

pub mod defaults;
pub mod document;
pub mod error;
pub mod json;
pub mod laws;
pub mod merge;
pub mod provisioning;
pub mod runtime;
pub mod schema;
pub mod settings;
pub mod uri;
