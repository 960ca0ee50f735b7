//! Keeps evaluations that are written locally in step with those that a remote service
//! holds: a specification is lowered to the form of the service, the identity of its
//! content is taken, and for each specification it is decided whether a new evaluation
//! is to be created, the metadata of an existing one is to be set, or nothing is to be
//! done.
//!
//! Nothing here reads a file or sends a request. What is to be sent, and what a response
//! means, is decided here; the sending is the caller's.

pub mod text;
pub mod textmap;
pub mod json;
pub mod encode;
pub mod literal;
pub mod evals;
pub mod schema;
pub mod simple;
pub mod template;
pub mod to_openai;
pub mod identity;
pub mod reconcile;
pub mod client;
pub mod cache;
pub mod paths;
pub mod project;
pub mod global;
pub mod files;
pub mod auth;
