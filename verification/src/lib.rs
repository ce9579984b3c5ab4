//! Quick Deploy: the logic of a service that deploys a template repository
//! as an edge-compute service.
//!
//! The server keeps nothing between requests. What it knows of a user
//! travels in a cookie (`session`). A request is handled step by step
//! (`request`): it is routed and decided by the rules in `handlers`, and the
//! deployment itself is a sequence of calls to two platforms, described as
//! plain data (`http`) and driven one reply at a time (`deploy`, `scdn`,
//! `github`). Nothing here sends anything: the caller carries out each step
//! and hands back what came (`flow`).
//!
//! `config` reads what a template declares that it needs, `manifest` edits
//! the service manifest, `templates` holds what the pages show. `tree`,
//! `json`, `toml_doc`, `nesting`, `encoding` and `text` are the documents
//! and texts that the rest is made of.

pub mod config;
pub mod deploy;
pub mod encoding;
pub mod error;
pub mod flow;
pub mod github;
pub mod handlers;
pub mod http;
pub mod json;
pub mod manifest;
pub mod nesting;
pub mod request;
pub mod scdn;
pub mod session;
pub mod templates;
pub mod text;
pub mod toml_doc;
pub mod tree;
