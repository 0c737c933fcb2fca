//! A relationship-aware authorization core for a user/group resource server.
//!
//! Each incoming operation is turned into a policy-evaluation request —
//! a principal, an action, a resource, and the facts the decision needs —
//! and judged against a compiled policy store. Evaluation is default-deny:
//! a request is allowed exactly when at least one permit rule matches and
//! no forbid rule matches.

pub mod domain;
pub mod engine;
pub mod entity;
pub mod error;
pub mod eval;
pub mod laws;
pub mod policy;
pub mod rbac;
pub mod service;
pub mod uid_text;
