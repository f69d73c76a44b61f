//! Identity and access-control core.
//!
//! The crate authenticates a principal's credentials (memory-hard password
//! hashing with a decoy hash for timing-attack mitigation), issues and
//! validates signed expiring tokens in two independent roles, manages a
//! per-session anti-forgery token, and evaluates role/ownership
//! authorization decisions against a declarative policy.

pub mod authz;
pub mod credentials;
pub mod csrf;
pub mod flows;
pub mod input_rules;
pub mod store;
pub mod text;
pub mod token;
pub mod validation;
