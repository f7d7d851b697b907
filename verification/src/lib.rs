//! Access control for a multi-operation data service.
//!
//! Every operation of the service declares the minimum tier a caller must
//! hold. This crate validates the policy document that assigns those tiers,
//! builds a per-request credential from a session cookie or an
//! `Authorization` header, resolves it against what the identity store
//! answered, and decides whether the caller may proceed.

pub mod codec;
pub mod credential;
pub mod document;
pub mod error;
pub mod gate;
pub mod policy;
pub mod request;
pub mod tier;
