//! A unified error taxonomy for a confidential-transaction wallet client.
//!
//! The wallet coordinates three collaborators — a blockchain state query
//! service, a transaction-proving service, and a local encrypted store —
//! each with its own failure domain. This crate defines one closed unified
//! error type, scoped error unions for each collaborator, a total and
//! lossless conversion layer from every collaborator surface into the
//! unified type, a pure classification of every error by remediation, and
//! a rendering of every error to its diagnostic text.

pub mod boundary;
pub mod classify;
pub mod convert;
pub mod domain;
pub mod error;
pub mod laws;
pub mod outside;
pub mod render;
