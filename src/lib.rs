//! Reconciliation of an identity provider's profile with a locally stored
//! account on every OAuth login, and the redirect that hands the result back.

pub mod account;
pub mod laws;
pub mod package;
pub mod reconcile;
pub mod redirect;
