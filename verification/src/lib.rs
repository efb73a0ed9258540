//! Verification of bearer tokens that a remote issuer signs with rotating keys.
//!
//! The crate decides whether a credential string is a validly signed, unexpired
//! and correctly audience-scoped identity assertion, and hands out its claims.
//! Every function carries a contract that Verus proves; the few calls into
//! other crates are marked as trusted where they stand.

pub mod error;
pub mod claims;
pub mod der;
pub mod keys;
pub mod trial;
pub mod trial_laws;
pub mod extractor;
pub mod scheduler;
pub mod fcm_messaging;
pub mod firebase_auth;
pub mod cache;
