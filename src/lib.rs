//! Verification of bearer credentials against a store of user records.
//!
//! A presented `Authorization` header is canonicalized into a fingerprint
//! (the lowercase hex SHA-512 digest of the trimmed token), the fingerprint is
//! looked up by the caller, and every outcome is mapped to an HTTP status and
//! a JSON body.

pub mod fingerprint;
pub mod response;
pub mod handler;
pub mod lemmas;
