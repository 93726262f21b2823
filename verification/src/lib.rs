//! Session-based authentication for a small web backend.
//!
//! The core is the session resolver: extract a session token from the
//! request's cookies, look the token up among the stored sessions, check
//! that the session has not expired, look up the owning user, check that
//! the user has not been soft-deleted, and hand the result to the two
//! auth gates (mandatory and optional) that request handlers sit behind.

pub mod auth;
pub mod clock;
pub mod laws;
pub mod records;
pub mod responses;
pub mod store;
