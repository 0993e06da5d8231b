//! A minimal session-token issuer: credentials in, opaque token out, and a
//! registry that resolves a token back to the user it was issued to.

pub mod auth;
pub mod error;
pub mod laws;
pub mod shared;
pub mod store;
pub mod token_id;
