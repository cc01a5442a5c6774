//! Authentication core: password policy and hashing, credential-to-account
//! resolution, single-use verification tokens, sessions with a time to live,
//! and the register / login use cases built on them.
//!
//! The relational tables (`store`) and the session cache (`session`) are held
//! in memory and changed through exclusive borrows, so each use case is one
//! atomic step. Time and randomness come from outside crates at the edges:
//! the operations that draw them hand the values to functions that take them
//! as arguments (`login_at`, `create_at`, `complete_registration_at`, ...),
//! whose contracts say exactly what happens for each value.

pub mod error;
pub mod search;
pub mod text;
mod random;

pub mod store;
pub mod session;
pub mod password;
pub mod verification;
pub mod accounts;
pub mod auth;
pub mod laws;

pub mod config;
pub mod email;
pub mod api;
pub mod db_url;

pub use error::{AuthError, ErrorCode, VerificationError};
