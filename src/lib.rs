//! Session store and background OAuth2 token-refresh engine.
//!
//! The crate keeps each user's session record (a JSON object that always holds
//! a `token` member), caches records locally, and decides which sessions are
//! due for renewal, how renewals are spread over time, and what becomes of a
//! session once its renewal succeeds or fails.
pub mod assoc;
mod clock;
pub mod config;
pub mod json;
pub mod middleware;
mod random;
pub mod record;
pub mod refresh;
pub mod session_id;
pub mod store;
pub mod token;
