//! Session tokens and the constants that go with them.

pub mod auth;

pub use auth::{validate_token, JWT_COOKIE_NAME};
