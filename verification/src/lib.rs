//! Core of an authentication service: validated credentials, user, revocation
//! and two-factor challenge stores, password hashing, session tokens and the
//! sign-up / log-in / verification / log-out flows built on them.

pub mod domain;
pub mod routes;
pub mod services;
pub mod utils;
