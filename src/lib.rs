//! Credential handling, session values and the decisions of the user and
//! authentication endpoints of a personal expense tracker.
pub mod expense;
pub mod guards;
pub mod hasher;
pub mod routes;
pub mod service;
pub mod session;
pub mod user;
