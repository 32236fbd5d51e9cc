//! Authentication core of a GraphQL API server: bearer-token parsing,
//! password hashing, access-token issuing and checking, and the decisions
//! taken around the GraphQL backend calls.

pub mod auth;
pub mod bearer;
pub mod config;
pub mod crypto;
pub mod error;
pub mod operations;
pub mod schema;

pub use error::{encrypt, Error, Result};
