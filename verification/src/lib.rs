//! Request validation and user-record projection for a user-account service.
//!
//! The crate checks incoming request shapes field by field, collecting every
//! violation instead of stopping at the first, projects internal user records
//! into a secret-free external view, and wraps results in a uniform response
//! envelope.

pub mod dtos;
pub mod errors;
pub mod laws;
pub mod models;
pub mod projector;
pub mod response;
pub mod rules;
