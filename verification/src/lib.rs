//! Verified core of a small account service: configuration loading,
//! password hashing and verification, the user models, and the decisions
//! that the HTTP handlers take around them.

pub mod api;
pub mod db;
pub mod errors;
pub mod models;
pub mod utils;
