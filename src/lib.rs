//! Typed client for the Kromer2 flavour of the Krist API.
//!
//! The library shapes requests (paths, query parameters, the base URL join) and
//! normalises responses into typed values or a [`KromerError`]; the transport
//! itself is driven by the caller.
pub mod client;
pub mod endpoints;
pub mod error;
pub mod model;

pub use client::KromerClient;
pub use error::KromerError;
