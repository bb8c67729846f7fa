//! A frontend for ad-hoc needs.
pub mod endpoint;
