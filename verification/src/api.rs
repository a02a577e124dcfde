//! The diagnostic HTTP surface.

pub mod routes;
