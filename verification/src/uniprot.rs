//! Everything that speaks the upstream identifier-mapping service's
//! language: its query shape, endpoints, and response bodies.

pub mod idmapping;
