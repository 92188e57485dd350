//! The HTTP interface of a node.
pub mod auth;
pub mod laws;
pub mod metrics;
pub mod oidc;
pub mod records;
pub mod requests;
pub mod route_laws;
pub mod routes;
