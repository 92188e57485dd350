//! The registry of a fleet of nodes, and placement of virtual machines on them.

pub mod agent;
pub mod central;
pub mod client;
pub mod laws;
pub mod node;
pub mod registry;
