//! Containers inside a virtual machine: the messages between host and guest, and
//! what the guest does with them.

pub mod address;
pub mod agent;
pub mod agent_laws;
pub mod child;
pub mod client;
pub mod client_laws;
pub mod faithful;
pub mod launch;
pub mod limit_laws;
pub mod line;
pub mod protocol;
pub mod oci;
pub mod process;
pub mod resources;
pub mod schedule;
pub mod setup;
pub mod told_laws;
pub mod wire;
