//! Verified core of the FluxVM control plane.

pub mod api;
pub mod cgroup;
pub mod cli;
pub mod cloud_hypervisor;
pub mod container;
pub mod fleet;
pub mod json;
pub mod keyed;
pub mod labels;
pub mod sandbox_index;
pub mod message_laws;
pub mod text;
pub mod text_laws;
pub mod token;
pub mod vm;
